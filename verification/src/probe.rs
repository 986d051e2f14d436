//! The search for a file name that is not taken yet.
//!
//! The search never looks at a directory itself. `NameProbe` names one
//! candidate at a time and is told whether that name is taken;
//! `get_unique_filename` runs it against a listing of the directory.

use vstd::prelude::*;
use vstd::pervasive::unreached;
use vstd::string::StringExecFns;
use crate::decimal::decimal_string;
use crate::names::candidate;
use crate::names::dotted_extension;
use crate::names::first_free;
use crate::names::is_first_free;
use crate::names::is_smallest_numbered;
use crate::names::lemma_first_free;
use crate::names::lemma_free_name_is_kept;
use crate::names::lemma_listed_names_finite;
use crate::names::lemma_taken_name_gets_smallest_number;
use crate::names::listed_names;
use crate::names::numbered;
use crate::names::split_name;
use crate::names::stem_of;
use crate::names::unique_name;
use crate::paths::file_name_of;
use crate::paths::path_file_name;
use crate::text::same_text;
use crate::text::texts;

verus! {

/// The message for a file name without a final component.
pub open spec fn no_file_name_message() -> Seq<char> {
    "Invalid file name"@
}

/// What a `NameProbe` stands for: the name wanted, and how many candidates
/// were found taken so far.
pub struct ProbeView {
    pub name: Seq<char>,
    pub attempt: nat,
}

/// A search for a free file name, one candidate at a time.
#[derive(Debug)]
pub struct NameProbe {
    name: String,
    stem: String,
    extension: String,
    attempt: u64,
    current: String,
}

/// The outcome of one step of a `NameProbe`.
#[derive(Debug)]
pub enum ProbeStep {
    /// The candidate was free: the search ends with this name.
    Found(String),
    /// The candidate was taken: the search goes on with the next one.
    Retry(NameProbe),
    /// The candidate was taken and the numbers have run out.
    Exhausted,
}

impl View for NameProbe {
    type V = ProbeView;

    closed spec fn view(&self) -> ProbeView {
        ProbeView { name: self.name@, attempt: self.attempt as nat }
    }
}

impl NameProbe {
    #[verifier::type_invariant]
    spec fn well_formed(&self) -> bool {
        &&& self.stem@ == stem_of(self.name@)
        &&& self.extension@ == dotted_extension(self.name@)
        &&& self.current@ == candidate(self.name@, self.attempt as nat)
    }

    /// Starts the search for the file name `name`.
    pub fn for_name(name: &str) -> (probe: NameProbe)
        ensures
            probe@ == (ProbeView { name: name@, attempt: 0 }),
    {
        let (stem, extension) = split_name(name);
        let dotted = match extension {
            Some(e) => {
                proof {
                    reveal_strlit(".");
                }
                let mut dotted = String::from_str(".");
                dotted.append(e.as_str());
                assert(dotted@ =~= seq!['.'] + e@);
                dotted
            },
            None => String::new(),
        };
        NameProbe {
            name: name.to_owned(),
            stem,
            extension: dotted,
            attempt: 0,
            current: name.to_owned(),
        }
    }

    /// Starts the search for the final component of `filename`, and fails
    /// where it has none.
    pub fn start(filename: &str) -> (r: Result<NameProbe, String>)
        ensures
            match path_file_name(filename@) {
                Some(name) => r matches Ok(probe) && probe@ == (ProbeView { name, attempt: 0 }),
                None => r matches Err(message) && message@ == no_file_name_message(),
            },
    {
        match file_name_of(filename) {
            Some(name) => Ok(NameProbe::for_name(name.as_str())),
            None => Err(String::from_str("Invalid file name")),
        }
    }

    /// The name to try now.
    pub fn candidate(&self) -> (name: &str)
        ensures
            name@ == candidate(self@.name, self@.attempt),
    {
        proof {
            use_type_invariant(self);
        }
        self.current.as_str()
    }

    /// Ends the search where the candidate is free, and moves to the next
    /// candidate where it is taken.
    pub fn step(self, taken: bool) -> (r: ProbeStep)
        ensures
            !taken ==> (r matches ProbeStep::Found(name) && name@ == candidate(
                self@.name,
                self@.attempt,
            )),
            taken && self@.attempt < u64::MAX ==> (r matches ProbeStep::Retry(next) && next@ == (
            ProbeView { name: self@.name, attempt: self@.attempt + 1 })),
            taken && self@.attempt == u64::MAX ==> r is Exhausted,
    {
        proof {
            use_type_invariant(&self);
        }
        if !taken {
            ProbeStep::Found(self.current)
        } else if self.attempt < u64::MAX {
            let attempt = self.attempt + 1;
            proof {
                reveal_strlit(" (");
                reveal_strlit(")");
            }
            let mut current = self.stem.clone();
            current.append(" (");
            current.append(decimal_string(attempt as u128).as_str());
            current.append(")");
            current.append(self.extension.as_str());
            assert(current@ =~= numbered(self.name@, attempt as nat));
            ProbeStep::Retry(
                NameProbe {
                    name: self.name,
                    stem: self.stem,
                    extension: self.extension,
                    attempt,
                    current,
                },
            )
        } else {
            ProbeStep::Exhausted
        }
    }
}

/// Whether a directory listing holds `name`.
pub fn is_listed(listing: &Vec<String>, name: &str) -> (r: bool)
    ensures
        r == listed_names(listing@).contains(name@),
{
    let ghost names = texts(listing@);
    let mut i: usize = 0;
    while i < listing.len()
        invariant
            i <= listing.len(),
            names == texts(listing@),
            forall|j: int| 0 <= j < i ==> names[j] != name@,
        decreases listing.len() - i,
    {
        if same_text(listing[i].as_str(), name) {
            assert(names[i as int] == name@);
            assert(names.contains(name@));
            return true;
        }
        i = i + 1;
    }
    assert(!names.contains(name@));
    false
}

/// The name under which the file name `name` can be stored in a directory
/// with the given listing: the first candidate that the listing does not
/// hold. That is `name` itself where the listing does not hold it, and else
/// its numbered variant with the smallest number, from 1 on, that is new to
/// the listing.
pub fn unique_name_for(listing: &Vec<String>, name: &str) -> (unique: String)
    ensures
        unique@ == unique_name(listed_names(listing@), name@),
        !listed_names(listing@).contains(unique@),
        !listed_names(listing@).contains(name@) ==> unique@ == name@,
        listed_names(listing@).contains(name@) ==> is_smallest_numbered(
            listed_names(listing@),
            name@,
            unique@,
        ),
{
    let ghost occupied = listed_names(listing@);
    let ghost goal = first_free(occupied, name@);
    proof {
        lemma_listed_names_finite(listing@);
        lemma_first_free(occupied, name@);
    }
    let mut probe = NameProbe::for_name(name);
    loop
        invariant
            occupied == listed_names(listing@),
            goal == first_free(occupied, name@),
            is_first_free(occupied, name@, goal),
            goal <= listing.len(),
            probe@.name == name@,
            probe@.attempt <= goal,
        decreases goal - probe@.attempt,
    {
        let taken = is_listed(listing, probe.candidate());
        let ghost attempt = probe@.attempt;
        match probe.step(taken) {
            ProbeStep::Found(unique) => {
                proof {
                    if attempt < goal {
                        assert(occupied.contains(candidate(name@, attempt)));
                    }
                    lemma_listed_names_finite(listing@);
                    if occupied.contains(name@) {
                        lemma_taken_name_gets_smallest_number(occupied, name@);
                    } else {
                        lemma_free_name_is_kept(occupied, name@);
                    }
                }
                return unique;
            },
            ProbeStep::Retry(next) => {
                probe = next;
            },
            ProbeStep::Exhausted => {
                return unreached();
            },
        }
    }
}

/// Resolves the name under which `filename` is stored in a directory with
/// the given listing. The final component of `filename` is kept where the
/// listing does not hold it; else it gets the smallest number, from 1 on,
/// that makes it new to the listing. A `filename` without a final component
/// is refused.
pub fn get_unique_filename(listing: &Vec<String>, filename: &str) -> (r: Result<String, String>)
    ensures
        match path_file_name(filename@) {
            Some(name) => {
                &&& r matches Ok(unique)
                &&& unique@ == unique_name(listed_names(listing@), name)
                &&& !listed_names(listing@).contains(unique@)
                &&& !listed_names(listing@).contains(name) ==> unique@ == name
                &&& listed_names(listing@).contains(name) ==> is_smallest_numbered(
                    listed_names(listing@),
                    name,
                    unique@,
                )
            },
            None => r matches Err(message) && message@ == no_file_name_message(),
        },
{
    match file_name_of(filename) {
        Some(name) => Ok(unique_name_for(listing, name.as_str())),
        None => Err(String::from_str("Invalid file name")),
    }
}

} // verus!
