//! Windows: their labels, their geometry, and which of them stay open.

use vstd::prelude::*;
use vstd::string::StringExecFns;
use crate::decimal::decimal;
use crate::decimal::decimal_string;
use crate::decimal::lemma_decimal_injective;
use crate::text::same_text;
use crate::text::texts;

verus! {

/// The width of a window that has no stored geometry.
pub const DEFAULT_WIDTH: u32 = 800;

/// The height of a window that has no stored geometry.
pub const DEFAULT_HEIGHT: u32 = 600;

/// The least width of a window.
pub const MIN_WIDTH: u32 = 400;

/// The least height of a window.
pub const MIN_HEIGHT: u32 = 300;

/// Position and size of a window, in pixels.
#[derive(Clone, Copy, Debug, PartialEq, Eq)]
pub struct WindowGeometry {
    pub x: i32,
    pub y: i32,
    pub width: u32,
    pub height: u32,
}

/// How a new window is to be built.
#[derive(Debug, PartialEq, Eq)]
pub struct WindowPlan {
    pub title: String,
    pub min_width: u32,
    pub min_height: u32,
    pub decorations: bool,
    pub width: u32,
    pub height: u32,
    /// Where the window stands; `None` puts it in the centre of the screen.
    pub position: Option<(i32, i32)>,
}

/// The label of the window made at `timestamp_millis`.
pub open spec fn label_for(timestamp_millis: nat) -> Seq<char> {
    "ephemtext-"@ + decimal(timestamp_millis)
}

/// The labels of `labels`, in their order, without `keep`.
pub open spec fn labels_without(labels: Seq<Seq<char>>, keep: Seq<char>) -> Seq<Seq<char>> {
    labels.filter(|label: Seq<char>| label != keep)
}

/// Windows made at different times have different labels.
pub proof fn lemma_labels_distinct(a: nat, b: nat)
    requires
        a != b,
    ensures
        label_for(a) != label_for(b),
{
    let prefix = "ephemtext-"@;
    if label_for(a) == label_for(b) {
        let x = decimal(a);
        let y = decimal(b);
        assert(label_for(a).len() == prefix.len() + x.len());
        assert(label_for(b).len() == prefix.len() + y.len());
        assert forall|i: int| 0 <= i < x.len() implies x[i] == y[i] by {
            assert(label_for(a)[prefix.len() + i] == x[i]);
            assert(label_for(b)[prefix.len() + i] == y[i]);
        }
        assert(x =~= y);
        lemma_decimal_injective(a, b);
    }
}

/// No window made later takes the label of the main window.
pub proof fn lemma_label_is_not_main(timestamp_millis: nat)
    ensures
        label_for(timestamp_millis) != "main"@,
{
    reveal_strlit("ephemtext-");
    reveal_strlit("main");
    assert(label_for(timestamp_millis)[0] == 'e');
    assert("main"@[0] == 'm');
}

/// The file that holds the geometry stored last.
pub fn geometry_file_name() -> (name: &'static str)
    ensures
        name@ == "window-geometry.json"@,
{
    "window-geometry.json"
}

/// The label of the window that is open when the application starts.
pub fn main_window_label() -> (label: &'static str)
    ensures
        label@ == "main"@,
{
    "main"
}

/// The label of the window made at `timestamp_millis`, in milliseconds
/// since the epoch. Windows made in the same millisecond get the same
/// label; windows made in different ones never do.
pub fn window_label(timestamp_millis: u128) -> (label: String)
    ensures
        label@ == label_for(timestamp_millis as nat),
{
    let mut label = String::from_str("ephemtext-");
    label.append(decimal_string(timestamp_millis).as_str());
    label
}

/// The geometry of a window at `position` with the inner size `size`.
pub fn geometry_of(position: (i32, i32), size: (u32, u32)) -> (geometry: WindowGeometry)
    ensures
        geometry == (WindowGeometry {
            x: position.0,
            y: position.1,
            width: size.0,
            height: size.1,
        }),
{
    WindowGeometry { x: position.0, y: position.1, width: size.0, height: size.1 }
}

/// How to build a new window: with the geometry stored last where there is
/// one, else in the default size and in the centre of the screen.
pub fn plan_window(stored: Option<WindowGeometry>) -> (plan: WindowPlan)
    ensures
        plan.title@ == "Ephemeral Text"@,
        plan.min_width == MIN_WIDTH,
        plan.min_height == MIN_HEIGHT,
        !plan.decorations,
        match stored {
            Some(geometry) => {
                &&& plan.width == geometry.width
                &&& plan.height == geometry.height
                &&& plan.position == Some((geometry.x, geometry.y))
            },
            None => {
                &&& plan.width == DEFAULT_WIDTH
                &&& plan.height == DEFAULT_HEIGHT
                &&& plan.position is None
            },
        },
{
    let title = String::from_str("Ephemeral Text");
    match stored {
        Some(geometry) => WindowPlan {
            title,
            min_width: MIN_WIDTH,
            min_height: MIN_HEIGHT,
            decorations: false,
            width: geometry.width,
            height: geometry.height,
            position: Some((geometry.x, geometry.y)),
        },
        None => WindowPlan {
            title,
            min_width: MIN_WIDTH,
            min_height: MIN_HEIGHT,
            decorations: false,
            width: DEFAULT_WIDTH,
            height: DEFAULT_HEIGHT,
            position: None,
        },
    }
}

/// The windows to close once the window `keep` is open: all the others.
pub fn windows_to_close(open: &Vec<String>, keep: &str) -> (closing: Vec<String>)
    ensures
        texts(closing@) == labels_without(texts(open@), keep@),
{
    let ghost others = |label: Seq<char>| label != keep@;
    let mut closing: Vec<String> = Vec::new();
    let mut i: usize = 0;
    proof {
        reveal(Seq::filter);
        assert(texts(open@).subrange(0, 0) =~= Seq::<Seq<char>>::empty());
        assert(texts(closing@) =~= Seq::<Seq<char>>::empty());
    }
    while i < open.len()
        invariant
            i <= open.len(),
            others == |label: Seq<char>| label != keep@,
            texts(closing@) == texts(open@).subrange(0, i as int).filter(others),
        decreases open.len() - i,
    {
        let ghost before = texts(open@).subrange(0, i as int);
        let ghost after = texts(open@).subrange(0, i + 1);
        let ghost kept = texts(closing@);
        proof {
            reveal(Seq::filter);
            assert(after.drop_last() =~= before);
            assert(after.last() == open@[i as int]@);
        }
        if !same_text(open[i].as_str(), keep) {
            closing.push(open[i].clone());
            assert(texts(closing@) =~= kept.push(open@[i as int]@));
        }
        i = i + 1;
    }
    assert(texts(open@).subrange(0, open.len() as int) =~= texts(open@));
    closing
}

} // verus!
