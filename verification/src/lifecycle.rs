//! What the application does on each event of its host, and when it may
//! exit.
//!
//! The host runs the event loop. For each event it asks `ExitState::handle`
//! what to do, and does it.

use vstd::prelude::*;
use vstd::string::StringExecFns;
use crate::text::same_text;

verus! {

/// An event that the host reports.
#[derive(Clone, Copy, Debug, PartialEq, Eq)]
pub enum AppEvent {
    /// The menu item "New Window" was chosen.
    NewWindowChosen,
    /// The menu item "Quit" was chosen.
    QuitChosen,
    /// A menu item that the application does not know was chosen.
    OtherMenuItem,
    /// The application is ready.
    Ready,
    /// A window was moved.
    WindowMoved,
    /// A window was resized.
    WindowResized,
    /// Something else happened to a window.
    OtherWindowEvent,
    /// The host wants to exit and asks for leave.
    ExitRequested,
    /// Any other event.
    Other,
}

/// What the host is to do after an event.
#[derive(Clone, Copy, Debug, PartialEq, Eq)]
pub enum AppAction {
    /// Open a new window.
    OpenWindow,
    /// Exit the process with code 0.
    Exit,
    /// Give the main window the geometry that was stored last.
    RestoreGeometry,
    /// Store the geometry of the window that the event is about.
    SaveGeometry,
    /// Refuse the exit that was asked for.
    PreventExit,
    /// Nothing.
    Nothing,
}

/// A command of the application menu.
#[derive(Clone, Copy, Debug, PartialEq, Eq)]
pub enum MenuCommand {
    NewWindow,
    Quit,
}

/// An item of the application menu.
#[derive(Debug, PartialEq, Eq)]
pub struct MenuEntry {
    pub id: String,
    pub label: String,
    pub accelerator: String,
}

/// Whether the user has chosen "Quit".
#[derive(Debug)]
pub struct ExitState {
    quit_requested: bool,
}

impl View for ExitState {
    type V = bool;

    closed spec fn view(&self) -> bool {
        self.quit_requested
    }
}

/// The identifier of the menu item of `command`.
pub open spec fn menu_id(command: MenuCommand) -> Seq<char> {
    match command {
        MenuCommand::NewWindow => "new_window"@,
        MenuCommand::Quit => "quit"@,
    }
}

/// The command that a menu identifier stands for.
pub open spec fn command_of(id: Seq<char>) -> Option<MenuCommand> {
    if id == menu_id(MenuCommand::NewWindow) {
        Some(MenuCommand::NewWindow)
    } else if id == menu_id(MenuCommand::Quit) {
        Some(MenuCommand::Quit)
    } else {
        None
    }
}

/// The event that the choice of a menu item is.
pub open spec fn menu_event(command: Option<MenuCommand>) -> AppEvent {
    match command {
        Some(MenuCommand::NewWindow) => AppEvent::NewWindowChosen,
        Some(MenuCommand::Quit) => AppEvent::QuitChosen,
        None => AppEvent::OtherMenuItem,
    }
}

/// Whether "Quit" has been chosen once `event` has happened.
pub open spec fn quit_requested_after(quit_requested: bool, event: AppEvent) -> bool {
    quit_requested || event == AppEvent::QuitChosen
}

/// What to do on `event`. An exit request is refused unless "Quit" was
/// chosen before.
pub open spec fn action_for(quit_requested: bool, event: AppEvent) -> AppAction {
    match event {
        AppEvent::NewWindowChosen => AppAction::OpenWindow,
        AppEvent::QuitChosen => AppAction::Exit,
        AppEvent::Ready => AppAction::RestoreGeometry,
        AppEvent::WindowMoved => AppAction::SaveGeometry,
        AppEvent::WindowResized => AppAction::SaveGeometry,
        AppEvent::ExitRequested => if quit_requested {
            AppAction::Nothing
        } else {
            AppAction::PreventExit
        },
        AppEvent::OtherMenuItem => AppAction::Nothing,
        AppEvent::OtherWindowEvent => AppAction::Nothing,
        AppEvent::Other => AppAction::Nothing,
    }
}

/// Whether "Quit" has been chosen once all of `events` have happened, in a
/// run that starts with no such choice.
pub open spec fn quit_requested_at_end(events: Seq<AppEvent>) -> bool
    decreases events.len(),
{
    if events.len() == 0 {
        false
    } else {
        quit_requested_after(quit_requested_at_end(events.drop_last()), events.last())
    }
}

/// What is done on the event at `i` of a run.
pub open spec fn action_at(events: Seq<AppEvent>, i: int) -> AppAction
    recommends
        0 <= i < events.len(),
{
    action_for(quit_requested_at_end(events.subrange(0, i)), events[i])
}

/// "Quit" counts as chosen exactly from its first choice on.
pub proof fn lemma_quit_requested_at_end(events: Seq<AppEvent>)
    ensures
        quit_requested_at_end(events) <==> exists|i: int|
            0 <= i < events.len() && events[i] == AppEvent::QuitChosen,
    decreases events.len(),
{
    if events.len() > 0 {
        let front = events.drop_last();
        lemma_quit_requested_at_end(front);
        if quit_requested_at_end(front) {
            let i = choose|i: int| 0 <= i < front.len() && front[i] == AppEvent::QuitChosen;
            assert(events[i] == AppEvent::QuitChosen);
        } else if events.last() == AppEvent::QuitChosen {
            assert(events[events.len() - 1] == AppEvent::QuitChosen);
        } else {
            assert forall|i: int| 0 <= i < events.len() implies events[i]
                != AppEvent::QuitChosen by {
                if i < front.len() {
                    assert(front[i] == events[i]);
                }
            }
        }
    }
}

/// The choice of "Quit" is answered with the exit of the process, whatever
/// happened before, and is remembered.
pub proof fn lemma_quit_ends_the_process(events: Seq<AppEvent>, i: int)
    requires
        0 <= i < events.len(),
        events[i] == AppEvent::QuitChosen,
    ensures
        action_at(events, i) == AppAction::Exit,
        quit_requested_at_end(events.subrange(0, i + 1)),
{
    let through = events.subrange(0, i + 1);
    lemma_quit_requested_at_end(through);
    assert(through[i] == AppEvent::QuitChosen);
}

/// No exit request that comes after a choice of "Quit" is refused.
pub proof fn lemma_exit_follows_quit(events: Seq<AppEvent>, i: int, j: int)
    requires
        0 <= i < j < events.len(),
        events[i] == AppEvent::QuitChosen,
        events[j] == AppEvent::ExitRequested,
    ensures
        action_at(events, j) == AppAction::Nothing,
{
    let before = events.subrange(0, j);
    lemma_quit_requested_at_end(before);
    assert(before[i] == AppEvent::QuitChosen);
}

/// An exit request with no choice of "Quit" before it is refused, once, and
/// leaves the state as it was: the next request is judged in the same way.
pub proof fn lemma_exit_refused_without_quit(events: Seq<AppEvent>, j: int)
    requires
        0 <= j < events.len(),
        events[j] == AppEvent::ExitRequested,
        forall|i: int| 0 <= i < j ==> events[i] != AppEvent::QuitChosen,
    ensures
        action_at(events, j) == AppAction::PreventExit,
        !quit_requested_at_end(events.subrange(0, j + 1)),
{
    let before = events.subrange(0, j);
    let through = events.subrange(0, j + 1);
    lemma_quit_requested_at_end(before);
    lemma_quit_requested_at_end(through);
    if quit_requested_at_end(before) {
        let i = choose|i: int| 0 <= i < before.len() && before[i] == AppEvent::QuitChosen;
        assert(events[i] == AppEvent::QuitChosen);
    }
    if quit_requested_at_end(through) {
        let i = choose|i: int| 0 <= i < through.len() && through[i] == AppEvent::QuitChosen;
        assert(events[i] == AppEvent::QuitChosen);
    }
}

impl ExitState {
    /// The state at the start: "Quit" has not been chosen.
    pub fn new() -> (state: ExitState)
        ensures
            !state@,
    {
        ExitState { quit_requested: false }
    }

    /// Whether "Quit" has been chosen.
    pub fn quit_requested(&self) -> (r: bool)
        ensures
            r == self@,
    {
        self.quit_requested
    }

    /// Records that "Quit" was chosen.
    pub fn request_quit(&mut self)
        ensures
            final(self)@,
    {
        self.quit_requested = true;
    }

    /// Takes note of `event` and says what the host is to do.
    pub fn handle(&mut self, event: AppEvent) -> (action: AppAction)
        ensures
            final(self)@ == quit_requested_after(old(self)@, event),
            action == action_for(old(self)@, event),
    {
        match event {
            AppEvent::NewWindowChosen => AppAction::OpenWindow,
            AppEvent::QuitChosen => {
                self.request_quit();
                AppAction::Exit
            },
            AppEvent::Ready => AppAction::RestoreGeometry,
            AppEvent::WindowMoved => AppAction::SaveGeometry,
            AppEvent::WindowResized => AppAction::SaveGeometry,
            AppEvent::ExitRequested => {
                if self.quit_requested {
                    AppAction::Nothing
                } else {
                    AppAction::PreventExit
                }
            },
            AppEvent::OtherMenuItem => AppAction::Nothing,
            AppEvent::OtherWindowEvent => AppAction::Nothing,
            AppEvent::Other => AppAction::Nothing,
        }
    }
}

/// The command that the menu identifier `id` stands for.
pub fn menu_command(id: &str) -> (command: Option<MenuCommand>)
    ensures
        command == command_of(id@),
{
    if same_text(id, "new_window") {
        Some(MenuCommand::NewWindow)
    } else if same_text(id, "quit") {
        Some(MenuCommand::Quit)
    } else {
        None
    }
}

/// The event that the choice of the menu item `id` is.
pub fn menu_event_for(id: &str) -> (event: AppEvent)
    ensures
        event == menu_event(command_of(id@)),
{
    match menu_command(id) {
        Some(MenuCommand::NewWindow) => AppEvent::NewWindowChosen,
        Some(MenuCommand::Quit) => AppEvent::QuitChosen,
        None => AppEvent::OtherMenuItem,
    }
}

/// The title of the application menu.
pub fn menu_title() -> (title: String)
    ensures
        title@ == "Ephemeral Text"@,
{
    String::from_str("Ephemeral Text")
}

/// The item of the application menu for `command`.
pub fn menu_entry(command: MenuCommand) -> (entry: MenuEntry)
    ensures
        entry.id@ == menu_id(command),
        command_of(entry.id@) == Some(command),
        entry.label@ == (match command {
            MenuCommand::NewWindow => "New Window"@,
            MenuCommand::Quit => "Quit"@,
        }),
        entry.accelerator@ == (match command {
            MenuCommand::NewWindow => "CmdOrCtrl+N"@,
            MenuCommand::Quit => "CmdOrCtrl+Q"@,
        }),
{
    proof {
        reveal_strlit("new_window");
        reveal_strlit("quit");
    }
    match command {
        MenuCommand::NewWindow => MenuEntry {
            id: String::from_str("new_window"),
            label: String::from_str("New Window"),
            accelerator: String::from_str("CmdOrCtrl+N"),
        },
        MenuCommand::Quit => MenuEntry {
            id: String::from_str("quit"),
            label: String::from_str("Quit"),
            accelerator: String::from_str("CmdOrCtrl+Q"),
        },
    }
}

} // verus!
