use ephemtext::lifecycle::menu_command;
use ephemtext::lifecycle::menu_entry;
use ephemtext::lifecycle::menu_event_for;
use ephemtext::lifecycle::menu_title;
use ephemtext::lifecycle::AppAction;
use ephemtext::lifecycle::AppEvent;
use ephemtext::lifecycle::ExitState;
use ephemtext::lifecycle::MenuCommand;

fn run(events: &[AppEvent]) -> (ExitState, Vec<AppAction>) {
    let mut state = ExitState::new();
    let mut actions = Vec::new();
    for event in events {
        actions.push(state.handle(*event));
    }
    (state, actions)
}

#[test]
fn quit_is_not_requested_at_the_start() {
    assert!(!ExitState::new().quit_requested());
}

#[test]
fn request_quit_is_remembered() {
    let mut state = ExitState::new();
    state.request_quit();
    assert!(state.quit_requested());
    state.request_quit();
    assert!(state.quit_requested());
}

#[test]
fn quit_exits_the_process() {
    let mut state = ExitState::new();
    assert_eq!(state.handle(AppEvent::QuitChosen), AppAction::Exit);
    assert!(state.quit_requested());
}

#[test]
fn quit_exits_the_process_every_time() {
    let (_, actions) = run(&[AppEvent::QuitChosen, AppEvent::QuitChosen]);
    assert_eq!(actions, vec![AppAction::Exit, AppAction::Exit]);
}

#[test]
fn exit_after_quit_goes_through() {
    let (state, actions) = run(&[AppEvent::QuitChosen, AppEvent::ExitRequested]);
    assert_eq!(actions, vec![AppAction::Exit, AppAction::Nothing]);
    assert!(state.quit_requested());
}

#[test]
fn exit_without_quit_is_refused() {
    let (state, actions) = run(&[AppEvent::ExitRequested]);
    assert_eq!(actions, vec![AppAction::PreventExit]);
    assert!(!state.quit_requested());
}

#[test]
fn each_exit_without_quit_is_refused_once() {
    let (state, actions) = run(&[
        AppEvent::ExitRequested,
        AppEvent::WindowMoved,
        AppEvent::ExitRequested,
        AppEvent::ExitRequested,
    ]);
    assert_eq!(
        actions,
        vec![
            AppAction::PreventExit,
            AppAction::SaveGeometry,
            AppAction::PreventExit,
            AppAction::PreventExit,
        ]
    );
    assert!(!state.quit_requested());
}

#[test]
fn exit_is_refused_until_quit_is_chosen() {
    let (_, actions) = run(&[
        AppEvent::ExitRequested,
        AppEvent::QuitChosen,
        AppEvent::ExitRequested,
        AppEvent::ExitRequested,
    ]);
    assert_eq!(
        actions,
        vec![AppAction::PreventExit, AppAction::Exit, AppAction::Nothing, AppAction::Nothing]
    );
}

#[test]
fn only_quit_changes_the_state() {
    let others = [
        AppEvent::NewWindowChosen,
        AppEvent::OtherMenuItem,
        AppEvent::Ready,
        AppEvent::WindowMoved,
        AppEvent::WindowResized,
        AppEvent::OtherWindowEvent,
        AppEvent::ExitRequested,
        AppEvent::Other,
    ];
    for event in others {
        let mut state = ExitState::new();
        state.handle(event);
        assert!(!state.quit_requested());
        let mut state = ExitState::new();
        state.request_quit();
        state.handle(event);
        assert!(state.quit_requested());
    }
}

#[test]
fn new_window_opens_a_window() {
    let (_, actions) = run(&[AppEvent::NewWindowChosen]);
    assert_eq!(actions, vec![AppAction::OpenWindow]);
}

#[test]
fn ready_restores_the_geometry() {
    let (_, actions) = run(&[AppEvent::Ready]);
    assert_eq!(actions, vec![AppAction::RestoreGeometry]);
}

#[test]
fn move_and_resize_save_the_geometry() {
    let (_, actions) = run(&[AppEvent::WindowMoved, AppEvent::WindowResized]);
    assert_eq!(actions, vec![AppAction::SaveGeometry, AppAction::SaveGeometry]);
}

#[test]
fn other_events_do_nothing() {
    let (_, actions) =
        run(&[AppEvent::OtherMenuItem, AppEvent::OtherWindowEvent, AppEvent::Other]);
    assert_eq!(actions, vec![AppAction::Nothing, AppAction::Nothing, AppAction::Nothing]);
}

#[test]
fn menu_identifiers_are_recognised() {
    assert_eq!(menu_command("new_window"), Some(MenuCommand::NewWindow));
    assert_eq!(menu_command("quit"), Some(MenuCommand::Quit));
}

#[test]
fn unknown_menu_identifiers_are_not_recognised() {
    assert_eq!(menu_command(""), None);
    assert_eq!(menu_command("Quit"), None);
    assert_eq!(menu_command("quit "), None);
    assert_eq!(menu_command("new window"), None);
    assert_eq!(menu_command("close"), None);
}

#[test]
fn menu_identifiers_become_events() {
    assert_eq!(menu_event_for("new_window"), AppEvent::NewWindowChosen);
    assert_eq!(menu_event_for("quit"), AppEvent::QuitChosen);
    assert_eq!(menu_event_for("about"), AppEvent::OtherMenuItem);
}

#[test]
fn menu_has_its_title() {
    assert_eq!(menu_title(), "Ephemeral Text");
}

#[test]
fn menu_entry_for_new_window() {
    let entry = menu_entry(MenuCommand::NewWindow);
    assert_eq!(entry.id, "new_window");
    assert_eq!(entry.label, "New Window");
    assert_eq!(entry.accelerator, "CmdOrCtrl+N");
}

#[test]
fn menu_entry_for_quit() {
    let entry = menu_entry(MenuCommand::Quit);
    assert_eq!(entry.id, "quit");
    assert_eq!(entry.label, "Quit");
    assert_eq!(entry.accelerator, "CmdOrCtrl+Q");
}

#[test]
fn menu_entries_lead_back_to_their_commands() {
    for command in [MenuCommand::NewWindow, MenuCommand::Quit] {
        assert_eq!(menu_command(&menu_entry(command).id), Some(command));
    }
}

#[test]
fn quit_from_the_menu_ends_the_process() {
    let mut state = ExitState::new();
    assert_eq!(state.handle(menu_event_for("quit")), AppAction::Exit);
    assert_eq!(state.handle(AppEvent::ExitRequested), AppAction::Nothing);
}
