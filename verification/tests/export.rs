use ephemtext::export::begin_save;
use ephemtext::export::get_export_directory;
use ephemtext::export::select_export_directory;
use ephemtext::export::set_export_directory;
use ephemtext::export::ExportDirectory;

fn chosen(path: &str) -> ExportDirectory {
    let mut state = ExportDirectory::new();
    state.set(path.to_string());
    state
}

#[test]
fn new_state_has_no_directory() {
    assert_eq!(ExportDirectory::new().get(), None);
}

#[test]
fn default_state_has_no_directory() {
    assert_eq!(ExportDirectory::default().get(), None);
}

#[test]
fn set_directory_is_read_back() {
    assert_eq!(chosen("/home/alice/exports").get(), Some("/home/alice/exports".to_string()));
}

#[test]
fn later_choice_replaces_earlier_one() {
    let mut state = chosen("/first");
    state.set("/second".to_string());
    assert_eq!(state.get(), Some("/second".to_string()));
}

#[test]
fn set_export_directory_succeeds_and_stores() {
    let mut state = ExportDirectory::new();
    assert_eq!(set_export_directory(&mut state, "/home/alice/exports".to_string()), Ok(()));
    assert_eq!(state.get(), Some("/home/alice/exports".to_string()));
    assert_eq!(set_export_directory(&mut state, "/elsewhere".to_string()), Ok(()));
    assert_eq!(state.get(), Some("/elsewhere".to_string()));
}

#[test]
fn set_export_directory_takes_any_text() {
    let mut state = ExportDirectory::new();
    assert_eq!(set_export_directory(&mut state, String::new()), Ok(()));
    assert_eq!(state.get(), Some(String::new()));
}

#[test]
fn chosen_directory_is_in_force() {
    let state = chosen("/home/alice/exports");
    assert_eq!(
        get_export_directory(&state, Some("/home/alice/Documents".to_string())),
        Ok("/home/alice/exports".to_string())
    );
    assert_eq!(get_export_directory(&state, None), Ok("/home/alice/exports".to_string()));
}

#[test]
fn documents_directory_stands_in_for_an_unset_one() {
    let state = ExportDirectory::new();
    assert_eq!(
        get_export_directory(&state, Some("/home/alice/Documents".to_string())),
        Ok("/home/alice/Documents".to_string())
    );
}

#[test]
fn unset_directory_without_documents_is_an_error() {
    let state = ExportDirectory::new();
    assert_eq!(
        get_export_directory(&state, None),
        Err("Unable to determine default export directory".to_string())
    );
}

#[test]
fn reading_the_directory_in_force_does_not_choose_one() {
    let state = ExportDirectory::new();
    let _ = get_export_directory(&state, Some("/home/alice/Documents".to_string()));
    assert!(!state.is_set());
    assert_eq!(state.get(), None);
}

#[test]
fn is_set_tells_whether_a_directory_is_chosen() {
    let mut state = ExportDirectory::new();
    assert!(!state.is_set());
    assert!(!ExportDirectory::default().is_set());
    state.set("/exports".to_string());
    assert!(state.is_set());
    state.set(String::new());
    assert!(state.is_set());
}

#[test]
fn offer_is_the_documents_directory() {
    assert_eq!(
        select_export_directory(Some("/home/alice/Documents".to_string())),
        Ok(Some("/home/alice/Documents".to_string()))
    );
}

#[test]
fn offer_falls_back_to_tmp() {
    assert_eq!(select_export_directory(None), Ok(Some("/tmp".to_string())));
}

#[test]
fn offer_does_not_depend_on_the_directory_chosen() {
    let _state = chosen("/home/alice/exports");
    assert_eq!(select_export_directory(None), Ok(Some("/tmp".to_string())));
}

#[test]
fn save_without_directory_fails() {
    let state = ExportDirectory::new();
    assert_eq!(begin_save(&state, "notes.txt").err(), Some("No export directory selected".to_string()));
}

#[test]
fn save_without_directory_fails_before_the_name_is_looked_at() {
    let state = ExportDirectory::new();
    assert_eq!(begin_save(&state, "").err(), Some("No export directory selected".to_string()));
}

#[test]
fn save_of_a_filename_without_component_fails() {
    let state = chosen("/home/alice/exports");
    assert_eq!(begin_save(&state, "").err(), Some("Invalid file name".to_string()));
    assert_eq!(begin_save(&state, "..").err(), Some("Invalid file name".to_string()));
}

#[test]
fn save_starts_in_the_chosen_directory() {
    let state = chosen("/home/alice/exports");
    let (directory, probe) = begin_save(&state, "notes.txt").unwrap();
    assert_eq!(directory, "/home/alice/exports");
    assert_eq!(probe.candidate(), "notes.txt");
}

#[test]
fn save_after_a_choice_succeeds() {
    let mut state = ExportDirectory::new();
    assert!(begin_save(&state, "notes.txt").is_err());
    set_export_directory(&mut state, "/exports".to_string()).unwrap();
    assert!(begin_save(&state, "notes.txt").is_ok());
}
