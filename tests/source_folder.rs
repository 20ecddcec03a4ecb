use gesture_training::source_folder::AppSourceFolder;

#[test]
fn request_ids_count_up() {
    let mut f = AppSourceFolder::new();
    assert_eq!(f.next_request_ask_path_id(), 0);
    assert_eq!(f.next_request_ask_path_id(), 1);
    assert_eq!(f.next_request_ask_path_id(), 2);
}

#[test]
fn only_latest_path_request_is_taken() {
    let mut f = AppSourceFolder::new();
    let old = f.next_request_ask_path_id();
    let latest = f.next_request_ask_path_id();
    assert!(!f.complete_request_ask_path(old, "/old".to_string()));
    assert_eq!(f.edited_path(), None);
    assert!(f.complete_request_ask_path(latest, "/new".to_string()));
    assert_eq!(f.edited_path(), Some(&"/new".to_string()));
}

#[test]
fn edited_path_can_be_set_and_cleared() {
    let mut f = AppSourceFolder::new();
    f.set_edited_path("/pictures".to_string());
    assert_eq!(f.edited_path().map(|p| p.as_str()), Some("/pictures"));
    f.clear_edited_path();
    assert_eq!(f.edited_path(), None);
}
