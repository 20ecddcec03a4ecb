use gesture_training::backend::AppBackend;
use gesture_training::catalog::{parse_source_id, EditSourceFolderData, ImageSourceBackend};
use gesture_training::modifications::{
    image_sources_to_check, AppBackendModifications, ImageSourceModification, SessionModification,
};
use gesture_training::source::{
    ImageSource, ImageSourceCheck, ImageSourceFolder, ImageSourceId, ImageSourceStatus,
};

const ID_TEXT: &str = "550e8400-e29b-41d4-a716-446655440000";
const ID_VALUE: u128 = 0x550e8400_e29b_41d4_a716_446655440000;

fn folder(id: u128, name: &str, count: usize) -> ImageSource {
    ImageSource::Folder(ImageSourceFolder::new(
        ImageSourceId::new(id),
        name.to_string(),
        format!("/images/{}", name),
        ImageSourceCheck::new(count, ImageSourceStatus::Valid),
    ))
}

fn edit(id: &str, name: &str, path: &str) -> EditSourceFolderData {
    EditSourceFolderData { id: id.to_string(), name: name.to_string(), path: path.to_string() }
}

#[test]
fn parse_source_id_reads_a_hyphenated_uuid() {
    assert_eq!(parse_source_id(ID_TEXT), Some(ImageSourceId::new(ID_VALUE)));
    assert_eq!(parse_source_id(""), None);
    assert_eq!(parse_source_id("not an id"), None);
}

#[test]
fn new_source_from_editor_is_added_with_unknown_check() {
    let mut backend = AppBackend::new();
    let log = backend.add_or_update_image_source_from_edit_folder(&edit("", "Poses", "/typed"), None);
    assert_eq!(log.image_sources().len(), 1);
    assert!(log.session().is_empty());
    let id = match log.image_sources()[0] {
        ImageSourceModification::Added(id) => id,
        other => panic!("unexpected {:?}", other),
    };
    let source = backend.get_image_source(id).unwrap();
    assert_eq!(source.name(), "Poses");
    assert_eq!(source.locator(), "/typed");
    assert_eq!(source.check().image_count(), 0);
    assert!(matches!(source.check().status(), ImageSourceStatus::Unknown));
}

#[test]
fn picked_path_wins_over_typed_path() {
    let mut backend = AppBackend::new();
    let log = backend.add_or_update_image_source_from_edit_folder(
        &edit(ID_TEXT, "Poses", "/typed"),
        Some("/picked".to_string()),
    );
    assert!(matches!(log.image_sources()[0], ImageSourceModification::Added(id) if id.value() == ID_VALUE));
    let source = backend.get_image_source(ImageSourceId::new(ID_VALUE)).unwrap();
    assert_eq!(source.locator(), "/picked");
}

#[test]
fn editing_twice_with_same_data_is_idempotent() {
    let mut backend = AppBackend::new();
    backend.add_or_update_image_source_from_edit_folder(&edit(ID_TEXT, "Old", "/old"), None);
    let data = edit(ID_TEXT, "Hands", "/ignored");
    let first = backend.add_or_update_image_source_from_edit_folder(&data, Some("/hands".to_string()));
    let second = backend.add_or_update_image_source_from_edit_folder(&data, Some("/hands".to_string()));
    let id = ImageSourceId::new(ID_VALUE);
    assert_eq!(first.image_sources(), &vec![ImageSourceModification::Modified(id)]);
    assert_eq!(second.image_sources(), &vec![ImageSourceModification::Modified(id)]);
    assert_eq!(backend.image_sources().image_sources().len(), 1);
    let source = backend.get_image_source(id).unwrap();
    assert_eq!(source.name(), "Hands");
    assert_eq!(source.locator(), "/hands");
}

#[test]
fn editing_without_picked_path_keeps_the_locator() {
    let mut backend = AppBackend::new();
    backend.add_or_update_image_source_from_edit_folder(&edit(ID_TEXT, "A", "/a"), None);
    backend.add_or_update_image_source_from_edit_folder(&edit(ID_TEXT, "B", "/typed"), None);
    let source = backend.get_image_source(ImageSourceId::new(ID_VALUE)).unwrap();
    assert_eq!(source.name(), "B");
    assert_eq!(source.locator(), "/a");
}

#[test]
fn delete_reports_only_known_sources() {
    let mut backend = AppBackend::new();
    backend.update_from_state(vec![folder(1, "a", 3), folder(2, "b", 4)]);
    let log = backend.remove_image_source(ImageSourceId::new(1));
    assert_eq!(log.image_sources(), &vec![ImageSourceModification::Deleted(ImageSourceId::new(1))]);
    let again = backend.remove_image_source(ImageSourceId::new(1));
    assert!(again.is_empty());
    assert_eq!(backend.image_sources().image_sources().len(), 1);
}

#[test]
fn check_result_for_deleted_source_is_dropped() {
    let mut backend = AppBackend::new();
    backend.update_from_state(vec![folder(7, "a", 3)]);
    backend.remove_image_source(ImageSourceId::new(7));
    let log = backend.apply_image_source_check(
        ImageSourceId::new(7),
        ImageSourceCheck::new(9, ImageSourceStatus::Valid),
    );
    assert!(log.is_empty());
    assert!(backend.get_image_source(ImageSourceId::new(7)).is_none());
}

#[test]
fn check_result_is_applied_to_known_source() {
    let mut backend = AppBackend::new();
    backend.update_from_state(vec![folder(7, "a", 3)]);
    let log = backend.apply_image_source_check(
        ImageSourceId::new(7),
        ImageSourceCheck::from_scan(Err("permission denied".to_string())),
    );
    assert_eq!(log.image_sources(), &vec![ImageSourceModification::Modified(ImageSourceId::new(7))]);
    let check = backend.get_image_source(ImageSourceId::new(7)).unwrap().check();
    assert_eq!(check.image_count(), 0);
    assert!(matches!(check.status(), ImageSourceStatus::Error(m) if m == "permission denied"));
    assert_eq!(check.usable_image_count(), 0);
}

#[test]
fn update_from_state_deletes_then_adds() {
    let mut backend = AppBackend::new();
    backend.update_from_state(vec![folder(1, "a", 1)]);
    let log = backend.update_from_state(vec![folder(2, "b", 2), folder(3, "c", 3), folder(2, "b2", 5)]);
    assert_eq!(
        log.image_sources(),
        &vec![
            ImageSourceModification::Deleted(ImageSourceId::new(1)),
            ImageSourceModification::Added(ImageSourceId::new(2)),
            ImageSourceModification::Added(ImageSourceId::new(3)),
        ]
    );
    let sources = backend.image_sources().image_sources();
    assert_eq!(sources.len(), 2);
    assert_eq!(sources[0].name(), "b2");
    assert_eq!(sources[0].check().image_count(), 5);
}

#[test]
fn session_use_is_logged_once() {
    let mut backend = AppBackend::new();
    backend.update_from_state(vec![folder(1, "a", 1), folder(2, "b", 2)]);
    let id = ImageSourceId::new(2);
    let log = backend.add_image_source_to_session(id);
    assert_eq!(log.session(), &vec![SessionModification::AddedImageSource(id)]);
    assert!(backend.add_image_source_to_session(id).is_empty());
    assert!(backend.add_image_source_to_session(ImageSourceId::new(99)).is_empty());
    assert!(backend.is_image_source_used(id));
    let removed = backend.remove_image_source_from_session(id);
    assert_eq!(removed.session(), &vec![SessionModification::RemovedImageSource(id)]);
    assert!(backend.remove_image_source_from_session(id).is_empty());
}

#[test]
fn used_sources_follow_choice_order_and_skip_deleted() {
    let mut backend = AppBackend::new();
    backend.update_from_state(vec![folder(1, "a", 1), folder(2, "b", 2), folder(3, "c", 3)]);
    backend.add_image_source_to_session(ImageSourceId::new(3));
    backend.add_image_source_to_session(ImageSourceId::new(1));
    backend.add_image_source_to_session(ImageSourceId::new(2));
    backend.remove_image_source(ImageSourceId::new(1));
    let used = backend.used_image_source();
    let names: Vec<&str> = used.iter().map(|s| s.name().as_str()).collect();
    assert_eq!(names, vec!["c", "b"]);
}

#[test]
fn sources_to_check_skip_deleted_ones() {
    let mut log = AppBackendModifications::new();
    log.image_sources.push(ImageSourceModification::Added(ImageSourceId::new(1)));
    log.image_sources.push(ImageSourceModification::Deleted(ImageSourceId::new(2)));
    log.image_sources.push(ImageSourceModification::Modified(ImageSourceId::new(3)));
    assert_eq!(image_sources_to_check(&log), vec![ImageSourceId::new(1), ImageSourceId::new(3)]);
}

#[test]
fn catalog_replaces_source_with_same_id() {
    let mut catalog = ImageSourceBackend::new();
    catalog.add_image_source(folder(5, "first", 1));
    catalog.add_image_source(folder(6, "other", 1));
    catalog.add_image_source(folder(5, "second", 2));
    assert_eq!(catalog.image_sources().len(), 2);
    assert_eq!(catalog.image_sources()[0].name(), "second");
    assert!(catalog.remove_image_source(ImageSourceId::new(5)).is_some());
    assert!(catalog.remove_image_source(ImageSourceId::new(5)).is_none());
}

#[test]
fn scan_result_becomes_a_check() {
    let ok = ImageSourceCheck::from_scan(Ok(12));
    assert_eq!(ok.image_count(), 12);
    assert!(matches!(ok.status(), ImageSourceStatus::Valid));
    assert_eq!(ok.usable_image_count(), 12);
    let unknown = ImageSourceCheck::new(4, ImageSourceStatus::Unknown);
    assert_eq!(unknown.usable_image_count(), 0);
}
