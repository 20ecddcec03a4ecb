use gesture_training::backend::AppBackend;
use gesture_training::modifications::{AppBackendModifications, PlaybackState, SessionModification};
use gesture_training::selector::ImageSourceSelectorEntries;
use gesture_training::source::{
    ImageSource, ImageSourceCheck, ImageSourceFolder, ImageSourceId, ImageSourceStatus,
};

fn folder(id: u128, name: &str, check: ImageSourceCheck) -> ImageSource {
    ImageSource::Folder(ImageSourceFolder::new(
        ImageSourceId::new(id),
        name.to_string(),
        format!("/{}", name),
        check,
    ))
}

#[test]
fn list_follows_backend_changes() {
    let mut backend = AppBackend::new();
    let mut list = ImageSourceSelectorEntries::new();
    let log = backend.update_from_state(vec![
        folder(1, "a", ImageSourceCheck::default()),
        folder(2, "b", ImageSourceCheck::default()),
    ]);
    list.update_with_backend_modifications(&backend, &log);
    assert_eq!(list.entries().len(), 2);
    assert_eq!(list.entries()[1].name, "b");
    assert!(!list.entries()[1].enabled);

    let log = backend.apply_image_source_check(ImageSourceId::new(2), ImageSourceCheck::from_scan(Ok(7)));
    list.update_with_backend_modifications(&backend, &log);
    assert_eq!(list.entries()[1].image_count, 7);
    assert!(matches!(list.entries()[1].status, ImageSourceStatus::Valid));

    let log = backend.add_image_source_to_session(ImageSourceId::new(2));
    list.update_with_backend_modifications(&backend, &log);
    assert!(list.entries()[1].enabled);

    let log = backend.remove_image_source(ImageSourceId::new(1));
    list.update_with_backend_modifications(&backend, &log);
    assert_eq!(list.entries().len(), 1);
    assert_eq!(list.entries()[0].id, ImageSourceId::new(2));
}

#[test]
fn entry_data_for_unknown_source_is_none() {
    let backend = AppBackend::new();
    assert!(backend.new_image_source_selector_entry_data(ImageSourceId::new(4)).is_none());
}

#[test]
fn summary_adds_valid_counts() {
    let mut backend = AppBackend::new();
    backend.update_from_state(vec![
        folder(1, "a", ImageSourceCheck::from_scan(Ok(3))),
        folder(2, "b", ImageSourceCheck::from_scan(Ok(4))),
        folder(3, "c", ImageSourceCheck::default()),
    ]);
    for id in [1u128, 2, 3] {
        backend.add_image_source_to_session(ImageSourceId::new(id));
    }
    let summary = backend.used_sources_check();
    assert_eq!(summary.image_count(), 7);
    assert!(matches!(summary.status(), ImageSourceStatus::Valid));
}

#[test]
fn summary_joins_errors() {
    let mut backend = AppBackend::new();
    backend.update_from_state(vec![
        folder(1, "a", ImageSourceCheck::from_scan(Ok(3))),
        folder(2, "b", ImageSourceCheck::from_scan(Err("x".to_string()))),
        folder(3, "c", ImageSourceCheck::from_scan(Err("y".to_string()))),
    ]);
    for id in [1u128, 2, 3] {
        backend.add_image_source_to_session(ImageSourceId::new(id));
    }
    let summary = backend.used_sources_check();
    assert_eq!(summary.image_count(), 3);
    assert!(matches!(summary.status(), ImageSourceStatus::Error(m) if m == "xy"));
}

#[test]
fn summary_of_nothing_is_unknown() {
    let backend = AppBackend::new();
    let summary = backend.used_sources_check();
    assert_eq!(summary.image_count(), 0);
    assert!(matches!(summary.status(), ImageSourceStatus::Unknown));
}

#[test]
fn summary_update_is_needed_only_for_used_sources() {
    let mut backend = AppBackend::new();
    backend.update_from_state(vec![
        folder(1, "a", ImageSourceCheck::default()),
        folder(2, "b", ImageSourceCheck::default()),
    ]);
    backend.add_image_source_to_session(ImageSourceId::new(1));
    let log = backend.apply_image_source_check(ImageSourceId::new(2), ImageSourceCheck::from_scan(Ok(1)));
    assert!(!backend.summary_needs_update(&log));
    let log = backend.apply_image_source_check(ImageSourceId::new(1), ImageSourceCheck::from_scan(Ok(1)));
    assert!(backend.summary_needs_update(&log));
    let log = backend.remove_image_source_from_session(ImageSourceId::new(1));
    assert!(backend.summary_needs_update(&log));
}

#[test]
fn last_state_of_a_log() {
    let mut log = AppBackendModifications::new();
    assert_eq!(log.last_state(), None);
    log.session.push(SessionModification::State(PlaybackState::Loading));
    log.session.push(SessionModification::AddedImageSource(ImageSourceId::new(1)));
    log.session.push(SessionModification::State(PlaybackState::Running));
    assert_eq!(log.last_state(), Some(PlaybackState::Running));
}
