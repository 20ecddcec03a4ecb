use gesture_training::modifications::{PlaybackState, SessionModification};
use gesture_training::sequencer::{ConfigError, ImageCoordinate};
use gesture_training::session::{
    LoadRequest, MessageRunSession, SessionConfiguration, SessionUpdate, WorkflowRunSession,
};
use gesture_training::source::{
    ImageSource, ImageSourceCheck, ImageSourceFolder, ImageSourceId, ImageSourceStatus,
};
use gesture_training::timer::ImageTime;

fn folder(id: u128, count: usize, status: ImageSourceStatus) -> ImageSource {
    ImageSource::Folder(ImageSourceFolder::new(
        ImageSourceId::new(id),
        format!("folder{}", id),
        format!("/folder{}", id),
        ImageSourceCheck::new(count, status),
    ))
}

fn start(seconds: u32, count: usize, sources: Vec<ImageSource>) -> (WorkflowRunSession, SessionUpdate) {
    let config = SessionConfiguration::new(ImageTime::from_seconds(seconds), count, sources);
    WorkflowRunSession::new(config).unwrap()
}

fn load_of(update: &SessionUpdate) -> LoadRequest {
    update.load.expect("a load request")
}

fn states(update: &SessionUpdate) -> Vec<SessionModification> {
    update.modifications.session().clone()
}

#[test]
fn session_without_sources_is_refused() {
    let config = SessionConfiguration::new(ImageTime::from_seconds(5), 3, vec![]);
    assert!(matches!(WorkflowRunSession::new(config), Err(ConfigError::NoImageSource)));
}

#[test]
fn session_with_only_empty_or_unchecked_sources_is_refused() {
    let config = SessionConfiguration::new(
        ImageTime::from_seconds(5),
        3,
        vec![
            folder(1, 0, ImageSourceStatus::Valid),
            folder(2, 8, ImageSourceStatus::Unknown),
            folder(3, 0, ImageSourceStatus::Error("gone".to_string())),
        ],
    );
    assert!(matches!(WorkflowRunSession::new(config), Err(ConfigError::NoImage)));
}

#[test]
fn end_to_end_three_images_from_one_folder() {
    let (mut s, u) = start(5, 3, vec![folder(1, 12, ImageSourceStatus::Valid)]);
    assert_eq!(s.state(), PlaybackState::Loading);
    let mut shown: Vec<ImageCoordinate> = Vec::new();
    let mut request = load_of(&u);
    let mut now: u64 = 0;
    for round in 0..3 {
        assert_eq!(request.coordinate.image_source_index, 0);
        assert!(request.coordinate.image_index < 12);
        assert!(!shown.contains(&request.coordinate));
        shown.push(request.coordinate);
        let ready = s.update(MessageRunSession::ImageLoaded(request.token, Ok(vec![round as u8])), now);
        assert_eq!(ready.image, Some(vec![round as u8]));
        assert_eq!(ready.time_left, Some(5_000));
        assert_eq!(states(&ready), vec![SessionModification::State(PlaybackState::Running)]);
        now += 2_000;
        let tick = s.update(MessageRunSession::Tick, now);
        assert_eq!(tick.time_left, Some(3_000));
        now += 3_000;
        let timeout = s.update(MessageRunSession::Tick, now);
        if round < 2 {
            assert_eq!(states(&timeout), vec![SessionModification::State(PlaybackState::Loading)]);
            request = load_of(&timeout);
        } else {
            assert!(timeout.load.is_none());
            assert_eq!(states(&timeout), vec![SessionModification::State(PlaybackState::Completed)]);
        }
    }
    assert_eq!(s.state(), PlaybackState::Completed);
    assert_eq!(s.image_history(), &shown);
}

#[test]
fn end_to_end_with_manual_next() {
    let (mut s, u) = start(5, 3, vec![folder(1, 12, ImageSourceStatus::Valid)]);
    let first = load_of(&u);
    assert!(s.update(MessageRunSession::ImageLoaded(first.token, Ok(vec![1])), 0).image.is_some());
    let second = load_of(&s.update(MessageRunSession::NextImage, 100));
    assert!(s.update(MessageRunSession::ImageLoaded(second.token, Ok(vec![2])), 150).image.is_some());
    let third = load_of(&s.update(MessageRunSession::NextImage, 200));
    assert!(s.update(MessageRunSession::ImageLoaded(third.token, Ok(vec![3])), 250).image.is_some());
    let end = s.update(MessageRunSession::NextImage, 300);
    assert_eq!(states(&end), vec![SessionModification::State(PlaybackState::Completed)]);
    assert_eq!(s.state(), PlaybackState::Completed);
    let coords = vec![first.coordinate, second.coordinate, third.coordinate];
    assert_eq!(s.image_history(), &coords);
    assert!(s.update(MessageRunSession::NextImage, 400).load.is_none());
    assert!(s.update(MessageRunSession::PreviousImage, 400).load.is_none());
}

#[test]
fn rapid_next_shows_only_the_latest_image() {
    let (mut s, u) = start(5, 5, vec![folder(1, 50, ImageSourceStatus::Valid)]);
    let first = load_of(&u);
    let second = load_of(&s.update(MessageRunSession::NextImage, 10));
    let third = load_of(&s.update(MessageRunSession::NextImage, 20));
    let mut images = 0;
    for (token, bytes) in [(second.token, vec![2u8]), (first.token, vec![1u8]), (third.token, vec![3u8])] {
        let update = s.update(MessageRunSession::ImageLoaded(token, Ok(bytes)), 30);
        if let Some(image) = update.image {
            images += 1;
            assert_eq!(image, vec![3u8]);
        }
    }
    assert_eq!(images, 1);
    assert_eq!(s.state(), PlaybackState::Running);
}

#[test]
fn failed_load_keeps_the_session_going() {
    let (mut s, u) = start(5, 2, vec![folder(1, 4, ImageSourceStatus::Valid)]);
    let request = load_of(&u);
    let update = s.update(MessageRunSession::ImageLoaded(request.token, Err("unreadable".to_string())), 0);
    assert!(update.image.is_none());
    assert_eq!(update.load_error, Some("unreadable".to_string()));
    assert_eq!(s.state(), PlaybackState::Running);
    assert_eq!(s.time_left(), 5_000);
}

#[test]
fn pause_and_play_report_state_changes() {
    let (mut s, u) = start(10, 2, vec![folder(1, 4, ImageSourceStatus::Valid)]);
    s.update(MessageRunSession::ImageLoaded(load_of(&u).token, Ok(vec![0])), 0);
    assert_eq!(s.update(MessageRunSession::Tick, 3_000).time_left, Some(7_000));
    let paused = s.update(MessageRunSession::Pause, 3_000);
    assert_eq!(states(&paused), vec![SessionModification::State(PlaybackState::Paused)]);
    assert!(s.update(MessageRunSession::Pause, 3_500).modifications.is_empty());
    assert!(s.update(MessageRunSession::Tick, 8_000).time_left.is_none());
    let resumed = s.update(MessageRunSession::Play, 8_000);
    assert_eq!(states(&resumed), vec![SessionModification::State(PlaybackState::Running)]);
    assert_eq!(s.update(MessageRunSession::Tick, 11_000).time_left, Some(4_000));
}

#[test]
fn stepping_back_reloads_earlier_images() {
    let (mut s, u) = start(0, 4, vec![folder(1, 100, ImageSourceStatus::Valid)]);
    let a = load_of(&u);
    s.update(MessageRunSession::ImageLoaded(a.token, Ok(vec![0])), 0);
    let b = load_of(&s.update(MessageRunSession::NextImage, 1));
    s.update(MessageRunSession::ImageLoaded(b.token, Ok(vec![1])), 2);
    let back = load_of(&s.update(MessageRunSession::PreviousImage, 3));
    assert_eq!(back.coordinate, a.coordinate);
    assert_eq!(s.history_cursor(), 1);
    assert!(s.update(MessageRunSession::PreviousImage, 4).load.is_none());
    let forward = load_of(&s.update(MessageRunSession::NextImage, 5));
    assert_eq!(forward.coordinate, b.coordinate);
    assert_eq!(s.image_history().len(), 2);
}

#[test]
fn no_limit_session_never_advances_by_itself() {
    let (mut s, u) = start(0, 3, vec![folder(1, 10, ImageSourceStatus::Valid)]);
    s.update(MessageRunSession::ImageLoaded(load_of(&u).token, Ok(vec![0])), 0);
    let update = s.update(MessageRunSession::Tick, 1_000_000_000);
    assert!(update.load.is_none());
    assert_eq!(s.image_history().len(), 1);
}

#[test]
fn zero_image_session_is_completed_at_start() {
    let config = SessionConfiguration::new(
        ImageTime::from_seconds(5),
        0,
        vec![folder(1, 10, ImageSourceStatus::Valid)],
    );
    let (s, u) = WorkflowRunSession::new(config).unwrap();
    assert_eq!(s.state(), PlaybackState::Completed);
    assert!(u.load.is_none());
    assert_eq!(states(&u), vec![SessionModification::State(PlaybackState::Completed)]);
}

#[test]
fn load_requests_name_the_session_source() {
    let (s, u) = start(5, 1, vec![folder(1, 0, ImageSourceStatus::Valid), folder(2, 3, ImageSourceStatus::Valid)]);
    let request = load_of(&u);
    assert_eq!(request.token, 1);
    assert_eq!(request.coordinate.image_source_index, 1);
    let source = s.image_source(request.coordinate.image_source_index).unwrap();
    assert_eq!(source.id(), ImageSourceId::new(2));
    assert!(s.image_source(2).is_none());
}
