use gesture_training::pipeline::ImageLoadPipeline;

#[test]
fn only_latest_request_is_accepted() {
    let mut p = ImageLoadPipeline::new();
    let first = p.request();
    let second = p.request();
    assert_ne!(first, second);
    assert!(!p.complete(first));
    assert!(p.complete(second));
    assert!(!p.complete(second));
}

#[test]
fn stale_result_after_latest_is_dropped() {
    let mut p = ImageLoadPipeline::new();
    let first = p.request();
    let second = p.request();
    assert!(p.complete(second));
    assert!(!p.complete(first));
}

#[test]
fn tokens_wrap_around() {
    let mut p = ImageLoadPipeline { latest: u64::MAX, pending: false };
    assert_eq!(p.request(), 0);
    assert!(p.complete(0));
}
