use gesture_training::path::is_image_file;

#[test]
fn prepare_session_test_image_extension() {
    assert!(is_image_file("test.jpg"));
}

#[test]
fn session_preparation_test_image_extension() {
    assert!(is_image_file("test.jpg"));
}

#[test]
fn mod_test_image_extension() {
    assert!(is_image_file("test.jpg"));
}

#[test]
fn every_image_extension_is_recognised() {
    assert!(is_image_file("a.jpeg"));
    assert!(is_image_file("a.png"));
    assert!(is_image_file("a.bmp"));
    assert!(is_image_file("/home/user/pictures/pose.jpg"));
}

#[test]
fn extension_match_is_case_sensitive() {
    assert!(!is_image_file("test.JPG"));
    assert!(!is_image_file("test.Png"));
}

#[test]
fn other_files_are_not_images() {
    assert!(!is_image_file("notes.txt"));
    assert!(!is_image_file("jpg"));
    assert!(!is_image_file(""));
    assert!(!is_image_file("archive.jpg.zip"));
    assert!(!is_image_file("image."));
}

#[test]
fn hidden_file_without_extension_is_not_an_image() {
    assert!(!is_image_file(".jpg"));
    assert!(!is_image_file("dir/.png"));
    assert!(is_image_file("dir/.hidden.png"));
}

#[test]
fn extension_is_taken_from_the_file_name_only() {
    assert!(!is_image_file("photos.jpg/readme"));
    assert!(is_image_file("my.dir/photo.bmp"));
}
