use camcam::persist::{
    capture_file_name, default_pictures_dir, join_path, new_capture_path, orientation_for,
    pictures_dir, Orientation,
};

#[test]
fn orientation_labels() {
    assert_eq!(orientation_for("normal"), Orientation::Rotate90);
    assert_eq!(orientation_for("bottom-up"), Orientation::Rotate270);
    assert_eq!(orientation_for("left-up"), Orientation::Rotate180);
    assert_eq!(orientation_for("right-up"), Orientation::Normal);
    assert_eq!(orientation_for("undefined"), Orientation::Unspecified);
    assert_eq!(orientation_for("Normal"), Orientation::Unspecified);
    assert_eq!(orientation_for(""), Orientation::Unspecified);
}

#[test]
fn capture_names() {
    assert_eq!(capture_file_name("2020-05-01-12-30-59"), "camcam-2020-05-01-12-30-59.jpg");
    assert_eq!(join_path("/home/a/Pictures", "x.jpg"), "/home/a/Pictures/x.jpg");
}

#[test]
fn new_capture_path_has_a_time_stamp() {
    let p = new_capture_path("/tmp/pics");
    assert!(p.starts_with("/tmp/pics/camcam-"));
    assert!(p.ends_with(".jpg"));
    let stamp = &p["/tmp/pics/camcam-".len()..p.len() - 4];
    assert_eq!(stamp.len(), 19);
    assert!(stamp.chars().all(|c| c.is_ascii_digit() || c == '-'));
}

#[test]
fn pictures_dir_fallback() {
    assert_eq!(pictures_dir(Some("/p".to_string()), Some("/h".to_string())), Some("/p".to_string()));
    assert_eq!(pictures_dir(None, Some("/h".to_string())), Some("/h/Pictures".to_string()));
    assert_eq!(pictures_dir(None, None), None);
    assert!(default_pictures_dir(Some("/h".to_string())).is_some());
}
