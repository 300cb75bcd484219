use colang::avatar::{origin_file_name, scaled_file_name, scaled_sizes_for};

#[test]
fn large_upload_gets_every_size() {
    assert_eq!(scaled_sizes_for(2000, 1500), vec![1280, 640, 320]);
}

#[test]
fn narrow_side_limits_the_sizes() {
    assert_eq!(scaled_sizes_for(1000, 700), vec![640, 320]);
    assert_eq!(scaled_sizes_for(2000, 500), vec![320]);
}

#[test]
fn exact_bounds_count_as_fitting() {
    assert_eq!(scaled_sizes_for(1280, 1280), vec![1280, 640, 320]);
    assert_eq!(scaled_sizes_for(320, 320), vec![320]);
}

#[test]
fn small_upload_gets_no_copy() {
    assert!(scaled_sizes_for(319, 4000).is_empty());
    assert!(scaled_sizes_for(0, 0).is_empty());
}

#[test]
fn avatar_file_names() {
    assert_eq!(origin_file_name("png"), "origin.png");
    assert_eq!(scaled_file_name(640), "640x640.webp");
    assert_eq!(scaled_file_name(1280), "1280x1280.webp");
}
