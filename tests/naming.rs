use video4discord::error::Error;
use video4discord::naming::add_underscore;

#[test]
fn marking_is_progressive() {
    let once = add_underscore("video.mp4").unwrap();
    assert_eq!(once, "video_.mp4");
    let twice = add_underscore(&once).unwrap();
    assert_eq!(twice, "video__.mp4");
    assert_ne!(twice, once);
}

#[test]
fn marker_goes_before_last_extension() {
    assert_eq!(add_underscore("clip.final.mkv").unwrap(), "clip.final_.mkv");
    assert_eq!(add_underscore("dir/sub/video.mp4").unwrap(), "dir/sub/video_.mp4");
    assert_eq!(add_underscore("C:\\clips\\a.webm").unwrap(), "C:\\clips\\a_.webm");
}

#[test]
fn name_without_extension_gets_marker_appended() {
    assert_eq!(add_underscore("video").unwrap(), "video_");
    assert_eq!(add_underscore("dir.d/video").unwrap(), "dir.d/video_");
    assert_eq!(add_underscore(".hidden").unwrap(), ".hidden_");
    assert_eq!(add_underscore("vidéo.mp4").unwrap(), "vidéo_.mp4");
}

#[test]
fn path_without_file_name_is_rejected() {
    for path in ["", "dir/", "/", ".", "..", "a/..", "a\\."] {
        assert_eq!(add_underscore(path), Err(Error::InvalidFilename));
    }
}
