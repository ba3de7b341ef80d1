use motion_cam::file_stream::disposition_value;
use motion_cam::file_stream::file_stem_of;
use motion_cam::file_stream::FileName;
use motion_cam::file_stream::FileStream;
use motion_cam::range::STATUS_OK;

#[test]
fn new_descriptor_has_no_metadata() {
    let fs = FileStream::new(vec![1u8, 2, 3]);
    assert_eq!(fs.file_name, None);
    assert_eq!(fs.content_size, None);
    assert_eq!(fs.stream, vec![1u8, 2, 3]);
}

#[test]
fn builders_set_name_and_size() {
    let fs = FileStream::new(0u8)
        .file_name("motion_17.mp4".to_string())
        .content_size(4096);
    assert_eq!(fs.file_name.as_deref(), Some("motion_17.mp4"));
    assert_eq!(fs.content_size, Some(4096));
}

#[test]
fn whole_file_head_carries_name_headers() {
    let fs = FileStream::new(7u32)
        .file_name("motion_17.mp4".to_string())
        .content_size(4096);
    let (head, stream) = fs.into_response_head();
    assert_eq!(stream, 7);
    assert_eq!(head.status, STATUS_OK);
    assert_eq!(head.status, 200);
    assert_eq!(head.content_type.as_str(), "video/mp4");
    assert_eq!(
        head.content_disposition.as_deref(),
        Some("attachment; filename=\"motion_17.mp4\"")
    );
    assert_eq!(head.file_stem.as_deref(), Some("motion_17"));
    assert_eq!(head.content_length, Some(4096));
    assert_eq!(head.content_range, None);
}

#[test]
fn whole_file_head_without_name_has_no_disposition() {
    let fs = FileStream::new(0u8).content_size(10);
    let (head, _) = fs.into_response_head();
    assert_eq!(head.content_disposition, None);
    assert_eq!(head.file_stem, None);
    assert_eq!(head.content_length, Some(10));
}

#[test]
fn range_head_reports_compatibility_content_length() {
    let fs = FileStream::new(1u8);
    let (head, _) = fs.into_range_response_head(0, 999, 1000);
    assert_eq!(head.status, 206);
    assert_eq!(head.content_range.as_deref(), Some("bytes 0-999/1000"));
    // bytes-from-start-to-EOF rather than the sliced length, kept for
    // compatibility with existing clients
    assert_eq!(head.content_length, Some(1000));
    assert_eq!(head.content_type.as_str(), "video/mp4");
    assert_eq!(head.content_disposition, None);
}

#[test]
fn range_head_of_interior_slice() {
    let fs = FileStream::new(1u8);
    let (head, _) = fs.into_range_response_head(500, 999, 1000);
    assert_eq!(head.content_range.as_deref(), Some("bytes 500-999/1000"));
    assert_eq!(head.content_length, Some(500));
}

#[test]
fn file_stem_stops_at_first_dot() {
    assert_eq!(file_stem_of("motion_123.mp4").as_str(), "motion_123");
    assert_eq!(file_stem_of("a.b.c").as_str(), "a");
    assert_eq!(file_stem_of("noext").as_str(), "noext");
    assert_eq!(file_stem_of(".hidden").as_str(), "");
    assert_eq!(file_stem_of("").as_str(), "");
}

#[test]
fn disposition_value_quotes_the_name() {
    assert_eq!(
        disposition_value("x.mp4").as_str(),
        "attachment; filename=\"x.mp4\""
    );
}

#[test]
fn file_name_query_holds_the_name() {
    let q = FileName { filename: "clip.mp4".to_string() };
    assert_eq!(q.filename.as_str(), "clip.mp4");
}
