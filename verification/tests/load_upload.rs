use bioma_tool::load_test::{request_failure, upload_content_type, upload_form, WeightedEndpoint};
use bioma_tool::text::parse_usize;
use bioma_tool::ffmpeg::{frame_after_read, frame_name, frame_path, frame_size, take_frame};

#[test]
fn load_upload_body_frames_file_and_metadata() {
    let body = upload_form(7, &b"hello".to_vec());
    let expected = "------WebKitFormBoundaryABC123\r\nContent-Disposition: form-data; name=\"file\"; filename=\"uploads/stress_tests/7.md\"\r\nContent-Type: text/plain\r\n\r\nhello\r\n------WebKitFormBoundaryABC123\r\nContent-Disposition: form-data; name=\"metadata\"\r\nContent-Type: application/json\r\n\r\n{\"path\":\"uploads/stress_tests/7.md\"}\r\n------WebKitFormBoundaryABC123--\r\n";
    assert_eq!(String::from_utf8(body).unwrap(), expected);
}

#[test]
fn load_upload_body_keeps_binary_bytes() {
    let file = vec![0u8, 255, 13, 10];
    let body = upload_form(0, &file);
    let head = "------WebKitFormBoundaryABC123\r\nContent-Disposition: form-data; name=\"file\"; filename=\"uploads/stress_tests/0.md\"\r\nContent-Type: text/plain\r\n\r\n";
    assert_eq!(&body[..head.len()], head.as_bytes());
    assert_eq!(&body[head.len()..head.len() + 4], &file[..]);
}

#[test]
fn load_upload_content_type() {
    assert_eq!(upload_content_type(), "multipart/form-data; boundary=----WebKitFormBoundaryABC123");
}

#[test]
fn load_request_failure_message() {
    assert_eq!(
        request_failure("Upload File", "500 Internal Server Error", "boom"),
        "upload file request failed with status 500 Internal Server Error: boom"
    );
}

#[test]
fn load_weight_parses_like_usize() {
    for text in ["0", "7", "+3", "007", "", "+", "-1", "1_000", " 1", "18446744073709551616", "4294967296", "١"] {
        assert_eq!(parse_usize(text), text.parse::<usize>().ok(), "{:?}", text);
    }
    let w = WeightedEndpoint::from_str("chat:+3").unwrap();
    assert_eq!(w.weight, 3);
    assert_eq!(WeightedEndpoint::from_str("chat:-1").unwrap_err(), "Invalid weight: -1");
}

#[test]
fn ffmpeg_frames_are_cut_whole() {
    assert_eq!(frame_size(1920, 1080), 1920 * 1080 * 3);
    let mut buffer = vec![1u8, 2, 3];
    assert_eq!(take_frame(&mut buffer, 4), None);
    assert_eq!(buffer, vec![1, 2, 3]);
    let read = [4u8, 5, 6, 7, 0, 0];
    assert_eq!(frame_after_read(&mut buffer, &read, 4, 4), Some(vec![1, 2, 3, 4]));
    assert_eq!(buffer, vec![5, 6, 7]);
    assert_eq!(take_frame(&mut buffer, 3), Some(vec![5, 6, 7]));
    assert!(buffer.is_empty());
    assert_eq!(frame_name(7), "frame-0007");
    assert_eq!(frame_name(12345), "frame-12345");
    assert_eq!(frame_path(42), "output/frame-0042.jpg");
}
