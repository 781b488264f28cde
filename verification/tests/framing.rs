use beluga::framing::{append_frame, append_frames, split_frames, FrameError};

#[test]
fn split_reads_length_prefixed_frames() {
    let data = [0u8, 2, 7, 8, 0, 1, 9];
    assert_eq!(split_frames(&data), vec![vec![7, 8], vec![9]]);
}

#[test]
fn split_stops_at_two_bytes_or_fewer() {
    assert_eq!(split_frames(&[]), Vec::<Vec<u8>>::new());
    assert_eq!(split_frames(&[0, 5]), Vec::<Vec<u8>>::new());
    assert_eq!(split_frames(&[0, 1, 4, 0, 0]), vec![vec![4]]);
}

#[test]
fn split_short_frame_takes_what_is_left() {
    assert_eq!(split_frames(&[0, 9, 1, 2]), vec![vec![1, 2]]);
}

#[test]
fn split_reads_big_endian_length() {
    let mut data = vec![1u8, 0];
    data.extend(std::iter::repeat(3u8).take(256));
    let frames = split_frames(&data);
    assert_eq!(frames.len(), 1);
    assert_eq!(frames[0].len(), 256);
}

#[test]
fn append_frame_writes_prefix_and_payload() {
    let mut buf = vec![9u8];
    assert_eq!(append_frame(&mut buf, &[1, 2, 3]), Ok(()));
    assert_eq!(buf, vec![9, 0, 3, 1, 2, 3]);
}

#[test]
fn append_frame_refuses_too_long_payload() {
    let payload = vec![0u8; 65536];
    let mut buf = vec![1u8];
    assert_eq!(append_frame(&mut buf, &payload), Err(FrameError::TooLong { len: 65536 }));
    assert_eq!(buf, vec![1]);
    let payload = vec![0u8; 65535];
    assert_eq!(append_frame(&mut buf, &payload), Ok(()));
    assert_eq!(&buf[..3], &[1, 255, 255]);
}

#[test]
fn append_frames_stops_at_first_too_long() {
    let mut buf = Vec::new();
    let payloads = vec![vec![5u8], vec![0u8; 70000], vec![6u8]];
    assert_eq!(append_frames(&mut buf, &payloads), Err(FrameError::TooLong { len: 70000 }));
    assert_eq!(buf, vec![0, 1, 5]);
}

#[test]
fn frames_round_trip() {
    let payloads = vec![vec![1u8, 2], vec![], vec![3u8; 300]];
    let mut buf = Vec::new();
    assert_eq!(append_frames(&mut buf, &payloads), Ok(()));
    assert_eq!(split_frames(&buf), payloads);
}

#[test]
fn trailing_empty_frame_is_not_read_back() {
    let payloads = vec![vec![1u8], vec![]];
    let mut buf = Vec::new();
    assert_eq!(append_frames(&mut buf, &payloads), Ok(()));
    assert_eq!(split_frames(&buf), vec![vec![1u8]]);
}
