use mcp_gateway::screen::{
    capture_one_frame, encode_capture, get_recent_frames, FrameBuffer, FRAME_CAPACITY,
};

#[test]
fn ring_keeps_the_last_ten_oldest_first() {
    let mut buf = FrameBuffer::new();
    for i in 0..12u8 {
        buf.push_frame(vec![i]);
    }
    let frames = buf.get_buffer();
    assert_eq!(frames.len(), FRAME_CAPACITY);
    assert_eq!(frames[0], vec![2u8]);
    assert_eq!(frames[9], vec![11u8]);
}

#[test]
fn ring_below_capacity_keeps_everything() {
    let mut buf = FrameBuffer::new();
    for i in 0..3u8 {
        buf.push_frame(vec![i]);
    }
    assert_eq!(buf.get_buffer(), &vec![vec![0u8], vec![1u8], vec![2u8]]);
}

#[test]
fn read_is_base64_oldest_first() {
    let mut buf = FrameBuffer::new();
    buf.push_frame(vec![1, 2, 3]);
    buf.push_frame(vec![255]);
    let frames = get_recent_frames(&buf);
    assert_eq!(frames, vec!["AQID".to_string(), "/w==".to_string()]);
}

#[test]
fn read_of_empty_ring_is_empty() {
    let buf = FrameBuffer::new();
    assert_eq!(get_recent_frames(&buf), Vec::<String>::new());
}

#[test]
fn failed_cycles_leave_the_ring_untouched() {
    let mut buf = FrameBuffer::new();
    buf.push_frame(vec![9, 9]);
    capture_one_frame(&mut buf, 0, 0, vec![]);
    capture_one_frame(&mut buf, 2, 2, vec![0, 1, 2]);
    assert_eq!(buf.get_buffer(), &vec![vec![9u8, 9u8]]);
    let frames = get_recent_frames(&buf);
    assert_eq!(frames.len(), 1);
}

#[test]
fn successful_capture_stores_a_jpeg_frame() {
    let mut buf = FrameBuffer::new();
    capture_one_frame(&mut buf, 2, 2, vec![200u8; 16]);
    let frames = buf.get_buffer();
    assert_eq!(frames.len(), 1);
    assert!(frames[0].len() > 2);
    assert_eq!(&frames[0][0..2], &[0xFF, 0xD8]);
    assert!(!get_recent_frames(&buf)[0].is_empty());
}

#[test]
fn encode_succeeds_exactly_on_full_pixel_buffers() {
    assert!(encode_capture(2, 2, vec![7u8; 16]).is_some());
    assert!(encode_capture(2, 2, vec![7u8; 17]).is_some());
    assert!(encode_capture(2, 2, vec![7u8; 15]).is_none());
    assert!(encode_capture(1, 1, vec![0u8; 4]).is_some());
    assert!(encode_capture(0, 5, vec![0u8; 64]).is_none());
    assert!(encode_capture(5, 0, vec![0u8; 64]).is_none());
}

#[test]
fn encoded_capture_is_a_jpeg() {
    let jpeg = encode_capture(2, 1, vec![128u8; 8]).unwrap();
    assert_eq!(&jpeg[0..2], &[0xFF, 0xD8]);
}

#[test]
fn short_pixel_buffer_never_reaches_the_ring() {
    let mut buf = FrameBuffer::new();
    capture_one_frame(&mut buf, 4, 4, vec![0u8; 63]);
    assert!(buf.get_buffer().is_empty());
    capture_one_frame(&mut buf, 4, 4, vec![0u8; 64]);
    assert_eq!(buf.get_buffer().len(), 1);
}
