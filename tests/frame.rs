use swiftbot::error::HwError;
use swiftbot::frame::copy_frame;

#[test]
fn frame_is_copied_to_the_front() {
    let mut buffer = [9u8; 6];
    assert_eq!(copy_frame(&mut buffer, &[1, 2, 3]), Ok(3));
    assert_eq!(buffer, [1, 2, 3, 9, 9, 9]);
}

#[test]
fn frame_larger_than_buffer_is_rejected() {
    let mut buffer = [9u8; 2];
    assert_eq!(copy_frame(&mut buffer, &[1, 2, 3]), Err(HwError::BufferTooSmall));
    assert_eq!(buffer, [9, 9]);
}
