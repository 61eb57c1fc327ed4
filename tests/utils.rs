use swiftbot::error::HwError;
use swiftbot::utils::{clamp, host_id};

#[test]
fn clamp_below_above_inside_and_at_bounds() {
    assert_eq!(clamp(-5, 0, 10), 0);
    assert_eq!(clamp(15, 0, 10), 10);
    assert_eq!(clamp(7, 0, 10), 7);
    assert_eq!(clamp(0, 0, 10), 0);
    assert_eq!(clamp(10, 0, 10), 10);
    assert_eq!(clamp(i64::MIN, -10000, 10000), -10000);
    assert_eq!(clamp(i64::MAX, -10000, 10000), 10000);
}

#[test]
fn host_ids_must_fit_a_byte() {
    assert_eq!(host_id(0), Ok(0));
    assert_eq!(host_id(255), Ok(255));
    assert_eq!(host_id(256), Err(HwError::InvalidArgument));
    assert_eq!(host_id(-1), Err(HwError::InvalidArgument));
}
