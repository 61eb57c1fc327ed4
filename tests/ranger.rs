use swiftbot::error::{EchoPhase, Fault, HwError};
use swiftbot::ranger::{
    ms_to_ns, single_shot_distance, single_shot_result, EchoReading, EchoTimer, MultiSampleRanging,
};

#[test]
fn three_samples_average_to_the_exact_formula() {
    let mut r = MultiSampleRanging::new(50, 3, 0, 0);
    assert!(r.wants_sample(10));
    for w in [1000u64, 1200, 1100] {
        assert!(r.record(EchoReading::Width(w)));
    }
    assert!(!r.wants_sample(20));
    // mean 1100 ns; 1100 * 343 / 2 nm = 188650 nm = 0.018865 cm
    assert_eq!(r.distance_nm(), 188650);
    let cm = r.distance_nm() as f64 / 1e7;
    let expected = 1100.0 * (343.0 * 100.0 / 1e9) / 2.0;
    assert!((cm - expected).abs() < 1e-12);
}

#[test]
fn no_accepted_sample_reads_zero() {
    let mut r = MultiSampleRanging::new(50, 3, 0, 0);
    assert!(!r.record(EchoReading::TimedOut(EchoPhase::Rise)));
    assert!(!r.record(EchoReading::Width(50_000_000)));
    assert!(!r.record(EchoReading::Pending));
    assert_eq!(r.count, 0);
    assert_eq!(r.distance_nm(), 0);
}

#[test]
fn offset_is_taken_off_each_sample() {
    let mut r = MultiSampleRanging::new(50, 2, 190_000, 0);
    assert!(r.record(EchoReading::Width(1_190_000)));
    assert!(r.record(EchoReading::Width(100_000)));
    assert!(!r.record(EchoReading::Width(1_000)));
    assert_eq!(r.total_ns, 1_000_000);
    assert_eq!(r.distance_nm(), 1_000_000 * 343 / 4);
}

#[test]
fn sampling_stops_at_the_timeout() {
    let r = MultiSampleRanging::new(50, 3, 0, 1_000);
    assert_eq!(r.timeout_ns, 50_000_000);
    assert!(r.wants_sample(50_000_999));
    assert!(!r.wants_sample(50_001_000));
}

#[test]
fn timeout_conversion_saturates() {
    assert_eq!(ms_to_ns(50), 50_000_000);
    assert_eq!(ms_to_ns(u64::MAX), u64::MAX);
}

#[test]
fn echo_timer_measures_the_high_time() {
    let mut t = EchoTimer::new(1_000, 100);
    assert_eq!(t.observe(false, 500), EchoReading::Pending);
    assert_eq!(t.observe(true, 600), EchoReading::Pending);
    assert_eq!(t.phase, EchoPhase::Fall);
    assert_eq!(t.observe(true, 1_000), EchoReading::Pending);
    assert_eq!(t.observe(false, 1_350), EchoReading::Width(750));
}

#[test]
fn echo_timer_times_out_in_either_phase() {
    let mut t = EchoTimer::new(1_000, 0);
    assert_eq!(t.observe(false, 1_000), EchoReading::Pending);
    assert_eq!(t.observe(false, 1_001), EchoReading::TimedOut(EchoPhase::Rise));
    let mut t = EchoTimer::new(1_000, 0);
    t.observe(true, 10);
    assert_eq!(t.observe(true, 1_011), EchoReading::TimedOut(EchoPhase::Fall));
}

#[test]
fn single_shot_distance_in_band() {
    // 1000 us * 0.0343 / 2 = 17.15 cm
    assert_eq!(single_shot_distance(1_000_000), Ok(171_500_000));
    assert_eq!(single_shot_distance(117_000), Ok(20_065_500));
    assert_eq!(single_shot_distance(23_323_999), Ok(3_999_894_500));
}

#[test]
fn single_shot_distance_out_of_band() {
    let fault = Err(HwError::HardwareFault(Fault::OutOfRange));
    assert_eq!(single_shot_distance(116_999), fault);
    assert_eq!(single_shot_distance(0), fault);
    assert_eq!(single_shot_distance(23_324_000), fault);
    assert_eq!(single_shot_distance(u64::MAX), fault);
}

#[test]
fn single_shot_timeouts_name_their_phase() {
    assert_eq!(
        single_shot_result(EchoReading::TimedOut(EchoPhase::Rise)),
        Err(HwError::HardwareTimeout(EchoPhase::Rise))
    );
    assert_eq!(
        single_shot_result(EchoReading::TimedOut(EchoPhase::Fall)),
        Err(HwError::HardwareTimeout(EchoPhase::Fall))
    );
    assert_eq!(single_shot_result(EchoReading::Width(2_000_000)), Ok(343_000_000));
    assert_eq!(
        single_shot_result(EchoReading::Width(50_000)),
        Err(HwError::HardwareFault(Fault::OutOfRange))
    );
}
