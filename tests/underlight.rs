use swiftbot::error::{BusStep, Fault, HwError};
use swiftbot::underlight::{
    BusWrite, UnderlightLeds, REG_ENABLE, REG_PWM_START, REG_RESET, REG_UPDATE,
};

/// A stand-in I2C bus that records every write it is handed.
struct MockBus {
    writes: Vec<Vec<u8>>,
}

impl MockBus {
    fn new() -> MockBus {
        MockBus { writes: Vec::new() }
    }

    fn run(&mut self, plan: Vec<BusWrite>) {
        for w in plan {
            self.writes.push(w.bytes);
        }
    }
}

fn steps(plan: &[BusWrite]) -> Vec<BusStep> {
    plan.iter().map(|w| w.step).collect()
}

#[test]
fn set_rgb_changes_only_the_image() {
    let mut leds = UnderlightLeds::new();
    let mut bus = MockBus::new();
    assert_eq!(leds.set_rgb(2, 10, 20, 30), Ok(()));
    assert_eq!(&leds.underlight[6..9], &[10, 20, 30]);
    assert_eq!(leds.underlight.iter().filter(|b| **b != 0).count(), 3);
    assert_eq!(bus.writes.len(), 0);
    bus.run(leds.update_underlighting());
    assert_eq!(bus.writes.len(), 3);
    assert_eq!(bus.writes[0], vec![REG_PWM_START]);
    assert_eq!(bus.writes[1], leds.underlight.to_vec());
    assert_eq!(bus.writes[2], vec![REG_UPDATE, 0xFF]);
}

#[test]
fn fills_change_only_the_image() {
    let mut leds = UnderlightLeds::new();
    leds.fill_underlight((1, 2, 3));
    assert_eq!(leds.underlight, [1, 2, 3, 1, 2, 3, 1, 2, 3, 1, 2, 3, 1, 2, 3, 1, 2, 3]);
    leds.fill_all(9);
    assert_eq!(leds.underlight, [9; 18]);
    assert_eq!(leds.set_channel(17, 4), Ok(()));
    assert_eq!(leds.underlight[17], 4);
}

#[test]
fn invalid_channel_and_group_are_rejected() {
    let mut leds = UnderlightLeds::new();
    leds.fill_all(5);
    assert_eq!(leds.set_channel(18, 1), Err(HwError::InvalidArgument));
    assert_eq!(leds.set_rgb(6, 1, 2, 3), Err(HwError::InvalidArgument));
    assert!(matches!(leds.set_underlight(6, 1, 2, 3), Err(HwError::InvalidArgument)));
    assert_eq!(leds.underlight, [5; 18]);
}

#[test]
fn set_underlight_commits_the_group() {
    let mut leds = UnderlightLeds::new();
    let plan = leds.set_underlight(5, 7, 8, 9).unwrap();
    assert_eq!(steps(&plan), vec![BusStep::PwmStart, BusStep::PwmData, BusStep::Latch]);
    let mut expected = [0u8; 18];
    expected[15] = 7;
    expected[16] = 8;
    expected[17] = 9;
    assert_eq!(plan[1].bytes, expected.to_vec());
}

#[test]
fn clear_zeroes_and_commits() {
    let mut leds = UnderlightLeds::new();
    leds.fill_all(200);
    let plan = leds.clear_underlighting();
    assert_eq!(leds.underlight, [0; 18]);
    assert_eq!(plan.len(), 3);
    assert_eq!(plan[1].bytes, vec![0u8; 18]);
}

#[test]
fn fill_underlighting_commits_the_colour() {
    let mut leds = UnderlightLeds::new();
    let plan = leds.fill_underlighting((4, 5, 6));
    assert_eq!(plan[1].bytes, [4, 5, 6].repeat(6));
}

#[test]
fn startup_is_reset_enable_latch() {
    let leds = UnderlightLeds::new();
    let plan = leds.startup();
    assert_eq!(steps(&plan), vec![BusStep::Reset, BusStep::Enable, BusStep::Latch]);
    assert_eq!(plan[0].bytes, vec![REG_RESET, 0xFF]);
    assert_eq!(plan[1].bytes, vec![REG_ENABLE, 0x00]);
    assert_eq!(plan[2].bytes, vec![REG_UPDATE, 0xFF]);
}

#[test]
fn register_commands() {
    let leds = UnderlightLeds::new();
    assert_eq!(leds.reset()[0].bytes, vec![0x17, 0xFF]);
    assert_eq!(leds.enable()[0].bytes, vec![0x13, 0x00]);
    assert_eq!(leds.disable()[0].bytes, vec![0x13, 0x01]);
    assert_eq!(leds.disable()[0].step, BusStep::Disable);
}

#[test]
fn enable_mask_is_packed_in_six_bit_groups() {
    let leds = UnderlightLeds::new();
    let plan = leds.enable_leds(0x3FFFF).unwrap();
    assert_eq!(plan.len(), 3);
    assert_eq!(plan[0].bytes, vec![REG_ENABLE]);
    assert_eq!(plan[1].bytes, vec![0x3F, 0x3F, 0x3F]);
    let plan = leds.enable_leds(0b000001_000010_000011).unwrap();
    assert_eq!(plan[1].bytes, vec![3, 2, 1]);
    assert_eq!(plan[2].step, BusStep::Latch);
}

#[test]
fn enable_mask_wider_than_18_bits_is_rejected() {
    let leds = UnderlightLeds::new();
    assert!(matches!(leds.enable_leds(0x40000), Err(HwError::InvalidArgument)));
}

#[test]
fn failed_write_names_its_step() {
    let leds = UnderlightLeds::new();
    let plan = leds.update_underlighting();
    assert_eq!(plan[1].failure(), HwError::HardwareFault(Fault::Bus(BusStep::PwmData)));
    assert_eq!(plan[2].failure(), HwError::HardwareFault(Fault::Bus(BusStep::Latch)));
}
