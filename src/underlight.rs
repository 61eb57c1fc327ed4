use vstd::prelude::*;

use crate::error::{BusStep, Fault, HwError};

verus! {

pub const REG_SHUTDOWN: u8 = 0x00;
pub const REG_PWM_START: u8 = 0x01;
pub const REG_ENABLE: u8 = 0x13;
pub const REG_UPDATE: u8 = 0x16;
pub const REG_RESET: u8 = 0x17;

/// Number of PWM channels: six RGB groups of three.
pub const NUM_CHANNELS: usize = 18;

/// Largest channel-enable mask: one bit per channel.
pub const MAX_ENABLE_MASK: u32 = 0x3FFFF;

/// One I2C write to the SN3218, tagged with the protocol step it belongs to.
#[derive(Debug)]
pub struct BusWrite {
    pub step: BusStep,
    pub bytes: Vec<u8>,
}

impl View for BusWrite {
    type V = (BusStep, Seq<u8>);

    open spec fn view(&self) -> (BusStep, Seq<u8>) {
        (self.step, self.bytes@)
    }
}

/// The writes of a plan, in the order they go on the bus.
pub open spec fn plan_view(plan: Seq<BusWrite>) -> Seq<(BusStep, Seq<u8>)> {
    plan.map_values(|w: BusWrite| w@)
}

pub open spec fn reset_plan() -> Seq<(BusStep, Seq<u8>)> {
    seq![(BusStep::Reset, seq![REG_RESET, 0xFFu8])]
}

pub open spec fn enable_plan() -> Seq<(BusStep, Seq<u8>)> {
    seq![(BusStep::Enable, seq![REG_ENABLE, 0x00u8])]
}

pub open spec fn disable_plan() -> Seq<(BusStep, Seq<u8>)> {
    seq![(BusStep::Disable, seq![REG_ENABLE, 0x01u8])]
}

/// Latching: staged register values take effect.
pub open spec fn latch_plan() -> Seq<(BusStep, Seq<u8>)> {
    seq![(BusStep::Latch, seq![REG_UPDATE, 0xFFu8])]
}

/// Committing an image: select the first PWM register, write all channels,
/// latch.
pub open spec fn pwm_plan(image: Seq<u8>) -> Seq<(BusStep, Seq<u8>)> {
    seq![(BusStep::PwmStart, seq![REG_PWM_START]), (BusStep::PwmData, image)] + latch_plan()
}

/// The three 6-bit groups of an 18-bit channel mask, low bits first.
pub open spec fn mask_bytes(mask: u32) -> Seq<u8> {
    seq![(mask % 64) as u8, ((mask / 64) % 64) as u8, ((mask / 4096) % 64) as u8]
}

pub open spec fn enable_mask_plan(mask: u32) -> Seq<(BusStep, Seq<u8>)> {
    seq![(BusStep::ChannelMask, seq![REG_ENABLE]), (BusStep::ChannelMask, mask_bytes(mask))]
        + latch_plan()
}

/// The image with every RGB group set to `(r, g, b)`.
pub open spec fn rgb_fill(r: u8, g: u8, b: u8) -> Seq<u8> {
    Seq::new(
        NUM_CHANNELS as nat,
        |i: int|
            if i % 3 == 0 {
                r
            } else if i % 3 == 1 {
                g
            } else {
                b
            },
    )
}

impl BusWrite {
    /// The error that reports a failure of this write.
    pub fn failure(&self) -> (r: HwError)
        ensures
            r == HwError::HardwareFault(Fault::Bus(self.step)),
    {
        HwError::HardwareFault(Fault::Bus(self.step))
    }
}

fn bus_write(step: BusStep, bytes: Vec<u8>) -> (w: BusWrite)
    ensures
        w@ == (step, bytes@),
{
    BusWrite { step, bytes }
}

fn push_plan(plan: &mut Vec<BusWrite>, w: BusWrite)
    ensures
        plan_view(final(plan)@) == plan_view(old(plan)@).push(w@),
{
    plan.push(w);
    assert(plan_view(plan@) =~= plan_view(old(plan)@).push(w@));
}

fn append_plan(plan: &mut Vec<BusWrite>, rest: Vec<BusWrite>)
    ensures
        plan_view(final(plan)@) == plan_view(old(plan)@) + plan_view(rest@),
{
    let ghost tail = rest@;
    let mut rest = rest;
    plan.append(&mut rest);
    assert(plan_view(plan@) =~= plan_view(old(plan)@) + plan_view(tail));
}

fn two_bytes(a: u8, b: u8) -> (r: Vec<u8>)
    ensures
        r@ == seq![a, b],
{
    let mut r = Vec::new();
    r.push(a);
    r.push(b);
    assert(r@ =~= seq![a, b]);
    r
}

fn one_byte(a: u8) -> (r: Vec<u8>)
    ensures
        r@ == seq![a],
{
    let mut r = Vec::new();
    r.push(a);
    assert(r@ =~= seq![a]);
    r
}

/// In-memory image of the SN3218's 18 PWM registers.
///
/// Changing the image tells the device nothing: the methods that talk to it
/// return the plan of I2C writes to perform, in order, and the image reaches
/// the device only through `update_underlighting` (or `clear_underlighting`).
#[derive(Clone, Copy, Debug)]
pub struct UnderlightLeds {
    pub underlight: [u8; 18],
}

impl UnderlightLeds {
    /// A blank image.
    pub fn new() -> (r: UnderlightLeds)
        ensures
            r.underlight@ == Seq::new(NUM_CHANNELS as nat, |i: int| 0u8),
    {
        let r = UnderlightLeds { underlight: [0u8; 18] };
        assert(r.underlight@ =~= Seq::new(NUM_CHANNELS as nat, |i: int| 0u8));
        r
    }

    /// The writes that bring the device up: reset, enable, latch.
    pub fn startup(&self) -> (r: Vec<BusWrite>)
        ensures
            plan_view(r@) == reset_plan() + enable_plan() + latch_plan(),
    {
        let mut plan = self.reset();
        append_plan(&mut plan, self.enable());
        append_plan(&mut plan, self.apply_changes());
        assert(plan_view(plan@) =~= reset_plan() + enable_plan() + latch_plan());
        plan
    }

    /// Enables the channels whose bits are set in an 18-bit mask, then latches.
    /// A mask wider than 18 bits is rejected.
    pub fn enable_leds(&self, enable_mask: u32) -> (r: Result<Vec<BusWrite>, HwError>)
        ensures
            enable_mask > MAX_ENABLE_MASK ==> r == Err::<Vec<BusWrite>, HwError>(
                HwError::InvalidArgument,
            ),
            enable_mask <= MAX_ENABLE_MASK ==> r is Ok && plan_view(r->Ok_0@) == enable_mask_plan(
                enable_mask,
            ),
    {
        if enable_mask > MAX_ENABLE_MASK {
            return Err(HwError::InvalidArgument);
        }
        let mut bytes = Vec::new();
        bytes.push((enable_mask & 0x3F) as u8);
        bytes.push(((enable_mask >> 6) & 0x3F) as u8);
        bytes.push(((enable_mask >> 12) & 0x3F) as u8);
        assert((enable_mask & 0x3F) == enable_mask % 64) by (bit_vector);
        assert(((enable_mask >> 6) & 0x3F) == (enable_mask / 64) % 64) by (bit_vector);
        assert(((enable_mask >> 12) & 0x3F) == (enable_mask / 4096) % 64) by (bit_vector);
        assert(bytes@ =~= mask_bytes(enable_mask));
        let mut plan = Vec::new();
        assert(plan_view(plan@) =~= Seq::empty());
        push_plan(&mut plan, bus_write(BusStep::ChannelMask, one_byte(REG_ENABLE)));
        push_plan(&mut plan, bus_write(BusStep::ChannelMask, bytes));
        append_plan(&mut plan, self.apply_changes());
        assert(plan_view(plan@) =~= enable_mask_plan(enable_mask));
        Ok(plan)
    }

    /// Sets every RGB group of the image to one colour.
    pub fn fill_underlight(&mut self, color: (u8, u8, u8))
        ensures
            final(self).underlight@ == rgb_fill(color.0, color.1, color.2),
    {
        let (r, g, b) = color;
        let mut i: usize = 0;
        while i < 6
            invariant
                i <= 6,
                forall|k: int|
                    0 <= k < 3 * i ==> #[trigger] self.underlight@[k] == rgb_fill(r, g, b)[k],
            decreases 6 - i,
        {
            self.underlight[i * 3] = r;
            self.underlight[i * 3 + 1] = g;
            self.underlight[i * 3 + 2] = b;
            i = i + 1;
        }
        assert(self.underlight@ =~= rgb_fill(r, g, b));
    }

    /// Zeroes the image and commits it at once.
    pub fn clear_underlighting(&mut self) -> (r: Vec<BusWrite>)
        ensures
            final(self).underlight@ == Seq::new(NUM_CHANNELS as nat, |i: int| 0u8),
            plan_view(r@) == pwm_plan(final(self).underlight@),
    {
        self.fill_all(0);
        self.update_underlighting()
    }

    /// Sets one channel of the image. A channel outside `[0, 18)` is rejected
    /// and the image is left as it was.
    pub fn set_channel(&mut self, channel: u8, brightness: u8) -> (r: Result<(), HwError>)
        ensures
            channel < NUM_CHANNELS ==> r is Ok && final(self).underlight@ == old(
                self,
            ).underlight@.update(channel as int, brightness),
            channel >= NUM_CHANNELS ==> r == Err::<(), HwError>(HwError::InvalidArgument)
                && *final(self) == *old(self),
    {
        if channel as usize >= NUM_CHANNELS {
            return Err(HwError::InvalidArgument);
        }
        self.underlight[channel as usize] = brightness;
        Ok(())
    }

    /// Sets the colour of one RGB group (channels `3 * led_id` to
    /// `3 * led_id + 2`). A group outside `[0, 6)` is rejected and the image is
    /// left as it was.
    pub fn set_rgb(&mut self, led_id: u8, r: u8, g: u8, b: u8) -> (res: Result<(), HwError>)
        ensures
            led_id < 6 ==> res is Ok && final(self).underlight@ == old(
                self,
            ).underlight@.update(3 * led_id as int, r).update(3 * led_id as int + 1, g).update(
                3 * led_id as int + 2,
                b,
            ),
            led_id >= 6 ==> res == Err::<(), HwError>(HwError::InvalidArgument) && *final(self)
                == *old(self),
    {
        if led_id >= 6 {
            return Err(HwError::InvalidArgument);
        }
        let base_channel = led_id as usize * 3;
        self.underlight[base_channel] = r;
        self.underlight[base_channel + 1] = g;
        self.underlight[base_channel + 2] = b;
        Ok(())
    }

    /// The writes that commit the image to the device.
    pub fn update_underlighting(&self) -> (r: Vec<BusWrite>)
        ensures
            plan_view(r@) == pwm_plan(self.underlight@),
    {
        self.write_pwm_values()
    }

    /// Sets the colour of one RGB group and commits the image: the writes of
    /// `update_underlighting` after `set_rgb`. A group outside `[0, 6)` is
    /// rejected, the image is left as it was and nothing is written.
    pub fn set_underlight(&mut self, light_id: u8, r: u8, g: u8, b: u8) -> (res: Result<
        Vec<BusWrite>,
        HwError,
    >)
        ensures
            light_id < 6 ==> res is Ok && final(self).underlight@ == old(
                self,
            ).underlight@.update(3 * light_id as int, r).update(3 * light_id as int + 1, g).update(
                3 * light_id as int + 2,
                b,
            ) && plan_view(res->Ok_0@) == pwm_plan(final(self).underlight@),
            light_id >= 6 ==> res == Err::<Vec<BusWrite>, HwError>(HwError::InvalidArgument)
                && *final(self) == *old(self),
    {
        match self.set_rgb(light_id, r, g, b) {
            Ok(()) => Ok(self.update_underlighting()),
            Err(e) => Err(e),
        }
    }

    /// Sets every RGB group to one colour and commits the image.
    pub fn fill_underlighting(&mut self, color: (u8, u8, u8)) -> (r: Vec<BusWrite>)
        ensures
            final(self).underlight@ == rgb_fill(color.0, color.1, color.2),
            plan_view(r@) == pwm_plan(final(self).underlight@),
    {
        self.fill_underlight(color);
        self.update_underlighting()
    }

    /// Sets every channel of the image to one brightness.
    pub fn fill_all(&mut self, brightness: u8)
        ensures
            final(self).underlight@ == Seq::new(NUM_CHANNELS as nat, |i: int| brightness),
    {
        let mut i: usize = 0;
        while i < NUM_CHANNELS
            invariant
                i <= NUM_CHANNELS,
                forall|k: int| 0 <= k < i ==> #[trigger] self.underlight@[k] == brightness,
            decreases NUM_CHANNELS - i,
        {
            self.underlight[i] = brightness;
            i = i + 1;
        }
        assert(self.underlight@ =~= Seq::new(NUM_CHANNELS as nat, |i: int| brightness));
    }

    /// The write that resets the device.
    pub fn reset(&self) -> (r: Vec<BusWrite>)
        ensures
            plan_view(r@) == reset_plan(),
    {
        let mut plan = Vec::new();
        assert(plan_view(plan@) =~= Seq::empty());
        push_plan(&mut plan, bus_write(BusStep::Reset, two_bytes(REG_RESET, 0xFF)));
        assert(plan_view(plan@) =~= reset_plan());
        plan
    }

    /// The write that enables the device's output.
    pub fn enable(&self) -> (r: Vec<BusWrite>)
        ensures
            plan_view(r@) == enable_plan(),
    {
        let mut plan = Vec::new();
        assert(plan_view(plan@) =~= Seq::empty());
        push_plan(&mut plan, bus_write(BusStep::Enable, two_bytes(REG_ENABLE, 0x00)));
        assert(plan_view(plan@) =~= enable_plan());
        plan
    }

    /// The write that disables the device's output.
    pub fn disable(&self) -> (r: Vec<BusWrite>)
        ensures
            plan_view(r@) == disable_plan(),
    {
        let mut plan = Vec::new();
        assert(plan_view(plan@) =~= Seq::empty());
        push_plan(&mut plan, bus_write(BusStep::Disable, two_bytes(REG_ENABLE, 0x01)));
        assert(plan_view(plan@) =~= disable_plan());
        plan
    }

    /// The write that latches staged values.
    fn apply_changes(&self) -> (r: Vec<BusWrite>)
        ensures
            plan_view(r@) == latch_plan(),
    {
        let mut plan = Vec::new();
        assert(plan_view(plan@) =~= Seq::empty());
        push_plan(&mut plan, bus_write(BusStep::Latch, two_bytes(REG_UPDATE, 0xFF)));
        assert(plan_view(plan@) =~= latch_plan());
        plan
    }

    /// Select the first PWM register, write the whole image, latch.
    fn write_pwm_values(&self) -> (r: Vec<BusWrite>)
        ensures
            plan_view(r@) == pwm_plan(self.underlight@),
    {
        let mut data: Vec<u8> = Vec::new();
        let mut i: usize = 0;
        while i < NUM_CHANNELS
            invariant
                i <= NUM_CHANNELS,
                data@ == self.underlight@.subrange(0, i as int),
            decreases NUM_CHANNELS - i,
        {
            data.push(self.underlight[i]);
            i = i + 1;
            assert(data@ =~= self.underlight@.subrange(0, i as int));
        }
        assert(data@ =~= self.underlight@);
        let mut plan = Vec::new();
        assert(plan_view(plan@) =~= Seq::empty());
        push_plan(&mut plan, bus_write(BusStep::PwmStart, one_byte(REG_PWM_START)));
        push_plan(&mut plan, bus_write(BusStep::PwmData, data));
        append_plan(&mut plan, self.apply_changes());
        assert(plan_view(plan@) =~= pwm_plan(self.underlight@));
        plan
    }
}

} // verus!
