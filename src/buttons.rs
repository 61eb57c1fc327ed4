use vstd::prelude::*;

use crate::config::{FULL_SCALE, LED_PWM_HZ, NUM_BUTTONS};
use crate::error::HwError;
use crate::utils::{clamp, clamp_spec};

verus! {

/// Duty cycles of the four button LEDs, in hundredths of a percent, and
/// their PWM carrier.
#[derive(Clone, Copy, Debug)]
pub struct Buttons {
    pub led_duty: [u32; 4],
    /// PWM carrier of the button LEDs, in Hz.
    pub led_frequency: u32,
}

impl Buttons {
    /// All four LEDs off, on a 2000 Hz carrier.
    pub fn new() -> (r: Buttons)
        ensures
            r.led_duty@ == Seq::new(NUM_BUTTONS as nat, |i: int| 0u32),
            r.led_frequency == LED_PWM_HZ,
    {
        let r = Buttons { led_duty: [0u32; 4], led_frequency: LED_PWM_HZ };
        assert(r.led_duty@ =~= Seq::new(NUM_BUTTONS as nat, |i: int| 0u32));
        r
    }

    /// Sets the brightness of one button LED; `value` is clamped to
    /// `[0, FULL_SCALE]` and becomes the duty cycle. An LED outside `[0, 4)` is
    /// rejected and nothing changes.
    pub fn set_button_led(&mut self, button_led: u8, value: i64) -> (r: Result<(), HwError>)
        ensures
            button_led < NUM_BUTTONS ==> r is Ok && final(self).led_duty@ == old(
                self,
            ).led_duty@.update(
                button_led as int,
                clamp_spec(value as int, 0, FULL_SCALE as int) as u32,
            ) && final(self).led_frequency == old(self).led_frequency,
            button_led >= NUM_BUTTONS ==> r == Err::<(), HwError>(HwError::InvalidArgument)
                && *final(self) == *old(self),
    {
        if button_led as usize >= NUM_BUTTONS {
            return Err(HwError::InvalidArgument);
        }
        let brightness = clamp(value, 0, FULL_SCALE);
        self.led_duty[button_led as usize] = brightness as u32;
        Ok(())
    }
}

/// Maps a host's button identifier to an index into the four buttons.
pub fn button_index(button_id: i32) -> (r: Result<usize, HwError>)
    ensures
        0 <= button_id < NUM_BUTTONS ==> r == Ok::<usize, HwError>(button_id as usize),
        !(0 <= button_id < NUM_BUTTONS) ==> r == Err::<usize, HwError>(HwError::InvalidArgument),
{
    if 0 <= button_id && button_id < NUM_BUTTONS as i32 {
        Ok(button_id as usize)
    } else {
        Err(HwError::InvalidArgument)
    }
}

/// A change of a button's state.
#[derive(Clone, Copy, Debug, PartialEq, Eq, Structural)]
pub struct ButtonEvent {
    pub button: u8,
    /// True for a press, false for a release.
    pub pressed: bool,
}

/// The events of one poll for buttons `0..n`, in button order: one for each
/// button whose level differs from its last known state.
pub open spec fn edge_events(prev: Seq<bool>, now: Seq<bool>, n: nat) -> Seq<ButtonEvent>
    decreases n,
{
    if n == 0 {
        Seq::empty()
    } else {
        let before = edge_events(prev, now, (n - 1) as nat);
        let i = n - 1;
        if prev[i] != now[i] {
            before.push(ButtonEvent { button: i as u8, pressed: now[i] })
        } else {
            before
        }
    }
}

/// Last known state of each button: pressed or released.
#[derive(Clone, Copy, Debug)]
pub struct ButtonMonitor {
    pub states: [bool; 4],
}

impl ButtonMonitor {
    /// Every button released.
    pub fn new() -> (r: ButtonMonitor)
        ensures
            r.states@ == Seq::new(NUM_BUTTONS as nat, |i: int| false),
    {
        let r = ButtonMonitor { states: [false; 4] };
        assert(r.states@ =~= Seq::new(NUM_BUTTONS as nat, |i: int| false));
        r
    }

    /// Takes one sample of the four pin levels (high = pressed) and returns
    /// the transitions: a press for each button that went from released to
    /// pressed, a release for each that went the other way, in button order.
    /// An unchanged level gives no event.
    pub fn poll(&mut self, levels: [bool; 4]) -> (r: Vec<ButtonEvent>)
        ensures
            final(self).states@ == levels@,
            r@ == edge_events(old(self).states@, levels@, NUM_BUTTONS as nat),
    {
        let mut events: Vec<ButtonEvent> = Vec::new();
        let mut i: usize = 0;
        while i < NUM_BUTTONS
            invariant
                i <= NUM_BUTTONS,
                events@ == edge_events(old(self).states@, levels@, i as nat),
                forall|k: int| 0 <= k < i ==> #[trigger] self.states@[k] == levels@[k],
                forall|k: int| i <= k < NUM_BUTTONS ==> #[trigger] self.states@[k] == old(
                    self,
                ).states@[k],
            decreases NUM_BUTTONS - i,
        {
            let is_pressed = levels[i];
            if is_pressed != self.states[i] {
                events.push(ButtonEvent { button: i as u8, pressed: is_pressed });
                self.states[i] = is_pressed;
            }
            i = i + 1;
        }
        assert(self.states@ =~= levels@);
        events
    }
}

/// In one poll a button whose level differs from its last known state gets
/// exactly one event, a press exactly when the new level is high; a button
/// whose level is unchanged gets none.
pub proof fn lemma_one_event_per_transition(prev: Seq<bool>, now: Seq<bool>, b: int)
    requires
        prev.len() == NUM_BUTTONS,
        now.len() == NUM_BUTTONS,
        0 <= b < NUM_BUTTONS,
    ensures
        prev[b] != now[b] ==> edge_events(prev, now, NUM_BUTTONS as nat).filter(
            |e: ButtonEvent| e.button == b,
        ) == seq![ButtonEvent { button: b as u8, pressed: now[b] }],
        prev[b] == now[b] ==> edge_events(prev, now, NUM_BUTTONS as nat).filter(
            |e: ButtonEvent| e.button == b,
        ) == Seq::<ButtonEvent>::empty(),
{
    lemma_events_of_button(prev, now, NUM_BUTTONS as nat, b);
}

proof fn lemma_events_of_button(prev: Seq<bool>, now: Seq<bool>, n: nat, b: int)
    requires
        n <= NUM_BUTTONS,
        prev.len() == NUM_BUTTONS,
        now.len() == NUM_BUTTONS,
        0 <= b < NUM_BUTTONS,
    ensures
        (b < n && prev[b] != now[b]) ==> edge_events(prev, now, n).filter(
            |e: ButtonEvent| e.button == b,
        ) == seq![ButtonEvent { button: b as u8, pressed: now[b] }],
        !(b < n && prev[b] != now[b]) ==> edge_events(prev, now, n).filter(
            |e: ButtonEvent| e.button == b,
        ) == Seq::<ButtonEvent>::empty(),
    decreases n,
{
    let f = |e: ButtonEvent| e.button == b;
    if n == 0 {
        assert(edge_events(prev, now, n).filter(f) =~= Seq::<ButtonEvent>::empty());
    } else {
        lemma_events_of_button(prev, now, (n - 1) as nat, b);
        let before = edge_events(prev, now, (n - 1) as nat);
        let i = n - 1;
        if prev[i] != now[i] {
            let e = ButtonEvent { button: i as u8, pressed: now[i] };
            before.lemma_filter_push(e, f);
            if i == b {
                assert(before.filter(f) =~= Seq::<ButtonEvent>::empty());
                assert(before.push(e).filter(f) =~= seq![e]);
            }
        }
    }
}

} // verus!
