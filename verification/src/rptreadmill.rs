//! The treadmill controller: a state machine from commands and debounced
//! input events to actuator writes and observer events.
//!
//! The controller owns no hardware.  A host thread runs the select loop:
//! it blocks on the command and input-event channels, hands whatever
//! arrives to [`PiTreadmill::handle_command`] or
//! [`PiTreadmill::handle_input_event`], performs the returned
//! [`Action`]s on the PWM and GPIO outputs, and forwards the returned
//! events to the observer.  Everything the controller decides — duty
//! cycles, debounced speed averaging, safety gating, shutdown — happens
//! here, on plain values.

use vstd::prelude::*;

verus! {

use crate::signal;
use crate::signal::{duty_of_speed, speed_of_period, MAX_RAW_SPEED_MILLI, MIN_DUTY};
use crate::treadmill::{Command, Event, Notice, TreadmillError};
use crate::watcher::InputEvent;

/// Number of raw speed samples the rolling average covers.
pub const SPEED_SAMPLE_COUNT: usize = 10;

/// Default duration of one incline pulse, milliseconds.
pub const INCLINE_PULSE_MS: u64 = 5000;

/// Controller calibration: how long to assert an incline output for one
/// raise or lower command.
#[derive(Clone, Copy, PartialEq, Eq, Debug, Structural)]
pub struct ControllerConfig {
    pub incline_pulse_ms: u64,
}

impl Default for ControllerConfig {
    /// The stock calibration.
    fn default() -> (c: Self)
        ensures
            c.incline_pulse_ms == INCLINE_PULSE_MS,
    {
        ControllerConfig { incline_pulse_ms: INCLINE_PULSE_MS }
    }
}

/// An actuator write the host must perform, in the order returned.
#[derive(Clone, Copy, PartialEq, Eq, Debug, Structural)]
pub enum Action {
    /// Enable the PWM channel that drives the belt motor.
    EnablePwm,
    /// Disable the PWM channel.
    DisablePwm,
    /// Set the PWM duty cycle, in hundredths of a percent.
    SetDuty(u64),
    /// Assert the incline-up output for the given milliseconds, then
    /// de-assert it.
    PulseInclineUp(u64),
    /// Assert the incline-down output for the given milliseconds, then
    /// de-assert it.
    PulseInclineDown(u64),
}

/// The total of a ring of raw speed samples (thousandths of a km/h).
pub open spec fn sample_total(s: Seq<u32>) -> int
    decreases s.len(),
{
    if s.len() == 0 {
        0
    } else {
        sample_total(s.drop_last()) + s.last()
    }
}

/// The mean of a full ring of [`SPEED_SAMPLE_COUNT`] raw samples,
/// rounded half-up to hundredths of a km/h: the mean in hundredths is
/// the total over `10 * 100`, so adding half the divisor before the
/// division rounds it.
pub open spec fn ring_average_centi(s: Seq<u32>) -> int
    recommends
        s.len() == SPEED_SAMPLE_COUNT,
{
    (sample_total(s) + 50) / 100
}

/// A ring full of zero samples, as the controller starts out.
pub open spec fn zero_ring() -> Seq<u32> {
    Seq::new(SPEED_SAMPLE_COUNT as nat, |i: int| 0u32)
}

/// The ring contents after feeding `samples` one at a time into a ring
/// that starts as `start` with its cursor at `cursor`: each sample
/// overwrites the next slot round-robin.
pub open spec fn ring_after(start: Seq<u32>, cursor: int, samples: Seq<u32>) -> Seq<u32>
    decreases samples.len(),
{
    if samples.len() == 0 {
        start
    } else {
        ring_after(start, cursor, samples.drop_last()).update(
            (cursor + samples.len() - 1) % (SPEED_SAMPLE_COUNT as int),
            samples.last(),
        )
    }
}

/// The treadmill controller's state: the actuator settings it has
/// ordered so far, and the rolling window of measured speed samples.
pub struct PiTreadmill {
    /// False once a shutdown has been taken; nothing moves afterwards.
    pub running: bool,
    /// Whether the belt PWM has been ordered enabled.
    pub pwm_enabled: bool,
    /// The last duty cycle ordered, hundredths of a percent.
    pub duty: u64,
    /// The reported measured speed: the rounded ring average, in
    /// hundredths of a km/h.
    pub current_speed: i32,
    /// The last raw speed samples, thousandths of a km/h.
    pub speeds: Vec<u32>,
    /// The ring slot the next sample lands in.
    pub speeds_index: usize,
    pub config: ControllerConfig,
}

impl PiTreadmill {
    /// The controller's invariant: a full ring of in-range samples, a
    /// cursor inside it, a reported speed that is exactly the ring's
    /// rounded average, and a duty cycle that is zero exactly when the
    /// PWM is off and never below the minimum drive when it is on.
    pub open spec fn wf(self) -> bool {
        &&& self.speeds@.len() == SPEED_SAMPLE_COUNT
        &&& self.speeds_index < SPEED_SAMPLE_COUNT
        &&& forall|i: int|
            0 <= i < self.speeds@.len() ==> #[trigger] self.speeds@[i] <= MAX_RAW_SPEED_MILLI
        &&& self.current_speed == ring_average_centi(self.speeds@)
        &&& (self.pwm_enabled ==> self.duty >= MIN_DUTY)
        &&& (!self.pwm_enabled ==> self.duty == 0)
    }

    /// A fresh controller: belt stopped, PWM off, an all-zero sample
    /// ring.  Acquiring the actual pins and channels is the host's job
    /// and happens before this.
    pub fn new(config: ControllerConfig) -> (t: PiTreadmill)
        ensures
            t.wf(),
            t.running,
            !t.pwm_enabled,
            t.duty == 0,
            t.current_speed == 0,
            t.speeds@ == zero_ring(),
            t.speeds_index == 0,
            t.config == config,
    {
        let mut speeds: Vec<u32> = Vec::new();
        let mut i: usize = 0;
        while i < SPEED_SAMPLE_COUNT
            invariant
                i <= SPEED_SAMPLE_COUNT,
                speeds@.len() == i,
                forall|j: int| 0 <= j < i ==> #[trigger] speeds@[j] == 0u32,
            decreases SPEED_SAMPLE_COUNT - i,
        {
            speeds.push(0);
            i = i + 1;
        }
        let t = PiTreadmill {
            running: true,
            pwm_enabled: false,
            duty: 0,
            current_speed: 0,
            speeds,
            speeds_index: 0,
            config,
        };
        proof {
            assert(t.speeds@ =~= zero_ring());
            lemma_sample_total_zero(t.speeds@);
        }
        t
    }

    /// The duty cycle that drives the belt at `speed` hundredths of a
    /// km/h, in hundredths of a percent.
    pub fn km_per_hour_to_duty_cycle(speed: i32) -> (duty: u64)
        ensures
            duty == duty_of_speed(speed as int),
    {
        signal::speed_to_duty_cycle(speed)
    }

    /// Take one user command; returns the actuator writes to perform
    /// and the events to report, each in order.
    ///
    /// A positive speed request enables the PWM if needed and orders
    /// the fitted duty cycle, rewriting it only when it actually
    /// changed; a zero or negative request stops and disables a running
    /// belt and is a no-op on a stopped one.  Incline commands pulse
    /// the matching output without touching the belt state.  Shutdown
    /// zeroes the duty, disables the PWM and makes every later command
    /// and input event a no-op.
    pub fn handle_command(&mut self, c: Command) -> (out: (Vec<Action>, Vec<Event>))
        requires
            old(self).wf(),
        ensures
            final(self).wf(),
            final(self).current_speed == old(self).current_speed,
            final(self).speeds@ == old(self).speeds@,
            final(self).speeds_index == old(self).speeds_index,
            final(self).config == old(self).config,
            !old(self).running ==> *final(self) == *old(self)
                && out.0@ == Seq::<Action>::empty()
                && out.1@ == Seq::<Event>::empty(),
            old(self).running ==> match c {
                Command::SetSpeed(s) => {
                    &&& (s > 0 ==> {
                        &&& final(self).running
                        &&& final(self).pwm_enabled
                        &&& final(self).duty == duty_of_speed(s as int)
                        &&& out.1@ == seq![Event::SpeedChanged(s)]
                        &&& (!old(self).pwm_enabled ==> out.0@ == seq![
                            Action::EnablePwm,
                            Action::SetDuty(duty_of_speed(s as int) as u64),
                        ])
                        &&& (old(self).pwm_enabled && old(self).duty != duty_of_speed(s as int)
                            ==> out.0@ == seq![Action::SetDuty(duty_of_speed(s as int) as u64)])
                        &&& (old(self).pwm_enabled && old(self).duty == duty_of_speed(s as int)
                            ==> out.0@ == Seq::<Action>::empty())
                    })
                    &&& (s <= 0 ==> {
                        &&& final(self).running
                        &&& !final(self).pwm_enabled
                        &&& final(self).duty == 0
                        &&& (old(self).pwm_enabled ==> out.0@ == seq![
                            Action::SetDuty(0u64),
                            Action::DisablePwm,
                        ] && out.1@ == seq![Event::SpeedChanged(0)])
                        &&& (!old(self).pwm_enabled ==> out.0@ == Seq::<Action>::empty()
                            && out.1@ == Seq::<Event>::empty())
                    })
                },
                Command::RaiseIncline => *final(self) == *old(self)
                    && out.0@ == seq![Action::PulseInclineUp(old(self).config.incline_pulse_ms)]
                    && out.1@ == Seq::<Event>::empty(),
                Command::LowerIncline => *final(self) == *old(self)
                    && out.0@ == seq![Action::PulseInclineDown(old(self).config.incline_pulse_ms)]
                    && out.1@ == Seq::<Event>::empty(),
                Command::Shutdown => {
                    &&& !final(self).running
                    &&& !final(self).pwm_enabled
                    &&& final(self).duty == 0
                    &&& out.0@ == seq![Action::SetDuty(0u64), Action::DisablePwm]
                    &&& out.1@ == Seq::<Event>::empty()
                },
            },
    {
        let mut actions: Vec<Action> = Vec::new();
        let mut events: Vec<Event> = Vec::new();
        if !self.running {
            return (actions, events);
        }
        match c {
            Command::SetSpeed(s) => {
                if s > 0 {
                    proof {
                        signal::lemma_duty_minimum_drive(s as int);
                    }
                    let duty = signal::speed_to_duty_cycle(s);
                    if !self.pwm_enabled {
                        self.pwm_enabled = true;
                        actions.push(Action::EnablePwm);
                        actions.push(Action::SetDuty(duty));
                    } else if duty != self.duty {
                        actions.push(Action::SetDuty(duty));
                    }
                    self.duty = duty;
                    events.push(Event::SpeedChanged(s));
                } else {
                    if self.pwm_enabled {
                        self.pwm_enabled = false;
                        self.duty = 0;
                        actions.push(Action::SetDuty(0));
                        actions.push(Action::DisablePwm);
                        events.push(Event::SpeedChanged(0));
                    }
                }
            }
            Command::RaiseIncline => {
                actions.push(Action::PulseInclineUp(self.config.incline_pulse_ms));
            }
            Command::LowerIncline => {
                actions.push(Action::PulseInclineDown(self.config.incline_pulse_ms));
            }
            Command::Shutdown => {
                self.running = false;
                self.pwm_enabled = false;
                self.duty = 0;
                actions.push(Action::SetDuty(0));
                actions.push(Action::DisablePwm);
            }
        }
        (actions, events)
    }

    /// Take one debounced input event; returns the actuator writes to
    /// perform and the events to report, each in order.
    ///
    /// A speed pulse lands in the sample ring and, when the rounded
    /// ring average moves, the new measured speed is reported — it
    /// never drives the actuator, which follows explicit speed commands
    /// only.  An incline pulse is reported to the observer.  A pulled
    /// safety key is reported and forces an immediate stop of a running
    /// belt; a re-inserted key is only reported.
    pub fn handle_input_event(&mut self, ev: InputEvent) -> (out: (Vec<Action>, Vec<Event>))
        requires
            old(self).wf(),
        ensures
            final(self).wf(),
            final(self).running == old(self).running,
            final(self).config == old(self).config,
            !old(self).running ==> *final(self) == *old(self)
                && out.0@ == Seq::<Action>::empty()
                && out.1@ == Seq::<Event>::empty(),
            old(self).running ==> match ev {
                InputEvent::SpeedPulse(p) => {
                    &&& out.0@ == Seq::<Action>::empty()
                    &&& final(self).pwm_enabled == old(self).pwm_enabled
                    &&& final(self).duty == old(self).duty
                    &&& (p == 0 ==> *final(self) == *old(self)
                        && out.1@ == seq![
                            Event::Message(Notice::Fault(TreadmillError::Conversion)),
                        ])
                    &&& (p > 0 ==> {
                        &&& final(self).speeds@ == old(self).speeds@.update(
                            old(self).speeds_index as int,
                            speed_of_period(p as int) as u32,
                        )
                        &&& final(self).speeds_index
                            == (old(self).speeds_index + 1) % (SPEED_SAMPLE_COUNT as int)
                        &&& final(self).current_speed == ring_average_centi(final(self).speeds@)
                        &&& (final(self).current_speed != old(self).current_speed ==> out.1@
                            == seq![Event::SpeedChanged(final(self).current_speed)])
                        &&& (final(self).current_speed == old(self).current_speed ==> out.1@
                            == Seq::<Event>::empty())
                    })
                },
                InputEvent::InclinePulse(p) => *final(self) == *old(self)
                    && out.0@ == Seq::<Action>::empty()
                    && out.1@ == seq![Event::Message(Notice::InclinePulse(p))],
                InputEvent::SafetyKeyRemoved => {
                    &&& !final(self).pwm_enabled
                    &&& final(self).duty == 0
                    &&& final(self).current_speed == old(self).current_speed
                    &&& final(self).speeds@ == old(self).speeds@
                    &&& final(self).speeds_index == old(self).speeds_index
                    &&& out.1@ == seq![Event::KeyRemoved]
                    &&& (old(self).pwm_enabled ==> out.0@ == seq![
                        Action::SetDuty(0u64),
                        Action::DisablePwm,
                    ])
                    &&& (!old(self).pwm_enabled ==> out.0@ == Seq::<Action>::empty())
                },
                InputEvent::SafetyKeyInserted => *final(self) == *old(self)
                    && out.0@ == Seq::<Action>::empty()
                    && out.1@ == seq![Event::KeyInserted],
            },
    {
        let mut actions: Vec<Action> = Vec::new();
        let mut events: Vec<Event> = Vec::new();
        if !self.running {
            return (actions, events);
        }
        match ev {
            InputEvent::SpeedPulse(p) => {
                match signal::period_to_speed(p) {
                    Err(_) => {
                        events.push(Event::Message(Notice::Fault(TreadmillError::Conversion)));
                    }
                    Ok(sample) => {
                        let slot = self.speeds_index;
                        self.speeds[slot] = sample;
                        self.speeds_index = (slot + 1) % SPEED_SAMPLE_COUNT;
                        let avg = Self::averaged_speed(&self.speeds);
                        if avg != self.current_speed {
                            self.current_speed = avg;
                            events.push(Event::SpeedChanged(avg));
                        }
                    }
                }
            }
            InputEvent::InclinePulse(p) => {
                events.push(Event::Message(Notice::InclinePulse(p)));
            }
            InputEvent::SafetyKeyRemoved => {
                if self.pwm_enabled {
                    self.pwm_enabled = false;
                    self.duty = 0;
                    actions.push(Action::SetDuty(0));
                    actions.push(Action::DisablePwm);
                }
                events.push(Event::KeyRemoved);
            }
            InputEvent::SafetyKeyInserted => {
                events.push(Event::KeyInserted);
            }
        }
        (actions, events)
    }

    /// The rounded ring average of a full ring of in-range samples.
    fn averaged_speed(speeds: &Vec<u32>) -> (avg: i32)
        requires
            speeds@.len() == SPEED_SAMPLE_COUNT,
            forall|i: int|
                0 <= i < speeds@.len() ==> #[trigger] speeds@[i] <= MAX_RAW_SPEED_MILLI,
        ensures
            avg == ring_average_centi(speeds@),
            0 <= avg <= 51735,
    {
        let mut total: u64 = 0;
        let mut i: usize = 0;
        while i < SPEED_SAMPLE_COUNT
            invariant
                i <= SPEED_SAMPLE_COUNT,
                speeds@.len() == SPEED_SAMPLE_COUNT,
                forall|j: int|
                    0 <= j < speeds@.len() ==> #[trigger] speeds@[j] <= MAX_RAW_SPEED_MILLI,
                total == sample_total(speeds@.subrange(0, i as int)),
                total <= i * (MAX_RAW_SPEED_MILLI as int),
            decreases SPEED_SAMPLE_COUNT - i,
        {
            proof {
                assert(speeds@.subrange(0, i + 1).drop_last() =~= speeds@.subrange(0, i as int));
            }
            total = total + (speeds[i] as u64);
            i = i + 1;
        }
        proof {
            assert(speeds@.subrange(0, SPEED_SAMPLE_COUNT as int) =~= speeds@);
        }
        ((total + 50) / 100) as i32
    }
}

/// A ring of zero samples totals zero.
pub proof fn lemma_sample_total_zero(s: Seq<u32>)
    requires
        forall|i: int| 0 <= i < s.len() ==> #[trigger] s[i] == 0u32,
    ensures
        sample_total(s) == 0,
    decreases s.len(),
{
    if s.len() > 0 {
        lemma_sample_total_zero(s.drop_last());
    }
}

/// Dropping a sequence's first sample drops exactly its value from the
/// total.
pub proof fn lemma_sample_total_drop_first(s: Seq<u32>)
    requires
        s.len() > 0,
    ensures
        sample_total(s.subrange(1, s.len() as int)) == sample_total(s) - s[0],
    decreases s.len(),
{
    if s.len() == 1 {
        assert(s.subrange(1, 1) =~= Seq::<u32>::empty());
        assert(s.drop_last() =~= Seq::<u32>::empty());
        assert(sample_total(Seq::<u32>::empty()) == 0);
        assert(sample_total(s) == sample_total(s.drop_last()) + s.last());
    } else {
        let shifted = s.subrange(1, s.len() as int);
        assert(shifted.drop_last() =~= s.drop_last().subrange(1, s.len() - 1));
        assert(shifted.last() == s.last());
        lemma_sample_total_drop_first(s.drop_last());
        assert(s.drop_last()[0] == s[0]);
        assert(sample_total(s) == sample_total(s.drop_last()) + s.last());
        assert(sample_total(shifted) == sample_total(shifted.drop_last()) + shifted.last());
    }
}

/// Feeding at most a full window of samples into a fresh ring lays
/// them out in order, with the untouched tail keeping its zeros.
proof fn lemma_ring_fill(start: Seq<u32>, samples: Seq<u32>)
    requires
        start.len() == SPEED_SAMPLE_COUNT,
        samples.len() <= SPEED_SAMPLE_COUNT,
    ensures
        ring_after(start, 0, samples).len() == SPEED_SAMPLE_COUNT,
        forall|j: int|
            0 <= j < SPEED_SAMPLE_COUNT ==> #[trigger] ring_after(start, 0, samples)[j] == (if j
                < samples.len() {
                samples[j]
            } else {
                start[j]
            }),
    decreases samples.len(),
{
    if samples.len() > 0 {
        lemma_ring_fill(start, samples.drop_last());
    }
}

/// Rolling-average law, full window: after exactly ten samples the
/// ring holds those ten samples and nothing else, so the reported
/// speed is their mean rounded to hundredths.
pub proof fn lemma_rolling_average_full(samples: Seq<u32>)
    requires
        samples.len() == SPEED_SAMPLE_COUNT,
    ensures
        ring_after(zero_ring(), 0, samples) == samples,
        ring_average_centi(ring_after(zero_ring(), 0, samples)) == (sample_total(samples) + 50)
            / 100,
{
    lemma_ring_fill(zero_ring(), samples);
    assert(ring_after(zero_ring(), 0, samples) =~= samples);
}

/// Rolling-average law, eviction: an eleventh sample overwrites the
/// oldest slot, so the ring holds samples one through ten — the ring
/// is a fixed-size window, not an accumulator — and the total it is
/// averaged over is the total of those last ten samples.
pub proof fn lemma_rolling_average_evicts(samples: Seq<u32>)
    requires
        samples.len() == SPEED_SAMPLE_COUNT + 1,
    ensures
        ring_after(zero_ring(), 0, samples) == seq![samples[SPEED_SAMPLE_COUNT as int]]
            + samples.subrange(1, SPEED_SAMPLE_COUNT as int),
        sample_total(ring_after(zero_ring(), 0, samples)) == sample_total(
            samples.subrange(1, samples.len() as int),
        ),
{
    let first_window = samples.drop_last();
    let newest = samples[SPEED_SAMPLE_COUNT as int];
    lemma_ring_fill(zero_ring(), first_window);
    assert(ring_after(zero_ring(), 0, samples) == ring_after(zero_ring(), 0, first_window).update(
        0,
        newest,
    ));
    assert(ring_after(zero_ring(), 0, samples) =~= seq![newest] + samples.subrange(
        1,
        SPEED_SAMPLE_COUNT as int,
    ));
    let shifted = samples.subrange(1, samples.len() as int);
    assert(shifted.drop_last() =~= samples.subrange(1, SPEED_SAMPLE_COUNT as int));
    lemma_sample_total_drop_first(first_window);
    assert(sample_total(seq![newest] + samples.subrange(1, SPEED_SAMPLE_COUNT as int))
        == sample_total(shifted)) by {
        lemma_sample_total_shift(newest, samples.subrange(1, SPEED_SAMPLE_COUNT as int));
        assert(shifted.last() == newest);
    }
}

/// Prepending a sample adds exactly its value to the total.
proof fn lemma_sample_total_shift(head: u32, rest: Seq<u32>)
    ensures
        sample_total(seq![head] + rest) == head + sample_total(rest),
    decreases rest.len(),
{
    if rest.len() == 0 {
        assert(seq![head] + rest =~= seq![head]);
        assert(seq![head].drop_last() =~= Seq::<u32>::empty());
        assert(sample_total(Seq::<u32>::empty()) == 0);
        assert(sample_total(seq![head]) == head);
    } else {
        assert((seq![head] + rest).drop_last() =~= seq![head] + rest.drop_last());
        lemma_sample_total_shift(head, rest.drop_last());
    }
}

} // verus!
