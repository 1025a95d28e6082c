//! The input watcher: turns noisy pin levels into a clean stream of
//! typed input events.
//!
//! A host thread samples the safety, speed and incline pins at a fixed
//! interval (or from edge interrupts) and feeds each reading here with a
//! millisecond timestamp.  The watcher debounces: the safety pin must be
//! quiet for a window before a level change is accepted, and sensor
//! edges are accepted only when far enough apart, with the debounce
//! baseline advancing on accepted edges alone.

use vstd::prelude::*;

verus! {

/// The level of a digital input pin.
#[derive(Clone, Copy, PartialEq, Eq, Debug, Structural)]
pub enum PinLevel {
    High,
    Low,
}

/// A debounced observation handed from the watcher to the controller.
#[derive(Clone, Copy, PartialEq, Eq, Debug, Structural)]
pub enum InputEvent {
    /// An accepted speed sensor edge; carries the elapsed milliseconds
    /// since the previous accepted speed edge.
    SpeedPulse(u64),
    /// An accepted incline sensor edge; carries the elapsed milliseconds
    /// since the previous accepted incline edge.
    InclinePulse(u64),
    /// The safety pin rose to its pulled-up rest level: key pulled out.
    SafetyKeyRemoved,
    /// The safety pin was pulled low: key put back in.
    SafetyKeyInserted,
}

/// Default quiet window for the speed pin: real transitions at the
/// fastest supported belt speed are about 30 ms apart.
pub const SPEED_DEBOUNCE_MS: u64 = 15;

/// Default quiet window for the incline pin, whose signal rests high
/// for about 800 ms and drops for about 200 ms per actuation.
pub const INCLINE_DEBOUNCE_MS: u64 = 100;

/// Default quiet window for the safety key switch.
pub const SAFETY_DEBOUNCE_MS: u64 = 50;

/// Debounce thresholds in milliseconds.  These are calibration values
/// tied to the driven hardware, so they travel as configuration rather
/// than constants baked into the watcher.
#[derive(Clone, Copy, PartialEq, Eq, Debug, Structural)]
pub struct WatcherConfig {
    pub speed_debounce_ms: u64,
    pub incline_debounce_ms: u64,
    pub safety_debounce_ms: u64,
}

impl Default for WatcherConfig {
    /// The stock calibration.
    fn default() -> (c: Self)
        ensures
            c.speed_debounce_ms == SPEED_DEBOUNCE_MS,
            c.incline_debounce_ms == INCLINE_DEBOUNCE_MS,
            c.safety_debounce_ms == SAFETY_DEBOUNCE_MS,
    {
        WatcherConfig {
            speed_debounce_ms: SPEED_DEBOUNCE_MS,
            incline_debounce_ms: INCLINE_DEBOUNCE_MS,
            safety_debounce_ms: SAFETY_DEBOUNCE_MS,
        }
    }
}

/// Debounces the falling edges of one sensor pin: an edge is accepted
/// only when at least `threshold_ms` has passed since the previously
/// accepted edge, and the baseline moves only when an edge is accepted.
pub struct EdgeDebouncer {
    /// Minimum spacing between accepted edges, milliseconds.
    pub threshold_ms: u64,
    /// Timestamp of the last accepted edge, or of construction.
    pub last_edge_ms: u64,
}

impl EdgeDebouncer {
    /// Whether an edge stamped `now_ms` clears the quiet window.
    pub open spec fn accepts(self, now_ms: int) -> bool {
        now_ms - self.last_edge_ms >= self.threshold_ms
    }

    pub fn new(threshold_ms: u64, now_ms: u64) -> (d: EdgeDebouncer)
        ensures
            d.threshold_ms == threshold_ms,
            d.last_edge_ms == now_ms,
    {
        EdgeDebouncer { threshold_ms, last_edge_ms: now_ms }
    }

    /// Feed one raw edge stamped `now_ms`.  An accepted edge returns the
    /// period since the previous accepted edge and becomes the new
    /// baseline; a rejected edge changes nothing at all.
    pub fn on_edge(&mut self, now_ms: u64) -> (accepted: Option<u64>)
        requires
            old(self).last_edge_ms <= now_ms,
        ensures
            final(self).threshold_ms == old(self).threshold_ms,
            old(self).accepts(now_ms as int) ==> accepted
                == Some((now_ms - old(self).last_edge_ms) as u64)
                && final(self).last_edge_ms == now_ms,
            !old(self).accepts(now_ms as int) ==> accepted is None && *final(self) == *old(self),
            accepted matches Some(p) ==> p >= old(self).threshold_ms,
    {
        let period: u64 = now_ms - self.last_edge_ms;
        if period >= self.threshold_ms {
            self.last_edge_ms = now_ms;
            Some(period)
        } else {
            None
        }
    }
}

/// The baseline an [`EdgeDebouncer`] holds after one raw edge: it moves
/// to the edge's timestamp only if the edge was accepted.
pub open spec fn baseline_after_edge(threshold: int, baseline: int, edge: int) -> int {
    if edge - baseline >= threshold {
        edge
    } else {
        baseline
    }
}

/// The periods emitted when the raw edges `edges` (timestamps, in
/// arrival order) are fed one by one to an [`EdgeDebouncer`] with the
/// given threshold and baseline.
pub open spec fn emitted_periods(threshold: int, baseline: int, edges: Seq<int>) -> Seq<int>
    decreases edges.len(),
{
    if edges.len() == 0 {
        Seq::empty()
    } else {
        let rest = emitted_periods(
            threshold,
            baseline_after_edge(threshold, baseline, edges[0]),
            edges.subrange(1, edges.len() as int),
        );
        if edges[0] - baseline >= threshold {
            seq![edges[0] - baseline] + rest
        } else {
            rest
        }
    }
}

/// Debounce law: whatever raw edges arrive, every emitted period is at
/// least the threshold.  Edges inside the quiet window are suppressed
/// without moving the baseline, so they can never shorten the period
/// attributed to a later accepted edge.
pub proof fn lemma_debounce_spacing(threshold: int, baseline: int, edges: Seq<int>)
    ensures
        forall|i: int|
            0 <= i < emitted_periods(threshold, baseline, edges).len()
                ==> #[trigger] emitted_periods(threshold, baseline, edges)[i] >= threshold,
    decreases edges.len(),
{
    if edges.len() > 0 {
        let tail = edges.subrange(1, edges.len() as int);
        let moved = baseline_after_edge(threshold, baseline, edges[0]);
        lemma_debounce_spacing(threshold, moved, tail);
        let out = emitted_periods(threshold, baseline, edges);
        let out_tail = emitted_periods(threshold, moved, tail);
        assert forall|i: int| 0 <= i < out.len() implies #[trigger] out[i] >= threshold by {
            if edges[0] - baseline >= threshold {
                assert(out == seq![edges[0] - baseline] + out_tail);
                if i > 0 {
                    assert(out[i] == out_tail[i - 1]);
                }
            } else {
                assert(out == out_tail);
            }
        }
    }
}

/// Debounces a sampled level: a change of level is accepted only after
/// a quiet window since the last accepted change, so brief pulse
/// artifacts on the line never surface.
pub struct LevelDebouncer {
    /// Minimum spacing between accepted level changes, milliseconds.
    pub threshold_ms: u64,
    /// The last accepted level.
    pub level: PinLevel,
    /// Timestamp of the last accepted change, or of construction.
    pub last_change_ms: u64,
}

impl LevelDebouncer {
    /// Whether a sample of `level` stamped `now_ms` is an accepted change.
    pub open spec fn accepts(self, level: PinLevel, now_ms: int) -> bool {
        level != self.level && now_ms - self.last_change_ms >= self.threshold_ms
    }

    pub fn new(threshold_ms: u64, level: PinLevel, now_ms: u64) -> (d: LevelDebouncer)
        ensures
            d.threshold_ms == threshold_ms,
            d.level == level,
            d.last_change_ms == now_ms,
    {
        LevelDebouncer { threshold_ms, level, last_change_ms: now_ms }
    }

    /// Feed one sample stamped `now_ms`.  Returns the new level when a
    /// change is accepted; a sample at the held level, or a change
    /// inside the quiet window, changes nothing.
    pub fn on_sample(&mut self, level: PinLevel, now_ms: u64) -> (changed: Option<PinLevel>)
        requires
            old(self).last_change_ms <= now_ms,
        ensures
            final(self).threshold_ms == old(self).threshold_ms,
            old(self).accepts(level, now_ms as int) ==> changed == Some(level)
                && final(self).level == level
                && final(self).last_change_ms == now_ms,
            !old(self).accepts(level, now_ms as int) ==> changed is None
                && *final(self) == *old(self),
    {
        if level != self.level && now_ms - self.last_change_ms >= self.threshold_ms {
            self.level = level;
            self.last_change_ms = now_ms;
            Some(level)
        } else {
            None
        }
    }
}

/// The three input levels read in one polling pass.
#[derive(Clone, Copy, PartialEq, Eq, Debug, Structural)]
pub struct PinSample {
    pub safety: PinLevel,
    pub speed: PinLevel,
    pub incline: PinLevel,
}

/// Watches the safety switch and the two sensor pins, debouncing each:
/// the safety pin by level, the sensors by falling edge.
pub struct Watcher {
    pub safety: LevelDebouncer,
    /// The speed pin level seen by the previous poll.
    pub speed_level: PinLevel,
    pub speed_edges: EdgeDebouncer,
    /// The incline pin level seen by the previous poll.
    pub incline_level: PinLevel,
    pub incline_edges: EdgeDebouncer,
}

impl Watcher {
    /// All debounce baselines lie at or before `now_ms`, as they do
    /// whenever timestamps are fed in nondecreasing order.
    pub open spec fn observed_up_to(self, now_ms: int) -> bool {
        &&& self.safety.last_change_ms <= now_ms
        &&& self.speed_edges.last_edge_ms <= now_ms
        &&& self.incline_edges.last_edge_ms <= now_ms
    }

    /// The event an accepted safety-level change reports: the pin rests
    /// high (pulled up) when the key is out and is closed to ground by
    /// an inserted key.
    pub open spec fn safety_event_of(level: PinLevel) -> InputEvent {
        if level is High {
            InputEvent::SafetyKeyRemoved
        } else {
            InputEvent::SafetyKeyInserted
        }
    }

    /// What one poll at `now_ms` emits for the safety pin.
    pub open spec fn safety_outcome(self, sample: PinSample, now_ms: int) -> Option<InputEvent> {
        if self.safety.accepts(sample.safety, now_ms) {
            Some(Self::safety_event_of(sample.safety))
        } else {
            None
        }
    }

    /// What one poll at `now_ms` emits for the speed pin: a falling
    /// edge that clears the quiet window emits the pulse period.
    pub open spec fn speed_outcome(self, sample: PinSample, now_ms: int) -> Option<InputEvent> {
        if self.speed_level is High && sample.speed is Low && self.speed_edges.accepts(now_ms) {
            Some(InputEvent::SpeedPulse((now_ms - self.speed_edges.last_edge_ms) as u64))
        } else {
            None
        }
    }

    /// What one poll at `now_ms` emits for the incline pin.
    pub open spec fn incline_outcome(self, sample: PinSample, now_ms: int) -> Option<InputEvent> {
        if self.incline_level is High && sample.incline is Low
            && self.incline_edges.accepts(now_ms) {
            Some(InputEvent::InclinePulse((now_ms - self.incline_edges.last_edge_ms) as u64))
        } else {
            None
        }
    }

    /// An optional event as the (possibly empty) run it contributes to
    /// a poll's output.
    pub open spec fn outcome_seq(o: Option<InputEvent>) -> Seq<InputEvent> {
        match o {
            Some(e) => seq![e],
            None => Seq::empty(),
        }
    }

    /// A watcher that takes the levels read at startup as its rest
    /// state, with all debounce baselines at `now_ms`.
    pub fn new(initial: PinSample, now_ms: u64, config: WatcherConfig) -> (w: Watcher)
        ensures
            w.observed_up_to(now_ms as int),
            w.safety.threshold_ms == config.safety_debounce_ms,
            w.safety.level == initial.safety,
            w.safety.last_change_ms == now_ms,
            w.speed_level == initial.speed,
            w.speed_edges.threshold_ms == config.speed_debounce_ms,
            w.speed_edges.last_edge_ms == now_ms,
            w.incline_level == initial.incline,
            w.incline_edges.threshold_ms == config.incline_debounce_ms,
            w.incline_edges.last_edge_ms == now_ms,
    {
        Watcher {
            safety: LevelDebouncer::new(config.safety_debounce_ms, initial.safety, now_ms),
            speed_level: initial.speed,
            speed_edges: EdgeDebouncer::new(config.speed_debounce_ms, now_ms),
            incline_level: initial.incline,
            incline_edges: EdgeDebouncer::new(config.incline_debounce_ms, now_ms),
        }
    }

    /// Feed the three levels read in one polling pass, stamped `now_ms`.
    /// Emits, in order: an accepted safety change, an accepted speed
    /// pulse, an accepted incline pulse — each only when due.  Debounce
    /// baselines advance only for accepted changes.
    pub fn poll(&mut self, sample: PinSample, now_ms: u64) -> (events: Vec<InputEvent>)
        requires
            old(self).observed_up_to(now_ms as int),
        ensures
            final(self).observed_up_to(now_ms as int),
            events@ == Self::outcome_seq(old(self).safety_outcome(sample, now_ms as int))
                + Self::outcome_seq(old(self).speed_outcome(sample, now_ms as int))
                + Self::outcome_seq(old(self).incline_outcome(sample, now_ms as int)),
            final(self).safety.threshold_ms == old(self).safety.threshold_ms,
            old(self).safety.accepts(sample.safety, now_ms as int)
                ==> final(self).safety.level == sample.safety
                && final(self).safety.last_change_ms == now_ms,
            !old(self).safety.accepts(sample.safety, now_ms as int)
                ==> final(self).safety == old(self).safety,
            final(self).speed_level == sample.speed,
            final(self).speed_edges.threshold_ms == old(self).speed_edges.threshold_ms,
            old(self).speed_outcome(sample, now_ms as int) is Some
                ==> final(self).speed_edges.last_edge_ms == now_ms,
            old(self).speed_outcome(sample, now_ms as int) is None
                ==> final(self).speed_edges == old(self).speed_edges,
            final(self).incline_level == sample.incline,
            final(self).incline_edges.threshold_ms == old(self).incline_edges.threshold_ms,
            old(self).incline_outcome(sample, now_ms as int) is Some
                ==> final(self).incline_edges.last_edge_ms == now_ms,
            old(self).incline_outcome(sample, now_ms as int) is None
                ==> final(self).incline_edges == old(self).incline_edges,
    {
        let mut events: Vec<InputEvent> = Vec::new();
        match self.safety.on_sample(sample.safety, now_ms) {
            Some(level) => {
                match level {
                    PinLevel::High => events.push(InputEvent::SafetyKeyRemoved),
                    PinLevel::Low => events.push(InputEvent::SafetyKeyInserted),
                }
            }
            None => {}
        }
        if self.speed_level == PinLevel::High && sample.speed == PinLevel::Low {
            match self.speed_edges.on_edge(now_ms) {
                Some(period) => events.push(InputEvent::SpeedPulse(period)),
                None => {}
            }
        }
        self.speed_level = sample.speed;
        if self.incline_level == PinLevel::High && sample.incline == PinLevel::Low {
            match self.incline_edges.on_edge(now_ms) {
                Some(period) => events.push(InputEvent::InclinePulse(period)),
                None => {}
            }
        }
        self.incline_level = sample.incline;
        events
    }
}

} // verus!
