//! The decision sampler: a bounded dial value, debounced samples of it, and
//! one terminal decision.

use vstd::prelude::*;
use crate::events::DialDirection;

verus! {

/// How long the value must rest before it is sampled, in milliseconds.
pub const QUIESCENCE_MS: u64 = 500;

/// A value of the dial with the time at which it was recorded.
#[derive(Clone, Copy, PartialEq, Eq, Debug, Structural)]
pub struct DataPoint {
    pub timestamp: u64,
    pub value: i32,
}

/// The mathematical state of a sampler.
pub struct SamplerState {
    pub min_value: int,
    pub max_value: int,
    pub initial_value: int,
    pub current_value: int,
    /// The value after the last rotation that changed it.
    pub last_committed_value: int,
    /// The clock reading at which the quiescence timer was armed, if it is armed.
    pub pending_since: Option<int>,
    pub finalized: bool,
    pub samples: Seq<DataPoint>,
    /// The decision of record, present once finalized.
    pub terminal: Option<DataPoint>,
}

impl SamplerState {
    /// The state of a sampler that has just been created or reset.
    pub open spec fn fresh(min_value: int, max_value: int, initial_value: int) -> SamplerState {
        SamplerState {
            min_value,
            max_value,
            initial_value,
            current_value: initial_value,
            last_committed_value: initial_value,
            pending_since: None,
            finalized: false,
            samples: Seq::empty(),
            terminal: None,
        }
    }

    /// The invariant of every sampler.
    pub open spec fn wf(self) -> bool {
        &&& i32::MIN <= self.min_value <= self.max_value <= i32::MAX
        &&& self.min_value <= self.initial_value <= self.max_value
        &&& self.min_value <= self.current_value <= self.max_value
        &&& self.last_committed_value == self.current_value
        &&& self.finalized ==> self.pending_since is None
        &&& self.finalized <==> self.terminal is Some
        &&& self.terminal matches Some(p) ==> p.value == self.current_value
    }

    /// The value one detent further in `direction`, held at the bounds.
    pub open spec fn stepped(self, direction: DialDirection) -> int {
        match direction {
            DialDirection::Clockwise => if self.current_value + 1 <= self.max_value {
                self.current_value + 1
            } else {
                self.current_value
            },
            DialDirection::Counterclockwise => if self.current_value - 1 >= self.min_value {
                self.current_value - 1
            } else {
                self.current_value
            },
        }
    }

    /// The state after one detent in `direction` at clock reading `now`.
    pub open spec fn rotated(self, direction: DialDirection, now: int) -> SamplerState {
        if self.finalized {
            self
        } else if self.stepped(direction) != self.last_committed_value {
            SamplerState {
                current_value: self.stepped(direction),
                last_committed_value: self.stepped(direction),
                pending_since: Some(now),
                ..self
            }
        } else {
            SamplerState { current_value: self.stepped(direction), ..self }
        }
    }

    /// Whether the quiescence timer fires at clock reading `now`.
    pub open spec fn due(self, now: int) -> bool {
        self.pending_since matches Some(t) && now - t > QUIESCENCE_MS
    }

    /// The state after one controller cycle at clock reading `now`; a sample
    /// taken in it carries the time `stamp`.
    pub open spec fn ticked(self, now: int, stamp: u64) -> SamplerState {
        if self.due(now) {
            SamplerState {
                samples: self.samples.push(
                    DataPoint { timestamp: stamp, value: self.current_value as i32 },
                ),
                pending_since: None,
                ..self
            }
        } else {
            self
        }
    }

    /// The state after the decision is locked at time `stamp`.
    pub open spec fn finalized_at(self, stamp: u64) -> SamplerState {
        if self.finalized {
            self
        } else {
            SamplerState {
                finalized: true,
                pending_since: None,
                terminal: Some(DataPoint { timestamp: stamp, value: self.current_value as i32 }),
                ..self
            }
        }
    }

    /// The state after a reset.
    pub open spec fn reset(self) -> SamplerState {
        SamplerState::fresh(self.min_value, self.max_value, self.initial_value)
    }

    /// The state after one operation.
    pub open spec fn stepped_by(self, input: SamplerInput) -> SamplerState {
        match input {
            SamplerInput::Rotate { direction, now } => self.rotated(direction, now),
            SamplerInput::Tick { now, stamp } => self.ticked(now, stamp),
            SamplerInput::Finalize { stamp } => self.finalized_at(stamp),
            SamplerInput::Reset => self.reset(),
        }
    }

    /// The state after the operations of `inputs`, in order.
    pub open spec fn run(self, inputs: Seq<SamplerInput>) -> SamplerState
        decreases inputs.len(),
    {
        if inputs.len() == 0 {
            self
        } else {
            self.run(inputs.drop_last()).stepped_by(inputs.last())
        }
    }

    /// The state after one cycle of a rating screen: the rotation, if there
    /// was one, and then the tick.
    pub open spec fn cycled(self, cycle: Cycle) -> SamplerState {
        self.turned(cycle).ticked(cycle.now, cycle.stamp)
    }

    /// The state after the rotation of `cycle`, if it has one.
    pub open spec fn turned(self, cycle: Cycle) -> SamplerState {
        match cycle.rotation {
            Some(direction) => self.rotated(direction, cycle.now),
            None => self,
        }
    }

    /// The state after the cycles of `cycles`, in order.
    pub open spec fn cycled_through(self, cycles: Seq<Cycle>) -> SamplerState
        decreases cycles.len(),
    {
        if cycles.len() == 0 {
            self
        } else {
            self.cycled_through(cycles.drop_last()).cycled(cycles.last())
        }
    }

    /// Whether every cycle of `cycles` falls within the quiescence window of
    /// the last change of value before it.
    pub open spec fn keeps_moving(self, cycles: Seq<Cycle>) -> bool
        decreases cycles.len(),
    {
        cycles.len() == 0 || (self.keeps_moving(cycles.drop_last()) && !self.cycled_through(
            cycles.drop_last(),
        ).turned(cycles.last()).due(cycles.last().now))
    }
}

/// One operation on a sampler.
pub enum SamplerInput {
    Rotate { direction: DialDirection, now: int },
    Tick { now: int, stamp: u64 },
    Finalize { stamp: u64 },
    Reset,
}

/// What one controller cycle brings to a sampler.
pub struct Cycle {
    pub rotation: Option<DialDirection>,
    pub now: int,
    pub stamp: u64,
}

/// Every operation keeps the invariant and the bounds.
pub proof fn lemma_step_keeps_bounds(s: SamplerState, input: SamplerInput)
    requires
        s.wf(),
    ensures
        s.stepped_by(input).wf(),
        s.stepped_by(input).min_value == s.min_value,
        s.stepped_by(input).max_value == s.max_value,
        s.stepped_by(input).initial_value == s.initial_value,
{
}

/// Whatever is done to a sampler, in whatever order, after each of the
/// operations the value lies within the bounds the sampler was made with: it
/// stops at a bound and never wraps.
pub proof fn lemma_value_stays_within_bounds(s: SamplerState, inputs: Seq<SamplerInput>, k: int)
    requires
        s.wf(),
        0 <= k <= inputs.len(),
    ensures
        s.run(inputs.take(k)).wf(),
        s.run(inputs.take(k)).min_value == s.min_value,
        s.run(inputs.take(k)).max_value == s.max_value,
        s.min_value <= s.run(inputs.take(k)).current_value <= s.max_value,
    decreases k,
{
    if k > 0 {
        lemma_value_stays_within_bounds(s, inputs, k - 1);
        assert(inputs.take(k).drop_last() =~= inputs.take(k - 1));
        lemma_step_keeps_bounds(s.run(inputs.take(k - 1)), inputs.take(k).last());
    }
}

/// A rotation at a bound, towards that bound, leaves the value where it is.
pub proof fn lemma_rotation_saturates(s: SamplerState, now: int)
    requires
        s.wf(),
    ensures
        s.current_value == s.max_value ==> s.rotated(DialDirection::Clockwise, now).current_value
            == s.max_value,
        s.current_value == s.min_value ==> s.rotated(
            DialDirection::Counterclockwise,
            now,
        ).current_value == s.min_value,
{
}

/// A change of value followed by a rest longer than the quiescence window
/// records exactly one sample, with the settled value; further cycles without
/// a change record nothing more.
pub proof fn lemma_rest_records_one_sample(
    s: SamplerState,
    direction: DialDirection,
    changed_at: int,
    now: int,
    stamp: u64,
    later: int,
    later_stamp: u64,
)
    requires
        s.wf(),
        !s.finalized,
        s.stepped(direction) != s.last_committed_value,
        now - changed_at > QUIESCENCE_MS,
    ensures
        s.rotated(direction, changed_at).ticked(now, stamp).samples == s.samples.push(
            DataPoint { timestamp: stamp, value: s.stepped(direction) as i32 },
        ),
        s.rotated(direction, changed_at).ticked(now, stamp).ticked(later, later_stamp)
            == s.rotated(direction, changed_at).ticked(now, stamp),
{
}

/// A cycle within the quiescence window of the last change records nothing
/// and leaves the timer armed.
pub proof fn lemma_tick_within_window(s: SamplerState, now: int, stamp: u64)
    requires
        !s.due(now),
    ensures
        s.ticked(now, stamp) == s,
{
}

/// While the value keeps changing, so that every cycle falls within the
/// quiescence window of the last change, no sample is recorded.
pub proof fn lemma_motion_records_nothing(s: SamplerState, cycles: Seq<Cycle>)
    requires
        s.keeps_moving(cycles),
    ensures
        s.cycled_through(cycles).samples == s.samples,
    decreases cycles.len(),
{
    if cycles.len() > 0 {
        lemma_motion_records_nothing(s, cycles.drop_last());
    }
}

/// A cycle in which the value changes records nothing, however long the
/// value had rested before.
pub proof fn lemma_changing_cycle_records_nothing(s: SamplerState, cycle: Cycle)
    requires
        !s.finalized,
        cycle.rotation matches Some(direction) && s.stepped(direction) != s.last_committed_value,
    ensures
        s.cycled(cycle).samples == s.samples,
        s.cycled(cycle).pending_since == Some(cycle.now),
{
}

/// Finalizing records the value and the time once; finalizing again changes
/// nothing.
pub proof fn lemma_finalize_is_idempotent(s: SamplerState, first: u64, second: u64)
    requires
        s.wf(),
    ensures
        s.finalized_at(first).finalized,
        !s.finalized ==> s.finalized_at(first).terminal == Some(
            DataPoint { timestamp: first, value: s.current_value as i32 },
        ),
        s.finalized ==> s.finalized_at(first) == s,
        s.finalized_at(first).finalized_at(second) == s.finalized_at(first),
        s.finalized_at(first).samples == s.samples,
{
}

/// Once finalized, a sampler ignores rotation and records no further sample.
pub proof fn lemma_finalized_is_frozen(
    s: SamplerState,
    direction: DialDirection,
    now: int,
    stamp: u64,
)
    requires
        s.wf(),
        s.finalized,
    ensures
        s.rotated(direction, now) == s,
        s.ticked(now, stamp) == s,
{
}

/// The scalar part of a sampler, kept within its bounds.
struct Gauge {
    min_value: i32,
    max_value: i32,
    initial_value: i32,
    current_value: i32,
    last_committed_value: i32,
    pending_sample_timer: Option<u64>,
    terminal: Option<DataPoint>,
}

impl Gauge {
    #[verifier::type_invariant]
    closed spec fn inv(&self) -> bool {
        &&& self.min_value <= self.initial_value <= self.max_value
        &&& self.min_value <= self.current_value <= self.max_value
        &&& self.last_committed_value == self.current_value
        &&& self.terminal matches Some(p) ==> p.value == self.current_value
            && self.pending_sample_timer is None
    }
}

/// Turns dial rotation into a bounded value, debounced samples and a final decision.
pub struct DecisionSampler {
    gauge: Gauge,
    samples: Vec<DataPoint>,
}

impl View for DecisionSampler {
    type V = SamplerState;

    closed spec fn view(&self) -> SamplerState {
        SamplerState {
            min_value: self.gauge.min_value as int,
            max_value: self.gauge.max_value as int,
            initial_value: self.gauge.initial_value as int,
            current_value: self.gauge.current_value as int,
            last_committed_value: self.gauge.last_committed_value as int,
            pending_since: match self.gauge.pending_sample_timer {
                Some(t) => Some(t as int),
                None => None,
            },
            finalized: self.gauge.terminal is Some,
            samples: self.samples@,
            terminal: self.gauge.terminal,
        }
    }
}

impl DecisionSampler {
    /// A sampler over `min_value ..= max_value` that starts at `initial_value`.
    pub fn new(min_value: i32, max_value: i32, initial_value: i32) -> (s: DecisionSampler)
        requires
            min_value <= initial_value <= max_value,
        ensures
            s@ == SamplerState::fresh(min_value as int, max_value as int, initial_value as int),
            s@.wf(),
    {
        DecisionSampler {
            gauge: Gauge {
                min_value,
                max_value,
                initial_value,
                current_value: initial_value,
                last_committed_value: initial_value,
                pending_sample_timer: None,
                terminal: None,
            },
            samples: Vec::new(),
        }
    }

    /// Back to the initial value, with no samples and no decision.
    pub fn init(&mut self)
        ensures
            final(self)@ == old(self)@.reset(),
            final(self)@.wf(),
    {
        proof {
            use_type_invariant(&self.gauge);
        }
        self.gauge = Gauge {
            min_value: self.gauge.min_value,
            max_value: self.gauge.max_value,
            initial_value: self.gauge.initial_value,
            current_value: self.gauge.initial_value,
            last_committed_value: self.gauge.initial_value,
            pending_sample_timer: None,
            terminal: None,
        };
        self.samples.clear();
    }

    /// Moves the value one detent in `direction`, unless finalized or at the
    /// bound, and arms the quiescence timer if the value changed.
    pub fn apply_rotation(&mut self, direction: DialDirection, now: u64)
        ensures
            final(self)@ == old(self)@.rotated(direction, now as int),
            final(self)@.wf(),
    {
        proof {
            use_type_invariant(&self.gauge);
        }
        if self.gauge.terminal.is_some() {
            return ;
        }
        let next = match direction {
            DialDirection::Clockwise => if self.gauge.current_value < self.gauge.max_value {
                self.gauge.current_value + 1
            } else {
                self.gauge.current_value
            },
            DialDirection::Counterclockwise => if self.gauge.current_value
                > self.gauge.min_value {
                self.gauge.current_value - 1
            } else {
                self.gauge.current_value
            },
        };
        if next != self.gauge.last_committed_value {
            self.gauge = Gauge {
                min_value: self.gauge.min_value,
                max_value: self.gauge.max_value,
                initial_value: self.gauge.initial_value,
                current_value: next,
                last_committed_value: next,
                pending_sample_timer: Some(now),
                terminal: None,
            };
        }
    }

    /// One controller cycle at clock reading `now`: if the value has rested
    /// for longer than the quiescence window, it is sampled with the time
    /// `stamp` and the timer is disarmed.
    pub fn tick(&mut self, now: u64, stamp: u64)
        ensures
            final(self)@ == old(self)@.ticked(now as int, stamp),
            final(self)@.wf(),
    {
        proof {
            use_type_invariant(&self.gauge);
        }
        match self.gauge.pending_sample_timer {
            Some(armed) => {
                if now > armed && now - armed > QUIESCENCE_MS {
                    self.samples.push(
                        DataPoint { timestamp: stamp, value: self.gauge.current_value },
                    );
                    self.gauge.pending_sample_timer = None;
                }
            },
            None => {},
        }
    }

    /// Locks the decision at the current value with the time `stamp`. Does
    /// nothing if the decision is already locked.
    pub fn finalize(&mut self, stamp: u64)
        ensures
            final(self)@ == old(self)@.finalized_at(stamp),
            final(self)@.wf(),
    {
        proof {
            use_type_invariant(&self.gauge);
        }
        if self.gauge.terminal.is_none() {
            self.gauge.pending_sample_timer = None;
            self.gauge.terminal = Some(
                DataPoint { timestamp: stamp, value: self.gauge.current_value },
            );
        }
    }

    /// Whether the decision has been locked.
    pub fn is_finalized(&self) -> (b: bool)
        ensures
            b == self@.finalized,
    {
        self.gauge.terminal.is_some()
    }

    /// The value the dial stands at, always within the bounds.
    pub fn current_value(&self) -> (v: i32)
        ensures
            v == self@.current_value,
            self@.wf(),
    {
        proof {
            use_type_invariant(&self.gauge);
        }
        self.gauge.current_value
    }

    /// The lower bound of the value.
    pub fn min_value(&self) -> (v: i32)
        ensures
            v == self@.min_value,
    {
        self.gauge.min_value
    }

    /// The upper bound of the value.
    pub fn max_value(&self) -> (v: i32)
        ensures
            v == self@.max_value,
    {
        self.gauge.max_value
    }

    /// The samples taken so far, oldest first.
    pub fn samples(&self) -> (points: &Vec<DataPoint>)
        ensures
            points@ == self@.samples,
    {
        &self.samples
    }

    /// The decision of record, once there is one.
    pub fn terminal(&self) -> (point: Option<DataPoint>)
        ensures
            point == self@.terminal,
    {
        self.gauge.terminal
    }

    /// Whether a sample is waiting for the value to rest.
    pub fn is_pending(&self) -> (b: bool)
        ensures
            b == self@.pending_since is Some,
    {
        self.gauge.pending_sample_timer.is_some()
    }
}

} // verus!
