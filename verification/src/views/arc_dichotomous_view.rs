//! The screen on which the participant decides between lie and truth after a
//! video: a dial with three positions, of which the middle one is no decision.

use vstd::prelude::*;
use vstd::string::*;
use crate::arc_input::{lie_truth_arc, lie_truth_gauge, ArcInput, ArcInputText};
use crate::events::{DialEvent, Frame, Message};
use crate::sampler::{DataPoint, DecisionSampler, SamplerState};
use crate::text::{decimal, push_decimal};
use crate::views::rating::{after_event, asks_to_advance, elapsed, elapsed_ms, handle_event};
use crate::views::rows::{
    copy_points,
    comma_count,
    joined,
    lemma_rating_rows_shape,
    line_count,
    push_rating_rows,
    rating_rows,
    rating_text,
    recorded_decision,
    RATING_HEADER,
};
use crate::views::{
    dataset_of,
    ArcSettings,
    Dataset,
    DatasetText,
    ExperimentData,
    Printable,
    ScreenCommand,
};

verus! {

pub const MIN_VALUE: i32 = -1;

pub const MAX_VALUE: i32 = 1;

/// Detents per revolution while this screen is shown.
pub const DIVISIONS: u16 = 10;

/// What the screen records.
pub struct DataStructure {
    pub id: usize,
    /// Whether the scale is mirrored for this participant.
    pub control: bool,
    pub final_decision: i32,
    pub final_decision_timestamp: u64,
    pub data_points: Vec<DataPoint>,
}

impl DataStructure {
    /// The record of block `id` before anything was decided.
    pub fn new(id: usize, control: bool) -> (data: DataStructure)
        ensures
            data.id == id,
            data.control == control,
            data.final_decision == 0,
            data.final_decision_timestamp == 0,
            data.data_points@ == Seq::<DataPoint>::empty(),
    {
        DataStructure {
            id,
            control,
            final_decision: 0,
            final_decision_timestamp: 0,
            data_points: Vec::new(),
        }
    }
}

impl DataStructure {
    /// The decision as it is written.
    pub open spec fn decision(&self) -> DataPoint {
        DataPoint { timestamp: self.final_decision_timestamp, value: self.final_decision }
    }
}

impl Printable for DataStructure {
    /// One row for each sample and the row of the decision; all values are
    /// mirrored if the scale is.
    open spec fn csv(&self) -> Seq<char> {
        rating_text(self.data_points@, self.control, self.decision())
    }

    fn to_csv(&self) -> (text: String) {
        let mut text = String::new();
        push_rating_rows(
            &mut text,
            &self.data_points,
            self.control,
            DataPoint { timestamp: self.final_decision_timestamp, value: self.final_decision },
        );
        text
    }
}

impl ExperimentData for DataStructure {
    open spec fn name_text(&self) -> Seq<char> {
        "lie_truth_dichotomous_"@ + decimal(self.id as nat)
    }

    open spec fn headers_text(&self) -> Seq<char> {
        RATING_HEADER@
    }

    fn name(&self) -> (text: String) {
        let mut text = String::from_str("lie_truth_dichotomous_");
        push_decimal(&mut text, self.id as u64);
        text
    }

    fn headers(&self) -> (text: String) {
        String::from_str(RATING_HEADER)
    }
}

/// The mathematical state of the screen.
pub struct DichotomousState {
    pub id: usize,
    pub control: bool,
    pub sampler: SamplerState,
    /// The clock reading at which the screen was shown.
    pub show_time: u64,
}

impl DichotomousState {
    /// The decision recorded: that of record, or zero at time zero while
    /// there is none.
    pub open spec fn decision(self) -> DataPoint {
        recorded_decision(self.sampler.terminal)
    }

    /// The dataset of a screen in this state: one row for each sample and
    /// the row of the decision; all values are mirrored if the scale is.
    pub open spec fn dataset(self) -> DatasetText {
        DatasetText {
            name: "lie_truth_dichotomous_"@ + decimal(self.id as nat),
            header: RATING_HEADER@,
            rows: rating_text(self.sampler.samples, self.control, self.decision()),
        }
    }

    /// The time on this screen at clock reading `now`.
    pub open spec fn stamp(self, now: u64) -> u64 {
        elapsed(now, self.show_time)
    }

    /// The state after one cycle with the dial event `msg`. A press of the
    /// button locks the decision only while the dial is off the middle.
    pub open spec fn updated(self, msg: Option<DialEvent>, frame: Frame) -> DichotomousState {
        let moved = after_event(
            self.sampler,
            msg,
            frame.clock_ms as int,
            self.stamp(frame.clock_ms),
            self.sampler.current_value != 0,
        );
        if asks_to_advance(self.sampler, msg) {
            DichotomousState { sampler: moved, ..self }
        } else {
            DichotomousState {
                sampler: moved.ticked(frame.clock_ms as int, self.stamp(frame.clock_ms)),
                ..self
            }
        }
    }

    /// The gauge of a screen in this state: locked once the decision is.
    pub open spec fn gauge(self) -> ArcInputText {
        lie_truth_gauge(
            MIN_VALUE,
            MAX_VALUE,
            self.sampler.current_value as i32,
            self.control,
            self.sampler.finalized,
        )
    }

    /// The state after the screen is shown at clock reading `now`.
    pub open spec fn shown(self, now: u64) -> DichotomousState {
        DichotomousState { sampler: self.sampler.reset(), show_time: now, ..self }
    }
}

pub struct ArcDichotomousView {
    id: usize,
    control: bool,
    sampler: DecisionSampler,
    show_time: u64,
}

impl View for ArcDichotomousView {
    type V = DichotomousState;

    closed spec fn view(&self) -> DichotomousState {
        DichotomousState {
            id: self.id,
            control: self.control,
            sampler: self.sampler@,
            show_time: self.show_time,
        }
    }
}

impl ArcDichotomousView {
    /// The screen of block `id`; `control` mirrors the scale.
    pub fn new(id: usize, control: bool) -> (screen: ArcDichotomousView)
        ensures
            screen@ == (DichotomousState {
                id,
                control,
                sampler: SamplerState::fresh(MIN_VALUE as int, MAX_VALUE as int, 0),
                show_time: 0,
            }),
    {
        ArcDichotomousView {
            id,
            control,
            sampler: DecisionSampler::new(MIN_VALUE, MAX_VALUE, 0),
            show_time: 0,
        }
    }

    /// Resets the dial to the middle and forgets samples and decision.
    pub fn init(&mut self)
        ensures
            final(self)@ == (DichotomousState { sampler: old(self)@.sampler.reset(), ..old(self)@ }),
    {
        self.sampler.init();
    }

    /// Starts the screen's clock at `now` and resets the dial.
    pub fn show(&mut self, now: u64)
        ensures
            final(self)@ == old(self)@.shown(now),
    {
        self.show_time = now;
        self.sampler.init();
    }

    /// Holds no resource: nothing to release.
    pub fn dismiss(&mut self)
        ensures
            final(self)@ == old(self)@,
    {
    }

    /// One controller cycle with the dial event popped for it, if any.
    pub fn update(&mut self, msg: Option<DialEvent>, frame: &Frame) -> (command: ScreenCommand)
        ensures
            final(self)@ == old(self)@.updated(msg, *frame),
            command == if asks_to_advance(old(self)@.sampler, msg) {
                ScreenCommand::NextScreen(None)
            } else {
                ScreenCommand::Stay
            },
    {
        let stamp = elapsed_ms(frame.clock_ms, self.show_time);
        let may_lock = self.sampler.current_value() != 0;
        let advance = handle_event(&mut self.sampler, msg, frame.clock_ms, stamp, may_lock);
        if advance {
            return ScreenCommand::NextScreen(None);
        }
        self.sampler.tick(frame.clock_ms, stamp);
        ScreenCommand::Stay
    }

    /// The screen takes no input but the dial's.
    pub fn iced_input(&mut self, msg: Message) -> (command: ScreenCommand)
        ensures
            final(self)@ == old(self)@,
            command == ScreenCommand::Stay,
    {
        ScreenCommand::Stay
    }

    /// What has been recorded up to now: the decision of record, or zero at
    /// time zero while there is none, and the samples.
    pub fn data(&self) -> (data: Option<DataStructure>)
        ensures
            data matches Some(d) && d.id == self@.id && d.control == self@.control
                && d.data_points@ == self@.sampler.samples && d.final_decision == (
            match self@.sampler.terminal {
                Some(point) => point.value,
                None => 0,
            }) && d.final_decision_timestamp == (match self@.sampler.terminal {
                Some(point) => point.timestamp,
                None => 0,
            }),
    {
        let (decision, timestamp) = match self.sampler.terminal() {
            Some(point) => (point.value, point.timestamp),
            None => (0, 0),
        };
        Some(
            DataStructure {
                id: self.id,
                control: self.control,
                final_decision: decision,
                final_decision_timestamp: timestamp,
                data_points: copy_points(self.sampler.samples()),
            },
        )
    }

    /// The dataset of what has been recorded up to now.
    pub fn dataset(&self) -> (set: Dataset)
        ensures
            set@ == self@.dataset(),
    {
        let data = self.data();
        dataset_of(&data.unwrap())
    }

    pub fn arc_settings(&self) -> (settings: Option<ArcSettings>)
        ensures
            settings == Some(ArcSettings { divisions: DIVISIONS }),
    {
        Some(ArcSettings { divisions: DIVISIONS })
    }

    /// The gauge that shows the dial.
    pub fn gauge(&self) -> (gauge: ArcInput)
        ensures
            gauge@ == self@.gauge(),
    {
        lie_truth_arc(
            MIN_VALUE,
            MAX_VALUE,
            self.sampler.current_value(),
            self.control,
            self.sampler.is_finalized(),
        )
    }

    /// Where the dial stands.
    pub fn value(&self) -> (v: i32)
        ensures
            v == self@.sampler.current_value,
            self@.sampler.wf(),
    {
        self.sampler.current_value()
    }

    /// Whether the decision is locked.
    pub fn finished(&self) -> (b: bool)
        ensures
            b == self@.sampler.finalized,
    {
        self.sampler.is_finalized()
    }

    pub fn control(&self) -> (b: bool)
        ensures
            b == self@.control,
    {
        self.control
    }
}

/// The dataset of the screen is one row for each sample and exactly one row
/// for the decision, which is the last; every row is one line with as many
/// fields as the header names.
pub proof fn lemma_dataset_rows(s: DichotomousState)
    ensures
        ({
            let rows = rating_rows(s.sampler.samples, s.control, s.decision());
            &&& rows.len() == s.sampler.samples.len() + 1
            &&& s.dataset().rows == joined(rows, rows.len())
            &&& line_count(s.dataset().rows) == s.sampler.samples.len() + 1
            &&& forall|i: int|
                0 <= i < rows.len() ==> line_count(#[trigger] rows[i]) == 1 && rows[i].last()
                    == '\n' && comma_count(rows[i]) == comma_count(s.dataset().header)
        }),
{
    lemma_rating_rows_shape(s.sampler.samples, s.control, s.decision());
}

/// A press of the button while the dial stands in the middle decides
/// nothing; off the middle it locks the decision at once, at the value the
/// dial stands at.
pub proof fn lemma_middle_is_no_decision(s: DichotomousState, frame: Frame)
    requires
        s.sampler.wf(),
        !s.sampler.finalized,
    ensures
        s.sampler.current_value == 0 ==> !s.updated(
            Some(DialEvent::Button { pressed: true }),
            frame,
        ).sampler.finalized,
        s.sampler.current_value != 0 ==> s.updated(
            Some(DialEvent::Button { pressed: true }),
            frame,
        ).sampler.terminal == Some(
            DataPoint {
                timestamp: s.stamp(frame.clock_ms),
                value: s.sampler.current_value as i32,
            },
        ),
{
}

} // verus!
