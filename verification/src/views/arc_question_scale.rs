//! A question answered on a numbered scale with the dial, such as how
//! confident the participant is in a decision.

use vstd::prelude::*;
use vstd::string::*;
use crate::arc_input::{ArcInput, ArcInputText};
use crate::events::{DialEvent, Frame, Message};
use crate::sampler::{DataPoint, DecisionSampler, SamplerState};
use crate::text::{decimal, push_decimal};
use crate::views::rating::{after_event, asks_to_advance, elapsed, elapsed_ms, handle_event};
use crate::views::rows::{
    copy_points,
    comma_count,
    joined,
    lemma_rating_rows_shape,
    line_count,
    push_rating_rows,
    rating_rows,
    rating_text,
    recorded_decision,
    RATING_HEADER,
};
use crate::views::{
    dataset_of,
    ArcSettings,
    Dataset,
    DatasetText,
    ExperimentData,
    Printable,
    ScreenCommand,
};

verus! {

/// What the screen records.
pub struct DataStructure {
    pub id: usize,
    /// The stem of the dataset's name.
    pub name: String,
    pub final_decision: i32,
    pub final_decision_timestamp: u64,
    pub data_points: Vec<DataPoint>,
}

impl DataStructure {
    /// The record of block `id` under the stem `name`, before anything was
    /// decided.
    pub fn new(id: usize, name: String) -> (data: DataStructure)
        ensures
            data.id == id,
            data.name == name,
            data.final_decision == 0,
            data.final_decision_timestamp == 0,
            data.data_points@ == Seq::<DataPoint>::empty(),
    {
        DataStructure {
            id,
            name,
            final_decision: 0,
            final_decision_timestamp: 0,
            data_points: Vec::new(),
        }
    }
}

impl DataStructure {
    /// The decision as it is written.
    pub open spec fn decision(&self) -> DataPoint {
        DataPoint { timestamp: self.final_decision_timestamp, value: self.final_decision }
    }
}

impl Printable for DataStructure {
    /// One row for each sample and the row of the decision.
    open spec fn csv(&self) -> Seq<char> {
        rating_text(self.data_points@, false, self.decision())
    }

    fn to_csv(&self) -> (text: String) {
        let mut text = String::new();
        push_rating_rows(
            &mut text,
            &self.data_points,
            false,
            DataPoint { timestamp: self.final_decision_timestamp, value: self.final_decision },
        );
        text
    }
}

impl ExperimentData for DataStructure {
    open spec fn name_text(&self) -> Seq<char> {
        self.name@ + "_"@ + decimal(self.id as nat)
    }

    open spec fn headers_text(&self) -> Seq<char> {
        RATING_HEADER@
    }

    fn name(&self) -> (text: String) {
        let mut text = self.name.clone();
        text.append("_");
        push_decimal(&mut text, self.id as u64);
        text
    }

    fn headers(&self) -> (text: String) {
        String::from_str(RATING_HEADER)
    }
}

/// The mathematical state of the screen.
pub struct ScaleState {
    pub id: usize,
    pub name: Seq<char>,
    pub question: Seq<char>,
    pub left_label: Seq<char>,
    pub right_label: Seq<char>,
    pub subdivisions: u16,
    pub sampler: SamplerState,
    /// The clock reading at which the screen was shown.
    pub show_time: u64,
}

impl ScaleState {
    /// The decision recorded: that of record, or zero at time zero while
    /// there is none.
    pub open spec fn decision(self) -> DataPoint {
        recorded_decision(self.sampler.terminal)
    }

    /// The dataset of a screen in this state: one row for each sample and
    /// the row of the decision.
    pub open spec fn dataset(self) -> DatasetText {
        DatasetText {
            name: self.name + "_"@ + decimal(self.id as nat),
            header: RATING_HEADER@,
            rows: rating_text(self.sampler.samples, false, self.decision()),
        }
    }

    /// The state of a screen that has just been made.
    pub open spec fn fresh(
        id: usize,
        name: Seq<char>,
        question: Seq<char>,
        left_label: Seq<char>,
        right_label: Seq<char>,
        min: int,
        max: int,
        initial: int,
        subdivisions: u16,
    ) -> ScaleState {
        ScaleState {
            id,
            name,
            question,
            left_label,
            right_label,
            subdivisions,
            sampler: SamplerState::fresh(min, max, initial),
            show_time: 0,
        }
    }

    /// The time on this screen at clock reading `now`.
    pub open spec fn stamp(self, now: u64) -> u64 {
        elapsed(now, self.show_time)
    }

    /// The state after one cycle with the dial event `msg`. A press of the
    /// button locks the decision wherever the dial stands.
    pub open spec fn updated(self, msg: Option<DialEvent>, frame: Frame) -> ScaleState {
        let moved = after_event(
            self.sampler,
            msg,
            frame.clock_ms as int,
            self.stamp(frame.clock_ms),
            true,
        );
        if asks_to_advance(self.sampler, msg) {
            ScaleState { sampler: moved, ..self }
        } else {
            ScaleState {
                sampler: moved.ticked(frame.clock_ms as int, self.stamp(frame.clock_ms)),
                ..self
            }
        }
    }

    /// The gauge of a screen in this state: between the labels of the
    /// scale, and locked once the decision is.
    pub open spec fn gauge(self) -> ArcInputText {
        ArcInputText {
            value: self.sampler.current_value as i32,
            min_value: self.sampler.min_value as i32,
            max_value: self.sampler.max_value as i32,
            mid_point: 0,
            left_label: self.left_label,
            right_label: self.right_label,
            disabled: self.sampler.finalized,
        }
    }

    /// The state after the screen is shown at clock reading `now`.
    pub open spec fn shown(self, now: u64) -> ScaleState {
        ScaleState { sampler: self.sampler.reset(), show_time: now, ..self }
    }
}

pub struct ArcQuestionScaleView {
    id: usize,
    name: String,
    question: String,
    left_label: String,
    right_label: String,
    sampler: DecisionSampler,
    subdivisions: u16,
    show_time: u64,
}

impl View for ArcQuestionScaleView {
    type V = ScaleState;

    closed spec fn view(&self) -> ScaleState {
        ScaleState {
            id: self.id,
            name: self.name@,
            question: self.question@,
            left_label: self.left_label@,
            right_label: self.right_label@,
            subdivisions: self.subdivisions,
            sampler: self.sampler@,
            show_time: self.show_time,
        }
    }
}

impl ArcQuestionScaleView {
    /// The screen of block `id` that asks `question` on the scale
    /// `min ..= max`, with the dial at `initial`. Its dataset is named by
    /// `name` and the block.
    pub fn new(
        id: usize,
        name: String,
        question: String,
        left_label: String,
        right_label: String,
        min: i32,
        max: i32,
        initial: i32,
        subdivisions: u16,
    ) -> (screen: ArcQuestionScaleView)
        requires
            min <= initial <= max,
        ensures
            screen@ == ScaleState::fresh(
                id,
                name@,
                question@,
                left_label@,
                right_label@,
                min as int,
                max as int,
                initial as int,
                subdivisions,
            ),
    {
        ArcQuestionScaleView {
            id,
            name,
            question,
            left_label,
            right_label,
            sampler: DecisionSampler::new(min, max, initial),
            subdivisions,
            show_time: 0,
        }
    }

    /// Resets the dial to its initial value and forgets samples and decision.
    pub fn init(&mut self)
        ensures
            final(self)@ == (ScaleState { sampler: old(self)@.sampler.reset(), ..old(self)@ }),
    {
        self.sampler.init();
    }

    /// Starts the screen's clock at `now` and resets the dial.
    pub fn show(&mut self, now: u64)
        ensures
            final(self)@ == old(self)@.shown(now),
    {
        self.show_time = now;
        self.sampler.init();
    }

    /// Holds no resource: nothing to release.
    pub fn dismiss(&mut self)
        ensures
            final(self)@ == old(self)@,
    {
    }

    /// One controller cycle with the dial event popped for it, if any.
    pub fn update(&mut self, msg: Option<DialEvent>, frame: &Frame) -> (command: ScreenCommand)
        ensures
            final(self)@ == old(self)@.updated(msg, *frame),
            command == if asks_to_advance(old(self)@.sampler, msg) {
                ScreenCommand::NextScreen(None)
            } else {
                ScreenCommand::Stay
            },
    {
        let stamp = elapsed_ms(frame.clock_ms, self.show_time);
        let advance = handle_event(&mut self.sampler, msg, frame.clock_ms, stamp, true);
        if advance {
            return ScreenCommand::NextScreen(None);
        }
        self.sampler.tick(frame.clock_ms, stamp);
        ScreenCommand::Stay
    }

    /// The screen takes no input but the dial's.
    pub fn iced_input(&mut self, msg: Message) -> (command: ScreenCommand)
        ensures
            final(self)@ == old(self)@,
            command == ScreenCommand::Stay,
    {
        ScreenCommand::Stay
    }

    /// What has been recorded up to now: the decision of record, or zero at
    /// time zero while there is none, and the samples.
    pub fn data(&self) -> (data: Option<DataStructure>)
        ensures
            data matches Some(d) && d.id == self@.id && d.name@ == self@.name
                && d.data_points@ == self@.sampler.samples && d.final_decision == (
            match self@.sampler.terminal {
                Some(point) => point.value,
                None => 0,
            }) && d.final_decision_timestamp == (match self@.sampler.terminal {
                Some(point) => point.timestamp,
                None => 0,
            }),
    {
        let (decision, timestamp) = match self.sampler.terminal() {
            Some(point) => (point.value, point.timestamp),
            None => (0, 0),
        };
        Some(
            DataStructure {
                id: self.id,
                name: self.name.clone(),
                final_decision: decision,
                final_decision_timestamp: timestamp,
                data_points: copy_points(self.sampler.samples()),
            },
        )
    }

    /// The dataset of what has been recorded up to now.
    pub fn dataset(&self) -> (set: Dataset)
        ensures
            set@ == self@.dataset(),
    {
        let data = self.data();
        dataset_of(&data.unwrap())
    }

    pub fn arc_settings(&self) -> (settings: Option<ArcSettings>)
        ensures
            settings == Some(ArcSettings { divisions: self@.subdivisions }),
    {
        Some(ArcSettings { divisions: self.subdivisions })
    }

    /// The gauge that shows the dial.
    pub fn gauge(&self) -> (gauge: ArcInput)
        ensures
            gauge@ == self@.gauge(),
    {
        let mut arc_input = ArcInput::new(
            self.sampler.min_value(),
            self.sampler.max_value(),
            0,
            self.sampler.current_value(),
        );
        arc_input.set_left_label(self.left_label.clone());
        arc_input.set_right_label(self.right_label.clone());
        arc_input.set_disabled(self.sampler.is_finalized());
        arc_input
    }

    /// Where the dial stands.
    pub fn value(&self) -> (v: i32)
        ensures
            v == self@.sampler.current_value,
            self@.sampler.wf(),
    {
        self.sampler.current_value()
    }

    /// The lower end of the scale.
    pub fn min_value(&self) -> (v: i32)
        ensures
            v == self@.sampler.min_value,
    {
        self.sampler.min_value()
    }

    /// The upper end of the scale.
    pub fn max_value(&self) -> (v: i32)
        ensures
            v == self@.sampler.max_value,
    {
        self.sampler.max_value()
    }

    /// Whether the decision is locked.
    pub fn finished(&self) -> (b: bool)
        ensures
            b == self@.sampler.finalized,
    {
        self.sampler.is_finalized()
    }

    pub fn question(&self) -> (text: &String)
        ensures
            text@ == self@.question,
    {
        &self.question
    }

    pub fn left_label(&self) -> (text: &String)
        ensures
            text@ == self@.left_label,
    {
        &self.left_label
    }

    pub fn right_label(&self) -> (text: &String)
        ensures
            text@ == self@.right_label,
    {
        &self.right_label
    }
}

/// The dataset of the screen is one row for each sample and exactly one row
/// for the decision, which is the last; every row is one line with as many
/// fields as the header names.
pub proof fn lemma_dataset_rows(s: ScaleState)
    ensures
        ({
            let rows = rating_rows(s.sampler.samples, false, s.decision());
            &&& rows.len() == s.sampler.samples.len() + 1
            &&& s.dataset().rows == joined(rows, rows.len())
            &&& line_count(s.dataset().rows) == s.sampler.samples.len() + 1
            &&& forall|i: int|
                0 <= i < rows.len() ==> line_count(#[trigger] rows[i]) == 1 && rows[i].last()
                    == '\n' && comma_count(rows[i]) == comma_count(s.dataset().header)
        }),
{
    lemma_rating_rows_shape(s.sampler.samples, false, s.decision());
}

} // verus!
