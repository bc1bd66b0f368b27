//! The screen on which the participant rates, while a video plays, whether
//! the person in it lies or tells the truth.

use vstd::prelude::*;
use vstd::string::*;
use crate::arc_input::{lie_truth_arc, lie_truth_gauge, ArcInput, ArcInputText};
use crate::events::{DialEvent, Frame, Message, VideoStatus};
use crate::sampler::{DataPoint, DecisionSampler, SamplerState};
use crate::text::{decimal, push_decimal};
use crate::views::rating::{after_event, asks_to_advance, handle_event};
use crate::views::rows::{
    copy_points,
    comma_count,
    joined,
    lemma_rating_rows_shape,
    line_count,
    push_rating_rows,
    rating_rows,
    rating_text,
    recorded_decision,
    RATING_HEADER,
};
use crate::views::{
    dataset_of,
    ArcSettings,
    Dataset,
    DatasetText,
    ExperimentData,
    Printable,
    ScreenCommand,
};

verus! {

pub const MIN_VALUE: i32 = -10;

pub const MAX_VALUE: i32 = 10;

/// Detents per revolution while this screen is shown.
pub const DIVISIONS: u16 = 60;

/// How close to its end, in milliseconds, a video counts as over.
pub const END_BUFFER_MS: u64 = 25;

/// What a screen wants of the video player.
#[derive(Clone, Copy, PartialEq, Eq, Debug, Structural)]
pub enum Playback {
    /// No video is open.
    Closed,
    /// The screen's video is open and runs.
    Playing,
    /// The screen's video is open and stands still.
    Paused,
}

/// Whether a video in the state `video` counts as over.
pub open spec fn video_ended(video: VideoStatus) -> bool {
    video.position_ms + END_BUFFER_MS >= video.duration_ms
}

/// Whether a video in the state `video` counts as over.
pub fn has_ended(video: &VideoStatus) -> (ended: bool)
    ensures
        ended == video_ended(*video),
{
    video.duration_ms <= video.position_ms || video.duration_ms - video.position_ms
        <= END_BUFFER_MS
}

/// What the screen records.
pub struct DataStructure {
    pub id: usize,
    /// The video that was shown.
    pub path: String,
    /// Whether the scale is mirrored for this participant.
    pub counterbalance: bool,
    pub final_decision: i32,
    pub final_decision_timestamp: u64,
    pub data_points: Vec<DataPoint>,
}

impl DataStructure {
    /// The record of block `id` with the video at `path`, before anything was
    /// decided.
    pub fn new(id: usize, path: String, counterbalance: bool) -> (data: DataStructure)
        ensures
            data.id == id,
            data.path == path,
            data.counterbalance == counterbalance,
            data.final_decision == 0,
            data.final_decision_timestamp == 0,
            data.data_points@ == Seq::<DataPoint>::empty(),
    {
        DataStructure {
            id,
            counterbalance,
            path,
            final_decision: 0,
            final_decision_timestamp: 0,
            data_points: Vec::new(),
        }
    }
}

impl DataStructure {
    /// The decision as it is written.
    pub open spec fn decision(&self) -> DataPoint {
        DataPoint { timestamp: self.final_decision_timestamp, value: self.final_decision }
    }
}

impl Printable for DataStructure {
    /// One row for each sample and the row of the decision; all values are
    /// mirrored if the scale is.
    open spec fn csv(&self) -> Seq<char> {
        rating_text(self.data_points@, self.counterbalance, self.decision())
    }

    fn to_csv(&self) -> (text: String) {
        let mut text = String::new();
        push_rating_rows(
            &mut text,
            &self.data_points,
            self.counterbalance,
            DataPoint { timestamp: self.final_decision_timestamp, value: self.final_decision },
        );
        text
    }
}

impl ExperimentData for DataStructure {
    open spec fn name_text(&self) -> Seq<char> {
        "lie_truth_dynamic_"@ + decimal(self.id as nat)
    }

    open spec fn headers_text(&self) -> Seq<char> {
        RATING_HEADER@
    }

    fn name(&self) -> (text: String) {
        let mut text = String::from_str("lie_truth_dynamic_");
        push_decimal(&mut text, self.id as u64);
        text
    }

    fn headers(&self) -> (text: String) {
        String::from_str(RATING_HEADER)
    }
}

/// The mathematical state of the screen.
pub struct VideoRatingState {
    pub id: usize,
    pub path: Seq<char>,
    pub counterbalance: bool,
    pub sampler: SamplerState,
    pub playback: Playback,
}

impl VideoRatingState {
    /// The decision recorded: that of record, or zero at time zero while
    /// there is none.
    pub open spec fn decision(self) -> DataPoint {
        recorded_decision(self.sampler.terminal)
    }

    /// The dataset of a screen in this state: one row for each sample and
    /// the row of the decision; all values are mirrored if the scale is.
    pub open spec fn dataset(self) -> DatasetText {
        DatasetText {
            name: "lie_truth_dynamic_"@ + decimal(self.id as nat),
            header: RATING_HEADER@,
            rows: rating_text(self.sampler.samples, self.counterbalance, self.decision()),
        }
    }

    /// The state of a screen that has just been made.
    pub open spec fn fresh(id: usize, path: Seq<char>, counterbalance: bool) -> VideoRatingState {
        VideoRatingState {
            id,
            path,
            counterbalance,
            sampler: SamplerState::fresh(MIN_VALUE as int, MAX_VALUE as int, 0),
            playback: Playback::Closed,
        }
    }

    /// The gauge of a screen in this state: locked once the decision is.
    pub open spec fn gauge(self) -> ArcInputText {
        lie_truth_gauge(
            MIN_VALUE,
            MAX_VALUE,
            self.sampler.current_value as i32,
            self.counterbalance,
            self.sampler.finalized,
        )
    }

    /// The state after one cycle with the dial event `msg`, while the video
    /// is in the state `video`. Times are positions in the video. The
    /// decision is locked by the button or by the end of the video,
    /// whichever comes first; the video then stands still.
    pub open spec fn updated(
        self,
        msg: Option<DialEvent>,
        clock_ms: u64,
        video: VideoStatus,
    ) -> VideoRatingState {
        let moved = after_event(
            self.sampler,
            msg,
            clock_ms as int,
            video.position_ms,
            true,
        );
        if asks_to_advance(self.sampler, msg) {
            VideoRatingState { sampler: moved, ..self }
        } else {
            let settled = if video_ended(video) {
                moved.finalized_at(video.position_ms)
            } else {
                moved
            };
            VideoRatingState {
                sampler: settled.ticked(clock_ms as int, video.position_ms),
                playback: if settled.finalized {
                    Playback::Paused
                } else {
                    self.playback
                },
                ..self
            }
        }
    }
}

pub struct ArcInputVideoView {
    id: usize,
    path: String,
    counterbalance: bool,
    sampler: DecisionSampler,
    playback: Playback,
}

impl View for ArcInputVideoView {
    type V = VideoRatingState;

    closed spec fn view(&self) -> VideoRatingState {
        VideoRatingState {
            id: self.id,
            path: self.path@,
            counterbalance: self.counterbalance,
            sampler: self.sampler@,
            playback: self.playback,
        }
    }
}

impl ArcInputVideoView {
    /// The screen of block `id` that plays the video at `path`.
    pub fn new(id: usize, path: String, counterbalance: bool) -> (screen: ArcInputVideoView)
        ensures
            screen@ == VideoRatingState::fresh(id, path@, counterbalance),
    {
        ArcInputVideoView {
            id,
            path,
            counterbalance,
            sampler: DecisionSampler::new(MIN_VALUE, MAX_VALUE, 0),
            playback: Playback::Closed,
        }
    }

    /// Resets the dial to the middle and forgets samples and decision.
    pub fn init(&mut self)
        ensures
            final(self)@ == (VideoRatingState {
                sampler: old(self)@.sampler.reset(),
                ..old(self)@
            }),
    {
        self.sampler.init();
    }

    /// Asks for the video to be opened and run, and resets the dial.
    pub fn show(&mut self)
        ensures
            final(self)@ == (VideoRatingState {
                sampler: old(self)@.sampler.reset(),
                playback: Playback::Playing,
                ..old(self)@
            }),
    {
        self.playback = Playback::Playing;
        self.sampler.init();
    }

    /// Asks for the video to be closed.
    pub fn dismiss(&mut self)
        ensures
            final(self)@ == (VideoRatingState { playback: Playback::Closed, ..old(self)@ }),
    {
        self.playback = Playback::Closed;
    }

    /// One controller cycle with the dial event popped for it, if any. The
    /// video must be loaded.
    pub fn update(&mut self, msg: Option<DialEvent>, frame: &Frame) -> (command: ScreenCommand)
        requires
            frame.video is Some,
        ensures
            final(self)@ == old(self)@.updated(msg, frame.clock_ms, frame.video->0),
            command == if asks_to_advance(old(self)@.sampler, msg) {
                ScreenCommand::NextScreen(None)
            } else {
                ScreenCommand::Stay
            },
    {
        let video = frame.video.unwrap();
        let stamp = video.position_ms;
        let advance = handle_event(&mut self.sampler, msg, frame.clock_ms, stamp, true);
        if advance {
            return ScreenCommand::NextScreen(None);
        }
        if has_ended(&video) {
            self.sampler.finalize(stamp);
        }
        if self.sampler.is_finalized() {
            self.playback = Playback::Paused;
        }
        self.sampler.tick(frame.clock_ms, stamp);
        ScreenCommand::Stay
    }

    /// The screen takes no input but the dial's.
    pub fn iced_input(&mut self, msg: Message) -> (command: ScreenCommand)
        ensures
            final(self)@ == old(self)@,
            command == ScreenCommand::Stay,
    {
        ScreenCommand::Stay
    }

    /// What has been recorded up to now: the decision of record, or zero at
    /// time zero while there is none, and the samples.
    pub fn data(&self) -> (data: Option<DataStructure>)
        ensures
            data matches Some(d) && d.id == self@.id && d.path@ == self@.path && d.counterbalance
                == self@.counterbalance && d.data_points@ == self@.sampler.samples
                && d.final_decision == (match self@.sampler.terminal {
                Some(point) => point.value,
                None => 0,
            }) && d.final_decision_timestamp == (match self@.sampler.terminal {
                Some(point) => point.timestamp,
                None => 0,
            }),
    {
        let (decision, timestamp) = match self.sampler.terminal() {
            Some(point) => (point.value, point.timestamp),
            None => (0, 0),
        };
        Some(
            DataStructure {
                id: self.id,
                path: self.path.clone(),
                counterbalance: self.counterbalance,
                final_decision: decision,
                final_decision_timestamp: timestamp,
                data_points: copy_points(self.sampler.samples()),
            },
        )
    }

    /// The dataset of what has been recorded up to now.
    pub fn dataset(&self) -> (set: Dataset)
        ensures
            set@ == self@.dataset(),
    {
        let data = self.data();
        dataset_of(&data.unwrap())
    }

    pub fn arc_settings(&self) -> (settings: Option<ArcSettings>)
        ensures
            settings == Some(ArcSettings { divisions: DIVISIONS }),
    {
        Some(ArcSettings { divisions: DIVISIONS })
    }

    /// The gauge that shows the dial.
    pub fn gauge(&self) -> (gauge: ArcInput)
        ensures
            gauge@ == self@.gauge(),
    {
        lie_truth_arc(
            MIN_VALUE,
            MAX_VALUE,
            self.sampler.current_value(),
            self.counterbalance,
            self.sampler.is_finalized(),
        )
    }

    /// Where the dial stands.
    pub fn value(&self) -> (v: i32)
        ensures
            v == self@.sampler.current_value,
            self@.sampler.wf(),
    {
        self.sampler.current_value()
    }

    /// Whether the decision is locked.
    pub fn finished(&self) -> (b: bool)
        ensures
            b == self@.sampler.finalized,
    {
        self.sampler.is_finalized()
    }

    /// What the screen wants of the video player.
    pub fn playback(&self) -> (p: Playback)
        ensures
            p == self@.playback,
    {
        self.playback
    }

    /// The video the screen plays.
    pub fn path(&self) -> (text: &String)
        ensures
            text@ == self@.path,
    {
        &self.path
    }

    pub fn counterbalance(&self) -> (b: bool)
        ensures
            b == self@.counterbalance,
    {
        self.counterbalance
    }
}

/// The dataset of the screen is one row for each sample and exactly one row
/// for the decision, which is the last; every row is one line with as many
/// fields as the header names.
pub proof fn lemma_dataset_rows(s: VideoRatingState)
    ensures
        ({
            let rows = rating_rows(s.sampler.samples, s.counterbalance, s.decision());
            &&& rows.len() == s.sampler.samples.len() + 1
            &&& s.dataset().rows == joined(rows, rows.len())
            &&& line_count(s.dataset().rows) == s.sampler.samples.len() + 1
            &&& forall|i: int|
                0 <= i < rows.len() ==> line_count(#[trigger] rows[i]) == 1 && rows[i].last()
                    == '\n' && comma_count(rows[i]) == comma_count(s.dataset().header)
        }),
{
    lemma_rating_rows_shape(s.sampler.samples, s.counterbalance, s.decision());
}

/// A press of the button before any decision locks the decision at the
/// value the dial stands at, with the position in the video for its time,
/// and stops the video; the samples stay as they are.
pub proof fn lemma_press_locks(s: VideoRatingState, clock_ms: u64, video: VideoStatus)
    requires
        s.sampler.wf(),
        !s.sampler.finalized,
    ensures
        ({
            let next = s.updated(Some(DialEvent::Button { pressed: true }), clock_ms, video);
            &&& next.sampler.finalized
            &&& next.sampler.terminal == Some(
                DataPoint { timestamp: video.position_ms, value: s.sampler.current_value as i32 },
            )
            &&& next.sampler.pending_since is None
            &&& next.sampler.samples == s.sampler.samples
            &&& next.playback == Playback::Paused
            &&& next.gauge().disabled
        }),
{
}

} // verus!
