//! A screen that plays a video until the participant locks in a decision
//! with the button.

use vstd::prelude::*;
use vstd::string::*;
use crate::events::{DialEvent, Frame, Message, VideoStatus};
use crate::text::{decimal, push_decimal};
use crate::views::arc_input_video_view::{has_ended, video_ended, Playback};
use crate::sampler::DataPoint;
use crate::views::rating::is_press;
use crate::views::rows::{
    comma_count,
    joined,
    lemma_rating_rows_shape,
    line_count,
    push_rating_rows,
    rating_rows,
    rating_text,
    RATING_HEADER,
};
use crate::views::{
    dataset_of,
    ArcSettings,
    Dataset,
    DatasetText,
    ExperimentData,
    Printable,
    ScreenCommand,
};

verus! {

/// What the screen records.
pub struct DataStructure {
    pub id: usize,
    /// The video that was shown.
    pub path: String,
    pub final_decision_timestamp: u64,
}

impl DataStructure {
    /// The record of block `id` with the video at `path`, before the
    /// decision.
    pub fn new(id: usize, path: String) -> (data: DataStructure)
        ensures
            data.id == id,
            data.path == path,
            data.final_decision_timestamp == 0,
    {
        DataStructure { id, path, final_decision_timestamp: 0 }
    }
}

impl DataStructure {
    /// The decision as it is written: a value of zero at the time of the
    /// press.
    pub open spec fn decision(&self) -> DataPoint {
        DataPoint { timestamp: self.final_decision_timestamp, value: 0 }
    }
}

impl Printable for DataStructure {
    /// The row of the decision, with the time of the press.
    open spec fn csv(&self) -> Seq<char> {
        rating_text(Seq::empty(), false, self.decision())
    }

    fn to_csv(&self) -> (text: String) {
        let mut text = String::new();
        let none: Vec<DataPoint> = Vec::new();
        push_rating_rows(
            &mut text,
            &none,
            false,
            DataPoint { timestamp: self.final_decision_timestamp, value: 0 },
        );
        text
    }
}

impl ExperimentData for DataStructure {
    open spec fn name_text(&self) -> Seq<char> {
        "lie_truth_lock_in_"@ + decimal(self.id as nat)
    }

    open spec fn headers_text(&self) -> Seq<char> {
        RATING_HEADER@
    }

    fn name(&self) -> (text: String) {
        let mut text = String::from_str("lie_truth_lock_in_");
        push_decimal(&mut text, self.id as u64);
        text
    }

    fn headers(&self) -> (text: String) {
        String::from_str(RATING_HEADER)
    }
}

/// The mathematical state of the screen.
pub struct LockInState {
    pub id: usize,
    pub path: Seq<char>,
    /// The position in the video at which the button locked the decision;
    /// zero while it has not.
    pub final_decision_timestamp: u64,
    /// Whether the screen may be left.
    pub finished: bool,
    pub playback: Playback,
}

impl LockInState {
    /// The decision recorded: a value of zero at the time of the press.
    pub open spec fn decision(self) -> DataPoint {
        DataPoint { timestamp: self.final_decision_timestamp, value: 0 }
    }

    /// The dataset of a screen in this state: the row of the decision.
    pub open spec fn dataset(self) -> DatasetText {
        DatasetText {
            name: "lie_truth_lock_in_"@ + decimal(self.id as nat),
            header: RATING_HEADER@,
            rows: rating_text(Seq::empty(), false, self.decision()),
        }
    }

    /// The state after one cycle with the dial event `msg`, while the video
    /// is in the state `video`. The first press of the button records the
    /// position and stops the video; the end of the video, too, lets the
    /// screen be left.
    pub open spec fn updated(self, msg: Option<DialEvent>, video: VideoStatus) -> LockInState {
        if is_press(msg) && self.finished {
            self
        } else {
            let pressed = if is_press(msg) {
                LockInState {
                    final_decision_timestamp: video.position_ms,
                    finished: true,
                    playback: Playback::Paused,
                    ..self
                }
            } else {
                self
            };
            LockInState { finished: pressed.finished || video_ended(video), ..pressed }
        }
    }
}

pub struct LockInVideoView {
    data: DataStructure,
    finished: bool,
    playback: Playback,
}

impl View for LockInVideoView {
    type V = LockInState;

    closed spec fn view(&self) -> LockInState {
        LockInState {
            id: self.data.id,
            path: self.data.path@,
            final_decision_timestamp: self.data.final_decision_timestamp,
            finished: self.finished,
            playback: self.playback,
        }
    }
}

impl LockInVideoView {
    /// The screen of block `id` that plays the video at `path`.
    pub fn new(id: usize, path: String) -> (screen: LockInVideoView)
        ensures
            screen@ == (LockInState {
                id,
                path: path@,
                final_decision_timestamp: 0,
                finished: false,
                playback: Playback::Closed,
            }),
    {
        LockInVideoView {
            data: DataStructure::new(id, path),
            finished: false,
            playback: Playback::Closed,
        }
    }

    /// Forgets the decision.
    pub fn init(&mut self)
        ensures
            final(self)@ == (LockInState {
                final_decision_timestamp: 0,
                finished: false,
                ..old(self)@
            }),
    {
        self.data.final_decision_timestamp = 0;
        self.finished = false;
    }

    /// One controller cycle with the dial event popped for it, if any. The
    /// video must be loaded.
    pub fn update(&mut self, msg: Option<DialEvent>, frame: &Frame) -> (command: ScreenCommand)
        requires
            frame.video is Some,
        ensures
            final(self)@ == old(self)@.updated(msg, frame.video->0),
            command == if is_press(msg) && old(self)@.finished {
                ScreenCommand::NextScreen(None)
            } else {
                ScreenCommand::Stay
            },
    {
        let video = frame.video.unwrap();
        match msg {
            Some(DialEvent::Button { pressed }) => {
                if pressed {
                    if !self.finished {
                        self.data.final_decision_timestamp = video.position_ms;
                        self.playback = Playback::Paused;
                        self.finished = true;
                    } else {
                        return ScreenCommand::NextScreen(None);
                    }
                }
            },
            _ => {},
        }
        if has_ended(&video) {
            self.finished = true;
        }
        ScreenCommand::Stay
    }

    /// The screen takes no input but the dial's.
    pub fn iced_input(&mut self, msg: Message) -> (command: ScreenCommand)
        ensures
            final(self)@ == old(self)@,
            command == ScreenCommand::Stay,
    {
        ScreenCommand::Stay
    }

    /// Asks for the video to be opened and run.
    pub fn show(&mut self)
        ensures
            final(self)@ == (LockInState { playback: Playback::Playing, ..old(self)@ }),
    {
        self.playback = Playback::Playing;
    }

    /// Asks for the video to be closed.
    pub fn dismiss(&mut self)
        ensures
            final(self)@ == (LockInState { playback: Playback::Closed, ..old(self)@ }),
    {
        self.playback = Playback::Closed;
    }

    /// What has been recorded up to now.
    pub fn data(&self) -> (data: Option<&DataStructure>)
        ensures
            data matches Some(d) && d.id == self@.id && d.path@ == self@.path
                && d.final_decision_timestamp == self@.final_decision_timestamp,
    {
        Some(&self.data)
    }

    /// The dataset of what has been recorded up to now.
    pub fn dataset(&self) -> (set: Dataset)
        ensures
            set@ == self@.dataset(),
    {
        let data = self.data();
        dataset_of(data.unwrap())
    }

    /// The dial stays as it is.
    pub fn arc_settings(&self) -> (settings: Option<ArcSettings>)
        ensures
            settings is None,
    {
        None
    }

    /// Whether the screen may be left.
    pub fn finished(&self) -> (b: bool)
        ensures
            b == self@.finished,
    {
        self.finished
    }

    /// What the screen wants of the video player.
    pub fn playback(&self) -> (p: Playback)
        ensures
            p == self@.playback,
    {
        self.playback
    }

    /// The video the screen plays.
    pub fn path(&self) -> (text: &String)
        ensures
            text@ == self@.path,
    {
        &self.data.path
    }
}

/// The dataset of the screen is exactly one row, that of the decision: one
/// line with as many fields as the header names.
pub proof fn lemma_dataset_rows(s: LockInState)
    ensures
        ({
            let rows = rating_rows(Seq::empty(), false, s.decision());
            &&& rows.len() == 1
            &&& s.dataset().rows == joined(rows, 1)
            &&& line_count(s.dataset().rows) == 1
            &&& comma_count(rows[0]) == comma_count(s.dataset().header)
        }),
{
    lemma_rating_rows_shape(Seq::empty(), false, s.decision());
}

} // verus!
