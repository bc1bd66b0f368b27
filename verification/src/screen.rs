//! A screen of any kind, as the session holds it.

use vstd::prelude::*;
use crate::events::{DialEvent, Frame, Message};
use crate::views::arc_dichotomous_view::{ArcDichotomousView, DichotomousState};
use crate::views::arc_input_video_view::{ArcInputVideoView, Playback, VideoRatingState};
use crate::views::arc_question_scale::{ArcQuestionScaleView, ScaleState};
use crate::views::image_view::ImageView;
use crate::views::info_view::InfoView;
use crate::views::lock_in_video_view::{LockInState, LockInVideoView};
use crate::views::multichoice_view::{MultiChoiceState, MultiChoiceView};
use crate::views::participant_id_view::{text_after, ParticipantIdView};
use crate::views::rating::{asks_to_advance, is_press};
use crate::views::textinput_view::{TextInputState, TextInputView};
use crate::views::video_view::{VideoState, VideoView};
use crate::views::{
    ArcSettings,
    CommandText,
    Dataset,
    DatasetText,
    ScreenCommand,
};

verus! {

/// One screen of the experiment.
pub enum Screen {
    ParticipantId(ParticipantIdView),
    Image(ImageView),
    Info(InfoView),
    DynamicRating(ArcInputVideoView),
    Dichotomous(ArcDichotomousView),
    Scale(ArcQuestionScaleView),
    LockIn(LockInVideoView),
    Video(VideoView),
    MultiChoice(MultiChoiceView),
    TextInput(TextInputView),
}

/// The mathematical state of a screen.
pub enum ScreenState {
    /// The text typed so far.
    ParticipantId(Seq<char>),
    /// The title and the path of the picture.
    Image(Seq<char>, Seq<char>),
    /// The title and the message.
    Info(Seq<char>, Seq<char>),
    DynamicRating(VideoRatingState),
    Dichotomous(DichotomousState),
    Scale(ScaleState),
    LockIn(LockInState),
    Video(VideoState),
    MultiChoice(MultiChoiceState),
    TextInput(TextInputState),
}

impl View for Screen {
    type V = ScreenState;

    open spec fn view(&self) -> ScreenState {
        match *self {
            Screen::ParticipantId(v) => ScreenState::ParticipantId(v@),
            Screen::Image(v) => ScreenState::Image(v@.0, v@.1),
            Screen::Info(v) => ScreenState::Info(v@.0, v@.1),
            Screen::DynamicRating(v) => ScreenState::DynamicRating(v@),
            Screen::Dichotomous(v) => ScreenState::Dichotomous(v@),
            Screen::Scale(v) => ScreenState::Scale(v@),
            Screen::LockIn(v) => ScreenState::LockIn(v@),
            Screen::Video(v) => ScreenState::Video(v@),
            Screen::MultiChoice(v) => ScreenState::MultiChoice(v@),
            Screen::TextInput(v) => ScreenState::TextInput(v@),
        }
    }
}

impl ScreenState {
    /// Whether the screen plays a video, which must be loaded while the
    /// screen is updated.
    pub open spec fn needs_video(self) -> bool {
        self is DynamicRating || self is LockIn || self is Video
    }

    /// The state after `init`: what the participant did on the screen is
    /// forgotten.
    pub open spec fn initialized(self) -> ScreenState {
        match self {
            ScreenState::ParticipantId(_) => ScreenState::ParticipantId(Seq::empty()),
            ScreenState::DynamicRating(s) => ScreenState::DynamicRating(
                VideoRatingState { sampler: s.sampler.reset(), ..s },
            ),
            ScreenState::Dichotomous(s) => ScreenState::Dichotomous(
                DichotomousState { sampler: s.sampler.reset(), ..s },
            ),
            ScreenState::Scale(s) => ScreenState::Scale(
                ScaleState { sampler: s.sampler.reset(), ..s },
            ),
            ScreenState::LockIn(s) => ScreenState::LockIn(
                LockInState { final_decision_timestamp: 0, finished: false, ..s },
            ),
            ScreenState::Video(s) => ScreenState::Video(VideoState { finished: false, ..s }),
            ScreenState::MultiChoice(s) => ScreenState::MultiChoice(s.cleared()),
            ScreenState::TextInput(s) => ScreenState::TextInput(
                TextInputState { text: Seq::empty(), ..s },
            ),
            _ => self,
        }
    }

    /// The state after `show` at clock reading `now`: rating screens start
    /// their clock and reset the dial, video screens ask for their video.
    pub open spec fn shown(self, now: u64) -> ScreenState {
        match self {
            ScreenState::DynamicRating(s) => ScreenState::DynamicRating(
                VideoRatingState { sampler: s.sampler.reset(), playback: Playback::Playing, ..s },
            ),
            ScreenState::Dichotomous(s) => ScreenState::Dichotomous(s.shown(now)),
            ScreenState::Scale(s) => ScreenState::Scale(s.shown(now)),
            ScreenState::LockIn(s) => ScreenState::LockIn(
                LockInState { playback: Playback::Playing, ..s },
            ),
            ScreenState::Video(s) => ScreenState::Video(
                VideoState { playback: Playback::Playing, ..s },
            ),
            _ => self,
        }
    }

    /// The state after `dismiss`: video screens give up their video.
    pub open spec fn dismissed(self) -> ScreenState {
        match self {
            ScreenState::DynamicRating(s) => ScreenState::DynamicRating(
                VideoRatingState { playback: Playback::Closed, ..s },
            ),
            ScreenState::LockIn(s) => ScreenState::LockIn(
                LockInState { playback: Playback::Closed, ..s },
            ),
            ScreenState::Video(s) => ScreenState::Video(
                VideoState { playback: Playback::Closed, ..s },
            ),
            _ => self,
        }
    }

    /// The state after one controller cycle with the dial event `msg`.
    pub open spec fn updated(self, msg: Option<DialEvent>, frame: Frame) -> ScreenState {
        match self {
            ScreenState::DynamicRating(s) => ScreenState::DynamicRating(
                s.updated(msg, frame.clock_ms, frame.video->0),
            ),
            ScreenState::Dichotomous(s) => ScreenState::Dichotomous(s.updated(msg, frame)),
            ScreenState::Scale(s) => ScreenState::Scale(s.updated(msg, frame)),
            ScreenState::LockIn(s) => ScreenState::LockIn(s.updated(msg, frame.video->0)),
            ScreenState::Video(s) => ScreenState::Video(s.updated(msg, frame.video->0)),
            _ => self,
        }
    }

    /// Whether the dial event `msg` makes the screen ask for the next one.
    pub open spec fn advances_on(self, msg: Option<DialEvent>) -> bool {
        match self {
            ScreenState::Image(_, _) => is_press(msg),
            ScreenState::Info(_, _) => is_press(msg),
            ScreenState::DynamicRating(s) => asks_to_advance(s.sampler, msg),
            ScreenState::Dichotomous(s) => asks_to_advance(s.sampler, msg),
            ScreenState::Scale(s) => asks_to_advance(s.sampler, msg),
            ScreenState::LockIn(s) => is_press(msg) && s.finished,
            ScreenState::Video(s) => is_press(msg) && s.finished,
            _ => false,
        }
    }

    /// The state after the user-interface message `msg`.
    pub open spec fn received(self, msg: Message) -> ScreenState {
        match self {
            ScreenState::ParticipantId(text) => ScreenState::ParticipantId(text_after(text, msg)),
            ScreenState::MultiChoice(s) => ScreenState::MultiChoice(s.received(msg)),
            ScreenState::TextInput(s) => ScreenState::TextInput(s.received(msg)),
            _ => self,
        }
    }

    /// What the screen asks for after the user-interface message `msg`: the
    /// screens with an on-screen button ask for the next screen when it is
    /// pressed, the participant screen with the text that was typed.
    pub open spec fn reply(self, msg: Message) -> CommandText {
        match self {
            ScreenState::ParticipantId(text) => if msg is ButtonPressed {
                CommandText::NextScreen(Some(text))
            } else {
                CommandText::Stay
            },
            ScreenState::MultiChoice(_) => if msg is ButtonPressed {
                CommandText::NextScreen(None)
            } else {
                CommandText::Stay
            },
            ScreenState::TextInput(_) => if msg is ButtonPressed {
                CommandText::NextScreen(None)
            } else {
                CommandText::Stay
            },
            _ => CommandText::Stay,
        }
    }

    /// The dataset the screen has recorded, if it is of a kind that records.
    pub open spec fn dataset(self) -> Option<DatasetText> {
        match self {
            ScreenState::DynamicRating(s) => Some(s.dataset()),
            ScreenState::Dichotomous(s) => Some(s.dataset()),
            ScreenState::Scale(s) => Some(s.dataset()),
            ScreenState::LockIn(s) => Some(s.dataset()),
            ScreenState::MultiChoice(s) => Some(s.dataset()),
            ScreenState::TextInput(s) => Some(s.dataset()),
            _ => None,
        }
    }

    /// The dial settings the screen asks for; none leaves the dial as it is.
    pub open spec fn settings(self) -> Option<ArcSettings> {
        match self {
            ScreenState::Image(_, _) => Some(ArcSettings { divisions: 0 }),
            ScreenState::Info(_, _) => Some(ArcSettings { divisions: 0 }),
            ScreenState::MultiChoice(_) => Some(ArcSettings { divisions: 0 }),
            ScreenState::DynamicRating(_) => Some(
                ArcSettings { divisions: crate::views::arc_input_video_view::DIVISIONS },
            ),
            ScreenState::Dichotomous(_) => Some(
                ArcSettings { divisions: crate::views::arc_dichotomous_view::DIVISIONS },
            ),
            ScreenState::Scale(s) => Some(ArcSettings { divisions: s.subdivisions }),
            _ => None,
        }
    }

    /// What the screen wants of the video player.
    pub open spec fn playback(self) -> Playback {
        match self {
            ScreenState::DynamicRating(s) => s.playback,
            ScreenState::LockIn(s) => s.playback,
            ScreenState::Video(s) => s.playback,
            _ => Playback::Closed,
        }
    }
}

/// Resetting a screen twice is resetting it once.
pub proof fn lemma_init_is_idempotent(s: ScreenState)
    ensures
        s.initialized().initialized() == s.initialized(),
{
}

/// Ending the activation of a screen twice is ending it once: a screen that
/// holds no video gives nothing up.
pub proof fn lemma_dismiss_is_idempotent(s: ScreenState)
    ensures
        s.dismissed().dismissed() == s.dismissed(),
        s.dismissed().playback() == Playback::Closed,
        !s.needs_video() ==> s.dismissed() == s,
{
}

/// Ending the activation of a screen leaves what it has recorded as it is.
pub proof fn lemma_dismiss_keeps_dataset(s: ScreenState)
    ensures
        s.dismissed().dataset() == s.dataset(),
{
}

impl Screen {
    /// Resets what the participant did on the screen.
    pub fn init(&mut self)
        ensures
            final(self)@ == old(self)@.initialized(),
    {
        match self {
            Screen::ParticipantId(v) => v.init(),
            Screen::Image(v) => v.init(),
            Screen::Info(v) => v.init(),
            Screen::DynamicRating(v) => v.init(),
            Screen::Dichotomous(v) => v.init(),
            Screen::Scale(v) => v.init(),
            Screen::LockIn(v) => v.init(),
            Screen::Video(v) => v.init(),
            Screen::MultiChoice(v) => v.init(),
            Screen::TextInput(v) => v.init(),
        }
    }

    /// Begins an activation of the screen at clock reading `now`.
    pub fn show(&mut self, now: u64)
        ensures
            final(self)@ == old(self)@.shown(now),
    {
        match self {
            Screen::ParticipantId(v) => v.show(),
            Screen::Image(v) => v.show(),
            Screen::Info(v) => v.show(),
            Screen::DynamicRating(v) => v.show(),
            Screen::Dichotomous(v) => v.show(now),
            Screen::Scale(v) => v.show(now),
            Screen::LockIn(v) => v.show(),
            Screen::Video(v) => v.show(),
            Screen::MultiChoice(v) => v.show(),
            Screen::TextInput(v) => v.show(),
        }
    }

    /// Ends an activation of the screen. May be repeated.
    pub fn dismiss(&mut self)
        ensures
            final(self)@ == old(self)@.dismissed(),
    {
        match self {
            Screen::ParticipantId(v) => v.dismiss(),
            Screen::Image(v) => v.dismiss(),
            Screen::Info(v) => v.dismiss(),
            Screen::DynamicRating(v) => v.dismiss(),
            Screen::Dichotomous(v) => v.dismiss(),
            Screen::Scale(v) => v.dismiss(),
            Screen::LockIn(v) => v.dismiss(),
            Screen::Video(v) => v.dismiss(),
            Screen::MultiChoice(v) => v.dismiss(),
            Screen::TextInput(v) => v.dismiss(),
        }
    }

    /// One controller cycle with the dial event popped for it, if any. A
    /// screen that plays a video must have it loaded.
    pub fn update(&mut self, msg: Option<DialEvent>, frame: &Frame) -> (command: ScreenCommand)
        requires
            old(self)@.needs_video() ==> frame.video is Some,
        ensures
            final(self)@ == old(self)@.updated(msg, *frame),
            command@ == if old(self)@.advances_on(msg) {
                CommandText::NextScreen(None)
            } else {
                CommandText::Stay
            },
    {
        match self {
            Screen::ParticipantId(v) => v.update(msg),
            Screen::Image(v) => v.update(msg),
            Screen::Info(v) => v.update(msg),
            Screen::DynamicRating(v) => v.update(msg, frame),
            Screen::Dichotomous(v) => v.update(msg, frame),
            Screen::Scale(v) => v.update(msg, frame),
            Screen::LockIn(v) => v.update(msg, frame),
            Screen::Video(v) => v.update(msg, frame),
            Screen::MultiChoice(v) => v.update(msg),
            Screen::TextInput(v) => v.update(msg),
        }
    }

    /// One message from the user interface.
    pub fn iced_input(&mut self, msg: Message) -> (command: ScreenCommand)
        ensures
            final(self)@ == old(self)@.received(msg),
            command@ == old(self)@.reply(msg),
    {
        match self {
            Screen::ParticipantId(v) => v.iced_input(msg),
            Screen::Image(v) => v.iced_input(msg),
            Screen::Info(v) => v.iced_input(msg),
            Screen::DynamicRating(v) => v.iced_input(msg),
            Screen::Dichotomous(v) => v.iced_input(msg),
            Screen::Scale(v) => v.iced_input(msg),
            Screen::LockIn(v) => v.iced_input(msg),
            Screen::Video(v) => v.iced_input(msg),
            Screen::MultiChoice(v) => v.iced_input(msg),
            Screen::TextInput(v) => v.iced_input(msg),
        }
    }

    /// The dataset the screen has recorded, if it is of a kind that records.
    pub fn data(&self) -> (set: Option<Dataset>)
        ensures
            set is Some <==> self@.dataset() is Some,
            set matches Some(d) ==> d@ == self@.dataset()->0,
    {
        match self {
            Screen::DynamicRating(v) => Some(v.dataset()),
            Screen::Dichotomous(v) => Some(v.dataset()),
            Screen::Scale(v) => Some(v.dataset()),
            Screen::LockIn(v) => Some(v.dataset()),
            Screen::MultiChoice(v) => Some(v.dataset()),
            Screen::TextInput(v) => Some(v.dataset()),
            _ => None,
        }
    }

    /// The dial settings the screen asks for; none leaves the dial as it is.
    pub fn arc_settings(&self) -> (settings: Option<ArcSettings>)
        ensures
            settings == self@.settings(),
    {
        match self {
            Screen::ParticipantId(v) => v.arc_settings(),
            Screen::Image(v) => v.arc_settings(),
            Screen::Info(v) => v.arc_settings(),
            Screen::DynamicRating(v) => v.arc_settings(),
            Screen::Dichotomous(v) => v.arc_settings(),
            Screen::Scale(v) => v.arc_settings(),
            Screen::LockIn(v) => v.arc_settings(),
            Screen::Video(v) => v.arc_settings(),
            Screen::MultiChoice(v) => v.arc_settings(),
            Screen::TextInput(v) => v.arc_settings(),
        }
    }

    /// What the screen wants of the video player.
    pub fn playback(&self) -> (p: Playback)
        ensures
            p == self@.playback(),
    {
        match self {
            Screen::DynamicRating(v) => v.playback(),
            Screen::LockIn(v) => v.playback(),
            Screen::Video(v) => v.playback(),
            _ => Playback::Closed,
        }
    }

    /// Whether the screen plays a video.
    pub fn needs_video(&self) -> (b: bool)
        ensures
            b == self@.needs_video(),
    {
        match self {
            Screen::DynamicRating(_) => true,
            Screen::LockIn(_) => true,
            Screen::Video(_) => true,
            _ => false,
        }
    }
}

} // verus!
