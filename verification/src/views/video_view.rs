//! A screen that plays a video to its end.

use vstd::prelude::*;
use crate::events::{DialEvent, Frame, Message, VideoStatus};
use crate::views::arc_input_video_view::{has_ended, video_ended, Playback};
use crate::views::rating::is_press;
use crate::views::{ArcSettings, ScreenCommand};

verus! {

/// The mathematical state of the screen.
pub struct VideoState {
    pub path: Seq<char>,
    /// Whether the video has reached its end.
    pub finished: bool,
    pub playback: Playback,
}

impl VideoState {
    /// The state after one cycle with the dial event `msg`, while the video
    /// is in the state `video`.
    pub open spec fn updated(self, msg: Option<DialEvent>, video: VideoStatus) -> VideoState {
        if is_press(msg) && self.finished {
            self
        } else {
            VideoState { finished: self.finished || video_ended(video), ..self }
        }
    }
}

pub struct VideoView {
    path: String,
    finished: bool,
    playback: Playback,
}

impl View for VideoView {
    type V = VideoState;

    closed spec fn view(&self) -> VideoState {
        VideoState { path: self.path@, finished: self.finished, playback: self.playback }
    }
}

impl VideoView {
    /// The screen that plays the video at `path`.
    pub fn new(path: String) -> (screen: VideoView)
        ensures
            screen@ == (VideoState { path: path@, finished: false, playback: Playback::Closed }),
    {
        VideoView { path, finished: false, playback: Playback::Closed }
    }

    /// Forgets that the video was seen.
    pub fn init(&mut self)
        ensures
            final(self)@ == (VideoState { finished: false, ..old(self)@ }),
    {
        self.finished = false;
    }

    /// One controller cycle with the dial event popped for it, if any: once
    /// the video is over, a press of the button asks for the next screen.
    /// The video must be loaded.
    pub fn update(&mut self, msg: Option<DialEvent>, frame: &Frame) -> (command: ScreenCommand)
        requires
            frame.video is Some,
        ensures
            final(self)@ == old(self)@.updated(msg, frame.video->0),
            command == if is_press(msg) && old(self)@.finished {
                ScreenCommand::NextScreen(None)
            } else {
                ScreenCommand::Stay
            },
    {
        let video = frame.video.unwrap();
        match msg {
            Some(DialEvent::Button { pressed }) => {
                if pressed && self.finished {
                    return ScreenCommand::NextScreen(None);
                }
            },
            _ => {},
        }
        if has_ended(&video) {
            self.finished = true;
        }
        ScreenCommand::Stay
    }

    /// The screen takes no input but the dial's.
    pub fn iced_input(&mut self, msg: Message) -> (command: ScreenCommand)
        ensures
            final(self)@ == old(self)@,
            command == ScreenCommand::Stay,
    {
        ScreenCommand::Stay
    }

    /// Asks for the video to be opened and run.
    pub fn show(&mut self)
        ensures
            final(self)@ == (VideoState { playback: Playback::Playing, ..old(self)@ }),
    {
        self.playback = Playback::Playing;
    }

    /// Asks for the video to be closed.
    pub fn dismiss(&mut self)
        ensures
            final(self)@ == (VideoState { playback: Playback::Closed, ..old(self)@ }),
    {
        self.playback = Playback::Closed;
    }

    /// The dial stays as it is.
    pub fn arc_settings(&self) -> (settings: Option<ArcSettings>)
        ensures
            settings is None,
    {
        None
    }

    /// Whether the video has reached its end.
    pub fn finished(&self) -> (b: bool)
        ensures
            b == self@.finished,
    {
        self.finished
    }

    /// What the screen wants of the video player.
    pub fn playback(&self) -> (p: Playback)
        ensures
            p == self@.playback,
    {
        self.playback
    }

    /// The video the screen plays.
    pub fn path(&self) -> (text: &String)
        ensures
            text@ == self@.path,
    {
        &self.path
    }
}

} // verus!
