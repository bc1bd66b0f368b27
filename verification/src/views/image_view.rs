//! A screen that shows a picture under a title and waits for the button.

use vstd::prelude::*;
use crate::events::{DialEvent, Message};
use crate::views::rating::is_press;
use crate::views::{ArcSettings, ScreenCommand};

verus! {

pub struct ImageView {
    title: String,
    path: String,
}

impl View for ImageView {
    type V = (Seq<char>, Seq<char>);

    /// The title and the path of the picture.
    closed spec fn view(&self) -> (Seq<char>, Seq<char>) {
        (self.title@, self.path@)
    }
}

impl ImageView {
    pub fn new(title: String, path: String) -> (screen: ImageView)
        ensures
            screen@ == (title@, path@),
    {
        ImageView { title, path }
    }

    /// Nothing to reset.
    pub fn init(&mut self)
        ensures
            final(self)@ == old(self)@,
    {
    }

    /// One controller cycle: a press of the button asks for the next screen.
    pub fn update(&mut self, msg: Option<DialEvent>) -> (command: ScreenCommand)
        ensures
            final(self)@ == old(self)@,
            command == if is_press(msg) {
                ScreenCommand::NextScreen(None)
            } else {
                ScreenCommand::Stay
            },
    {
        match msg {
            Some(DialEvent::Button { pressed }) => {
                if pressed {
                    return ScreenCommand::NextScreen(None);
                }
            },
            _ => {},
        }
        ScreenCommand::Stay
    }

    /// The screen takes no input but the dial's.
    pub fn iced_input(&mut self, msg: Message) -> (command: ScreenCommand)
        ensures
            final(self)@ == old(self)@,
            command == ScreenCommand::Stay,
    {
        ScreenCommand::Stay
    }

    /// Nothing to acquire.
    pub fn show(&mut self)
        ensures
            final(self)@ == old(self)@,
    {
    }

    /// Nothing to release.
    pub fn dismiss(&mut self)
        ensures
            final(self)@ == old(self)@,
    {
    }

    /// The dial turns freely while a picture is shown.
    pub fn arc_settings(&self) -> (settings: Option<ArcSettings>)
        ensures
            settings == Some(ArcSettings { divisions: 0 }),
    {
        Some(ArcSettings { divisions: 0 })
    }

    pub fn title(&self) -> (text: &String)
        ensures
            text@ == self@.0,
    {
        &self.title
    }

    pub fn path(&self) -> (text: &String)
        ensures
            text@ == self@.1,
    {
        &self.path
    }
}

} // verus!
