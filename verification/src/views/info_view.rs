//! A screen that shows a message under a title and waits for the button.

use vstd::prelude::*;
use crate::events::{DialEvent, Message};
use crate::views::rating::is_press;
use crate::views::{ArcSettings, ScreenCommand};

verus! {

pub struct InfoView {
    title: String,
    message: String,
}

impl View for InfoView {
    type V = (Seq<char>, Seq<char>);

    /// The title and the message.
    closed spec fn view(&self) -> (Seq<char>, Seq<char>) {
        (self.title@, self.message@)
    }
}

impl InfoView {
    pub fn new(title: String, message: String) -> (screen: InfoView)
        ensures
            screen@ == (title@, message@),
    {
        InfoView { title, message }
    }

    /// Nothing to reset.
    pub fn init(&mut self)
        ensures
            final(self)@ == old(self)@,
    {
    }

    /// One controller cycle: a press of the button asks for the next screen.
    pub fn update(&mut self, msg: Option<DialEvent>) -> (command: ScreenCommand)
        ensures
            final(self)@ == old(self)@,
            command == if is_press(msg) {
                ScreenCommand::NextScreen(None)
            } else {
                ScreenCommand::Stay
            },
    {
        match msg {
            Some(DialEvent::Button { pressed }) => {
                if pressed {
                    return ScreenCommand::NextScreen(None);
                }
            },
            _ => {},
        }
        ScreenCommand::Stay
    }

    /// The screen takes no input but the dial's.
    pub fn iced_input(&mut self, msg: Message) -> (command: ScreenCommand)
        ensures
            final(self)@ == old(self)@,
            command == ScreenCommand::Stay,
    {
        ScreenCommand::Stay
    }

    /// Nothing to acquire.
    pub fn show(&mut self)
        ensures
            final(self)@ == old(self)@,
    {
    }

    /// Nothing to release.
    pub fn dismiss(&mut self)
        ensures
            final(self)@ == old(self)@,
    {
    }

    /// The dial turns freely while a message is shown.
    pub fn arc_settings(&self) -> (settings: Option<ArcSettings>)
        ensures
            settings == Some(ArcSettings { divisions: 0 }),
    {
        Some(ArcSettings { divisions: 0 })
    }

    pub fn title(&self) -> (text: &String)
        ensures
            text@ == self@.0,
    {
        &self.title
    }

    pub fn message(&self) -> (text: &String)
        ensures
            text@ == self@.1,
    {
        &self.message
    }
}

} // verus!
