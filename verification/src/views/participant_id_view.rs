//! The screen on which the operator types the participant's id.

use vstd::prelude::*;
use vstd::string::*;
use crate::events::{DialEvent, Message};
use crate::text::{all_in_class, text_in_class, CharClass};
use crate::views::{ArcSettings, Payload, ScreenCommand};

verus! {

pub struct ParticipantIdView {
    text_value: String,
}

impl View for ParticipantIdView {
    type V = Seq<char>;

    /// The text typed so far.
    closed spec fn view(&self) -> Seq<char> {
        self.text_value@
    }
}

/// The text of a field that holds `text` after `candidate` was typed:
/// `candidate` if it is accepted, and `text` as before if it is not.
pub open spec fn text_taken(text: Seq<char>, candidate: Seq<char>, accepted: bool) -> Seq<char> {
    if accepted {
        candidate
    } else {
        text
    }
}

/// The text of the field after the message `msg`: a changed text is taken
/// over if all its characters are numeric, and refused otherwise.
pub open spec fn text_after(text: Seq<char>, msg: Message) -> Seq<char> {
    match msg {
        Message::TextInputChanged(s) => text_taken(
            text,
            s@,
            all_in_class(s@, CharClass::Numeric),
        ),
        _ => text,
    }
}

impl ParticipantIdView {
    pub fn new() -> (screen: ParticipantIdView)
        ensures
            screen@ == Seq::<char>::empty(),
    {
        ParticipantIdView { text_value: String::new() }
    }

    /// Empties the field.
    pub fn init(&mut self)
        ensures
            final(self)@ == Seq::<char>::empty(),
    {
        self.text_value = String::new();
    }

    /// Puts `text` into the field if it was accepted (`numeric`), and
    /// leaves the field as it is if not.
    pub fn take_text(&mut self, text: String, numeric: bool)
        ensures
            final(self)@ == text_taken(old(self)@, text@, numeric),
    {
        if numeric {
            self.text_value = text;
        }
    }

    /// The dial does nothing on this screen.
    pub fn update(&mut self, msg: Option<DialEvent>) -> (command: ScreenCommand)
        ensures
            final(self)@ == old(self)@,
            command == ScreenCommand::Stay,
    {
        ScreenCommand::Stay
    }

    /// Takes over a changed text, and on the button hands the text on as the
    /// id of the participant.
    pub fn iced_input(&mut self, msg: Message) -> (command: ScreenCommand)
        ensures
            final(self)@ == text_after(old(self)@, msg),
            msg is ButtonPressed ==> (command matches ScreenCommand::NextScreen(Some(payload))
                && payload.id@ == old(self)@),
            !(msg is ButtonPressed) ==> command == ScreenCommand::Stay,
    {
        match msg {
            Message::TextInputChanged(s) => {
                let numeric = text_in_class(s.as_str(), CharClass::Numeric);
                self.take_text(s, numeric);
            },
            Message::ButtonPressed => {
                return ScreenCommand::NextScreen(Some(Payload { id: self.text_value.clone() }));
            },
            _ => {},
        }
        ScreenCommand::Stay
    }

    /// Nothing to acquire.
    pub fn show(&mut self)
        ensures
            final(self)@ == old(self)@,
    {
    }

    /// Nothing to release.
    pub fn dismiss(&mut self)
        ensures
            final(self)@ == old(self)@,
    {
    }

    /// The dial stays as it is.
    pub fn arc_settings(&self) -> (settings: Option<ArcSettings>)
        ensures
            settings is None,
    {
        None
    }

    /// The text typed so far.
    pub fn text_value(&self) -> (text: &String)
        ensures
            text@ == self@,
    {
        &self.text_value
    }
}

} // verus!
