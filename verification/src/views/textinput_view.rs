//! A screen with one text field, held to a class of characters.

use vstd::prelude::*;
use vstd::string::*;
use crate::events::{DialEvent, Message};
use crate::text::{all_in_class, text_in_class, CharClass};
use crate::views::participant_id_view::text_taken;
use crate::views::{
    dataset_of,
    ArcSettings,
    Dataset,
    DatasetText,
    ExperimentData,
    Printable,
    ScreenCommand,
};

verus! {

/// What a text field accepts.
#[derive(Clone, Copy, PartialEq, Eq, Debug, Structural)]
pub enum TextInputType {
    Alphanumeric,
    Number,
    Characters,
    All,
}

/// Whether a field of the kind `input_type` accepts `text`: every character
/// must be of the field's class.
pub open spec fn accepts(input_type: TextInputType, text: Seq<char>) -> bool {
    match input_type {
        TextInputType::Alphanumeric => all_in_class(text, CharClass::Alphanumeric),
        TextInputType::Number => all_in_class(text, CharClass::Numeric),
        TextInputType::Characters => all_in_class(text, CharClass::Alphabetic),
        TextInputType::All => true,
    }
}

/// What the screen records.
pub struct TextData {
    pub name: String,
    pub text: String,
}

impl TextData {
    /// The record under `name`, with no text yet.
    pub fn new(name: String) -> (data: TextData)
        ensures
            data.name == name,
            data.text@ == Seq::<char>::empty(),
    {
        TextData { name, text: String::new() }
    }
}

impl Printable for TextData {
    /// The text as it was typed.
    open spec fn csv(&self) -> Seq<char> {
        self.text@
    }

    fn to_csv(&self) -> (text: String) {
        self.text.clone()
    }
}

impl ExperimentData for TextData {
    open spec fn name_text(&self) -> Seq<char> {
        self.name@
    }

    open spec fn headers_text(&self) -> Seq<char> {
        "text"@
    }

    fn name(&self) -> (text: String) {
        self.name.clone()
    }

    fn headers(&self) -> (text: String) {
        String::from_str("text")
    }
}

/// The mathematical state of the screen.
pub struct TextInputState {
    pub input_type: TextInputType,
    pub name: Seq<char>,
    pub title: Seq<char>,
    pub label: Seq<char>,
    pub hint: Seq<char>,
    /// The text in the field, which is also the text recorded.
    pub text: Seq<char>,
}

impl TextInputState {
    /// The dataset of a screen in this state: the text as it was typed.
    pub open spec fn dataset(self) -> DatasetText {
        DatasetText { name: self.name, header: "text"@, rows: self.text }
    }

    /// The state after the message `msg`: a changed text is taken over if
    /// the field accepts it, and refused otherwise.
    pub open spec fn received(self, msg: Message) -> TextInputState {
        match msg {
            Message::TextInputChanged(s) => TextInputState {
                text: text_taken(self.text, s@, accepts(self.input_type, s@)),
                ..self
            },
            _ => self,
        }
    }
}

pub struct TextInputView {
    input_type: TextInputType,
    title: String,
    label: String,
    hint: String,
    data: TextData,
}

impl View for TextInputView {
    type V = TextInputState;

    closed spec fn view(&self) -> TextInputState {
        TextInputState {
            input_type: self.input_type,
            name: self.data.name@,
            title: self.title@,
            label: self.label@,
            hint: self.hint@,
            text: self.data.text@,
        }
    }
}

impl TextInputView {
    /// A screen that asks for a text under `title` and `label` and records it
    /// in the dataset `name`.
    pub fn new(
        input_type: TextInputType,
        name: String,
        title: String,
        label: String,
        hint: String,
    ) -> (screen: TextInputView)
        ensures
            screen@ == (TextInputState {
                input_type,
                name: name@,
                title: title@,
                label: label@,
                hint: hint@,
                text: Seq::empty(),
            }),
    {
        TextInputView { input_type, title, label, hint, data: TextData::new(name) }
    }

    /// Empties the field and the record.
    pub fn init(&mut self)
        ensures
            final(self)@ == (TextInputState { text: Seq::empty(), ..old(self)@ }),
    {
        self.data.text = String::new();
    }

    /// Puts `text` into the field and the record if the field accepted it
    /// (`valid_input`), and leaves both as they are if not.
    pub fn take_text(&mut self, text: String, valid_input: bool)
        ensures
            final(self)@ == (TextInputState {
                text: text_taken(old(self)@.text, text@, valid_input),
                ..old(self)@
            }),
    {
        if valid_input {
            self.data.text = text;
        }
    }

    /// Whether the field accepts `text`.
    pub fn accepts_text(&self, text: &str) -> (valid_input: bool)
        ensures
            valid_input == accepts(self@.input_type, text@),
    {
        match self.input_type {
            TextInputType::Alphanumeric => text_in_class(text, CharClass::Alphanumeric),
            TextInputType::Number => text_in_class(text, CharClass::Numeric),
            TextInputType::Characters => text_in_class(text, CharClass::Alphabetic),
            TextInputType::All => true,
        }
    }

    /// The dial does nothing on this screen.
    pub fn update(&mut self, msg: Option<DialEvent>) -> (command: ScreenCommand)
        ensures
            final(self)@ == old(self)@,
            command == ScreenCommand::Stay,
    {
        ScreenCommand::Stay
    }

    /// Takes over a changed text that the field accepts, and on the button
    /// asks for the next screen.
    pub fn iced_input(&mut self, msg: Message) -> (command: ScreenCommand)
        ensures
            final(self)@ == old(self)@.received(msg),
            command == if msg is ButtonPressed {
                ScreenCommand::NextScreen(None)
            } else {
                ScreenCommand::Stay
            },
    {
        match msg {
            Message::TextInputChanged(s) => {
                let valid_input = self.accepts_text(s.as_str());
                self.take_text(s, valid_input);
            },
            Message::ButtonPressed => {
                return ScreenCommand::NextScreen(None);
            },
            _ => {},
        }
        ScreenCommand::Stay
    }

    /// Nothing to acquire.
    pub fn show(&mut self)
        ensures
            final(self)@ == old(self)@,
    {
    }

    /// Nothing to release.
    pub fn dismiss(&mut self)
        ensures
            final(self)@ == old(self)@,
    {
    }

    /// What has been recorded up to now: the text in the field.
    pub fn data(&self) -> (data: Option<&TextData>)
        ensures
            data matches Some(d) && d.name@ == self@.name && d.text@ == self@.text,
    {
        Some(&self.data)
    }

    /// The dataset of what has been recorded up to now.
    pub fn dataset(&self) -> (set: Dataset)
        ensures
            set@ == self@.dataset(),
    {
        let data = self.data();
        dataset_of(data.unwrap())
    }

    /// The dial stays as it is.
    pub fn arc_settings(&self) -> (settings: Option<ArcSettings>)
        ensures
            settings is None,
    {
        None
    }

    pub fn title(&self) -> (text: &String)
        ensures
            text@ == self@.title,
    {
        &self.title
    }

    pub fn label(&self) -> (text: &String)
        ensures
            text@ == self@.label,
    {
        &self.label
    }

    pub fn hint(&self) -> (text: &String)
        ensures
            text@ == self@.hint,
    {
        &self.hint
    }

    /// The text in the field.
    pub fn text_value(&self) -> (text: &String)
        ensures
            text@ == self@.text,
    {
        &self.data.text
    }
}

} // verus!
