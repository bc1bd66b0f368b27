//! A screen on which one of several labelled choices is selected.

use vstd::prelude::*;
use vstd::string::*;
use crate::events::{DialEvent, Message};
use crate::text::{decimal, push_decimal, replace_commas, without_commas};
use crate::views::{
    dataset_of,
    ArcSettings,
    Dataset,
    DatasetText,
    ExperimentData,
    Printable,
    ScreenCommand,
};

verus! {

/// What the screen records.
pub struct ChoiceData {
    pub name: String,
    pub selection: u32,
    pub label: String,
}

impl ChoiceData {
    /// The record under `name`, with nothing selected yet.
    pub fn new(name: String) -> (data: ChoiceData)
        ensures
            data.name == name,
            data.selection == 0,
            data.label@ == Seq::<char>::empty(),
    {
        ChoiceData { name, selection: 0, label: String::new() }
    }
}

impl Printable for ChoiceData {
    /// The index of the selection and its label.
    open spec fn csv(&self) -> Seq<char> {
        decimal(self.selection as nat) + ", "@ + self.label@
    }

    fn to_csv(&self) -> (text: String) {
        let mut text = String::new();
        push_decimal(&mut text, self.selection as u64);
        text.append(", ");
        text.append(self.label.as_str());
        assert(text@ =~= self.csv());
        text
    }
}

impl ExperimentData for ChoiceData {
    open spec fn name_text(&self) -> Seq<char> {
        self.name@
    }

    open spec fn headers_text(&self) -> Seq<char> {
        "index,label"@
    }

    fn name(&self) -> (text: String) {
        self.name.clone()
    }

    fn headers(&self) -> (text: String) {
        String::from_str("index,label")
    }
}

/// The label recorded for the selection `index`: that of the first of the
/// choices from position `from` on that has this index, its commas replaced;
/// `Unknown` if none has.
pub open spec fn label_from(choices: Seq<(u32, Seq<char>)>, index: u32, from: int) -> Seq<char>
    decreases choices.len() - from,
{
    if from < 0 || from >= choices.len() {
        "Unknown"@
    } else if choices[from].0 == index {
        without_commas(choices[from].1)
    } else {
        label_from(choices, index, from + 1)
    }
}

/// The label recorded for the selection `index` among `choices`.
pub open spec fn label_of(choices: Seq<(u32, Seq<char>)>, index: u32) -> Seq<char> {
    label_from(choices, index, 0)
}

/// The indices and labels of `choices`.
pub open spec fn choice_texts(choices: Seq<(u32, String)>) -> Seq<(u32, Seq<char>)> {
    choices.map_values(|choice: (u32, String)| (choice.0, choice.1@))
}

/// The mathematical state of the screen.
pub struct MultiChoiceState {
    pub name: Seq<char>,
    pub title: Seq<char>,
    pub message: Seq<char>,
    /// The choices on offer, each with its index and its label.
    pub choices: Seq<(u32, Seq<char>)>,
    pub current_choice: Option<u32>,
    /// The index recorded; zero while nothing is selected.
    pub selection: u32,
    /// The label recorded; empty while nothing is selected.
    pub label: Seq<char>,
}

impl MultiChoiceState {
    /// The dataset of a screen in this state: the index of the selection
    /// and its label.
    pub open spec fn dataset(self) -> DatasetText {
        DatasetText {
            name: self.name,
            header: "index,label"@,
            rows: decimal(self.selection as nat) + ", "@ + self.label,
        }
    }

    /// The state after the message `msg`: a selection is recorded with its
    /// label.
    pub open spec fn received(self, msg: Message) -> MultiChoiceState {
        match msg {
            Message::RadioSelected(c) => MultiChoiceState {
                current_choice: Some(c),
                selection: c,
                label: label_of(self.choices, c),
                ..self
            },
            _ => self,
        }
    }

    /// The state with nothing selected.
    pub open spec fn cleared(self) -> MultiChoiceState {
        MultiChoiceState { current_choice: None, selection: 0, label: Seq::empty(), ..self }
    }
}

pub struct MultiChoiceView {
    title: String,
    message: String,
    choices: Vec<(u32, String)>,
    current_choice: Option<u32>,
    data: ChoiceData,
}

impl View for MultiChoiceView {
    type V = MultiChoiceState;

    closed spec fn view(&self) -> MultiChoiceState {
        MultiChoiceState {
            name: self.data.name@,
            title: self.title@,
            message: self.message@,
            choices: choice_texts(self.choices@),
            current_choice: self.current_choice,
            selection: self.data.selection,
            label: self.data.label@,
        }
    }
}

impl MultiChoiceView {
    /// A screen that asks `message` under `title`, offers `choices`, each
    /// with its index, and records the selection in the dataset `name`.
    pub fn new(name: String, title: String, message: String, choices: Vec<(u32, String)>) -> (screen:
        MultiChoiceView)
        ensures
            screen@ == (MultiChoiceState {
                name: name@,
                title: title@,
                message: message@,
                choices: choice_texts(choices@),
                current_choice: None,
                selection: 0,
                label: Seq::empty(),
            }),
    {
        MultiChoiceView { title, message, choices, current_choice: None, data: ChoiceData::new(name) }
    }

    /// Forgets the selection.
    pub fn init(&mut self)
        ensures
            final(self)@ == old(self)@.cleared(),
    {
        self.current_choice = None;
        self.data.selection = 0;
        self.data.label = String::new();
    }

    /// The dial does nothing on this screen.
    pub fn update(&mut self, msg: Option<DialEvent>) -> (command: ScreenCommand)
        ensures
            final(self)@ == old(self)@,
            command == ScreenCommand::Stay,
    {
        ScreenCommand::Stay
    }

    /// Records a selection, and on the button asks for the next screen.
    pub fn iced_input(&mut self, msg: Message) -> (command: ScreenCommand)
        ensures
            final(self)@ == old(self)@.received(msg),
            command == if msg is ButtonPressed {
                ScreenCommand::NextScreen(None)
            } else {
                ScreenCommand::Stay
            },
    {
        match msg {
            Message::RadioSelected(c) => {
                self.current_choice = Some(c);
                self.data.selection = c;
                self.data.label = self.find_label(c);
            },
            Message::ButtonPressed => {
                return ScreenCommand::NextScreen(None);
            },
            _ => {},
        }
        ScreenCommand::Stay
    }

    /// The label to record for the selection `index`.
    fn find_label(&self, index: u32) -> (label: String)
        ensures
            label@ == label_of(choice_texts(self.choices@), index),
    {
        let mut i: usize = 0;
        while i < self.choices.len()
            invariant
                i <= self.choices.len(),
                label_of(choice_texts(self.choices@), index) == label_from(
                    choice_texts(self.choices@),
                    index,
                    i as int,
                ),
            decreases self.choices.len() - i,
        {
            if self.choices[i].0 == index {
                return replace_commas(self.choices[i].1.as_str());
            }
            i = i + 1;
        }
        String::from_str("Unknown")
    }

    /// Nothing to acquire.
    pub fn show(&mut self)
        ensures
            final(self)@ == old(self)@,
    {
    }

    /// Nothing to release.
    pub fn dismiss(&mut self)
        ensures
            final(self)@ == old(self)@,
    {
    }

    /// What has been recorded up to now.
    pub fn data(&self) -> (data: Option<&ChoiceData>)
        ensures
            data matches Some(d) && d.name@ == self@.name && d.selection == self@.selection
                && d.label@ == self@.label,
    {
        Some(&self.data)
    }

    /// The dataset of what has been recorded up to now.
    pub fn dataset(&self) -> (set: Dataset)
        ensures
            set@ == self@.dataset(),
    {
        let data = self.data();
        dataset_of(data.unwrap())
    }

    /// The dial turns freely while choices are shown.
    pub fn arc_settings(&self) -> (settings: Option<ArcSettings>)
        ensures
            settings == Some(ArcSettings { divisions: 0 }),
    {
        Some(ArcSettings { divisions: 0 })
    }

    pub fn title(&self) -> (text: &String)
        ensures
            text@ == self@.title,
    {
        &self.title
    }

    pub fn message(&self) -> (text: &String)
        ensures
            text@ == self@.message,
    {
        &self.message
    }

    pub fn choices(&self) -> (choices: &Vec<(u32, String)>)
        ensures
            choice_texts(choices@) == self@.choices,
    {
        &self.choices
    }

    pub fn current_choice(&self) -> (choice: Option<u32>)
        ensures
            choice == self@.current_choice,
    {
        self.current_choice
    }
}

} // verus!
