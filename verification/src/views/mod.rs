//! The screens of a session, and what they share: the command a screen hands
//! back, the dial settings it asks for, and the data it records.

use vstd::prelude::*;
use vstd::string::*;

pub mod arc_dichotomous_view;
pub mod arc_input_video_view;
pub mod arc_question_scale;
pub mod image_view;
pub mod info_view;
pub mod lock_in_video_view;
pub mod multichoice_view;
pub mod participant_id_view;
pub mod rating;
pub mod rows;
pub mod textinput_view;
pub mod video_view;

verus! {

/// What a screen carries along when it asks for the next screen.
#[derive(Debug)]
pub struct Payload {
    /// The participant id as it was typed.
    pub id: String,
}

/// What a screen asks of the session after an event.
#[derive(Debug)]
pub enum ScreenCommand {
    /// Stay on this screen.
    Stay,
    /// Move on to the next screen.
    NextScreen(Option<Payload>),
    /// Move back to the previous screen.
    PreviousScreen,
}

/// The mathematical content of a command.
pub enum CommandText {
    Stay,
    /// Move on, with the participant id that was typed, if the screen gives one.
    NextScreen(Option<Seq<char>>),
    PreviousScreen,
}

impl View for ScreenCommand {
    type V = CommandText;

    open spec fn view(&self) -> CommandText {
        match *self {
            ScreenCommand::Stay => CommandText::Stay,
            ScreenCommand::NextScreen(Some(payload)) => CommandText::NextScreen(Some(payload.id@)),
            ScreenCommand::NextScreen(None) => CommandText::NextScreen(None),
            ScreenCommand::PreviousScreen => CommandText::PreviousScreen,
        }
    }
}

/// The dial settings a screen asks for while it is shown.
#[derive(Clone, Copy, PartialEq, Eq, Debug, Structural)]
pub struct ArcSettings {
    /// Detents per revolution; zero for free rotation.
    pub divisions: u16,
}

/// Marks the per-participant part of the configuration.
pub trait ConfigurationPayload {
}

/// Data that can be written out as rows of comma-separated fields.
pub trait Printable {
    /// The rows, as text.
    spec fn csv(&self) -> Seq<char>;

    /// The rows, as text.
    fn to_csv(&self) -> (text: String)
        ensures
            text@ == self.csv(),
    ;
}

/// The data recorded by one screen.
pub trait ExperimentData: Printable {
    /// The name of the dataset, unique for a participant.
    spec fn name_text(&self) -> Seq<char>;

    /// The row of column names.
    spec fn headers_text(&self) -> Seq<char>;

    /// The name of the dataset, unique for a participant.
    fn name(&self) -> (text: String)
        ensures
            text@ == self.name_text(),
    ;

    /// The row of column names.
    fn headers(&self) -> (text: String)
        ensures
            text@ == self.headers_text(),
    ;
}

/// A finished dataset, ready to be stored under its name.
#[derive(Debug)]
pub struct Dataset {
    pub dataset_name: String,
    pub header_row: String,
    /// The record rows, each ended by a line feed where the screen writes lines.
    pub rows: String,
}

/// The text of a dataset.
pub struct DatasetText {
    pub name: Seq<char>,
    pub header: Seq<char>,
    pub rows: Seq<char>,
}

impl View for Dataset {
    type V = DatasetText;

    open spec fn view(&self) -> DatasetText {
        DatasetText { name: self.dataset_name@, header: self.header_row@, rows: self.rows@ }
    }
}

/// The place of the dataset `dataset_name` of the participant `id`: a file
/// of the dataset's name in the folder of the participant.
pub open spec fn dataset_path(id: usize, dataset_name: Seq<char>) -> Seq<char> {
    crate::text::decimal(id as nat) + "/"@ + dataset_name + ".csv"@
}

/// The place at which the dataset `dataset_name` of the participant `id` is
/// stored.
pub fn file_name(id: usize, dataset_name: &str) -> (path: String)
    ensures
        path@ == dataset_path(id, dataset_name@),
{
    let mut path = String::new();
    crate::text::push_decimal(&mut path, id as u64);
    path.append("/");
    path.append(dataset_name);
    path.append(".csv");
    path
}

/// What is written at the place of a dataset: the header, a line feed, and
/// the rows.
pub open spec fn file_text(dataset: DatasetText) -> Seq<char> {
    dataset.header + "\n"@ + dataset.rows
}

/// What is written at the place of `dataset`.
pub fn file_content(dataset: &Dataset) -> (text: String)
    ensures
        text@ == file_text(dataset@),
{
    let mut text = dataset.header_row.clone();
    text.append("\n");
    text.append(dataset.rows.as_str());
    text
}

/// The dataset that holds the name, the header and the rows of `data`.
pub fn dataset_of<D: ExperimentData>(data: &D) -> (set: Dataset)
    ensures
        set@ == (DatasetText {
            name: data.name_text(),
            header: data.headers_text(),
            rows: data.csv(),
        }),
{
    Dataset { dataset_name: data.name(), header_row: data.headers(), rows: data.to_csv() }
}

} // verus!
