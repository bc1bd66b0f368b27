//! The gauge that shows where the dial stands on a scale: its value, its
//! bounds, its labels, and whether it is locked.

use vstd::prelude::*;
use vstd::string::*;

verus! {

/// The mathematical content of a gauge.
pub struct ArcInputText {
    pub value: i32,
    pub min_value: i32,
    pub max_value: i32,
    /// The value from which the arc is filled.
    pub mid_point: i32,
    pub left_label: Seq<char>,
    pub right_label: Seq<char>,
    /// Whether the gauge is shown as locked.
    pub disabled: bool,
}

impl ArcInputText {
    /// The value that is drawn: the value, held within the bounds, the upper
    /// bound first.
    pub open spec fn safe_value(self) -> i32 {
        if self.value > self.max_value {
            self.max_value
        } else if self.value < self.min_value {
            self.min_value
        } else {
            self.value
        }
    }
}

pub struct ArcInput {
    value: i32,
    min_value: i32,
    max_value: i32,
    mid_point: i32,
    left_label: String,
    right_label: String,
    disabled: bool,
}

impl View for ArcInput {
    type V = ArcInputText;

    closed spec fn view(&self) -> ArcInputText {
        ArcInputText {
            value: self.value,
            min_value: self.min_value,
            max_value: self.max_value,
            mid_point: self.mid_point,
            left_label: self.left_label@,
            right_label: self.right_label@,
            disabled: self.disabled,
        }
    }
}

impl ArcInput {
    /// A gauge over `min ..= max` that stands at `initial`, without labels
    /// and not locked.
    pub fn new(min: i32, max: i32, midpoint: i32, initial: i32) -> (gauge: ArcInput)
        ensures
            gauge@ == (ArcInputText {
                value: initial,
                min_value: min,
                max_value: max,
                mid_point: midpoint,
                left_label: Seq::empty(),
                right_label: Seq::empty(),
                disabled: false,
            }),
    {
        ArcInput {
            value: initial,
            min_value: min,
            max_value: max,
            mid_point: midpoint,
            left_label: String::new(),
            right_label: String::new(),
            disabled: false,
        }
    }

    pub fn set_value(&mut self, new_value: i32)
        ensures
            final(self)@ == (ArcInputText { value: new_value, ..old(self)@ }),
    {
        self.value = new_value;
    }

    pub fn set_left_label(&mut self, new_label: String)
        ensures
            final(self)@ == (ArcInputText { left_label: new_label@, ..old(self)@ }),
    {
        self.left_label = new_label;
    }

    pub fn set_right_label(&mut self, new_label: String)
        ensures
            final(self)@ == (ArcInputText { right_label: new_label@, ..old(self)@ }),
    {
        self.right_label = new_label;
    }

    pub fn set_disabled(&mut self, disable: bool)
        ensures
            final(self)@ == (ArcInputText { disabled: disable, ..old(self)@ }),
    {
        self.disabled = disable;
    }

    pub fn is_disabled(&self) -> (disabled: bool)
        ensures
            disabled == self@.disabled,
    {
        self.disabled
    }

    pub fn value(&self) -> (value: i32)
        ensures
            value == self@.value,
    {
        self.value
    }

    /// The value that is drawn: the value, held within the bounds.
    pub fn safe_value(&self) -> (value: i32)
        ensures
            value == self@.safe_value(),
    {
        if self.value > self.max_value {
            self.max_value
        } else if self.value < self.min_value {
            self.min_value
        } else {
            self.value
        }
    }

    pub fn min_value(&self) -> (value: i32)
        ensures
            value == self@.min_value,
    {
        self.min_value
    }

    pub fn max_value(&self) -> (value: i32)
        ensures
            value == self@.max_value,
    {
        self.max_value
    }

    pub fn mid_point(&self) -> (value: i32)
        ensures
            value == self@.mid_point,
    {
        self.mid_point
    }

    pub fn left_label(&self) -> (label: &String)
        ensures
            label@ == self@.left_label,
    {
        &self.left_label
    }

    pub fn right_label(&self) -> (label: &String)
        ensures
            label@ == self@.right_label,
    {
        &self.right_label
    }
}

/// The label of the lie on a scale between lie and truth.
pub const LIE: &'static str = "Lie";

/// The label of the truth on a scale between lie and truth.
pub const TRUTH: &'static str = "Truth";

/// The gauge of a scale between lie and truth: the lie stands on the left
/// and the truth on the right, or the other way round where the scale is
/// mirrored.
pub open spec fn lie_truth_gauge(
    min: i32,
    max: i32,
    value: i32,
    mirrored: bool,
    locked: bool,
) -> ArcInputText {
    ArcInputText {
        value,
        min_value: min,
        max_value: max,
        mid_point: 0,
        left_label: if mirrored {
            TRUTH@
        } else {
            LIE@
        },
        right_label: if mirrored {
            LIE@
        } else {
            TRUTH@
        },
        disabled: locked,
    }
}

/// The gauge of a scale between lie and truth.
pub fn lie_truth_arc(min: i32, max: i32, value: i32, mirrored: bool, locked: bool) -> (gauge:
    ArcInput)
    ensures
        gauge@ == lie_truth_gauge(min, max, value, mirrored, locked),
{
    let mut arc_input = ArcInput::new(min, max, 0, value);
    if mirrored {
        arc_input.set_right_label(String::from_str(LIE));
        arc_input.set_left_label(String::from_str(TRUTH));
    } else {
        arc_input.set_left_label(String::from_str(LIE));
        arc_input.set_right_label(String::from_str(TRUTH));
    }
    arc_input.set_disabled(locked);
    arc_input
}

} // verus!
