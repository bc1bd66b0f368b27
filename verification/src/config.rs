//! What the session reads of the configuration: the pool of videos, the
//! number of trial blocks, and the entry of each participant.

use vstd::prelude::*;
use vstd::string::*;
use crate::views::ConfigurationPayload;

verus! {

/// What the configuration says of one participant.
#[derive(Debug)]
pub struct ParticipantConfig {
    /// Whether the rating scales are mirrored for this participant.
    pub counterbalance: bool,
    /// The tag of the experimental condition.
    pub condition: String,
}

impl ConfigurationPayload for ParticipantConfig {
}

/// The entry of the participant `id`.
#[derive(Debug)]
pub struct ParticipantEntry {
    pub id: usize,
    pub config: ParticipantConfig,
}

/// The mathematical content of the entry of a participant.
pub struct ParticipantText {
    pub id: usize,
    pub counterbalance: bool,
    pub condition: Seq<char>,
}

impl View for ParticipantEntry {
    type V = ParticipantText;

    open spec fn view(&self) -> ParticipantText {
        ParticipantText {
            id: self.id,
            counterbalance: self.config.counterbalance,
            condition: self.config.condition@,
        }
    }
}

/// The contents of `entries`.
pub open spec fn entry_texts(entries: Seq<ParticipantEntry>) -> Seq<ParticipantText> {
    entries.map_values(|entry: ParticipantEntry| entry@)
}

/// The participant of the running session.
#[derive(Debug)]
pub struct ParticipantData {
    pub id: usize,
    pub data: ParticipantConfig,
}

/// Why a configuration cannot be used.
#[derive(Clone, Copy, PartialEq, Eq, Debug, Structural)]
pub enum ConfigError {
    /// The number of trial blocks is zero.
    NoTrials,
    /// There are fewer videos than trial blocks.
    TooFewVideos,
}

/// A configuration that a session can run on: it has at least one trial
/// block and a video for each.
pub struct Configuration {
    video_ids: Vec<u32>,
    num_videos: usize,
    participants: Vec<ParticipantEntry>,
}

/// The mathematical content of a configuration.
pub struct ConfigurationText {
    pub video_ids: Seq<u32>,
    pub num_videos: usize,
    pub participants: Seq<ParticipantText>,
}

impl ConfigurationText {
    /// Whether a session can run on it.
    pub open spec fn valid(self) -> bool {
        0 < self.num_videos <= self.video_ids.len()
    }

    /// The position of the first entry with the id `id` from position `from`
    /// on, if there is one.
    pub open spec fn position_from(self, id: usize, from: int) -> Option<int>
        decreases self.participants.len() - from,
    {
        if from < 0 || from >= self.participants.len() {
            None
        } else if self.participants[from].id == id {
            Some(from)
        } else {
            self.position_from(id, from + 1)
        }
    }

    /// The entry of the participant `id`: the first with that id.
    pub open spec fn entry(self, id: usize) -> Option<ParticipantText> {
        match self.position_from(id, 0) {
            Some(k) => Some(self.participants[k]),
            None => None,
        }
    }
}

impl View for Configuration {
    type V = ConfigurationText;

    closed spec fn view(&self) -> ConfigurationText {
        ConfigurationText {
            video_ids: self.video_ids@,
            num_videos: self.num_videos,
            participants: entry_texts(self.participants@),
        }
    }
}

impl Configuration {
    #[verifier::type_invariant]
    closed spec fn inv(&self) -> bool {
        self@.valid()
    }

    /// The configuration with the pool `video_ids`, `num_videos` trial blocks
    /// and the entries `participants`, if a session can run on it.
    pub fn new(video_ids: Vec<u32>, num_videos: usize, participants: Vec<ParticipantEntry>) -> (result:
        Result<Configuration, ConfigError>)
        ensures
            num_videos == 0 <==> result == Err::<Configuration, ConfigError>(ConfigError::NoTrials),
            num_videos > video_ids.len() <==> result == Err::<Configuration, ConfigError>(
                ConfigError::TooFewVideos,
            ),
            result matches Ok(configuration) ==> configuration@ == (ConfigurationText {
                video_ids: video_ids@,
                num_videos,
                participants: entry_texts(participants@),
            }) && configuration@.valid(),
    {
        if num_videos == 0 {
            Err(ConfigError::NoTrials)
        } else if num_videos > video_ids.len() {
            Err(ConfigError::TooFewVideos)
        } else {
            Ok(Configuration { video_ids, num_videos, participants })
        }
    }

    /// The pool of videos.
    pub fn video_ids(&self) -> (ids: &Vec<u32>)
        ensures
            ids@ == self@.video_ids,
            self@.valid(),
    {
        proof {
            use_type_invariant(self);
        }
        &self.video_ids
    }

    /// The number of trial blocks.
    pub fn num_videos(&self) -> (num: usize)
        ensures
            num == self@.num_videos,
            self@.valid(),
    {
        proof {
            use_type_invariant(self);
        }
        self.num_videos
    }

    /// The entry of the participant `id`, if the configuration has one.
    pub fn participant(&self, id: usize) -> (entry: Option<&ParticipantEntry>)
        ensures
            entry is Some <==> self@.entry(id) is Some,
            entry matches Some(e) ==> e@ == self@.entry(id)->0 && e.id == id,
    {
        let mut i: usize = 0;
        while i < self.participants.len()
            invariant
                i <= self.participants.len(),
                self@.position_from(id, 0) == self@.position_from(id, i as int),
            decreases self.participants.len() - i,
        {
            if self.participants[i].id == id {
                return Some(&self.participants[i]);
            }
            i = i + 1;
        }
        None
    }
}

/// The value of the decimal digit `c`, if it is one.
pub open spec fn digit_value(c: char) -> Option<nat> {
    if c == '0' {
        Some(0)
    } else if c == '1' {
        Some(1)
    } else if c == '2' {
        Some(2)
    } else if c == '3' {
        Some(3)
    } else if c == '4' {
        Some(4)
    } else if c == '5' {
        Some(5)
    } else if c == '6' {
        Some(6)
    } else if c == '7' {
        Some(7)
    } else if c == '8' {
        Some(8)
    } else if c == '9' {
        Some(9)
    } else {
        None
    }
}

/// The number that the decimal digits `digits` write; none if one of them
/// is no decimal digit. The empty sequence writes zero.
pub open spec fn digits_value(digits: Seq<char>) -> Option<nat>
    decreases digits.len(),
{
    if digits.len() == 0 {
        Some(0)
    } else {
        match (digits_value(digits.drop_last()), digit_value(digits.last())) {
            (Some(high), Some(low)) => Some(high * 10 + low),
            _ => None,
        }
    }
}

/// `text` without a leading plus sign.
pub open spec fn unsigned_part(text: Seq<char>) -> Seq<char> {
    if text.len() > 0 && text[0] == '+' {
        text.skip(1)
    } else {
        text
    }
}

/// The participant id that `text` writes: decimal digits, at least one, which
/// a plus sign may precede, for a number that the machine can hold.
pub open spec fn id_of_text(text: Seq<char>) -> Option<usize> {
    let digits = unsigned_part(text);
    match digits_value(digits) {
        Some(value) => if digits.len() > 0 && value <= usize::MAX {
            Some(value as usize)
        } else {
            None
        },
        None => None,
    }
}

/// The decimal digit `c` as a number.
fn digit_of(c: char) -> (digit: Option<usize>)
    ensures
        digit is Some <==> digit_value(c) is Some,
        digit matches Some(d) ==> d == digit_value(c)->0,
{
    if c == '0' {
        Some(0)
    } else if c == '1' {
        Some(1)
    } else if c == '2' {
        Some(2)
    } else if c == '3' {
        Some(3)
    } else if c == '4' {
        Some(4)
    } else if c == '5' {
        Some(5)
    } else if c == '6' {
        Some(6)
    } else if c == '7' {
        Some(7)
    } else if c == '8' {
        Some(8)
    } else if c == '9' {
        Some(9)
    } else {
        None
    }
}

/// The value of digits grows with every digit appended.
proof fn lemma_digits_value_grows(digits: Seq<char>, k: int)
    requires
        0 <= k <= digits.len(),
        digits_value(digits) is Some,
    ensures
        digits_value(digits.take(k)) is Some,
        digits_value(digits.take(k))->0 <= digits_value(digits)->0,
    decreases digits.len() - k,
{
    if k == digits.len() {
        assert(digits.take(k) =~= digits);
    } else {
        lemma_digits_value_grows(digits, k + 1);
        assert(digits.take(k + 1).drop_last() =~= digits.take(k));
    }
}

/// If some prefix of digits holds what is no digit, so does the whole.
proof fn lemma_digits_value_fails(digits: Seq<char>, k: int)
    requires
        0 <= k <= digits.len(),
        digits_value(digits.take(k)) is None,
    ensures
        digits_value(digits) is None,
    decreases digits.len() - k,
{
    if k == digits.len() {
        assert(digits.take(k) =~= digits);
    } else {
        assert(digits.take(k + 1).drop_last() =~= digits.take(k));
        lemma_digits_value_fails(digits, k + 1);
    }
}

/// Reads a participant id from the text that was typed.
pub fn parse_id(text: &str) -> (id: Option<usize>)
    ensures
        id == id_of_text(text@),
{
    let n = text.unicode_len();
    let start: usize = if n > 0 && text.get_char(0) == '+' {
        1
    } else {
        0
    };
    if start == n {
        return None;
    }
    let ghost digits = unsigned_part(text@);
    let mut value: usize = 0;
    let mut i: usize = start;
    while i < n
        invariant
            start <= i <= n,
            n == text@.len(),
            digits == text@.skip(start as int),
            digits == unsigned_part(text@),
            digits.len() == n - start > 0,
            digits_value(digits.take(i - start)) == Some(value as nat),
        decreases n - i,
    {
        let c = text.get_char(i);
        proof {
            assert(digits.take(i - start + 1).drop_last() =~= digits.take(i - start));
            assert(digits.take(i - start + 1).last() == c);
        }
        match digit_of(c) {
            None => {
                proof {
                    assert(digits_value(digits.take(i - start + 1)) is None);
                    lemma_digits_value_fails(digits, i - start + 1);
                }
                return None;
            },
            Some(d) => {
                let next = match value.checked_mul(10) {
                    None => None,
                    Some(tens) => tens.checked_add(d),
                };
                match next {
                    None => {
                        proof {
                            assert(digits_value(digits.take(i - start + 1)) == Some(
                                (value * 10 + d) as nat,
                            ));
                            if digits_value(digits) is Some {
                                lemma_digits_value_grows(digits, i - start + 1);
                            }
                        }
                        return None;
                    },
                    Some(v) => {
                        assert(digits_value(digits.take(i - start + 1)) == Some(v as nat));
                        value = v;
                    },
                }
            },
        }
        i = i + 1;
    }
    assert(digits.take(n - start) =~= digits);
    Some(value)
}

} // verus!
