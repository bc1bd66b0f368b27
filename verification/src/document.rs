//! Reading a configuration from YAML text, as the yaml-rust crate parses it.
//!
//! The document is a table. Under `videos`, `ids` lists the numbers of the
//! video folders and `num` gives the number of trial blocks. Under
//! `participants` stand the entries of the participants, as a list, where
//! the position is the id, or as a table with the ids as keys. An entry says
//! whether the scales are mirrored (`counterbalance`) and names the
//! `condition`. A document that lacks one of these is refused.

use vstd::prelude::*;
use vstd::string::*;
use yaml_rust::scanner::ScanError;
use yaml_rust::{Yaml, YamlLoader};
use crate::config::{
    entry_texts,
    ConfigError,
    Configuration,
    ConfigurationText,
    ParticipantConfig,
    ParticipantEntry,
    ParticipantText,
};

verus! {

/// A node of a YAML document, of the yaml-rust crate.
#[verifier::external_type_specification]
#[verifier::external_body]
pub struct ExYaml(Yaml);

/// The error of the yaml-rust crate for text that is no YAML.
#[verifier::external_type_specification]
#[verifier::external_body]
pub struct ExScanError(ScanError);

/// What a node holds.
pub enum NodeText {
    Integer(i64),
    Boolean(bool),
    Text(Seq<char>),
    /// A list, with its items in order.
    Items(Seq<Yaml>),
    /// A table, with its keys and values in the order of the document.
    Entries(Seq<(Yaml, Yaml)>),
    /// What a reading of something absent gives.
    Bad,
    /// Anything else: a real number, an alias, nothing.
    Other,
}

/// What `node` holds.
pub uninterp spec fn content(node: Yaml) -> NodeText;

/// The documents that `text` holds, if it is YAML.
pub uninterp spec fn documents(text: Seq<char>) -> Option<Seq<Yaml>>;

/// The position of the first of `entries` from `from` on whose key is the
/// text `key`, if there is one.
pub open spec fn position_of_key(entries: Seq<(Yaml, Yaml)>, key: Seq<char>, from: int) -> Option<
    int,
>
    decreases entries.len() - from,
{
    if from < 0 || from >= entries.len() {
        None
    } else if content(entries[from].0) == NodeText::Text(key) {
        Some(from)
    } else {
        position_of_key(entries, key, from + 1)
    }
}

/// What stands under the text `key` in a node that holds `node`: the value
/// of that key in a table, and the bad node in every other case.
pub open spec fn member_of(node: NodeText, key: Seq<char>) -> NodeText {
    match node {
        NodeText::Entries(entries) => match position_of_key(entries, key, 0) {
            Some(k) => content(entries[k].1),
            None => NodeText::Bad,
        },
        _ => NodeText::Bad,
    }
}

/// `YamlLoader::load_from_str` of the yaml-rust crate. Claimed: whether the
/// text is YAML, and the documents it then holds, depend on the text alone;
/// they are named, not spelled out.
#[verifier::external_body]
fn load_documents(text: &str) -> (result: Result<Vec<Yaml>, ScanError>)
    ensures
        result matches Ok(nodes) ==> documents(text@) == Some(nodes@),
        result is Err ==> documents(text@) is None,
{
    YamlLoader::load_from_str(text)
}

/// Indexing a node of the yaml-rust crate by a text. Claimed: in a table the
/// result is the value of the key that is this text, and in every other case
/// the bad node.
#[verifier::external_body]
fn member<'a>(node: &'a Yaml, key: &str) -> (found: &'a Yaml)
    ensures
        content(*found) == member_of(content(*node), key@),
{
    &node[key]
}

/// `Yaml::is_badvalue` of the yaml-rust crate. Claimed: true exactly of the
/// bad node.
#[verifier::external_body]
fn is_badvalue(node: &Yaml) -> (bad: bool)
    ensures
        bad == (content(*node) is Bad),
{
    node.is_badvalue()
}

/// `Yaml::as_i64` of the yaml-rust crate. Claimed: the integer of a node
/// that holds one, and nothing for every other node.
#[verifier::external_body]
fn as_i64(node: &Yaml) -> (value: Option<i64>)
    ensures
        value == (match content(*node) {
            NodeText::Integer(i) => Some(i),
            _ => None,
        }),
{
    node.as_i64()
}

/// `Yaml::as_bool` of the yaml-rust crate. Claimed: the truth value of a
/// node that holds one, and nothing for every other node.
#[verifier::external_body]
fn as_bool(node: &Yaml) -> (value: Option<bool>)
    ensures
        value == (match content(*node) {
            NodeText::Boolean(b) => Some(b),
            _ => None,
        }),
{
    node.as_bool()
}

/// `Yaml::as_str` of the yaml-rust crate. Claimed: the text of a node that
/// holds one, and nothing for every other node.
#[verifier::external_body]
fn as_str<'a>(node: &'a Yaml) -> (value: Option<&'a str>)
    ensures
        value matches Some(text) ==> content(*node) == NodeText::Text(text@),
        value is None ==> !(content(*node) is Text),
{
    node.as_str()
}

/// `Yaml::as_vec` of the yaml-rust crate. Claimed: the items of a node that
/// holds a list, and nothing for every other node.
#[verifier::external_body]
fn as_vec<'a>(node: &'a Yaml) -> (value: Option<&'a Vec<Yaml>>)
    ensures
        value matches Some(items) ==> content(*node) == NodeText::Items(items@),
        value is None ==> !(content(*node) is Items),
{
    node.as_vec()
}

/// `Yaml::as_hash` of the yaml-rust crate, with the table's keys and values
/// handed out in the order of the table. Claimed: the keys and values of a
/// node that holds a table, and nothing for every other node.
#[verifier::external_body]
fn as_entries(node: &Yaml) -> (value: Option<Vec<(Yaml, Yaml)>>)
    ensures
        value matches Some(entries) ==> content(*node) == NodeText::Entries(entries@),
        value is None ==> !(content(*node) is Entries),
{
    node.as_hash().map(|table| table.clone().into_iter().collect())
}

/// Why no configuration could be read.
#[derive(Clone, Copy, PartialEq, Eq, Debug, Structural)]
pub enum LoadError {
    /// The text is no YAML.
    Syntax,
    /// The text holds no document.
    Empty,
    /// `videos.ids` is missing or is not a list of numbers of video folders.
    VideoIds,
    /// `videos.num` is missing or is not a number of trial blocks.
    VideoNumber,
    /// `participants` is missing or is neither a list nor a table.
    Participants,
    /// The entry of the participant with this id lacks the truth value
    /// `counterbalance` or the text `condition`.
    Participant(usize),
    /// The number of trial blocks is zero.
    NoTrials,
    /// There are fewer videos than trial blocks.
    TooFewVideos,
}

/// The number of a video folder that a node with the content `node` gives.
pub open spec fn video_id(node: NodeText) -> Option<u32> {
    match node {
        NodeText::Integer(i) => if 0 <= i <= u32::MAX {
            Some(i as u32)
        } else {
            None
        },
        _ => None,
    }
}

/// The numbers that the first `n` of `items` give, if each gives one.
pub open spec fn video_ids_from(items: Seq<Yaml>, n: nat) -> Option<Seq<u32>>
    decreases n,
{
    if n == 0 {
        Some(Seq::empty())
    } else {
        match (video_ids_from(items, (n - 1) as nat), video_id(content(items[n - 1]))) {
            (Some(ids), Some(id)) => Some(ids.push(id)),
            _ => None,
        }
    }
}

/// The pool of videos that a document with the content `document`
/// configures: the numbers under `videos.ids`.
pub open spec fn configured_ids(document: NodeText) -> Result<Seq<u32>, LoadError> {
    match member_of(member_of(document, "videos"@), "ids"@) {
        NodeText::Items(items) => match video_ids_from(items, items.len()) {
            Some(ids) => Ok(ids),
            None => Err(LoadError::VideoIds),
        },
        _ => Err(LoadError::VideoIds),
    }
}

/// The number of trial blocks that a document with the content `document`
/// configures: the number under `videos.num`.
pub open spec fn configured_number(document: NodeText) -> Result<usize, LoadError> {
    match member_of(member_of(document, "videos"@), "num"@) {
        NodeText::Integer(i) => if 0 <= i <= usize::MAX {
            Ok(i as usize)
        } else {
            Err(LoadError::VideoNumber)
        },
        _ => Err(LoadError::VideoNumber),
    }
}

/// The entry of the participant `id` that a node with the content `node`
/// gives, if it has what an entry needs.
pub open spec fn entry_from(id: usize, node: NodeText) -> Option<ParticipantText> {
    match (member_of(node, "counterbalance"@), member_of(node, "condition"@)) {
        (NodeText::Boolean(counterbalance), NodeText::Text(condition)) => Some(
            ParticipantText { id, counterbalance, condition },
        ),
        _ => None,
    }
}

/// The entries that the first `n` items of a list of participants give. The
/// position of an item is the id; bad items are passed over.
pub open spec fn listed_entries(items: Seq<Yaml>, n: nat) -> Result<Seq<ParticipantText>, LoadError>
    decreases n,
{
    if n == 0 {
        Ok(Seq::empty())
    } else {
        match listed_entries(items, (n - 1) as nat) {
            Err(e) => Err(e),
            Ok(found) => if content(items[n - 1]) is Bad {
                Ok(found)
            } else {
                match entry_from((n - 1) as usize, content(items[n - 1])) {
                    Some(entry) => Ok(found.push(entry)),
                    None => Err(LoadError::Participant((n - 1) as usize)),
                }
            },
        }
    }
}

/// The id that a key with the content `key` gives in a table of
/// participants.
pub open spec fn key_id(key: NodeText) -> Option<usize> {
    match key {
        NodeText::Integer(i) => if 0 <= i <= usize::MAX {
            Some(i as usize)
        } else {
            None
        },
        _ => None,
    }
}

/// The entries that the first `n` keys of a table of participants give. Keys
/// that give no id and bad values are passed over.
pub open spec fn keyed_entries(entries: Seq<(Yaml, Yaml)>, n: nat) -> Result<
    Seq<ParticipantText>,
    LoadError,
>
    decreases n,
{
    if n == 0 {
        Ok(Seq::empty())
    } else {
        match keyed_entries(entries, (n - 1) as nat) {
            Err(e) => Err(e),
            Ok(found) => match key_id(content(entries[n - 1].0)) {
                None => Ok(found),
                Some(id) => if content(entries[n - 1].1) is Bad {
                    Ok(found)
                } else {
                    match entry_from(id, content(entries[n - 1].1)) {
                        Some(entry) => Ok(found.push(entry)),
                        None => Err(LoadError::Participant(id)),
                    }
                },
            },
        }
    }
}

/// The entries of the participants that a document with the content
/// `document` configures.
pub open spec fn configured_participants(document: NodeText) -> Result<
    Seq<ParticipantText>,
    LoadError,
> {
    match member_of(document, "participants"@) {
        NodeText::Items(items) => listed_entries(items, items.len()),
        NodeText::Entries(entries) => keyed_entries(entries, entries.len()),
        _ => Err(LoadError::Participants),
    }
}

/// The configuration that a document with the content `document` gives, or
/// the first thing that is wrong with it.
pub open spec fn configured(document: NodeText) -> Result<ConfigurationText, LoadError> {
    match configured_ids(document) {
        Err(e) => Err(e),
        Ok(video_ids) => match configured_number(document) {
            Err(e) => Err(e),
            Ok(num_videos) => match configured_participants(document) {
                Err(e) => Err(e),
                Ok(participants) => if num_videos == 0 {
                    Err(LoadError::NoTrials)
                } else if num_videos > video_ids.len() {
                    Err(LoadError::TooFewVideos)
                } else {
                    Ok(ConfigurationText { video_ids, num_videos, participants })
                },
            },
        },
    }
}

/// The configuration that the text `text` gives: that of its first
/// document.
pub open spec fn loaded(text: Seq<char>) -> Result<ConfigurationText, LoadError> {
    match documents(text) {
        None => Err(LoadError::Syntax),
        Some(nodes) => if nodes.len() == 0 {
            Err(LoadError::Empty)
        } else {
            configured(content(nodes[0]))
        },
    }
}

/// Whether `result` is a configuration with the content that `expected`
/// gives, or the same error.
pub open spec fn agrees(
    result: Result<Configuration, LoadError>,
    expected: Result<ConfigurationText, LoadError>,
) -> bool {
    match (result, expected) {
        (Ok(configuration), Ok(text)) => configuration@ == text,
        (Err(found), Err(wanted)) => found == wanted,
        _ => false,
    }
}

/// Reads the pool of videos.
fn read_video_ids(document: &Yaml) -> (result: Result<Vec<u32>, LoadError>)
    ensures
        result matches Ok(ids) ==> configured_ids(content(*document)) == Ok::<Seq<u32>, LoadError>(
            ids@,
        ),
        result matches Err(e) ==> configured_ids(content(*document)) == Err::<Seq<u32>, LoadError>(
            e,
        ),
{
    let node = member(member(document, "videos"), "ids");
    match as_vec(node) {
        None => Err(LoadError::VideoIds),
        Some(items) => {
            let mut ids: Vec<u32> = Vec::new();
            let mut i: usize = 0;
            while i < items.len()
                invariant
                    i <= items.len(),
                    video_ids_from(items@, i as nat) == Some(ids@),
                    member_of(member_of(content(*document), "videos"@), "ids"@)
                        == NodeText::Items(items@),
                decreases items.len() - i,
            {
                match as_i64(&items[i]) {
                    Some(id) => {
                        if 0 <= id && id <= 4294967295 {
                            ids.push(id as u32);
                        } else {
                            proof {
                                lemma_video_ids_fail(items@, i as nat + 1, items@.len());
                            }
                            return Err(LoadError::VideoIds);
                        }
                    },
                    None => {
                        proof {
                            lemma_video_ids_fail(items@, i as nat + 1, items@.len());
                        }
                        return Err(LoadError::VideoIds);
                    },
                }
                i = i + 1;
            }
            Ok(ids)
        },
    }
}

/// Once some items give no numbers, more items give none either.
proof fn lemma_video_ids_fail(items: Seq<Yaml>, n: nat, m: nat)
    requires
        n <= m,
        video_ids_from(items, n) is None,
    ensures
        video_ids_from(items, m) is None,
    decreases m,
{
    if n < m {
        lemma_video_ids_fail(items, n, (m - 1) as nat);
    }
}

/// Reads the number of trial blocks.
fn read_number(document: &Yaml) -> (result: Result<usize, LoadError>)
    ensures
        result matches Ok(num) ==> configured_number(content(*document)) == Ok::<usize, LoadError>(
            num,
        ),
        result matches Err(e) ==> configured_number(content(*document)) == Err::<usize, LoadError>(
            e,
        ),
{
    let node = member(member(document, "videos"), "num");
    match as_i64(node) {
        Some(num) => {
            if 0 <= num && num as u64 <= usize::MAX as u64 {
                Ok(num as usize)
            } else {
                Err(LoadError::VideoNumber)
            }
        },
        None => Err(LoadError::VideoNumber),
    }
}

/// Reads the entry of the participant `id`.
fn read_entry(id: usize, node: &Yaml) -> (entry: Option<ParticipantEntry>)
    ensures
        entry is Some <==> entry_from(id, content(*node)) is Some,
        entry matches Some(e) ==> e@ == entry_from(id, content(*node))->0,
{
    match as_bool(member(node, "counterbalance")) {
        None => None,
        Some(counterbalance) => match as_str(member(node, "condition")) {
            None => None,
            Some(condition) => Some(
                ParticipantEntry {
                    id,
                    config: ParticipantConfig {
                        counterbalance,
                        condition: String::from_str(condition),
                    },
                },
            ),
        },
    }
}

/// Once some items give an error, more items give the same.
proof fn lemma_listed_fail(items: Seq<Yaml>, n: nat, m: nat)
    requires
        n <= m,
        listed_entries(items, n) is Err,
    ensures
        listed_entries(items, m) == listed_entries(items, n),
    decreases m,
{
    if n < m {
        lemma_listed_fail(items, n, (m - 1) as nat);
    }
}

/// Once some keys give an error, more keys give the same.
proof fn lemma_keyed_fail(entries: Seq<(Yaml, Yaml)>, n: nat, m: nat)
    requires
        n <= m,
        keyed_entries(entries, n) is Err,
    ensures
        keyed_entries(entries, m) == keyed_entries(entries, n),
    decreases m,
{
    if n < m {
        lemma_keyed_fail(entries, n, (m - 1) as nat);
    }
}

/// Reads the entries of a list of participants.
fn read_listed(items: &Vec<Yaml>) -> (result: Result<Vec<ParticipantEntry>, LoadError>)
    ensures
        result matches Ok(found) ==> listed_entries(items@, items@.len()) == Ok::<
            Seq<ParticipantText>,
            LoadError,
        >(entry_texts(found@)),
        result matches Err(e) ==> listed_entries(items@, items@.len()) == Err::<
            Seq<ParticipantText>,
            LoadError,
        >(e),
{
    let mut found: Vec<ParticipantEntry> = Vec::new();
    let mut i: usize = 0;
    assert(entry_texts(found@) =~= Seq::<ParticipantText>::empty());
    while i < items.len()
        invariant
            i <= items.len(),
            listed_entries(items@, i as nat) == Ok::<Seq<ParticipantText>, LoadError>(
                entry_texts(found@),
            ),
        decreases items.len() - i,
    {
        if !is_badvalue(&items[i]) {
            match read_entry(i, &items[i]) {
                Some(entry) => {
                    let ghost before = entry_texts(found@);
                    found.push(entry);
                    assert(entry_texts(found@) =~= before.push(entry@));
                },
                None => {
                    proof {
                        lemma_listed_fail(items@, i as nat + 1, items@.len());
                    }
                    return Err(LoadError::Participant(i));
                },
            }
        }
        i = i + 1;
    }
    Ok(found)
}

/// Reads the entries of a table of participants.
fn read_keyed(entries: &Vec<(Yaml, Yaml)>) -> (result: Result<Vec<ParticipantEntry>, LoadError>)
    ensures
        result matches Ok(found) ==> keyed_entries(entries@, entries@.len()) == Ok::<
            Seq<ParticipantText>,
            LoadError,
        >(entry_texts(found@)),
        result matches Err(e) ==> keyed_entries(entries@, entries@.len()) == Err::<
            Seq<ParticipantText>,
            LoadError,
        >(e),
{
    let mut found: Vec<ParticipantEntry> = Vec::new();
    let mut i: usize = 0;
    assert(entry_texts(found@) =~= Seq::<ParticipantText>::empty());
    while i < entries.len()
        invariant
            i <= entries.len(),
            keyed_entries(entries@, i as nat) == Ok::<Seq<ParticipantText>, LoadError>(
                entry_texts(found@),
            ),
        decreases entries.len() - i,
    {
        match as_i64(&entries[i].0) {
            Some(key) => {
                if 0 <= key && key as u64 <= usize::MAX as u64 && !is_badvalue(&entries[i].1) {
                    match read_entry(key as usize, &entries[i].1) {
                        Some(entry) => {
                            let ghost before = entry_texts(found@);
                            found.push(entry);
                            assert(entry_texts(found@) =~= before.push(entry@));
                        },
                        None => {
                            proof {
                                lemma_keyed_fail(entries@, i as nat + 1, entries@.len());
                            }
                            return Err(LoadError::Participant(key as usize));
                        },
                    }
                }
            },
            None => {},
        }
        i = i + 1;
    }
    Ok(found)
}

/// Reads the entries of the participants.
fn read_participants(document: &Yaml) -> (result: Result<Vec<ParticipantEntry>, LoadError>)
    ensures
        result matches Ok(found) ==> configured_participants(content(*document)) == Ok::<
            Seq<ParticipantText>,
            LoadError,
        >(entry_texts(found@)),
        result matches Err(e) ==> configured_participants(content(*document)) == Err::<
            Seq<ParticipantText>,
            LoadError,
        >(e),
{
    let node = member(document, "participants");
    match as_vec(node) {
        Some(items) => read_listed(items),
        None => match as_entries(node) {
            Some(entries) => read_keyed(&entries),
            None => Err(LoadError::Participants),
        },
    }
}

/// Reads the configuration that `document` gives.
pub fn read_configuration(document: &Yaml) -> (result: Result<Configuration, LoadError>)
    ensures
        agrees(result, configured(content(*document))),
        result matches Ok(configuration) ==> configuration@.valid(),
{
    let video_ids = match read_video_ids(document) {
        Ok(ids) => ids,
        Err(e) => {
            return Err(e);
        },
    };
    let num_videos = match read_number(document) {
        Ok(num) => num,
        Err(e) => {
            return Err(e);
        },
    };
    let participants = match read_participants(document) {
        Ok(found) => found,
        Err(e) => {
            return Err(e);
        },
    };
    match Configuration::new(video_ids, num_videos, participants) {
        Ok(configuration) => Ok(configuration),
        Err(ConfigError::NoTrials) => Err(LoadError::NoTrials),
        Err(ConfigError::TooFewVideos) => Err(LoadError::TooFewVideos),
    }
}

/// Reads the configuration that the YAML text `text` gives.
pub fn load_configuration(text: &str) -> (result: Result<Configuration, LoadError>)
    ensures
        agrees(result, loaded(text@)),
        result matches Ok(configuration) ==> configuration@.valid(),
{
    match load_documents(text) {
        Err(_) => Err(LoadError::Syntax),
        Ok(nodes) => {
            if nodes.len() == 0 {
                Err(LoadError::Empty)
            } else {
                read_configuration(&nodes[0])
            }
        },
    }
}

} // verus!
