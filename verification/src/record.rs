//! The persisted channel record: the channel's tag as a JSON string literal.

use vstd::prelude::*;
use crate::channel::{channel_of_tag, lemma_tag_round_trip, Channel};
use crate::error::{ok_text, CommandError};

verus! {

/// The tags a record may hold, as they are named when a record holds
/// something else.
pub const CHANNEL_TAGS: [&'static str; 3] = ["stable", "beta", "nightly"];

/// Whether a character stands for itself inside a JSON string literal: it is
/// no quote, no backslash and no control character.
pub open spec fn is_plain(c: char) -> bool {
    c != '"' && c != '\\' && c as u32 >= 0x20
}

/// Whether every character of `text` is plain.
pub open spec fn all_plain(text: Seq<char>) -> bool {
    forall|i: int| 0 <= i < text.len() ==> is_plain(#[trigger] text[i])
}

/// `text` between two double quotes.
pub open spec fn quoted(text: Seq<char>) -> Seq<char> {
    seq!['"'] + text + seq!['"']
}

/// What stands between the quotes, where `text` is plain characters between
/// two double quotes and nothing more.
pub open spec fn unquoted(text: Seq<char>) -> Option<Seq<char>> {
    if text.len() >= 2 && text.first() == '"' && text.last() == '"' && all_plain(
        text.subrange(1, text.len() - 1),
    ) {
        Some(text.subrange(1, text.len() - 1))
    } else {
        None
    }
}

/// The string that `serde_json::from_str::<String>` reads out of `text`, or
/// `None` where it refuses the text.
pub uninterp spec fn json_string_value(text: Seq<char>) -> Option<Seq<char>>;

/// The record that stands for `channel`.
pub open spec fn record_text(channel: Channel) -> Seq<char> {
    quoted(channel.tag())
}

/// The channel that a record's text stands for, if it stands for one.
pub open spec fn stored_channel(text: Seq<char>) -> Option<Channel> {
    match json_string_value(text) {
        Some(tag) => channel_of_tag(tag),
        None => None,
    }
}

/// Calls `serde_json::to_string` on a string slice. Writing a string into
/// memory cannot fail, and characters that need no escape are copied as they
/// are between two double quotes; of text with other characters the contract
/// says only that it is written.
#[verifier::external_body]
fn write_json_string(value: &str) -> (written: Result<String, serde_json::Error>)
    ensures
        written is Ok,
        all_plain(value@) ==> ok_text(written) == Some(quoted(value@)),
{
    serde_json::to_string(value)
}

/// Calls `serde_json::from_str` for a `String`. The contract names what the
/// parser gives, and says of one form what that is: plain characters between
/// two double quotes, with nothing before or after, are read as those
/// characters.
#[verifier::external_body]
fn read_json_string(text: &str) -> (read: Result<String, serde_json::Error>)
    ensures
        ok_text(read) == json_string_value(text@),
        unquoted(text@) is Some ==> ok_text(read) == unquoted(text@),
{
    serde_json::from_str::<String>(text)
}

/// Calls `serde::de::Error::unknown_variant` to make the error that the parser
/// itself reports for a tag that names no variant.
#[verifier::external_body]
fn unknown_tag(tag: &str, expected: &'static [&'static str; 3]) -> serde_json::Error {
    <serde_json::Error as serde::de::Error>::unknown_variant(tag, expected)
}

/// No tag holds a character that a JSON string literal has to escape.
pub proof fn lemma_tags_are_plain(channel: Channel)
    ensures
        all_plain(channel.tag()),
        unquoted(record_text(channel)) == Some(channel.tag()),
{
    reveal_strlit("stable");
    reveal_strlit("beta");
    reveal_strlit("nightly");
    let tag = channel.tag();
    let record = record_text(channel);
    assert(all_plain(tag));
    assert(record.subrange(1, record.len() - 1) =~= tag);
}

/// Writes the record that stands for `channel`.
pub fn channel_record(channel: Channel) -> (record: String)
    ensures
        record@ == record_text(channel),
{
    proof {
        lemma_tags_are_plain(channel);
    }
    write_json_string(channel.as_str()).unwrap()
}

/// Reads a channel out of what the JSON parser made of a record.
///
/// A string that is one of the three tags gives its channel. Any other
/// string, and any text that the parser refused, is a `Json` failure.
pub fn channel_from_json(read: Result<String, serde_json::Error>) -> (reply: Result<
    Channel,
    CommandError,
>)
    ensures
        match read {
            Ok(tag) => match channel_of_tag(tag@) {
                Some(channel) => reply == Ok::<Channel, CommandError>(channel),
                None => reply matches Err(CommandError::Json(_)),
            },
            Err(refusal) => reply == Err::<Channel, CommandError>(CommandError::Json(refusal)),
        },
{
    match read {
        Ok(tag) => match Channel::from_tag(tag.as_str()) {
            Some(channel) => Ok(channel),
            None => Err(CommandError::Json(unknown_tag(tag.as_str(), &CHANNEL_TAGS))),
        },
        Err(refusal) => Err(CommandError::Json(refusal)),
    }
}

/// Reads the channel that a record's text stands for.
///
/// The reply is the channel where the text is a JSON string literal that
/// holds a tag, and a `Json` failure for every other text. In particular the
/// record written for a channel is read back as that channel.
pub fn parse_record(text: &str) -> (reply: Result<Channel, CommandError>)
    ensures
        match stored_channel(text@) {
            Some(channel) => reply == Ok::<Channel, CommandError>(channel),
            None => reply matches Err(CommandError::Json(_)),
        },
        forall|channel: Channel|
            text@ == #[trigger] record_text(channel) ==> reply == Ok::<Channel, CommandError>(
                channel,
            ),
{
    let reply = channel_from_json(read_json_string(text));
    proof {
        assert forall|channel: Channel| text@ == #[trigger] record_text(channel) implies reply
            == Ok::<Channel, CommandError>(channel) by {
            lemma_tags_are_plain(channel);
            lemma_tag_round_trip(channel);
        }
    }
    reply
}

} // verus!
