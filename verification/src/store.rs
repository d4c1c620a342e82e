//! The channel the user has selected, kept in memory and mirrored in a
//! persisted record.
//!
//! Reading and writing the record's file is the caller's part: loading takes
//! what the caller read, and saving hands back what the caller is to write.

use vstd::prelude::*;
use crate::channel::Channel;
use crate::error::CommandError;
use crate::record::{channel_record, parse_record, record_text, stored_channel};

verus! {

/// The name of the record's file inside the application's configuration
/// directory.
pub const CHANNEL_FILE_NAME: &'static str = "app-channel";

/// What the caller found where the record is kept: `None` where there is no
/// file, otherwise the file's text or the failure to read it.
pub type StoredRecord = Option<Result<String, std::io::Error>>;

/// The channel that a start with `record` selects: the one the record stands
/// for, and `Stable` where there is no record, where it cannot be read, and
/// where it stands for no channel.
pub open spec fn loaded_channel(record: StoredRecord) -> Channel {
    match record {
        Some(Ok(text)) => match stored_channel(text@) {
            Some(channel) => channel,
            None => Channel::Stable,
        },
        _ => Channel::Stable,
    }
}

/// The selection after `channel` has been set: `channel`, whatever was
/// selected before.
pub open spec fn selection_after_set(before: Channel, channel: Channel) -> Channel {
    channel
}

/// The selected channel.
#[derive(Debug)]
pub struct AppChannel {
    channel: Channel,
}

impl View for AppChannel {
    type V = Channel;

    closed spec fn view(&self) -> Channel {
        self.channel
    }
}

impl AppChannel {
    /// The selection at startup. Loading never fails: whatever is wrong with
    /// the record, the selection falls back to `Stable`.
    pub fn load(record: StoredRecord) -> (loaded: Self)
        ensures
            loaded@ == loaded_channel(record),
            record is None ==> loaded@ == Channel::Stable,
            record matches Some(Err(_)) ==> loaded@ == Channel::Stable,
            record matches Some(Ok(text)) && stored_channel(text@) is None ==> loaded@
                == Channel::Stable,
            forall|channel: Channel|
                record matches Some(Ok(text)) && text@ == #[trigger] record_text(channel)
                    ==> loaded@ == channel,
    {
        let channel = match Self::try_load(record) {
            Ok(channel) => channel,
            Err(_) => Channel::Stable,
        };
        AppChannel { channel }
    }

    /// Reads the selection out of what was found where the record is kept.
    ///
    /// No file means `Stable`. A file that could not be read is an `Io`
    /// failure, and one whose text stands for no channel a `Json` failure.
    pub fn try_load(record: StoredRecord) -> (reply: Result<Channel, CommandError>)
        ensures
            match record {
                None => reply == Ok::<Channel, CommandError>(Channel::Stable),
                Some(Err(failure)) => reply == Err::<Channel, CommandError>(
                    CommandError::Io(failure),
                ),
                Some(Ok(text)) => match stored_channel(text@) {
                    Some(channel) => reply == Ok::<Channel, CommandError>(channel),
                    None => reply matches Err(CommandError::Json(_)),
                },
            },
            forall|channel: Channel|
                record matches Some(Ok(text)) && text@ == #[trigger] record_text(channel)
                    ==> reply == Ok::<Channel, CommandError>(channel),
    {
        match record {
            None => Ok(Channel::Stable),
            Some(Err(failure)) => Err(CommandError::Io(failure)),
            Some(Ok(text)) => parse_record(text.as_str()),
        }
    }

    /// The selection as it is now.
    pub fn get(&self) -> (channel: Channel)
        ensures
            channel == self@,
    {
        self.channel
    }

    /// Selects `channel`.
    pub fn update(&mut self, channel: Channel)
        ensures
            final(self)@ == selection_after_set(old(self)@, channel),
            final(self)@ == channel,
    {
        self.channel = channel;
    }

    /// The record to persist for the selection as it is now.
    pub fn record(&self) -> (record: String)
        ensures
            record@ == record_text(self@),
    {
        channel_record(self.channel)
    }
}

/// Selects `channel` and hands back the record to persist for it. Whether
/// the caller manages to write the record does not touch the selection.
pub fn set_channel(app_channel: &mut AppChannel, channel: Channel) -> (record: String)
    ensures
        final(app_channel)@ == selection_after_set(old(app_channel)@, channel),
        final(app_channel)@ == channel,
        record@ == record_text(channel),
{
    app_channel.update(channel);
    app_channel.record()
}

/// The selection as it is now.
pub fn get_channel(app_channel: &AppChannel) -> (channel: Channel)
    ensures
        channel == app_channel@,
{
    app_channel.get()
}

} // verus!
