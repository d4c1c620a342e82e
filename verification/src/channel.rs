//! Release channels and the lowercase tags they are written as.

use vstd::prelude::*;

verus! {

/// A named update track. It decides which builds a check is offered.
#[derive(Clone, Copy, Debug, PartialEq, Eq, Structural)]
pub enum Channel {
    /// The default track.
    Stable,
    Beta,
    Nightly,
}

/// Every channel, in the order in which they are listed to the user.
pub const ALL_AVAILABLE_CHANNELS: [Channel; 3] = [Channel::Stable, Channel::Beta, Channel::Nightly];

/// The channel that `tag` is the tag of, if it is one. Tags are matched
/// letter for letter.
pub open spec fn channel_of_tag(tag: Seq<char>) -> Option<Channel> {
    if tag == "stable"@ {
        Some(Channel::Stable)
    } else if tag == "beta"@ {
        Some(Channel::Beta)
    } else if tag == "nightly"@ {
        Some(Channel::Nightly)
    } else {
        None
    }
}

impl Channel {
    /// The tag of this channel: its name in lowercase letters.
    pub open spec fn tag(self) -> Seq<char> {
        match self {
            Channel::Stable => "stable"@,
            Channel::Beta => "beta"@,
            Channel::Nightly => "nightly"@,
        }
    }

    /// The tag of this channel, as text.
    pub fn as_str(self) -> (text: &'static str)
        ensures
            text@ == self.tag(),
    {
        match self {
            Channel::Stable => "stable",
            Channel::Beta => "beta",
            Channel::Nightly => "nightly",
        }
    }

    /// Reads a channel back from its tag. Anything that is not exactly one of
    /// the three tags is no channel.
    pub fn from_tag(tag: &str) -> (channel: Option<Channel>)
        ensures
            channel == channel_of_tag(tag@),
    {
        if same_text(tag, "stable") {
            Some(Channel::Stable)
        } else if same_text(tag, "beta") {
            Some(Channel::Beta)
        } else if same_text(tag, "nightly") {
            Some(Channel::Nightly)
        } else {
            None
        }
    }
}

/// Whether two texts hold the same characters.
pub fn same_text(left: &str, right: &str) -> (same: bool)
    ensures
        same == (left@ == right@),
{
    let length = right.unicode_len();
    if left.unicode_len() != length {
        return false;
    }
    let mut at: usize = 0;
    while at < length
        invariant
            at <= length,
            length == left@.len(),
            length == right@.len(),
            forall|i: int| 0 <= i < at ==> left@[i] == right@[i],
        decreases length - at,
    {
        if left.get_char(at) != right.get_char(at) {
            return false;
        }
        at = at + 1;
    }
    assert(left@ =~= right@);
    true
}

/// The channels a user can pick from: all three, `Stable` first, whatever is
/// selected at the moment.
pub fn available_channels() -> (channels: Vec<Channel>)
    ensures
        channels@ == seq![Channel::Stable, Channel::Beta, Channel::Nightly],
        channels@ == ALL_AVAILABLE_CHANNELS@,
{
    let mut channels: Vec<Channel> = Vec::new();
    let mut at: usize = 0;
    while at < 3
        invariant
            at <= 3,
            channels@ == ALL_AVAILABLE_CHANNELS@.subrange(0, at as int),
        decreases 3 - at,
    {
        channels.push(ALL_AVAILABLE_CHANNELS[at]);
        at = at + 1;
    }
    channels
}

/// Reading a channel's tag back gives that channel, so no two channels share
/// a tag.
pub proof fn lemma_tag_round_trip(channel: Channel)
    ensures
        channel_of_tag(channel.tag()) == Some(channel),
{
    reveal_strlit("stable");
    reveal_strlit("beta");
    reveal_strlit("nightly");
    assert("stable"@.len() == 6);
    assert("beta"@.len() == 4);
    assert("nightly"@.len() == 7);
}

} // verus!
