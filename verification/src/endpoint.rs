//! The version-check endpoint of a channel.
//!
//! The endpoint is a template: the update service puts the install target,
//! the CPU architecture and the running version in place of the three
//! placeholders before it sends the request.

use vstd::prelude::*;
use crate::channel::Channel;
use crate::error::{ok_text, CommandError};

verus! {

/// Where the update service answers version checks, up to the organization.
pub const UPDATE_ROOT: &'static str = "https://cdn.cntest.me/update/";

/// The placeholders that the update service fills in: install target, CPU
/// architecture and running version.
pub const PLACEHOLDERS: &'static str = "/{{target}}-{{arch}}/{{current_version}}";

/// The organization under which builds are published.
pub const ORG_SLUG: &'static str = "testnew";

/// The application whose builds are asked for.
pub const APP_SLUG: &'static str = "release-channels-demo";

/// What a channel adds behind the path: nothing for `Stable`, which is never
/// written into the address, and `?channel=` with the tag for the others.
pub open spec fn query_suffix(channel: Channel) -> Seq<char> {
    match channel {
        Channel::Stable => Seq::empty(),
        _ => "?channel="@ + channel.tag(),
    }
}

/// The part of the template that every channel shares: scheme, host and path.
pub open spec fn template_base() -> Seq<char> {
    UPDATE_ROOT@ + ORG_SLUG@ + "/"@ + APP_SLUG@ + PLACEHOLDERS@
}

/// The text a channel's endpoint is parsed from.
pub open spec fn template_of(channel: Channel) -> Seq<char> {
    template_base() + query_suffix(channel)
}

/// The serialization of the URL that `url::Url::parse` reads out of `text`,
/// or `None` where it refuses the text.
pub uninterp spec fn url_serialization(text: Seq<char>) -> Option<Seq<char>>;

/// A version-check address that the URL parser has accepted, in the form the
/// parser wrote it back.
#[derive(Debug)]
pub struct Endpoint {
    url: String,
}

impl View for Endpoint {
    type V = Seq<char>;

    closed spec fn view(&self) -> Seq<char> {
        self.url@
    }
}

impl Endpoint {
    /// The address as text.
    pub fn as_str(&self) -> (text: &str)
        ensures
            text@ == self@,
    {
        self.url.as_str()
    }
}

/// Calls `url::Url::parse` and hands back the URL's serialization. The
/// contract only names what the parser gives: `Ok` with the serialization
/// of the URL it read, `Err` with its error where it refused.
#[verifier::external_body]
fn parse_url(text: &str) -> (parsed: Result<String, url::ParseError>)
    ensures
        ok_text(parsed) == url_serialization(text@),
{
    url::Url::parse(text).map(String::from)
}

/// Writes the channel's query suffix.
pub fn channel_query(channel: Channel) -> (query: String)
    ensures
        query@ == query_suffix(channel),
{
    match channel {
        Channel::Stable => String::new(),
        _ => {
            let mut query = String::from_str("?channel=");
            query.append(channel.as_str());
            query
        },
    }
}

/// Writes the text a channel's endpoint is parsed from.
pub fn endpoint_template(channel: Channel) -> (template: String)
    ensures
        template@ == template_of(channel),
{
    let query = channel_query(channel);
    let mut template = String::from_str(UPDATE_ROOT);
    template.append(ORG_SLUG);
    template.append("/");
    template.append(APP_SLUG);
    template.append(PLACEHOLDERS);
    template.append(query.as_str());
    template
}

/// Turns the URL parser's result into the endpoint or the failure to report.
pub fn endpoint_from_parsed(parsed: Result<String, url::ParseError>) -> (reply: Result<
    Endpoint,
    CommandError,
>)
    ensures
        match parsed {
            Ok(url) => reply matches Ok(endpoint) && endpoint@ == url@,
            Err(refusal) => reply == Err::<Endpoint, CommandError>(CommandError::Url(refusal)),
        },
{
    match parsed {
        Ok(url) => Ok(Endpoint { url }),
        Err(refusal) => Err(CommandError::Url(refusal)),
    }
}

/// Builds the version-check endpoint of `channel`.
///
/// The outcome is the URL parser's verdict on the channel's template: the
/// endpoint where it accepts the template, a `Url` failure where it does not.
pub fn build_endpoint(channel: Channel) -> (reply: Result<Endpoint, CommandError>)
    ensures
        match url_serialization(template_of(channel)) {
            Some(url) => reply matches Ok(endpoint) && endpoint@ == url,
            None => reply matches Err(CommandError::Url(_)),
        },
{
    let template = endpoint_template(channel);
    endpoint_from_parsed(parse_url(template.as_str()))
}

/// The query of an address: what follows its first `?`, if it has one.
pub open spec fn query_of(text: Seq<char>) -> Option<Seq<char>>
    decreases text.len(),
{
    if text.len() == 0 {
        None
    } else if text[0] == '?' {
        Some(text.skip(1))
    } else {
        query_of(text.skip(1))
    }
}

/// Whether `needle` stands somewhere in `text`, letter after letter.
pub open spec fn occurs_in(needle: Seq<char>, text: Seq<char>) -> bool {
    exists|at: int|
        0 <= at && at + needle.len() <= text.len() && #[trigger] text.subrange(
            at,
            at + needle.len(),
        ) == needle
}

/// Neither `?` nor `=` stands in the part of the template that the channels
/// share.
proof fn lemma_base_has_no_query()
    ensures
        forall|i: int|
            0 <= i < template_base().len() ==> template_base()[i] != '?' && template_base()[i]
                != '=',
{
    reveal_strlit("https://cdn.cntest.me/update/");
    reveal_strlit("testnew");
    reveal_strlit("/");
    reveal_strlit("release-channels-demo");
    reveal_strlit("/{{target}}-{{arch}}/{{current_version}}");
}

/// A prefix without `?` does not change where the query starts.
proof fn lemma_query_after_plain_prefix(prefix: Seq<char>, rest: Seq<char>)
    requires
        forall|i: int| 0 <= i < prefix.len() ==> prefix[i] != '?',
    ensures
        query_of(prefix + rest) == query_of(rest),
    decreases prefix.len(),
{
    if prefix.len() == 0 {
        assert(prefix + rest =~= rest);
    } else {
        let whole = prefix + rest;
        assert(whole[0] == prefix[0]);
        assert(whole.skip(1) =~= prefix.skip(1) + rest);
        lemma_query_after_plain_prefix(prefix.skip(1), rest);
    }
}

/// The template of `Stable` has no query, and `channel=` stands nowhere in
/// it. The template of each other channel has the query `channel=` with the
/// channel's tag, and nothing else.
pub proof fn lemma_channel_in_query(channel: Channel)
    ensures
        channel == Channel::Stable ==> query_of(template_of(channel)) is None && !occurs_in(
            "channel="@,
            template_of(channel),
        ),
        channel != Channel::Stable ==> query_of(template_of(channel)) == Some(
            "channel="@ + channel.tag(),
        ),
        query_of(template_of(Channel::Beta)) == Some("channel=beta"@),
        query_of(template_of(Channel::Nightly)) == Some("channel=nightly"@),
{
    lemma_base_has_no_query();
    let base = template_base();
    reveal_strlit("?channel=");
    reveal_strlit("channel=");
    reveal_strlit("channel=beta");
    reveal_strlit("channel=nightly");
    reveal_strlit("beta");
    reveal_strlit("nightly");
    assert(template_of(Channel::Stable) =~= base);
    lemma_query_after_plain_prefix(base, Seq::empty());
    assert forall|at: int|
        0 <= at && at + "channel="@.len() <= base.len() implies #[trigger] base.subrange(
        at,
        at + "channel="@.len(),
    ) != "channel="@ by {
        assert(base.subrange(at, at + "channel="@.len())[7] == base[at + 7]);
    }
    lemma_query_after_plain_prefix(base, query_suffix(Channel::Beta));
    lemma_query_after_plain_prefix(base, query_suffix(Channel::Nightly));
    assert(query_suffix(Channel::Beta).skip(1) =~= "channel=beta"@);
    assert(query_suffix(Channel::Nightly).skip(1) =~= "channel=nightly"@);
}

} // verus!
