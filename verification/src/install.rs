//! Installing the pending update: what is decided before the download starts
//! and after it ends, and the byte count kept while it streams.

use vstd::prelude::*;
use crate::error::CommandError;
use crate::pending::PendingUpdate;

verus! {

/// What an install gets out of a slot: the handle it held, or the refusal
/// that an empty slot stands for.
pub open spec fn install_claim<H>(slot: Option<H>) -> Result<H, CommandError> {
    match slot {
        Some(handle) => Ok(handle),
        None => Err(CommandError::NoPendingUpdate),
    }
}

/// The slot once an install has claimed from it: empty, whatever it held and
/// however the install ends.
pub open spec fn slot_after_install<H>(slot: Option<H>) -> Option<H> {
    None
}

/// What the command answers once the update service has reported how the
/// download and install went.
pub open spec fn install_reply(installed: Result<(), String>) -> Result<(), CommandError> {
    match installed {
        Ok(done) => Ok(done),
        Err(failure) => Err(CommandError::Updater(failure)),
    }
}

/// First half of an install: claims the pending update.
///
/// With an empty slot the answer is `NoPendingUpdate`, and since no handle is
/// handed out there is nothing the caller could download. Otherwise the caller
/// gets the handle to download and install. Either way the slot is empty
/// afterwards: a failed install does not put the update back.
pub fn begin_install<H>(pending: &mut PendingUpdate<H>) -> (claim: Result<H, CommandError>)
    ensures
        claim == install_claim(old(pending)@),
        old(pending)@ is None ==> claim == Err::<H, CommandError>(CommandError::NoPendingUpdate),
        final(pending)@ == slot_after_install(old(pending)@),
        final(pending)@ is None,
{
    match pending.take() {
        Some(handle) => Ok(handle),
        None => Err(CommandError::NoPendingUpdate),
    }
}

/// Second half of an install: turns the update service's report into the
/// command's answer. A failure keeps the service's text.
pub fn complete_install(installed: Result<(), String>) -> (reply: Result<(), CommandError>)
    ensures
        reply == install_reply(installed),
{
    match installed {
        Ok(done) => Ok(done),
        Err(failure) => Err(CommandError::Updater(failure)),
    }
}

/// What a progress sink is told for one received chunk.
#[derive(Clone, Copy, Debug, PartialEq, Eq)]
pub struct ProgressReport {
    /// Bytes received so far, this chunk included.
    pub downloaded: usize,
    /// Size of the whole artifact, where the server announced it.
    pub content_length: Option<u64>,
}

/// Running count of the bytes one download has received.
#[derive(Debug)]
pub struct DownloadProgress {
    downloaded: usize,
}

impl View for DownloadProgress {
    type V = nat;

    closed spec fn view(&self) -> nat {
        self.downloaded as nat
    }
}

impl DownloadProgress {
    /// The count before the first chunk.
    pub fn new() -> (progress: Self)
        ensures
            progress@ == 0,
    {
        DownloadProgress { downloaded: 0 }
    }

    /// Bytes received so far.
    pub fn downloaded(&self) -> (bytes: usize)
        ensures
            bytes == self@,
    {
        self.downloaded
    }

    /// Whether one more chunk of `chunk_length` bytes keeps the count
    /// representable.
    pub fn has_room_for(&self, chunk_length: usize) -> (fits: bool)
        ensures
            fits == (self@ + chunk_length <= usize::MAX),
    {
        chunk_length <= usize::MAX - self.downloaded
    }

    /// Counts one received chunk and says what to report for it.
    pub fn record_chunk(&mut self, chunk_length: usize, content_length: Option<u64>) -> (report:
        ProgressReport)
        requires
            old(self)@ + chunk_length <= usize::MAX,
        ensures
            final(self)@ == old(self)@ + chunk_length,
            report.downloaded == final(self)@,
            report.content_length == content_length,
    {
        self.downloaded = self.downloaded + chunk_length;
        ProgressReport { downloaded: self.downloaded, content_length }
    }
}

} // verus!
