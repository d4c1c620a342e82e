//! Checking for an update: what the check finds, and what finding it does to
//! the pending slot.

use vstd::prelude::*;
use crate::endpoint::{build_endpoint, template_of, url_serialization, Endpoint};
use crate::error::CommandError;
use crate::pending::PendingUpdate;
use crate::store::AppChannel;

verus! {

/// A newer build, as the update service reported it.
#[derive(Debug)]
pub struct AvailableUpdate<H> {
    /// The version on offer.
    pub version: String,
    /// The version that is running.
    pub current_version: String,
    /// The service's handle for downloading and installing the artifact.
    pub handle: H,
}

/// What the user is shown of an available update. Nothing is decided by it.
#[derive(Debug)]
pub struct UpdateMetadata {
    /// The version on offer.
    pub version: String,
    /// The version that is running.
    pub current_version: String,
}

/// How one call to the update service ended: a newer build, none, or the
/// service's account of its failure.
pub type CheckOutcome<H> = Result<Option<AvailableUpdate<H>>, String>;

/// The slot after a check: a newer build takes it over, anything else leaves
/// it as it was.
pub open spec fn slot_after_check<H>(slot: Option<H>, checked: CheckOutcome<H>) -> Option<H> {
    match checked {
        Ok(Some(found)) => Some(found.handle),
        _ => slot,
    }
}

/// What the command answers for a check's outcome.
pub open spec fn check_reply<H>(checked: CheckOutcome<H>) -> Result<
    Option<UpdateMetadata>,
    CommandError,
> {
    match checked {
        Ok(Some(found)) => Ok(
            Some(
                UpdateMetadata { version: found.version, current_version: found.current_version },
            ),
        ),
        Ok(None) => Ok(None),
        Err(failure) => Err(CommandError::Updater(failure)),
    }
}

/// First half of a check: builds the endpoint to ask, for the channel that
/// is selected now.
///
/// The caller hands the endpoint, and no other, to the update service. Where
/// the channel's template is no URL the check ends here with a `Url` failure
/// and the service is not asked.
pub fn begin_fetch(app_channel: &AppChannel) -> (reply: Result<Endpoint, CommandError>)
    ensures
        match url_serialization(template_of(app_channel@)) {
            Some(url) => reply matches Ok(endpoint) && endpoint@ == url,
            None => reply matches Err(CommandError::Url(_)),
        },
{
    build_endpoint(app_channel.get())
}

/// Second half of a check: takes in what the update service reported.
///
/// A newer build goes into the slot in place of whatever was there, and its
/// two versions are returned for display. With no newer build, or a failed
/// check, the slot keeps what it held.
pub fn complete_fetch<H>(pending: &mut PendingUpdate<H>, checked: CheckOutcome<H>) -> (reply:
    Result<Option<UpdateMetadata>, CommandError>)
    ensures
        reply == check_reply(checked),
        final(pending)@ == slot_after_check(old(pending)@, checked),
{
    match checked {
        Ok(Some(found)) => {
            let AvailableUpdate { version, current_version, handle } = found;
            pending.put(handle);
            Ok(Some(UpdateMetadata { version, current_version }))
        },
        Ok(None) => Ok(None),
        Err(failure) => Err(CommandError::Updater(failure)),
    }
}

} // verus!
