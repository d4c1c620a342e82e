//! What holds across several commands, whatever the state they start from.

use vstd::prelude::*;
use crate::channel::Channel;
use crate::error::CommandError;
use crate::fetch::{slot_after_check, AvailableUpdate, CheckOutcome};
use crate::install::{install_claim, slot_after_install};
use crate::store::selection_after_set;

verus! {

/// Setting a channel and then reading the selection gives the channel that
/// was set, whatever was selected before.
pub proof fn lemma_set_then_get(before: Channel, channel: Channel)
    ensures
        selection_after_set(before, channel) == channel,
{
}

/// After a check has found a newer build, the next install gets that build's
/// handle, and the install after it finds the slot empty: one find is
/// installed once.
pub proof fn lemma_found_update_installs_once<H>(slot: Option<H>, found: AvailableUpdate<H>)
    ensures
        install_claim(slot_after_check(slot, Ok(Some(found)))) == Ok::<H, CommandError>(
            found.handle,
        ),
        install_claim(slot_after_install(slot_after_check(slot, Ok(Some(found))))) == Err::<
            H,
            CommandError,
        >(CommandError::NoPendingUpdate),
{
}

/// Of two checks in a row the later find is the one that an install gets.
/// Where the later check finds nothing, or fails, the earlier find stays.
pub proof fn lemma_latest_find_wins<H>(
    slot: Option<H>,
    first: AvailableUpdate<H>,
    second: CheckOutcome<H>,
)
    ensures
        second matches Ok(Some(later)) ==> install_claim(
            slot_after_check(slot_after_check(slot, Ok(Some(first))), second),
        ) == Ok::<H, CommandError>(later.handle),
        !(second matches Ok(Some(_))) ==> install_claim(
            slot_after_check(slot_after_check(slot, Ok(Some(first))), second),
        ) == Ok::<H, CommandError>(first.handle),
{
}

/// A check that finds nothing, or fails, leaves the slot as it was.
pub proof fn lemma_fruitless_check_keeps_slot<H>(slot: Option<H>, checked: CheckOutcome<H>)
    requires
        !(checked matches Ok(Some(_))),
    ensures
        slot_after_check(slot, checked) == slot,
{
}

/// An install on an empty slot is refused, and the slot stays empty.
pub proof fn lemma_empty_slot_refuses_install<H>()
    ensures
        install_claim(None::<H>) == Err::<H, CommandError>(CommandError::NoPendingUpdate),
        slot_after_install(None::<H>) == None::<H>,
{
}

} // verus!
