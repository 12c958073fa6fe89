//! Waiting until a node's chain has reached an epoch or a block date.
//!
//! The wait is a poll: the caller asks the node for its last block, and is
//! told here whether the goal is reached or how long to sleep before it asks
//! again.

use vstd::prelude::*;
use crate::decimal::{bounded_value, parse_decimal};

verus! {

/// Seconds between two looks at the last block.
pub const POLL_INTERVAL: u64 = 1;

/// The date of a block: its epoch, and its slot within the epoch.
#[derive(Clone, Copy, Debug, PartialEq, Eq, Structural, PartialOrd, Ord, Hash)]
pub struct BlockDate {
    pub epoch: u32,
    pub slot_id: u32,
}

/// What is to be done after a look at the last block.
#[derive(Clone, Copy, Debug, PartialEq, Eq, Structural)]
pub enum Wait {
    /// The goal is reached.
    Done,
    /// Sleep for `seconds`, then look again.
    Sleep { seconds: u64 },
}

impl BlockDate {
    /// `self` is `other` or a date before it: an earlier epoch, or the same
    /// epoch and no later slot.
    pub open spec fn is_at_or_before(self, other: BlockDate) -> bool {
        self.epoch < other.epoch || (self.epoch == other.epoch && self.slot_id <= other.slot_id)
    }

    /// The date of slot `slot_id` of epoch `epoch`.
    pub fn new(epoch: u32, slot_id: u32) -> (date: BlockDate)
        ensures
            date == (BlockDate { epoch, slot_id }),
    {
        BlockDate { epoch, slot_id }
    }

    /// Whether `self` is `other` or a date before it.
    pub fn at_or_before(&self, other: &BlockDate) -> (r: bool)
        ensures
            r == self.is_at_or_before(*other),
    {
        self.epoch < other.epoch || (self.epoch == other.epoch && self.slot_id <= other.slot_id)
    }
}

/// What is to be done when the last block is of epoch `last_block_epoch`
/// and the chain is to reach epoch `epoch_id`.
pub fn wait_for_epoch(epoch_id: u64, last_block_epoch: i64) -> (wait: Wait)
    requires
        last_block_epoch >= 0,
    ensures
        wait == if last_block_epoch < epoch_id {
            Wait::Sleep { seconds: POLL_INTERVAL }
        } else {
            Wait::Done
        },
{
    if (last_block_epoch as u64) < epoch_id {
        Wait::Sleep { seconds: POLL_INTERVAL }
    } else {
        Wait::Done
    }
}

/// The date of a last block that a node reports as epoch `epoch` and, in
/// decimal digits, slot `slot`; `None` where these are not the epoch and
/// the slot of a date.
pub open spec fn reported_date(epoch: i64, slot: Seq<char>) -> Option<BlockDate> {
    if 0 <= epoch <= u32::MAX {
        match bounded_value(slot, u32::MAX as nat) {
            Some(slot_id) => Some(BlockDate { epoch: epoch as u32, slot_id: slot_id as u32 }),
            None => None,
        }
    } else {
        None
    }
}

/// Reads the date of the last block as a node reports it.
pub fn read_date(epoch: i64, slot: &str) -> (date: Option<BlockDate>)
    ensures
        date == reported_date(epoch, slot@),
{
    if epoch < 0 || epoch > u32::MAX as i64 {
        return None;
    }
    match parse_decimal(slot, u32::MAX as u64) {
        Some(slot_id) => Some(BlockDate::new(epoch as u32, slot_id as u32)),
        None => None,
    }
}

/// What is to be done when the last block is of slot `slot` of epoch
/// `epoch` and the chain is to reach `target_block_date`.
pub fn wait_for_date(target_block_date: BlockDate, epoch: i64, slot: &str) -> (wait: Wait)
    requires
        reported_date(epoch, slot@) is Some,
    ensures
        wait == if target_block_date.is_at_or_before(reported_date(epoch, slot@)->0) {
            Wait::Done
        } else {
            Wait::Sleep { seconds: POLL_INTERVAL }
        },
{
    let current_block_date = read_date(epoch, slot).unwrap();
    if target_block_date.at_or_before(&current_block_date) {
        Wait::Done
    } else {
        Wait::Sleep { seconds: POLL_INTERVAL }
    }
}

/// Dates are in one line: of two dates one is at or before the other, two
/// dates that are at or before each other are the same, and what is before
/// an earlier date is before a later one.
pub proof fn lemma_dates_are_in_order(a: BlockDate, b: BlockDate, c: BlockDate)
    ensures
        a.is_at_or_before(b) || b.is_at_or_before(a),
        a.is_at_or_before(b) && b.is_at_or_before(a) ==> a == b,
        a.is_at_or_before(b) && b.is_at_or_before(c) ==> a.is_at_or_before(c),
{
}

} // verus!
