//! What the engine answers, and what the generator reports when no result
//! can be given.
//!
//! The engine signals with small status numbers and with flags. They are
//! read here, once, as named outcomes.

use crate::catalog::Operation;
use vstd::prelude::*;

verus! {

/// The status with which the engine accepts a creation.
pub const STATUS_ACCEPTED: u8 = 0;

/// The status of an order that was fulfilled.
pub const STATUS_FULFILLED: u8 = 1;

/// The status of a supply update that the engine refused.
pub const STATUS_UPDATE_FAILED: u8 = 2;

/// The status of an order that could be satisfied only in part.
pub const STATUS_PARTIAL: u8 = 4;

/// The status of an order that was put back.
pub const STATUS_BACKORDERED: u8 = 5;

/// The engine's answer to a creation or to a supply update.
#[derive(Clone, Copy, Debug, PartialEq, Eq)]
pub enum CallOutcome {
    /// The engine did what was asked.
    Accepted,
    /// The engine refused, with this status.
    Rejected(u8),
}

/// The engine's answer to an order.
#[derive(Clone, Copy, Debug, PartialEq, Eq)]
pub enum OrderOutcome {
    /// The order was produced and its material consumed.
    Fulfilled,
    /// The order could be satisfied only in part.
    PartiallyFulfilled,
    /// The order was put back.
    Backordered,
    /// The engine refused, with this status.
    Rejected(u8),
}

/// Why a run gave no result.
#[derive(Clone, Copy, Debug, PartialEq, Eq)]
pub enum RunError {
    /// A collection that the operation needs is empty. The engine was not
    /// called.
    PreconditionUnmet(Operation),
    /// The engine refused the call, with this status.
    EngineRejected(u8),
    /// The selection code names no operation.
    UnknownOperation,
}

impl CallOutcome {
    /// The outcome that a status number stands for.
    pub open spec fn of_status(status: u8) -> Self {
        if status == STATUS_ACCEPTED {
            CallOutcome::Accepted
        } else {
            CallOutcome::Rejected(status)
        }
    }

    /// The outcome that a flag stands for.
    pub open spec fn of_flag(done: bool) -> Self {
        if done {
            CallOutcome::Accepted
        } else {
            CallOutcome::Rejected(STATUS_UPDATE_FAILED)
        }
    }

    /// Reads a status number: zero accepts, any other number is the
    /// reason of a refusal.
    pub fn from_status(status: u8) -> (outcome: Self)
        ensures
            outcome == Self::of_status(status),
    {
        if status == STATUS_ACCEPTED {
            CallOutcome::Accepted
        } else {
            CallOutcome::Rejected(status)
        }
    }

    /// Reads a flag: `true` accepts, `false` is a failed update.
    pub fn from_flag(done: bool) -> (outcome: Self)
        ensures
            outcome == Self::of_flag(done),
    {
        if done {
            CallOutcome::Accepted
        } else {
            CallOutcome::Rejected(STATUS_UPDATE_FAILED)
        }
    }
}

impl OrderOutcome {
    /// The outcome that a status number stands for.
    pub open spec fn of_status(status: u8) -> Self {
        if status == STATUS_FULFILLED {
            OrderOutcome::Fulfilled
        } else if status == STATUS_PARTIAL {
            OrderOutcome::PartiallyFulfilled
        } else if status == STATUS_BACKORDERED {
            OrderOutcome::Backordered
        } else {
            OrderOutcome::Rejected(status)
        }
    }

    /// Reads a status number. Three numbers name a disposition of the
    /// order; any other number is the reason of a refusal.
    pub fn from_status(status: u8) -> (outcome: Self)
        ensures
            outcome == Self::of_status(status),
    {
        if status == STATUS_FULFILLED {
            OrderOutcome::Fulfilled
        } else if status == STATUS_PARTIAL {
            OrderOutcome::PartiallyFulfilled
        } else if status == STATUS_BACKORDERED {
            OrderOutcome::Backordered
        } else {
            OrderOutcome::Rejected(status)
        }
    }
}

} // verus!
