//! The result projector: from a request and the engine's answer to one
//! uniform record.
//!
//! Everything a record holds was fixed before the engine was called, or
//! comes from its answer. Nothing is read from the engine afterwards.

use crate::outcome::{
    CallOutcome, OrderOutcome, RunError, STATUS_ACCEPTED, STATUS_BACKORDERED, STATUS_FULFILLED,
    STATUS_PARTIAL,
};
use crate::synth::{MaterialRequest, OrderRequest, ProductRequest, SupplyRequest, VariantRequest};
use vstd::prelude::*;

verus! {

/// Which work complexity a record reports.
#[derive(Clone, Copy, Debug, PartialEq, Eq)]
pub enum Complexity {
    /// The neutral default: the operation has no complexity to report.
    Neutral,
    /// The complexity that was drawn for the call.
    Drawn,
}

/// What a product's first variant consumes, as read before an order.
#[derive(Clone, Copy, Debug, PartialEq, Eq)]
pub struct Recipe {
    /// The material that the variant consumes.
    pub material_id: usize,
    /// How much of the material one unit consumes.
    pub material_amount: usize,
}

/// The uniform record of one call that the engine did not refuse.
#[derive(Clone, Copy, Debug, PartialEq, Eq)]
pub struct RunResult {
    /// The disposition of the call.
    pub code: u8,
    /// The item that the call created or acted on.
    pub primary_id: usize,
    /// The amount that the call applied.
    pub amount: u128,
    /// The material that the call referred to, where it referred to one.
    pub secondary_id: Option<usize>,
    /// The work complexity that the record reports.
    pub work_complexity: Complexity,
}

/// The material that an order consumes: quantity times the amount per unit.
pub open spec fn consumed(quantity: usize, per_unit: usize) -> int {
    quantity as int * per_unit as int
}

pub(crate) proof fn lemma_consumed_fits(quantity: usize, per_unit: usize)
    ensures
        0 <= consumed(quantity, per_unit) <= u128::MAX,
        (quantity as u128) * (per_unit as u128) == consumed(quantity, per_unit),
{
    let q: int = quantity as int;
    let p: int = per_unit as int;
    assert(0 <= q * p <= 0xffff_ffff_ffff_ffff * 0xffff_ffff_ffff_ffff) by (nonlinear_arith)
        requires
            0 <= q <= 0xffff_ffff_ffff_ffff,
            0 <= p <= 0xffff_ffff_ffff_ffff,
    ;
}

impl MaterialRequest {
    /// The record or error that an answer to the request gives.
    pub open spec fn projected(self, outcome: CallOutcome) -> Result<RunResult, RunError> {
        match outcome {
            CallOutcome::Accepted => Ok(
                RunResult {
                    code: STATUS_ACCEPTED,
                    primary_id: self.token as usize,
                    amount: self.supply as u128,
                    secondary_id: None,
                    work_complexity: Complexity::Neutral,
                },
            ),
            CallOutcome::Rejected(status) => Err(RunError::EngineRejected(status)),
        }
    }

    /// Projects the engine's answer. An accepted material is reported under
    /// its token, with its supply and without a second identifier.
    pub fn project(&self, outcome: CallOutcome) -> (result: Result<RunResult, RunError>)
        ensures
            result == self.projected(outcome),
    {
        match outcome {
            CallOutcome::Accepted => Ok(
                RunResult {
                    code: STATUS_ACCEPTED,
                    primary_id: self.token as usize,
                    amount: self.supply as u128,
                    secondary_id: None,
                    work_complexity: Complexity::Neutral,
                },
            ),
            CallOutcome::Rejected(status) => Err(RunError::EngineRejected(status)),
        }
    }
}

impl ProductRequest {
    /// The record or error that an answer to the request gives.
    pub open spec fn projected(self, outcome: CallOutcome) -> Result<RunResult, RunError> {
        match outcome {
            CallOutcome::Accepted => Ok(
                RunResult {
                    code: STATUS_ACCEPTED,
                    primary_id: self.position,
                    amount: self.material_amount as u128,
                    secondary_id: Some(self.material_id),
                    work_complexity: Complexity::Neutral,
                },
            ),
            CallOutcome::Rejected(status) => Err(RunError::EngineRejected(status)),
        }
    }

    /// Projects the engine's answer. An accepted product is reported under
    /// its position, with the amount it consumes per unit and the material
    /// it consumes.
    pub fn project(&self, outcome: CallOutcome) -> (result: Result<RunResult, RunError>)
        ensures
            result == self.projected(outcome),
    {
        match outcome {
            CallOutcome::Accepted => Ok(
                RunResult {
                    code: STATUS_ACCEPTED,
                    primary_id: self.position,
                    amount: self.material_amount as u128,
                    secondary_id: Some(self.material_id),
                    work_complexity: Complexity::Neutral,
                },
            ),
            CallOutcome::Rejected(status) => Err(RunError::EngineRejected(status)),
        }
    }
}

impl OrderRequest {
    /// The record or error that an answer to the request gives, for the
    /// recipe that was read before the call.
    pub open spec fn projected(self, recipe: Recipe, outcome: OrderOutcome) -> Result<
        RunResult,
        RunError,
    > {
        match outcome {
            OrderOutcome::Fulfilled => Ok(self.recorded(recipe, STATUS_FULFILLED)),
            OrderOutcome::PartiallyFulfilled => Ok(self.recorded(recipe, STATUS_PARTIAL)),
            OrderOutcome::Backordered => Ok(self.recorded(recipe, STATUS_BACKORDERED)),
            OrderOutcome::Rejected(status) => Err(RunError::EngineRejected(status)),
        }
    }

    /// The record of an order that the engine did not refuse, under the
    /// code of its disposition.
    pub open spec fn recorded(self, recipe: Recipe, code: u8) -> RunResult {
        RunResult {
            code,
            primary_id: self.product_id,
            amount: consumed(self.amount, recipe.material_amount) as u128,
            secondary_id: Some(recipe.material_id),
            work_complexity: Complexity::Neutral,
        }
    }

    /// Projects the engine's answer. Every order that the engine did not
    /// refuse reports the material of its recipe and the amount of it that
    /// the order stands for: the ordered quantity times the recipe's amount
    /// per unit. The code tells a fulfilled order from one that was
    /// satisfied in part and from one that was put back.
    pub fn project(&self, recipe: Recipe, outcome: OrderOutcome) -> (result: Result<
        RunResult,
        RunError,
    >)
        ensures
            result == self.projected(recipe, outcome),
            result is Ok <==> !(outcome is Rejected),
            result matches Ok(record) ==> record.amount == self.amount * recipe.material_amount,
    {
        proof {
            lemma_consumed_fits(self.amount, recipe.material_amount);
        }
        let code: u8 = match outcome {
            OrderOutcome::Fulfilled => STATUS_FULFILLED,
            OrderOutcome::PartiallyFulfilled => STATUS_PARTIAL,
            OrderOutcome::Backordered => STATUS_BACKORDERED,
            OrderOutcome::Rejected(status) => {
                return Err(RunError::EngineRejected(status));
            },
        };
        Ok(
            RunResult {
                code,
                primary_id: self.product_id,
                amount: (self.amount as u128) * (recipe.material_amount as u128),
                secondary_id: Some(recipe.material_id),
                work_complexity: Complexity::Neutral,
            },
        )
    }
}

impl VariantRequest {
    /// The record or error that an answer to the request gives.
    pub open spec fn projected(self, outcome: CallOutcome) -> Result<RunResult, RunError> {
        match outcome {
            CallOutcome::Accepted => Ok(
                RunResult {
                    code: STATUS_ACCEPTED,
                    primary_id: self.product_id,
                    amount: 0,
                    secondary_id: Some(self.material_id),
                    work_complexity: Complexity::Drawn,
                },
            ),
            CallOutcome::Rejected(status) => Err(RunError::EngineRejected(status)),
        }
    }

    /// Projects the engine's answer. An accepted variant is reported under
    /// its product, with the material it consumes and the complexity that
    /// was drawn for it, and with no amount.
    pub fn project(&self, outcome: CallOutcome) -> (result: Result<RunResult, RunError>)
        ensures
            result == self.projected(outcome),
    {
        match outcome {
            CallOutcome::Accepted => Ok(
                RunResult {
                    code: STATUS_ACCEPTED,
                    primary_id: self.product_id,
                    amount: 0,
                    secondary_id: Some(self.material_id),
                    work_complexity: Complexity::Drawn,
                },
            ),
            CallOutcome::Rejected(status) => Err(RunError::EngineRejected(status)),
        }
    }
}

impl SupplyRequest {
    /// The record or error that an answer to the request gives.
    pub open spec fn projected(self, outcome: CallOutcome) -> Result<RunResult, RunError> {
        match outcome {
            CallOutcome::Accepted => Ok(
                RunResult {
                    code: STATUS_ACCEPTED,
                    primary_id: self.material_id,
                    amount: self.supply as u128,
                    secondary_id: None,
                    work_complexity: Complexity::Neutral,
                },
            ),
            CallOutcome::Rejected(status) => Err(RunError::EngineRejected(status)),
        }
    }

    /// Projects the engine's answer. An accepted update is reported under
    /// its material, with the new supply and without a second identifier.
    pub fn project(&self, outcome: CallOutcome) -> (result: Result<RunResult, RunError>)
        ensures
            result == self.projected(outcome),
    {
        match outcome {
            CallOutcome::Accepted => Ok(
                RunResult {
                    code: STATUS_ACCEPTED,
                    primary_id: self.material_id,
                    amount: self.supply as u128,
                    secondary_id: None,
                    work_complexity: Complexity::Neutral,
                },
            ),
            CallOutcome::Rejected(status) => Err(RunError::EngineRejected(status)),
        }
    }
}

} // verus!
