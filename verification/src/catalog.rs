//! The operation catalog: which calls the generator can issue, under which
//! code each is selected, and what the engine must hold for each to be
//! attempted.

use crate::stream::draw_u8;
use rand::ThreadRng;
use vstd::prelude::*;

verus! {

/// The number of selection codes. Codes at or above it select nothing.
pub const CODE_COUNT: u8 = 10;

/// One mutating call of the engine.
#[derive(Clone, Copy, Debug, PartialEq, Eq)]
pub enum Operation {
    /// Create a material with a given supply.
    AddMaterial,
    /// Create a product bound to an existing material.
    AddProduct,
    /// Attach a new variant to an existing product.
    AddProductVariant,
    /// Request the production of an existing product.
    OrderProduct,
    /// Overwrite the supply of an existing material.
    UpdateSupply,
}

/// The sizes of the engine's two collections, as observed before a call.
#[derive(Clone, Copy, Debug, PartialEq, Eq)]
pub struct EngineCounts {
    /// How many materials exist.
    pub materials: usize,
    /// How many products exist.
    pub products: usize,
}

impl Operation {
    /// The operation that a selection code stands for. Orders take four of
    /// the ten codes and variants two, so that a uniform code favours them.
    pub open spec fn of_code(code: u8) -> Option<Operation> {
        if code == 0 {
            Some(Operation::AddMaterial)
        } else if code == 1 {
            Some(Operation::AddProduct)
        } else if 2 <= code <= 5 {
            Some(Operation::OrderProduct)
        } else if 6 <= code <= 7 {
            Some(Operation::AddProductVariant)
        } else if 8 <= code <= 9 {
            Some(Operation::UpdateSupply)
        } else {
            None
        }
    }

    /// Whether the engine holds what the operation needs: a material for a
    /// new product or a supply update, a product for an order, both for a
    /// new variant, nothing for a new material.
    pub open spec fn enabled(self, counts: EngineCounts) -> bool {
        match self {
            Operation::AddMaterial => true,
            Operation::AddProduct => counts.materials >= 1,
            Operation::AddProductVariant => counts.products >= 1 && counts.materials >= 1,
            Operation::OrderProduct => counts.products >= 1,
            Operation::UpdateSupply => counts.materials >= 1,
        }
    }

    /// Looks a selection code up in the catalog.
    pub fn from_code(code: u8) -> (op: Option<Operation>)
        ensures
            op == Operation::of_code(code),
    {
        match code {
            0 => Some(Operation::AddMaterial),
            1 => Some(Operation::AddProduct),
            2 | 3 | 4 | 5 => Some(Operation::OrderProduct),
            6 | 7 => Some(Operation::AddProductVariant),
            8 | 9 => Some(Operation::UpdateSupply),
            _ => None,
        }
    }

    /// Checks the operation's precondition against the observed counts.
    pub fn is_enabled(&self, counts: EngineCounts) -> (yes: bool)
        ensures
            yes == self.enabled(counts),
    {
        match self {
            Operation::AddMaterial => true,
            Operation::AddProduct => counts.materials >= 1,
            Operation::AddProductVariant => counts.products >= 1 && counts.materials >= 1,
            Operation::OrderProduct => counts.products >= 1,
            Operation::UpdateSupply => counts.materials >= 1,
        }
    }
}

/// Reduces a raw draw to a selection code.
pub open spec fn code_of(raw: u8) -> u8 {
    raw % CODE_COUNT
}

/// Reduces a raw draw to a selection code, which always names an operation.
pub fn bound_code(raw: u8) -> (code: u8)
    ensures
        code == code_of(raw),
        code < CODE_COUNT,
        Operation::of_code(code) is Some,
{
    raw % CODE_COUNT
}

/// Draws a selection code from the stream. Whatever is drawn, the code
/// names an operation of the catalog.
pub fn select(rng: &mut ThreadRng) -> (code: u8)
    ensures
        code < CODE_COUNT,
        Operation::of_code(code) is Some,
{
    let raw: u8 = draw_u8(rng);
    bound_code(raw)
}

} // verus!
