//! One run of the generator: selection, precondition, synthesis.
//!
//! A run looks the selection code up, checks the operation's precondition
//! against the observed counts, and only then draws the arguments from the
//! stream. The caller performs the request on the engine and hands the
//! answer to the request's `project`.

use crate::catalog::{EngineCounts, Operation};
use crate::outcome::RunError;
use crate::stream::{draw_u16, draw_usize};
use crate::synth::{MaterialRequest, OrderRequest, ProductRequest, SupplyRequest, VariantRequest};
use rand::ThreadRng;
use vstd::prelude::*;

verus! {

/// One call to perform on the engine, with its arguments.
#[derive(Clone, Copy, Debug, PartialEq, Eq)]
pub enum Request {
    /// Create a material.
    AddMaterial(MaterialRequest),
    /// Create a product.
    AddProduct(ProductRequest),
    /// Order a product.
    OrderProduct(OrderRequest),
    /// Attach a variant to a product.
    AddProductVariant(VariantRequest),
    /// Overwrite a material's supply.
    UpdateSupply(SupplyRequest),
}

impl Request {
    /// The operation that the request performs.
    pub open spec fn operation(self) -> Operation {
        match self {
            Request::AddMaterial(_) => Operation::AddMaterial,
            Request::AddProduct(_) => Operation::AddProduct,
            Request::OrderProduct(_) => Operation::OrderProduct,
            Request::AddProductVariant(_) => Operation::AddProductVariant,
            Request::UpdateSupply(_) => Operation::UpdateSupply,
        }
    }

    /// Whether the arguments respect the observed counts and the magnitude
    /// bound: every identifier names an existing item, every amount lies
    /// in the range of its formula.
    pub open spec fn fits(self, counts: EngineCounts, max_values: usize) -> bool {
        match self {
            Request::AddMaterial(m) => m.fits(max_values),
            Request::AddProduct(p) => p.fits(counts, max_values),
            Request::OrderProduct(o) => o.fits(counts, max_values),
            Request::AddProductVariant(v) => v.fits(counts, max_values),
            Request::UpdateSupply(s) => s.fits(counts, max_values),
        }
    }

    /// The operation that the request performs.
    pub fn kind(&self) -> (op: Operation)
        ensures
            op == self.operation(),
    {
        match self {
            Request::AddMaterial(_) => Operation::AddMaterial,
            Request::AddProduct(_) => Operation::AddProduct,
            Request::OrderProduct(_) => Operation::OrderProduct,
            Request::AddProductVariant(_) => Operation::AddProductVariant,
            Request::UpdateSupply(_) => Operation::UpdateSupply,
        }
    }
}

/// What a run may return for a selection code against the observed counts:
/// an error fixed by the code and the counts alone, or a request for the
/// selected operation whose arguments fit.
pub open spec fn run_outcome(
    counts: EngineCounts,
    fn_num: u8,
    max_values: usize,
    result: Result<Request, RunError>,
) -> bool {
    match Operation::of_code(fn_num) {
        None => result == Err::<Request, RunError>(RunError::UnknownOperation),
        Some(op) => if op.enabled(counts) {
            &&& result matches Ok(request)
            &&& request.operation() == op
            &&& request.fits(counts, max_values)
        } else {
            result == Err::<Request, RunError>(RunError::PreconditionUnmet(op))
        },
    }
}

/// The values that one run takes from the stream, in the order in which
/// it takes them. A run reads only as many as its operation needs.
#[derive(Clone, Copy, Debug, PartialEq, Eq)]
pub struct Draws {
    /// The token of a new material. No other operation draws one.
    pub token: u16,
    /// The first raw draw after the token.
    pub first: usize,
    /// The second raw draw.
    pub second: usize,
    /// The third raw draw.
    pub third: usize,
}

impl Draws {
    /// Whether two records agree on every value that the operation reads.
    pub open spec fn agree(self, other: Draws, op: Operation) -> bool {
        match op {
            Operation::AddMaterial => self.token == other.token && self.first == other.first,
            Operation::AddProduct | Operation::AddProductVariant => {
                &&& self.first == other.first
                &&& self.second == other.second
                &&& self.third == other.third
            },
            Operation::OrderProduct | Operation::UpdateSupply => {
                &&& self.first == other.first
                &&& self.second == other.second
            },
        }
    }
}

/// The request that an enabled operation makes of the drawn values.
pub open spec fn synthesized(
    op: Operation,
    counts: EngineCounts,
    draws: Draws,
    max_values: usize,
) -> Request {
    match op {
        Operation::AddMaterial => Request::AddMaterial(
            MaterialRequest::synthesized(draws.token, draws.first, max_values),
        ),
        Operation::AddProduct => Request::AddProduct(
            ProductRequest::synthesized(counts, draws.first, draws.second, draws.third, max_values),
        ),
        Operation::OrderProduct => Request::OrderProduct(
            OrderRequest::synthesized(counts, draws.first, draws.second, max_values),
        ),
        Operation::AddProductVariant => Request::AddProductVariant(
            VariantRequest::synthesized(counts, draws.first, draws.second, draws.third, max_values),
        ),
        Operation::UpdateSupply => Request::UpdateSupply(
            SupplyRequest::synthesized(counts, draws.first, draws.second, max_values),
        ),
    }
}

/// What a run returns for a selection code, the observed counts and the
/// values it drew.
pub open spec fn replayed(counts: EngineCounts, fn_num: u8, draws: Draws, max_values: usize)
    -> Result<Request, RunError> {
    match Operation::of_code(fn_num) {
        None => Err(RunError::UnknownOperation),
        Some(op) => if op.enabled(counts) {
            Ok(synthesized(op, counts, draws, max_values))
        } else {
            Err(RunError::PreconditionUnmet(op))
        },
    }
}

/// Runs on recorded draws in place of a stream.
///
/// A code outside the catalog gives `UnknownOperation`. An operation whose
/// collection is empty gives `PreconditionUnmet`. Otherwise the request is
/// the one that the operation's formulas make of the draws. Only then is
/// the magnitude bound used, which must not be zero, and only a new
/// product needs the product count to have a successor.
pub fn replay(counts: EngineCounts, fn_num: u8, draws: Draws, max_values: usize) -> (result:
    Result<Request, RunError>)
    requires
        Operation::of_code(fn_num) matches Some(op) ==> (op.enabled(counts) ==> max_values > 0),
        Operation::of_code(fn_num) == Some(Operation::AddProduct) && Operation::AddProduct.enabled(
            counts,
        ) ==> counts.products < usize::MAX,
    ensures
        result == replayed(counts, fn_num, draws, max_values),
        run_outcome(counts, fn_num, max_values, result),
{
    let op = match Operation::from_code(fn_num) {
        Some(op) => op,
        None => {
            return Err(RunError::UnknownOperation);
        },
    };
    if !op.is_enabled(counts) {
        return Err(RunError::PreconditionUnmet(op));
    }
    let request = match op {
        Operation::AddMaterial => Request::AddMaterial(
            MaterialRequest::synthesize(draws.token, draws.first, max_values),
        ),
        Operation::AddProduct => Request::AddProduct(
            ProductRequest::synthesize(counts, draws.first, draws.second, draws.third, max_values),
        ),
        Operation::OrderProduct => Request::OrderProduct(
            OrderRequest::synthesize(counts, draws.first, draws.second, max_values),
        ),
        Operation::AddProductVariant => Request::AddProductVariant(
            VariantRequest::synthesize(counts, draws.first, draws.second, draws.third, max_values),
        ),
        Operation::UpdateSupply => Request::UpdateSupply(
            SupplyRequest::synthesize(counts, draws.first, draws.second, max_values),
        ),
    };
    Ok(request)
}

/// Takes from the stream what an operation reads: a new material's token,
/// then one to three raw values. What it does not read is left at zero.
fn draw(op: Operation, rng: &mut ThreadRng) -> (draws: Draws)
    ensures
        op != Operation::AddMaterial ==> draws.token == 0,
        op == Operation::AddMaterial ==> draws.second == 0,
        op != Operation::AddProduct && op != Operation::AddProductVariant ==> draws.third == 0,
{
    let token: u16 = match op {
        Operation::AddMaterial => draw_u16(rng),
        _ => 0,
    };
    let first: usize = draw_usize(rng);
    let second: usize = match op {
        Operation::AddMaterial => 0,
        _ => draw_usize(rng),
    };
    let third: usize = match op {
        Operation::AddProduct | Operation::AddProductVariant => draw_usize(rng),
        _ => 0,
    };
    Draws { token, first, second, third }
}

/// Selects the operation for a code and synthesizes its arguments.
///
/// A code outside the catalog and an operation whose collection is empty
/// give their error before anything is drawn. Otherwise the arguments are
/// drawn from the stream in a fixed order. Whatever is drawn, the result is
/// the one that `replay` gives for the drawn values, so the request is for
/// the selected operation and fits the counts and the bound.
pub fn run(counts: EngineCounts, fn_num: u8, rng: &mut ThreadRng, max_values: usize) -> (result:
    Result<Request, RunError>)
    requires
        Operation::of_code(fn_num) matches Some(op) ==> (op.enabled(counts) ==> max_values > 0),
        Operation::of_code(fn_num) == Some(Operation::AddProduct) && Operation::AddProduct.enabled(
            counts,
        ) ==> counts.products < usize::MAX,
    ensures
        run_outcome(counts, fn_num, max_values, result),
        exists|draws: Draws| result == #[trigger] replayed(counts, fn_num, draws, max_values),
{
    let draws = match Operation::from_code(fn_num) {
        Some(op) => if op.is_enabled(counts) {
            draw(op, rng)
        } else {
            Draws { token: 0, first: 0, second: 0, third: 0 }
        },
        None => Draws { token: 0, first: 0, second: 0, third: 0 },
    };
    replay(counts, fn_num, draws, max_values)
}

} // verus!
