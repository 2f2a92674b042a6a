//! Laws of the generator: what holds of every run, whatever is drawn and
//! whatever the engine answers.

use crate::bootstrap::Bootstrap;
use crate::catalog::{EngineCounts, Operation, CODE_COUNT};
use crate::dispatch::{replayed, run_outcome, synthesized, Draws, Request};
use crate::outcome::{
    CallOutcome, OrderOutcome, RunError, STATUS_ACCEPTED, STATUS_BACKORDERED, STATUS_FULFILLED,
    STATUS_PARTIAL,
};
use crate::project::{lemma_consumed_fits, Recipe, RunResult};
use crate::synth::{
    MaterialRequest, OrderRequest, ProductRequest, SupplyRequest, VariantRequest,
    CONSUMPTION_DIVISOR, ORDER_DIVISOR,
};
use vstd::arithmetic::div_mod::lemma_small_mod;
use vstd::prelude::*;

verus! {

/// An operation that needs a collection is not attempted while that
/// collection is empty: the run returns `PreconditionUnmet` for it and no
/// request, so nothing reaches the engine.
pub proof fn lemma_empty_collection_stops_run(
    counts: EngineCounts,
    fn_num: u8,
    max_values: usize,
    result: Result<Request, RunError>,
)
    requires
        run_outcome(counts, fn_num, max_values, result),
        Operation::of_code(fn_num) is Some,
        ({
            let op = Operation::of_code(fn_num)->Some_0;
            ||| counts.materials == 0 && (op == Operation::AddProduct || op
                == Operation::AddProductVariant || op == Operation::UpdateSupply)
            ||| counts.products == 0 && (op == Operation::OrderProduct || op
                == Operation::AddProductVariant)
        }),
    ensures
        result == Err::<Request, RunError>(
            RunError::PreconditionUnmet(Operation::of_code(fn_num)->Some_0),
        ),
{
}

/// A run fails on its precondition only where a needed collection is
/// empty, and on an unknown operation only for a code outside the catalog.
/// Everywhere else it returns a request.
pub proof fn lemma_run_errors_are_exact(
    counts: EngineCounts,
    fn_num: u8,
    max_values: usize,
    result: Result<Request, RunError>,
)
    requires
        run_outcome(counts, fn_num, max_values, result),
    ensures
        result == Err::<Request, RunError>(RunError::UnknownOperation) <==> fn_num >= CODE_COUNT,
        result is Err && fn_num < CODE_COUNT ==> counts.materials == 0 || counts.products == 0,
        result is Err ==> !(result->Err_0 is EngineRejected),
        Operation::of_code(fn_num) == Some(Operation::AddMaterial) ==> result is Ok,
        counts.materials > 0 && counts.products > 0 && fn_num < CODE_COUNT ==> result is Ok,
{
}

/// The material that a new product or a new variant is reported with is
/// one that existed when the counts were observed, before the call.
pub proof fn lemma_reported_material_existed(
    counts: EngineCounts,
    fn_num: u8,
    max_values: usize,
    request: Request,
    outcome: CallOutcome,
)
    requires
        run_outcome(counts, fn_num, max_values, Ok(request)),
    ensures
        request matches Request::AddProduct(p) ==> (p.projected(outcome) matches Ok(record)
            ==> record.secondary_id == Some(p.material_id) && p.material_id < counts.materials),
        request matches Request::AddProductVariant(v) ==> (v.projected(outcome) matches Ok(record)
            ==> record.secondary_id == Some(v.material_id) && v.material_id < counts.materials),
{
}

/// Every order that the engine does not refuse reports the ordered quantity
/// times the recipe's amount per unit, not the quantity itself, and names
/// the recipe's material and the ordered product. Only a refusal gives no
/// record.
pub proof fn lemma_order_amounts(order: OrderRequest, recipe: Recipe, outcome: OrderOutcome)
    ensures
        order.projected(recipe, outcome) is Ok <==> !(outcome is Rejected),
        order.projected(recipe, outcome) matches Ok(record) ==> {
            &&& record.amount == order.amount * recipe.material_amount
            &&& record.secondary_id == Some(recipe.material_id)
            &&& record.primary_id == order.product_id
        },
{
    lemma_consumed_fits(order.amount, recipe.material_amount);
}

/// A new material and a supply update are reported without a second
/// identifier.
pub proof fn lemma_no_second_identifier(
    material: MaterialRequest,
    supply: SupplyRequest,
    outcome: CallOutcome,
)
    ensures
        material.projected(outcome) matches Ok(record) ==> record.secondary_id is None,
        supply.projected(outcome) matches Ok(record) ==> record.secondary_id is None,
{
}

/// A product, an order and a variant are always reported with a second
/// identifier.
pub proof fn lemma_second_identifier_present(
    product: ProductRequest,
    order: OrderRequest,
    variant: VariantRequest,
    recipe: Recipe,
    outcome: CallOutcome,
    answer: OrderOutcome,
)
    ensures
        product.projected(outcome) matches Ok(record) ==> record.secondary_id is Some,
        variant.projected(outcome) matches Ok(record) ==> record.secondary_id is Some,
        order.projected(recipe, answer) matches Ok(record) ==> record.secondary_id is Some,
{
}

/// A refusal of the engine is forwarded with its status, and nothing else
/// is reported as one.
pub proof fn lemma_rejection_is_forwarded(
    material: MaterialRequest,
    order: OrderRequest,
    recipe: Recipe,
    status: u8,
)
    ensures
        material.projected(CallOutcome::of_status(status)) is Err <==> status != STATUS_ACCEPTED,
        status != STATUS_ACCEPTED ==> material.projected(CallOutcome::of_status(status)) == Err::<
            RunResult,
            RunError,
        >(RunError::EngineRejected(status)),
        order.projected(recipe, OrderOutcome::of_status(status)) is Err <==> status
            != STATUS_FULFILLED && status != STATUS_PARTIAL && status != STATUS_BACKORDERED,
        order.projected(recipe, OrderOutcome::of_status(status)) matches Err(e) ==> e
            == RunError::EngineRejected(status),
        order.projected(recipe, OrderOutcome::of_status(status)) matches Ok(record)
            ==> record.code == status,
{
}

/// The same observed counts, the same selection code and the same drawn
/// values give the same result. Values that the operation does not read
/// make no difference, and an error does not depend on the draws at all.
pub proof fn lemma_run_is_deterministic(
    counts: EngineCounts,
    fn_num: u8,
    max_values: usize,
    one: Draws,
    other: Draws,
)
    ensures
        Operation::of_code(fn_num) matches Some(op) && one.agree(other, op) ==> replayed(
            counts,
            fn_num,
            one,
            max_values,
        ) == replayed(counts, fn_num, other, max_values),
        replayed(counts, fn_num, one, max_values) is Err ==> replayed(
            counts,
            fn_num,
            other,
            max_values,
        ) == replayed(counts, fn_num, one, max_values),
{
}

/// Whatever is drawn, the result of a run is an error fixed by the code
/// and the counts, or a request for the selected operation that fits.
pub proof fn lemma_replayed_fits(counts: EngineCounts, fn_num: u8, draws: Draws, max_values: usize)
    requires
        Operation::of_code(fn_num) matches Some(op) ==> (op.enabled(counts) ==> max_values > 0),
        Operation::of_code(fn_num) == Some(Operation::AddProduct) && Operation::AddProduct.enabled(
            counts,
        ) ==> counts.products < usize::MAX,
    ensures
        run_outcome(counts, fn_num, max_values, replayed(counts, fn_num, draws, max_values)),
{
}

/// Every request that fits is the one that some draws give: the ranges of
/// the arguments are exactly those of the formulas.
pub proof fn lemma_fitting_request_is_drawn(
    counts: EngineCounts,
    max_values: usize,
    request: Request,
)
    requires
        request.operation().enabled(counts),
        request.fits(counts, max_values),
    ensures
        exists|draws: Draws| request == #[trigger] synthesized(
            request.operation(),
            counts,
            draws,
            max_values,
        ),
{
    let draws = match request {
        Request::AddMaterial(m) => {
            let draws = Draws { token: m.token, first: m.supply, second: 0, third: 0 };
            lemma_small_mod(m.supply as nat, max_values as nat);
            assert(request == synthesized(Operation::AddMaterial, counts, draws, max_values));
            draws
        },
        Request::AddProduct(p) => {
            let draws = Draws {
                token: 0,
                first: (p.material_amount * CONSUMPTION_DIVISOR) as usize,
                second: p.material_id,
                third: p.priority,
            };
            lemma_small_mod(draws.first as nat, max_values as nat);
            lemma_small_mod(p.material_id as nat, counts.materials as nat);
            assert(request == synthesized(Operation::AddProduct, counts, draws, max_values));
            draws
        },
        Request::OrderProduct(o) => {
            let draws = Draws {
                token: 0,
                first: (o.amount * ORDER_DIVISOR) as usize,
                second: o.product_id,
                third: 0,
            };
            lemma_small_mod(draws.first as nat, max_values as nat);
            lemma_small_mod(o.product_id as nat, counts.products as nat);
            assert(request == synthesized(Operation::OrderProduct, counts, draws, max_values));
            draws
        },
        Request::AddProductVariant(v) => {
            let draws = Draws {
                token: 0,
                first: v.product_id,
                second: v.material_id,
                third: (v.material_amount * CONSUMPTION_DIVISOR) as usize,
            };
            lemma_small_mod(draws.third as nat, max_values as nat);
            lemma_small_mod(v.product_id as nat, counts.products as nat);
            lemma_small_mod(v.material_id as nat, counts.materials as nat);
            assert(request == synthesized(Operation::AddProductVariant, counts, draws, max_values));
            draws
        },
        Request::UpdateSupply(s) => {
            let draws = Draws { token: 0, first: s.supply, second: s.material_id, third: 0 };
            lemma_small_mod(s.supply as nat, max_values as nat);
            lemma_small_mod(s.material_id as nat, counts.materials as nat);
            assert(request == synthesized(Operation::UpdateSupply, counts, draws, max_values));
            draws
        },
    };
    assert(request == synthesized(request.operation(), counts, draws, max_values));
}

/// A bootstrap hands out one step fewer with every step taken, and after
/// as many steps as were pending it has nothing left to hand out.
pub proof fn lemma_bootstrap_ends(bootstrap: Bootstrap)
    ensures
        bootstrap.pending() > 0 ==> bootstrap.advanced().pending() == bootstrap.pending() - 1,
        bootstrap.pending() == 0 ==> bootstrap.advanced() == bootstrap,
        bootstrap.advanced_by(bootstrap.pending()).pending() == 0,
    decreases bootstrap.pending(),
{
    if bootstrap.pending() > 0 {
        lemma_bootstrap_ends(bootstrap.advanced());
    }
}

} // verus!
