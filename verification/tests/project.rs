use event_generator::catalog::Operation;
use event_generator::outcome::{CallOutcome, OrderOutcome, RunError, STATUS_UPDATE_FAILED};
use event_generator::project::{Complexity, Recipe, RunResult};
use event_generator::synth::{
    MaterialRequest, OrderRequest, ProductRequest, SupplyRequest, VariantRequest,
};

#[test]
fn status_zero_accepts_and_others_reject() {
    assert_eq!(CallOutcome::from_status(0), CallOutcome::Accepted);
    for status in 1..=255u8 {
        assert_eq!(CallOutcome::from_status(status), CallOutcome::Rejected(status));
    }
}

#[test]
fn a_flag_accepts_or_fails_the_update() {
    assert_eq!(CallOutcome::from_flag(true), CallOutcome::Accepted);
    assert_eq!(CallOutcome::from_flag(false), CallOutcome::Rejected(2));
    assert_eq!(STATUS_UPDATE_FAILED, 2);
}

#[test]
fn an_order_status_names_its_disposition() {
    assert_eq!(OrderOutcome::from_status(1), OrderOutcome::Fulfilled);
    assert_eq!(OrderOutcome::from_status(4), OrderOutcome::PartiallyFulfilled);
    assert_eq!(OrderOutcome::from_status(5), OrderOutcome::Backordered);
    for status in [0u8, 2, 3, 6, 7, 100, 255] {
        assert_eq!(OrderOutcome::from_status(status), OrderOutcome::Rejected(status));
    }
}

#[test]
fn an_accepted_material_is_reported_under_its_token() {
    let request = MaterialRequest { token: 4711, supply: 250 };
    assert_eq!(
        request.project(CallOutcome::Accepted),
        Ok(RunResult {
            code: 0,
            primary_id: 4711,
            amount: 250,
            secondary_id: None,
            work_complexity: Complexity::Neutral,
        })
    );
}

#[test]
fn a_rejected_material_forwards_the_status() {
    let request = MaterialRequest { token: 1, supply: 2 };
    assert_eq!(request.project(CallOutcome::from_status(3)), Err(RunError::EngineRejected(3)));
    assert_eq!(request.project(CallOutcome::from_status(255)), Err(RunError::EngineRejected(255)));
}

#[test]
fn an_accepted_product_is_reported_under_its_position() {
    let request = ProductRequest { material_id: 2, material_amount: 15, priority: 1, position: 8 };
    assert_eq!(
        request.project(CallOutcome::from_status(0)),
        Ok(RunResult {
            code: 0,
            primary_id: 8,
            amount: 15,
            secondary_id: Some(2),
            work_complexity: Complexity::Neutral,
        })
    );
    assert_eq!(request.project(CallOutcome::from_status(9)), Err(RunError::EngineRejected(9)));
}

#[test]
fn a_fulfilled_order_reports_the_material_consumed() {
    let order = OrderRequest { product_id: 5, amount: 7 };
    let recipe = Recipe { material_id: 3, material_amount: 4 };
    assert_eq!(
        order.project(recipe, OrderOutcome::from_status(1)),
        Ok(RunResult {
            code: 1,
            primary_id: 5,
            amount: 28,
            secondary_id: Some(3),
            work_complexity: Complexity::Neutral,
        })
    );
}

#[test]
fn a_partial_order_reports_quantity_times_rate() {
    let order = OrderRequest { product_id: 5, amount: 7 };
    let recipe = Recipe { material_id: 3, material_amount: 4 };
    assert_eq!(
        order.project(recipe, OrderOutcome::from_status(4)),
        Ok(RunResult {
            code: 4,
            primary_id: 5,
            amount: 28,
            secondary_id: Some(3),
            work_complexity: Complexity::Neutral,
        })
    );
}

#[test]
fn a_put_back_order_reports_quantity_times_rate() {
    let order = OrderRequest { product_id: 5, amount: 7 };
    let recipe = Recipe { material_id: 3, material_amount: 4 };
    assert_eq!(
        order.project(recipe, OrderOutcome::from_status(5)),
        Ok(RunResult {
            code: 5,
            primary_id: 5,
            amount: 28,
            secondary_id: Some(3),
            work_complexity: Complexity::Neutral,
        })
    );
}

#[test]
fn every_accepted_order_of_three_at_rate_two_reports_six() {
    let order = OrderRequest { product_id: 0, amount: 3 };
    let recipe = Recipe { material_id: 9, material_amount: 2 };
    for status in [1u8, 4, 5] {
        let record = order.project(recipe, OrderOutcome::from_status(status)).unwrap();
        assert_eq!(record.amount, 6);
        assert_eq!(record.code, status);
        assert_eq!(record.secondary_id, Some(9));
    }
}

#[test]
fn an_order_gives_a_record_unless_it_is_rejected() {
    let order = OrderRequest { product_id: 1, amount: 2 };
    let recipe = Recipe { material_id: 0, material_amount: 5 };
    for status in 0..=255u8 {
        let result = order.project(recipe, OrderOutcome::from_status(status));
        assert_eq!(result.is_ok(), status == 1 || status == 4 || status == 5);
    }
}

#[test]
fn a_rejected_order_forwards_the_status() {
    let order = OrderRequest { product_id: 0, amount: 1 };
    let recipe = Recipe { material_id: 0, material_amount: 1 };
    assert_eq!(order.project(recipe, OrderOutcome::from_status(0)), Err(RunError::EngineRejected(0)));
    assert_eq!(order.project(recipe, OrderOutcome::from_status(6)), Err(RunError::EngineRejected(6)));
}

#[test]
fn the_largest_order_does_not_overflow() {
    let order = OrderRequest { product_id: 0, amount: usize::MAX };
    let recipe = Recipe { material_id: 0, material_amount: usize::MAX };
    let record = order.project(recipe, OrderOutcome::Fulfilled).unwrap();
    assert_eq!(record.amount, (usize::MAX as u128) * (usize::MAX as u128));
}

#[test]
fn an_order_of_nothing_consumes_nothing() {
    let order = OrderRequest { product_id: 2, amount: 0 };
    let recipe = Recipe { material_id: 9, material_amount: 31 };
    let record = order.project(recipe, OrderOutcome::Fulfilled).unwrap();
    assert_eq!(record.amount, 0);
    assert_eq!(record.secondary_id, Some(9));
}

#[test]
fn an_accepted_variant_reports_the_drawn_complexity() {
    let request = VariantRequest { product_id: 3, material_id: 1, material_amount: 12 };
    assert_eq!(
        request.project(CallOutcome::Accepted),
        Ok(RunResult {
            code: 0,
            primary_id: 3,
            amount: 0,
            secondary_id: Some(1),
            work_complexity: Complexity::Drawn,
        })
    );
    assert_eq!(request.project(CallOutcome::Rejected(4)), Err(RunError::EngineRejected(4)));
}

#[test]
fn an_accepted_update_has_no_second_identifier() {
    let request = SupplyRequest { material_id: 6, supply: 999 };
    assert_eq!(
        request.project(CallOutcome::from_flag(true)),
        Ok(RunResult {
            code: 0,
            primary_id: 6,
            amount: 999,
            secondary_id: None,
            work_complexity: Complexity::Neutral,
        })
    );
}

#[test]
fn a_failed_update_is_rejected_with_status_two() {
    let request = SupplyRequest { material_id: 6, supply: 999 };
    assert_eq!(request.project(CallOutcome::from_flag(false)), Err(RunError::EngineRejected(2)));
}

#[test]
fn an_unmet_precondition_is_no_engine_status() {
    for status in 0..=255u8 {
        assert_ne!(
            RunError::PreconditionUnmet(Operation::UpdateSupply),
            RunError::EngineRejected(status)
        );
        assert_ne!(
            RunError::PreconditionUnmet(Operation::OrderProduct),
            RunError::EngineRejected(status)
        );
        assert_ne!(RunError::UnknownOperation, RunError::EngineRejected(status));
    }
    assert_ne!(
        RunError::PreconditionUnmet(Operation::UpdateSupply),
        RunError::PreconditionUnmet(Operation::AddProduct)
    );
}
