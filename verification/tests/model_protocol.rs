use z3::handle::RefLedger;
use z3::model::{
    as_array_step, const_interp_outcome, eval_outcome, func_interp_as_const_outcome,
    interp_query_for, model_len, translate_outcome, AsArrayStep, DeclIndex, InterpQuery,
    ModelIter,
};
use z3::Handle;

#[test]
fn iteration_yields_constants_then_functions() {
    // Two constants and two functions: exactly four items, constants first,
    // each group by rising engine index.
    let order = ModelIter::collect_order(2, 2);
    assert_eq!(
        order,
        vec![
            DeclIndex::Constant(0),
            DeclIndex::Constant(1),
            DeclIndex::Function(0),
            DeclIndex::Function(1),
        ]
    );
}

#[test]
fn iteration_count_is_fixed_at_start() {
    // The counts are captured when iteration starts; the iteration yields
    // exactly that many items and then stays spent.
    let mut it = ModelIter::new(1, 2);
    assert_eq!(it.remaining(), 3);
    assert_eq!(it.next(), Some(DeclIndex::Constant(0)));
    assert_eq!(it.next(), Some(DeclIndex::Function(0)));
    assert_eq!(it.next(), Some(DeclIndex::Function(1)));
    assert_eq!(it.remaining(), 0);
    assert_eq!(it.next(), None);
    assert_eq!(it.next(), None);
}

#[test]
fn iteration_over_empty_model() {
    let order = ModelIter::collect_order(0, 0);
    assert!(order.is_empty());
    let mut it = ModelIter::new(0, 0);
    assert_eq!(it.next(), None);
}

#[test]
fn model_length_adds_both_groups() {
    assert_eq!(model_len(3, 4), 7);
    assert_eq!(model_len(0, 0), 0);
}

#[test]
fn interpretation_query_routes_by_arity() {
    assert_eq!(interp_query_for(0), InterpQuery::ConstValue);
    assert_eq!(interp_query_for(1), InterpQuery::FuncTable);
    assert_eq!(interp_query_for(17), InterpQuery::FuncTable);
}

#[test]
fn positive_arity_has_no_constant_interpretation() {
    // Whatever the model holds, a declaration of positive arity never has a
    // constant interpretation, and no count moves.
    let mut ledger = RefLedger::new();
    let r = func_interp_as_const_outcome(&mut ledger, 1, 3, None);
    assert_eq!(r, None);
    let r = func_interp_as_const_outcome(&mut ledger, 1, 1, Some(42));
    assert_eq!(r, None);
    assert_eq!(ledger.count(42), 0);
}

#[test]
fn zero_arity_constant_interpretation_wraps_engine_answer() {
    let mut ledger = RefLedger::new();
    // The declaration is uninterpreted in the model: absent, no count moves.
    let r = func_interp_as_const_outcome(&mut ledger, 1, 0, Some(0));
    assert_eq!(r, None);
    // The model interprets it: one claim on the answer.
    let r = func_interp_as_const_outcome(&mut ledger, 1, 0, Some(9));
    assert_eq!(r, Some(Handle { ctx: 1, raw: 9 }));
    assert_eq!(ledger.count(9), 1);
}

#[test]
fn constant_interpretation_outcomes() {
    let mut ledger = RefLedger::new();
    // The expression's declaration could not be resolved: absent.
    assert_eq!(const_interp_outcome(&mut ledger, 1, false, None), None);
    // The declaration is free in the model (null answer): absent, no count.
    assert_eq!(const_interp_outcome(&mut ledger, 1, true, Some(0)), None);
    // The model interprets the declaration: the value, claimed once.
    assert_eq!(
        const_interp_outcome(&mut ledger, 1, true, Some(4)),
        Some(Handle { ctx: 1, raw: 4 })
    );
    assert_eq!(ledger.count(4), 1);
}

#[test]
fn as_array_resolution_steps() {
    // No constant interpretation: nothing to follow.
    assert_eq!(as_array_step(0, false, false, 0), AsArrayStep::Absent);
    // A constant whose range is not an array sort never redirects.
    assert_eq!(as_array_step(5, false, false, 8), AsArrayStep::Absent);
    // An array-sorted constant that is not an as-array value: absent.
    assert_eq!(as_array_step(5, true, false, 8), AsArrayStep::Absent);
    // An as-array value redirects to the defining function declaration.
    assert_eq!(as_array_step(5, true, true, 8), AsArrayStep::Follow(8));
}

#[test]
fn evaluation_surfaces_engine_report() {
    let mut ledger = RefLedger::new();
    // The engine could not evaluate (an unassigned declaration without
    // completion): absent, no count moves.
    assert_eq!(eval_outcome(&mut ledger, 1, false, 6), None);
    assert_eq!(ledger.count(6), 0);
    // The engine evaluated: the result carries one claim.
    assert_eq!(
        eval_outcome(&mut ledger, 1, true, 6),
        Some(Handle { ctx: 1, raw: 6 })
    );
    assert_eq!(ledger.count(6), 1);
}

#[test]
fn translation_tags_destination_context() {
    let mut ledger = RefLedger::new();
    let h = translate_outcome(&mut ledger, 2, 11);
    assert_eq!(h, Handle { ctx: 2, raw: 11 });
    assert_eq!(ledger.count(11), 1);
}
