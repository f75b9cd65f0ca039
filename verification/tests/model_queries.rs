use z3model::handles::AstRef;
use z3model::handles::ContextId;
use z3model::handles::FuncDecl;
use z3model::handles::Optimize;
use z3model::handles::RefOp;
use z3model::handles::Solver;
use z3model::model::InterpOutcome;
use z3model::model::InterpReply;
use z3model::model::Model;

fn solved(ctx: ContextId, handle: u64) -> (Model, RefOp) {
    let solver = Solver { ctx, raw: 100 };
    Model::of_solver(&solver, Some(handle)).expect("a non-null reply wraps")
}

#[test]
fn test_unsat() {
    // A solver whose last check proved unsatisfiable offers a null model
    // handle, and the empty case comes back.
    let ctx = ContextId { id: 1 };
    let solver = Solver { ctx, raw: 100 };
    let fetched: Option<u64> = None;
    assert!(fetched.is_none());
    assert!(Model::of_solver(&solver, fetched).is_none());
}

#[test]
fn of_optimize_null_reply_is_empty() {
    let ctx = ContextId { id: 1 };
    let optimize = Optimize { ctx, raw: 200 };
    assert!(Model::of_optimize(&optimize, None).is_none());
}

#[test]
fn wrapping_acquires_exactly_the_fetched_handle() {
    let ctx = ContextId { id: 3 };
    let (model, op) = solved(ctx, 7);
    assert_eq!(op, RefOp::Acquire { ctx, raw: 7 });
    assert_eq!(model.context(), ctx);
    assert_eq!(model.raw_handle(), 7);
    assert_eq!(model.release(), RefOp::Release { ctx, raw: 7 });
}

#[test]
fn of_optimize_wraps_in_the_optimizers_context() {
    let ctx = ContextId { id: 9 };
    let optimize = Optimize { ctx, raw: 200 };
    let (model, op) = Model::of_optimize(&optimize, Some(13)).expect("a non-null reply wraps");
    assert_eq!(op, RefOp::Acquire { ctx, raw: 13 });
    assert_eq!(model.context(), ctx);
    assert_eq!(model.release(), RefOp::Release { ctx, raw: 13 });
}

#[test]
fn eval_wraps_success_and_passes_failure_through() {
    let ctx = ContextId { id: 2 };
    let (model, _op) = solved(ctx, 7);
    let expr = AstRef { ctx, raw: 40 };
    assert_eq!(model.eval(&expr, Some(41)), Some(AstRef { ctx, raw: 41 }));
    assert_eq!(model.eval(&expr, None), None);
    model.release();
}

#[test]
fn out_of_range_index_is_no_such_item() {
    let ctx = ContextId { id: 2 };
    let (model, _op) = solved(ctx, 7);
    assert_eq!(model.get_const_decl(3, 3, None), None);
    assert_eq!(model.get_const_decl(u32::MAX, 3, None), None);
    // A model with zero constants has no item at any index.
    assert_eq!(model.get_const_decl(0, 0, None), None);
    model.release();
}

#[test]
fn in_range_index_wraps_the_fetched_declaration() {
    let ctx = ContextId { id: 2 };
    let (model, _op) = solved(ctx, 7);
    assert_eq!(
        model.get_const_decl(2, 3, Some(55)),
        Some(FuncDecl { ctx, raw: 55 })
    );
    model.release();
}

#[test]
fn absent_interpretation_is_unassigned() {
    let ctx = ContextId { id: 4 };
    let (model, _op) = solved(ctx, 7);
    let decl = FuncDecl { ctx, raw: 60 };
    assert_eq!(model.get_const_interp(&decl, None), InterpOutcome::Unassigned);
    assert_eq!(model.get_const_interp_unchecked(&decl, None), None);
    model.release();
}

#[test]
fn matching_sort_yields_the_wrapped_value() {
    let ctx = ContextId { id: 4 };
    let (model, _op) = solved(ctx, 7);
    let decl = FuncDecl { ctx, raw: 60 };
    let reply = InterpReply { raw: 61, sort_matches: true };
    assert_eq!(
        model.get_const_interp(&decl, Some(reply)),
        InterpOutcome::Value(AstRef { ctx, raw: 61 })
    );
    model.release();
}

#[test]
fn mismatched_sort_is_fatal_only_in_the_checked_lookup() {
    let ctx = ContextId { id: 4 };
    let (model, _op) = solved(ctx, 7);
    let decl = FuncDecl { ctx, raw: 60 };
    let reply = InterpReply { raw: 61, sort_matches: false };
    assert_eq!(
        model.get_const_interp(&decl, Some(reply)),
        InterpOutcome::SortMismatch
    );
    // The unchecked lookup performs no sort verification on the same reply.
    assert_eq!(
        model.get_const_interp_unchecked(&decl, Some(61)),
        Some(AstRef { ctx, raw: 61 })
    );
    model.release();
}

#[test]
fn translation_leaves_the_source_independently_queryable() {
    let src_ctx = ContextId { id: 5 };
    let dest_ctx = ContextId { id: 6 };
    let (source, src_op) = solved(src_ctx, 7);
    assert_eq!(src_op, RefOp::Acquire { ctx: src_ctx, raw: 7 });

    let (dest, dest_op) = source.translate(dest_ctx, 8);
    assert_eq!(dest_op, RefOp::Acquire { ctx: dest_ctx, raw: 8 });
    assert_eq!(dest.context(), dest_ctx);
    assert_eq!(dest.raw_handle(), 8);

    // Querying the destination, then releasing it, touches the source in no
    // way: the source still answers queries in its own context.
    let dest_expr = AstRef { ctx: dest_ctx, raw: 80 };
    assert_eq!(dest.eval(&dest_expr, Some(81)), Some(AstRef { ctx: dest_ctx, raw: 81 }));
    assert_eq!(dest.release(), RefOp::Release { ctx: dest_ctx, raw: 8 });

    let src_expr = AstRef { ctx: src_ctx, raw: 70 };
    assert_eq!(source.eval(&src_expr, Some(71)), Some(AstRef { ctx: src_ctx, raw: 71 }));
    assert_eq!(source.context(), src_ctx);
    assert_eq!(source.release(), RefOp::Release { ctx: src_ctx, raw: 7 });
}
