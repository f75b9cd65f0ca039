//! Plain stand-ins for the engine's opaque handles, and the reference-count
//! operations this layer instructs its caller to perform on the engine.

use vstd::prelude::*;

verus! {

/// Identity of one engine context: the isolated namespace that owns every
/// interned symbolic object. A handle tagged with a context may be used only
/// against that context, except through explicit model translation.
#[derive(Clone, Copy, PartialEq, Eq, Structural, Debug)]
pub struct ContextId {
    pub id: u64,
}

/// A solver, as this layer sees it: its raw engine handle and the context it
/// belongs to. Solving itself is the engine's business; this layer only reads
/// the model handle a solved solver offers.
#[derive(Clone, Copy, PartialEq, Eq, Structural, Debug)]
pub struct Solver {
    pub ctx: ContextId,
    pub raw: u64,
}

/// An optimizer, seen the same way as a solver.
#[derive(Clone, Copy, PartialEq, Eq, Structural, Debug)]
pub struct Optimize {
    pub ctx: ContextId,
    pub raw: u64,
}

/// An expression handle tagged with the context that owns it.
#[derive(Clone, Copy, PartialEq, Eq, Structural, Debug)]
pub struct AstRef {
    pub ctx: ContextId,
    pub raw: u64,
}

/// A constant declaration handle tagged with its context. Declarations are
/// re-wrapped on every query and carry no model ownership.
#[derive(Clone, Copy, PartialEq, Eq, Structural, Debug)]
pub struct FuncDecl {
    pub ctx: ContextId,
    pub raw: u64,
}

/// A reference-count operation owed to the engine for one model handle.
/// Wrapper construction emits exactly one `Acquire`; wrapper release emits
/// exactly one `Release`; queries emit none.
#[derive(Clone, Copy, PartialEq, Eq, Structural, Debug)]
pub enum RefOp {
    Acquire { ctx: ContextId, raw: u64 },
    Release { ctx: ContextId, raw: u64 },
}

/// How one operation changes the count of references this layer holds on the
/// handle `raw` of context `ctx`.
pub open spec fn ref_delta(op: RefOp, ctx: ContextId, raw: u64) -> int {
    match op {
        RefOp::Acquire { ctx: c, raw: h } => if c == ctx && h == raw {
            1
        } else {
            0
        },
        RefOp::Release { ctx: c, raw: h } => if c == ctx && h == raw {
            -1
        } else {
            0
        },
    }
}

/// The net number of references a sequence of operations leaves this layer
/// holding on the handle `raw` of context `ctx`.
pub open spec fn net_refs(ops: Seq<RefOp>, ctx: ContextId, raw: u64) -> int
    decreases ops.len(),
{
    if ops.len() == 0 {
        0
    } else {
        net_refs(ops.drop_last(), ctx, raw) + ref_delta(ops.last(), ctx, raw)
    }
}

/// Law: one wrapper's lifetime is balanced. The acquire emitted at
/// construction and the release emitted at destruction cancel, so a wrapper
/// that has been released leaves every handle's count where it found it.
pub proof fn lemma_wrap_release_balanced(ctx: ContextId, raw: u64, oc: ContextId, oh: u64)
    ensures
        net_refs(
            seq![RefOp::Acquire { ctx, raw }, RefOp::Release { ctx, raw }],
            oc,
            oh,
        ) == 0,
{
    let acq = RefOp::Acquire { ctx, raw };
    let rel = RefOp::Release { ctx, raw };
    let ops = seq![acq, rel];
    assert(ops.last() == rel);
    assert(ops.drop_last() =~= seq![acq]);
    assert(seq![acq].last() == acq);
    assert(seq![acq].drop_last() =~= Seq::<RefOp>::empty());
    assert(net_refs(Seq::<RefOp>::empty(), oc, oh) == 0);
    assert(net_refs(seq![acq], oc, oh) == ref_delta(acq, oc, oh));
    assert(net_refs(ops, oc, oh) == ref_delta(acq, oc, oh) + ref_delta(rel, oc, oh));
}

/// Law: a balanced acquire/release pair appended to any history changes no
/// handle's count. Repeated scoped wrappers therefore never accumulate or
/// leak references, whatever else the history holds.
pub proof fn lemma_scoped_pair_cancels(
    ops: Seq<RefOp>,
    ctx: ContextId,
    raw: u64,
    oc: ContextId,
    oh: u64,
)
    ensures
        net_refs(
            ops.push(RefOp::Acquire { ctx, raw }).push(RefOp::Release { ctx, raw }),
            oc,
            oh,
        ) == net_refs(ops, oc, oh),
{
    let acq = RefOp::Acquire { ctx, raw };
    let rel = RefOp::Release { ctx, raw };
    let mid = ops.push(acq);
    let all = mid.push(rel);
    assert(all.last() == rel);
    assert(all.drop_last() =~= mid);
    assert(mid.last() == acq);
    assert(mid.drop_last() =~= ops);
    assert(net_refs(mid, oc, oh) == net_refs(ops, oc, oh) + ref_delta(acq, oc, oh));
    assert(net_refs(all, oc, oh) == net_refs(mid, oc, oh) + ref_delta(rel, oc, oh));
}

/// Law: translation leaves the source wrapper referenced. After the source
/// wrapper's acquire, an acquire for the translated wrapper and the release
/// of that translated wrapper, the source handle's count is exactly one —
/// also when translation returned the very same handle.
pub proof fn lemma_translate_keeps_source_referenced(
    src_ctx: ContextId,
    src_raw: u64,
    dest_ctx: ContextId,
    dest_raw: u64,
)
    ensures
        net_refs(
            seq![
                RefOp::Acquire { ctx: src_ctx, raw: src_raw },
                RefOp::Acquire { ctx: dest_ctx, raw: dest_raw },
                RefOp::Release { ctx: dest_ctx, raw: dest_raw },
            ],
            src_ctx,
            src_raw,
        ) == 1,
{
    let src_acq = RefOp::Acquire { ctx: src_ctx, raw: src_raw };
    let dest_acq = RefOp::Acquire { ctx: dest_ctx, raw: dest_raw };
    let dest_rel = RefOp::Release { ctx: dest_ctx, raw: dest_raw };
    let ops = seq![src_acq, dest_acq, dest_rel];
    assert(ops.last() == dest_rel);
    assert(ops.drop_last() =~= seq![src_acq, dest_acq]);
    assert(seq![src_acq, dest_acq].last() == dest_acq);
    assert(seq![src_acq, dest_acq].drop_last() =~= seq![src_acq]);
    assert(seq![src_acq].last() == src_acq);
    assert(seq![src_acq].drop_last() =~= Seq::<RefOp>::empty());
    assert(net_refs(Seq::<RefOp>::empty(), src_ctx, src_raw) == 0);
    assert(net_refs(seq![src_acq], src_ctx, src_raw) == 1);
    assert(net_refs(seq![src_acq, dest_acq], src_ctx, src_raw) == 1 + ref_delta(
        dest_acq,
        src_ctx,
        src_raw,
    ));
    assert(net_refs(ops, src_ctx, src_raw) == 1 + ref_delta(dest_acq, src_ctx, src_raw)
        + ref_delta(dest_rel, src_ctx, src_raw));
}

} // verus!
