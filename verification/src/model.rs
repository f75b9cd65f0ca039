//! The model wrapper: a scoped, context-bound view of one satisfying
//! assignment held by the engine.
//!
//! The engine is consulted by the caller; every reply reaches this module as
//! a plain value (`None` standing for the engine's null handle). The module
//! decides what each reply means, keeps every derived handle bound to the
//! model's own context, and emits exactly one [`RefOp::Acquire`] per wrapper
//! constructed and exactly one [`RefOp::Release`] per wrapper released.

use vstd::prelude::*;

use crate::handles::AstRef;
use crate::handles::ContextId;
use crate::handles::FuncDecl;
use crate::handles::Optimize;
use crate::handles::RefOp;
use crate::handles::Solver;

verus! {

/// What a model wrapper is, mathematically: the context it is bound to and
/// the raw engine handle it holds one reference on.
pub struct ModelView {
    pub ctx: ContextId,
    pub raw: u64,
}

/// A model wrapper. It can be built only from a solver's or optimizer's
/// non-null reply or by translation, each construction emitting one acquire;
/// it is neither `Clone` nor `Copy`, so the single reference it holds cannot
/// be duplicated; and it can be parted with only through [`Model::release`],
/// which emits the one matching release.
pub struct Model {
    ctx: ContextId,
    raw: u64,
}

/// The engine's reply to a checked interpretation lookup, when an
/// interpretation is present: the raw value handle, and the engine's verdict
/// on whether the value's sort equals the sort the caller's static type
/// reports for itself.
#[derive(Clone, Copy, PartialEq, Eq, Structural, Debug)]
pub struct InterpReply {
    pub raw: u64,
    pub sort_matches: bool,
}

/// Verdict of a checked interpretation lookup. `Unassigned` and `Value` are
/// ordinary results; `SortMismatch` is a contract violation, and the caller
/// must abort on it rather than continue with a misread value.
#[derive(Clone, Copy, PartialEq, Eq, Structural, Debug)]
pub enum InterpOutcome {
    /// The model assigns the constant no interpretation: its value does not
    /// matter and the caller may pick any.
    Unassigned,
    /// The interpretation, wrapped in the model's own context.
    Value(AstRef),
    /// The interpretation exists but its sort disagrees with the requested
    /// static type: fail fast, never hand back a misinterpreted handle.
    SortMismatch,
}

/// Meaning of a checked interpretation lookup: absence is decided first, so
/// a null reply is `Unassigned` whatever any sort comparison would have
/// said; only a present value has its sort verified.
pub open spec fn interp_verdict(ctx: ContextId, reply: Option<InterpReply>) -> InterpOutcome {
    match reply {
        None => InterpOutcome::Unassigned,
        Some(ir) => if ir.sort_matches {
            InterpOutcome::Value(AstRef { ctx, raw: ir.raw })
        } else {
            InterpOutcome::SortMismatch
        },
    }
}

/// Meaning of an unchecked interpretation lookup: the same presence decision,
/// with no sort verification at all.
pub open spec fn interp_unchecked(ctx: ContextId, reply: Option<u64>) -> Option<AstRef> {
    match reply {
        None => None,
        Some(h) => Some(AstRef { ctx, raw: h }),
    }
}

/// Meaning of a constant-declaration lookup: every index at or past the
/// model's constant count is "no such item", never an error; an index in
/// range wraps the fetched handle in the model's own context.
pub open spec fn const_decl_at(
    m: ModelView,
    index: u32,
    num_consts: u32,
    fetched: Option<u64>,
) -> Option<FuncDecl> {
    if index >= num_consts {
        None
    } else {
        match fetched {
            None => None,
            Some(h) => Some(FuncDecl { ctx: m.ctx, raw: h }),
        }
    }
}

impl View for Model {
    type V = ModelView;

    closed spec fn view(&self) -> ModelView {
        ModelView { ctx: self.ctx, raw: self.raw }
    }
}

impl Model {
    /// Wrap a handle the engine has handed out: bind it to `ctx` and emit the
    /// one acquire this wrapper will hold until released.
    fn wrap(ctx: ContextId, raw: u64) -> (r: (Model, RefOp))
        ensures
            r.0@ == (ModelView { ctx, raw }),
            r.1 == (RefOp::Acquire { ctx, raw }),
    {
        (Model { ctx, raw }, RefOp::Acquire { ctx, raw })
    }

    /// The context this wrapper is bound to.
    pub fn context(&self) -> (c: ContextId)
        ensures
            c == self@.ctx,
    {
        self.ctx
    }

    /// The raw engine handle this wrapper holds one reference on.
    pub fn raw_handle(&self) -> (h: u64)
        ensures
            h == self@.raw,
    {
        self.raw
    }

    /// Decide a solver's current-model reply. A null reply (`None`) — the
    /// last check was not satisfiable, or no check has run — is the empty
    /// case; a handle is wrapped, bound to the solver's context, with one
    /// acquire owed to the engine.
    pub fn of_solver(slv: &Solver, fetched: Option<u64>) -> (r: Option<(Model, RefOp)>)
        ensures
            r is Some <==> fetched is Some,
            fetched matches Some(h) ==> r matches Some(p) && p.0@ == (ModelView {
                ctx: slv.ctx,
                raw: h,
            }) && p.1 == (RefOp::Acquire { ctx: slv.ctx, raw: h }),
    {
        match fetched {
            None => None,
            Some(h) => Some(Self::wrap(slv.ctx, h)),
        }
    }

    /// Decide an optimizer's current-model reply; the contract of
    /// [`Model::of_solver`], against an optimizer.
    pub fn of_optimize(opt: &Optimize, fetched: Option<u64>) -> (r: Option<(Model, RefOp)>)
        ensures
            r is Some <==> fetched is Some,
            fetched matches Some(h) ==> r matches Some(p) && p.0@ == (ModelView {
                ctx: opt.ctx,
                raw: h,
            }) && p.1 == (RefOp::Acquire { ctx: opt.ctx, raw: h }),
    {
        match fetched {
            None => None,
            Some(h) => Some(Self::wrap(opt.ctx, h)),
        }
    }

    /// Wrap the handle the engine produced by translating this model into
    /// the context `dest`. The new wrapper is independent — it is bound to
    /// `dest` and holds an acquire of its own — and this model is borrowed,
    /// not touched: it stays valid and is released on its own.
    pub fn translate(&self, dest: ContextId, translated: u64) -> (r: (Model, RefOp))
        ensures
            r.0@ == (ModelView { ctx: dest, raw: translated }),
            r.1 == (RefOp::Acquire { ctx: dest, raw: translated }),
    {
        Self::wrap(dest, translated)
    }

    /// Decide an evaluation reply. The expression must belong to this model's
    /// context; a successful reply is wrapped in that same context, a failed
    /// one (an unassigned constant met without completion) is the empty case.
    /// The model itself is only read.
    pub fn eval(&self, ast: &AstRef, evaluated: Option<u64>) -> (r: Option<AstRef>)
        requires
            ast.ctx == self@.ctx,
        ensures
            r is Some <==> evaluated is Some,
            evaluated matches Some(h) ==> r == Some((AstRef { ctx: self@.ctx, raw: h })),
    {
        match evaluated {
            None => None,
            Some(h) => Some(AstRef { ctx: self.ctx, raw: h }),
        }
    }

    /// Decide a constant-declaration lookup for the zero-based `index`, given
    /// the engine's constant count and, when the index is in range, the
    /// fetched declaration handle. An index at or past the count is not an
    /// error, only "no such item" — also on a model with zero constants.
    pub fn get_const_decl(&self, index: u32, num_consts: u32, fetched: Option<u64>) -> (r: Option<
        FuncDecl,
    >)
        requires
            index < num_consts ==> fetched is Some,
        ensures
            r == const_decl_at(self@, index, num_consts, fetched),
            r is Some <==> index < num_consts,
    {
        if index >= num_consts {
            None
        } else {
            Some(FuncDecl { ctx: self.ctx, raw: fetched.unwrap() })
        }
    }

    /// Decide a checked interpretation lookup for `decl`, from the engine's
    /// reply. Absence is decided strictly first: a null reply means the
    /// constant is unconstrained, and no sort is examined. Only then is a
    /// present value's sort verified against the requested static type; on
    /// disagreement the verdict is [`InterpOutcome::SortMismatch`], which the
    /// caller must turn into an abort, never into a value.
    #[must_use]
    pub fn get_const_interp(&self, decl: &FuncDecl, reply: Option<InterpReply>) -> (r:
        InterpOutcome)
        requires
            decl.ctx == self@.ctx,
        ensures
            r == interp_verdict(self@.ctx, reply),
    {
        match reply {
            None => InterpOutcome::Unassigned,
            Some(ir) => if ir.sort_matches {
                InterpOutcome::Value(AstRef { ctx: self.ctx, raw: ir.raw })
            } else {
                InterpOutcome::SortMismatch
            },
        }
    }

    /// Decide an unchecked interpretation lookup: the same presence decision
    /// as the checked one, with the sort verification skipped by contract.
    /// The caller guarantees the requested static type matches; this entry
    /// point exists only for call sites that established the sort by other
    /// means.
    pub fn get_const_interp_unchecked(&self, decl: &FuncDecl, reply: Option<u64>) -> (r: Option<
        AstRef,
    >)
        requires
            decl.ctx == self@.ctx,
        ensures
            r == interp_unchecked(self@.ctx, reply),
    {
        match reply {
            None => None,
            Some(h) => Some(AstRef { ctx: self.ctx, raw: h }),
        }
    }

    /// Part with the wrapper: consume it and emit the one release matching
    /// the acquire of its construction. After this the handle must not be
    /// touched on this wrapper's behalf again.
    pub fn release(self) -> (op: RefOp)
        ensures
            op == (RefOp::Release { ctx: self@.ctx, raw: self@.raw }),
    {
        RefOp::Release { ctx: self.ctx, raw: self.raw }
    }
}

/// Law: an out-of-range index yields the empty case — for every index at or
/// past the constant count, on every model, whatever the engine would have
/// replied, including on a model with zero constants.
pub proof fn lemma_out_of_range_index_is_empty(
    m: ModelView,
    index: u32,
    num_consts: u32,
    fetched: Option<u64>,
)
    requires
        index >= num_consts,
    ensures
        const_decl_at(m, index, num_consts, fetched) is None,
{
}

/// Law: a present interpretation whose sort disagrees with the requested
/// static type is a fatal verdict in the checked lookup, while the unchecked
/// lookup hands the same reply back as a value without performing the check.
pub proof fn lemma_sort_mismatch_is_fatal(ctx: ContextId, ir: InterpReply)
    requires
        !ir.sort_matches,
    ensures
        interp_verdict(ctx, Some(ir)) == InterpOutcome::SortMismatch,
        interp_unchecked(ctx, Some(ir.raw)) == Some((AstRef { ctx, raw: ir.raw })),
{
}

/// Law: absence is decided before any sort comparison. A null reply is
/// `Unassigned` in the checked and the unchecked lookup alike; no sort takes
/// part in that decision.
pub proof fn lemma_absence_precedes_sort_check(ctx: ContextId)
    ensures
        interp_verdict(ctx, None) == InterpOutcome::Unassigned,
        interp_unchecked(ctx, None) is None,
{
}

} // verus!
