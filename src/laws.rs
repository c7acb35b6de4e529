//! Properties of the environment that relate several operations.
use vstd::prelude::*;
use crate::body::{CallableView, ExprId};
use crate::env::{
    current_scope, entered, flushed, left, lookup_in, with_pending, EnvView, ExprProp, LocalBinding,
};

verus! {

/// The net change in depth of a sequence of scope operations: `Some(e)`
/// enters `e`, `None` leaves.
pub open spec fn net_depth(ops: Seq<Option<ExprId>>) -> int
    decreases ops.len(),
{
    if ops.len() == 0 {
        0
    } else {
        net_depth(ops.drop_last()) + if ops.last() is Some {
            1int
        } else {
            -1int
        }
    }
}

/// No prefix of `ops` leaves more scopes than it entered.
pub open spec fn well_nested(ops: Seq<Option<ExprId>>) -> bool {
    forall|i: int| 0 <= i <= ops.len() ==> net_depth(#[trigger] ops.take(i)) >= 0
}

/// `v` after running the scope operations `ops` in order.
pub open spec fn run_scope_ops(v: EnvView, ops: Seq<Option<ExprId>>) -> EnvView
    decreases ops.len(),
{
    if ops.len() == 0 {
        v
    } else {
        let w = run_scope_ops(v, ops.drop_last());
        match ops.last() {
            Some(e) => entered(w, e),
            None => left(w),
        }
    }
}

proof fn lemma_scope_ops_extend(v: EnvView, ops: Seq<Option<ExprId>>)
    requires
        v.scopes.len() >= 1,
        well_nested(ops),
    ensures
        run_scope_ops(v, ops).scopes.len() == v.scopes.len() + net_depth(ops),
        run_scope_ops(v, ops).scopes.take(v.scopes.len() as int) == v.scopes,
        run_scope_ops(v, ops) == (EnvView { scopes: run_scope_ops(v, ops).scopes, ..v }),
    decreases ops.len(),
{
    if ops.len() == 0 {
        assert(v.scopes.take(v.scopes.len() as int) =~= v.scopes);
    } else {
        let rest = ops.drop_last();
        assert forall|i: int| 0 <= i <= rest.len() implies net_depth(#[trigger] rest.take(i)) >= 0 by {
            assert(rest.take(i) == ops.take(i));
        }
        lemma_scope_ops_extend(v, rest);
        assert(ops.take(ops.len() as int) == ops);
        assert(net_depth(ops.take(ops.len() as int)) >= 0);
        let w = run_scope_ops(v, rest);
        match ops.last() {
            Some(e) => {
                assert(entered(w, e).scopes.take(v.scopes.len() as int) =~= w.scopes.take(v.scopes.len() as int));
            },
            None => {
                assert(left(w).scopes.take(v.scopes.len() as int) =~= w.scopes.take(v.scopes.len() as int));
            },
        }
    }
}

/// Scope balance: a well-nested sequence of enters and leaves with as many
/// leaves as enters restores the environment, its scope stack and current
/// scope included.
pub proof fn law_scope_balance(v: EnvView, ops: Seq<Option<ExprId>>)
    requires
        v.scopes.len() >= 1,
        well_nested(ops),
        net_depth(ops) == 0,
    ensures
        run_scope_ops(v, ops) == v,
        run_scope_ops(v, ops).scopes.len() == v.scopes.len(),
        current_scope(run_scope_ops(v, ops)) == current_scope(v),
{
    lemma_scope_ops_extend(v, ops);
    let w = run_scope_ops(v, ops);
    assert(w.scopes =~= w.scopes.take(v.scopes.len() as int));
}

/// Shadowing: a name bound in an inner scope hides its outer binding until
/// the inner scope is left, when the outer binding is seen again.
pub proof fn law_shadowing(v: EnvView, e: ExprId, name: u32, outer: LocalBinding, inner: LocalBinding)
    requires
        v.scopes.len() >= 1,
        lookup_in(v.scopes, name) == Some(outer),
    ensures
        lookup_in(flushed(with_pending(entered(v, e), name, inner)).scopes, name) == Some(inner),
        lookup_in(left(flushed(with_pending(entered(v, e), name, inner))).scopes, name) == Some(outer),
{
    let w = flushed(with_pending(entered(v, e), name, inner));
    assert(left(w).scopes =~= v.scopes);
}

/// Pending isolation: a staged binding changes no lookup until it is
/// flushed, after which its name resolves to it; flushing again with nothing
/// staged changes nothing.
pub proof fn law_pending_isolation(v: EnvView, name: u32, b: LocalBinding)
    requires
        v.scopes.len() >= 1,
    ensures
        with_pending(v, name, b).scopes == v.scopes,
        lookup_in(with_pending(v, name, b).scopes, name) == lookup_in(v.scopes, name),
        lookup_in(flushed(with_pending(v, name, b)).scopes, name) == Some(b),
        flushed(flushed(with_pending(v, name, b))) == flushed(with_pending(v, name, b)),
{
    let w = flushed(with_pending(v, name, b));
    let top = w.scopes.last();
    assert(top.vars.union_prefer_right(Map::<u32, LocalBinding>::empty()) =~= top.vars);
    assert(w.scopes.update(w.scopes.len() - 1, top) =~= w.scopes);
    assert(flushed(w) =~= w);
}

/// Callable uniqueness: the state `register_callable` leaves for `e` holds
/// `e` in its callable table, so the precondition of `register_callable`
/// (no callable registered for `e` yet) rules out a second registration.
pub proof fn law_callable_registered_once(v: EnvView, e: ExprId, c: CallableView)
    requires
        !v.callables.contains_key(e.0),
    ensures
        (EnvView { callables: v.callables.insert(e.0, c), ..v }).callables.contains_key(e.0),
{
}

/// Last write wins: typing an expression twice leaves the second record.
pub proof fn law_last_write_wins(v: EnvView, e: ExprId, r1: ExprProp, r2: ExprProp)
    ensures
        ({
            let w1 = EnvView { expr_ty: v.expr_ty.insert(e.0, r1), ..v };
            let w2 = EnvView { expr_ty: w1.expr_ty.insert(e.0, r2), ..w1 };
            w2.expr_ty.contains_key(e.0) && w2.expr_ty[e.0] == r2
        }),
{
}

} // verus!
