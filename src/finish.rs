//! Finishing an environment into an immutable typed body.
use vstd::prelude::*;
use crate::body::{Body, Callable, CallableView};
use crate::env::{ExprProp, TyCheckEnv};
use crate::fxmap::{fx_drain, fx_insert, fx_new, FxMap};
use crate::ty::{finished, has_string_var, lemma_default_strings_complete, Ty};
use crate::unify::{finish_ty, UnificationTable};

verus! {

/// The finalized results of checking one body.
pub struct TypedBody {
    pub body: Body,
    pub pat_ty: FxMap<Ty>,
    pub expr_ty: FxMap<ExprProp>,
    pub callables: FxMap<Callable>,
}

/// An expression record with its type finished.
pub open spec fn finished_prop(tbl: Map<u32, Ty>, p: ExprProp) -> ExprProp {
    ExprProp { ty: finished(tbl, p.ty), ..p }
}

/// A callable with its generic arguments finished.
pub open spec fn finished_callable(tbl: Map<u32, Ty>, c: CallableView) -> CallableView {
    CallableView { func: c.func, generic_args: c.generic_args.map_values(|t: Ty| finished(tbl, t)) }
}

/// A finished type holds no string-length variable.
pub proof fn lemma_finished_has_no_string_var(tbl: Map<u32, Ty>, ty: Ty)
    ensures
        !has_string_var(finished(tbl, ty)),
{
    lemma_default_strings_complete(crate::ty::subst(tbl, ty));
}

fn finish_tys(table: &UnificationTable, v: &Vec<Ty>) -> (r: Vec<Ty>)
    ensures
        r@ == v@.map_values(|t: Ty| finished(table@, t)),
{
    let mut r: Vec<Ty> = Vec::new();
    let mut i: usize = 0;
    while i < v.len()
        invariant
            i <= v@.len(),
            r@.len() == i,
            forall|j: int| 0 <= j < i ==> #[trigger] r@[j] == finished(table@, v@[j]),
        decreases v@.len() - i,
    {
        r.push(finish_ty(table, &v[i]));
        i = i + 1;
    }
    proof {
        assert(r@ =~= v@.map_values(|t: Ty| finished(table@, t)));
    }
    r
}

fn finish_pat_tys(table: &UnificationTable, m: FxMap<Ty>) -> (r: FxMap<Ty>)
    ensures
        r@ == m@.map_values(|t: Ty| finished(table@, t)),
{
    let mut m = m;
    let ghost m0 = m@;
    let entries = fx_drain(&mut m);
    let mut out: FxMap<Ty> = fx_new();
    let mut i: usize = 0;
    while i < entries.len()
        invariant
            i <= entries@.len(),
            forall|a: int, b: int| 0 <= a < b < entries@.len() ==> entries@[a].0 != entries@[b].0,
            forall|j: int| 0 <= j < entries@.len() ==> m0.contains_key(#[trigger] entries@[j].0) && m0[entries@[j].0] == entries@[j].1,
            forall|j: int| 0 <= j < i ==> out@.contains_key(#[trigger] entries@[j].0) && out@[entries@[j].0] == finished(table@, entries@[j].1),
            forall|k: u32| #[trigger] out@.contains_key(k) ==> exists|j: int| 0 <= j < i && entries@[j].0 == k,
        decreases entries@.len() - i,
    {
        let t = finish_ty(table, &entries[i].1);
        fx_insert(&mut out, entries[i].0, t);
        i = i + 1;
    }
    proof {
        assert forall|k: u32| m0.contains_key(k) implies out@.contains_key(k) by {
            let j = choose|j: int| 0 <= j < entries@.len() && #[trigger] entries@[j].0 == k;
            assert(out@.contains_key(entries@[j].0));
        }
        assert(out@ =~= m0.map_values(|t: Ty| finished(table@, t)));
    }
    out
}

fn finish_expr_tys(table: &UnificationTable, m: FxMap<ExprProp>) -> (r: FxMap<ExprProp>)
    ensures
        r@ == m@.map_values(|p: ExprProp| finished_prop(table@, p)),
{
    let mut m = m;
    let ghost m0 = m@;
    let entries = fx_drain(&mut m);
    let mut out: FxMap<ExprProp> = fx_new();
    let mut i: usize = 0;
    while i < entries.len()
        invariant
            i <= entries@.len(),
            forall|a: int, b: int| 0 <= a < b < entries@.len() ==> entries@[a].0 != entries@[b].0,
            forall|j: int| 0 <= j < entries@.len() ==> m0.contains_key(#[trigger] entries@[j].0) && m0[entries@[j].0] == entries@[j].1,
            forall|j: int| 0 <= j < i ==> out@.contains_key(#[trigger] entries@[j].0) && out@[entries@[j].0] == finished_prop(table@, entries@[j].1),
            forall|k: u32| #[trigger] out@.contains_key(k) ==> exists|j: int| 0 <= j < i && entries@[j].0 == k,
        decreases entries@.len() - i,
    {
        let p = &entries[i].1;
        let q = ExprProp { ty: finish_ty(table, &p.ty), is_mut: p.is_mut, binding: p.binding() };
        fx_insert(&mut out, entries[i].0, q);
        i = i + 1;
    }
    proof {
        assert forall|k: u32| m0.contains_key(k) implies out@.contains_key(k) by {
            let j = choose|j: int| 0 <= j < entries@.len() && #[trigger] entries@[j].0 == k;
            assert(out@.contains_key(entries@[j].0));
        }
        assert(out@ =~= m0.map_values(|p: ExprProp| finished_prop(table@, p)));
    }
    out
}

fn finish_callables(table: &UnificationTable, m: FxMap<Callable>) -> (r: FxMap<Callable>)
    ensures
        r@.map_values(|c: Callable| c@) == m@.map_values(|c: Callable| finished_callable(table@, c@)),
{
    let mut m = m;
    let ghost m0 = m@;
    let entries = fx_drain(&mut m);
    let mut out: FxMap<Callable> = fx_new();
    let mut i: usize = 0;
    while i < entries.len()
        invariant
            i <= entries@.len(),
            forall|a: int, b: int| 0 <= a < b < entries@.len() ==> entries@[a].0 != entries@[b].0,
            forall|j: int| 0 <= j < entries@.len() ==> m0.contains_key(#[trigger] entries@[j].0) && m0[entries@[j].0] == entries@[j].1,
            forall|j: int| 0 <= j < i ==> out@.contains_key(#[trigger] entries@[j].0) && out@[entries@[j].0]@ == finished_callable(table@, entries@[j].1@),
            forall|k: u32| #[trigger] out@.contains_key(k) ==> exists|j: int| 0 <= j < i && entries@[j].0 == k,
        decreases entries@.len() - i,
    {
        let c = &entries[i].1;
        let d = Callable { func: c.func, generic_args: finish_tys(table, &c.generic_args) };
        fx_insert(&mut out, entries[i].0, d);
        i = i + 1;
    }
    proof {
        assert forall|k: u32| m0.contains_key(k) implies out@.contains_key(k) by {
            let j = choose|j: int| 0 <= j < entries@.len() && #[trigger] entries@[j].0 == k;
            assert(out@.contains_key(entries@[j].0));
        }
        assert(out@.map_values(|c: Callable| c@) =~= m0.map_values(|c: Callable| finished_callable(table@, c@)));
    }
    out
}

impl TyCheckEnv {
    /// Consumes the environment: every recorded type is substituted through
    /// `table`, and string-length variables left over are defaulted.
    pub fn finish(self, table: &UnificationTable) -> (r: TypedBody)
        ensures
            r.body == self@.body,
            r.pat_ty@ == self@.pat_ty.map_values(|t: Ty| finished(table@, t)),
            r.expr_ty@ == self@.expr_ty.map_values(|p: ExprProp| finished_prop(table@, p)),
            r.callables@.map_values(|c: Callable| c@) == self@.callables.map_values(|c: CallableView| finished_callable(table@, c)),
            forall|k: u32| #[trigger] r.pat_ty@.contains_key(k) ==> !has_string_var(r.pat_ty@[k]),
            forall|k: u32| #[trigger] r.expr_ty@.contains_key(k) ==> !has_string_var(r.expr_ty@[k].ty),
    {
        let (body, pat_ty, expr_ty, callables) = self.into_tables();
        let pat_ty = finish_pat_tys(table, pat_ty);
        let expr_ty = finish_expr_tys(table, expr_ty);
        let callables = finish_callables(table, callables);
        proof {
            assert forall|k: u32| #[trigger] pat_ty@.contains_key(k) implies !has_string_var(pat_ty@[k]) by {
                lemma_finished_has_no_string_var(table@, self@.pat_ty[k]);
            }
            assert forall|k: u32| #[trigger] expr_ty@.contains_key(k) implies !has_string_var(expr_ty@[k].ty) by {
                lemma_finished_has_no_string_var(table@, self@.expr_ty[k].ty);
            }
            assert(callables@.map_values(|c: Callable| c@) =~= self@.callables.map_values(|c: CallableView| finished_callable(table@, c)));
        }
        TypedBody { body, pat_ty, expr_ty, callables }
    }
}

} // verus!
