//! Structural traversal over types.
//!
//! A visitor supplies one hook per shape of type and states, as a spec
//! function, what each hook does to its own state. `walk_ty` hands a type to
//! the hook of its shape; a visitor that keeps the structural recursion for
//! an application, a base type or a const type calls `walk_ty`,
//! `walk_ty_base` or `walk_const_ty` from that hook.
use vstd::prelude::*;
use crate::body::Predicate;
use crate::env::ExprProp;
use crate::ty::{AdtDef, ConstTy, ConstTyData, FuncDef, InvalidCause, PrimTy, Ty, TyBase, TyParam, TyVar};

verus! {

/// Observes a type, one hook per shape.
pub trait TyVisitor: Sized {
    spec fn after_var(self, var: TyVar) -> Self;

    spec fn after_app(self, abs: Ty, arg: Ty) -> Self;

    spec fn after_ty_base(self, ty_base: TyBase) -> Self;

    spec fn after_const_ty(self, const_ty: ConstTy) -> Self;

    spec fn after_param(self, param: TyParam) -> Self;

    spec fn after_const_param(self, param: TyParam, const_ty_ty: Ty) -> Self;

    spec fn after_invalid(self, cause: InvalidCause) -> Self;

    spec fn after_prim(self, prim: PrimTy) -> Self;

    spec fn after_adt(self, adt: AdtDef) -> Self;

    spec fn after_func(self, func: FuncDef) -> Self;

    fn visit_var(&mut self, var: &TyVar)
        ensures
            *final(self) == old(self).after_var(*var),
    ;

    /// An application of `abs` to `arg`; structurally, `abs` then `arg`.
    fn visit_app(&mut self, abs: &Ty, arg: &Ty)
        ensures
            *final(self) == old(self).after_app(*abs, *arg),
    ;

    /// A base type; structurally, `walk_ty_base`.
    fn visit_ty_base(&mut self, ty_base: &TyBase)
        ensures
            *final(self) == old(self).after_ty_base(*ty_base),
    ;

    /// A const type; structurally, `walk_const_ty`.
    fn visit_const_ty(&mut self, const_ty: &ConstTy)
        ensures
            *final(self) == old(self).after_const_ty(*const_ty),
    ;

    fn visit_param(&mut self, param: &TyParam)
        ensures
            *final(self) == old(self).after_param(*param),
    ;

    fn visit_const_param(&mut self, param: &TyParam, const_ty_ty: &Ty)
        ensures
            *final(self) == old(self).after_const_param(*param, *const_ty_ty),
    ;

    fn visit_invalid(&mut self, cause: &InvalidCause)
        ensures
            *final(self) == old(self).after_invalid(*cause),
    ;

    fn visit_prim(&mut self, prim: &PrimTy)
        ensures
            *final(self) == old(self).after_prim(*prim),
    ;

    fn visit_adt(&mut self, adt: AdtDef)
        ensures
            *final(self) == old(self).after_adt(adt),
    ;

    fn visit_func(&mut self, func: FuncDef)
        ensures
            *final(self) == old(self).after_func(func),
    ;
}

/// The state of `v` after `ty` is handed to the hook of its shape; the
/// never type calls no hook.
pub open spec fn walked<V: TyVisitor>(v: V, ty: Ty) -> V {
    match ty {
        Ty::TyVar(var) => v.after_var(var),
        Ty::TyParam(p) => v.after_param(p),
        Ty::TyApp(abs, arg) => v.after_app(*abs, *arg),
        Ty::TyBase(b) => v.after_ty_base(b),
        Ty::ConstTy(c) => v.after_const_ty(c),
        Ty::Never => v,
        Ty::Invalid(cause) => v.after_invalid(cause),
    }
}

/// The state of `v` after walking a base type.
pub open spec fn walked_base<V: TyVisitor>(v: V, b: TyBase) -> V {
    match b {
        TyBase::Prim(p) => v.after_prim(p),
        TyBase::Adt(a) => v.after_adt(a),
        TyBase::Func(f) => v.after_func(f),
    }
}

/// The state of `v` after walking a const type: its carrier type, then its
/// variable or parameter.
pub open spec fn walked_const<V: TyVisitor>(v: V, c: ConstTy) -> V {
    let v1 = walked(v, *c.ty);
    match c.data {
        ConstTyData::TyVar(var) => v1.after_var(var),
        ConstTyData::TyParam(p, t) => v1.after_const_param(p, *t),
        _ => v1,
    }
}

/// Hands `ty` to the visitor's hook for its shape.
pub fn walk_ty<V: TyVisitor>(visitor: &mut V, ty: &Ty)
    ensures
        *final(visitor) == walked(*old(visitor), *ty),
{
    match ty {
        Ty::TyVar(var) => visitor.visit_var(var),
        Ty::TyParam(p) => visitor.visit_param(p),
        Ty::TyApp(abs, arg) => visitor.visit_app(abs, arg),
        Ty::TyBase(b) => visitor.visit_ty_base(b),
        Ty::ConstTy(c) => visitor.visit_const_ty(c),
        Ty::Never => {},
        Ty::Invalid(cause) => visitor.visit_invalid(cause),
    }
}

/// Walks a base type.
pub fn walk_ty_base<V: TyVisitor>(visitor: &mut V, ty_base: &TyBase)
    ensures
        *final(visitor) == walked_base(*old(visitor), *ty_base),
{
    match ty_base {
        TyBase::Prim(p) => visitor.visit_prim(p),
        TyBase::Adt(a) => visitor.visit_adt(*a),
        TyBase::Func(f) => visitor.visit_func(*f),
    }
}

/// Walks a const type: its carrier type first, then its variable or parameter.
pub fn walk_const_ty<V: TyVisitor>(visitor: &mut V, const_ty: &ConstTy)
    ensures
        *final(visitor) == walked_const(*old(visitor), *const_ty),
{
    walk_ty(visitor, &const_ty.ty);
    match &const_ty.data {
        ConstTyData::TyVar(var) => visitor.visit_var(var),
        ConstTyData::TyParam(p, t) => visitor.visit_const_param(p, t),
        _ => {},
    }
}

/// A structure that holds types, visitable by visitors of type `V`.
pub trait TyVisitable<V: TyVisitor>: Sized {
    /// The state of `v` after visiting every type held, in order.
    spec fn visited(self, v: V) -> V;

    fn visit_with(&self, visitor: &mut V)
        ensures
            *final(visitor) == self.visited(*old(visitor)),
    ;
}

impl<V: TyVisitor> TyVisitable<V> for Ty {
    open spec fn visited(self, v: V) -> V {
        walked(v, self)
    }

    fn visit_with(&self, visitor: &mut V) {
        walk_ty(visitor, self)
    }
}

/// The state of `v` after visiting each element of `s` in order.
pub open spec fn visited_seq<V: TyVisitor, T: TyVisitable<V>>(s: Seq<T>, v: V) -> V
    decreases s.len(),
{
    if s.len() == 0 {
        v
    } else {
        s.last().visited(visited_seq(s.drop_last(), v))
    }
}

impl<V: TyVisitor, T: TyVisitable<V>> TyVisitable<V> for Vec<T> {
    open spec fn visited(self, v: V) -> V {
        visited_seq(self@, v)
    }

    fn visit_with(&self, visitor: &mut V) {
        let ghost start = *visitor;
        let mut i: usize = 0;
        while i < self.len()
            invariant
                i <= self@.len(),
                *visitor == visited_seq(self@.take(i as int), start),
            decreases self@.len() - i,
        {
            proof {
                assert(self@.take(i as int + 1).drop_last() == self@.take(i as int));
            }
            self[i].visit_with(visitor);
            i = i + 1;
        }
        proof {
            assert(self@.take(i as int) == self@);
        }
    }
}

impl<V: TyVisitor> TyVisitable<V> for ExprProp {
    open spec fn visited(self, v: V) -> V {
        walked(v, self.ty)
    }

    fn visit_with(&self, visitor: &mut V) {
        walk_ty(visitor, &self.ty)
    }
}

impl<V: TyVisitor> TyVisitable<V> for Predicate {
    /// The bounded type first, then the trait's arguments in order.
    open spec fn visited(self, v: V) -> V {
        visited_seq(self.args@, walked(v, self.ty))
    }

    fn visit_with(&self, visitor: &mut V) {
        walk_ty(visitor, &self.ty);
        self.args.visit_with(visitor);
    }
}

} // verus!
