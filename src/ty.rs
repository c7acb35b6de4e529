//! The type representation: variables, parameters, applications, base types,
//! const types, the never type and invalid markers.
use vstd::prelude::*;

verus! {

/// A primitive type.
#[derive(Clone, Copy, Debug, PartialEq, Eq, Hash, Structural)]
pub enum PrimTy {
    Bool,
    Int,
    U8,
    U256,
    I256,
    /// A string; it takes its maximum length as a const argument.
    String,
}

/// A nominal (algebraic) type definition, with the number of type arguments it takes.
#[derive(Clone, Copy, Debug, PartialEq, Eq, Hash, Structural)]
pub struct AdtDef {
    pub id: u32,
    pub n_params: u32,
}

/// A function definition used as a type.
#[derive(Clone, Copy, Debug, PartialEq, Eq, Hash, Structural)]
pub struct FuncDef {
    pub id: u32,
}

/// The head of a type application.
#[derive(Clone, Copy, Debug, PartialEq, Eq, Hash, Structural)]
pub enum TyBase {
    Prim(PrimTy),
    Adt(AdtDef),
    Func(FuncDef),
}

/// What an inference variable may stand for.
#[derive(Clone, Copy, Debug, PartialEq, Eq, Hash, Structural)]
pub enum TyVarSort {
    General,
    Integral,
    /// A string type whose length is at least the given bound.
    String(u32),
}

/// An inference variable; `arity` is the number of arguments it still takes.
#[derive(Clone, Copy, Debug, PartialEq, Eq, Hash, Structural)]
pub struct TyVar {
    pub key: u32,
    pub sort: TyVarSort,
    pub arity: u32,
}

/// A generic parameter; `arity` is the number of arguments it takes.
#[derive(Clone, Copy, Debug, PartialEq, Eq, Hash, Structural)]
pub struct TyParam {
    pub idx: u32,
    pub arity: u32,
}

/// Why a type is invalid.
#[derive(Clone, Copy, Debug, PartialEq, Eq, Hash, Structural)]
pub enum InvalidCause {
    Other,
    NotFullyApplied,
}

/// The value part of a const type.
#[derive(Debug, PartialEq, Eq, Hash)]
pub enum ConstTyData {
    TyVar(TyVar),
    TyParam(TyParam, Box<Ty>),
    Evaluated(u64),
    UnEvaluated,
}

/// A type indexed by a compile-time value, with the type of that value.
#[derive(Debug, PartialEq, Eq, Hash)]
pub struct ConstTy {
    pub ty: Box<Ty>,
    pub data: ConstTyData,
}

/// A type.
#[derive(Debug, PartialEq, Eq, Hash)]
pub enum Ty {
    TyVar(TyVar),
    TyParam(TyParam),
    TyApp(Box<Ty>, Box<Ty>),
    TyBase(TyBase),
    ConstTy(ConstTy),
    Never,
    Invalid(InvalidCause),
}

/// The number of arguments a base type takes.
pub open spec fn base_arity(b: TyBase) -> int {
    match b {
        TyBase::Prim(PrimTy::String) => 1,
        TyBase::Prim(_) => 0,
        TyBase::Adt(a) => a.n_params as int,
        TyBase::Func(_) => 0,
    }
}

/// The number of arguments a type still takes; negative when it is applied to too many.
pub open spec fn pending_args(ty: Ty) -> int
    decreases ty,
{
    match ty {
        Ty::TyVar(v) => v.arity as int,
        Ty::TyParam(p) => p.arity as int,
        Ty::TyApp(abs, _) => {
            let n = pending_args(*abs);
            if n > 0 {
                n - 1
            } else {
                -1
            }
        },
        Ty::TyBase(b) => base_arity(b),
        _ => 0,
    }
}

/// A proper, fully applied type.
pub open spec fn star_kind(ty: Ty) -> bool {
    pending_args(ty) == 0
}

/// The string type of the given length.
pub open spec fn string_ty(len: u32) -> Ty {
    Ty::TyApp(
        Box::new(Ty::TyBase(TyBase::Prim(PrimTy::String))),
        Box::new(Ty::ConstTy(ConstTy {
            ty: Box::new(Ty::TyBase(TyBase::Prim(PrimTy::U256))),
            data: ConstTyData::Evaluated(len as u64),
        })),
    )
}

/// `ty` with every bound variable of `tbl` replaced by its value.
pub open spec fn subst(tbl: Map<u32, Ty>, ty: Ty) -> Ty
    decreases ty,
{
    match ty {
        Ty::TyVar(v) => if tbl.contains_key(v.key) {
            tbl[v.key]
        } else {
            ty
        },
        Ty::TyApp(abs, arg) => Ty::TyApp(Box::new(subst(tbl, *abs)), Box::new(subst(tbl, *arg))),
        Ty::ConstTy(c) => match c.data {
            ConstTyData::TyVar(v) => if tbl.contains_key(v.key) {
                tbl[v.key]
            } else {
                Ty::ConstTy(ConstTy { ty: Box::new(subst(tbl, *c.ty)), data: c.data })
            },
            ConstTyData::TyParam(p, t) => Ty::ConstTy(
                ConstTy {
                    ty: Box::new(subst(tbl, *c.ty)),
                    data: ConstTyData::TyParam(p, Box::new(subst(tbl, *t))),
                },
            ),
            _ => Ty::ConstTy(ConstTy { ty: Box::new(subst(tbl, *c.ty)), data: c.data }),
        },
        _ => ty,
    }
}

/// `ty` mentions the variable `key`, as a type or as a const value.
pub open spec fn mentions(ty: Ty, key: u32) -> bool
    decreases ty,
{
    match ty {
        Ty::TyVar(v) => v.key == key,
        Ty::TyApp(abs, arg) => mentions(*abs, key) || mentions(*arg, key),
        Ty::ConstTy(c) => mentions(*c.ty, key) || match c.data {
            ConstTyData::TyVar(v) => v.key == key,
            ConstTyData::TyParam(_, t) => mentions(*t, key),
            _ => false,
        },
        _ => false,
    }
}

/// `ty` mentions no variable bound in `tbl`.
pub open spec fn free_of(tbl: Map<u32, Ty>, ty: Ty) -> bool {
    forall|k: u32| tbl.contains_key(k) ==> !mentions(ty, k)
}

/// Every value of `tbl` is fully resolved: it mentions no bound variable.
pub open spec fn resolved(tbl: Map<u32, Ty>) -> bool {
    forall|k: u32| tbl.contains_key(k) ==> free_of(tbl, #[trigger] tbl[k])
}

/// Against a resolved table, one substitution pass leaves no bound variable:
/// the substitution is complete.
pub proof fn lemma_subst_complete(tbl: Map<u32, Ty>, ty: Ty)
    requires
        resolved(tbl),
    ensures
        free_of(tbl, subst(tbl, ty)),
    decreases ty,
{
    match ty {
        Ty::TyVar(v) => {
            if tbl.contains_key(v.key) {
                assert(free_of(tbl, tbl[v.key]));
            } else {
                assert forall|k: u32| tbl.contains_key(k) implies !mentions(subst(tbl, ty), k) by {}
            }
        },
        Ty::TyApp(abs, arg) => {
            lemma_subst_complete(tbl, *abs);
            lemma_subst_complete(tbl, *arg);
            assert forall|k: u32| tbl.contains_key(k) implies !mentions(subst(tbl, ty), k) by {
                assert(!mentions(subst(tbl, *abs), k));
                assert(!mentions(subst(tbl, *arg), k));
            }
        },
        Ty::ConstTy(c) => {
            lemma_subst_complete(tbl, *c.ty);
            match c.data {
                ConstTyData::TyVar(v) => {
                    if tbl.contains_key(v.key) {
                        assert(free_of(tbl, tbl[v.key]));
                    } else {
                        assert forall|k: u32| tbl.contains_key(k) implies !mentions(subst(tbl, ty), k) by {
                            assert(!mentions(subst(tbl, *c.ty), k));
                        }
                    }
                },
                ConstTyData::TyParam(_, t) => {
                    lemma_subst_complete(tbl, *t);
                    assert forall|k: u32| tbl.contains_key(k) implies !mentions(subst(tbl, ty), k) by {
                        assert(!mentions(subst(tbl, *c.ty), k));
                        assert(!mentions(subst(tbl, *t), k));
                    }
                },
                _ => {
                    assert forall|k: u32| tbl.contains_key(k) implies !mentions(subst(tbl, ty), k) by {
                        assert(!mentions(subst(tbl, *c.ty), k));
                    }
                },
            }
        },
        _ => {
            assert forall|k: u32| tbl.contains_key(k) implies !mentions(subst(tbl, ty), k) by {}
        },
    }
}

/// Substituting a type that mentions no bound variable changes nothing.
pub proof fn lemma_subst_free(tbl: Map<u32, Ty>, ty: Ty)
    requires
        free_of(tbl, ty),
    ensures
        subst(tbl, ty) == ty,
    decreases ty,
{
    match ty {
        Ty::TyVar(v) => {
            if tbl.contains_key(v.key) {
                assert(mentions(ty, v.key));
            }
        },
        Ty::TyApp(abs, arg) => {
            assert forall|k: u32| tbl.contains_key(k) implies !mentions(*abs, k) && !mentions(*arg, k) by {
                assert(!mentions(ty, k));
            }
            lemma_subst_free(tbl, *abs);
            lemma_subst_free(tbl, *arg);
        },
        Ty::ConstTy(c) => {
            assert forall|k: u32| tbl.contains_key(k) implies !mentions(*c.ty, k) by {
                assert(!mentions(ty, k));
            }
            lemma_subst_free(tbl, *c.ty);
            match c.data {
                ConstTyData::TyVar(v) => {
                    if tbl.contains_key(v.key) {
                        assert(mentions(ty, v.key));
                    }
                },
                ConstTyData::TyParam(_, t) => {
                    assert forall|k: u32| tbl.contains_key(k) implies !mentions(*t, k) by {
                        assert(!mentions(ty, k));
                    }
                    lemma_subst_free(tbl, *t);
                },
                _ => {},
            }
        },
        _ => {},
    }
}

/// Against a resolved table, substituting twice is substituting once.
pub proof fn lemma_subst_idempotent(tbl: Map<u32, Ty>, ty: Ty)
    requires
        resolved(tbl),
    ensures
        subst(tbl, subst(tbl, ty)) == subst(tbl, ty),
{
    lemma_subst_complete(tbl, ty);
    lemma_subst_free(tbl, subst(tbl, ty));
}

/// `ty` with every string-length variable replaced by the string type of its tracked length.
pub open spec fn default_strings(ty: Ty) -> Ty
    decreases ty,
{
    match ty {
        Ty::TyVar(v) => match v.sort {
            TyVarSort::String(len) => string_ty(len),
            _ => ty,
        },
        Ty::TyApp(abs, arg) => Ty::TyApp(
            Box::new(default_strings(*abs)),
            Box::new(default_strings(*arg)),
        ),
        Ty::ConstTy(c) => match c.data {
            ConstTyData::TyParam(p, t) => Ty::ConstTy(
                ConstTy {
                    ty: Box::new(default_strings(*c.ty)),
                    data: ConstTyData::TyParam(p, Box::new(default_strings(*t))),
                },
            ),
            _ => Ty::ConstTy(ConstTy { ty: Box::new(default_strings(*c.ty)), data: c.data }),
        },
        _ => ty,
    }
}

/// The finished form of `ty`: substituted through `tbl`, then defaulted.
pub open spec fn finished(tbl: Map<u32, Ty>, ty: Ty) -> Ty {
    default_strings(subst(tbl, ty))
}

/// `ty` mentions a string-length variable.
pub open spec fn has_string_var(ty: Ty) -> bool
    decreases ty,
{
    match ty {
        Ty::TyVar(v) => v.sort is String,
        Ty::TyApp(abs, arg) => has_string_var(*abs) || has_string_var(*arg),
        Ty::ConstTy(c) => has_string_var(*c.ty) || match c.data {
            ConstTyData::TyParam(_, t) => has_string_var(*t),
            _ => false,
        },
        _ => false,
    }
}

/// Defaulting leaves no string-length variable behind.
pub proof fn lemma_default_strings_complete(ty: Ty)
    ensures
        !has_string_var(default_strings(ty)),
    decreases ty,
{
    match ty {
        Ty::TyApp(abs, arg) => {
            lemma_default_strings_complete(*abs);
            lemma_default_strings_complete(*arg);
        },
        Ty::ConstTy(c) => {
            lemma_default_strings_complete(*c.ty);
            match c.data {
                ConstTyData::TyParam(_, t) => lemma_default_strings_complete(*t),
                _ => {},
            }
        },
        Ty::TyVar(v) => {
            match v.sort {
                TyVarSort::String(len) => {
                    assert(!has_string_var(string_ty(len))) by {
                        reveal_with_fuel(has_string_var, 3);
                    }
                },
                _ => {},
            }
        },
        _ => {},
    }
}

impl Ty {
    /// The invalid type with the generic cause.
    pub fn invalid() -> (r: Ty)
        ensures
            r == Ty::Invalid(InvalidCause::Other),
    {
        Ty::Invalid(InvalidCause::Other)
    }

    /// The string type of the given length.
    pub fn string(len: u32) -> (r: Ty)
        ensures
            r == string_ty(len),
    {
        Ty::TyApp(
            Box::new(Ty::TyBase(TyBase::Prim(PrimTy::String))),
            Box::new(Ty::ConstTy(ConstTy {
                ty: Box::new(Ty::TyBase(TyBase::Prim(PrimTy::U256))),
                data: ConstTyData::Evaluated(len as u64),
            })),
        )
    }

    /// A copy of this type.
    pub fn duplicate(&self) -> (r: Ty)
        ensures
            r == *self,
        decreases self,
    {
        match self {
            Ty::TyVar(v) => Ty::TyVar(*v),
            Ty::TyParam(p) => Ty::TyParam(*p),
            Ty::TyApp(abs, arg) => Ty::TyApp(Box::new(abs.duplicate()), Box::new(arg.duplicate())),
            Ty::TyBase(b) => Ty::TyBase(*b),
            Ty::ConstTy(c) => Ty::ConstTy(c.duplicate()),
            Ty::Never => Ty::Never,
            Ty::Invalid(cause) => Ty::Invalid(*cause),
        }
    }

    /// The number of arguments this type still takes; negative when over-applied.
    pub fn pending_args(&self) -> (r: i64)
        ensures
            r == pending_args(*self),
        decreases self,
    {
        match self {
            Ty::TyVar(v) => v.arity as i64,
            Ty::TyParam(p) => p.arity as i64,
            Ty::TyApp(abs, _) => {
                let n = abs.pending_args();
                if n > 0 {
                    n - 1
                } else {
                    -1
                }
            },
            Ty::TyBase(TyBase::Prim(PrimTy::String)) => 1,
            Ty::TyBase(TyBase::Adt(a)) => a.n_params as i64,
            _ => 0,
        }
    }

    /// Whether this is a proper, fully applied type.
    pub fn is_star_kind(&self) -> (r: bool)
        ensures
            r == star_kind(*self),
    {
        self.pending_args() == 0
    }
}

impl ConstTy {
    /// A copy of this const type.
    pub fn duplicate(&self) -> (r: ConstTy)
        ensures
            r == *self,
        decreases self,
    {
        let data = match &self.data {
            ConstTyData::TyVar(v) => ConstTyData::TyVar(*v),
            ConstTyData::TyParam(p, t) => ConstTyData::TyParam(*p, Box::new(t.duplicate())),
            ConstTyData::Evaluated(n) => ConstTyData::Evaluated(*n),
            ConstTyData::UnEvaluated => ConstTyData::UnEvaluated,
        };
        ConstTy { ty: Box::new(self.ty.duplicate()), data }
    }
}

} // verus!
