//! The unification table the environment is finished against, and the
//! finishing fold: substitution followed by string-length defaulting.
use vstd::prelude::*;
use crate::fxmap::{fx_get, fx_insert, fx_new, FxMap};
use crate::ty::{default_strings, finished, free_of, lemma_subst_complete, mentions, resolved, subst, ConstTy, ConstTyData, Ty, TyVarSort};

verus! {

/// The resolved type of each bound inference variable, keyed by variable key.
/// Each bound value is kept fully resolved (it mentions no bound variable), so
/// one substitution pass resolves a type completely.
pub struct UnificationTable {
    bindings: FxMap<Ty>,
}

impl View for UnificationTable {
    type V = Map<u32, Ty>;

    closed spec fn view(&self) -> Map<u32, Ty> {
        self.bindings@
    }
}

impl UnificationTable {
    /// A table with no variable bound.
    pub fn new() -> (r: UnificationTable)
        ensures
            r@ == Map::<u32, Ty>::empty(),
            resolved(r@),
    {
        let r = UnificationTable { bindings: fx_new() };
        proof {
            assert(r@ =~= Map::<u32, Ty>::empty());
        }
        r
    }

    /// Binds the variable `key` to `ty`; refused when it is already bound.
    /// `ty` must be resolved, must not mention `key`, and no bound value may
    /// mention `key`, so that the table stays resolved.
    pub fn bind(&mut self, key: u32, ty: Ty) -> (r: bool)
        requires
            resolved(old(self)@),
            free_of(old(self)@, ty),
            !mentions(ty, key),
            forall|k: u32| old(self)@.contains_key(k) ==> !mentions(#[trigger] old(self)@[k], key),
        ensures
            resolved(final(self)@),
            r == !old(self)@.contains_key(key),
            r ==> final(self)@ == old(self)@.insert(key, ty),
            !r ==> final(self)@ == old(self)@,
    {
        if fx_get(&self.bindings, key).is_some() {
            false
        } else {
            fx_insert(&mut self.bindings, key, ty);
            proof {
                let t = self@;
                assert forall|k: u32| t.contains_key(k) implies free_of(t, #[trigger] t[k]) by {
                    if k != key {
                        assert(free_of(old(self)@, old(self)@[k]));
                    }
                }
            }
            true
        }
    }

    /// The type a variable is bound to, if any.
    pub fn probe(&self, key: u32) -> (r: Option<&Ty>)
        ensures
            match r {
                Some(t) => self@.contains_key(key) && *t == self@[key],
                None => !self@.contains_key(key),
            },
    {
        fx_get(&self.bindings, key)
    }

    /// `ty` with every bound variable replaced by its resolved type; against
    /// a resolved table, no bound variable is left.
    pub fn fold_ty(&self, ty: &Ty) -> (r: Ty)
        ensures
            r == subst(self@, *ty),
            resolved(self@) ==> free_of(self@, r),
        decreases ty,
    {
        proof {
            if resolved(self@) {
                lemma_subst_complete(self@, *ty);
            }
        }
        match ty {
            Ty::TyVar(v) => match self.probe(v.key) {
                Some(t) => t.duplicate(),
                None => Ty::TyVar(*v),
            },
            Ty::TyApp(abs, arg) => Ty::TyApp(Box::new(self.fold_ty(abs)), Box::new(self.fold_ty(arg))),
            Ty::ConstTy(c) => {
                match &c.data {
                    ConstTyData::TyVar(v) => match self.probe(v.key) {
                        Some(t) => t.duplicate(),
                        None => Ty::ConstTy(
                            ConstTy { ty: Box::new(self.fold_ty(&c.ty)), data: ConstTyData::TyVar(*v) },
                        ),
                    },
                    ConstTyData::TyParam(p, t) => Ty::ConstTy(
                        ConstTy {
                            ty: Box::new(self.fold_ty(&c.ty)),
                            data: ConstTyData::TyParam(*p, Box::new(self.fold_ty(t))),
                        },
                    ),
                    ConstTyData::Evaluated(n) => Ty::ConstTy(
                        ConstTy { ty: Box::new(self.fold_ty(&c.ty)), data: ConstTyData::Evaluated(*n) },
                    ),
                    ConstTyData::UnEvaluated => Ty::ConstTy(
                        ConstTy { ty: Box::new(self.fold_ty(&c.ty)), data: ConstTyData::UnEvaluated },
                    ),
                }
            },
            _ => ty.duplicate(),
        }
    }
}

/// `ty` with every string-length variable replaced by the string type of its tracked length.
pub fn default_string_vars(ty: &Ty) -> (r: Ty)
    ensures
        r == default_strings(*ty),
    decreases ty,
{
    match ty {
        Ty::TyVar(v) => match v.sort {
            TyVarSort::String(len) => Ty::string(len),
            _ => Ty::TyVar(*v),
        },
        Ty::TyApp(abs, arg) => Ty::TyApp(
            Box::new(default_string_vars(abs)),
            Box::new(default_string_vars(arg)),
        ),
        Ty::ConstTy(c) => {
            let data = match &c.data {
                ConstTyData::TyParam(p, t) => ConstTyData::TyParam(*p, Box::new(default_string_vars(t))),
                ConstTyData::TyVar(v) => ConstTyData::TyVar(*v),
                ConstTyData::Evaluated(n) => ConstTyData::Evaluated(*n),
                ConstTyData::UnEvaluated => ConstTyData::UnEvaluated,
            };
            Ty::ConstTy(ConstTy { ty: Box::new(default_string_vars(&c.ty)), data })
        },
        _ => ty.duplicate(),
    }
}

/// The finished form of `ty`: substituted through `table`, then defaulted.
pub fn finish_ty(table: &UnificationTable, ty: &Ty) -> (r: Ty)
    ensures
        r == finished(table@, *ty),
{
    default_string_vars(&table.fold_ty(ty))
}

} // verus!
