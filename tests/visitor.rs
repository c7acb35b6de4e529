use fe_tycheck::{
    walk_const_ty, walk_ty, walk_ty_base, ExprProp, Predicate, AdtDef, ConstTy, ConstTyData, FuncDef, InvalidCause, PrimTy, Ty, TyBase, TyParam,
    TyVar, TyVarSort, TyVisitable, TyVisitor,
};

/// Records the leaves it is shown, in order.
#[derive(Default)]
struct Leaves {
    seen: Vec<String>,
}

impl Leaves {
    fn with(mut self, leaf: String) -> Self {
        self.seen.push(leaf);
        self
    }
}

impl TyVisitor for Leaves {
    fn after_var(self, var: TyVar) -> Self {
        self.with(format!("var{}", var.key))
    }

    fn after_app(mut self, abs: Ty, arg: Ty) -> Self {
        walk_ty(&mut self, &abs);
        walk_ty(&mut self, &arg);
        self
    }

    fn after_ty_base(mut self, ty_base: TyBase) -> Self {
        walk_ty_base(&mut self, &ty_base);
        self
    }

    fn after_const_ty(mut self, const_ty: ConstTy) -> Self {
        walk_const_ty(&mut self, &const_ty);
        self
    }

    fn after_param(self, param: TyParam) -> Self {
        self.with(format!("param{}", param.idx))
    }

    fn after_const_param(self, param: TyParam, _const_ty_ty: Ty) -> Self {
        self.with(format!("cparam{}", param.idx))
    }

    fn after_invalid(self, _cause: InvalidCause) -> Self {
        self.with("invalid".to_string())
    }

    fn after_prim(self, prim: PrimTy) -> Self {
        self.with(format!("{:?}", prim))
    }

    fn after_adt(self, adt: AdtDef) -> Self {
        self.with(format!("adt{}", adt.id))
    }

    fn after_func(self, func: FuncDef) -> Self {
        self.with(format!("func{}", func.id))
    }

    fn visit_var(&mut self, var: &TyVar) {
        *self = std::mem::take(self).after_var(*var);
    }

    fn visit_app(&mut self, abs: &Ty, arg: &Ty) {
        walk_ty(self, abs);
        walk_ty(self, arg);
    }

    fn visit_ty_base(&mut self, ty_base: &TyBase) {
        walk_ty_base(self, ty_base);
    }

    fn visit_const_ty(&mut self, const_ty: &ConstTy) {
        walk_const_ty(self, const_ty);
    }

    fn visit_param(&mut self, param: &TyParam) {
        *self = std::mem::take(self).after_param(*param);
    }

    fn visit_const_param(&mut self, param: &TyParam, const_ty_ty: &Ty) {
        *self = std::mem::take(self).after_const_param(*param, const_ty_ty.duplicate());
    }

    fn visit_invalid(&mut self, cause: &InvalidCause) {
        *self = std::mem::take(self).after_invalid(*cause);
    }

    fn visit_prim(&mut self, prim: &PrimTy) {
        *self = std::mem::take(self).after_prim(*prim);
    }

    fn visit_adt(&mut self, adt: AdtDef) {
        *self = std::mem::take(self).after_adt(adt);
    }

    fn visit_func(&mut self, func: FuncDef) {
        *self = std::mem::take(self).after_func(func);
    }
}

fn var(key: u32) -> Ty {
    Ty::TyVar(TyVar { key, sort: TyVarSort::General, arity: 0 })
}

#[test]
fn walk_visits_leaves_in_order() {
    let adt = Ty::TyBase(TyBase::Adt(AdtDef { id: 9, n_params: 2 }));
    let app = Ty::TyApp(Box::new(Ty::TyApp(Box::new(adt), Box::new(var(1)))), Box::new(Ty::TyParam(TyParam { idx: 0, arity: 0 })));
    let mut v = Leaves::default();
    walk_ty(&mut v, &app);
    assert_eq!(v.seen, vec!["adt9", "var1", "param0"]);
}

#[test]
fn walk_const_ty_visits_carrier_then_data() {
    let c = Ty::ConstTy(ConstTy {
        ty: Box::new(Ty::TyBase(TyBase::Prim(PrimTy::U256))),
        data: ConstTyData::TyParam(TyParam { idx: 2, arity: 0 }, Box::new(Ty::Never)),
    });
    let mut v = Leaves::default();
    c.visit_with(&mut v);
    assert_eq!(v.seen, vec!["U256", "cparam2"]);
    let c = Ty::ConstTy(ConstTy { ty: Box::new(var(4)), data: ConstTyData::TyVar(TyVar { key: 5, sort: TyVarSort::Integral, arity: 0 }) });
    let mut v = Leaves::default();
    c.visit_with(&mut v);
    assert_eq!(v.seen, vec!["var4", "var5"]);
}

#[test]
fn never_and_invalid() {
    let mut v = Leaves::default();
    walk_ty(&mut v, &Ty::Never);
    assert!(v.seen.is_empty());
    walk_ty(&mut v, &Ty::Invalid(InvalidCause::Other));
    walk_ty(&mut v, &Ty::TyBase(TyBase::Func(FuncDef { id: 3 })));
    assert_eq!(v.seen, vec!["invalid", "func3"]);
}

#[test]
fn vec_visits_each_element_in_order() {
    let tys = vec![var(3), Ty::string(2), var(1)];
    let mut v = Leaves::default();
    tys.visit_with(&mut v);
    assert_eq!(v.seen, vec!["var3", "String", "U256", "var1"]);
}

#[test]
fn star_kind_counts_pending_arguments() {
    let string_head = Ty::TyBase(TyBase::Prim(PrimTy::String));
    assert!(!string_head.is_star_kind());
    assert_eq!(string_head.pending_args(), 1);
    assert!(Ty::string(3).is_star_kind());
    let over = Ty::TyApp(Box::new(Ty::string(3)), Box::new(var(1)));
    assert_eq!(over.pending_args(), -1);
    assert!(Ty::TyBase(TyBase::Prim(PrimTy::Bool)).is_star_kind());
}

#[test]
fn string_type_shape() {
    let s = Ty::string(7);
    match s {
        Ty::TyApp(head, len) => {
            assert_eq!(*head, Ty::TyBase(TyBase::Prim(PrimTy::String)));
            assert_eq!(*len, Ty::ConstTy(ConstTy { ty: Box::new(Ty::TyBase(TyBase::Prim(PrimTy::U256))), data: ConstTyData::Evaluated(7) }));
        }
        _ => panic!("not an application"),
    }
}

#[test]
fn predicate_and_record_visits() {
    let p = Predicate { ty: var(1), trait_id: 2, args: vec![var(2), Ty::Never, var(3)] };
    let mut v = Leaves::default();
    p.visit_with(&mut v);
    assert_eq!(v.seen, vec!["var1", "var2", "var3"]);
    let mut v = Leaves::default();
    ExprProp::new(Ty::TyBase(TyBase::Prim(PrimTy::Bool)), false).visit_with(&mut v);
    assert_eq!(v.seen, vec!["Bool"]);
}

/// Counts applications only, without descending into them.
#[derive(Default)]
struct Apps {
    n: usize,
}

impl TyVisitor for Apps {
    fn after_var(self, _var: TyVar) -> Self { self }
    fn after_app(self, _abs: Ty, _arg: Ty) -> Self { Apps { n: self.n + 1 } }
    fn after_ty_base(self, _b: TyBase) -> Self { self }
    fn after_const_ty(self, _c: ConstTy) -> Self { self }
    fn after_param(self, _p: TyParam) -> Self { self }
    fn after_const_param(self, _p: TyParam, _t: Ty) -> Self { self }
    fn after_invalid(self, _c: InvalidCause) -> Self { self }
    fn after_prim(self, _p: PrimTy) -> Self { self }
    fn after_adt(self, _a: AdtDef) -> Self { self }
    fn after_func(self, _f: FuncDef) -> Self { self }
    fn visit_var(&mut self, _var: &TyVar) {}
    fn visit_app(&mut self, _abs: &Ty, _arg: &Ty) { self.n += 1; }
    fn visit_ty_base(&mut self, _b: &TyBase) {}
    fn visit_const_ty(&mut self, _c: &ConstTy) {}
    fn visit_param(&mut self, _p: &TyParam) {}
    fn visit_const_param(&mut self, _p: &TyParam, _t: &Ty) {}
    fn visit_invalid(&mut self, _c: &InvalidCause) {}
    fn visit_prim(&mut self, _p: &PrimTy) {}
    fn visit_adt(&mut self, _a: AdtDef) {}
    fn visit_func(&mut self, _f: FuncDef) {}
}

#[test]
fn walk_hands_application_to_its_hook() {
    let nested = Ty::TyApp(Box::new(Ty::string(2)), Box::new(var(1)));
    let mut v = Apps::default();
    walk_ty(&mut v, &nested);
    assert_eq!(v.n, 1);
    walk_ty(&mut v, &var(3));
    assert_eq!(v.n, 1);
}
