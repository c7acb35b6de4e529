use fe_tycheck::{
    DefSite, Body, BodyKind, Callable, EnvError, ExprId, ExprKind, ExprProp, Func, FuncDef, IdentId,
    LocalBinding, Param, PatId, Predicate, PrimTy, ScopeId, StmtId, Ty, TyBase, TyCheckEnv,
    TyVar, TyVarSort, UnificationTable,
};

fn int_ty() -> Ty {
    Ty::TyBase(TyBase::Prim(PrimTy::Int))
}

fn body(kind: BodyKind, exprs: Vec<ExprKind>) -> Body {
    Body { kind, expr: ExprId(0), exprs, pat_names: vec![Some(IdentId(3)), None] }
}

fn func_with(kind: BodyKind, params: Vec<Param>, constraints: Vec<Predicate>) -> Func {
    Func {
        item: 7,
        body: Some(body(kind, vec![ExprKind::Block, ExprKind::Other, ExprKind::Other, ExprKind::Block])),
        params: Some(params),
        constraints,
    }
}

fn env_no_params() -> TyCheckEnv {
    TyCheckEnv::new_with_func(func_with(BodyKind::FuncBody, vec![], vec![])).unwrap()
}

#[test]
fn end_to_end_let_binding() {
    let x = IdentId(1);
    let y = IdentId(2);
    let z = IdentId(3);
    let params = vec![
        Param { name: Some(x), ty: Some(int_ty()), is_mut: false },
        Param { name: Some(y), ty: Some(int_ty()), is_mut: true },
    ];
    let mut env = TyCheckEnv::new_with_func(func_with(BodyKind::FuncBody, params, vec![])).unwrap();
    let xb = LocalBinding::Param { idx: 0, ty: int_ty(), is_mut: false };
    let yb = LocalBinding::Param { idx: 1, ty: int_ty(), is_mut: true };
    assert_eq!(env.get_block(0).lookup_var(x), Some(xb.duplicate()));
    assert_eq!(env.get_block(0).lookup_var(y), Some(yb.duplicate()));
    assert_eq!(env.scope(), ScopeId::Block(ExprId(0)));
    assert_eq!(env.lookup(x), Some(xb.duplicate()));
    assert!(!env.lookup(x).unwrap().is_mut());
    assert!(env.lookup(y).unwrap().is_mut());

    let zpat = PatId(0);
    env.type_pat(zpat, int_ty());
    env.register_pending_binding(z, LocalBinding::local(zpat, false));
    env.flush_pending_bindings();
    let zb = env.lookup(z).unwrap();
    assert_eq!(env.lookup_binding_ty(&zb), int_ty());
    env.type_expr(ExprId(1), ExprProp::new_binding_ref(int_ty(), false, xb.duplicate()));
    env.type_expr(ExprId(2), ExprProp::new_binding_ref(int_ty(), false, zb));

    let typed = env.finish(&UnificationTable::new());
    assert_eq!(typed.expr_ty.get(&1).unwrap().ty, int_ty());
    assert_eq!(typed.expr_ty.get(&2).unwrap().ty, int_ty());
    assert_eq!(typed.pat_ty.get(&0), Some(&int_ty()));
    assert_eq!(typed.expr_ty.len(), 2);
    assert_eq!(typed.pat_ty.len(), 1);
    for p in typed.expr_ty.values() {
        assert!(!matches!(p.ty, Ty::Invalid(_)));
    }
}

#[test]
fn missing_body_is_refused() {
    let f = Func { item: 1, body: None, params: Some(vec![]), constraints: vec![] };
    assert_eq!(TyCheckEnv::new_with_func(f).err(), Some(EnvError::NoBody));
}

#[test]
fn missing_params_are_refused() {
    let f = Func {
        item: 1,
        body: Some(body(BodyKind::FuncBody, vec![ExprKind::Block])),
        params: None,
        constraints: vec![],
    };
    assert_eq!(TyCheckEnv::new_with_func(f).err(), Some(EnvError::NoParams));
}

#[test]
fn unnamed_and_ill_kinded_params() {
    let string_head = Ty::TyBase(TyBase::Prim(PrimTy::String));
    let params = vec![
        Param { name: None, ty: Some(int_ty()), is_mut: false },
        Param { name: Some(IdentId(5)), ty: Some(string_head), is_mut: false },
        Param { name: Some(IdentId(6)), ty: None, is_mut: true },
        Param { name: Some(IdentId(8)), ty: Some(Ty::string(4)), is_mut: false },
    ];
    let env = TyCheckEnv::new_with_func(func_with(BodyKind::FuncBody, params, vec![])).unwrap();
    assert_eq!(env.lookup(IdentId(5)), Some(LocalBinding::Param { idx: 1, ty: Ty::invalid(), is_mut: false }));
    assert_eq!(env.lookup(IdentId(6)), Some(LocalBinding::Param { idx: 2, ty: Ty::invalid(), is_mut: true }));
    assert_eq!(env.lookup(IdentId(8)), Some(LocalBinding::Param { idx: 3, ty: Ty::string(4), is_mut: false }));
    assert_eq!(env.get_block(0).lookup_var(IdentId(0)), None);
}

#[test]
fn scope_balance() {
    let mut env = env_no_params();
    let depth = env.current_block_idx();
    let scope = env.scope();
    env.enter_scope(ExprId(3));
    assert_eq!(env.scope(), ScopeId::Block(ExprId(3)));
    env.enter_scope(ExprId(1));
    assert_eq!(env.scope(), ScopeId::Block(ExprId(3)));
    assert_eq!(env.current_block_idx(), depth + 2);
    env.leave_scope();
    env.leave_scope();
    assert_eq!(env.current_block_idx(), depth);
    assert_eq!(env.scope(), scope);
}

#[test]
fn shadowing() {
    let mut env = env_no_params();
    let n = IdentId(9);
    env.register_pending_binding(n, LocalBinding::local(PatId(1), false));
    env.flush_pending_bindings();
    env.enter_scope(ExprId(3));
    env.register_pending_binding(n, LocalBinding::local(PatId(2), true));
    env.flush_pending_bindings();
    assert_eq!(env.lookup(n), Some(LocalBinding::local(PatId(2), true)));
    env.leave_scope();
    assert_eq!(env.lookup(n), Some(LocalBinding::local(PatId(1), false)));
}

#[test]
fn pending_isolation() {
    let mut env = env_no_params();
    let n = IdentId(4);
    env.register_pending_binding(n, LocalBinding::local(PatId(3), false));
    assert_eq!(env.lookup(n), None);
    env.flush_pending_bindings();
    assert_eq!(env.lookup(n), Some(LocalBinding::local(PatId(3), false)));
    env.flush_pending_bindings();
    assert_eq!(env.lookup(n), Some(LocalBinding::local(PatId(3), false)));
    assert_eq!(env.current_block_idx(), 1);
}

#[test]
fn callable_registered_once() {
    let mut env = env_no_params();
    let c = || Callable { func: FuncDef { id: 3 }, generic_args: vec![int_ty()] };
    env.register_callable(ExprId(1), c());
    env.register_callable(ExprId(2), c());
    let typed = env.finish(&UnificationTable::new());
    assert_eq!(typed.callables.len(), 2);
    assert_eq!(typed.callables.get(&1), Some(&c()));
}

#[test]
fn last_write_wins() {
    let mut env = env_no_params();
    env.type_expr(ExprId(1), ExprProp::new(int_ty(), false));
    env.type_expr(ExprId(1), ExprProp::new(Ty::Never, true));
    assert_eq!(env.typed_expr(ExprId(1)), Some(ExprProp::new(Ty::Never, true)));
    assert_eq!(env.typed_expr(ExprId(2)), None);
}

#[test]
fn untyped_local_has_invalid_type() {
    let env = env_no_params();
    assert_eq!(env.lookup_binding_ty(&LocalBinding::local(PatId(11), false)), Ty::invalid());
}

#[test]
fn loop_context() {
    let mut env = env_no_params();
    assert_eq!(env.current_loop(), None);
    env.enter_loop(StmtId(1));
    env.enter_loop(StmtId(2));
    assert_eq!(env.current_loop(), Some(StmtId(2)));
    env.leave_loop();
    assert_eq!(env.current_loop(), Some(StmtId(1)));
    env.leave_loop();
    env.leave_loop();
    assert_eq!(env.current_loop(), None);
}

#[test]
fn finishing_defaults_string_vars() {
    let mut env = env_no_params();
    let svar = Ty::TyVar(TyVar { key: 1, sort: TyVarSort::String(5), arity: 0 });
    let gvar = Ty::TyVar(TyVar { key: 2, sort: TyVarSort::General, arity: 0 });
    let bound = Ty::TyVar(TyVar { key: 3, sort: TyVarSort::General, arity: 0 });
    env.type_expr(ExprId(1), ExprProp::new(svar, false));
    env.type_pat(PatId(1), gvar.duplicate());
    env.type_pat(PatId(2), bound);
    env.register_callable(ExprId(2), Callable { func: FuncDef { id: 1 }, generic_args: vec![Ty::TyVar(TyVar { key: 3, sort: TyVarSort::General, arity: 0 })] });
    let mut table = UnificationTable::new();
    assert!(table.bind(3, int_ty()));
    assert!(!table.bind(3, Ty::Never));
    let typed = env.finish(&table);
    assert_eq!(typed.expr_ty.get(&1).unwrap().ty, Ty::string(5));
    assert_eq!(typed.pat_ty.get(&1), Some(&gvar));
    assert_eq!(typed.pat_ty.get(&2), Some(&int_ty()));
    assert_eq!(typed.callables.get(&2).unwrap().generic_args, vec![int_ty()]);
}

#[test]
fn anonymous_body_assumes_nothing() {
    let pred = || Predicate { ty: int_ty(), trait_id: 4, args: vec![] };
    let env = TyCheckEnv::new_with_func(func_with(BodyKind::Anonymous, vec![], vec![pred()])).unwrap();
    assert!(env.assumptions().is_empty());
    assert_eq!(env.func(), None);
    let env = TyCheckEnv::new_with_func(func_with(BodyKind::FuncBody, vec![], vec![pred()])).unwrap();
    assert_eq!(env.assumptions(), vec![pred()]);
    assert_eq!(env.func(), Some(FuncDef { id: 7 }));
}

#[test]
fn expr_prop_swap_and_invalid() {
    let mut p = ExprProp::new(int_ty(), false);
    assert_eq!(p.swap_ty(Ty::Never), int_ty());
    assert_eq!(p.ty, Ty::Never);
    assert_eq!(ExprProp::invalid(), ExprProp { ty: Ty::invalid(), is_mut: true, binding: None });
    assert_eq!(p.binding(), None);
}

#[test]
fn binding_names() {
    let params = vec![
        Param { name: None, ty: Some(int_ty()), is_mut: false },
        Param { name: Some(IdentId(1)), ty: Some(int_ty()), is_mut: false },
    ];
    let env = TyCheckEnv::new_with_func(func_with(BodyKind::FuncBody, params, vec![])).unwrap();
    assert_eq!(env.binding_name(&LocalBinding::local(PatId(0), false)), IdentId(3));
    assert_eq!(env.binding_name(&LocalBinding::Param { idx: 1, ty: int_ty(), is_mut: false }), IdentId(1));
    let b = env.lookup(IdentId(1)).unwrap();
    assert_eq!(env.binding_name(&b), IdentId(1));
}

#[test]
fn non_block_scope_repeats_current() {
    let mut env = env_no_params();
    let before = env.scope();
    env.enter_scope(ExprId(2));
    assert_eq!(env.scope(), before);
    env.enter_scope(ExprId(40));
    assert_eq!(env.scope(), before);
    assert_eq!(env.current_block_idx(), 3);
    assert_eq!(env.get_block(3).scope(), before);
    assert_eq!(env.body().expr, ExprId(0));
}

#[test]
fn def_sites_and_expr_data() {
    let env = env_no_params();
    assert_eq!(env.binding_def_span(&LocalBinding::local(PatId(4), false)), DefSite::Pat(PatId(4)));
    assert_eq!(env.binding_def_span(&LocalBinding::Param { idx: 2, ty: int_ty(), is_mut: false }), DefSite::ParamName(2));
    let anon = TyCheckEnv::new_with_func(func_with(BodyKind::Anonymous, vec![], vec![])).unwrap();
    assert_eq!(anon.binding_def_span(&LocalBinding::local(PatId(1), true)), DefSite::Pat(PatId(1)));
    assert_eq!(env.expr_data(ExprId(0)), ExprKind::Block);
    assert_eq!(env.expr_data(ExprId(1)), ExprKind::Other);
    assert_eq!(env.expr_data(ExprId(99)), ExprKind::Absent);
}

#[test]
fn finishing_defaults_nested_string_vars() {
    let mut env = env_no_params();
    let svar = |key: u32, len: u32| Ty::TyVar(TyVar { key, sort: TyVarSort::String(len), arity: 0 });
    let adt = Ty::TyBase(TyBase::Prim(PrimTy::U8));
    let nested = Ty::TyApp(Box::new(Ty::TyApp(Box::new(adt.duplicate()), Box::new(svar(1, 3)))), Box::new(Ty::TyVar(TyVar { key: 4, sort: TyVarSort::General, arity: 0 })));
    env.type_pat(PatId(0), nested);
    let mut table = UnificationTable::new();
    assert!(table.bind(4, svar(5, 8)));
    let typed = env.finish(&table);
    let expected = Ty::TyApp(Box::new(Ty::TyApp(Box::new(adt), Box::new(Ty::string(3)))), Box::new(Ty::string(8)));
    assert_eq!(typed.pat_ty.get(&0), Some(&expected));
}
