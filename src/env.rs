//! The type-checking environment of one body.
use vstd::prelude::*;
use crate::body::{
    is_block, Body, BodyKind, Callable, CallableView, ExprId, ExprKind, Func, IdentId, Param, PatId,
    Predicate, PredicateView, ScopeId, StmtId,
};
use crate::fxmap::{fx_drain, fx_get, fx_insert, fx_new, FxMap};
use crate::ty::{star_kind, FuncDef, InvalidCause, Ty};

verus! {

/// A local variable: introduced by a pattern, or a function parameter.
#[derive(Debug, PartialEq, Eq)]
pub enum LocalBinding {
    Local { pat: PatId, is_mut: bool },
    Param { idx: usize, ty: Ty, is_mut: bool },
}

impl LocalBinding {
    /// The binding introduced by pattern `pat`.
    pub fn local(pat: PatId, is_mut: bool) -> (r: LocalBinding)
        ensures
            r == (LocalBinding::Local { pat, is_mut }),
    {
        LocalBinding::Local { pat, is_mut }
    }

    /// Whether the variable is mutable.
    pub fn is_mut(&self) -> (r: bool)
        ensures
            r == match *self {
                LocalBinding::Local { is_mut, .. } => is_mut,
                LocalBinding::Param { is_mut, .. } => is_mut,
            },
    {
        match self {
            LocalBinding::Local { is_mut, .. } => *is_mut,
            LocalBinding::Param { is_mut, .. } => *is_mut,
        }
    }

    /// A copy of this binding.
    pub fn duplicate(&self) -> (r: LocalBinding)
        ensures
            r == *self,
    {
        match self {
            LocalBinding::Local { pat, is_mut } => LocalBinding::Local { pat: *pat, is_mut: *is_mut },
            LocalBinding::Param { idx, ty, is_mut } => LocalBinding::Param {
                idx: *idx,
                ty: ty.duplicate(),
                is_mut: *is_mut,
            },
        }
    }
}

/// The recorded type of an expression, its mutability, and the variable it
/// denotes when it is exactly one.
#[derive(Debug, PartialEq, Eq)]
pub struct ExprProp {
    pub ty: Ty,
    pub is_mut: bool,
    pub binding: Option<LocalBinding>,
}

impl ExprProp {
    pub fn new(ty: Ty, is_mut: bool) -> (r: ExprProp)
        ensures
            r == (ExprProp { ty, is_mut, binding: None }),
    {
        ExprProp { ty, is_mut, binding: None }
    }

    pub fn new_binding_ref(ty: Ty, is_mut: bool, binding: LocalBinding) -> (r: ExprProp)
        ensures
            r == (ExprProp { ty, is_mut, binding: Some(binding) }),
    {
        ExprProp { ty, is_mut, binding: Some(binding) }
    }

    /// The variable this expression denotes, if it is exactly one.
    pub fn binding(&self) -> (r: Option<LocalBinding>)
        ensures
            r == self.binding,
    {
        match &self.binding {
            Some(b) => Some(b.duplicate()),
            None => None,
        }
    }

    /// Replaces the type, returning the previous one.
    pub fn swap_ty(&mut self, ty: Ty) -> (r: Ty)
        ensures
            r == old(self).ty,
            *final(self) == (ExprProp { ty, ..*old(self) }),
    {
        let mut r = ty;
        core::mem::swap(&mut self.ty, &mut r);
        r
    }

    /// The record of an expression whose type could not be determined.
    pub fn invalid() -> (r: ExprProp)
        ensures
            r == (ExprProp { ty: Ty::Invalid(InvalidCause::Other), is_mut: true, binding: None }),
    {
        ExprProp { ty: Ty::invalid(), is_mut: true, binding: None }
    }

    /// A copy of this record.
    pub fn duplicate(&self) -> (r: ExprProp)
        ensures
            r == *self,
    {
        ExprProp { ty: self.ty.duplicate(), is_mut: self.is_mut, binding: self.binding() }
    }
}

/// One lexical level: its scope and the variables bound in it, by name.
pub struct BlockEnv {
    scope: ScopeId,
    vars: FxMap<LocalBinding>,
    idx: usize,
}

/// The mathematical form of a lexical level.
pub struct ScopeView {
    pub scope: ScopeId,
    pub vars: Map<u32, LocalBinding>,
}

impl View for BlockEnv {
    type V = ScopeView;

    closed spec fn view(&self) -> ScopeView {
        ScopeView { scope: self.scope, vars: self.vars@ }
    }
}

impl BlockEnv {
    /// The binding of `var` in this level, if any.
    pub fn lookup_var(&self, var: IdentId) -> (r: Option<LocalBinding>)
        ensures
            r == if self@.vars.contains_key(var.0) {
                Some(self@.vars[var.0])
            } else {
                None
            },
    {
        match fx_get(&self.vars, var.0) {
            Some(b) => Some(b.duplicate()),
            None => None,
        }
    }

    /// The scope this level stands for.
    pub fn scope(&self) -> (r: ScopeId)
        ensures
            r == self@.scope,
    {
        self.scope
    }

    fn new(scope: ScopeId, idx: usize) -> (r: BlockEnv)
        ensures
            r@.scope == scope,
            r@.vars == Map::<u32, LocalBinding>::empty(),
            r.idx == idx,
    {
        let r = BlockEnv { scope, vars: fx_new(), idx };
        proof {
            assert(r@.vars =~= Map::<u32, LocalBinding>::empty());
        }
        r
    }

    fn register_var(&mut self, name: IdentId, var: LocalBinding)
        ensures
            final(self)@.scope == old(self)@.scope,
            final(self)@.vars == old(self)@.vars.insert(name.0, var),
            final(self).idx == old(self).idx,
    {
        fx_insert(&mut self.vars, name.0, var);
    }
}


/// Where a variable was defined: its pattern, or the name of the parameter
/// at a position of the checked function.
#[derive(Clone, Copy, Debug, PartialEq, Eq, Hash, Structural)]
pub enum DefSite {
    Pat(PatId),
    ParamName(usize),
}

/// Why an environment could not be built or an operation was refused.
#[derive(Clone, Copy, Debug, PartialEq, Eq, Structural)]
pub enum EnvError {
    /// The function has no body.
    NoBody,
    /// The function's parameter list is absent.
    NoParams,
}

/// The mathematical form of an environment.
pub struct EnvView {
    pub body: Body,
    pub item: u32,
    pub param_names: Seq<Option<IdentId>>,
    pub constraints: Seq<PredicateView>,
    pub scopes: Seq<ScopeView>,
    pub pending: Map<u32, LocalBinding>,
    pub pat_ty: Map<u32, Ty>,
    pub expr_ty: Map<u32, ExprProp>,
    pub callables: Map<u32, CallableView>,
    pub loops: Seq<StmtId>,
}

/// The binding of `name` seen from the top of `scopes`: the innermost level
/// that binds it decides.
pub open spec fn lookup_in(scopes: Seq<ScopeView>, name: u32) -> Option<LocalBinding>
    decreases scopes.len(),
{
    if scopes.len() == 0 {
        None
    } else if scopes.last().vars.contains_key(name) {
        Some(scopes.last().vars[name])
    } else {
        lookup_in(scopes.drop_last(), name)
    }
}

/// The innermost scope.
pub open spec fn current_scope(v: EnvView) -> ScopeId {
    v.scopes.last().scope
}

/// `v` after entering `e`: a block opens its own scope, anything else repeats the current one.
pub open spec fn entered(v: EnvView, e: ExprId) -> EnvView {
    let scope = if is_block(v.body, e) {
        ScopeId::Block(e)
    } else {
        current_scope(v)
    };
    EnvView { scopes: v.scopes.push(ScopeView { scope, vars: Map::empty() }), ..v }
}

/// `v` after leaving the innermost scope.
pub open spec fn left(v: EnvView) -> EnvView {
    EnvView { scopes: v.scopes.drop_last(), ..v }
}

/// `v` with `b` staged for `name`.
pub open spec fn with_pending(v: EnvView, name: u32, b: LocalBinding) -> EnvView {
    EnvView { pending: v.pending.insert(name, b), ..v }
}

/// `v` with every staged binding moved into the innermost scope.
pub open spec fn flushed(v: EnvView) -> EnvView {
    let top = v.scopes.last();
    EnvView {
        scopes: v.scopes.update(
            v.scopes.len() - 1,
            ScopeView { scope: top.scope, vars: top.vars.union_prefer_right(v.pending) },
        ),
        pending: Map::empty(),
        ..v
    }
}

/// The type of a variable: a parameter carries it, a local has its pattern's.
pub open spec fn binding_ty(v: EnvView, b: LocalBinding) -> Ty {
    match b {
        LocalBinding::Local { pat, .. } => if v.pat_ty.contains_key(pat.0) {
            v.pat_ty[pat.0]
        } else {
            Ty::Invalid(InvalidCause::Other)
        },
        LocalBinding::Param { ty, .. } => ty,
    }
}

/// `b` has a name: a local whose pattern is a path, or a named parameter of
/// the checked function.
pub open spec fn has_binding_name(v: EnvView, b: LocalBinding) -> bool {
    match b {
        LocalBinding::Local { pat, .. } => (pat.0 as int) < v.body.pat_names@.len()
            && v.body.pat_names@[pat.0 as int] is Some,
        LocalBinding::Param { idx, .. } => v.body.kind == BodyKind::FuncBody
            && (idx as int) < v.param_names.len() && v.param_names[idx as int] is Some,
    }
}

/// The name a variable was bound under: a local's pattern name, or a
/// parameter's declared name.
pub open spec fn binding_name_of(v: EnvView, b: LocalBinding) -> IdentId {
    match b {
        LocalBinding::Local { pat, .. } => v.body.pat_names@[pat.0 as int]->Some_0,
        LocalBinding::Param { idx, .. } => v.param_names[idx as int]->Some_0,
    }
}

/// Where a variable was defined: a local at its pattern, a parameter at its
/// name in the checked function's parameter list.
pub open spec fn def_site_of(b: LocalBinding) -> DefSite {
    match b {
        LocalBinding::Local { pat, .. } => DefSite::Pat(pat),
        LocalBinding::Param { idx, .. } => DefSite::ParamName(idx),
    }
}

/// The type a parameter is bound with: its declared type when that is a
/// proper, fully applied type, else the invalid type.
pub open spec fn param_ty(p: Param) -> Ty {
    match p.ty {
        Some(t) => if star_kind(t) {
            t
        } else {
            Ty::Invalid(InvalidCause::Other)
        },
        None => Ty::Invalid(InvalidCause::Other),
    }
}

/// The bindings of the named parameters, by name; a later one wins.
pub open spec fn param_bindings(params: Seq<Param>) -> Map<u32, LocalBinding>
    decreases params.len(),
{
    if params.len() == 0 {
        Map::empty()
    } else {
        let i = params.len() - 1;
        let rest = param_bindings(params.drop_last());
        match params[i].name {
            Some(n) => rest.insert(
                n.0,
                LocalBinding::Param { idx: i as usize, ty: param_ty(params[i]), is_mut: params[i].is_mut },
            ),
            None => rest,
        }
    }
}

/// The environment a function's checking starts from: its own scope holds
/// the parameters, and its body's root expression is entered.
pub open spec fn initial_view(func: Func) -> EnvView {
    let root = EnvView {
        body: func.body->Some_0,
        item: func.item,
        param_names: func.params->Some_0@.map_values(|p: Param| p.name),
        constraints: func.constraints@.map_values(|p: Predicate| p@),
        scopes: seq![ScopeView { scope: ScopeId::Item(func.item), vars: param_bindings(func.params->Some_0@) }],
        pending: Map::empty(),
        pat_ty: Map::empty(),
        expr_ty: Map::empty(),
        callables: Map::empty(),
        loops: Seq::empty(),
    };
    entered(root, func.body->Some_0.expr)
}

/// The predicates assumed while checking: a function body's declared ones,
/// none for an anonymous body.
pub open spec fn assumed(v: EnvView) -> Seq<PredicateView> {
    match v.body.kind {
        BodyKind::FuncBody => v.constraints,
        BodyKind::Anonymous => Seq::empty(),
    }
}

/// The mutable state of one body's type-checking pass.
pub struct TyCheckEnv {
    body: Body,
    item: u32,
    param_names: Vec<Option<IdentId>>,
    constraints: Vec<Predicate>,
    pat_ty: FxMap<Ty>,
    expr_ty: FxMap<ExprProp>,
    callables: FxMap<Callable>,
    var_env: Vec<BlockEnv>,
    pending_vars: FxMap<LocalBinding>,
    loop_stack: Vec<StmtId>,
}

impl View for TyCheckEnv {
    type V = EnvView;

    closed spec fn view(&self) -> EnvView {
        EnvView {
            body: self.body,
            item: self.item,
            param_names: self.param_names@,
            constraints: self.constraints@.map_values(|p: Predicate| p@),
            scopes: self.var_env@.map_values(|b: BlockEnv| b@),
            pending: self.pending_vars@,
            pat_ty: self.pat_ty@,
            expr_ty: self.expr_ty@,
            callables: self.callables@.map_values(|c: Callable| c@),
            loops: self.loop_stack@,
        }
    }
}

impl TyCheckEnv {
    /// The scope stack is never empty and each level knows its position.
    pub closed spec fn wf(&self) -> bool {
        &&& self.var_env@.len() >= 1
        &&& forall|i: int| 0 <= i < self.var_env@.len() ==> (#[trigger] self.var_env@[i]).idx == i
    }

    /// A well-formed environment has at least the function's own scope.
    pub proof fn lemma_wf_scopes(&self)
        requires
            self.wf(),
        ensures
            self@.scopes.len() >= 1,
    {
    }

    /// Builds the environment of a function: fails without a body or a
    /// parameter list.
    pub fn new_with_func(func: Func) -> (r: Result<TyCheckEnv, EnvError>)
        ensures
            func.body is None ==> r == Err::<TyCheckEnv, EnvError>(EnvError::NoBody),
            func.body is Some && func.params is None ==> r == Err::<TyCheckEnv, EnvError>(EnvError::NoParams),
            func.body is Some && func.params is Some ==> r is Ok,
            r is Ok ==> r->Ok_0.wf() && r->Ok_0@ == initial_view(func),
    {
        let ghost g = func;
        let Func { item, body, params, constraints } = func;
        let body = match body {
            Some(b) => b,
            None => return Err(EnvError::NoBody),
        };
        let params = match params {
            Some(p) => p,
            None => return Err(EnvError::NoParams),
        };
        let mut root = BlockEnv::new(ScopeId::Item(item), 0);
        let mut param_names: Vec<Option<IdentId>> = Vec::new();
        let mut i: usize = 0;
        while i < params.len()
            invariant
                i <= params@.len(),
                param_names@ == params@.take(i as int).map_values(|p: Param| p.name),
                root@.scope == ScopeId::Item(item),
                root.idx == 0,
                root@.vars == param_bindings(params@.take(i as int)),
            decreases params@.len() - i,
        {
            proof {
                assert(params@.take(i as int + 1).drop_last() == params@.take(i as int));
            }
            let p = &params[i];
            match p.name {
                Some(name) => {
                    let ty = match &p.ty {
                        Some(t) => if t.is_star_kind() {
                            t.duplicate()
                        } else {
                            Ty::invalid()
                        },
                        None => Ty::invalid(),
                    };
                    root.register_var(name, LocalBinding::Param { idx: i, ty, is_mut: p.is_mut });
                },
                None => {},
            }
            param_names.push(p.name);
            i = i + 1;
            proof {
                assert(param_names@ =~= params@.take(i as int).map_values(|p: Param| p.name));
            }
        }
        proof {
            assert(params@.take(i as int) == params@);
        }
        let mut var_env: Vec<BlockEnv> = Vec::new();
        var_env.push(root);
        let mut env = TyCheckEnv {
            body,
            item,
            param_names,
            constraints,
            pat_ty: fx_new(),
            expr_ty: fx_new(),
            callables: fx_new(),
            var_env,
            pending_vars: fx_new(),
            loop_stack: Vec::new(),
        };
        proof {
            assert(env.wf());
            assert(env@.scopes =~= seq![ScopeView { scope: ScopeId::Item(item), vars: param_bindings(params@) }]);
            assert(env@.pat_ty =~= Map::empty());
            assert(env@.expr_ty =~= Map::empty());
            assert(env@.callables =~= Map::empty());
            assert(env@.pending =~= Map::empty());
        }
        let root_expr = env.body.expr;
        env.enter_scope(root_expr);
        Ok(env)
    }

    /// Opens a scope for `block` when it is a block expression; otherwise
    /// the current scope is repeated.
    pub fn enter_scope(&mut self, block: ExprId)
        requires
            old(self).wf(),
        ensures
            final(self).wf(),
            final(self)@ == entered(old(self)@, block),
    {
        let scope = if self.body.is_block_expr(block) {
            ScopeId::Block(block)
        } else {
            self.scope()
        };
        let idx = self.var_env.len();
        self.var_env.push(BlockEnv::new(scope, idx));
        proof {
            assert(self@.scopes =~= entered(old(self)@, block).scopes);
        }
    }

    /// Closes the innermost scope; the function's own scope is never closed.
    pub fn leave_scope(&mut self)
        requires
            old(self).wf(),
            old(self)@.scopes.len() >= 2,
        ensures
            final(self).wf(),
            final(self)@ == left(old(self)@),
    {
        let _ = self.var_env.pop();
        proof {
            assert(self@.scopes =~= left(old(self)@).scopes);
        }
    }

    /// Enters the loop statement `stmt`.
    pub fn enter_loop(&mut self, stmt: StmtId)
        requires
            old(self).wf(),
        ensures
            final(self).wf(),
            final(self)@ == (EnvView { loops: old(self)@.loops.push(stmt), ..old(self)@ }),
    {
        self.loop_stack.push(stmt);
    }

    /// Leaves the innermost loop, if any.
    pub fn leave_loop(&mut self)
        requires
            old(self).wf(),
        ensures
            final(self).wf(),
            final(self)@ == (EnvView { loops: if old(self)@.loops.len() == 0 {
                old(self)@.loops
            } else {
                old(self)@.loops.drop_last()
            }, ..old(self)@ }),
    {
        let _ = self.loop_stack.pop();
    }

    /// The innermost enclosing loop, if any.
    pub fn current_loop(&self) -> (r: Option<StmtId>)
        ensures
            r == if self@.loops.len() == 0 {
                None
            } else {
                Some(self@.loops.last())
            },
    {
        if self.loop_stack.len() == 0 {
            None
        } else {
            Some(self.loop_stack[self.loop_stack.len() - 1])
        }
    }

    /// Records the type of an expression, replacing any earlier record.
    pub fn type_expr(&mut self, expr: ExprId, typed: ExprProp)
        requires
            old(self).wf(),
        ensures
            final(self).wf(),
            final(self)@ == (EnvView { expr_ty: old(self)@.expr_ty.insert(expr.0, typed), ..old(self)@ }),
    {
        fx_insert(&mut self.expr_ty, expr.0, typed);
    }

    /// Records the type of a pattern, replacing any earlier record.
    pub fn type_pat(&mut self, pat: PatId, ty: Ty)
        requires
            old(self).wf(),
        ensures
            final(self).wf(),
            final(self)@ == (EnvView { pat_ty: old(self)@.pat_ty.insert(pat.0, ty), ..old(self)@ }),
    {
        fx_insert(&mut self.pat_ty, pat.0, ty);
    }

    /// Records what the call expression `expr` resolves to; each call
    /// expression is resolved once, so none is registered for it yet.
    pub fn register_callable(&mut self, expr: ExprId, callable: Callable)
        requires
            old(self).wf(),
            !old(self)@.callables.contains_key(expr.0),
        ensures
            final(self).wf(),
            final(self)@ == (EnvView {
                callables: old(self)@.callables.insert(expr.0, callable@),
                ..old(self)@
            }),
    {
        fx_insert(&mut self.callables, expr.0, callable);
        proof {
            assert(self@.callables =~= old(self)@.callables.insert(expr.0, callable@));
        }
    }

    /// Stages `binding` for `name` without making it visible.
    pub fn register_pending_binding(&mut self, name: IdentId, binding: LocalBinding)
        requires
            old(self).wf(),
        ensures
            final(self).wf(),
            final(self)@ == with_pending(old(self)@, name.0, binding),
    {
        fx_insert(&mut self.pending_vars, name.0, binding);
    }

    /// Moves every staged binding into the innermost scope.
    pub fn flush_pending_bindings(&mut self)
        requires
            old(self).wf(),
        ensures
            final(self).wf(),
            final(self)@ == flushed(old(self)@),
    {
        let ghost pending = self.pending_vars@;
        let entries = fx_drain(&mut self.pending_vars);
        let mut top = self.var_env.pop().unwrap();
        let ghost top0 = top@.vars;
        let mut i: usize = 0;
        while i < entries.len()
            invariant
                i <= entries@.len(),
                top@.scope == old(self)@.scopes.last().scope,
                top.idx == old(self).var_env@.len() - 1,
                forall|a: int, b: int| 0 <= a < b < entries@.len() ==> entries@[a].0 != entries@[b].0,
                forall|k: u32| #[trigger] top@.vars.contains_key(k) <==> (top0.contains_key(k) || exists|j: int| 0 <= j < i && entries@[j].0 == k),
                forall|j: int| 0 <= j < i ==> top@.vars[#[trigger] entries@[j].0] == entries@[j].1,
                forall|k: u32| top@.vars.contains_key(k) && !(exists|j: int| 0 <= j < i && entries@[j].0 == k) ==> top@.vars[k] == top0[k],
            decreases entries@.len() - i,
        {
            let name = entries[i].0;
            let binding = entries[i].1.duplicate();
            top.register_var(IdentId(name), binding);
            i = i + 1;
        }
        self.var_env.push(top);
        proof {
            assert(top@.vars =~= top0.union_prefer_right(pending));
            assert(self@.scopes =~= flushed(old(self)@).scopes);
            assert(self@.pending =~= Map::empty());
        }
    }

    /// The innermost scope.
    pub fn scope(&self) -> (r: ScopeId)
        requires
            self.wf(),
        ensures
            r == current_scope(self@),
    {
        self.var_env[self.var_env.len() - 1].scope
    }

    /// The position of the innermost scope in the scope stack.
    pub fn current_block_idx(&self) -> (r: usize)
        requires
            self.wf(),
        ensures
            r == self@.scopes.len() - 1,
    {
        self.var_env[self.var_env.len() - 1].idx
    }

    /// The scope at position `idx` of the scope stack.
    pub fn get_block(&self, idx: usize) -> (r: &BlockEnv)
        requires
            idx < self@.scopes.len(),
        ensures
            r@ == self@.scopes[idx as int],
    {
        &self.var_env[idx]
    }

    /// The body being checked.
    pub fn body(&self) -> (r: &Body)
        ensures
            *r == self@.body,
    {
        &self.body
    }

    /// The binding of `name` seen from the innermost scope outward.
    pub fn lookup(&self, name: IdentId) -> (r: Option<LocalBinding>)
        requires
            self.wf(),
        ensures
            r == lookup_in(self@.scopes, name.0),
    {
        let ghost scopes = self@.scopes;
        let mut i: usize = self.var_env.len();
        proof {
            assert(scopes.take(i as int) =~= scopes);
        }
        while i > 0
            invariant
                i <= self.var_env@.len(),
                scopes == self@.scopes,
                lookup_in(scopes, name.0) == lookup_in(scopes.take(i as int), name.0),
            decreases i,
        {
            let found = self.var_env[i - 1].lookup_var(name);
            proof {
                assert(scopes.take(i as int).last() == scopes[i - 1]);
                assert(scopes.take(i as int).drop_last() == scopes.take(i - 1));
            }
            if found.is_some() {
                return found;
            }
            i = i - 1;
        }
        None
    }

    /// The record of an expression, if it has been typed.
    pub fn typed_expr(&self, expr: ExprId) -> (r: Option<ExprProp>)
        ensures
            r == if self@.expr_ty.contains_key(expr.0) {
                Some(self@.expr_ty[expr.0])
            } else {
                None
            },
    {
        match fx_get(&self.expr_ty, expr.0) {
            Some(p) => Some(p.duplicate()),
            None => None,
        }
    }

    /// The type of a variable; a local whose pattern is untyped has the invalid type.
    pub fn lookup_binding_ty(&self, binding: &LocalBinding) -> (r: Ty)
        ensures
            r == binding_ty(self@, *binding),
    {
        match binding {
            LocalBinding::Local { pat, .. } => match fx_get(&self.pat_ty, pat.0) {
                Some(t) => t.duplicate(),
                None => Ty::invalid(),
            },
            LocalBinding::Param { ty, .. } => ty.duplicate(),
        }
    }

    /// The name `binding` was bound under: a local's pattern must be a path,
    /// a parameter must be a named one of the checked function.
    pub fn binding_name(&self, binding: &LocalBinding) -> (r: IdentId)
        requires
            has_binding_name(self@, *binding),
        ensures
            r == binding_name_of(self@, *binding),
    {
        match binding {
            LocalBinding::Local { pat, .. } => self.body.pat_names[pat.0 as usize].unwrap(),
            LocalBinding::Param { idx, .. } => self.param_names[*idx].unwrap(),
        }
    }

    /// Where `binding` was defined, for diagnostics; a parameter has a
    /// definition site only in a function body.
    pub fn binding_def_span(&self, binding: &LocalBinding) -> (r: DefSite)
        requires
            binding is Local || self@.body.kind == BodyKind::FuncBody,
        ensures
            r == def_site_of(*binding),
    {
        match binding {
            LocalBinding::Local { pat, .. } => DefSite::Pat(*pat),
            LocalBinding::Param { idx, .. } => DefSite::ParamName(*idx),
        }
    }

    /// The shape of expression `expr`; absent when the body does not hold it.
    pub fn expr_data(&self, expr: ExprId) -> (r: ExprKind)
        ensures
            r == if (expr.0 as int) < self@.body.exprs@.len() {
                self@.body.exprs@[expr.0 as int]
            } else {
                ExprKind::Absent
            },
    {
        if (expr.0 as usize) < self.body.exprs.len() {
            self.body.exprs[expr.0 as usize]
        } else {
            ExprKind::Absent
        }
    }

    /// The function whose body is checked; none for an anonymous body.
    pub fn func(&self) -> (r: Option<FuncDef>)
        ensures
            r == match self@.body.kind {
                BodyKind::FuncBody => Some(FuncDef { id: self@.item }),
                BodyKind::Anonymous => None::<FuncDef>,
            },
    {
        match self.body.kind {
            BodyKind::FuncBody => Some(FuncDef { id: self.item }),
            BodyKind::Anonymous => None,
        }
    }

    /// The predicates that may be assumed while checking the body.
    pub fn assumptions(&self) -> (r: Vec<Predicate>)
        ensures
            r@.map_values(|p: Predicate| p@) == assumed(self@),
            self@.body.kind == BodyKind::Anonymous ==> r@.len() == 0,
    {
        let mut r: Vec<Predicate> = Vec::new();
        match self.func() {
            Some(_) => {
                let mut i: usize = 0;
                while i < self.constraints.len()
                    invariant
                        i <= self.constraints@.len(),
                        self@.body.kind == BodyKind::FuncBody,
                        r@.len() == i,
                        forall|j: int| 0 <= j < i ==> (#[trigger] r@[j])@ == self.constraints@[j]@,
                    decreases self.constraints@.len() - i,
                {
                    r.push(self.constraints[i].duplicate());
                    i = i + 1;
                }
                proof {
                    assert(r@.map_values(|p: Predicate| p@) =~= self@.constraints);
                }
            },
            None => {
                proof {
                    assert(r@.map_values(|p: Predicate| p@) =~= Seq::<PredicateView>::empty());
                }
            },
        }
        r
    }
}

impl TyCheckEnv {
    /// Hands out the body and the three result tables.
    pub(crate) fn into_tables(self) -> (r: (Body, FxMap<Ty>, FxMap<ExprProp>, FxMap<Callable>))
        ensures
            r.0 == self@.body,
            r.1@ == self@.pat_ty,
            r.2@ == self@.expr_ty,
            r.3@.map_values(|c: Callable| c@) == self@.callables,
    {
        (self.body, self.pat_ty, self.expr_ty, self.callables)
    }
}

} // verus!
