//! The function and body handles the environment is built from, and the
//! identifiers that address a body's nodes.
use vstd::prelude::*;
use crate::ty::{FuncDef, Ty};

verus! {

/// Identifies an expression of a body.
#[derive(Clone, Copy, Debug, PartialEq, Eq, Hash, Structural)]
pub struct ExprId(pub u32);

/// Identifies a pattern of a body.
#[derive(Clone, Copy, Debug, PartialEq, Eq, Hash, Structural)]
pub struct PatId(pub u32);

/// Identifies a statement of a body.
#[derive(Clone, Copy, Debug, PartialEq, Eq, Hash, Structural)]
pub struct StmtId(pub u32);

/// Identifies an interned name.
#[derive(Clone, Copy, Debug, PartialEq, Eq, Hash, Structural)]
pub struct IdentId(pub u32);

/// A lexical scope: an item's own scope, or a block expression of a body.
#[derive(Clone, Copy, Debug, PartialEq, Eq, Hash, Structural)]
pub enum ScopeId {
    Item(u32),
    Block(ExprId),
}

/// Whether a body belongs to a named function.
#[derive(Clone, Copy, Debug, PartialEq, Eq, Hash, Structural)]
pub enum BodyKind {
    FuncBody,
    Anonymous,
}

/// The syntactic shape of an expression, as far as scoping needs it.
#[derive(Clone, Copy, Debug, PartialEq, Eq, Hash, Structural)]
pub enum ExprKind {
    Block,
    Other,
    Absent,
}

/// A body: its kind, its root expression, the shape of each expression
/// (indexed by `ExprId`) and the name each pattern binds, when it is a path
/// (indexed by `PatId`).
#[derive(Debug)]
pub struct Body {
    pub kind: BodyKind,
    pub expr: ExprId,
    pub exprs: Vec<ExprKind>,
    pub pat_names: Vec<Option<IdentId>>,
}

/// `e` is a block expression of `body`.
pub open spec fn is_block(body: Body, e: ExprId) -> bool {
    &&& (e.0 as int) < body.exprs@.len()
    &&& body.exprs@[e.0 as int] == ExprKind::Block
}

impl Body {
    /// Whether `e` is a block expression of this body.
    pub fn is_block_expr(&self, e: ExprId) -> (r: bool)
        ensures
            r == is_block(*self, e),
    {
        (e.0 as usize) < self.exprs.len() && self.exprs[e.0 as usize] == ExprKind::Block
    }
}

/// A declared parameter: its optional name, its lowered declared type (absent
/// when the declaration has none) and its mutability.
#[derive(Debug)]
pub struct Param {
    pub name: Option<IdentId>,
    pub ty: Option<Ty>,
    pub is_mut: bool,
}

/// A trait bound on a type: `ty: trait_id<args>`.
#[derive(Debug, PartialEq, Eq)]
pub struct Predicate {
    pub ty: Ty,
    pub trait_id: u32,
    pub args: Vec<Ty>,
}

/// A function definition: its item, its body and parameters when present, and
/// the predicates its definition declares.
#[derive(Debug)]
pub struct Func {
    pub item: u32,
    pub body: Option<Body>,
    pub params: Option<Vec<Param>>,
    pub constraints: Vec<Predicate>,
}

/// What a call expression resolves to: the function called and its generic arguments.
#[derive(Debug, PartialEq, Eq)]
pub struct Callable {
    pub func: FuncDef,
    pub generic_args: Vec<Ty>,
}

/// A copy of a sequence of types.
pub fn copy_tys(v: &Vec<Ty>) -> (r: Vec<Ty>)
    ensures
        r@ == v@,
{
    let mut r: Vec<Ty> = Vec::new();
    let mut i: usize = 0;
    while i < v.len()
        invariant
            i <= v@.len(),
            r@ == v@.take(i as int),
        decreases v@.len() - i,
    {
        r.push(v[i].duplicate());
        i = i + 1;
        proof {
            assert(r@ == v@.take(i as int));
        }
    }
    proof {
        assert(v@.take(i as int) == v@);
    }
    r
}

/// The mathematical form of a predicate.
pub struct PredicateView {
    pub ty: Ty,
    pub trait_id: u32,
    pub args: Seq<Ty>,
}

impl View for Predicate {
    type V = PredicateView;

    open spec fn view(&self) -> PredicateView {
        PredicateView { ty: self.ty, trait_id: self.trait_id, args: self.args@ }
    }
}

impl Predicate {
    /// A copy of this predicate.
    pub fn duplicate(&self) -> (r: Predicate)
        ensures
            r@ == self@,
    {
        Predicate { ty: self.ty.duplicate(), trait_id: self.trait_id, args: copy_tys(&self.args) }
    }
}

/// The mathematical form of a callable.
pub struct CallableView {
    pub func: FuncDef,
    pub generic_args: Seq<Ty>,
}

impl View for Callable {
    type V = CallableView;

    open spec fn view(&self) -> CallableView {
        CallableView { func: self.func, generic_args: self.generic_args@ }
    }
}

} // verus!
