//! The per-function type-checking environment of a compiler front end: scoped
//! variable bindings, recorded expression and pattern types, call resolution,
//! and finishing against a unification table; with the type representation,
//! a structural traversal framework over it, and the attributes an analyzer
//! attaches to expressions, functions and contracts.
mod attributes;
mod body;
mod context;
mod contract;
mod env;
mod finish;
mod fxmap;
pub mod laws;
mod stmt;
mod ty;
mod unify;
mod visitor;

pub use attributes::{
    Array, Base, CallType, Contract, ContractAttributes, ErrorKind, EventDef, ExpressionAttributes,
    FeString, FixedSize, FunctionAttributes, GlobalMethod, Location, SemanticError, StorageMap,
    Struct, Tuple, Type,
};
pub use body::{
    Body, BodyKind, Callable, CallableView, ExprId, ExprKind, Func, IdentId, Param, PatId,
    Predicate, PredicateView, ScopeId, StmtId,
};
pub use context::{Context, ContextView, NodeId};
pub use contract::{ContractFunctionDef, ContractScope};
pub use env::{BlockEnv, DefSite, EnvError, EnvView, ExprProp, LocalBinding, ScopeView, TyCheckEnv};
pub use finish::TypedBody;
pub use fxmap::FxMap;
pub use stmt::{aug_assign_op, stmt_form, AugAssignOp, StmtForm, SyntaxKind};
pub use ty::{
    AdtDef, ConstTy, ConstTyData, FuncDef, InvalidCause, PrimTy, Ty, TyBase, TyParam, TyVar,
    TyVarSort,
};
pub use unify::{default_string_vars, finish_ty, UnificationTable};
pub use visitor::{walk_const_ty, walk_ty, walk_ty_base, TyVisitable, TyVisitor};
