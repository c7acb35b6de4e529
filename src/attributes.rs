//! Contextual information attributed to expressions, functions, calls and
//! contracts, and the rules for where a value lives and how it may move.
use vstd::prelude::*;
use std::collections::HashSet;

verus! {

/// A base (value) type.
#[derive(Clone, Copy, Debug, PartialEq, Eq, PartialOrd, Ord, Hash, Structural)]
pub enum Base {
    Numeric,
    Bool,
    Address,
    Unit,
}

/// A fixed-size array of base values.
#[derive(Clone, Copy, Debug, PartialEq, Eq, PartialOrd, Ord, Hash, Structural)]
pub struct Array {
    pub size: usize,
    pub inner: Base,
}

/// A tuple of base values.
#[derive(Clone, Debug, PartialEq, Eq, PartialOrd, Ord, Hash)]
pub struct Tuple {
    pub items: Vec<Base>,
}

impl Tuple {
    /// Whether the tuple has no items.
    pub fn is_empty(&self) -> (r: bool)
        ensures
            r == (self.items@.len() == 0),
    {
        self.items.len() == 0
    }
}

/// A string of bounded size.
#[derive(Clone, Copy, Debug, PartialEq, Eq, PartialOrd, Ord, Hash, Structural)]
pub struct FeString {
    pub max_size: usize,
}

/// A contract type, by name.
#[derive(Clone, Debug, PartialEq, Eq, PartialOrd, Ord, Hash)]
pub struct Contract {
    pub name: String,
}

/// A struct type, by name.
#[derive(Clone, Debug, PartialEq, Eq, PartialOrd, Ord, Hash)]
pub struct Struct {
    pub name: String,
}

/// A storage map from base keys to base values.
#[derive(Clone, Copy, Debug, PartialEq, Eq, PartialOrd, Ord, Hash, Structural)]
pub struct StorageMap {
    pub key: Base,
    pub value: Base,
}

/// The type of an expression.
#[derive(Clone, Debug, PartialEq, Eq, Hash)]
pub enum Type {
    Base(Base),
    Array(Array),
    Tuple(Tuple),
    String(FeString),
    Contract(Contract),
    Struct(Struct),
    StorageMap(StorageMap),
}

/// A type whose size is known at compile time.
#[derive(Clone, Debug, PartialEq, Eq, PartialOrd, Ord, Hash)]
pub enum FixedSize {
    Base(Base),
    Array(Array),
    Tuple(Tuple),
    String(FeString),
    Contract(Contract),
    Struct(Struct),
}

/// `a` and `b` denote the same type: equal, tuples compared by their items.
pub open spec fn same_fixed(a: FixedSize, b: FixedSize) -> bool {
    match (a, b) {
        (FixedSize::Tuple(x), FixedSize::Tuple(y)) => x.items@ == y.items@,
        _ => a == b,
    }
}

impl FixedSize {
    /// A copy of this type.
    pub fn duplicate(&self) -> (r: FixedSize)
        ensures
            same_fixed(r, *self),
    {
        match self {
            FixedSize::Base(b) => FixedSize::Base(*b),
            FixedSize::Array(a) => FixedSize::Array(*a),
            FixedSize::Tuple(t) => {
                let mut items: Vec<Base> = Vec::new();
                let mut i: usize = 0;
                while i < t.items.len()
                    invariant
                        i <= t.items@.len(),
                        items@ == t.items@.take(i as int),
                    decreases t.items@.len() - i,
                {
                    items.push(t.items[i]);
                    i = i + 1;
                    proof {
                        assert(items@ =~= t.items@.take(i as int));
                    }
                }
                proof {
                    assert(t.items@.take(i as int) =~= t.items@);
                }
                FixedSize::Tuple(Tuple { items })
            },
            FixedSize::String(s) => FixedSize::String(*s),
            FixedSize::Contract(c) => FixedSize::Contract(Contract { name: c.name.clone() }),
            FixedSize::Struct(s) => FixedSize::Struct(Struct { name: s.name.clone() }),
        }
    }

    /// The empty tuple.
    pub fn empty_tuple() -> (r: FixedSize)
        ensures
            r is Tuple && r->Tuple_0.items@.len() == 0,
    {
        FixedSize::Tuple(Tuple { items: Vec::new() })
    }
}

/// The kind of a semantic error.
#[derive(Clone, Copy, Debug, PartialEq, Eq, Structural)]
pub enum ErrorKind {
    CannotMove,
}

/// A semantic error found while analyzing.
#[derive(Clone, Copy, Debug, PartialEq, Eq, Structural)]
pub struct SemanticError {
    pub kind: ErrorKind,
}

impl SemanticError {
    /// A value cannot be moved as asked.
    pub fn cannot_move() -> (r: SemanticError)
        ensures
            r == (SemanticError { kind: ErrorKind::CannotMove }),
    {
        SemanticError { kind: ErrorKind::CannotMove }
    }
}

/// Where an expression is stored.
#[derive(Clone, Copy, Debug, PartialEq, Eq, Structural)]
pub enum Location {
    /// A storage value may not have a nonce known at compile time.
    Storage { nonce: Option<usize> },
    Memory,
    Value,
}

/// The location a value of type `t` takes when assigned, returned or
/// passed; a map cannot be moved.
pub open spec fn assign_location_of(t: Type) -> Result<Location, SemanticError> {
    match t {
        Type::Base(_) | Type::Contract(_) => Ok(Location::Value),
        Type::StorageMap(_) => Err(SemanticError { kind: ErrorKind::CannotMove }),
        _ => Ok(Location::Memory),
    }
}

fn assign_location_ref(typ: &Type) -> (r: Result<Location, SemanticError>)
    ensures
        r == assign_location_of(*typ),
{
    match typ {
        Type::Base(_) => Ok(Location::Value),
        Type::Contract(_) => Ok(Location::Value),
        Type::Array(_) => Ok(Location::Memory),
        Type::Tuple(_) => Ok(Location::Memory),
        Type::String(_) => Ok(Location::Memory),
        Type::Struct(_) => Ok(Location::Memory),
        Type::StorageMap(_) => Err(SemanticError::cannot_move()),
    }
}

impl Location {
    /// The expected location of a value with the given type when being
    /// assigned, returned, or passed.
    pub fn assign_location(typ: Type) -> (r: Result<Location, SemanticError>)
        ensures
            r == assign_location_of(typ),
    {
        assign_location_ref(&typ)
    }
}

/// Contextual information relating to an expression.
#[derive(Clone, Debug, PartialEq)]
pub struct ExpressionAttributes {
    pub typ: Type,
    pub location: Location,
    pub move_location: Option<Location>,
}

/// The location of an expression after a possible move.
pub open spec fn final_location_of(e: ExpressionAttributes) -> Location {
    match e.move_location {
        Some(l) => l,
        None => e.location,
    }
}

/// `e` loaded to a value: refused unless its type is a base or contract
/// type; a move to value is added when it is not a value already.
pub open spec fn loaded(e: ExpressionAttributes) -> Result<ExpressionAttributes, SemanticError> {
    if !(e.typ is Base || e.typ is Contract) {
        Err(SemanticError { kind: ErrorKind::CannotMove })
    } else if e.location != Location::Value {
        Ok(ExpressionAttributes { move_location: Some(Location::Value), ..e })
    } else {
        Ok(e)
    }
}

impl ExpressionAttributes {
    pub fn new(typ: Type, location: Location) -> (r: ExpressionAttributes)
        ensures
            r == (ExpressionAttributes { typ, location, move_location: None }),
    {
        ExpressionAttributes { typ, location, move_location: None }
    }

    /// Whether the type of the expression is the empty tuple.
    pub fn is_empty_tuple(&self) -> (r: bool)
        ensures
            r == (self.typ is Tuple && self.typ->Tuple_0.items@.len() == 0),
    {
        match &self.typ {
            Type::Tuple(tuple) => tuple.is_empty(),
            _ => false,
        }
    }

    /// Adds a move to memory, if it is already in memory.
    pub fn into_cloned(self) -> (r: Result<ExpressionAttributes, SemanticError>)
        ensures
            r == if self.location != Location::Memory {
                Err(SemanticError { kind: ErrorKind::CannotMove })
            } else {
                Ok(ExpressionAttributes { move_location: Some(Location::Memory), ..self })
            },
    {
        if self.location != Location::Memory {
            Err(SemanticError::cannot_move())
        } else {
            Ok(ExpressionAttributes { move_location: Some(Location::Memory), ..self })
        }
    }

    /// Adds a move to memory, if it is in storage.
    pub fn into_cloned_from_sto(self) -> (r: Result<ExpressionAttributes, SemanticError>)
        ensures
            r == if !(self.location is Storage) {
                Err(SemanticError { kind: ErrorKind::CannotMove })
            } else {
                Ok(ExpressionAttributes { move_location: Some(Location::Memory), ..self })
            },
    {
        if !matches!(self.location, Location::Storage { .. }) {
            Err(SemanticError::cannot_move())
        } else {
            Ok(ExpressionAttributes { move_location: Some(Location::Memory), ..self })
        }
    }

    /// Adds a move to value, if it is in storage or memory.
    pub fn into_loaded(self) -> (r: Result<ExpressionAttributes, SemanticError>)
        ensures
            r == loaded(self),
    {
        match self.typ {
            Type::Base(_) => {},
            Type::Contract(_) => {},
            _ => return Err(SemanticError::cannot_move()),
        }
        if self.location != Location::Value {
            Ok(ExpressionAttributes { move_location: Some(Location::Value), ..self })
        } else {
            Ok(self)
        }
    }

    /// Adds a move (if necessary) to value if it is a base type and ensures
    /// reference types are in memory.
    pub fn into_assignable(self) -> (r: Result<ExpressionAttributes, SemanticError>)
        ensures
            r == match assign_location_of(self.typ) {
                Err(e) => Err(e),
                Ok(Location::Value) => loaded(self),
                Ok(_) => if final_location_of(self) == Location::Memory {
                    Ok(self)
                } else {
                    Err(SemanticError { kind: ErrorKind::CannotMove })
                },
            },
    {
        let assign_location = match assign_location_ref(&self.typ) {
            Ok(l) => l,
            Err(e) => return Err(e),
        };
        match assign_location {
            Location::Value => self.into_loaded(),
            _ => {
                if self.final_location() == Location::Memory {
                    Ok(self)
                } else {
                    Err(SemanticError::cannot_move())
                }
            },
        }
    }

    /// The final location of an expression after a possible move.
    pub fn final_location(&self) -> (r: Location)
        ensures
            r == final_location_of(*self),
    {
        match self.move_location {
            Some(location) => location,
            None => self.location,
        }
    }
}

/// A builtin function.
#[derive(Clone, Copy, Debug, PartialEq, Eq, Hash, Structural)]
pub enum GlobalMethod {
    Keccak256,
}

/// The type of a function call.
#[derive(Clone, Debug, PartialEq)]
pub enum CallType {
    BuiltinFunction { func: GlobalMethod },
    TypeConstructor { typ: Type },
    SelfAttribute { func_name: String },
    ValueAttribute,
    TypeAttribute { typ: Type, func_name: String },
}

/// Contextual information relating to a function definition.
#[derive(Clone, Debug, PartialEq, PartialOrd, Eq, Ord)]
pub struct FunctionAttributes {
    pub is_public: bool,
    pub name: String,
    pub params: Vec<(String, FixedSize)>,
    pub return_type: FixedSize,
}

impl FunctionAttributes {
    /// The parameters' types, in order.
    pub fn param_types(&self) -> (r: Vec<FixedSize>)
        ensures
            r@.len() == self.params@.len(),
            forall|i: int| 0 <= i < r@.len() ==> same_fixed(#[trigger] r@[i], self.params@[i].1),
    {
        let mut r: Vec<FixedSize> = Vec::new();
        let mut i: usize = 0;
        while i < self.params.len()
            invariant
                i <= self.params@.len(),
                r@.len() == i,
                forall|j: int| 0 <= j < i ==> same_fixed(#[trigger] r@[j], self.params@[j].1),
            decreases self.params@.len() - i,
        {
            r.push(self.params[i].1.duplicate());
            i = i + 1;
        }
        r
    }

    /// The parameters' names, in order.
    pub fn param_names(&self) -> (r: Vec<String>)
        ensures
            r@.len() == self.params@.len(),
            forall|i: int| 0 <= i < r@.len() ==> #[trigger] r@[i]@ == self.params@[i].0@,
    {
        let mut r: Vec<String> = Vec::new();
        let mut i: usize = 0;
        while i < self.params.len()
            invariant
                i <= self.params@.len(),
                r@.len() == i,
                forall|j: int| 0 <= j < i ==> #[trigger] r@[j]@ == self.params@[j].0@,
            decreases self.params@.len() - i,
        {
            r.push(self.params[i].0.clone());
            i = i + 1;
        }
        r
    }
}

/// An event a contract defines.
#[derive(Clone, Debug, PartialEq, Eq)]
pub struct EventDef {
    pub name: String,
    pub fields: Vec<(String, FixedSize)>,
}

/// Contextual information relating to a contract definition.
#[derive(Debug, PartialEq)]
pub struct ContractAttributes {
    /// Public functions that have been defined by the user.
    pub public_functions: Vec<FunctionAttributes>,
    /// An init function that has been defined by the user.
    pub init_function: Option<FunctionAttributes>,
    /// Events that have been defined by the user.
    pub events: Vec<EventDef>,
    /// Static strings that the contract defines.
    pub string_literals: HashSet<String>,
    /// Structs that have been defined by the user.
    pub structs: Vec<Struct>,
    /// External contracts that may be called from within this contract.
    pub external_contracts: Vec<Contract>,
    /// Names of contracts that have been created inside of this contract.
    pub created_contracts: HashSet<String>,
}

} // verus!
