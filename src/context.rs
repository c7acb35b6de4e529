//! Contextual information about a module, attributed to its nodes by id.
use vstd::prelude::*;
use std::collections::HashMap;
use crate::attributes::{CallType, ContractAttributes, EventDef, ExpressionAttributes, FixedSize, FunctionAttributes};

verus! {

broadcast use vstd::std_specs::hash::group_hash_axioms;

/// Identifies a node of a module's syntax tree.
#[derive(Clone, Copy, Debug, PartialEq, Eq, Hash, Structural)]
pub struct NodeId(pub u32);

/// Contextual information about a module, queried by node.
pub struct Context {
    expressions: HashMap<u32, ExpressionAttributes>,
    emits: HashMap<u32, EventDef>,
    functions: HashMap<u32, FunctionAttributes>,
    declarations: HashMap<u32, FixedSize>,
    contracts: HashMap<u32, ContractAttributes>,
    calls: HashMap<u32, CallType>,
    events: HashMap<u32, EventDef>,
}

/// The mathematical form of a context: one table per kind of node.
pub struct ContextView {
    pub expressions: Map<u32, ExpressionAttributes>,
    pub emits: Map<u32, EventDef>,
    pub functions: Map<u32, FunctionAttributes>,
    pub declarations: Map<u32, FixedSize>,
    pub contracts: Map<u32, ContractAttributes>,
    pub calls: Map<u32, CallType>,
    pub events: Map<u32, EventDef>,
}

impl View for Context {
    type V = ContextView;

    closed spec fn view(&self) -> ContextView {
        ContextView {
            expressions: self.expressions@,
            emits: self.emits@,
            functions: self.functions@,
            declarations: self.declarations@,
            contracts: self.contracts@,
            calls: self.calls@,
            events: self.events@,
        }
    }
}

/// What `m` holds for `k`, if anything.
pub open spec fn entry<V>(m: Map<u32, V>, k: u32) -> Option<V> {
    if m.contains_key(k) {
        Some(m[k])
    } else {
        None
    }
}

impl Context {
    /// A context with nothing attributed.
    pub fn new() -> (r: Context)
        ensures
            r@.expressions.is_empty(),
            r@.emits.is_empty(),
            r@.functions.is_empty(),
            r@.declarations.is_empty(),
            r@.contracts.is_empty(),
            r@.calls.is_empty(),
            r@.events.is_empty(),
    {
        Context {
            expressions: HashMap::new(),
            emits: HashMap::new(),
            functions: HashMap::new(),
            declarations: HashMap::new(),
            contracts: HashMap::new(),
            calls: HashMap::new(),
            events: HashMap::new(),
        }
    }

    /// Attributes contextual information to an expression node.
    pub fn add_expression(&mut self, node_id: NodeId, attributes: ExpressionAttributes)
        ensures
            final(self)@ == (ContextView { expressions: old(self)@.expressions.insert(node_id.0, attributes), ..old(self)@ }),
    {
        self.expressions.insert(node_id.0, attributes);
    }

    /// Information attributed to an expression node.
    pub fn get_expression(&self, node_id: NodeId) -> (r: Option<&ExpressionAttributes>)
        ensures
            r matches Some(a) ==> entry(self@.expressions, node_id.0) == Some(*a),
            r is None ==> entry(self@.expressions, node_id.0) is None,
    {
        self.expressions.get(&node_id.0)
    }

    /// Attributes an event to an emit statement node.
    pub fn add_emit(&mut self, node_id: NodeId, event: EventDef)
        ensures
            final(self)@ == (ContextView { emits: old(self)@.emits.insert(node_id.0, event), ..old(self)@ }),
    {
        self.emits.insert(node_id.0, event);
    }

    /// The event attributed to an emit statement node.
    pub fn get_emit(&self, node_id: NodeId) -> (r: Option<&EventDef>)
        ensures
            r matches Some(a) ==> entry(self@.emits, node_id.0) == Some(*a),
            r is None ==> entry(self@.emits, node_id.0) is None,
    {
        self.emits.get(&node_id.0)
    }

    /// Attributes contextual information to a function definition node.
    pub fn add_function(&mut self, node_id: NodeId, attributes: FunctionAttributes)
        ensures
            final(self)@ == (ContextView { functions: old(self)@.functions.insert(node_id.0, attributes), ..old(self)@ }),
    {
        self.functions.insert(node_id.0, attributes);
    }

    /// Information attributed to a function definition node.
    pub fn get_function(&self, node_id: NodeId) -> (r: Option<&FunctionAttributes>)
        ensures
            r matches Some(a) ==> entry(self@.functions, node_id.0) == Some(*a),
            r is None ==> entry(self@.functions, node_id.0) is None,
    {
        self.functions.get(&node_id.0)
    }

    /// Attributes a type to a declaration node.
    pub fn add_declaration(&mut self, node_id: NodeId, typ: FixedSize)
        ensures
            final(self)@ == (ContextView { declarations: old(self)@.declarations.insert(node_id.0, typ), ..old(self)@ }),
    {
        self.declarations.insert(node_id.0, typ);
    }

    /// The type attributed to a declaration node.
    pub fn get_declaration(&self, node_id: NodeId) -> (r: Option<&FixedSize>)
        ensures
            r matches Some(a) ==> entry(self@.declarations, node_id.0) == Some(*a),
            r is None ==> entry(self@.declarations, node_id.0) is None,
    {
        self.declarations.get(&node_id.0)
    }

    /// Attributes contextual information to a contract definition node.
    pub fn add_contract(&mut self, node_id: NodeId, attributes: ContractAttributes)
        ensures
            final(self)@ == (ContextView { contracts: old(self)@.contracts.insert(node_id.0, attributes), ..old(self)@ }),
    {
        self.contracts.insert(node_id.0, attributes);
    }

    /// Information attributed to a contract definition node.
    pub fn get_contract(&self, node_id: NodeId) -> (r: Option<&ContractAttributes>)
        ensures
            r matches Some(a) ==> entry(self@.contracts, node_id.0) == Some(*a),
            r is None ==> entry(self@.contracts, node_id.0) is None,
    {
        self.contracts.get(&node_id.0)
    }

    /// Attributes a call type to a call expression node.
    pub fn add_call(&mut self, node_id: NodeId, call_type: CallType)
        ensures
            final(self)@ == (ContextView { calls: old(self)@.calls.insert(node_id.0, call_type), ..old(self)@ }),
    {
        self.calls.insert(node_id.0, call_type);
    }

    /// The call type attributed to a call expression node.
    pub fn get_call(&self, node_id: NodeId) -> (r: Option<&CallType>)
        ensures
            r matches Some(a) ==> entry(self@.calls, node_id.0) == Some(*a),
            r is None ==> entry(self@.calls, node_id.0) is None,
    {
        self.calls.get(&node_id.0)
    }

    /// Attributes an event to an event definition node.
    pub fn add_event(&mut self, node_id: NodeId, event: EventDef)
        ensures
            final(self)@ == (ContextView { events: old(self)@.events.insert(node_id.0, event), ..old(self)@ }),
    {
        self.events.insert(node_id.0, event);
    }

    /// The event attributed to an event definition node.
    pub fn get_event(&self, node_id: NodeId) -> (r: Option<&EventDef>)
        ensures
            r matches Some(a) ==> entry(self@.events, node_id.0) == Some(*a),
            r is None ==> entry(self@.events, node_id.0) is None,
    {
        self.events.get(&node_id.0)
    }
}

} // verus!
