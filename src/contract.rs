//! Building a contract's attributes from its scope.
use vstd::prelude::*;
use std::collections::HashSet;
use crate::attributes::{Contract, ContractAttributes, EventDef, FixedSize, FunctionAttributes, Struct, Type};

verus! {

/// A function defined in a contract.
#[derive(Debug)]
pub struct ContractFunctionDef {
    pub is_public: bool,
    pub name: String,
    pub params: Vec<(String, FixedSize)>,
    pub return_type: FixedSize,
}

impl From<ContractFunctionDef> for FunctionAttributes {
    fn from(def: ContractFunctionDef) -> (r: FunctionAttributes) {
        FunctionAttributes {
            is_public: def.is_public,
            name: def.name,
            params: def.params,
            return_type: def.return_type,
        }
    }
}

impl vstd::std_specs::convert::FromSpecImpl<ContractFunctionDef> for FunctionAttributes {
    open spec fn obeys_from_spec() -> bool {
        true
    }

    open spec fn from_spec(def: ContractFunctionDef) -> FunctionAttributes {
        FunctionAttributes {
            is_public: def.is_public,
            name: def.name,
            params: def.params,
            return_type: def.return_type,
        }
    }
}

/// What a contract's scope holds: its name, its functions by name, the types
/// of its module, its events, its string literals and the contracts it creates.
#[derive(Debug)]
pub struct ContractScope {
    pub name: String,
    pub function_defs: Vec<(String, ContractFunctionDef)>,
    pub module_type_defs: Vec<Type>,
    pub event_defs: Vec<EventDef>,
    pub string_defs: HashSet<String>,
    pub created_contracts: HashSet<String>,
}

/// The name of a contract's init function.
pub open spec fn init_name() -> Seq<char> {
    "__init__"@
}

/// The attributes of the public functions other than the init function, in order.
pub open spec fn public_fns(defs: Seq<(String, ContractFunctionDef)>) -> Seq<FunctionAttributes>
    decreases defs.len(),
{
    if defs.len() == 0 {
        Seq::empty()
    } else {
        let rest = public_fns(defs.drop_last());
        let (name, def) = defs.last();
        if def.is_public && name@ != init_name() {
            rest.push(FunctionAttributes { is_public: def.is_public, name, params: def.params, return_type: def.return_type })
        } else {
            rest
        }
    }
}

/// The last public definition of the init function, if any.
pub open spec fn init_def(defs: Seq<(String, ContractFunctionDef)>) -> Option<(String, ContractFunctionDef)>
    decreases defs.len(),
{
    if defs.len() == 0 {
        None
    } else {
        let (name, def) = defs.last();
        if def.is_public && name@ == init_name() {
            Some(defs.last())
        } else {
            init_def(defs.drop_last())
        }
    }
}

/// The contract types of `types` other than the one named `own`, in order.
pub open spec fn external_contracts_of(types: Seq<Type>, own: Seq<char>) -> Seq<Contract>
    decreases types.len(),
{
    if types.len() == 0 {
        Seq::empty()
    } else {
        let rest = external_contracts_of(types.drop_last(), own);
        match types.last() {
            Type::Contract(c) => if c.name@ == own {
                rest
            } else {
                rest.push(c)
            },
            _ => rest,
        }
    }
}

/// The struct types of `types`, in order.
pub open spec fn structs_of(types: Seq<Type>) -> Seq<Struct>
    decreases types.len(),
{
    if types.len() == 0 {
        Seq::empty()
    } else {
        let rest = structs_of(types.drop_last());
        match types.last() {
            Type::Struct(s) => rest.push(s),
            _ => rest,
        }
    }
}

/// `v` in reverse order.
fn reversed<T>(v: Vec<T>) -> (r: Vec<T>)
    ensures
        r@.len() == v@.len(),
        forall|j: int| 0 <= j < v@.len() ==> #[trigger] r@[j] == v@[v@.len() - 1 - j],
{
    let ghost v0 = v@;
    let mut v = v;
    let mut r: Vec<T> = Vec::new();
    while v.len() > 0
        invariant
            v@ == v0.take(v0.len() - r@.len()),
            r@.len() <= v0.len(),
            forall|j: int| 0 <= j < r@.len() ==> #[trigger] r@[j] == v0[v0.len() - 1 - j],
        decreases v@.len(),
    {
        let x = v.pop().unwrap();
        r.push(x);
        proof {
            assert(v@ =~= v0.take(v0.len() - r@.len()));
        }
    }
    r
}

impl ContractAttributes {
    /// The attributes of the contract whose scope is `scope`: its public
    /// functions apart from the init function, the init function with an
    /// empty return type, its events and literals, the structs of its module
    /// and the other contracts of its module.
    pub fn from_scope(scope: ContractScope) -> (r: ContractAttributes)
        ensures
            r.public_functions@ == public_fns(scope.function_defs@),
            r.init_function is Some <==> init_def(scope.function_defs@) is Some,
            r.init_function is Some ==> ({
                let f = r.init_function->Some_0;
                let (name, def) = init_def(scope.function_defs@)->Some_0;
                &&& f.is_public == def.is_public
                &&& f.name == name
                &&& f.params == def.params
                &&& f.return_type is Tuple
                &&& f.return_type->Tuple_0.items@.len() == 0
            }),
            r.events == scope.event_defs,
            r.string_literals == scope.string_defs,
            r.created_contracts == scope.created_contracts,
            r.structs@ == structs_of(scope.module_type_defs@),
            r.external_contracts@ == external_contracts_of(scope.module_type_defs@, scope.name@),
    {
        let ghost defs0 = scope.function_defs@;
        let ghost types0 = scope.module_type_defs@;
        let n_defs = scope.function_defs.len();
        let n_types = scope.module_type_defs.len();
        let ContractScope { name: own, function_defs, module_type_defs, event_defs, string_defs, created_contracts } = scope;
        let init_name_str: String = "__init__".to_owned();
        let mut rest = reversed(function_defs);
        let mut public_functions: Vec<FunctionAttributes> = Vec::new();
        let mut init_function: Option<FunctionAttributes> = None;
        let mut i: usize = 0;
        while rest.len() > 0
            invariant
                init_name_str@ == init_name(),
                i + rest@.len() == defs0.len(),
                defs0.len() == n_defs,
                forall|j: int| 0 <= j < rest@.len() ==> #[trigger] rest@[j] == defs0[defs0.len() - 1 - j],
                public_functions@ == public_fns(defs0.take(i as int)),
                init_function is Some <==> init_def(defs0.take(i as int)) is Some,
                init_function is Some ==> ({
                    let f = init_function->Some_0;
                    let (name, def) = init_def(defs0.take(i as int))->Some_0;
                    &&& f.is_public == def.is_public
                    &&& f.name == name
                    &&& f.params == def.params
                    &&& f.return_type is Tuple
                    &&& f.return_type->Tuple_0.items@.len() == 0
                }),
            decreases rest@.len(),
        {
            let (name, def) = rest.pop().unwrap();
            proof {
                assert(defs0.take(i as int + 1).drop_last() =~= defs0.take(i as int));
                assert(defs0.take(i as int + 1).last() == defs0[i as int]);
            }
            if def.is_public {
                if name != init_name_str {
                    public_functions.push(FunctionAttributes {
                        is_public: def.is_public,
                        name,
                        params: def.params,
                        return_type: def.return_type,
                    });
                } else {
                    init_function = Some(FunctionAttributes {
                        is_public: def.is_public,
                        name,
                        params: def.params,
                        return_type: FixedSize::empty_tuple(),
                    });
                }
            }
            i = i + 1;
        }
        proof {
            assert(defs0.take(i as int) =~= defs0);
        }
        let mut types = reversed(module_type_defs);
        let mut structs: Vec<Struct> = Vec::new();
        let mut external_contracts: Vec<Contract> = Vec::new();
        let mut k: usize = 0;
        while types.len() > 0
            invariant
                k + types@.len() == types0.len(),
                types0.len() == n_types,
                forall|j: int| 0 <= j < types@.len() ==> #[trigger] types@[j] == types0[types0.len() - 1 - j],
                structs@ == structs_of(types0.take(k as int)),
                external_contracts@ == external_contracts_of(types0.take(k as int), own@),
            decreases types@.len(),
        {
            let typ = types.pop().unwrap();
            proof {
                assert(types0.take(k as int + 1).drop_last() =~= types0.take(k as int));
                assert(types0.take(k as int + 1).last() == types0[k as int]);
            }
            match typ {
                Type::Contract(contract) => {
                    if contract.name != own {
                        external_contracts.push(contract);
                    }
                },
                Type::Struct(s) => structs.push(s),
                _ => {},
            }
            k = k + 1;
        }
        proof {
            assert(types0.take(k as int) =~= types0);
        }
        ContractAttributes {
            public_functions,
            init_function,
            events: event_defs,
            string_literals: string_defs,
            structs,
            external_contracts,
            created_contracts,
        }
    }
}

} // verus!
