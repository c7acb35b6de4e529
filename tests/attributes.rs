use fe_tycheck::{
    Array, Base, Contract, ExpressionAttributes, FeString, FixedSize, FunctionAttributes,
    Location, SemanticError, StorageMap, Tuple, Type,
};

fn attrs(typ: Type, location: Location) -> ExpressionAttributes {
    ExpressionAttributes::new(typ, location)
}

fn contract() -> Type {
    Type::Contract(Contract { name: "Foo".to_string() })
}

fn sto() -> Location {
    Location::Storage { nonce: Some(1) }
}

#[test]
fn assign_locations() {
    assert_eq!(Location::assign_location(Type::Base(Base::Numeric)), Ok(Location::Value));
    assert_eq!(Location::assign_location(contract()), Ok(Location::Value));
    assert_eq!(Location::assign_location(Type::Array(Array { size: 3, inner: Base::Bool })), Ok(Location::Memory));
    assert_eq!(Location::assign_location(Type::String(FeString { max_size: 5 })), Ok(Location::Memory));
    assert_eq!(
        Location::assign_location(Type::StorageMap(StorageMap { key: Base::Address, value: Base::Numeric })),
        Err(SemanticError::cannot_move())
    );
}

#[test]
fn empty_tuple() {
    assert!(attrs(Type::Tuple(Tuple { items: vec![] }), Location::Memory).is_empty_tuple());
    assert!(!attrs(Type::Tuple(Tuple { items: vec![Base::Bool] }), Location::Memory).is_empty_tuple());
    assert!(!attrs(Type::Base(Base::Unit), Location::Value).is_empty_tuple());
}

#[test]
fn cloning_moves() {
    let a = attrs(Type::Array(Array { size: 2, inner: Base::Numeric }), Location::Memory);
    let c = a.clone().into_cloned().unwrap();
    assert_eq!(c.move_location, Some(Location::Memory));
    assert_eq!(c.final_location(), Location::Memory);
    assert_eq!(attrs(Type::Base(Base::Bool), sto()).into_cloned(), Err(SemanticError::cannot_move()));
    let s = attrs(Type::Array(Array { size: 2, inner: Base::Numeric }), sto()).into_cloned_from_sto().unwrap();
    assert_eq!(s.move_location, Some(Location::Memory));
    assert_eq!(a.into_cloned_from_sto(), Err(SemanticError::cannot_move()));
}

#[test]
fn loading() {
    let l = attrs(Type::Base(Base::Numeric), sto()).into_loaded().unwrap();
    assert_eq!(l.final_location(), Location::Value);
    let v = attrs(contract(), Location::Value).into_loaded().unwrap();
    assert_eq!(v.move_location, None);
    assert_eq!(
        attrs(Type::String(FeString { max_size: 3 }), Location::Memory).into_loaded(),
        Err(SemanticError::cannot_move())
    );
}

#[test]
fn assignable() {
    let b = attrs(Type::Base(Base::Bool), Location::Memory).into_assignable().unwrap();
    assert_eq!(b.move_location, Some(Location::Value));
    let m = attrs(Type::Array(Array { size: 1, inner: Base::Bool }), Location::Memory).into_assignable().unwrap();
    assert_eq!(m.move_location, None);
    assert_eq!(
        attrs(Type::Array(Array { size: 1, inner: Base::Bool }), sto()).into_assignable(),
        Err(SemanticError::cannot_move())
    );
    let moved = attrs(Type::Array(Array { size: 1, inner: Base::Bool }), sto()).into_cloned_from_sto().unwrap();
    assert!(moved.into_assignable().is_ok());
    assert_eq!(
        attrs(Type::StorageMap(StorageMap { key: Base::Numeric, value: Base::Bool }), sto()).into_assignable(),
        Err(SemanticError::cannot_move())
    );
}

#[test]
fn function_params() {
    let f = FunctionAttributes {
        is_public: true,
        name: "transfer".to_string(),
        params: vec![
            ("to".to_string(), FixedSize::Base(Base::Address)),
            ("amount".to_string(), FixedSize::Base(Base::Numeric)),
        ],
        return_type: FixedSize::empty_tuple(),
    };
    assert_eq!(f.param_names(), vec!["to".to_string(), "amount".to_string()]);
    assert_eq!(f.param_types(), vec![FixedSize::Base(Base::Address), FixedSize::Base(Base::Numeric)]);
}
