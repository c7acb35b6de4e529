use fe_tycheck::{
    Base, CallType, Context, EventDef, ExpressionAttributes, FixedSize, GlobalMethod, Location,
    NodeId, Type,
};

#[test]
fn context_attributes_by_node() {
    let mut ctx = Context::new();
    assert!(ctx.get_expression(NodeId(1)).is_none());
    let e = ExpressionAttributes::new(Type::Base(Base::Numeric), Location::Value);
    ctx.add_expression(NodeId(1), e.clone());
    assert_eq!(ctx.get_expression(NodeId(1)), Some(&e));
    let e2 = ExpressionAttributes::new(Type::Base(Base::Bool), Location::Memory);
    ctx.add_expression(NodeId(1), e2.clone());
    assert_eq!(ctx.get_expression(NodeId(1)), Some(&e2));
    ctx.add_declaration(NodeId(2), FixedSize::Base(Base::Address));
    assert_eq!(ctx.get_declaration(NodeId(2)), Some(&FixedSize::Base(Base::Address)));
    assert!(ctx.get_declaration(NodeId(1)).is_none());
    ctx.add_call(NodeId(3), CallType::BuiltinFunction { func: GlobalMethod::Keccak256 });
    assert_eq!(ctx.get_call(NodeId(3)), Some(&CallType::BuiltinFunction { func: GlobalMethod::Keccak256 }));
    let ev = EventDef { name: "E".to_string(), fields: vec![] };
    ctx.add_event(NodeId(4), ev.clone());
    ctx.add_emit(NodeId(5), ev.clone());
    assert_eq!(ctx.get_event(NodeId(4)), Some(&ev));
    assert_eq!(ctx.get_emit(NodeId(5)), Some(&ev));
    assert!(ctx.get_emit(NodeId(4)).is_none());
    assert!(ctx.get_function(NodeId(4)).is_none());
    assert!(ctx.get_contract(NodeId(4)).is_none());
}
