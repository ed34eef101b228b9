use webidl_types::idl_type::IdlType;
use webidl_types::resolve::{
    ConstExpr, FloatExpr, IntegerExpr, NonAnyExpr, RecordKeyExpr, ReturnExpr, SingleExpr,
    SymbolTable, TypeExpr, UnionMemberExpr,
};

fn empty_table() -> SymbolTable {
    SymbolTable {
        typedefs: vec![],
        interfaces: vec![],
        dictionaries: vec![],
        enums: vec![],
    }
}

fn sample_table() -> SymbolTable {
    SymbolTable {
        typedefs: vec![(
            "MyAlias".to_string(),
            TypeExpr::Single(SingleExpr::NonAny(NonAnyExpr::Integer(
                false,
                IntegerExpr::Long(false),
            ))),
        )],
        interfaces: vec!["Node".to_string(), "Event".to_string()],
        dictionaries: vec!["EventInit".to_string()],
        enums: vec!["Mode".to_string()],
    }
}

fn ident(q_mark: bool, name: &str) -> TypeExpr {
    TypeExpr::Single(SingleExpr::NonAny(NonAnyExpr::Identifier(
        q_mark,
        name.to_string(),
    )))
}

#[test]
fn unknown_identifier_resolves_to_failure() {
    let table = sample_table();
    assert_eq!(ident(false, "NotDeclaredAnywhere").to_idl_type(&table), None);
    assert_eq!(ident(false, "Whatever").to_idl_type(&empty_table()), None);
}

#[test]
fn primitive_nodes_map_one_to_one() {
    let table = empty_table();
    assert_eq!(
        TypeExpr::Single(SingleExpr::Any).to_idl_type(&table),
        Some(IdlType::Any)
    );
    assert_eq!(
        TypeExpr::Single(SingleExpr::NonAny(NonAnyExpr::Boolean(false))).to_idl_type(&table),
        Some(IdlType::Boolean)
    );
    assert_eq!(
        TypeExpr::Single(SingleExpr::NonAny(NonAnyExpr::Integer(
            false,
            IntegerExpr::LongLong(true)
        )))
        .to_idl_type(&table),
        Some(IdlType::UnsignedLongLong)
    );
    assert_eq!(
        TypeExpr::Single(SingleExpr::NonAny(NonAnyExpr::FloatingPoint(
            false,
            FloatExpr::Float(true)
        )))
        .to_idl_type(&table),
        Some(IdlType::UnrestrictedFloat)
    );
}

#[test]
fn nullable_marker_wraps_and_absence_passes_through() {
    let table = sample_table();
    assert_eq!(
        TypeExpr::Single(SingleExpr::NonAny(NonAnyExpr::Boolean(true))).to_idl_type(&table),
        Some(IdlType::Nullable(Box::new(IdlType::Boolean)))
    );
    assert_eq!(
        ident(true, "Node").to_idl_type(&table),
        Some(IdlType::Nullable(Box::new(IdlType::Interface(
            "Node".to_string()
        ))))
    );
    assert_eq!(
        ident(false, "Node").to_idl_type(&table),
        Some(IdlType::Interface("Node".to_string()))
    );
}

#[test]
fn identifier_priority_typedef_then_interface_then_dictionary_then_enum() {
    let mut table = sample_table();
    assert_eq!(
        ident(false, "MyAlias").to_idl_type(&table),
        Some(IdlType::Long)
    );
    assert_eq!(
        ident(false, "EventInit").to_idl_type(&table),
        Some(IdlType::Dictionary("EventInit".to_string()))
    );
    assert_eq!(
        ident(false, "Mode").to_idl_type(&table),
        Some(IdlType::Enum("Mode".to_string()))
    );
    // a typedef shadows an interface of the same name
    table.interfaces.push("MyAlias".to_string());
    assert_eq!(
        ident(false, "MyAlias").to_idl_type(&table),
        Some(IdlType::Long)
    );
}

#[test]
fn cyclic_typedef_resolves_to_failure() {
    let table = SymbolTable {
        typedefs: vec![
            ("Alpha".to_string(), ident(false, "Beta")),
            ("Beta".to_string(), ident(false, "Alpha")),
        ],
        interfaces: vec![],
        dictionaries: vec![],
        enums: vec![],
    };
    assert_eq!(ident(false, "Alpha").to_idl_type(&table), None);
}

#[test]
fn typedef_chain_expands_transparently() {
    let table = SymbolTable {
        typedefs: vec![
            ("Outer".to_string(), ident(false, "Middle")),
            ("Middle".to_string(), ident(false, "Inner")),
            (
                "Inner".to_string(),
                TypeExpr::Single(SingleExpr::NonAny(NonAnyExpr::DomString(false))),
            ),
        ],
        interfaces: vec![],
        dictionaries: vec![],
        enums: vec![],
    };
    assert_eq!(
        ident(false, "Outer").to_idl_type(&table),
        Some(IdlType::DomString)
    );
}

#[test]
fn generic_wrappers_resolve_recursively() {
    let table = sample_table();
    let seq_of_node = TypeExpr::Single(SingleExpr::NonAny(NonAnyExpr::Sequence(
        false,
        Box::new(ident(false, "Node")),
    )));
    assert_eq!(
        seq_of_node.to_idl_type(&table),
        Some(IdlType::Sequence(Box::new(IdlType::Interface(
            "Node".to_string()
        ))))
    );
    let promise_undefined = TypeExpr::Single(SingleExpr::NonAny(NonAnyExpr::Promise(Box::new(
        ReturnExpr::Undefined,
    ))));
    assert_eq!(
        promise_undefined.to_idl_type(&table),
        Some(IdlType::Promise(Box::new(IdlType::Void)))
    );
    let record = TypeExpr::Single(SingleExpr::NonAny(NonAnyExpr::RecordKV(
        false,
        RecordKeyExpr::Dom,
        Box::new(ident(false, "Node")),
    )));
    assert_eq!(
        record.to_idl_type(&table),
        Some(IdlType::Record(
            Box::new(IdlType::DomString),
            Box::new(IdlType::Interface("Node".to_string()))
        ))
    );
}

#[test]
fn union_resolves_members_in_order_and_fails_as_a_whole() {
    let table = sample_table();
    let good = TypeExpr::Union(
        false,
        vec![
            UnionMemberExpr::Single(NonAnyExpr::Identifier(false, "Node".to_string())),
            UnionMemberExpr::Single(NonAnyExpr::DomString(false)),
        ],
    );
    assert_eq!(
        good.to_idl_type(&table),
        Some(IdlType::Union(vec![
            IdlType::Interface("Node".to_string()),
            IdlType::DomString,
        ]))
    );
    let bad = TypeExpr::Union(
        false,
        vec![
            UnionMemberExpr::Single(NonAnyExpr::Identifier(false, "Node".to_string())),
            UnionMemberExpr::Single(NonAnyExpr::Identifier(false, "Nope".to_string())),
        ],
    );
    assert_eq!(bad.to_idl_type(&table), None);
}

#[test]
fn nested_union_keeps_structure() {
    let table = sample_table();
    let nested = TypeExpr::Union(
        true,
        vec![
            UnionMemberExpr::Single(NonAnyExpr::Boolean(false)),
            UnionMemberExpr::Union(
                false,
                vec![
                    UnionMemberExpr::Single(NonAnyExpr::DomString(false)),
                    UnionMemberExpr::Single(NonAnyExpr::Octet(false)),
                ],
            ),
        ],
    );
    assert_eq!(
        nested.to_idl_type(&table),
        Some(IdlType::Nullable(Box::new(IdlType::Union(vec![
            IdlType::Boolean,
            IdlType::Union(vec![IdlType::DomString, IdlType::Octet]),
        ]))))
    );
}

#[test]
fn const_and_return_types_resolve() {
    let table = sample_table();
    assert_eq!(
        ConstExpr::Identifier(false, "Mode".to_string()).to_idl_type(&table),
        Some(IdlType::Enum("Mode".to_string()))
    );
    assert_eq!(
        ConstExpr::Identifier(false, "Absent".to_string()).to_idl_type(&table),
        None
    );
    assert_eq!(
        ConstExpr::Octet(true).to_idl_type(&table),
        Some(IdlType::Nullable(Box::new(IdlType::Octet)))
    );
    assert_eq!(
        ReturnExpr::Undefined.to_idl_type(&table),
        Some(IdlType::Void)
    );
    assert_eq!(
        ReturnExpr::Ty(ident(false, "Event")).to_idl_type(&table),
        Some(IdlType::Interface("Event".to_string()))
    );
}

#[test]
fn symbol_table_predicates_answer_membership() {
    let table = sample_table();
    assert!(table.is_interface(&"Node".to_string()));
    assert!(!table.is_interface(&"EventInit".to_string()));
    assert!(table.is_dictionary(&"EventInit".to_string()));
    assert!(table.is_enum(&"Mode".to_string()));
    assert!(!table.is_enum(&"Node".to_string()));
    assert!(table.lookup_typedef(&"MyAlias".to_string()).is_some());
    assert!(table.lookup_typedef(&"Node".to_string()).is_none());
}
