use webidl_types::idl_type::IdlType;
use webidl_types::idl_type::IdlType::{
    Any, ArrayBuffer, Boolean, Byte, ByteString, DataView, DomString, Double, Float, FrozenArray,
    Long, LongLong, Nullable, Object, Octet, Promise, Record, Sequence, Short, Symbol, Union,
    UnsignedLong, UnsignedShort, UsvString, Void,
};

#[test]
fn scalar_leaves_have_fixed_tokens() {
    assert_eq!(Boolean.get_type_name(), "bool");
    assert_eq!(Byte.get_type_name(), "i8");
    assert_eq!(Octet.get_type_name(), "u8");
    assert_eq!(Short.get_type_name(), "i16");
    assert_eq!(UnsignedShort.get_type_name(), "u16");
    assert_eq!(Long.get_type_name(), "i32");
    assert_eq!(LongLong.get_type_name(), "i64");
    assert_eq!(IdlType::UnrestrictedDouble.get_type_name(), "unrestricted_f64");
    assert_eq!(DomString.get_type_name(), "dom_str");
    assert_eq!(ByteString.get_type_name(), "byte_str");
    assert_eq!(UsvString.get_type_name(), "usv_str");
    assert_eq!(IdlType::Uint8ClampedArray.get_type_name(), "u8_clamped_array");
    assert_eq!(Any.get_type_name(), "any");
    assert_eq!(Void.get_type_name(), "void");
}

#[test]
fn named_leaves_are_snake_cased() {
    assert_eq!(
        IdlType::Interface("XMLHttpRequest".to_string()).get_type_name(),
        "xml_http_request"
    );
    assert_eq!(
        IdlType::Dictionary("NodeList".to_string()).get_type_name(),
        "node_list"
    );
    assert_eq!(IdlType::Enum("Mode".to_string()).get_type_name(), "mode");
}

#[test]
fn wrappers_compose_names_in_nesting_order() {
    assert_eq!(Nullable(Box::new(Boolean)).get_type_name(), "opt_bool");
    assert_eq!(Sequence(Box::new(Long)).get_type_name(), "i32_sequence");
    assert_eq!(
        FrozenArray(Box::new(DomString)).get_type_name(),
        "dom_str_frozen_array"
    );
    assert_eq!(Promise(Box::new(Void)).get_type_name(), "void_promise");
    assert_eq!(
        Record(Box::new(ByteString), Box::new(Long)).get_type_name(),
        "record_from_byte_str_to_i32"
    );
    assert_eq!(
        Union(vec![Short, Long, DomString]).get_type_name(),
        "union_of_i16_and_i32_and_dom_str"
    );
    assert_eq!(
        Nullable(Box::new(Sequence(Box::new(Union(vec![Byte, Octet]))))).get_type_name(),
        "opt_union_of_i8_and_u8_sequence"
    );
}

#[test]
fn push_type_name_appends_in_place() {
    let mut name = String::from("prefix_");
    Sequence(Box::new(Boolean)).push_type_name(&mut name);
    assert_eq!(name, "prefix_bool_sequence");
}

#[test]
fn descriptive_names_are_injective_over_sample() {
    let samples: Vec<IdlType> = vec![
        Boolean,
        Byte,
        Octet,
        Short,
        UnsignedShort,
        Long,
        UnsignedLong,
        LongLong,
        Float,
        Double,
        DomString,
        ByteString,
        UsvString,
        Object,
        Symbol,
        ArrayBuffer,
        DataView,
        Any,
        Void,
        IdlType::Interface("Node".to_string()),
        IdlType::Dictionary("EventInit".to_string()),
        IdlType::Enum("Mode".to_string()),
        Nullable(Box::new(Boolean)),
        Nullable(Box::new(Long)),
        Sequence(Box::new(Long)),
        FrozenArray(Box::new(Long)),
        Promise(Box::new(Long)),
        Record(Box::new(DomString), Box::new(Long)),
        Record(Box::new(Long), Box::new(DomString)),
        Union(vec![Short, Long]),
        Union(vec![Long, Short]),
        Sequence(Box::new(Sequence(Box::new(Long)))),
    ];
    let names: Vec<String> = samples.iter().map(|t| t.get_type_name()).collect();
    for i in 0..names.len() {
        for j in 0..names.len() {
            if i != j {
                assert_ne!(names[i], names[j], "collision between samples {} and {}", i, j);
            }
        }
    }
}
