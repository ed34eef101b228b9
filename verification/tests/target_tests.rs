use webidl_types::idl_type::IdlType;
use webidl_types::target::{TargetType, TypePosition};

#[test]
fn primitives_map_to_bare_identifiers() {
    assert_eq!(
        IdlType::Boolean.to_target_type(TypePosition::Argument),
        Some(TargetType::Named("bool".to_string()))
    );
    assert_eq!(
        IdlType::UnsignedLong.to_target_type(TypePosition::Return),
        Some(TargetType::Named("u32".to_string()))
    );
    assert_eq!(
        IdlType::UnrestrictedFloat.to_target_type(TypePosition::Return),
        Some(TargetType::Named("f32".to_string()))
    );
}

#[test]
fn strings_borrow_in_argument_position_and_own_in_return_position() {
    assert_eq!(
        IdlType::DomString.to_target_type(TypePosition::Argument),
        Some(TargetType::SharedRef(Box::new(TargetType::Named(
            "str".to_string()
        ))))
    );
    assert_eq!(
        IdlType::UsvString.to_target_type(TypePosition::Return),
        Some(TargetType::Named("String".to_string()))
    );
}

#[test]
fn typed_array_views_borrow_or_own_by_position() {
    assert_eq!(
        IdlType::Int8Array.to_target_type(TypePosition::Argument),
        Some(TargetType::SliceRef("i8".to_string()))
    );
    assert_eq!(
        IdlType::Uint8ClampedArray.to_target_type(TypePosition::Return),
        Some(TargetType::OwnedSlice("u8".to_string()))
    );
}

#[test]
fn interfaces_borrow_in_argument_position_and_camel_case_their_name() {
    assert_eq!(
        IdlType::Interface("node_list".to_string()).to_target_type(TypePosition::Argument),
        Some(TargetType::SharedRef(Box::new(TargetType::Named(
            "NodeList".to_string()
        ))))
    );
    assert_eq!(
        IdlType::Interface("XMLHttpRequest".to_string()).to_target_type(TypePosition::Return),
        Some(TargetType::Named("XmlHttpRequest".to_string()))
    );
    assert_eq!(
        IdlType::Dictionary("event_init".to_string()).to_target_type(TypePosition::Argument),
        Some(TargetType::Named("EventInit".to_string()))
    );
}

#[test]
fn foreign_types_render_as_paths() {
    assert_eq!(
        IdlType::Object.to_target_type(TypePosition::Argument),
        Some(TargetType::Foreign("js_sys".to_string(), "Object".to_string()))
    );
    assert_eq!(
        IdlType::ArrayBuffer.to_target_type(TypePosition::Return),
        Some(TargetType::Foreign(
            "js_sys".to_string(),
            "ArrayBuffer".to_string()
        ))
    );
    assert_eq!(
        IdlType::Any.to_target_type(TypePosition::Return),
        Some(TargetType::Foreign(
            "wasm_bindgen".to_string(),
            "JsValue".to_string()
        ))
    );
}

#[test]
fn nullable_wraps_inner_mapping_and_propagates_absence() {
    assert_eq!(
        IdlType::Nullable(Box::new(IdlType::Long)).to_target_type(TypePosition::Argument),
        Some(TargetType::Optional(Box::new(TargetType::Named(
            "i32".to_string()
        ))))
    );
    assert_eq!(
        IdlType::Nullable(Box::new(IdlType::Symbol)).to_target_type(TypePosition::Argument),
        None
    );
}

#[test]
fn unrepresentable_types_map_to_nothing() {
    let pos = TypePosition::Return;
    assert_eq!(IdlType::Symbol.to_target_type(pos), None);
    assert_eq!(IdlType::Error.to_target_type(pos), None);
    assert_eq!(IdlType::DataView.to_target_type(pos), None);
    assert_eq!(IdlType::Void.to_target_type(pos), None);
    assert_eq!(
        IdlType::Sequence(Box::new(IdlType::Long)).to_target_type(pos),
        None
    );
    assert_eq!(
        IdlType::FrozenArray(Box::new(IdlType::Long)).to_target_type(pos),
        None
    );
    assert_eq!(
        IdlType::Promise(Box::new(IdlType::Void)).to_target_type(pos),
        None
    );
    assert_eq!(
        IdlType::Record(Box::new(IdlType::DomString), Box::new(IdlType::Long)).to_target_type(pos),
        None
    );
    assert_eq!(
        IdlType::Union(vec![IdlType::Short, IdlType::Long]).to_target_type(pos),
        None
    );
}
