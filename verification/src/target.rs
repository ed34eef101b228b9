//! Target-type-token mapping: a pure lookup from (canonical type, usage
//! position) to an optional target-language type expression. Position
//! matters for string, typed-array-view and interface leaves, which render
//! as a borrowed view in argument position and an owned value in return
//! position. Types with no direct representation map to nothing.

use vstd::prelude::*;
use crate::idl_type::{IdlType, TyView};
use heck::ToUpperCamelCase;
use vstd::string::StringExecFns;

verus! {

/// Usage position of a type: a formal argument, or a return value.
#[derive(Clone, Copy, PartialEq, Eq, Structural, Debug)]
pub enum TypePosition {
    Argument,
    Return,
}

/// Mathematical model of a target-language type expression.
pub enum TargetView {
    /// A bare identifier: a primitive or a camel-cased declaration name.
    Named(Seq<char>),
    /// A shared (borrowed) reference to the inner type.
    SharedRef(Box<TargetView>),
    /// An optional value of the inner type.
    Optional(Box<TargetView>),
    /// An item reached through a foreign crate: root and item name.
    Foreign(Seq<char>, Seq<char>),
    /// A borrowed view of a contiguous buffer of the named element type.
    SliceRef(Seq<char>),
    /// An owned buffer of the named element type.
    OwnedSlice(Seq<char>),
}

/// A target-language type expression, ready for the emitter to render.
#[derive(PartialEq, Eq, Debug)]
pub enum TargetType {
    Named(String),
    SharedRef(Box<TargetType>),
    Optional(Box<TargetType>),
    Foreign(String, String),
    SliceRef(String),
    OwnedSlice(String),
}

/// View of a target type as its mathematical model.
pub open spec fn target_view(t: TargetType) -> TargetView
    decreases t,
{
    match t {
        TargetType::Named(name) => TargetView::Named(name@),
        TargetType::SharedRef(inner) => TargetView::SharedRef(Box::new(target_view(*inner))),
        TargetType::Optional(inner) => TargetView::Optional(Box::new(target_view(*inner))),
        TargetType::Foreign(root, item) => TargetView::Foreign(root@, item@),
        TargetType::SliceRef(elem) => TargetView::SliceRef(elem@),
        TargetType::OwnedSlice(elem) => TargetView::OwnedSlice(elem@),
    }
}

impl View for TargetType {
    type V = TargetView;

    open spec fn view(&self) -> TargetView {
        target_view(*self)
    }
}

/// The characters that heck's upper-camel-case conversion yields for a
/// string's characters; the result is a function of the characters alone.
pub uninterp spec fn camel_of(s: Seq<char>) -> Seq<char>;

/// Relies on heck's `ToUpperCamelCase::to_upper_camel_case` for `str`: a
/// pure, deterministic camel-case transform of the characters.
#[verifier::external_body]
fn camel_case_ident(s: &str) -> (r: String)
    ensures
        r@ == camel_of(s@),
{
    s.to_upper_camel_case()
}

/// The borrowed-view or owned-buffer rendering of a typed-array view with
/// the given element type.
pub open spec fn array_token(elem: Seq<char>, pos: TypePosition) -> TargetView {
    match pos {
        TypePosition::Argument => TargetView::SliceRef(elem),
        TypePosition::Return => TargetView::OwnedSlice(elem),
    }
}

/// The target type token of a canonical type at a usage position, or `None`
/// when no direct representation exists (frozen arrays, sequences, promises,
/// records, unions, symbol, error, data-view and `void`).
pub open spec fn target_token(t: TyView, pos: TypePosition) -> Option<TargetView>
    decreases t,
{
    match t {
        TyView::Boolean => Some(TargetView::Named("bool"@)),
        TyView::Byte => Some(TargetView::Named("i8"@)),
        TyView::Octet => Some(TargetView::Named("u8"@)),
        TyView::Short => Some(TargetView::Named("i16"@)),
        TyView::UnsignedShort => Some(TargetView::Named("u16"@)),
        TyView::Long => Some(TargetView::Named("i32"@)),
        TyView::UnsignedLong => Some(TargetView::Named("u32"@)),
        TyView::LongLong => Some(TargetView::Named("i64"@)),
        TyView::UnsignedLongLong => Some(TargetView::Named("u64"@)),
        TyView::Float => Some(TargetView::Named("f32"@)),
        TyView::UnrestrictedFloat => Some(TargetView::Named("f32"@)),
        TyView::Double => Some(TargetView::Named("f64"@)),
        TyView::UnrestrictedDouble => Some(TargetView::Named("f64"@)),
        TyView::DomString => Some(string_token(pos)),
        TyView::ByteString => Some(string_token(pos)),
        TyView::UsvString => Some(string_token(pos)),
        TyView::Object => Some(TargetView::Foreign("js_sys"@, "Object"@)),
        TyView::Symbol => None,
        TyView::Error => None,
        TyView::ArrayBuffer => Some(TargetView::Foreign("js_sys"@, "ArrayBuffer"@)),
        TyView::DataView => None,
        TyView::Int8Array => Some(array_token("i8"@, pos)),
        TyView::Uint8Array => Some(array_token("u8"@, pos)),
        TyView::Uint8ClampedArray => Some(array_token("u8"@, pos)),
        TyView::Int16Array => Some(array_token("i16"@, pos)),
        TyView::Uint16Array => Some(array_token("u16"@, pos)),
        TyView::Int32Array => Some(array_token("i32"@, pos)),
        TyView::Uint32Array => Some(array_token("u32"@, pos)),
        TyView::Float32Array => Some(array_token("f32"@, pos)),
        TyView::Float64Array => Some(array_token("f64"@, pos)),
        TyView::Interface(name) => if pos == TypePosition::Argument {
            Some(TargetView::SharedRef(Box::new(TargetView::Named(camel_of(name)))))
        } else {
            Some(TargetView::Named(camel_of(name)))
        },
        TyView::Dictionary(name) => Some(TargetView::Named(camel_of(name))),
        TyView::Enum(name) => Some(TargetView::Named(camel_of(name))),
        TyView::Nullable(inner) => match target_token(*inner, pos) {
            Some(tok) => Some(TargetView::Optional(Box::new(tok))),
            None => None,
        },
        TyView::FrozenArray(_) => None,
        TyView::Sequence(_) => None,
        TyView::Promise(_) => None,
        TyView::Record(_, _) => None,
        TyView::Union(_) => None,
        TyView::Any => Some(TargetView::Foreign("wasm_bindgen"@, "JsValue"@)),
        TyView::Void => None,
    }
}

/// The borrowed-str or owned-string rendering of a string type.
pub open spec fn string_token(pos: TypePosition) -> TargetView {
    match pos {
        TypePosition::Argument => TargetView::SharedRef(Box::new(TargetView::Named("str"@))),
        TypePosition::Return => TargetView::Named("String"@),
    }
}

/// The view of a mapping outcome.
pub open spec fn opt_target_view(r: Option<TargetType>) -> Option<TargetView> {
    match r {
        Some(t) => Some(t@),
        None => None,
    }
}

/// An owned copy of a string slice.
fn owned(s: &str) -> (r: String)
    ensures
        r@ == s@,
{
    <String as StringExecFns>::from_str(s)
}

/// The borrowed-view or owned-buffer rendering of a typed-array view.
fn array(elem: &str, pos: TypePosition) -> (r: TargetType)
    ensures
        r@ == array_token(elem@, pos),
{
    match pos {
        TypePosition::Argument => TargetType::SliceRef(owned(elem)),
        TypePosition::Return => TargetType::OwnedSlice(owned(elem)),
    }
}

impl IdlType {
    /// Converts to a target type token if possible.
    pub fn to_target_type(&self, pos: TypePosition) -> (r: Option<TargetType>)
        ensures
            opt_target_view(r) == target_token(self@, pos),
        decreases *self,
    {
        match self {
            IdlType::Boolean => Some(TargetType::Named(owned("bool"))),
            IdlType::Byte => Some(TargetType::Named(owned("i8"))),
            IdlType::Octet => Some(TargetType::Named(owned("u8"))),
            IdlType::Short => Some(TargetType::Named(owned("i16"))),
            IdlType::UnsignedShort => Some(TargetType::Named(owned("u16"))),
            IdlType::Long => Some(TargetType::Named(owned("i32"))),
            IdlType::UnsignedLong => Some(TargetType::Named(owned("u32"))),
            IdlType::LongLong => Some(TargetType::Named(owned("i64"))),
            IdlType::UnsignedLongLong => Some(TargetType::Named(owned("u64"))),
            IdlType::Float => Some(TargetType::Named(owned("f32"))),
            IdlType::UnrestrictedFloat => Some(TargetType::Named(owned("f32"))),
            IdlType::Double => Some(TargetType::Named(owned("f64"))),
            IdlType::UnrestrictedDouble => Some(TargetType::Named(owned("f64"))),
            IdlType::DomString | IdlType::ByteString | IdlType::UsvString => match pos {
                TypePosition::Argument => {
                    let inner = TargetType::Named(owned("str"));
                    proof {
                        assert(inner@ == TargetView::Named("str"@));
                    }
                    Some(TargetType::SharedRef(Box::new(inner)))
                },
                TypePosition::Return => Some(
                    TargetType::Named(owned("String")),
                ),
            },
            IdlType::Object => Some(
                TargetType::Foreign(owned("js_sys"), owned("Object")),
            ),
            IdlType::Symbol => None,
            IdlType::Error => None,
            IdlType::ArrayBuffer => Some(
                TargetType::Foreign(owned("js_sys"), owned("ArrayBuffer")),
            ),
            IdlType::DataView => None,
            IdlType::Int8Array => Some(array("i8", pos)),
            IdlType::Uint8Array => Some(array("u8", pos)),
            IdlType::Uint8ClampedArray => Some(array("u8", pos)),
            IdlType::Int16Array => Some(array("i16", pos)),
            IdlType::Uint16Array => Some(array("u16", pos)),
            IdlType::Int32Array => Some(array("i32", pos)),
            IdlType::Uint32Array => Some(array("u32", pos)),
            IdlType::Float32Array => Some(array("f32", pos)),
            IdlType::Float64Array => Some(array("f64", pos)),
            IdlType::Interface(name) => {
                let ty = TargetType::Named(camel_case_ident(name.as_str()));
                proof {
                    assert(ty@ == TargetView::Named(camel_of(name@)));
                }
                if pos == TypePosition::Argument {
                    Some(TargetType::SharedRef(Box::new(ty)))
                } else {
                    Some(ty)
                }
            },
            IdlType::Dictionary(name) => Some(
                TargetType::Named(camel_case_ident(name.as_str())),
            ),
            IdlType::Enum(name) => Some(TargetType::Named(camel_case_ident(name.as_str()))),
            IdlType::Nullable(inner) => match (&**inner).to_target_type(pos) {
                Some(tok) => Some(TargetType::Optional(Box::new(tok))),
                None => None,
            },
            IdlType::FrozenArray(_) => None,
            IdlType::Sequence(_) => None,
            IdlType::Promise(_) => None,
            IdlType::Record(_, _) => None,
            IdlType::Union(_) => None,
            IdlType::Any => Some(
                TargetType::Foreign(owned("wasm_bindgen"), owned("JsValue")),
            ),
            IdlType::Void => None,
        }
    }
}

} // verus!
