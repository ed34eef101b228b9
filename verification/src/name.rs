//! Descriptive naming: a deterministic, collision-resistant lower-snake-case
//! rendering of a canonical type, used to synthesize identifiers for
//! generated helper code. Rendering is structurally recursive and reproduces
//! nesting order exactly.

use vstd::prelude::*;
use vstd::string::StringExecFns;
use crate::idl_type::{IdlType, TyView};
use heck::ToSnakeCase;

verus! {

/// The characters that heck's snake-case conversion yields for a string's
/// characters; the result is a function of the characters alone.
pub uninterp spec fn snake_of(s: Seq<char>) -> Seq<char>;

/// Relies on heck's `ToSnakeCase::to_snake_case` for `str`: a pure,
/// deterministic snake-case transform of the characters.
#[verifier::external_body]
fn snake_case(s: &str) -> (r: String)
    ensures
        r@ == snake_of(s@),
{
    s.to_snake_case()
}

/// The descriptive name of a canonical type: fixed short tokens for scalar
/// leaves, the snake-cased source name for named leaves, "opt_" prefixed for
/// nullable, suffixes for the one-argument wrappers, and composite forms for
/// records and unions.
pub open spec fn name_of(t: TyView) -> Seq<char>
    decreases t, 0int,
{
    match t {
        TyView::Boolean => "bool"@,
        TyView::Byte => "i8"@,
        TyView::Octet => "u8"@,
        TyView::Short => "i16"@,
        TyView::UnsignedShort => "u16"@,
        TyView::Long => "i32"@,
        TyView::UnsignedLong => "u32"@,
        TyView::LongLong => "i64"@,
        TyView::UnsignedLongLong => "u64"@,
        TyView::Float => "f32"@,
        TyView::UnrestrictedFloat => "unrestricted_f32"@,
        TyView::Double => "f64"@,
        TyView::UnrestrictedDouble => "unrestricted_f64"@,
        TyView::DomString => "dom_str"@,
        TyView::ByteString => "byte_str"@,
        TyView::UsvString => "usv_str"@,
        TyView::Object => "object"@,
        TyView::Symbol => "symbol"@,
        TyView::Error => "error"@,
        TyView::ArrayBuffer => "array_buffer"@,
        TyView::DataView => "data_view"@,
        TyView::Int8Array => "i8_array"@,
        TyView::Uint8Array => "u8_array"@,
        TyView::Uint8ClampedArray => "u8_clamped_array"@,
        TyView::Int16Array => "i16_array"@,
        TyView::Uint16Array => "u16_array"@,
        TyView::Int32Array => "i32_array"@,
        TyView::Uint32Array => "u32_array"@,
        TyView::Float32Array => "f32_array"@,
        TyView::Float64Array => "f64_array"@,
        TyView::Interface(name) => snake_of(name),
        TyView::Dictionary(name) => snake_of(name),
        TyView::Enum(name) => snake_of(name),
        TyView::Nullable(inner) => "opt_"@ + name_of(*inner),
        TyView::FrozenArray(inner) => name_of(*inner) + "_frozen_array"@,
        TyView::Sequence(inner) => name_of(*inner) + "_sequence"@,
        TyView::Promise(inner) => name_of(*inner) + "_promise"@,
        TyView::Record(key, value) => "record_from_"@ + name_of(*key) + "_to_"@ + name_of(
            *value,
        ),
        TyView::Union(members) => "union_of_"@ + union_name(members),
        TyView::Any => "any"@,
        TyView::Void => "void"@,
    }
}

/// The members' names joined by "_and_", in source order.
pub open spec fn union_name(members: Seq<TyView>) -> Seq<char>
    decreases members, 1int,
{
    if members.len() == 0 {
        Seq::empty()
    } else if members.len() == 1 {
        name_of(members[0])
    } else {
        union_name(members.drop_last()) + "_and_"@ + name_of(members.last())
    }
}

impl IdlType {
    /// Generates a snake case type name, appended in place.
    #[verifier::loop_isolation(false)]
    pub fn push_type_name(&self, dst: &mut String)
        ensures
            final(dst)@ == old(dst)@ + name_of(self@),
        decreases *self,
    {
        match self {
            IdlType::Boolean => dst.append("bool"),
            IdlType::Byte => dst.append("i8"),
            IdlType::Octet => dst.append("u8"),
            IdlType::Short => dst.append("i16"),
            IdlType::UnsignedShort => dst.append("u16"),
            IdlType::Long => dst.append("i32"),
            IdlType::UnsignedLong => dst.append("u32"),
            IdlType::LongLong => dst.append("i64"),
            IdlType::UnsignedLongLong => dst.append("u64"),
            IdlType::Float => dst.append("f32"),
            IdlType::UnrestrictedFloat => dst.append("unrestricted_f32"),
            IdlType::Double => dst.append("f64"),
            IdlType::UnrestrictedDouble => dst.append("unrestricted_f64"),
            IdlType::DomString => dst.append("dom_str"),
            IdlType::ByteString => dst.append("byte_str"),
            IdlType::UsvString => dst.append("usv_str"),
            IdlType::Object => dst.append("object"),
            IdlType::Symbol => dst.append("symbol"),
            IdlType::Error => dst.append("error"),
            IdlType::ArrayBuffer => dst.append("array_buffer"),
            IdlType::DataView => dst.append("data_view"),
            IdlType::Int8Array => dst.append("i8_array"),
            IdlType::Uint8Array => dst.append("u8_array"),
            IdlType::Uint8ClampedArray => dst.append("u8_clamped_array"),
            IdlType::Int16Array => dst.append("i16_array"),
            IdlType::Uint16Array => dst.append("u16_array"),
            IdlType::Int32Array => dst.append("i32_array"),
            IdlType::Uint32Array => dst.append("u32_array"),
            IdlType::Float32Array => dst.append("f32_array"),
            IdlType::Float64Array => dst.append("f64_array"),
            IdlType::Interface(name) => {
                let snake = snake_case(name.as_str());
                dst.append(snake.as_str());
            },
            IdlType::Dictionary(name) => {
                let snake = snake_case(name.as_str());
                dst.append(snake.as_str());
            },
            IdlType::Enum(name) => {
                let snake = snake_case(name.as_str());
                dst.append(snake.as_str());
            },
            IdlType::Nullable(inner) => {
                dst.append("opt_");
                (&**inner).push_type_name(dst);
                proof {
                    assert(old(dst)@ + "opt_"@ + name_of((&**inner)@) =~= old(dst)@ + ("opt_"@
                        + name_of((&**inner)@)));
                }
            },
            IdlType::FrozenArray(inner) => {
                (&**inner).push_type_name(dst);
                dst.append("_frozen_array");
                proof {
                    assert(old(dst)@ + name_of((&**inner)@) + "_frozen_array"@ =~= old(dst)@ + (
                    name_of((&**inner)@) + "_frozen_array"@));
                }
            },
            IdlType::Sequence(inner) => {
                (&**inner).push_type_name(dst);
                dst.append("_sequence");
                proof {
                    assert(old(dst)@ + name_of((&**inner)@) + "_sequence"@ =~= old(dst)@ + (
                    name_of((&**inner)@) + "_sequence"@));
                }
            },
            IdlType::Promise(inner) => {
                (&**inner).push_type_name(dst);
                dst.append("_promise");
                proof {
                    assert(old(dst)@ + name_of((&**inner)@) + "_promise"@ =~= old(dst)@ + (
                    name_of((&**inner)@) + "_promise"@));
                }
            },
            IdlType::Record(key, value) => {
                dst.append("record_from_");
                (&**key).push_type_name(dst);
                dst.append("_to_");
                (&**value).push_type_name(dst);
                proof {
                    assert(old(dst)@ + "record_from_"@ + name_of((&**key)@) + "_to_"@
                        + name_of((&**value)@) =~= old(dst)@ + ("record_from_"@ + name_of(
                        (&**key)@,
                    ) + "_to_"@ + name_of((&**value)@)));
                }
            },
            IdlType::Union(members) => {
                dst.append("union_of_");
                let ghost base = old(dst)@ + "union_of_"@;
                let ghost mvs = crate::idl_type::views_of(members@);
                let mut first = true;
                let mut i: usize = 0;
                while i < members.len()
                    invariant
                        i <= members@.len(),
                        first <==> i == 0,
                        dst@ == base + union_name(mvs.take(i as int)),
                    decreases members@.len() - i,
                {
                    proof {
                        assert(union_name(Seq::<TyView>::empty()) == Seq::<char>::empty());
                        assert(mvs.take(i as int + 1).drop_last() =~= mvs.take(i as int));
                        assert(mvs.take(i as int + 1).last() == mvs[i as int]);
                        assert(mvs[i as int] == members@[i as int]@);
                    }
                    if first {
                        first = false;
                    } else {
                        dst.append("_and_");
                    }
                    members[i].push_type_name(dst);
                    proof {
                        if i == 0 {
                            assert(base + Seq::<char>::empty() =~= base);
                            assert(union_name(mvs.take(1)) == name_of(mvs[0]));
                        } else {
                            assert(union_name(mvs.take(i as int + 1)) == union_name(mvs.take(
                                i as int,
                            )) + "_and_"@ + name_of(mvs[i as int]));
                            assert(base + union_name(mvs.take(i as int)) + "_and_"@ + name_of(
                                mvs[i as int],
                            ) =~= base + (union_name(mvs.take(i as int)) + "_and_"@ + name_of(
                                mvs[i as int],
                            )));
                        }
                        assert(base + union_name(mvs.take(i as int)) + name_of(mvs[i as int])
                            =~= base + (union_name(mvs.take(i as int)) + name_of(mvs[i as int])));
                    }
                    i += 1;
                }
                proof {
                    assert(mvs.take(mvs.len() as int) =~= mvs);
                    crate::idl_type::lemma_ty_views_rec(members@);
                    assert(name_of(self@) == "union_of_"@ + union_name(mvs));
                    assert(base + union_name(mvs) =~= old(dst)@ + ("union_of_"@ + union_name(mvs)));
                }
            },
            IdlType::Any => dst.append("any"),
            IdlType::Void => dst.append("void"),
        }
    }

    /// Generates a snake case type name.
    pub fn get_type_name(&self) -> (r: String)
        ensures
            r@ == name_of(self@),
    {
        let mut string = String::new();
        self.push_type_name(&mut string);
        proof {
            assert(Seq::<char>::empty() + name_of(self@) =~= name_of(self@));
        }
        string
    }
}

} // verus!
