//! Name resolution: converts parsed type-expression nodes, recursively, into
//! the canonical IDL type, consulting a symbol table for named references and
//! typedef expansion. Typedefs are transparent aliases; expansion is bounded
//! by the number of typedefs, which covers every acyclic table.

use vstd::prelude::*;
use crate::idl_type::{IdlType, TyView, views_of, lemma_ty_views_rec};

verus! {

/// Integer width-and-signedness marker: `unsigned? short|long|(long long)`.
pub enum IntegerExpr {
    LongLong(bool),
    Long(bool),
    Short(bool),
}

/// Floating-point width marker: `unrestricted? float|double`.
pub enum FloatExpr {
    Float(bool),
    Double(bool),
}

/// Record key production: one of the string kinds, or a non-any type.
pub enum RecordKeyExpr {
    Byte,
    Dom,
    Usv,
    NonAny(Box<NonAnyExpr>),
}

/// A single non-any type-expression node. The leading `bool` of each variant
/// is the nullable marker: when present the resolved type is wrapped in a
/// nullable, otherwise it passes through unchanged.
pub enum NonAnyExpr {
    Promise(Box<ReturnExpr>),
    Integer(bool, IntegerExpr),
    FloatingPoint(bool, FloatExpr),
    Boolean(bool),
    Byte(bool),
    Octet(bool),
    ByteString(bool),
    DomString(bool),
    UsvString(bool),
    Sequence(bool, Box<TypeExpr>),
    Object(bool),
    Symbol(bool),
    Error(bool),
    ArrayBuffer(bool),
    DataView(bool),
    Int8Array(bool),
    Int16Array(bool),
    Int32Array(bool),
    Uint8Array(bool),
    Uint16Array(bool),
    Uint32Array(bool),
    Uint8ClampedArray(bool),
    Float32Array(bool),
    Float64Array(bool),
    FrozenArray(bool, Box<TypeExpr>),
    RecordKV(bool, RecordKeyExpr, Box<TypeExpr>),
    Identifier(bool, String),
}

/// A single type: `any`, or a non-any node.
pub enum SingleExpr {
    Any,
    NonAny(NonAnyExpr),
}

/// One member of a union: a single non-any type, or a nested union with its
/// own nullable marker.
pub enum UnionMemberExpr {
    Single(NonAnyExpr),
    Union(bool, Vec<UnionMemberExpr>),
}

/// A type expression: a single type, or a union (with a nullable marker).
pub enum TypeExpr {
    Single(SingleExpr),
    Union(bool, Vec<UnionMemberExpr>),
}

/// A return type: `undefined`, or a type.
pub enum ReturnExpr {
    Undefined,
    Ty(TypeExpr),
}

/// A const type: a nullable-capable scalar or named reference.
pub enum ConstExpr {
    Integer(bool, IntegerExpr),
    FloatingPoint(bool, FloatExpr),
    Boolean(bool),
    Byte(bool),
    Octet(bool),
    Identifier(bool, String),
}

/// The symbol table discovered by the first pass over the source: typedef
/// name to its right-hand-side type expression, and the known interface,
/// dictionary and enum names.
pub struct SymbolTable {
    pub typedefs: Vec<(String, TypeExpr)>,
    pub interfaces: Vec<String>,
    pub dictionaries: Vec<String>,
    pub enums: Vec<String>,
}

/// The first typedef entry for `name` at or after position `i`, if any.
pub open spec fn lookup_from(typedefs: Seq<(String, TypeExpr)>, name: Seq<char>, i: int) -> Option<
    TypeExpr,
>
    decreases typedefs.len() - i,
{
    if i < 0 || i >= typedefs.len() {
        None
    } else if typedefs[i].0@ == name {
        Some(typedefs[i].1)
    } else {
        lookup_from(typedefs, name, i + 1)
    }
}

/// The typedef right-hand side registered under `name`, if any.
pub open spec fn spec_lookup_typedef(st: SymbolTable, name: Seq<char>) -> Option<TypeExpr> {
    lookup_from(st.typedefs@, name, 0)
}

/// Whether `name` occurs in a list of names.
pub open spec fn name_listed(names: Seq<String>, name: Seq<char>) -> bool {
    exists|j: int| 0 <= j < names.len() && names[j]@ == name
}

impl SymbolTable {
    /// Looks up the type expression that a typedef binds to `name`.
    #[verifier::loop_isolation(false)]
    pub fn lookup_typedef<'a>(&'a self, name: &String) -> (r: Option<&'a TypeExpr>)
        ensures
            match r {
                Some(expr) => spec_lookup_typedef(*self, name@) == Some(*expr),
                None => spec_lookup_typedef(*self, name@) is None,
            },
    {
        let mut i: usize = 0;
        while i < self.typedefs.len()
            invariant
                i <= self.typedefs@.len(),
                lookup_from(self.typedefs@, name@, i as int) == spec_lookup_typedef(*self, name@),
            decreases self.typedefs@.len() - i,
        {
            if self.typedefs[i].0 == *name {
                return Some(&self.typedefs[i].1);
            }
            i += 1;
        }
        None
    }

    /// Whether `name` is a known interface.
    pub fn is_interface(&self, name: &String) -> (r: bool)
        ensures
            r == name_listed(self.interfaces@, name@),
    {
        contains_name(&self.interfaces, name)
    }

    /// Whether `name` is a known dictionary.
    pub fn is_dictionary(&self, name: &String) -> (r: bool)
        ensures
            r == name_listed(self.dictionaries@, name@),
    {
        contains_name(&self.dictionaries, name)
    }

    /// Whether `name` is a known enum.
    pub fn is_enum(&self, name: &String) -> (r: bool)
        ensures
            r == name_listed(self.enums@, name@),
    {
        contains_name(&self.enums, name)
    }
}

/// The canonical type of an integer marker.
pub open spec fn integer_view(i: IntegerExpr) -> TyView {
    match i {
        IntegerExpr::LongLong(unsigned) => if unsigned {
            TyView::UnsignedLongLong
        } else {
            TyView::LongLong
        },
        IntegerExpr::Long(unsigned) => if unsigned {
            TyView::UnsignedLong
        } else {
            TyView::Long
        },
        IntegerExpr::Short(unsigned) => if unsigned {
            TyView::UnsignedShort
        } else {
            TyView::Short
        },
    }
}

/// The canonical type of a floating-point marker.
pub open spec fn float_view(f: FloatExpr) -> TyView {
    match f {
        FloatExpr::Float(unrestricted) => if unrestricted {
            TyView::UnrestrictedFloat
        } else {
            TyView::Float
        },
        FloatExpr::Double(unrestricted) => if unrestricted {
            TyView::UnrestrictedDouble
        } else {
            TyView::Double
        },
    }
}

/// Wraps a resolved type in a nullable exactly when the marker is present.
pub open spec fn maybe_null(q_mark: bool, t: TyView) -> TyView {
    if q_mark {
        TyView::Nullable(Box::new(t))
    } else {
        t
    }
}

/// Lifts the nullable wrapping over a resolution outcome.
pub open spec fn opt_null(q_mark: bool, r: Option<TyView>) -> Option<TyView> {
    match r {
        Some(t) => Some(maybe_null(q_mark, t)),
        None => None,
    }
}

/// The resolution of a type expression: `None` exactly when some identifier
/// in it is unknown, or a typedef chain exceeds the table's size (which only
/// a cyclic table can force).
pub open spec fn resolve_type_spec(e: TypeExpr, st: SymbolTable, fuel: nat) -> Option<TyView>
    decreases fuel, e,
{
    match e {
        TypeExpr::Single(single) => resolve_single_spec(single, st, fuel),
        TypeExpr::Union(q_mark, members) => match resolve_members_spec(members@, st, fuel) {
            Some(alts) => Some(maybe_null(q_mark, TyView::Union(alts))),
            None => None,
        },
    }
}

/// The resolution of a single type.
pub open spec fn resolve_single_spec(s: SingleExpr, st: SymbolTable, fuel: nat) -> Option<TyView>
    decreases fuel, s,
{
    match s {
        SingleExpr::Any => Some(TyView::Any),
        SingleExpr::NonAny(non_any) => resolve_non_any_spec(non_any, st, fuel),
    }
}

/// The resolution of a non-any node: leaves map one-to-one, wrappers resolve
/// their generic argument recursively, a record resolves key then value, and
/// an identifier is resolved against the symbol table.
pub open spec fn resolve_non_any_spec(n: NonAnyExpr, st: SymbolTable, fuel: nat) -> Option<TyView>
    decreases fuel, n,
{
    match n {
        NonAnyExpr::Promise(inner) => match resolve_return_spec(*inner, st, fuel) {
            Some(t) => Some(TyView::Promise(Box::new(t))),
            None => None,
        },
        NonAnyExpr::Integer(q_mark, i) => Some(maybe_null(q_mark, integer_view(i))),
        NonAnyExpr::FloatingPoint(q_mark, f) => Some(maybe_null(q_mark, float_view(f))),
        NonAnyExpr::Boolean(q_mark) => Some(maybe_null(q_mark, TyView::Boolean)),
        NonAnyExpr::Byte(q_mark) => Some(maybe_null(q_mark, TyView::Byte)),
        NonAnyExpr::Octet(q_mark) => Some(maybe_null(q_mark, TyView::Octet)),
        NonAnyExpr::ByteString(q_mark) => Some(maybe_null(q_mark, TyView::ByteString)),
        NonAnyExpr::DomString(q_mark) => Some(maybe_null(q_mark, TyView::DomString)),
        NonAnyExpr::UsvString(q_mark) => Some(maybe_null(q_mark, TyView::UsvString)),
        NonAnyExpr::Sequence(q_mark, inner) => match resolve_type_spec(*inner, st, fuel) {
            Some(t) => Some(maybe_null(q_mark, TyView::Sequence(Box::new(t)))),
            None => None,
        },
        NonAnyExpr::Object(q_mark) => Some(maybe_null(q_mark, TyView::Object)),
        NonAnyExpr::Symbol(q_mark) => Some(maybe_null(q_mark, TyView::Symbol)),
        NonAnyExpr::Error(q_mark) => Some(maybe_null(q_mark, TyView::Error)),
        NonAnyExpr::ArrayBuffer(q_mark) => Some(maybe_null(q_mark, TyView::ArrayBuffer)),
        NonAnyExpr::DataView(q_mark) => Some(maybe_null(q_mark, TyView::DataView)),
        NonAnyExpr::Int8Array(q_mark) => Some(maybe_null(q_mark, TyView::Int8Array)),
        NonAnyExpr::Int16Array(q_mark) => Some(maybe_null(q_mark, TyView::Int16Array)),
        NonAnyExpr::Int32Array(q_mark) => Some(maybe_null(q_mark, TyView::Int32Array)),
        NonAnyExpr::Uint8Array(q_mark) => Some(maybe_null(q_mark, TyView::Uint8Array)),
        NonAnyExpr::Uint16Array(q_mark) => Some(maybe_null(q_mark, TyView::Uint16Array)),
        NonAnyExpr::Uint32Array(q_mark) => Some(maybe_null(q_mark, TyView::Uint32Array)),
        NonAnyExpr::Uint8ClampedArray(q_mark) => Some(maybe_null(q_mark, TyView::Uint8ClampedArray)),
        NonAnyExpr::Float32Array(q_mark) => Some(maybe_null(q_mark, TyView::Float32Array)),
        NonAnyExpr::Float64Array(q_mark) => Some(maybe_null(q_mark, TyView::Float64Array)),
        NonAnyExpr::FrozenArray(q_mark, inner) => match resolve_type_spec(*inner, st, fuel) {
            Some(t) => Some(maybe_null(q_mark, TyView::FrozenArray(Box::new(t)))),
            None => None,
        },
        NonAnyExpr::RecordKV(q_mark, key, value) => match resolve_record_key_spec(key, st, fuel) {
            Some(kt) => match resolve_type_spec(*value, st, fuel) {
                Some(vt) => Some(maybe_null(q_mark, TyView::Record(Box::new(kt), Box::new(vt)))),
                None => None,
            },
            None => None,
        },
        NonAnyExpr::Identifier(q_mark, name) => match spec_lookup_typedef(st, name@) {
            Some(rhs) => if fuel == 0 {
                None
            } else {
                opt_null(q_mark, resolve_type_spec(rhs, st, (fuel - 1) as nat))
            },
            None => opt_null(q_mark, named_leaf_spec(name@, st)),
        },
    }
}

/// The named leaf that a non-typedef identifier resolves to, in priority
/// order: interface, then dictionary, then enum; an identifier known to none
/// of the three fails.
pub open spec fn named_leaf_spec(name: Seq<char>, st: SymbolTable) -> Option<TyView> {
    if name_listed(st.interfaces@, name) {
        Some(TyView::Interface(name))
    } else if name_listed(st.dictionaries@, name) {
        Some(TyView::Dictionary(name))
    } else if name_listed(st.enums@, name) {
        Some(TyView::Enum(name))
    } else {
        None
    }
}

/// The resolution of a record key.
pub open spec fn resolve_record_key_spec(k: RecordKeyExpr, st: SymbolTable, fuel: nat) -> Option<
    TyView,
>
    decreases fuel, k,
{
    match k {
        RecordKeyExpr::Byte => Some(TyView::ByteString),
        RecordKeyExpr::Dom => Some(TyView::DomString),
        RecordKeyExpr::Usv => Some(TyView::UsvString),
        RecordKeyExpr::NonAny(non_any) => resolve_non_any_spec(*non_any, st, fuel),
    }
}

/// The resolution of one union member.
pub open spec fn resolve_member_spec(m: UnionMemberExpr, st: SymbolTable, fuel: nat) -> Option<
    TyView,
>
    decreases fuel, m,
{
    match m {
        UnionMemberExpr::Single(non_any) => resolve_non_any_spec(non_any, st, fuel),
        UnionMemberExpr::Union(q_mark, members) => match resolve_members_spec(members@, st, fuel) {
            Some(alts) => Some(maybe_null(q_mark, TyView::Union(alts))),
            None => None,
        },
    }
}

/// The resolution of a union's members, in source order; the whole list
/// fails if any member fails.
pub open spec fn resolve_members_spec(
    members: Seq<UnionMemberExpr>,
    st: SymbolTable,
    fuel: nat,
) -> Option<Seq<TyView>>
    decreases fuel, members,
{
    if members.len() == 0 {
        Some(Seq::empty())
    } else {
        match resolve_member_spec(members[0], st, fuel) {
            Some(t) => match resolve_members_spec(members.drop_first(), st, fuel) {
                Some(rest) => Some(seq![t] + rest),
                None => None,
            },
            None => None,
        }
    }
}

/// The resolution of a return type.
pub open spec fn resolve_return_spec(r: ReturnExpr, st: SymbolTable, fuel: nat) -> Option<TyView>
    decreases fuel, r,
{
    match r {
        ReturnExpr::Undefined => Some(TyView::Void),
        ReturnExpr::Ty(e) => resolve_type_spec(e, st, fuel),
    }
}

/// The resolution of a const type.
pub open spec fn resolve_const_spec(c: ConstExpr, st: SymbolTable, fuel: nat) -> Option<TyView>
    decreases fuel, c,
{
    match c {
        ConstExpr::Integer(q_mark, i) => Some(maybe_null(q_mark, integer_view(i))),
        ConstExpr::FloatingPoint(q_mark, f) => Some(maybe_null(q_mark, float_view(f))),
        ConstExpr::Boolean(q_mark) => Some(maybe_null(q_mark, TyView::Boolean)),
        ConstExpr::Byte(q_mark) => Some(maybe_null(q_mark, TyView::Byte)),
        ConstExpr::Octet(q_mark) => Some(maybe_null(q_mark, TyView::Octet)),
        ConstExpr::Identifier(q_mark, name) => match spec_lookup_typedef(st, name@) {
            Some(rhs) => if fuel == 0 {
                None
            } else {
                opt_null(q_mark, resolve_type_spec(rhs, st, (fuel - 1) as nat))
            },
            None => opt_null(q_mark, named_leaf_spec(name@, st)),
        },
    }
}

/// The view of a resolution outcome.
pub open spec fn opt_ty_view(r: Option<IdlType>) -> Option<TyView> {
    match r {
        Some(t) => Some(t@),
        None => None,
    }
}

/// A resolved prefix prepended to the outcome for the remaining members.
pub open spec fn opt_prepend(pre: Seq<TyView>, rest: Option<Seq<TyView>>) -> Option<Seq<TyView>> {
    match rest {
        Some(r) => Some(pre + r),
        None => None,
    }
}

/// Law: a name present in none of the symbol table's sets resolves to the
/// failure value, never to a type and never to an abort.
pub proof fn lemma_unknown_identifier(q_mark: bool, name: String, st: SymbolTable, fuel: nat)
    requires
        spec_lookup_typedef(st, name@) is None,
        !name_listed(st.interfaces@, name@),
        !name_listed(st.dictionaries@, name@),
        !name_listed(st.enums@, name@),
    ensures
        resolve_non_any_spec(NonAnyExpr::Identifier(q_mark, name), st, fuel) is None,
        resolve_const_spec(ConstExpr::Identifier(q_mark, name), st, fuel) is None,
{
}

/// Well-formed type expression: every union in it has at least two members,
/// as the grammar guarantees.
pub open spec fn wf_type_expr(e: TypeExpr) -> bool
    decreases e,
{
    match e {
        TypeExpr::Single(single) => wf_single_expr(single),
        TypeExpr::Union(_, members) => members@.len() >= 2 && wf_member_exprs(members@),
    }
}

/// Well-formed single type.
pub open spec fn wf_single_expr(s: SingleExpr) -> bool
    decreases s,
{
    match s {
        SingleExpr::Any => true,
        SingleExpr::NonAny(non_any) => wf_non_any_expr(non_any),
    }
}

/// Well-formed non-any node.
pub open spec fn wf_non_any_expr(n: NonAnyExpr) -> bool
    decreases n,
{
    match n {
        NonAnyExpr::Promise(inner) => wf_return_expr(*inner),
        NonAnyExpr::Sequence(_, inner) => wf_type_expr(*inner),
        NonAnyExpr::FrozenArray(_, inner) => wf_type_expr(*inner),
        NonAnyExpr::RecordKV(_, key, value) => wf_record_key_expr(key) && wf_type_expr(*value),
        _ => true,
    }
}

/// Well-formed record key.
pub open spec fn wf_record_key_expr(k: RecordKeyExpr) -> bool
    decreases k,
{
    match k {
        RecordKeyExpr::NonAny(non_any) => wf_non_any_expr(*non_any),
        _ => true,
    }
}

/// Well-formed union member.
pub open spec fn wf_member_expr(m: UnionMemberExpr) -> bool
    decreases m,
{
    match m {
        UnionMemberExpr::Single(non_any) => wf_non_any_expr(non_any),
        UnionMemberExpr::Union(_, members) => members@.len() >= 2 && wf_member_exprs(members@),
    }
}

/// Well-formed member list.
pub open spec fn wf_member_exprs(members: Seq<UnionMemberExpr>) -> bool
    decreases members,
{
    if members.len() == 0 {
        true
    } else {
        wf_member_expr(members[0]) && wf_member_exprs(members.drop_first())
    }
}

/// Well-formed return type.
pub open spec fn wf_return_expr(r: ReturnExpr) -> bool
    decreases r,
{
    match r {
        ReturnExpr::Undefined => true,
        ReturnExpr::Ty(e) => wf_type_expr(e),
    }
}

/// Well-formed symbol table: every typedef's right-hand side is well formed.
pub open spec fn wf_table(st: SymbolTable) -> bool {
    forall|i: int| 0 <= i < st.typedefs@.len() ==> wf_type_expr(#[trigger] st.typedefs@[i].1)
}

/// A typedef looked up in a well-formed table is well formed.
proof fn lemma_lookup_wf(typedefs: Seq<(String, TypeExpr)>, name: Seq<char>, i: int)
    requires
        forall|j: int| 0 <= j < typedefs.len() ==> wf_type_expr(#[trigger] typedefs[j].1),
    ensures
        match lookup_from(typedefs, name, i) {
            Some(rhs) => wf_type_expr(rhs),
            None => true,
        },
    decreases typedefs.len() - i,
{
    if 0 <= i < typedefs.len() && typedefs[i].0@ != name {
        lemma_lookup_wf(typedefs, name, i + 1);
    }
}

/// The nullable wrapper preserves well-formedness.
pub proof fn lemma_maybe_null_wf(q_mark: bool, t: TyView)
    requires
        crate::laws::wf_ty(t),
    ensures
        crate::laws::wf_ty(maybe_null(q_mark, t)),
{
}

/// Law: resolving a well-formed type expression against a well-formed symbol
/// table yields a well-formed canonical type: every union in the result has
/// at least two members, as flattening expects.
pub proof fn lemma_resolve_type_wf(e: TypeExpr, st: SymbolTable, fuel: nat)
    requires
        wf_type_expr(e),
        wf_table(st),
    ensures
        match resolve_type_spec(e, st, fuel) {
            Some(t) => crate::laws::wf_ty(t),
            None => true,
        },
    decreases fuel, e,
{
    match e {
        TypeExpr::Single(single) => {
            lemma_resolve_single_wf(single, st, fuel);
        },
        TypeExpr::Union(q_mark, members) => {
            lemma_resolve_members_wf(members@, st, fuel);
            match resolve_members_spec(members@, st, fuel) {
                Some(alts) => {
                    assert(crate::laws::wf_ty(TyView::Union(alts)));
                    lemma_maybe_null_wf(q_mark, TyView::Union(alts));
                },
                None => {},
            }
        },
    }
}

/// Resolution of a well-formed single type yields a well-formed type.
pub proof fn lemma_resolve_single_wf(s: SingleExpr, st: SymbolTable, fuel: nat)
    requires
        wf_single_expr(s),
        wf_table(st),
    ensures
        match resolve_single_spec(s, st, fuel) {
            Some(t) => crate::laws::wf_ty(t),
            None => true,
        },
    decreases fuel, s,
{
    match s {
        SingleExpr::Any => {},
        SingleExpr::NonAny(non_any) => {
            lemma_resolve_non_any_wf(non_any, st, fuel);
        },
    }
}

/// Resolution of a well-formed non-any node yields a well-formed type.
pub proof fn lemma_resolve_non_any_wf(n: NonAnyExpr, st: SymbolTable, fuel: nat)
    requires
        wf_non_any_expr(n),
        wf_table(st),
    ensures
        match resolve_non_any_spec(n, st, fuel) {
            Some(t) => crate::laws::wf_ty(t),
            None => true,
        },
    decreases fuel, n,
{
    match n {
        NonAnyExpr::Promise(inner) => {
            lemma_resolve_return_wf(*inner, st, fuel);
        },
        NonAnyExpr::Integer(q_mark, i) => {
            lemma_maybe_null_wf(q_mark, integer_view(i));
        },
        NonAnyExpr::FloatingPoint(q_mark, f) => {
            lemma_maybe_null_wf(q_mark, float_view(f));
        },
        NonAnyExpr::Sequence(q_mark, inner) => {
            lemma_resolve_type_wf(*inner, st, fuel);
            match resolve_type_spec(*inner, st, fuel) {
                Some(t) => {
                    lemma_maybe_null_wf(q_mark, TyView::Sequence(Box::new(t)));
                },
                None => {},
            }
        },
        NonAnyExpr::FrozenArray(q_mark, inner) => {
            lemma_resolve_type_wf(*inner, st, fuel);
            match resolve_type_spec(*inner, st, fuel) {
                Some(t) => {
                    lemma_maybe_null_wf(q_mark, TyView::FrozenArray(Box::new(t)));
                },
                None => {},
            }
        },
        NonAnyExpr::RecordKV(q_mark, key, value) => {
            lemma_resolve_record_key_wf(key, st, fuel);
            lemma_resolve_type_wf(*value, st, fuel);
            match resolve_record_key_spec(key, st, fuel) {
                Some(kt) => {
                    match resolve_type_spec(*value, st, fuel) {
                        Some(vt) => {
                            lemma_maybe_null_wf(
                                q_mark,
                                TyView::Record(Box::new(kt), Box::new(vt)),
                            );
                        },
                        None => {},
                    }
                },
                None => {},
            }
        },
        NonAnyExpr::Identifier(q_mark, name) => {
            match spec_lookup_typedef(st, name@) {
                Some(rhs) => {
                    lemma_lookup_wf(st.typedefs@, name@, 0);
                    if fuel > 0 {
                        lemma_resolve_type_wf(rhs, st, (fuel - 1) as nat);
                        match resolve_type_spec(rhs, st, (fuel - 1) as nat) {
                            Some(t) => {
                                lemma_maybe_null_wf(q_mark, t);
                            },
                            None => {},
                        }
                    }
                },
                None => {
                    match named_leaf_spec(name@, st) {
                        Some(t) => {
                            lemma_maybe_null_wf(q_mark, t);
                        },
                        None => {},
                    }
                },
            }
        },
        NonAnyExpr::Boolean(q_mark) => {
            lemma_maybe_null_wf(q_mark, TyView::Boolean);
        },
        NonAnyExpr::Byte(q_mark) => {
            lemma_maybe_null_wf(q_mark, TyView::Byte);
        },
        NonAnyExpr::Octet(q_mark) => {
            lemma_maybe_null_wf(q_mark, TyView::Octet);
        },
        NonAnyExpr::ByteString(q_mark) => {
            lemma_maybe_null_wf(q_mark, TyView::ByteString);
        },
        NonAnyExpr::DomString(q_mark) => {
            lemma_maybe_null_wf(q_mark, TyView::DomString);
        },
        NonAnyExpr::UsvString(q_mark) => {
            lemma_maybe_null_wf(q_mark, TyView::UsvString);
        },
        NonAnyExpr::Object(q_mark) => {
            lemma_maybe_null_wf(q_mark, TyView::Object);
        },
        NonAnyExpr::Symbol(q_mark) => {
            lemma_maybe_null_wf(q_mark, TyView::Symbol);
        },
        NonAnyExpr::Error(q_mark) => {
            lemma_maybe_null_wf(q_mark, TyView::Error);
        },
        NonAnyExpr::ArrayBuffer(q_mark) => {
            lemma_maybe_null_wf(q_mark, TyView::ArrayBuffer);
        },
        NonAnyExpr::DataView(q_mark) => {
            lemma_maybe_null_wf(q_mark, TyView::DataView);
        },
        NonAnyExpr::Int8Array(q_mark) => {
            lemma_maybe_null_wf(q_mark, TyView::Int8Array);
        },
        NonAnyExpr::Int16Array(q_mark) => {
            lemma_maybe_null_wf(q_mark, TyView::Int16Array);
        },
        NonAnyExpr::Int32Array(q_mark) => {
            lemma_maybe_null_wf(q_mark, TyView::Int32Array);
        },
        NonAnyExpr::Uint8Array(q_mark) => {
            lemma_maybe_null_wf(q_mark, TyView::Uint8Array);
        },
        NonAnyExpr::Uint16Array(q_mark) => {
            lemma_maybe_null_wf(q_mark, TyView::Uint16Array);
        },
        NonAnyExpr::Uint32Array(q_mark) => {
            lemma_maybe_null_wf(q_mark, TyView::Uint32Array);
        },
        NonAnyExpr::Uint8ClampedArray(q_mark) => {
            lemma_maybe_null_wf(q_mark, TyView::Uint8ClampedArray);
        },
        NonAnyExpr::Float32Array(q_mark) => {
            lemma_maybe_null_wf(q_mark, TyView::Float32Array);
        },
        NonAnyExpr::Float64Array(q_mark) => {
            lemma_maybe_null_wf(q_mark, TyView::Float64Array);
        },
    }
}

/// Resolution of a well-formed record key yields a well-formed type.
pub proof fn lemma_resolve_record_key_wf(k: RecordKeyExpr, st: SymbolTable, fuel: nat)
    requires
        wf_record_key_expr(k),
        wf_table(st),
    ensures
        match resolve_record_key_spec(k, st, fuel) {
            Some(t) => crate::laws::wf_ty(t),
            None => true,
        },
    decreases fuel, k,
{
    match k {
        RecordKeyExpr::NonAny(non_any) => {
            lemma_resolve_non_any_wf(*non_any, st, fuel);
        },
        _ => {},
    }
}

/// Resolution of a well-formed union member yields a well-formed type.
pub proof fn lemma_resolve_member_wf(m: UnionMemberExpr, st: SymbolTable, fuel: nat)
    requires
        wf_member_expr(m),
        wf_table(st),
    ensures
        match resolve_member_spec(m, st, fuel) {
            Some(t) => crate::laws::wf_ty(t),
            None => true,
        },
    decreases fuel, m,
{
    match m {
        UnionMemberExpr::Single(non_any) => {
            lemma_resolve_non_any_wf(non_any, st, fuel);
        },
        UnionMemberExpr::Union(q_mark, members) => {
            lemma_resolve_members_wf(members@, st, fuel);
            match resolve_members_spec(members@, st, fuel) {
                Some(alts) => {
                    assert(crate::laws::wf_ty(TyView::Union(alts)));
                    lemma_maybe_null_wf(q_mark, TyView::Union(alts));
                },
                None => {},
            }
        },
    }
}

/// Resolution of a well-formed member list yields as many well-formed types
/// as there are members.
pub proof fn lemma_resolve_members_wf(members: Seq<UnionMemberExpr>, st: SymbolTable, fuel: nat)
    requires
        wf_member_exprs(members),
        wf_table(st),
    ensures
        match resolve_members_spec(members, st, fuel) {
            Some(alts) => alts.len() == members.len() && crate::laws::wf_all(alts),
            None => true,
        },
    decreases fuel, members,
{
    if members.len() > 0 {
        lemma_resolve_member_wf(members[0], st, fuel);
        lemma_resolve_members_wf(members.drop_first(), st, fuel);
        match resolve_member_spec(members[0], st, fuel) {
            Some(t) => {
                match resolve_members_spec(members.drop_first(), st, fuel) {
                    Some(rest) => {
                        assert((seq![t] + rest)[0] == t);
                        assert((seq![t] + rest).drop_first() =~= rest);
                    },
                    None => {},
                }
            },
            None => {},
        }
    }
}

/// Resolution of a well-formed return type yields a well-formed type.
pub proof fn lemma_resolve_return_wf(r: ReturnExpr, st: SymbolTable, fuel: nat)
    requires
        wf_return_expr(r),
        wf_table(st),
    ensures
        match resolve_return_spec(r, st, fuel) {
            Some(t) => crate::laws::wf_ty(t),
            None => true,
        },
    decreases fuel, r,
{
    match r {
        ReturnExpr::Undefined => {},
        ReturnExpr::Ty(e) => {
            lemma_resolve_type_wf(e, st, fuel);
        },
    }
}

/// Wraps a canonical type in a nullable exactly when the marker is present.
fn wrap_if_nullable(q_mark: bool, t: IdlType) -> (r: IdlType)
    ensures
        r@ == maybe_null(q_mark, t@),
{
    if q_mark {
        IdlType::Nullable(Box::new(t))
    } else {
        t
    }
}

impl IntegerExpr {
    /// The canonical integer type for this width-and-signedness marker.
    pub fn to_idl_type(&self) -> (r: IdlType)
        ensures
            r@ == integer_view(*self),
    {
        match self {
            IntegerExpr::LongLong(unsigned) => if *unsigned {
                IdlType::UnsignedLongLong
            } else {
                IdlType::LongLong
            },
            IntegerExpr::Long(unsigned) => if *unsigned {
                IdlType::UnsignedLong
            } else {
                IdlType::Long
            },
            IntegerExpr::Short(unsigned) => if *unsigned {
                IdlType::UnsignedShort
            } else {
                IdlType::Short
            },
        }
    }
}

impl FloatExpr {
    /// The canonical floating-point type for this width marker.
    pub fn to_idl_type(&self) -> (r: IdlType)
        ensures
            r@ == float_view(*self),
    {
        match self {
            FloatExpr::Float(unrestricted) => if *unrestricted {
                IdlType::UnrestrictedFloat
            } else {
                IdlType::Float
            },
            FloatExpr::Double(unrestricted) => if *unrestricted {
                IdlType::UnrestrictedDouble
            } else {
                IdlType::Double
            },
        }
    }
}

impl TypeExpr {
    /// Resolution bounded by `fuel` typedef expansions.
    pub fn resolve(&self, record: &SymbolTable, fuel: usize) -> (r: Option<IdlType>)
        ensures
            opt_ty_view(r) == resolve_type_spec(*self, *record, fuel as nat),
        decreases fuel, *self,
    {
        match self {
            TypeExpr::Single(single) => single.resolve(record, fuel),
            TypeExpr::Union(q_mark, members) => match resolve_members(members, record, fuel) {
                Some(types) => {
                    proof {
                        lemma_ty_views_rec(types@);
                    }
                    Some(wrap_if_nullable(*q_mark, IdlType::Union(types)))
                },
                None => None,
            },
        }
    }

    /// Resolves a type expression against the symbol table: `Some` canonical
    /// type, or `None` if the expression names an unknown identifier (or a
    /// cyclic typedef chain prevents expansion).
    pub fn to_idl_type(&self, record: &SymbolTable) -> (r: Option<IdlType>)
        ensures
            opt_ty_view(r) == resolve_type_spec(*self, *record, record.typedefs@.len() as nat),
    {
        self.resolve(record, record.typedefs.len())
    }
}

impl SingleExpr {
    /// Resolution bounded by `fuel` typedef expansions.
    pub fn resolve(&self, record: &SymbolTable, fuel: usize) -> (r: Option<IdlType>)
        ensures
            opt_ty_view(r) == resolve_single_spec(*self, *record, fuel as nat),
        decreases fuel, *self,
    {
        match self {
            SingleExpr::Any => Some(IdlType::Any),
            SingleExpr::NonAny(non_any) => non_any.resolve(record, fuel),
        }
    }
}

impl NonAnyExpr {
    /// Resolution bounded by `fuel` typedef expansions.
    pub fn resolve(&self, record: &SymbolTable, fuel: usize) -> (r: Option<IdlType>)
        ensures
            opt_ty_view(r) == resolve_non_any_spec(*self, *record, fuel as nat),
        decreases fuel, *self,
    {
        match self {
            NonAnyExpr::Promise(inner) => match (&**inner).resolve(record, fuel) {
                Some(t) => Some(IdlType::Promise(Box::new(t))),
                None => None,
            },
            NonAnyExpr::Integer(q_mark, i) => Some(wrap_if_nullable(*q_mark, i.to_idl_type())),
            NonAnyExpr::FloatingPoint(q_mark, f) => Some(wrap_if_nullable(*q_mark, f.to_idl_type())),
            NonAnyExpr::Boolean(q_mark) => Some(wrap_if_nullable(*q_mark, IdlType::Boolean)),
            NonAnyExpr::Byte(q_mark) => Some(wrap_if_nullable(*q_mark, IdlType::Byte)),
            NonAnyExpr::Octet(q_mark) => Some(wrap_if_nullable(*q_mark, IdlType::Octet)),
            NonAnyExpr::ByteString(q_mark) => Some(wrap_if_nullable(*q_mark, IdlType::ByteString)),
            NonAnyExpr::DomString(q_mark) => Some(wrap_if_nullable(*q_mark, IdlType::DomString)),
            NonAnyExpr::UsvString(q_mark) => Some(wrap_if_nullable(*q_mark, IdlType::UsvString)),
            NonAnyExpr::Sequence(q_mark, inner) => match (&**inner).resolve(record, fuel) {
                Some(t) => Some(wrap_if_nullable(*q_mark, IdlType::Sequence(Box::new(t)))),
                None => None,
            },
            NonAnyExpr::Object(q_mark) => Some(wrap_if_nullable(*q_mark, IdlType::Object)),
            NonAnyExpr::Symbol(q_mark) => Some(wrap_if_nullable(*q_mark, IdlType::Symbol)),
            NonAnyExpr::Error(q_mark) => Some(wrap_if_nullable(*q_mark, IdlType::Error)),
            NonAnyExpr::ArrayBuffer(q_mark) => Some(wrap_if_nullable(*q_mark, IdlType::ArrayBuffer)),
            NonAnyExpr::DataView(q_mark) => Some(wrap_if_nullable(*q_mark, IdlType::DataView)),
            NonAnyExpr::Int8Array(q_mark) => Some(wrap_if_nullable(*q_mark, IdlType::Int8Array)),
            NonAnyExpr::Int16Array(q_mark) => Some(wrap_if_nullable(*q_mark, IdlType::Int16Array)),
            NonAnyExpr::Int32Array(q_mark) => Some(wrap_if_nullable(*q_mark, IdlType::Int32Array)),
            NonAnyExpr::Uint8Array(q_mark) => Some(wrap_if_nullable(*q_mark, IdlType::Uint8Array)),
            NonAnyExpr::Uint16Array(q_mark) => Some(wrap_if_nullable(*q_mark, IdlType::Uint16Array)),
            NonAnyExpr::Uint32Array(q_mark) => Some(wrap_if_nullable(*q_mark, IdlType::Uint32Array)),
            NonAnyExpr::Uint8ClampedArray(q_mark) => Some(
                wrap_if_nullable(*q_mark, IdlType::Uint8ClampedArray),
            ),
            NonAnyExpr::Float32Array(q_mark) => Some(
                wrap_if_nullable(*q_mark, IdlType::Float32Array),
            ),
            NonAnyExpr::Float64Array(q_mark) => Some(
                wrap_if_nullable(*q_mark, IdlType::Float64Array),
            ),
            NonAnyExpr::FrozenArray(q_mark, inner) => match (&**inner).resolve(record, fuel) {
                Some(t) => Some(wrap_if_nullable(*q_mark, IdlType::FrozenArray(Box::new(t)))),
                None => None,
            },
            NonAnyExpr::RecordKV(q_mark, key, value) => match key.resolve(record, fuel) {
                Some(kt) => match (&**value).resolve(record, fuel) {
                    Some(vt) => Some(
                        wrap_if_nullable(*q_mark, IdlType::Record(Box::new(kt), Box::new(vt))),
                    ),
                    None => None,
                },
                None => None,
            },
            NonAnyExpr::Identifier(q_mark, name) => match record.lookup_typedef(name) {
                Some(rhs) => {
                    if fuel == 0 {
                        None
                    } else {
                        match rhs.resolve(record, fuel - 1) {
                            Some(t) => Some(wrap_if_nullable(*q_mark, t)),
                            None => None,
                        }
                    }
                },
                None => {
                    if record.is_interface(name) {
                        Some(wrap_if_nullable(*q_mark, IdlType::Interface(name.clone())))
                    } else if record.is_dictionary(name) {
                        Some(wrap_if_nullable(*q_mark, IdlType::Dictionary(name.clone())))
                    } else if record.is_enum(name) {
                        Some(wrap_if_nullable(*q_mark, IdlType::Enum(name.clone())))
                    } else {
                        None
                    }
                },
            },
        }
    }
}

impl RecordKeyExpr {
    /// Resolution bounded by `fuel` typedef expansions.
    pub fn resolve(&self, record: &SymbolTable, fuel: usize) -> (r: Option<IdlType>)
        ensures
            opt_ty_view(r) == resolve_record_key_spec(*self, *record, fuel as nat),
        decreases fuel, *self,
    {
        match self {
            RecordKeyExpr::Byte => Some(IdlType::ByteString),
            RecordKeyExpr::Dom => Some(IdlType::DomString),
            RecordKeyExpr::Usv => Some(IdlType::UsvString),
            RecordKeyExpr::NonAny(non_any) => (&**non_any).resolve(record, fuel),
        }
    }
}

impl UnionMemberExpr {
    /// Resolution bounded by `fuel` typedef expansions.
    pub fn resolve(&self, record: &SymbolTable, fuel: usize) -> (r: Option<IdlType>)
        ensures
            opt_ty_view(r) == resolve_member_spec(*self, *record, fuel as nat),
        decreases fuel, *self,
    {
        match self {
            UnionMemberExpr::Single(non_any) => non_any.resolve(record, fuel),
            UnionMemberExpr::Union(q_mark, members) => match resolve_members(members, record, fuel) {
                Some(types) => {
                    proof {
                        lemma_ty_views_rec(types@);
                    }
                    Some(wrap_if_nullable(*q_mark, IdlType::Union(types)))
                },
                None => None,
            },
        }
    }
}

impl ReturnExpr {
    /// Resolution bounded by `fuel` typedef expansions.
    pub fn resolve(&self, record: &SymbolTable, fuel: usize) -> (r: Option<IdlType>)
        ensures
            opt_ty_view(r) == resolve_return_spec(*self, *record, fuel as nat),
        decreases fuel, *self,
    {
        match self {
            ReturnExpr::Undefined => Some(IdlType::Void),
            ReturnExpr::Ty(e) => e.resolve(record, fuel),
        }
    }

    /// Resolves a return type against the symbol table.
    pub fn to_idl_type(&self, record: &SymbolTable) -> (r: Option<IdlType>)
        ensures
            opt_ty_view(r) == resolve_return_spec(*self, *record, record.typedefs@.len() as nat),
    {
        self.resolve(record, record.typedefs.len())
    }
}

impl ConstExpr {
    /// Resolution bounded by `fuel` typedef expansions.
    pub fn resolve(&self, record: &SymbolTable, fuel: usize) -> (r: Option<IdlType>)
        ensures
            opt_ty_view(r) == resolve_const_spec(*self, *record, fuel as nat),
        decreases fuel, *self,
    {
        match self {
            ConstExpr::Integer(q_mark, i) => Some(wrap_if_nullable(*q_mark, i.to_idl_type())),
            ConstExpr::FloatingPoint(q_mark, f) => Some(wrap_if_nullable(*q_mark, f.to_idl_type())),
            ConstExpr::Boolean(q_mark) => Some(wrap_if_nullable(*q_mark, IdlType::Boolean)),
            ConstExpr::Byte(q_mark) => Some(wrap_if_nullable(*q_mark, IdlType::Byte)),
            ConstExpr::Octet(q_mark) => Some(wrap_if_nullable(*q_mark, IdlType::Octet)),
            ConstExpr::Identifier(q_mark, name) => match record.lookup_typedef(name) {
                Some(rhs) => {
                    if fuel == 0 {
                        None
                    } else {
                        match rhs.resolve(record, fuel - 1) {
                            Some(t) => Some(wrap_if_nullable(*q_mark, t)),
                            None => None,
                        }
                    }
                },
                None => {
                    if record.is_interface(name) {
                        Some(wrap_if_nullable(*q_mark, IdlType::Interface(name.clone())))
                    } else if record.is_dictionary(name) {
                        Some(wrap_if_nullable(*q_mark, IdlType::Dictionary(name.clone())))
                    } else if record.is_enum(name) {
                        Some(wrap_if_nullable(*q_mark, IdlType::Enum(name.clone())))
                    } else {
                        None
                    }
                },
            },
        }
    }

    /// Resolves a const type against the symbol table.
    pub fn to_idl_type(&self, record: &SymbolTable) -> (r: Option<IdlType>)
        ensures
            opt_ty_view(r) == resolve_const_spec(*self, *record, record.typedefs@.len() as nat),
    {
        self.resolve(record, record.typedefs.len())
    }
}

/// Resolves every member of a union, in source order; fails if any member
/// fails.
#[verifier::loop_isolation(false)]
fn resolve_members(members: &Vec<UnionMemberExpr>, record: &SymbolTable, fuel: usize) -> (r: Option<
    Vec<IdlType>,
>)
    ensures
        match r {
            Some(types) => resolve_members_spec(members@, *record, fuel as nat) == Some(
                views_of(types@),
            ),
            None => resolve_members_spec(members@, *record, fuel as nat) is None,
        },
    decreases fuel, *members,
{
    let ghost mvs = members@;
    let mut out: Vec<IdlType> = Vec::new();
    proof {
        assert(mvs.skip(0) =~= mvs);
        assert(views_of(out@) =~= Seq::<TyView>::empty());
        match resolve_members_spec(mvs, *record, fuel as nat) {
            Some(whole) => {
                assert(Seq::<TyView>::empty() + whole =~= whole);
            },
            None => {},
        }
    }
    let mut i: usize = 0;
    while i < members.len()
        invariant
            i <= mvs.len(),
            resolve_members_spec(mvs, *record, fuel as nat) == opt_prepend(
                views_of(out@),
                resolve_members_spec(mvs.skip(i as int), *record, fuel as nat),
            ),
        decreases mvs.len() - i,
    {
        proof {
            assert(mvs.skip(i as int)[0] == mvs[i as int]);
            assert(mvs.skip(i as int).drop_first() =~= mvs.skip(i as int + 1));
        }
        let ghost prev = views_of(out@);
        match members[i].resolve(record, fuel) {
            Some(t) => {
                proof {
                    match resolve_members_spec(mvs.skip(i as int + 1), *record, fuel as nat) {
                        Some(rest) => {
                            assert(resolve_members_spec(mvs.skip(i as int), *record, fuel as nat)
                                == Some(seq![t@] + rest));
                            assert(prev.push(t@) + rest =~= prev + (seq![t@] + rest));
                        },
                        None => {
                            assert(resolve_members_spec(mvs.skip(i as int), *record, fuel as nat)
                                is None);
                        },
                    }
                }
                out.push(t);
                proof {
                    assert(views_of(out@) =~= prev.push(out@.last()@));
                }
            },
            None => {
                return None;
            },
        }
        i += 1;
    }
    proof {
        assert(mvs.skip(mvs.len() as int) =~= Seq::<UnionMemberExpr>::empty());
        assert(resolve_members_spec(Seq::<UnionMemberExpr>::empty(), *record, fuel as nat) == Some(
            Seq::<TyView>::empty(),
        ));
        assert(views_of(out@) + Seq::<TyView>::empty() =~= views_of(out@));
    }
    Some(out)
}

/// Linear membership test over a list of names.
#[verifier::loop_isolation(false)]
fn contains_name(names: &Vec<String>, name: &String) -> (r: bool)
    ensures
        r == name_listed(names@, name@),
{
    let mut i: usize = 0;
    while i < names.len()
        invariant
            i <= names@.len(),
            forall|j: int| 0 <= j < i ==> names@[j]@ != name@,
        decreases names@.len() - i,
    {
        if names[i] == *name {
            return true;
        }
        i += 1;
    }
    false
}

} // verus!
