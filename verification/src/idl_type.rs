//! The canonical IDL type: a closed variant set for every resolved WebIDL
//! type expression, together with its mathematical view and the recursive
//! union flattener.

use vstd::prelude::*;

verus! {

/// Mathematical model of a canonical IDL type. Named leaves carry the
/// referenced identifier as a character sequence; union members form a
/// sequence whose order is significant for flattening.
pub enum TyView {
    Boolean,
    Byte,
    Octet,
    Short,
    UnsignedShort,
    Long,
    UnsignedLong,
    LongLong,
    UnsignedLongLong,
    Float,
    UnrestrictedFloat,
    Double,
    UnrestrictedDouble,
    DomString,
    ByteString,
    UsvString,
    Object,
    Symbol,
    Error,

    ArrayBuffer,
    DataView,
    Int8Array,
    Uint8Array,
    Uint8ClampedArray,
    Int16Array,
    Uint16Array,
    Int32Array,
    Uint32Array,
    Float32Array,
    Float64Array,

    Interface(Seq<char>),
    Dictionary(Seq<char>),
    Enum(Seq<char>),

    Nullable(Box<TyView>),
    FrozenArray(Box<TyView>),
    Sequence(Box<TyView>),
    Promise(Box<TyView>),
    Record(Box<TyView>, Box<TyView>),
    Union(Seq<TyView>),

    Any,
    Void,
}

/// Canonical IDL type as produced by resolution: one variant per scalar,
/// string, buffer-view and named leaf, plus the parametric constructs.
#[derive(PartialEq, Eq, Debug)]
pub enum IdlType {
    Boolean,
    Byte,
    Octet,
    Short,
    UnsignedShort,
    Long,
    UnsignedLong,
    LongLong,
    UnsignedLongLong,
    Float,
    UnrestrictedFloat,
    Double,
    UnrestrictedDouble,
    DomString,
    ByteString,
    UsvString,
    Object,
    Symbol,
    Error,

    ArrayBuffer,
    DataView,
    Int8Array,
    Uint8Array,
    Uint8ClampedArray,
    Int16Array,
    Uint16Array,
    Int32Array,
    Uint32Array,
    Float32Array,
    Float64Array,

    Interface(String),
    Dictionary(String),
    Enum(String),

    Nullable(Box<IdlType>),
    FrozenArray(Box<IdlType>),
    Sequence(Box<IdlType>),
    Promise(Box<IdlType>),
    Record(Box<IdlType>, Box<IdlType>),
    Union(Vec<IdlType>),

    Any,
    Void,
}

/// View of one canonical type as its mathematical model.
pub open spec fn ty_view(t: IdlType) -> TyView
    decreases t, 1int,
{
    match t {
        IdlType::Boolean => TyView::Boolean,
        IdlType::Byte => TyView::Byte,
        IdlType::Octet => TyView::Octet,
        IdlType::Short => TyView::Short,
        IdlType::UnsignedShort => TyView::UnsignedShort,
        IdlType::Long => TyView::Long,
        IdlType::UnsignedLong => TyView::UnsignedLong,
        IdlType::LongLong => TyView::LongLong,
        IdlType::UnsignedLongLong => TyView::UnsignedLongLong,
        IdlType::Float => TyView::Float,
        IdlType::UnrestrictedFloat => TyView::UnrestrictedFloat,
        IdlType::Double => TyView::Double,
        IdlType::UnrestrictedDouble => TyView::UnrestrictedDouble,
        IdlType::DomString => TyView::DomString,
        IdlType::ByteString => TyView::ByteString,
        IdlType::UsvString => TyView::UsvString,
        IdlType::Object => TyView::Object,
        IdlType::Symbol => TyView::Symbol,
        IdlType::Error => TyView::Error,
        IdlType::ArrayBuffer => TyView::ArrayBuffer,
        IdlType::DataView => TyView::DataView,
        IdlType::Int8Array => TyView::Int8Array,
        IdlType::Uint8Array => TyView::Uint8Array,
        IdlType::Uint8ClampedArray => TyView::Uint8ClampedArray,
        IdlType::Int16Array => TyView::Int16Array,
        IdlType::Uint16Array => TyView::Uint16Array,
        IdlType::Int32Array => TyView::Int32Array,
        IdlType::Uint32Array => TyView::Uint32Array,
        IdlType::Float32Array => TyView::Float32Array,
        IdlType::Float64Array => TyView::Float64Array,
        IdlType::Interface(name) => TyView::Interface(name@),
        IdlType::Dictionary(name) => TyView::Dictionary(name@),
        IdlType::Enum(name) => TyView::Enum(name@),
        IdlType::Nullable(inner) => TyView::Nullable(Box::new(ty_view(*inner))),
        IdlType::FrozenArray(inner) => TyView::FrozenArray(Box::new(ty_view(*inner))),
        IdlType::Sequence(inner) => TyView::Sequence(Box::new(ty_view(*inner))),
        IdlType::Promise(inner) => TyView::Promise(Box::new(ty_view(*inner))),
        IdlType::Record(key, value) => TyView::Record(
            Box::new(ty_view(*key)),
            Box::new(ty_view(*value)),
        ),
        IdlType::Union(members) => TyView::Union(ty_views_rec(members@)),
        IdlType::Any => TyView::Any,
        IdlType::Void => TyView::Void,
    }
}

/// Views of a sequence of canonical types, elementwise.
pub open spec fn ty_views_rec(s: Seq<IdlType>) -> Seq<TyView>
    decreases s, 0int,
{
    if s.len() == 0 {
        Seq::empty()
    } else {
        seq![ty_view(s[0])] + ty_views_rec(s.drop_first())
    }
}

/// Views of a sequence of canonical types, stated pointwise.
pub open spec fn views_of(s: Seq<IdlType>) -> Seq<TyView> {
    s.map(|i: int, t: IdlType| t@)
}

/// The recursive form of a sequence's views agrees with the pointwise form.
pub proof fn lemma_ty_views_rec(s: Seq<IdlType>)
    ensures
        ty_views_rec(s) =~= views_of(s),
    decreases s.len(),
{
    if s.len() > 0 {
        lemma_ty_views_rec(s.drop_first());
    }
}

impl View for IdlType {
    type V = TyView;

    open spec fn view(&self) -> TyView {
        ty_view(*self)
    }
}

/// Holds when no union variant occurs anywhere in the type's structure.
pub open spec fn union_free(t: TyView) -> bool
    decreases t,
{
    match t {
        TyView::Nullable(inner) => union_free(*inner),
        TyView::FrozenArray(inner) => union_free(*inner),
        TyView::Sequence(inner) => union_free(*inner),
        TyView::Promise(inner) => union_free(*inner),
        TyView::Record(key, value) => union_free(*key) && union_free(*value),
        TyView::Union(_) => false,
        _ => true,
    }
}

/// The flattened alternatives of one canonical type: unions are distributed
/// out of every position, wrappers re-wrap each inner alternative in order,
/// records take the key-major cross product, and a union concatenates its
/// members' alternatives in source order.
pub open spec fn flat_view(t: TyView) -> Seq<TyView>
    decreases t, 0int,
{
    match t {
        TyView::Nullable(inner) => wrap_nullable(flat_view(*inner)),
        TyView::FrozenArray(inner) => wrap_frozen_array(flat_view(*inner)),
        TyView::Sequence(inner) => wrap_sequence(flat_view(*inner)),
        TyView::Promise(inner) => wrap_promise(flat_view(*inner)),
        TyView::Record(key, value) => cross_records(flat_view(*key), flat_view(*value)),
        TyView::Union(members) => flat_members(members),
        _ => seq![t],
    }
}

/// Concatenation, in source order, of the flattened alternatives of every
/// member of a union.
pub open spec fn flat_members(members: Seq<TyView>) -> Seq<TyView>
    decreases members, 1int,
{
    if members.len() == 0 {
        Seq::empty()
    } else {
        flat_view(members[0]) + flat_members(members.drop_first())
    }
}

/// Each alternative re-wrapped as a nullable, in order.
pub open spec fn wrap_nullable(alts: Seq<TyView>) -> Seq<TyView> {
    alts.map(|i: int, x: TyView| TyView::Nullable(Box::new(x)))
}

/// Each alternative re-wrapped as a frozen array, in order.
pub open spec fn wrap_frozen_array(alts: Seq<TyView>) -> Seq<TyView> {
    alts.map(|i: int, x: TyView| TyView::FrozenArray(Box::new(x)))
}

/// Each alternative re-wrapped as a sequence, in order.
pub open spec fn wrap_sequence(alts: Seq<TyView>) -> Seq<TyView> {
    alts.map(|i: int, x: TyView| TyView::Sequence(Box::new(x)))
}

/// Each alternative re-wrapped as a promise, in order.
pub open spec fn wrap_promise(alts: Seq<TyView>) -> Seq<TyView> {
    alts.map(|i: int, x: TyView| TyView::Promise(Box::new(x)))
}

/// One key paired with every value alternative, in order.
pub open spec fn key_row(k: TyView, values: Seq<TyView>) -> Seq<TyView> {
    values.map(|j: int, v: TyView| TyView::Record(Box::new(k), Box::new(v)))
}

/// Key-major, value-minor cross product of record alternatives.
pub open spec fn cross_records(keys: Seq<TyView>, values: Seq<TyView>) -> Seq<TyView>
    decreases keys.len(),
{
    if keys.len() == 0 {
        Seq::empty()
    } else {
        key_row(keys[0], values) + cross_records(keys.drop_first(), values)
    }
}

impl Clone for IdlType {
    /// Deep copy; the copy has the same mathematical view as the source value.
    #[verifier::loop_isolation(false)]
    fn clone(&self) -> (res: Self)
        ensures
            res@ == self@,
        decreases *self,
    {
        match self {
            IdlType::Boolean => IdlType::Boolean,
            IdlType::Byte => IdlType::Byte,
            IdlType::Octet => IdlType::Octet,
            IdlType::Short => IdlType::Short,
            IdlType::UnsignedShort => IdlType::UnsignedShort,
            IdlType::Long => IdlType::Long,
            IdlType::UnsignedLong => IdlType::UnsignedLong,
            IdlType::LongLong => IdlType::LongLong,
            IdlType::UnsignedLongLong => IdlType::UnsignedLongLong,
            IdlType::Float => IdlType::Float,
            IdlType::UnrestrictedFloat => IdlType::UnrestrictedFloat,
            IdlType::Double => IdlType::Double,
            IdlType::UnrestrictedDouble => IdlType::UnrestrictedDouble,
            IdlType::DomString => IdlType::DomString,
            IdlType::ByteString => IdlType::ByteString,
            IdlType::UsvString => IdlType::UsvString,
            IdlType::Object => IdlType::Object,
            IdlType::Symbol => IdlType::Symbol,
            IdlType::Error => IdlType::Error,
            IdlType::ArrayBuffer => IdlType::ArrayBuffer,
            IdlType::DataView => IdlType::DataView,
            IdlType::Int8Array => IdlType::Int8Array,
            IdlType::Uint8Array => IdlType::Uint8Array,
            IdlType::Uint8ClampedArray => IdlType::Uint8ClampedArray,
            IdlType::Int16Array => IdlType::Int16Array,
            IdlType::Uint16Array => IdlType::Uint16Array,
            IdlType::Int32Array => IdlType::Int32Array,
            IdlType::Uint32Array => IdlType::Uint32Array,
            IdlType::Float32Array => IdlType::Float32Array,
            IdlType::Float64Array => IdlType::Float64Array,
            IdlType::Interface(name) => IdlType::Interface(name.clone()),
            IdlType::Dictionary(name) => IdlType::Dictionary(name.clone()),
            IdlType::Enum(name) => IdlType::Enum(name.clone()),
            IdlType::Nullable(inner) => IdlType::Nullable(Box::new((&**inner).clone())),
            IdlType::FrozenArray(inner) => IdlType::FrozenArray(Box::new((&**inner).clone())),
            IdlType::Sequence(inner) => IdlType::Sequence(Box::new((&**inner).clone())),
            IdlType::Promise(inner) => IdlType::Promise(Box::new((&**inner).clone())),
            IdlType::Record(key, value) => IdlType::Record(
                Box::new((&**key).clone()),
                Box::new((&**value).clone()),
            ),
            IdlType::Union(members) => {
                let mut out: Vec<IdlType> = Vec::new();
                let mut i: usize = 0;
                while i < members.len()
                    invariant
                        i <= members@.len(),
                        out@.len() == i as int,
                        forall|j: int| 0 <= j < i ==> out@[j]@ == members@[j]@,
                    decreases members@.len() - i,
                {
                    out.push(members[i].clone());
                    i += 1;
                }
                proof {
                    lemma_ty_views_rec(out@);
                    lemma_ty_views_rec(members@);
                    assert(views_of(out@) =~= views_of(members@));
                }
                IdlType::Union(out)
            },
            IdlType::Any => IdlType::Any,
            IdlType::Void => IdlType::Void,
        }
    }
}

impl IdlType {
    /// Flattens unions recursively: distributes every union found anywhere in
    /// the type's structure into a flat, ordered list of union-free
    /// equivalents, per the flattened-union-member-types rule extended
    /// through generic positions.
    #[verifier::loop_isolation(false)]
    pub fn flatten(&self) -> (r: Vec<IdlType>)
        ensures
            views_of(r@) == flat_view(self@),
        decreases *self,
    {
        match self {
            IdlType::Nullable(inner) => {
                let alts = (&**inner).flatten();
                let mut out: Vec<IdlType> = Vec::new();
                let mut i: usize = 0;
                while i < alts.len()
                    invariant
                        i <= alts@.len(),
                        out@.len() == i as int,
                        forall|j: int| 0 <= j < i ==> out@[j]@ == TyView::Nullable(
                            Box::new(alts@[j]@),
                        ),
                    decreases alts@.len() - i,
                {
                    out.push(IdlType::Nullable(Box::new(alts[i].clone())));
                    i += 1;
                }
                proof {
                    assert(views_of(out@) =~= wrap_nullable(views_of(alts@)));
                }
                out
            },
            IdlType::FrozenArray(inner) => {
                let alts = (&**inner).flatten();
                let mut out: Vec<IdlType> = Vec::new();
                let mut i: usize = 0;
                while i < alts.len()
                    invariant
                        i <= alts@.len(),
                        out@.len() == i as int,
                        forall|j: int| 0 <= j < i ==> out@[j]@ == TyView::FrozenArray(
                            Box::new(alts@[j]@),
                        ),
                    decreases alts@.len() - i,
                {
                    out.push(IdlType::FrozenArray(Box::new(alts[i].clone())));
                    i += 1;
                }
                proof {
                    assert(views_of(out@) =~= wrap_frozen_array(views_of(alts@)));
                }
                out
            },
            IdlType::Sequence(inner) => {
                let alts = (&**inner).flatten();
                let mut out: Vec<IdlType> = Vec::new();
                let mut i: usize = 0;
                while i < alts.len()
                    invariant
                        i <= alts@.len(),
                        out@.len() == i as int,
                        forall|j: int| 0 <= j < i ==> out@[j]@ == TyView::Sequence(
                            Box::new(alts@[j]@),
                        ),
                    decreases alts@.len() - i,
                {
                    out.push(IdlType::Sequence(Box::new(alts[i].clone())));
                    i += 1;
                }
                proof {
                    assert(views_of(out@) =~= wrap_sequence(views_of(alts@)));
                }
                out
            },
            IdlType::Promise(inner) => {
                let alts = (&**inner).flatten();
                let mut out: Vec<IdlType> = Vec::new();
                let mut i: usize = 0;
                while i < alts.len()
                    invariant
                        i <= alts@.len(),
                        out@.len() == i as int,
                        forall|j: int| 0 <= j < i ==> out@[j]@ == TyView::Promise(
                            Box::new(alts@[j]@),
                        ),
                    decreases alts@.len() - i,
                {
                    out.push(IdlType::Promise(Box::new(alts[i].clone())));
                    i += 1;
                }
                proof {
                    assert(views_of(out@) =~= wrap_promise(views_of(alts@)));
                }
                out
            },
            IdlType::Record(key, value) => {
                let keys = (&**key).flatten();
                let values = (&**value).flatten();
                let ghost kvs = views_of(keys@);
                let ghost vvs = views_of(values@);
                let mut out: Vec<IdlType> = Vec::new();
                proof {
                    assert(kvs.skip(0) =~= kvs);
                    assert(views_of(out@) + cross_records(kvs, vvs) =~= cross_records(kvs, vvs));
                }
                let mut i: usize = 0;
                while i < keys.len()
                    invariant
                        i <= kvs.len(),
                        views_of(out@) + cross_records(kvs.skip(i as int), vvs) == cross_records(
                            kvs,
                            vvs,
                        ),
                    decreases kvs.len() - i,
                {
                    let ghost row_start = out@;
                    let mut j: usize = 0;
                    while j < values.len()
                        invariant
                            i < kvs.len(),
                            j <= vvs.len(),
                            views_of(out@) =~= views_of(row_start) + key_row(kvs[i as int], vvs).take(
                                j as int,
                            ),
                        decreases vvs.len() - j,
                    {
                        out.push(IdlType::Record(
                            Box::new(keys[i].clone()),
                            Box::new(values[j].clone()),
                        ));
                        proof {
                            let row = key_row(kvs[i as int], vvs);
                            assert(row[j as int] == TyView::Record(
                                Box::new(kvs[i as int]),
                                Box::new(vvs[j as int]),
                            ));
                            assert(row.take(j as int + 1) =~= row.take(j as int).push(
                                row[j as int],
                            ));
                            assert(views_of(out@) =~= (views_of(row_start) + row.take(
                                j as int,
                            )).push(row[j as int]));
                            assert(views_of(out@) =~= views_of(row_start) + row.take(j as int + 1));
                        }
                        j += 1;
                    }
                    proof {
                        assert(key_row(kvs[i as int], vvs).take(vvs.len() as int) =~= key_row(
                            kvs[i as int],
                            vvs,
                        ));
                        assert(kvs.skip(i as int).drop_first() =~= kvs.skip(i as int + 1));
                        assert(kvs.skip(i as int)[0] == kvs[i as int]);
                        assert(views_of(row_start) + key_row(kvs[i as int], vvs) + cross_records(
                            kvs.skip(i as int + 1),
                            vvs,
                        ) =~= views_of(row_start) + cross_records(kvs.skip(i as int), vvs));
                    }
                    i += 1;
                }
                proof {
                    assert(kvs.skip(kvs.len() as int) =~= Seq::<TyView>::empty());
                    assert(views_of(out@) + Seq::<TyView>::empty() =~= views_of(out@));
                }
                out
            },
            IdlType::Union(members) => {
                let ghost mvs = views_of(members@);
                proof {
                    lemma_ty_views_rec(members@);
                }
                let mut out: Vec<IdlType> = Vec::new();
                proof {
                    assert(mvs.skip(0) =~= mvs);
                    assert(views_of(out@) + flat_members(mvs) =~= flat_members(mvs));
                }
                let mut i: usize = 0;
                while i < members.len()
                    invariant
                        i <= mvs.len(),
                        views_of(out@) + flat_members(mvs.skip(i as int)) == flat_members(mvs),
                    decreases mvs.len() - i,
                {
                    let mut sub = members[i].flatten();
                    proof {
                        assert(mvs.skip(i as int).drop_first() =~= mvs.skip(i as int + 1));
                        assert(mvs.skip(i as int)[0] == mvs[i as int]);
                        assert(views_of(out@ + sub@) =~= views_of(out@) + views_of(sub@));
                        assert(views_of(out@) + views_of(sub@) + flat_members(mvs.skip(i as int + 1))
                            =~= views_of(out@) + flat_members(mvs.skip(i as int)));
                    }
                    out.append(&mut sub);
                    i += 1;
                }
                proof {
                    assert(mvs.skip(mvs.len() as int) =~= Seq::<TyView>::empty());
                    assert(views_of(out@) + Seq::<TyView>::empty() =~= views_of(out@));
                }
                out
            },
            _ => {
                let mut out: Vec<IdlType> = Vec::new();
                out.push(self.clone());
                proof {
                    assert(views_of(out@) =~= seq![self@]);
                }
                out
            },
        }
    }
}

/// Deep copy of a list of canonical types; the copy has the same views,
/// elementwise.
#[verifier::loop_isolation(false)]
pub fn clone_types(types: &Vec<IdlType>) -> (r: Vec<IdlType>)
    ensures
        views_of(r@) == views_of(types@),
{
    let mut out: Vec<IdlType> = Vec::new();
    let mut i: usize = 0;
    while i < types.len()
        invariant
            i <= types@.len(),
            out@.len() == i as int,
            forall|j: int| 0 <= j < i ==> out@[j]@ == types@[j]@,
        decreases types@.len() - i,
    {
        out.push(types[i].clone());
        i += 1;
    }
    proof {
        assert(views_of(out@) =~= views_of(types@));
    }
    out
}

} // verus!
