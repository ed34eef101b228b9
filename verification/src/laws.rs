//! Laws of the union flattener: totality, union-freeness of the result,
//! distribution through wrappers, record cross products, and preservation
//! of source order.

use vstd::prelude::*;
use crate::idl_type::{
    TyView, flat_view, flat_members, key_row, cross_records, union_free, wrap_nullable,
    wrap_frozen_array, wrap_sequence, wrap_promise,
};
use crate::arguments::{expand_views, expand_from, extend_all, singletons};

verus! {

/// Law: flattening distributes through every one-argument wrapper: the
/// wrapper is re-applied to each flattened alternative of the inner type,
/// preserving order.
pub proof fn lemma_flatten_distributes_through_wrappers(t: TyView)
    ensures
        flat_view(TyView::Nullable(Box::new(t))) == wrap_nullable(flat_view(t)),
        flat_view(TyView::FrozenArray(Box::new(t))) == wrap_frozen_array(flat_view(t)),
        flat_view(TyView::Sequence(Box::new(t))) == wrap_sequence(flat_view(t)),
        flat_view(TyView::Promise(Box::new(t))) == wrap_promise(flat_view(t)),
{
}

/// Law: a union flattens to the concatenation of its members' flattened
/// alternatives, in source order.
pub proof fn lemma_flatten_union_is_member_concat(members: Seq<TyView>)
    ensures
        flat_view(TyView::Union(members)) == flat_members(members),
{
}

/// Every type of one signature is union-free.
pub open spec fn sig_union_free(sig: Seq<TyView>) -> bool {
    forall|j: int| 0 <= j < sig.len() ==> union_free(#[trigger] sig[j])
}

/// Every signature of a list is union-free throughout.
pub open spec fn sigs_union_free(sigs: Seq<Seq<TyView>>) -> bool {
    forall|i: int| 0 <= i < sigs.len() ==> sig_union_free(#[trigger] sigs[i])
}

/// Law: expanding a single required argument yields exactly its flattened
/// alternatives, each as a one-argument signature, in order.
pub proof fn lemma_expand_single_required(t: TyView)
    ensures
        expand_views(seq![(t, false)]) =~= singletons(flat_view(t)),
{
    let args = seq![(t, false)];
    assert(!args[0].1);
    assert(expand_from(args, 1, Seq::<Seq<TyView>>::empty(), singletons(flat_view(args[0].0)))
        == Seq::<Seq<TyView>>::empty() + singletons(flat_view(args[0].0)));
    assert(Seq::<Seq<TyView>>::empty() + singletons(flat_view(t)) =~= singletons(flat_view(t)));
}

/// Well-formed canonical type: every union anywhere in the structure has at
/// least two members, as the grammar guarantees before flattening runs.
pub open spec fn wf_ty(t: TyView) -> bool
    decreases t, 0int,
{
    match t {
        TyView::Nullable(inner) => wf_ty(*inner),
        TyView::FrozenArray(inner) => wf_ty(*inner),
        TyView::Sequence(inner) => wf_ty(*inner),
        TyView::Promise(inner) => wf_ty(*inner),
        TyView::Record(key, value) => wf_ty(*key) && wf_ty(*value),
        TyView::Union(members) => members.len() >= 2 && wf_all(members),
        _ => true,
    }
}

/// Every type of a sequence is well formed.
pub open spec fn wf_all(members: Seq<TyView>) -> bool
    decreases members, 1int,
{
    if members.len() == 0 {
        true
    } else {
        wf_ty(members[0]) && wf_all(members.drop_first())
    }
}

/// The recursive well-formedness of a sequence agrees with its pointwise
/// statement.
pub proof fn lemma_wf_all_index(members: Seq<TyView>)
    ensures
        wf_all(members) <==> (forall|i: int| 0 <= i < members.len() ==> wf_ty(#[trigger] members[i])),
    decreases members.len(),
{
    if members.len() > 0 {
        lemma_wf_all_index(members.drop_first());
        assert(forall|i: int| 1 <= i < members.len() ==> members[i] == members.drop_first()[i - 1]);
    }
}

/// Extending union-free signatures by union-free alternatives keeps every
/// signature union-free.
pub proof fn lemma_extend_all_union_free(sigs: Seq<Seq<TyView>>, alts: Seq<TyView>)
    requires
        sigs_union_free(sigs),
        forall|j: int| 0 <= j < alts.len() ==> union_free(#[trigger] alts[j]),
    ensures
        sigs_union_free(extend_all(sigs, alts)),
    decreases sigs.len(),
{
    if sigs.len() > 0 {
        lemma_extend_all_union_free(sigs.drop_first(), alts);
        let row = alts.map(|j: int, t: TyView| sigs[0].push(t));
        let rest = extend_all(sigs.drop_first(), alts);
        assert(extend_all(sigs, alts) == row + rest);
        assert forall|i: int| 0 <= i < extend_all(sigs, alts).len() implies sig_union_free(
            #[trigger] extend_all(sigs, alts)[i],
        ) by {
            if i < row.len() {
                assert(extend_all(sigs, alts)[i] == row[i]);
                assert(row[i] == sigs[0].push(alts[i]));
                assert(sig_union_free(sigs[0]));
                assert forall|j: int| 0 <= j < sigs[0].push(alts[i]).len() implies union_free(
                    #[trigger] sigs[0].push(alts[i])[j],
                ) by {
                    if j < sigs[0].len() {
                        assert(sigs[0].push(alts[i])[j] == sigs[0][j]);
                    } else {
                        assert(sigs[0].push(alts[i])[j] == alts[i]);
                    }
                }
            } else {
                assert(extend_all(sigs, alts)[i] == rest[i - row.len()]);
            }
        }
    }
}

/// From a union-free state, each expansion step keeps every signature
/// union-free.
pub proof fn lemma_expand_from_union_free(
    args: Seq<(TyView, bool)>,
    i: int,
    truncated: Seq<Seq<TyView>>,
    complete: Seq<Seq<TyView>>,
)
    requires
        forall|k: int| 0 <= k < args.len() ==> wf_ty(#[trigger] args[k].0),
        sigs_union_free(truncated),
        sigs_union_free(complete),
    ensures
        sigs_union_free(expand_from(args, i, truncated, complete)),
    decreases args.len() - i,
{
    if i < 0 || i >= args.len() {
        assert forall|k: int| 0 <= k < (truncated + complete).len() implies sig_union_free(
            #[trigger] (truncated + complete)[k],
        ) by {
            if k < truncated.len() {
                assert((truncated + complete)[k] == truncated[k]);
            } else {
                assert((truncated + complete)[k] == complete[k - truncated.len()]);
            }
        }
    } else {
        lemma_flatten_total(args[i].0);
        lemma_extend_all_union_free(complete, flat_view(args[i].0));
        if args[i].1 {
            assert forall|k: int| 0 <= k < (truncated + complete).len() implies sig_union_free(
                #[trigger] (truncated + complete)[k],
            ) by {
                if k < truncated.len() {
                    assert((truncated + complete)[k] == truncated[k]);
                } else {
                    assert((truncated + complete)[k] == complete[k - truncated.len()]);
                }
            }
        }
        lemma_expand_from_union_free(
            args,
            i + 1,
            if args[i].1 {
                truncated + complete
            } else {
                truncated
            },
            extend_all(complete, flat_view(args[i].0)),
        );
    }
}

/// Law: no signature that argument expansion produces contains a union
/// anywhere, for any argument list of well-formed types.
pub proof fn lemma_expand_union_free(args: Seq<(TyView, bool)>)
    requires
        forall|k: int| 0 <= k < args.len() ==> wf_ty(#[trigger] args[k].0),
    ensures
        sigs_union_free(expand_views(args)),
{
    if args.len() == 0 {
        assert(expand_views(args) == seq![Seq::<TyView>::empty()]);
        assert(sig_union_free(Seq::<TyView>::empty()));
    } else {
        lemma_flatten_total(args[0].0);
        let first_truncated: Seq<Seq<TyView>> = if args[0].1 {
            seq![Seq::<TyView>::empty()]
        } else {
            Seq::empty()
        };
        assert(sig_union_free(Seq::<TyView>::empty()));
        assert(sigs_union_free(first_truncated));
        let alts = flat_view(args[0].0);
        assert forall|k: int| 0 <= k < singletons(alts).len() implies sig_union_free(
            #[trigger] singletons(alts)[k],
        ) by {
            assert(singletons(alts)[k] == seq![alts[k]]);
            assert(seq![alts[k]][0] == alts[k]);
        }
        lemma_expand_from_union_free(args, 1, first_truncated, singletons(alts));
    }
}

/// A singleton member list contributes exactly the flattened alternatives of
/// its one member.
pub proof fn lemma_flat_members_singleton(t: TyView)
    ensures
        flat_members(seq![t]) =~= flat_view(t),
{
    assert(seq![t].drop_first() =~= Seq::<TyView>::empty());
    assert(flat_members(Seq::<TyView>::empty()) == Seq::<TyView>::empty());
    assert(flat_members(seq![t]) == flat_view(t) + flat_members(Seq::<TyView>::empty()));
}

/// A two-member list contributes the concatenation of its members'
/// flattened alternatives, in order.
pub proof fn lemma_flat_members_two(a: TyView, b: TyView)
    ensures
        flat_members(seq![a, b]) =~= flat_view(a) + flat_view(b),
{
    lemma_flat_members_singleton(b);
    assert(seq![a, b].drop_first() =~= seq![b]);
    assert(flat_members(seq![a, b]) == flat_view(a) + flat_members(seq![b]));
}

/// Law: flattening is total and non-empty, and every alternative it returns
/// contains no union anywhere in its structure.
pub proof fn lemma_flatten_total(t: TyView)
    requires
        wf_ty(t),
    ensures
        flat_view(t).len() > 0,
        forall|i: int| 0 <= i < flat_view(t).len() ==> union_free(#[trigger] flat_view(t)[i]),
    decreases t, 0int,
{
    match t {
        TyView::Nullable(inner) => {
            lemma_flatten_total(*inner);
        },
        TyView::FrozenArray(inner) => {
            lemma_flatten_total(*inner);
        },
        TyView::Sequence(inner) => {
            lemma_flatten_total(*inner);
        },
        TyView::Promise(inner) => {
            lemma_flatten_total(*inner);
        },
        TyView::Record(key, value) => {
            lemma_flatten_total(*key);
            lemma_flatten_total(*value);
            lemma_cross_records_total(flat_view(*key), flat_view(*value));
        },
        TyView::Union(members) => {
            lemma_flat_members_total(members);
        },
        _ => {},
    }
}

/// The concatenated alternatives of a non-empty sequence of well-formed types
/// are non-empty and union-free.
pub proof fn lemma_flat_members_total(members: Seq<TyView>)
    requires
        wf_all(members),
    ensures
        members.len() > 0 ==> flat_members(members).len() > 0,
        forall|i: int| 0 <= i < flat_members(members).len() ==> union_free(
            #[trigger] flat_members(members)[i],
        ),
    decreases members, 1int,
{
    if members.len() > 0 {
        lemma_flatten_total(members[0]);
        lemma_flat_members_total(members.drop_first());
        let head = flat_view(members[0]);
        let tail = flat_members(members.drop_first());
        assert(flat_members(members) == head + tail);
        assert forall|i: int| 0 <= i < flat_members(members).len() implies union_free(
            #[trigger] flat_members(members)[i],
        ) by {
            if i < head.len() {
                assert(flat_members(members)[i] == head[i]);
            } else {
                assert(flat_members(members)[i] == tail[i - head.len()]);
            }
        }
    }
}

/// The cross product of non-empty, union-free key and value alternatives is
/// non-empty and union-free.
pub proof fn lemma_cross_records_total(keys: Seq<TyView>, values: Seq<TyView>)
    requires
        keys.len() > 0,
        values.len() > 0,
        forall|i: int| 0 <= i < keys.len() ==> union_free(#[trigger] keys[i]),
        forall|j: int| 0 <= j < values.len() ==> union_free(#[trigger] values[j]),
    ensures
        cross_records(keys, values).len() > 0,
        forall|i: int| 0 <= i < cross_records(keys, values).len() ==> union_free(
            #[trigger] cross_records(keys, values)[i],
        ),
    decreases keys.len(),
{
    let row = key_row(keys[0], values);
    let rest = cross_records(keys.drop_first(), values);
    assert(cross_records(keys, values) == row + rest);
    if keys.drop_first().len() > 0 {
        lemma_cross_records_total(keys.drop_first(), values);
    }
    assert forall|i: int| 0 <= i < cross_records(keys, values).len() implies union_free(
        #[trigger] cross_records(keys, values)[i],
    ) by {
        if i < row.len() {
            assert(cross_records(keys, values)[i] == row[i]);
            assert(row[i] == TyView::Record(Box::new(keys[0]), Box::new(values[i])));
        } else {
            assert(cross_records(keys, values)[i] == rest[i - row.len()]);
        }
    }
    assert(row.len() == values.len());
}

/// Law: a union-free type flattens to the singleton list holding itself
/// unchanged.
pub proof fn lemma_union_free_flattens_to_self(t: TyView)
    requires
        union_free(t),
    ensures
        flat_view(t) =~= seq![t],
    decreases t,
{
    match t {
        TyView::Nullable(inner) => {
            lemma_union_free_flattens_to_self(*inner);
            assert(flat_view(t) =~= seq![t]);
        },
        TyView::FrozenArray(inner) => {
            lemma_union_free_flattens_to_self(*inner);
            assert(flat_view(t) =~= seq![t]);
        },
        TyView::Sequence(inner) => {
            lemma_union_free_flattens_to_self(*inner);
            assert(flat_view(t) =~= seq![t]);
        },
        TyView::Promise(inner) => {
            lemma_union_free_flattens_to_self(*inner);
            assert(flat_view(t) =~= seq![t]);
        },
        TyView::Record(key, value) => {
            lemma_union_free_flattens_to_self(*key);
            lemma_union_free_flattens_to_self(*value);
            assert(flat_view(*key) == seq![*key]);
            assert(flat_view(*value) == seq![*value]);
            assert(seq![*key].drop_first() =~= Seq::<TyView>::empty());
            assert(cross_records(Seq::<TyView>::empty(), seq![*value])
                == Seq::<TyView>::empty());
            assert(cross_records(seq![*key], seq![*value]) == key_row(*key, seq![*value])
                + cross_records(Seq::<TyView>::empty(), seq![*value]));
            assert(key_row(*key, seq![*value]) =~= seq![t]);
            assert(flat_view(t) =~= seq![t]);
        },
        _ => {},
    }
}

/// Law: concatenating member lists concatenates their flattened
/// alternatives; a union's alternatives follow its members' source order.
pub proof fn lemma_flat_members_append(left: Seq<TyView>, right: Seq<TyView>)
    ensures
        flat_members(left + right) =~= flat_members(left) + flat_members(right),
    decreases left.len(),
{
    if left.len() == 0 {
        assert(left + right =~= right);
        assert(flat_members(left) == Seq::<TyView>::empty());
    } else {
        lemma_flat_members_append(left.drop_first(), right);
        assert((left + right).drop_first() =~= left.drop_first() + right);
        assert(flat_members(left + right) == flat_view((left + right)[0]) + flat_members(
            (left + right).drop_first(),
        ));
        assert((left + right)[0] == left[0]);
        assert(flat_members(left) == flat_view(left[0]) + flat_members(left.drop_first()));
    }
}

/// The flattened alternatives of a two-member union of union-free types are
/// exactly the two types, in order.
pub proof fn lemma_flat_two_members(a: TyView, b: TyView)
    requires
        union_free(a),
        union_free(b),
    ensures
        flat_members(seq![a, b]) =~= seq![a, b],
{
    lemma_union_free_flattens_to_self(a);
    lemma_union_free_flattens_to_self(b);
    lemma_flat_members_two(a, b);
}

/// Law: flattening a nullable of a two-member union distributes the nullable
/// wrapper over both alternatives, in source order.
pub proof fn lemma_flatten_nullable_union(a: TyView, b: TyView)
    requires
        union_free(a),
        union_free(b),
    ensures
        flat_view(TyView::Nullable(Box::new(TyView::Union(seq![a, b])))) =~= seq![
            TyView::Nullable(Box::new(a)),
            TyView::Nullable(Box::new(b)),
        ],
{
    lemma_flat_two_members(a, b);
    assert(flat_view(TyView::Union(seq![a, b])) == flat_members(seq![a, b]));
    assert(flat_view(TyView::Nullable(Box::new(TyView::Union(seq![a, b]))))
        == crate::idl_type::wrap_nullable(flat_members(seq![a, b])));
}

/// Law: flattening a record whose key and value are two-member unions takes
/// the full cross product, key varying slower than value.
pub proof fn lemma_flatten_record_unions(a: TyView, b: TyView, x: TyView, y: TyView)
    requires
        union_free(a),
        union_free(b),
        union_free(x),
        union_free(y),
    ensures
        flat_view(TyView::Record(
            Box::new(TyView::Union(seq![a, b])),
            Box::new(TyView::Union(seq![x, y])),
        )) =~= seq![
            TyView::Record(Box::new(a), Box::new(x)),
            TyView::Record(Box::new(a), Box::new(y)),
            TyView::Record(Box::new(b), Box::new(x)),
            TyView::Record(Box::new(b), Box::new(y)),
        ],
{
    lemma_flat_two_members(a, b);
    lemma_flat_two_members(x, y);
    let keys = seq![a, b];
    let values = seq![x, y];
    assert(keys.drop_first() =~= seq![b]);
    assert(seq![b].drop_first() =~= Seq::<TyView>::empty());
    assert(cross_records(Seq::<TyView>::empty(), values) == Seq::<TyView>::empty());
    assert(cross_records(seq![b], values) == key_row(b, values) + cross_records(
        Seq::<TyView>::empty(),
        values,
    ));
    assert(cross_records(keys, values) == key_row(a, values) + cross_records(seq![b], values));
    assert(key_row(a, values) =~= seq![
        TyView::Record(Box::new(a), Box::new(x)),
        TyView::Record(Box::new(a), Box::new(y)),
    ]);
    assert(key_row(b, values) =~= seq![
        TyView::Record(Box::new(b), Box::new(x)),
        TyView::Record(Box::new(b), Box::new(y)),
    ]);
    let rec = TyView::Record(Box::new(TyView::Union(keys)), Box::new(TyView::Union(values)));
    assert(flat_view(TyView::Union(keys)) == flat_members(keys));
    assert(flat_view(TyView::Union(values)) == flat_members(values));
    assert(flat_view(rec) == cross_records(flat_view(TyView::Union(keys)), flat_view(
        TyView::Union(values),
    )));
}

/// Law: flattening a sequence re-wraps each flattened alternative of the
/// inner type, preserving order; in particular a sequence of a two-member
/// union yields the two wrapped alternatives.
pub proof fn lemma_flatten_sequence_union(a: TyView, b: TyView)
    requires
        union_free(a),
        union_free(b),
    ensures
        flat_view(TyView::Sequence(Box::new(TyView::Union(seq![a, b])))) =~= seq![
            TyView::Sequence(Box::new(a)),
            TyView::Sequence(Box::new(b)),
        ],
{
    lemma_flat_two_members(a, b);
    assert(flat_view(TyView::Union(seq![a, b])) == flat_members(seq![a, b]));
    assert(flat_view(TyView::Sequence(Box::new(TyView::Union(seq![a, b]))))
        == crate::idl_type::wrap_sequence(flat_members(seq![a, b])));
}

/// Law: a union member that is itself a sequence of a union flattens the
/// inner union first and distributes it in place, keeping left-to-right
/// source order across the outer union.
pub proof fn lemma_flatten_union_of_sequence_union(a: TyView, b: TyView, c: TyView)
    requires
        union_free(a),
        union_free(b),
        union_free(c),
    ensures
        flat_view(TyView::Union(seq![
            TyView::Sequence(Box::new(TyView::Union(seq![a, b]))),
            c,
        ])) =~= seq![TyView::Sequence(Box::new(a)), TyView::Sequence(Box::new(b)), c],
{
    lemma_flatten_sequence_union(a, b);
    lemma_union_free_flattens_to_self(c);
    let first = TyView::Sequence(Box::new(TyView::Union(seq![a, b])));
    lemma_flat_members_two(first, c);
    assert(flat_view(TyView::Union(seq![first, c])) == flat_members(seq![first, c]));
}

} // verus!
