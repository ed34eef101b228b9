//! Argument-list expansion: converts an ordered list of (type, optionality)
//! argument descriptors into every concrete, union-free, optionality-free
//! argument-type signature a caller could produce.

use vstd::prelude::*;
use crate::idl_type::{IdlType, TyView, flat_view, views_of, clone_types};

verus! {

/// View of an argument list: each argument as its canonical type's view
/// paired with its optionality flag.
pub open spec fn arg_views(args: Seq<(IdlType, bool)>) -> Seq<(TyView, bool)> {
    args.map(|i: int, a: (IdlType, bool)| (a.0@, a.1))
}

/// Views of a list of signatures, elementwise.
pub open spec fn signature_views(sigs: Seq<Vec<IdlType>>) -> Seq<Seq<TyView>> {
    sigs.map(|i: int, s: Vec<IdlType>| views_of(s@))
}

/// Each alternative alone, as a one-argument signature, in order.
pub open spec fn singletons(alts: Seq<TyView>) -> Seq<Seq<TyView>> {
    alts.map(|i: int, t: TyView| seq![t])
}

/// Every signature extended by every alternative: signature-major,
/// alternative-minor, so the earlier argument varies slowest.
pub open spec fn extend_all(sigs: Seq<Seq<TyView>>, alts: Seq<TyView>) -> Seq<Seq<TyView>>
    decreases sigs.len(),
{
    if sigs.len() == 0 {
        Seq::empty()
    } else {
        alts.map(|j: int, t: TyView| sigs[0].push(t)) + extend_all(sigs.drop_first(), alts)
    }
}

/// State of the expansion before argument `i` is processed: `truncated`
/// holds the signatures frozen at an earlier optional boundary, `complete`
/// the signatures that already cover every argument before `i`. An optional
/// argument freezes the current complete set before being expanded into it.
/// The result is the final truncated set followed by the final complete set.
pub open spec fn expand_from(
    args: Seq<(TyView, bool)>,
    i: int,
    truncated: Seq<Seq<TyView>>,
    complete: Seq<Seq<TyView>>,
) -> Seq<Seq<TyView>>
    decreases args.len() - i,
{
    if i < 0 || i >= args.len() {
        truncated + complete
    } else {
        expand_from(
            args,
            i + 1,
            if args[i].1 {
                truncated + complete
            } else {
                truncated
            },
            extend_all(complete, flat_view(args[i].0)),
        )
    }
}

/// The ordered list of concrete, union-free argument-type signatures that an
/// argument list admits: prefixes frozen before each trailing optional
/// argument come first (shorter signatures first), then the full-length
/// signatures, each set in flattening order.
pub open spec fn expand_views(args: Seq<(TyView, bool)>) -> Seq<Seq<TyView>> {
    if args.len() == 0 {
        seq![Seq::<TyView>::empty()]
    } else {
        expand_from(
            args,
            1,
            if args[0].1 {
                seq![Seq::<TyView>::empty()]
            } else {
                Seq::empty()
            },
            singletons(flat_view(args[0].0)),
        )
    }
}

/// Converts arguments into possibilities.
///
/// Each argument is represented by its canonical type and whether it is
/// optional; each possibility is one concrete list of canonical types. The
/// possibilities together cover every valid call shape: none contains a
/// union, and each corresponds to providing some prefix-consistent subset of
/// trailing optional arguments.
#[verifier::loop_isolation(false)]
pub fn flatten(arguments: &Vec<(IdlType, bool)>) -> (r: Vec<Vec<IdlType>>)
    ensures
        signature_views(r@) == expand_views(arg_views(arguments@)),
{
    let ghost avs = arg_views(arguments@);
    if arguments.len() == 0 {
        let mut out: Vec<Vec<IdlType>> = Vec::new();
        out.push(Vec::new());
        proof {
            assert(views_of(Seq::<IdlType>::empty()) =~= Seq::<TyView>::empty());
            assert(signature_views(out@) =~= seq![Seq::<TyView>::empty()]);
        }
        return out;
    }
    let mut optional_possibilities: Vec<Vec<IdlType>> = Vec::new();
    if arguments[0].1 {
        optional_possibilities.push(Vec::new());
    }
    proof {
        assert(avs[0] == (arguments@[0].0@, arguments@[0].1));
        if avs[0].1 {
            assert(views_of(Seq::<IdlType>::empty()) =~= Seq::<TyView>::empty());
            assert(signature_views(optional_possibilities@) =~= seq![Seq::<TyView>::empty()]);
        } else {
            assert(signature_views(optional_possibilities@) =~= Seq::<Seq<TyView>>::empty());
        }
    }
    let mut possibilities: Vec<Vec<IdlType>> = Vec::new();
    let alts0 = arguments[0].0.flatten();
    let mut i: usize = 0;
    while i < alts0.len()
        invariant
            i <= alts0@.len(),
            possibilities@.len() == i as int,
            forall|j: int| 0 <= j < i ==> views_of(#[trigger] possibilities@[j]@) == seq![
                alts0@[j]@,
            ],
        decreases alts0@.len() - i,
    {
        let mut sig: Vec<IdlType> = Vec::new();
        sig.push(alts0[i].clone());
        proof {
            assert(views_of(sig@) =~= seq![alts0@[i as int]@]);
        }
        possibilities.push(sig);
        i += 1;
    }
    proof {
        assert(signature_views(possibilities@) =~= singletons(views_of(alts0@)));
        assert(signature_views(possibilities@) == singletons(flat_view(avs[0].0)));
    }
    let mut k: usize = 1;
    while k < arguments.len()
        invariant
            1 <= k as int <= avs.len(),
            expand_from(
                avs,
                k as int,
                signature_views(optional_possibilities@),
                signature_views(possibilities@),
            ) == expand_views(avs),
        decreases avs.len() - k,
    {
        let optional = arguments[k].1;
        let ghost trunc_old = signature_views(optional_possibilities@);
        let ghost comp_old = signature_views(possibilities@);
        let alts = arguments[k].0.flatten();
        let ghost altv = views_of(alts@);
        proof {
            assert(avs[k as int] == (arguments@[k as int].0@, arguments@[k as int].1));
        }
        let mut new_possibilities: Vec<Vec<IdlType>> = Vec::new();
        proof {
            assert(comp_old.skip(0) =~= comp_old);
            assert(signature_views(new_possibilities@) + extend_all(comp_old, altv)
                =~= extend_all(comp_old, altv));
        }
        let mut p: usize = 0;
        while p < possibilities.len()
            invariant
                p <= possibilities@.len(),
                signature_views(possibilities@) == comp_old,
                optional ==> signature_views(optional_possibilities@) =~= trunc_old
                    + comp_old.take(p as int),
                !optional ==> signature_views(optional_possibilities@) == trunc_old,
                signature_views(new_possibilities@) + extend_all(comp_old.skip(p as int), altv)
                    == extend_all(comp_old, altv),
            decreases possibilities@.len() - p,
        {
            if optional {
                let frozen = clone_types(&possibilities[p]);
                proof {
                    assert(comp_old[p as int] == views_of(possibilities@[p as int]@));
                    assert(views_of(frozen@) == comp_old[p as int]);
                }
                optional_possibilities.push(frozen);
                proof {
                    assert(signature_views(optional_possibilities@) =~= (trunc_old + comp_old.take(
                        p as int,
                    )).push(comp_old[p as int]));
                    assert(comp_old.take(p as int + 1) =~= comp_old.take(p as int).push(
                        comp_old[p as int],
                    ));
                    assert(signature_views(optional_possibilities@) =~= trunc_old + comp_old.take(
                        p as int + 1,
                    ));
                }
            }
            let ghost new_start = signature_views(new_possibilities@);
            let ghost row = altv.map(|j: int, t: TyView| comp_old[p as int].push(t));
            let mut q: usize = 0;
            while q < alts.len()
                invariant
                    q <= alts@.len(),
                    p < possibilities@.len(),
                    signature_views(possibilities@) == comp_old,
                    signature_views(new_possibilities@) =~= new_start + row.take(q as int),
                decreases alts@.len() - q,
            {
                let mut sig = clone_types(&possibilities[p]);
                sig.push(alts[q].clone());
                proof {
                    assert(views_of(sig@) =~= comp_old[p as int].push(altv[q as int]));
                    assert(row[q as int] == comp_old[p as int].push(altv[q as int]));
                }
                new_possibilities.push(sig);
                proof {
                    assert(row.take(q as int + 1) =~= row.take(q as int).push(row[q as int]));
                    assert(signature_views(new_possibilities@) =~= (new_start + row.take(
                        q as int,
                    )).push(row[q as int]));
                    assert(signature_views(new_possibilities@) =~= new_start + row.take(
                        q as int + 1,
                    ));
                }
                q += 1;
            }
            proof {
                assert(row.take(altv.len() as int) =~= row);
                assert(comp_old.skip(p as int).drop_first() =~= comp_old.skip(p as int + 1));
                assert(comp_old.skip(p as int)[0] == comp_old[p as int]);
                assert(extend_all(comp_old.skip(p as int), altv) == row + extend_all(
                    comp_old.skip(p as int + 1),
                    altv,
                ));
                assert(new_start + row + extend_all(comp_old.skip(p as int + 1), altv)
                    =~= new_start + extend_all(comp_old.skip(p as int), altv));
            }
            p += 1;
        }
        proof {
            assert(comp_old.take(comp_old.len() as int) =~= comp_old);
            assert(comp_old.skip(comp_old.len() as int) =~= Seq::<Seq<TyView>>::empty());
            assert(extend_all(Seq::<Seq<TyView>>::empty(), altv) == Seq::<Seq<TyView>>::empty());
            assert(signature_views(new_possibilities@) + Seq::<Seq<TyView>>::empty()
                =~= signature_views(new_possibilities@));
            assert(signature_views(new_possibilities@) == extend_all(comp_old, altv));
            if optional {
                assert(signature_views(optional_possibilities@) =~= trunc_old + comp_old);
            }
            assert(expand_from(avs, k as int, trunc_old, comp_old) == expand_from(
                avs,
                k as int + 1,
                signature_views(optional_possibilities@),
                extend_all(comp_old, flat_view(avs[k as int].0)),
            ));
        }
        possibilities = new_possibilities;
        k += 1;
    }
    proof {
        assert(expand_from(
            avs,
            avs.len() as int,
            signature_views(optional_possibilities@),
            signature_views(possibilities@),
        ) == signature_views(optional_possibilities@) + signature_views(possibilities@));
    }
    let ghost trunc_final = signature_views(optional_possibilities@);
    let ghost comp_final = signature_views(possibilities@);
    let mut out = optional_possibilities;
    out.append(&mut possibilities);
    proof {
        assert(signature_views(out@) =~= trunc_final + comp_final);
    }
    out
}

} // verus!
