//! General laws of the comparison engine, proved once and for all shapes.
//!
//! The central notion is [`agrees`]: two values agree when every comparable
//! part is equal — ignored fields may differ freely, and two values of one
//! ignored case always agree.  [`lemma_unchanged_iff_agrees`] shows that a
//! comparison reports `Unchanged` exactly on agreeing values; reflexivity,
//! the empty-record law and the invisibility of ignored fields follow.

use vstd::prelude::*;
use crate::protocol::{Changed, VariantChange};
use crate::schema::{CaseSchema, FieldSchema, Shape, lemma_comparable_zero_all_ignored, lemma_single_comparable, spec_comparable_count, spec_single_comparable};
use crate::value::{ValueV, conforms};
use crate::engine::{CaseChangeV, ChangeV, FieldChangeV, all_unchanged, case_changes, desc_fields, rec_changes, spec_compare, spec_describe};

verus! {

/// Two values of one shape agree: equal leaves; records equal on every
/// comparable field; variant values of one case, fields equal wherever the
/// case is comparable at all.
pub open spec fn agrees(s: Shape, a: ValueV, b: ValueV) -> bool
    decreases a,
{
    match s {
        Shape::Leaf => a == b,
        Shape::Record(fields) => match (a, b) {
            (ValueV::Record(av), ValueV::Record(bv)) => fields_agree(fields@, av, bv),
            _ => true,
        },
        Shape::Variant(cases) => match (a, b) {
            (ValueV::Variant(ca, av), ValueV::Variant(cb, bv)) => ca == cb && (!(0 <= ca
                < cases@.len()) || cases@[ca].ignored || fields_agree(
                cases@[ca].fields@,
                av,
                bv,
            )),
            _ => true,
        },
    }
}

/// The values of a field list agree on every comparable field.
pub open spec fn fields_agree(fields: Seq<FieldSchema>, av: Seq<ValueV>, bv: Seq<ValueV>) -> bool
    decreases av,
{
    if fields.len() == 0 || av.len() == 0 || bv.len() == 0 {
        true
    } else {
        fields_agree(fields.drop_last(), av.drop_last(), bv.drop_last()) && (
        fields.last().ignored || agrees(fields.last().shape, av.last(), bv.last()))
    }
}

/// Agreement on a field list is agreement field by field.
pub proof fn lemma_fields_agree_pointwise(fields: Seq<FieldSchema>, av: Seq<ValueV>, bv: Seq<ValueV>)
    requires
        av.len() == fields.len(),
        bv.len() == fields.len(),
    ensures
        fields_agree(fields, av, bv) <==> (forall|i: int|
            0 <= i < fields.len() && !fields[i].ignored ==> #[trigger] agrees(
                fields[i].shape,
                av[i],
                bv[i],
            )),
    decreases av,
{
    if fields.len() == 0 {
    } else {
        lemma_fields_agree_pointwise(fields.drop_last(), av.drop_last(), bv.drop_last());
        let k = fields.len() - 1;
        if fields_agree(fields, av, bv) {
            assert forall|i: int|
                0 <= i < fields.len() && !fields[i].ignored implies #[trigger] agrees(
                fields[i].shape,
                av[i],
                bv[i],
            ) by {
                if i < k {
                    assert(fields.drop_last()[i] == fields[i]);
                    assert(av.drop_last()[i] == av[i]);
                    assert(bv.drop_last()[i] == bv[i]);
                    assert(agrees(fields.drop_last()[i].shape, av.drop_last()[i], bv.drop_last()[i]));
                } else {
                    assert(fields.last() == fields[k]);
                }
            }
        }
        if forall|i: int|
            0 <= i < fields.len() && !fields[i].ignored ==> #[trigger] agrees(
                fields[i].shape,
                av[i],
                bv[i],
            ) {
            assert forall|i: int|
                0 <= i < fields.drop_last().len() && !fields.drop_last()[i].ignored implies #[trigger] agrees(
                fields.drop_last()[i].shape,
                av.drop_last()[i],
                bv.drop_last()[i],
            ) by {
                assert(fields.drop_last()[i] == fields[i]);
                assert(av.drop_last()[i] == av[i]);
                assert(bv.drop_last()[i] == bv[i]);
                assert(agrees(fields[i].shape, av[i], bv[i]));
            }
            if !fields[k].ignored {
                assert(agrees(fields[k].shape, av[k], bv[k]));
                assert(fields.last() == fields[k] && av.last() == av[k] && bv.last() == bv[k]);
            }
        }
    }
}

/// Every value agrees with itself.
pub proof fn lemma_agrees_reflexive(s: Shape, v: ValueV)
    ensures
        agrees(s, v, v),
    decreases v,
{
    match (s, v) {
        (Shape::Record(fields), ValueV::Record(av)) => {
            lemma_fields_agree_reflexive(fields@, av);
        },
        (Shape::Variant(cases), ValueV::Variant(ca, av)) => {
            if 0 <= ca < cases@.len() && !cases@[ca].ignored {
                lemma_fields_agree_reflexive(cases@[ca].fields@, av);
            }
        },
        _ => {},
    }
}

/// Every field list agrees with itself.
proof fn lemma_fields_agree_reflexive(fields: Seq<FieldSchema>, av: Seq<ValueV>)
    ensures
        fields_agree(fields, av, av),
    decreases av,
{
    if fields.len() == 0 || av.len() == 0 {
    } else {
        lemma_fields_agree_reflexive(fields.drop_last(), av.drop_last());
        if !fields.last().ignored {
            lemma_agrees_reflexive(fields.last().shape, av.last());
        }
    }
}

/// Helper: the entry list of a multi-field comparison is empty exactly when
/// every comparable field agrees.
proof fn lemma_rec_changes_empty_iff(fields: Seq<FieldSchema>, av: Seq<ValueV>, bv: Seq<ValueV>)
    requires
        av.len() == fields.len(),
        bv.len() == fields.len(),
        forall|i: int| 0 <= i < fields.len() ==> conforms(#[trigger] av[i], fields[i].shape),
        forall|i: int| 0 <= i < fields.len() ==> conforms(#[trigger] bv[i], fields[i].shape),
    ensures
        rec_changes(fields, av, bv).len() == 0 <==> fields_agree(fields, av, bv),
    decreases av,
{
    if fields.len() == 0 {
    } else {
        assert forall|i: int| 0 <= i < fields.len() - 1 implies conforms(
            #[trigger] av.drop_last()[i],
            fields.drop_last()[i].shape,
        ) && conforms(bv.drop_last()[i], fields.drop_last()[i].shape) by {
            assert(av.drop_last()[i] == av[i]);
            assert(bv.drop_last()[i] == bv[i]);
            assert(fields.drop_last()[i] == fields[i]);
        }
        lemma_rec_changes_empty_iff(fields.drop_last(), av.drop_last(), bv.drop_last());
        let k = fields.len() - 1;
        if !fields[k].ignored {
            assert(av.last() == av[k] && bv.last() == bv[k] && fields.last() == fields[k]);
            lemma_unchanged_iff_agrees(fields[k].shape, av[k], bv[k]);
        }
    }
}

/// Helper: every outcome of a same-case comparison is `Unchanged` exactly
/// when every comparable field of the case agrees.
proof fn lemma_case_changes_all_iff(fields: Seq<FieldSchema>, av: Seq<ValueV>, bv: Seq<ValueV>)
    requires
        av.len() == fields.len(),
        bv.len() == fields.len(),
        forall|i: int| 0 <= i < fields.len() ==> conforms(#[trigger] av[i], fields[i].shape),
        forall|i: int| 0 <= i < fields.len() ==> conforms(#[trigger] bv[i], fields[i].shape),
    ensures
        all_unchanged(case_changes(fields, av, bv)) <==> fields_agree(fields, av, bv),
    decreases av,
{
    if fields.len() == 0 {
        assert(all_unchanged(case_changes(fields, av, bv)));
    } else {
        assert forall|i: int| 0 <= i < fields.len() - 1 implies conforms(
            #[trigger] av.drop_last()[i],
            fields.drop_last()[i].shape,
        ) && conforms(bv.drop_last()[i], fields.drop_last()[i].shape) by {
            assert(av.drop_last()[i] == av[i]);
            assert(bv.drop_last()[i] == bv[i]);
            assert(fields.drop_last()[i] == fields[i]);
        }
        lemma_case_changes_all_iff(fields.drop_last(), av.drop_last(), bv.drop_last());
        let k = fields.len() - 1;
        let rest = case_changes(fields.drop_last(), av.drop_last(), bv.drop_last());
        if !fields[k].ignored {
            assert(av.last() == av[k] && bv.last() == bv[k] && fields.last() == fields[k]);
            lemma_unchanged_iff_agrees(fields[k].shape, av[k], bv[k]);
            let x = spec_compare(fields[k].shape, av[k], bv[k]);
            assert(case_changes(fields, av, bv) == rest.push(x));
            assert(all_unchanged(rest.push(x)) == (all_unchanged(rest) && x is Unchanged)) by {
                if all_unchanged(rest) && x is Unchanged {
                    assert forall|i: int|
                        0 <= i < rest.push(x).len() implies (#[trigger] rest.push(x)[i]) is Unchanged by {
                        if i < rest.len() {
                            assert(rest.push(x)[i] == rest[i]);
                        } else {
                            assert(rest.push(x)[i] == x);
                        }
                    }
                }
                if all_unchanged(rest.push(x)) {
                    assert(rest.push(x)[rest.len() as int] == x);
                    assert forall|i: int| 0 <= i < rest.len() implies (#[trigger] rest[i]) is Unchanged by {
                        assert(rest.push(x)[i] == rest[i]);
                    }
                }
            }
        }
    }
}

/// A comparison reports `Unchanged` exactly when the two values agree:
/// every recursively compared field reports no change — records and variant
/// values alike — and values of different cases never do.
pub proof fn lemma_unchanged_iff_agrees(s: Shape, a: ValueV, b: ValueV)
    requires
        conforms(a, s),
        conforms(b, s),
    ensures
        (spec_compare(s, a, b) is Unchanged) <==> agrees(s, a, b),
    decreases a,
{
    match (s, a, b) {
        (Shape::Record(fields), ValueV::Record(av), ValueV::Record(bv)) => {
            let n = spec_comparable_count(fields@);
            lemma_fields_agree_pointwise(fields@, av, bv);
            if n == 0 {
                lemma_comparable_zero_all_ignored(fields@);
            } else if n == 1 {
                let k = spec_single_comparable(fields@);
                lemma_single_comparable(fields@);
                lemma_unchanged_iff_agrees(fields@[k].shape, av[k], bv[k]);
                if agrees(fields@[k].shape, av[k], bv[k]) {
                    assert forall|i: int|
                        0 <= i < fields@.len() && !fields@[i].ignored implies #[trigger] agrees(
                        fields@[i].shape,
                        av[i],
                        bv[i],
                    ) by {}
                }
            } else {
                lemma_rec_changes_empty_iff(fields@, av, bv);
            }
        },
        (Shape::Variant(cases), ValueV::Variant(ca, av), ValueV::Variant(cb, bv)) => {
            if ca == cb && !cases@[ca].ignored {
                lemma_case_changes_all_iff(cases@[ca].fields@, av, bv);
            }
        },
        _ => {},
    }
}

/// Reflexivity: a value compared against itself reports no change, for
/// every shape it conforms to.
pub proof fn lemma_compare_reflexive(s: Shape, v: ValueV)
    requires
        conforms(v, s),
    ensures
        spec_compare(s, v, v) == Changed::<ChangeV>::Unchanged,
{
    lemma_agrees_reflexive(s, v);
    lemma_unchanged_iff_agrees(s, v, v);
}

/// A record with no comparable field compares as unchanged, for any two
/// conforming instances.
pub proof fn lemma_empty_record(fields: Vec<FieldSchema>, a: ValueV, b: ValueV)
    requires
        spec_comparable_count(fields@) == 0,
    ensures
        spec_compare(Shape::Record(fields), a, b) == Changed::<ChangeV>::Unchanged,
{
}

/// A value differing from another only in ignored fields compares as
/// unchanged: ignored fields take no part in comparison.
pub proof fn lemma_ignored_fields_invisible(fields: Vec<FieldSchema>, a: ValueV, b: ValueV)
    requires
        conforms(a, Shape::Record(fields)),
        conforms(b, Shape::Record(fields)),
        forall|i: int|
            0 <= i < fields@.len() && !fields@[i].ignored ==> a->Record_0[i] == b->Record_0[i],
    ensures
        spec_compare(Shape::Record(fields), a, b) == Changed::<ChangeV>::Unchanged,
{
    let av = a->Record_0;
    let bv = b->Record_0;
    assert forall|i: int|
        0 <= i < fields@.len() && !fields@[i].ignored implies #[trigger] agrees(
        fields@[i].shape,
        av[i],
        bv[i],
    ) by {
        lemma_agrees_reflexive(fields@[i].shape, av[i]);
    }
    lemma_fields_agree_pointwise(fields@, av, bv);
    lemma_unchanged_iff_agrees(Shape::Record(fields), a, b);
}

/// Values of different cases always yield the two descriptions, whatever
/// the fields hold.
pub proof fn lemma_cross_case(s: Shape, a: ValueV, b: ValueV)
    requires
        s is Variant,
        a is Variant,
        b is Variant,
        a->Variant_0 != b->Variant_0,
    ensures
        spec_compare(s, a, b) == Changed::Changed(
            ChangeV::Variant(
                VariantChange::DifferentCase(spec_describe(s, a), spec_describe(s, b)),
            ),
        ),
{
}

/// Single-field propagation: a record with one comparable field reports
/// exactly what that field reports, wrapped.
pub proof fn lemma_single_field(fields: Vec<FieldSchema>, a: ValueV, b: ValueV)
    requires
        spec_comparable_count(fields@) == 1,
        conforms(a, Shape::Record(fields)),
        conforms(b, Shape::Record(fields)),
    ensures
        ({
            let k = spec_single_comparable(fields@);
            let inner = spec_compare(fields@[k].shape, a->Record_0[k], b->Record_0[k]);
            spec_compare(Shape::Record(fields), a, b) == match inner {
                Changed::Unchanged => Changed::<ChangeV>::Unchanged,
                Changed::Changed(c) => Changed::Changed(ChangeV::Wrapper(Box::new(c))),
            }
        }),
{
    lemma_single_comparable(fields@);
}

/// Sequence fidelity: the entries of a multi-field record comparison name
/// exactly the comparable fields whose comparison reports a change, each
/// entry carrying that field's own change, in strictly increasing
/// declaration order.
pub proof fn lemma_record_entries(fields: Seq<FieldSchema>, av: Seq<ValueV>, bv: Seq<ValueV>)
    requires
        av.len() == fields.len(),
        bv.len() == fields.len(),
    ensures
        ({
            let entries = rec_changes(fields, av, bv);
            &&& forall|j1: int, j2: int|
                0 <= j1 < j2 < entries.len() ==> (#[trigger] entries[j1]).index
                    < (#[trigger] entries[j2]).index
            &&& forall|j: int|
                0 <= j < entries.len() ==> {
                    let k = (#[trigger] entries[j]).index;
                    &&& 0 <= k < fields.len()
                    &&& !fields[k].ignored
                    &&& spec_compare(fields[k].shape, av[k], bv[k]) == Changed::Changed(
                        entries[j].change,
                    )
                }
            &&& forall|k: int|
                0 <= k < fields.len() && !fields[k].ignored && !(spec_compare(
                    #[trigger] fields[k].shape,
                    av[k],
                    bv[k],
                ) is Unchanged) ==> exists|j: int|
                    0 <= j < entries.len() && (#[trigger] entries[j]).index == k
        }),
    decreases av,
{
    if fields.len() == 0 {
    } else {
        lemma_record_entries(fields.drop_last(), av.drop_last(), bv.drop_last());
        let k = fields.len() - 1;
        let rest = rec_changes(fields.drop_last(), av.drop_last(), bv.drop_last());
        let entries = rec_changes(fields, av, bv);
        assert(av.last() == av[k] && bv.last() == bv[k] && fields.last() == fields[k]);
        assert forall|i: int| 0 <= i < fields.len() - 1 implies #[trigger] fields.drop_last()[i]
            == fields[i] && av.drop_last()[i] == av[i] && bv.drop_last()[i] == bv[i] by {}
        if !fields[k].ignored && !(spec_compare(fields[k].shape, av[k], bv[k]) is Unchanged) {
            let c = spec_compare(fields[k].shape, av[k], bv[k])->Changed_0;
            assert(entries == rest.push(FieldChangeV { index: k, change: c }));
            assert forall|j: int| 0 <= j < entries.len() implies #[trigger] entries[j] == (if j
                < rest.len() {
                rest[j]
            } else {
                FieldChangeV { index: k, change: c }
            }) by {}
            assert forall|kk: int|
                0 <= kk < fields.len() && !fields[kk].ignored && !(spec_compare(
                    #[trigger] fields[kk].shape,
                    av[kk],
                    bv[kk],
                ) is Unchanged) implies exists|j: int|
                0 <= j < entries.len() && (#[trigger] entries[j]).index == kk by {
                if kk < k {
                    assert(!(spec_compare(fields.drop_last()[kk].shape, av.drop_last()[kk], bv.drop_last()[kk]) is Unchanged));
                    let j = choose|j: int| 0 <= j < rest.len() && (#[trigger] rest[j]).index == kk;
                    assert(entries[j].index == kk);
                } else {
                    assert(entries[entries.len() - 1].index == kk);
                }
            }
        } else {
            assert(entries == rest);
            assert forall|kk: int|
                0 <= kk < fields.len() && !fields[kk].ignored && !(spec_compare(
                    #[trigger] fields[kk].shape,
                    av[kk],
                    bv[kk],
                ) is Unchanged) implies exists|j: int|
                0 <= j < entries.len() && (#[trigger] entries[j]).index == kk by {
                assert(kk < k || fields[kk].ignored || spec_compare(fields[kk].shape, av[kk], bv[kk]) is Unchanged);
                assert(!(spec_compare(fields.drop_last()[kk].shape, av.drop_last()[kk], bv.drop_last()[kk]) is Unchanged));
                let j = choose|j: int| 0 <= j < rest.len() && (#[trigger] rest[j]).index == kk;
                assert(entries[j].index == kk);
            }
        }
    }
}

/// Same-case variant comparison: two values of one comparable case report
/// the per-field outcomes of that case, as `SameCase`, unless every
/// outcome is `Unchanged`.
pub proof fn lemma_same_case(cases: Vec<CaseSchema>, a: ValueV, b: ValueV)
    requires
        a is Variant,
        b is Variant,
        a->Variant_0 == b->Variant_0,
        conforms(a, Shape::Variant(cases)),
        !cases@[a->Variant_0].ignored,
    ensures
        ({
            let fc = case_changes(cases@[a->Variant_0].fields@, a->Variant_1, b->Variant_1);
            spec_compare(Shape::Variant(cases), a, b) == if all_unchanged(fc) {
                Changed::<ChangeV>::Unchanged
            } else {
                Changed::Changed(
                    ChangeV::Variant(
                        VariantChange::SameCase(
                            CaseChangeV { case: a->Variant_0, fields: fc },
                        ),
                    ),
                )
            }
        }),
{
}

/// The outcomes of a same-case comparison are exactly one per comparable
/// field of the case.
pub proof fn lemma_case_changes_len(fields: Seq<FieldSchema>, av: Seq<ValueV>, bv: Seq<ValueV>)
    requires
        av.len() == fields.len(),
        bv.len() == fields.len(),
    ensures
        case_changes(fields, av, bv).len() == spec_comparable_count(fields),
    decreases av,
{
    if fields.len() == 0 {
    } else {
        lemma_case_changes_len(fields.drop_last(), av.drop_last(), bv.drop_last());
    }
}

/// A case's description carries exactly one value per comparable field:
/// ignored fields are absent from it.
pub proof fn lemma_desc_fields_len(fields: Seq<FieldSchema>, vals: Seq<ValueV>)
    requires
        vals.len() == fields.len(),
    ensures
        desc_fields(fields, vals).len() == spec_comparable_count(fields),
    decreases vals,
{
    if fields.len() == 0 {
    } else {
        lemma_desc_fields_len(fields.drop_last(), vals.drop_last());
    }
}

} // verus!
