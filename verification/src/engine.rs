//! The comparison engine: the runtime meaning of a structural diff.
//!
//! Given a [`Shape`] and two conforming [`Value`]s, [`compare`] produces the
//! typed difference that the shape rules prescribe: records with no
//! comparable field never differ; a record with one comparable field wraps
//! that field's difference; a record with several comparable fields yields
//! the declaration-ordered entries of the fields that changed; variant
//! values of one case yield the per-field differences of that case, and
//! values of different cases yield the two descriptions.

use vstd::prelude::*;
use crate::protocol::{Changed, VariantChange};
use crate::schema::{FieldSchema, Shape, comparable_count, single_comparable, spec_comparable_count, spec_single_comparable};
use crate::value::{Value, ValueV, clone_value, conforms, lemma_size_list_bound, size_list, size_of, view_value, view_values};

verus! {

/// The model of one entry of a multi-field record difference: the
/// declaration-order position of the field and the field's own difference.
#[verifier::ext_equal]
pub struct FieldChangeV {
    pub index: int,
    pub change: ChangeV,
}

/// The model of a same-case variant difference: the case's position and one
/// comparison outcome per comparable field of the case, in declaration
/// order.
#[verifier::ext_equal]
pub struct CaseChangeV {
    pub case: int,
    pub fields: Seq<Changed<ChangeV>>,
}

/// The mathematical model of a difference.
#[verifier::ext_equal]
pub enum ChangeV {
    /// Two unequal leaves: the value of each side.
    Prim(u64, u64),
    /// The difference of a record's single comparable field.
    Wrapper(Box<ChangeV>),
    /// The entries of a multi-field record: only the fields that changed,
    /// in declaration order.
    Fields(Seq<FieldChangeV>),
    /// The difference of two variant values.
    Variant(VariantChange<ValueV, CaseChangeV>),
}

/// One entry of a multi-field record difference.
#[derive(Debug, PartialEq, Eq)]
pub struct FieldChange {
    pub index: usize,
    pub change: ChangeRep,
}

/// A same-case variant difference: the case's position and one comparison
/// outcome per comparable field of the case.
#[derive(Debug, PartialEq, Eq)]
pub struct CaseChange {
    pub case: usize,
    pub fields: Vec<Changed<ChangeRep>>,
}

/// A concrete difference, as [`compare`] returns it.
#[derive(Debug, PartialEq, Eq)]
pub enum ChangeRep {
    Prim(u64, u64),
    Wrapper(Box<ChangeRep>),
    Fields(Vec<FieldChange>),
    Variant(Box<VariantChange<Value, CaseChange>>),
}

/// The model of a concrete difference.
pub open spec fn view_change(c: ChangeRep) -> ChangeV
    decreases c,
{
    match c {
        ChangeRep::Prim(x, y) => ChangeV::Prim(x, y),
        ChangeRep::Wrapper(b) => ChangeV::Wrapper(Box::new(view_change(*b))),
        ChangeRep::Fields(entries) => ChangeV::Fields(view_entries(entries@)),
        ChangeRep::Variant(vc) => ChangeV::Variant(
            match *vc {
                VariantChange::SameCase(cc) => VariantChange::SameCase(
                    CaseChangeV { case: cc.case as int, fields: view_changed_list(cc.fields@) },
                ),
                VariantChange::DifferentCase(d1, d2) => VariantChange::DifferentCase(
                    view_value(d1),
                    view_value(d2),
                ),
            },
        ),
    }
}

/// The models of the entries of a multi-field record difference.
pub open spec fn view_entries(s: Seq<FieldChange>) -> Seq<FieldChangeV>
    decreases s,
{
    Seq::new(
        s.len(),
        |i: int|
            if 0 <= i < s.len() {
                FieldChangeV { index: s[i].index as int, change: view_change(s[i].change) }
            } else {
                FieldChangeV { index: 0, change: ChangeV::Prim(0, 0) }
            },
    )
}

/// The model of a comparison outcome.
pub open spec fn view_changed(c: Changed<ChangeRep>) -> Changed<ChangeV>
    decreases c,
{
    match c {
        Changed::Unchanged => Changed::Unchanged,
        Changed::Changed(cr) => Changed::Changed(view_change(cr)),
    }
}

/// The models of a list of comparison outcomes, position by position.
pub open spec fn view_changed_list(s: Seq<Changed<ChangeRep>>) -> Seq<Changed<ChangeV>>
    decreases s,
{
    Seq::new(
        s.len(),
        |i: int|
            if 0 <= i < s.len() {
                view_changed(s[i])
            } else {
                Changed::Unchanged
            },
    )
}

/// The description of a value: a record or leaf describes itself; a variant
/// value describes itself case for case, with ignored fields of the case
/// left out.
pub open spec fn spec_describe(s: Shape, v: ValueV) -> ValueV
    decreases v,
{
    match s {
        Shape::Leaf => v,
        Shape::Record(_) => v,
        Shape::Variant(cases) => match v {
            ValueV::Variant(c, vals) => if 0 <= c < cases@.len() {
                ValueV::Variant(c, desc_fields(cases@[c].fields@, vals))
            } else {
                v
            },
            _ => v,
        },
    }
}

/// The descriptions of a case's comparable field values, in declaration
/// order; ignored fields are left out.
pub open spec fn desc_fields(fields: Seq<FieldSchema>, vals: Seq<ValueV>) -> Seq<ValueV>
    decreases vals,
{
    if fields.len() == 0 || vals.len() == 0 {
        Seq::empty()
    } else {
        let rest = desc_fields(fields.drop_last(), vals.drop_last());
        if fields.last().ignored {
            rest
        } else {
            rest.push(spec_describe(fields.last().shape, vals.last()))
        }
    }
}

/// Every outcome of the list is `Unchanged`.
pub open spec fn all_unchanged(fc: Seq<Changed<ChangeV>>) -> bool {
    forall|i: int| 0 <= i < fc.len() ==> (#[trigger] fc[i]) is Unchanged
}

/// The entries of a multi-field record comparison: for each comparable
/// field whose comparison reports a change, one entry carrying the field's
/// position and that change, in declaration order.
pub open spec fn rec_changes(fields: Seq<FieldSchema>, av: Seq<ValueV>, bv: Seq<ValueV>) -> Seq<
    FieldChangeV,
>
    decreases av,
{
    if fields.len() == 0 || av.len() == 0 || bv.len() == 0 {
        Seq::empty()
    } else {
        let rest = rec_changes(fields.drop_last(), av.drop_last(), bv.drop_last());
        if fields.last().ignored {
            rest
        } else {
            match spec_compare(fields.last().shape, av.last(), bv.last()) {
                Changed::Unchanged => rest,
                Changed::Changed(c) => rest.push(
                    FieldChangeV { index: fields.len() - 1, change: c },
                ),
            }
        }
    }
}

/// The per-field outcomes of a same-case variant comparison: one outcome
/// per comparable field of the case, in declaration order; ignored fields
/// are left out.
pub open spec fn case_changes(fields: Seq<FieldSchema>, av: Seq<ValueV>, bv: Seq<ValueV>) -> Seq<
    Changed<ChangeV>,
>
    decreases av,
{
    if fields.len() == 0 || av.len() == 0 || bv.len() == 0 {
        Seq::empty()
    } else {
        let rest = case_changes(fields.drop_last(), av.drop_last(), bv.drop_last());
        if fields.last().ignored {
            rest
        } else {
            rest.push(spec_compare(fields.last().shape, av.last(), bv.last()))
        }
    }
}

/// The comparison of two values of one shape.
///
/// Leaves differ by value.  A record compares field by field: with no
/// comparable field it never differs; with one, the field's change is
/// wrapped; with several, the changed fields' entries are collected and an
/// empty collection means no difference.  Variant values of one case
/// compare field by field and report `SameCase` when any field differs;
/// values of different cases report the two descriptions.  Two values of
/// one ignored case compare as unchanged, since no comparable field
/// differs.
pub open spec fn spec_compare(s: Shape, a: ValueV, b: ValueV) -> Changed<ChangeV>
    decreases a,
{
    match s {
        Shape::Leaf => if a == b {
            Changed::Unchanged
        } else {
            match (a, b) {
                (ValueV::Leaf(x), ValueV::Leaf(y)) => Changed::Changed(ChangeV::Prim(x, y)),
                _ => Changed::Unchanged,
            }
        },
        Shape::Record(fields) => match (a, b) {
            (ValueV::Record(av), ValueV::Record(bv)) => {
                let n = spec_comparable_count(fields@);
                if n == 0 {
                    Changed::Unchanged
                } else if n == 1 {
                    let k = spec_single_comparable(fields@);
                    if 0 <= k < av.len() && k < bv.len() {
                        match spec_compare(fields@[k].shape, av[k], bv[k]) {
                            Changed::Unchanged => Changed::Unchanged,
                            Changed::Changed(c) => Changed::Changed(
                                ChangeV::Wrapper(Box::new(c)),
                            ),
                        }
                    } else {
                        Changed::Unchanged
                    }
                } else {
                    let entries = rec_changes(fields@, av, bv);
                    if entries.len() == 0 {
                        Changed::Unchanged
                    } else {
                        Changed::Changed(ChangeV::Fields(entries))
                    }
                }
            },
            _ => Changed::Unchanged,
        },
        Shape::Variant(cases) => match (a, b) {
            (ValueV::Variant(ca, av), ValueV::Variant(cb, bv)) => {
                if ca == cb {
                    if 0 <= ca < cases@.len() && !cases@[ca].ignored {
                        let fc = case_changes(cases@[ca].fields@, av, bv);
                        if all_unchanged(fc) {
                            Changed::Unchanged
                        } else {
                            Changed::Changed(
                                ChangeV::Variant(
                                    VariantChange::SameCase(CaseChangeV { case: ca, fields: fc }),
                                ),
                            )
                        }
                    } else {
                        Changed::Unchanged
                    }
                } else {
                    Changed::Changed(
                        ChangeV::Variant(
                            VariantChange::DifferentCase(spec_describe(s, a), spec_describe(s, b)),
                        ),
                    )
                }
            },
            _ => Changed::Unchanged,
        },
    }
}

/// Stepping a prefix: one element longer means one element appended.
proof fn lemma_prefix_step<T>(s: Seq<T>, i: int)
    requires
        0 <= i < s.len(),
    ensures
        s.subrange(0, i + 1).drop_last() =~= s.subrange(0, i),
        s.subrange(0, i + 1).last() == s[i],
{
}

/// The full prefix of a sequence is the sequence.
proof fn lemma_prefix_full<T>(s: Seq<T>)
    ensures
        s.subrange(0, s.len() as int) =~= s,
{
}

/// The model list of a pushed outcome list is the pushed model list.
proof fn lemma_view_changed_list_push(s: Seq<Changed<ChangeRep>>, c: Changed<ChangeRep>)
    ensures
        view_changed_list(s.push(c)) =~= view_changed_list(s).push(view_changed(c)),
{
    assert forall|i: int|
        0 <= i < s.len() + 1 implies view_changed_list(s.push(c))[i] == view_changed_list(s).push(
        view_changed(c),
    )[i] by {
        if i < s.len() {
            assert(s.push(c)[i] == s[i]);
        } else {
            assert(s.push(c)[i] == c);
        }
    }
}

/// The model list of a pushed entry list is the pushed model list.
proof fn lemma_view_entries_push(s: Seq<FieldChange>, e: FieldChange)
    ensures
        view_entries(s.push(e)) =~= view_entries(s).push(
            FieldChangeV { index: e.index as int, change: view_change(e.change) },
        ),
{
    assert forall|i: int|
        0 <= i < s.len() + 1 implies view_entries(s.push(e))[i] == view_entries(s).push(
        FieldChangeV { index: e.index as int, change: view_change(e.change) },
    )[i] by {
        if i < s.len() {
            assert(s.push(e)[i] == s[i]);
        } else {
            assert(s.push(e)[i] == e);
        }
    }
}

/// A pushed outcome list is all unchanged exactly when the list was and the
/// new outcome is.
proof fn lemma_all_unchanged_push(s: Seq<Changed<ChangeV>>, x: Changed<ChangeV>)
    ensures
        all_unchanged(s.push(x)) == (all_unchanged(s) && x is Unchanged),
{
    if all_unchanged(s) && x is Unchanged {
        assert forall|i: int| 0 <= i < s.push(x).len() implies (#[trigger] s.push(x)[i]) is Unchanged by {
            if i < s.len() {
                assert(s.push(x)[i] == s[i]);
            } else {
                assert(s.push(x)[i] == x);
            }
        }
    }
    if all_unchanged(s.push(x)) {
        assert(s.push(x)[s.len() as int] == x);
        assert forall|i: int| 0 <= i < s.len() implies (#[trigger] s[i]) is Unchanged by {
            assert(s.push(x)[i] == s[i]);
        }
    }
}

/// The description of a value, as a fresh value owned by the caller.
pub fn describe(s: &Shape, v: &Value) -> (r: Value)
    requires
        conforms(v@, *s),
    ensures
        r@ == spec_describe(*s, v@),
    decreases size_of(*v),
{
    match s {
        Shape::Leaf => clone_value(v),
        Shape::Record(_) => clone_value(v),
        Shape::Variant(cases) => match v {
            Value::Variant(c, vals) => {
                proof {
                    assert(v@ == ValueV::Variant(*c as int, view_values(vals@)));
                    assert(size_of(*v) == 1 + size_list(vals@));
                }
                let ghost fs = cases@[*c as int].fields@;
                let ghost vv = view_values(vals@);
                let case_fields = &cases[*c].fields;
                let mut out: Vec<Value> = Vec::new();
                let mut i: usize = 0;
                while i < vals.len()
                    invariant
                        i <= vals@.len(),
                        conforms(v@, *s),
                        v@ == ValueV::Variant(*c as int, vv),
                        *s == Shape::Variant(*cases),
                        0 <= (*c as int) < cases@.len(),
                        fs == cases@[*c as int].fields@,
                        case_fields@ == fs,
                        vv == view_values(vals@),
                        vv.len() == vals@.len(),
                        fs.len() == vals@.len(),
                        size_of(*v) == 1 + size_list(vals@),
                        view_values(out@) == desc_fields(
                            fs.subrange(0, i as int),
                            vv.subrange(0, i as int),
                        ),
                    decreases vals@.len() - i,
                {
                    proof {
                        lemma_prefix_step(fs, i as int);
                        lemma_prefix_step(vv, i as int);
                        assert(vv[i as int] == view_value(vals@[i as int]));
                        assert(conforms(vv[i as int], fs[i as int].shape));
                    }
                    if !case_fields[i].ignored {
                        let ghost old_out = out@;
                        proof {
                            lemma_size_list_bound(vals@, i as int);
                            assert(size_of(*v) == 1 + size_list(vals@));
                        }
                        let d = describe(&case_fields[i].shape, &vals[i]);
                        out.push(d);
                        proof {
                            assert forall|j: int|
                                0 <= j < old_out.len() + 1 implies view_values(out@)[j]
                                == view_values(old_out).push(view_value(d))[j] by {
                                if j < old_out.len() {
                                    assert(out@[j] == old_out[j]);
                                } else {
                                    assert(out@[j] == d);
                                }
                            }
                            assert(view_values(out@) =~= view_values(old_out).push(view_value(d)));
                        }
                    }
                    i = i + 1;
                }
                proof {
                    lemma_prefix_full(fs);
                    lemma_prefix_full(vv);
                }
                let r = Value::Variant(*c, out);
                proof {
                    assert(r@ =~= spec_describe(*s, v@));
                }
                r
            },
            _ => {
                proof {
                    assert(false);
                }
                clone_value(v)
            },
        },
    }
}

/// Compare two conforming values of one shape; the result is exactly what
/// [`spec_compare`] prescribes.
pub fn compare(s: &Shape, a: &Value, b: &Value) -> (r: Changed<ChangeRep>)
    requires
        conforms(a@, *s),
        conforms(b@, *s),
    ensures
        view_changed(r) == spec_compare(*s, a@, b@),
    decreases size_of(*a),
{
    match s {
        Shape::Leaf => match (a, b) {
            (Value::Leaf(x), Value::Leaf(y)) => {
                if *x == *y {
                    Changed::Unchanged
                } else {
                    Changed::Changed(ChangeRep::Prim(*x, *y))
                }
            },
            _ => {
                proof {
                    assert(false);
                }
                Changed::Unchanged
            },
        },
        Shape::Record(fields) => match (a, b) {
            (Value::Record(av), Value::Record(bv)) => {
                proof {
                    assert(a@ == ValueV::Record(view_values(av@)));
                    assert(b@ == ValueV::Record(view_values(bv@)));
                    assert(size_of(*a) == 1 + size_list(av@));
                }
                let ghost avv = view_values(av@);
                let ghost bvv = view_values(bv@);
                let n = comparable_count(fields);
                if n == 0 {
                    Changed::Unchanged
                } else if n == 1 {
                    let k = single_comparable(fields);
                    proof {
                        lemma_size_list_bound(av@, k as int);
                        assert(avv[k as int] == view_value(av@[k as int]));
                        assert(bvv[k as int] == view_value(bv@[k as int]));
                        assert(conforms(avv[k as int], fields@[k as int].shape));
                        assert(conforms(bvv[k as int], fields@[k as int].shape));
                    }
                    let inner = compare(&fields[k].shape, &av[k], &bv[k]);
                    match inner {
                        Changed::Unchanged => Changed::Unchanged,
                        Changed::Changed(c) => Changed::Changed(
                            ChangeRep::Wrapper(Box::new(c)),
                        ),
                    }
                } else {
                    let mut entries: Vec<FieldChange> = Vec::new();
                    let mut i: usize = 0;
                    while i < fields.len()
                        invariant
                            i <= fields@.len(),
                            conforms(a@, *s),
                            conforms(b@, *s),
                            *s == Shape::Record(*fields),
                            a@ == ValueV::Record(avv),
                            b@ == ValueV::Record(bvv),
                            avv == view_values(av@),
                            bvv == view_values(bv@),
                            avv.len() == fields@.len(),
                            bvv.len() == fields@.len(),
                            av@.len() == fields@.len(),
                            bv@.len() == fields@.len(),
                            size_of(*a) == 1 + size_list(av@),
                            view_entries(entries@) == rec_changes(
                                fields@.subrange(0, i as int),
                                avv.subrange(0, i as int),
                                bvv.subrange(0, i as int),
                            ),
                        decreases fields@.len() - i,
                    {
                        proof {
                            lemma_prefix_step(fields@, i as int);
                            lemma_prefix_step(avv, i as int);
                            lemma_prefix_step(bvv, i as int);
                            assert(avv[i as int] == view_value(av@[i as int]));
                            assert(bvv[i as int] == view_value(bv@[i as int]));
                            assert(conforms(avv[i as int], fields@[i as int].shape));
                            assert(conforms(bvv[i as int], fields@[i as int].shape));
                            lemma_size_list_bound(av@, i as int);
                        }
                        if !fields[i].ignored {
                            let c = compare(&fields[i].shape, &av[i], &bv[i]);
                            match c {
                                Changed::Unchanged => {},
                                Changed::Changed(cr) => {
                                    let ghost old_entries = entries@;
                                    let ghost crv = view_change(cr);
                                    entries.push(FieldChange { index: i, change: cr });
                                    proof {
                                        lemma_view_entries_push(
                                            old_entries,
                                            FieldChange { index: i, change: cr },
                                        );
                                        assert(view_entries(entries@) =~= view_entries(
                                            old_entries,
                                        ).push(FieldChangeV { index: i as int, change: crv }));
                                    }
                                },
                            }
                        }
                        i = i + 1;
                    }
                    proof {
                        lemma_prefix_full(fields@);
                        lemma_prefix_full(avv);
                        lemma_prefix_full(bvv);
                        assert(view_entries(entries@).len() == entries@.len());
                    }
                    if entries.len() == 0 {
                        Changed::Unchanged
                    } else {
                        Changed::Changed(ChangeRep::Fields(entries))
                    }
                }
            },
            _ => {
                proof {
                    assert(false);
                }
                Changed::Unchanged
            },
        },
        Shape::Variant(cases) => match (a, b) {
            (Value::Variant(ca, av), Value::Variant(cb, bv)) => {
                proof {
                    assert(a@ == ValueV::Variant(*ca as int, view_values(av@)));
                    assert(b@ == ValueV::Variant(*cb as int, view_values(bv@)));
                    assert(size_of(*a) == 1 + size_list(av@));
                }
                let ghost avv = view_values(av@);
                let ghost bvv = view_values(bv@);
                if *ca == *cb {
                    if cases[*ca].ignored {
                        Changed::Unchanged
                    } else {
                        let ghost fs = cases@[*ca as int].fields@;
                        let case_fields = &cases[*ca].fields;
                        let mut fc: Vec<Changed<ChangeRep>> = Vec::new();
                        let mut all_un: bool = true;
                        let mut i: usize = 0;
                        while i < case_fields.len()
                            invariant
                                i <= fs.len(),
                                conforms(a@, *s),
                                conforms(b@, *s),
                                *s == Shape::Variant(*cases),
                                a@ == ValueV::Variant(*ca as int, avv),
                                b@ == ValueV::Variant(*ca as int, bvv),
                                0 <= (*ca as int) < cases@.len(),
                                fs == cases@[*ca as int].fields@,
                                case_fields@ == fs,
                                avv == view_values(av@),
                                bvv == view_values(bv@),
                                avv.len() == fs.len(),
                                bvv.len() == fs.len(),
                                av@.len() == fs.len(),
                                bv@.len() == fs.len(),
                                size_of(*a) == 1 + size_list(av@),
                                view_changed_list(fc@) == case_changes(
                                    fs.subrange(0, i as int),
                                    avv.subrange(0, i as int),
                                    bvv.subrange(0, i as int),
                                ),
                                all_un == all_unchanged(view_changed_list(fc@)),
                            decreases fs.len() - i,
                        {
                            proof {
                                lemma_prefix_step(fs, i as int);
                                lemma_prefix_step(avv, i as int);
                                lemma_prefix_step(bvv, i as int);
                                assert(avv[i as int] == view_value(av@[i as int]));
                                assert(bvv[i as int] == view_value(bv@[i as int]));
                                assert(conforms(avv[i as int], fs[i as int].shape));
                                assert(conforms(bvv[i as int], fs[i as int].shape));
                                lemma_size_list_bound(av@, i as int);
                            }
                            if !case_fields[i].ignored {
                                let c = compare(&case_fields[i].shape, &av[i], &bv[i]);
                                let ghost old_fc = fc@;
                                let ghost cv = view_changed(c);
                                match &c {
                                    Changed::Unchanged => {},
                                    Changed::Changed(_) => {
                                        all_un = false;
                                    },
                                }
                                fc.push(c);
                                proof {
                                    lemma_view_changed_list_push(old_fc, fc@.last());
                                    assert(view_changed_list(fc@) =~= view_changed_list(
                                        old_fc,
                                    ).push(cv));
                                    lemma_all_unchanged_push(view_changed_list(old_fc), cv);
                                }
                            }
                            i = i + 1;
                        }
                        proof {
                            lemma_prefix_full(fs);
                            lemma_prefix_full(avv);
                            lemma_prefix_full(bvv);
                        }
                        if all_un {
                            Changed::Unchanged
                        } else {
                            Changed::Changed(
                                ChangeRep::Variant(
                                    Box::new(
                                        VariantChange::SameCase(
                                            CaseChange { case: *ca, fields: fc },
                                        ),
                                    ),
                                ),
                            )
                        }
                    }
                } else {
                    let da = describe(s, a);
                    let db = describe(s, b);
                    Changed::Changed(
                        ChangeRep::Variant(Box::new(VariantChange::DifferentCase(da, db))),
                    )
                }
            },
            _ => {
                proof {
                    assert(false);
                }
                Changed::Unchanged
            },
        },
    }
}

} // verus!
