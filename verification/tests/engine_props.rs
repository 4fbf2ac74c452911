use delta_synth::engine::{compare, describe, CaseChange, ChangeRep, FieldChange};
use delta_synth::protocol::{Changed, VariantChange};
use delta_synth::schema::{CaseSchema, FieldSchema, Shape};
use delta_synth::value::Value;

fn field(shape: Shape) -> FieldSchema {
    FieldSchema { ignored: false, shape }
}

fn ignored_field(shape: Shape) -> FieldSchema {
    FieldSchema { ignored: true, shape }
}

fn leaf_record(n: usize) -> Shape {
    let mut fields = Vec::new();
    for _ in 0..n {
        fields.push(field(Shape::Leaf));
    }
    Shape::Record(fields)
}

#[test]
fn reflexive_leaf() {
    let s = Shape::Leaf;
    let v = Value::Leaf(7);
    assert_eq!(compare(&s, &v, &v), Changed::Unchanged);
}

#[test]
fn reflexive_records() {
    for n in 0..4 {
        let s = leaf_record(n);
        let mut vals = Vec::new();
        for k in 0..n {
            vals.push(Value::Leaf(k as u64));
        }
        let v = Value::Record(vals);
        assert_eq!(compare(&s, &v, &v), Changed::Unchanged);
    }
}

#[test]
fn reflexive_variant_cases() {
    // a unit case, a record-shaped case and a positional case
    let s = Shape::Variant(vec![
        CaseSchema { ignored: false, fields: vec![] },
        CaseSchema { ignored: false, fields: vec![field(Shape::Leaf), field(Shape::Leaf)] },
        CaseSchema { ignored: false, fields: vec![field(leaf_record(2))] },
    ]);
    let unit_case = Value::Variant(0, vec![]);
    let record_case = Value::Variant(1, vec![Value::Leaf(1), Value::Leaf(2)]);
    let nested = Value::Variant(2, vec![Value::Record(vec![Value::Leaf(3), Value::Leaf(4)])]);
    assert_eq!(compare(&s, &unit_case, &unit_case), Changed::Unchanged);
    assert_eq!(compare(&s, &record_case, &record_case), Changed::Unchanged);
    assert_eq!(compare(&s, &nested, &nested), Changed::Unchanged);
}

#[test]
fn three_field_record_sequence_fidelity() {
    // fields at positions 0 and 2 differ, position 1 does not
    let s = leaf_record(3);
    let a = Value::Record(vec![Value::Leaf(1), Value::Leaf(2), Value::Leaf(3)]);
    let b = Value::Record(vec![Value::Leaf(9), Value::Leaf(2), Value::Leaf(8)]);
    let expected = Changed::Changed(ChangeRep::Fields(vec![
        FieldChange { index: 0, change: ChangeRep::Prim(1, 9) },
        FieldChange { index: 2, change: ChangeRep::Prim(3, 8) },
    ]));
    assert_eq!(compare(&s, &a, &b), expected);
}

#[test]
fn single_field_propagation() {
    let s = leaf_record(1);
    let a = Value::Record(vec![Value::Leaf(5)]);
    let b = Value::Record(vec![Value::Leaf(5)]);
    assert_eq!(compare(&s, &a, &b), Changed::Unchanged);
    let c = Value::Record(vec![Value::Leaf(6)]);
    let expected = Changed::Changed(ChangeRep::Wrapper(Box::new(ChangeRep::Prim(5, 6))));
    assert_eq!(compare(&s, &a, &c), expected);
}

#[test]
fn variant_same_case_diff() {
    // a two-field case: the first field equal, the second differing
    let s = Shape::Variant(vec![CaseSchema {
        ignored: false,
        fields: vec![field(Shape::Leaf), field(Shape::Leaf)],
    }]);
    let a = Value::Variant(0, vec![Value::Leaf(1), Value::Leaf(2)]);
    let b = Value::Variant(0, vec![Value::Leaf(1), Value::Leaf(5)]);
    let expected = Changed::Changed(ChangeRep::Variant(Box::new(VariantChange::SameCase(
        CaseChange {
            case: 0,
            fields: vec![Changed::Unchanged, Changed::Changed(ChangeRep::Prim(2, 5))],
        },
    ))));
    assert_eq!(compare(&s, &a, &b), expected);
}

#[test]
fn variant_cross_case_diff() {
    // equal field values on both sides: the case decides regardless
    let s = Shape::Variant(vec![
        CaseSchema { ignored: false, fields: vec![field(Shape::Leaf)] },
        CaseSchema { ignored: false, fields: vec![field(Shape::Leaf)] },
    ]);
    let a = Value::Variant(0, vec![Value::Leaf(1)]);
    let b = Value::Variant(1, vec![Value::Leaf(1)]);
    let expected = Changed::Changed(ChangeRep::Variant(Box::new(VariantChange::DifferentCase(
        Value::Variant(0, vec![Value::Leaf(1)]),
        Value::Variant(1, vec![Value::Leaf(1)]),
    ))));
    assert_eq!(compare(&s, &a, &b), expected);
}

#[test]
fn ignored_field_exclusion() {
    // value differing only in the ignored middle field: unchanged
    let s = Shape::Record(vec![
        field(Shape::Leaf),
        ignored_field(Shape::Leaf),
        field(Shape::Leaf),
    ]);
    let a = Value::Record(vec![Value::Leaf(1), Value::Leaf(2), Value::Leaf(3)]);
    let b = Value::Record(vec![Value::Leaf(1), Value::Leaf(99), Value::Leaf(3)]);
    assert_eq!(compare(&s, &a, &b), Changed::Unchanged);

    // and when comparable fields differ, no entry names the ignored one
    let c = Value::Record(vec![Value::Leaf(7), Value::Leaf(99), Value::Leaf(8)]);
    let expected = Changed::Changed(ChangeRep::Fields(vec![
        FieldChange { index: 0, change: ChangeRep::Prim(1, 7) },
        FieldChange { index: 2, change: ChangeRep::Prim(3, 8) },
    ]));
    assert_eq!(compare(&s, &a, &c), expected);
}

#[test]
fn ignored_field_absent_from_variant_description() {
    let s = Shape::Variant(vec![CaseSchema {
        ignored: false,
        fields: vec![field(Shape::Leaf), ignored_field(Shape::Leaf)],
    }]);
    let v = Value::Variant(0, vec![Value::Leaf(1), Value::Leaf(2)]);
    assert_eq!(describe(&s, &v), Value::Variant(0, vec![Value::Leaf(1)]));
}

#[test]
fn two_fields_ignored_makes_single_field_shape() {
    // one comparable field left: the wrapper shape, at the field's position
    let s = Shape::Record(vec![ignored_field(Shape::Leaf), field(Shape::Leaf)]);
    let a = Value::Record(vec![Value::Leaf(1), Value::Leaf(2)]);
    let b = Value::Record(vec![Value::Leaf(9), Value::Leaf(4)]);
    let expected = Changed::Changed(ChangeRep::Wrapper(Box::new(ChangeRep::Prim(2, 4))));
    assert_eq!(compare(&s, &a, &b), expected);
}

#[test]
fn empty_record_always_unchanged() {
    let s = leaf_record(0);
    let a = Value::Record(vec![]);
    let b = Value::Record(vec![]);
    assert_eq!(compare(&s, &a, &b), Changed::Unchanged);

    // a record whose every field is ignored compares the same way
    let s2 = Shape::Record(vec![ignored_field(Shape::Leaf), ignored_field(Shape::Leaf)]);
    let c = Value::Record(vec![Value::Leaf(1), Value::Leaf(2)]);
    let d = Value::Record(vec![Value::Leaf(3), Value::Leaf(4)]);
    assert_eq!(compare(&s2, &c, &d), Changed::Unchanged);
}

#[test]
fn same_ignored_case_is_unchanged() {
    let s = Shape::Variant(vec![CaseSchema {
        ignored: true,
        fields: vec![field(Shape::Leaf)],
    }]);
    let a = Value::Variant(0, vec![Value::Leaf(1)]);
    let b = Value::Variant(0, vec![Value::Leaf(2)]);
    assert_eq!(compare(&s, &a, &b), Changed::Unchanged);
}

#[test]
fn describe_clones_records() {
    let s = leaf_record(2);
    let v = Value::Record(vec![Value::Leaf(4), Value::Leaf(5)]);
    assert_eq!(describe(&s, &v), v);
}

#[test]
fn nested_record_in_record() {
    // the inner record is a field of the outer: its change is wrapped in
    // the outer field's entry
    let s = Shape::Record(vec![field(Shape::Leaf), field(leaf_record(1))]);
    let a = Value::Record(vec![Value::Leaf(1), Value::Record(vec![Value::Leaf(2)])]);
    let b = Value::Record(vec![Value::Leaf(1), Value::Record(vec![Value::Leaf(3)])]);
    let expected = Changed::Changed(ChangeRep::Fields(vec![FieldChange {
        index: 1,
        change: ChangeRep::Wrapper(Box::new(ChangeRep::Prim(2, 3))),
    }]));
    assert_eq!(compare(&s, &a, &b), expected);
}

#[test]
fn outcome_predicate() {
    let un: Changed<ChangeRep> = Changed::Unchanged;
    assert!(un.is_unchanged());
    let ch: Changed<ChangeRep> = Changed::Changed(ChangeRep::Prim(1, 2));
    assert!(!ch.is_unchanged());
}
