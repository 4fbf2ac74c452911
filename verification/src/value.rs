//! Runtime values of the data model, their mathematical model, and their
//! conformance to a shape.

use vstd::prelude::*;
use crate::schema::Shape;

verus! {

/// The mathematical model of a value: what contracts and proofs speak of.
/// A record is its field values in declaration order; a variant value is the
/// declaration-order position of its case together with the case's field
/// values.
#[verifier::ext_equal]
pub enum ValueV {
    Leaf(u64),
    Record(Seq<ValueV>),
    Variant(int, Seq<ValueV>),
}

/// An instance of a described type: an atomic leaf, a record holding one
/// value per field in declaration order, or a variant value holding the
/// declaration-order position of its case and one value per field of that
/// case.
#[derive(Debug, PartialEq, Eq)]
pub enum Value {
    Leaf(u64),
    Record(Vec<Value>),
    Variant(usize, Vec<Value>),
}

/// The model of a concrete value.
pub open spec fn view_value(v: Value) -> ValueV
    decreases v,
{
    match v {
        Value::Leaf(n) => ValueV::Leaf(n),
        Value::Record(vs) => ValueV::Record(view_values(vs@)),
        Value::Variant(c, vs) => ValueV::Variant(c as int, view_values(vs@)),
    }
}

/// The models of a list of concrete values, position by position.
pub open spec fn view_values(vs: Seq<Value>) -> Seq<ValueV>
    decreases vs,
{
    Seq::new(
        vs.len(),
        |i: int|
            if 0 <= i < vs.len() {
                view_value(vs[i])
            } else {
                ValueV::Leaf(0)
            },
    )
}

impl View for Value {
    type V = ValueV;

    open spec fn view(&self) -> ValueV {
        view_value(*self)
    }
}

/// A value is an instance of a shape: leaves match leaves, records carry one
/// conforming value per field, variant values name an existing case and
/// carry one conforming value per field of that case.
pub open spec fn conforms(v: ValueV, s: Shape) -> bool
    decreases v,
{
    match s {
        Shape::Leaf => v is Leaf,
        Shape::Record(fields) => match v {
            ValueV::Record(vals) => {
                &&& vals.len() == fields@.len()
                &&& forall|i: int|
                    0 <= i < fields@.len() ==> conforms(#[trigger] vals[i], fields@[i].shape)
            },
            _ => false,
        },
        Shape::Variant(cases) => match v {
            ValueV::Variant(c, vals) => {
                &&& 0 <= c < cases@.len()
                &&& vals.len() == cases@[c].fields@.len()
                &&& forall|i: int|
                    0 <= i < vals.len() ==> conforms(#[trigger] vals[i], cases@[c].fields@[i].shape)
            },
            _ => false,
        },
    }
}

/// The size of a value: one more than the sizes of its children together.
/// Serves as the termination measure of the functions that walk a value.
pub open spec fn size_of(v: Value) -> nat
    decreases v,
{
    match v {
        Value::Leaf(_) => 1,
        Value::Record(vs) => 1 + size_list(vs@),
        Value::Variant(_, vs) => 1 + size_list(vs@),
    }
}

/// The sizes of a list of values, added up.
pub open spec fn size_list(vs: Seq<Value>) -> nat
    decreases vs,
{
    if vs.len() == 0 {
        0
    } else {
        size_list(vs.drop_last()) + size_of(vs.last())
    }
}

/// Each element's size is bounded by the size of the whole list.
pub proof fn lemma_size_list_bound(vs: Seq<Value>, i: int)
    requires
        0 <= i < vs.len(),
    ensures
        size_of(vs[i]) <= size_list(vs),
    decreases vs,
{
    if i == vs.len() - 1 {
        assert(vs.last() == vs[i]);
    } else {
        lemma_size_list_bound(vs.drop_last(), i);
        assert(vs.drop_last()[i] == vs[i]);
    }
}

/// Deep copy of a value; the copy has the same model as the original.
pub fn clone_value(v: &Value) -> (r: Value)
    ensures
        r@ == v@,
    decreases *v,
{
    match v {
        Value::Leaf(n) => Value::Leaf(*n),
        Value::Record(vals) => {
            let cl = clone_values(vals);
            proof {
                lemma_view_values_pointwise(cl@, vals@);
            }
            Value::Record(cl)
        },
        Value::Variant(c, vals) => {
            let cl = clone_values(vals);
            proof {
                lemma_view_values_pointwise(cl@, vals@);
            }
            Value::Variant(*c, cl)
        },
    }
}

/// Two value lists whose elements have equal models have equal list models.
proof fn lemma_view_values_pointwise(a: Seq<Value>, b: Seq<Value>)
    requires
        a.len() == b.len(),
        forall|i: int| 0 <= i < a.len() ==> (#[trigger] view_value(a[i])) == view_value(b[i]),
    ensures
        view_values(a) == view_values(b),
{
    assert forall|i: int| 0 <= i < a.len() implies view_values(a)[i] == view_values(b)[i] by {
        assert(view_values(a)[i] == view_value(a[i]));
        assert(view_values(b)[i] == view_value(b[i]));
    }
    assert(view_values(a) =~= view_values(b));
}

/// Deep copy of a value list; each copy has the same model as its original.
pub fn clone_values(vals: &Vec<Value>) -> (r: Vec<Value>)
    ensures
        r@.len() == vals@.len(),
        forall|i: int| 0 <= i < vals@.len() ==> (#[trigger] view_value(r@[i])) == view_value(vals@[i]),
    decreases *vals,
{
    let mut r: Vec<Value> = Vec::new();
    let mut i: usize = 0;
    while i < vals.len()
        invariant
            i <= vals.len(),
            r@.len() == i,
            forall|j: int| 0 <= j < i ==> (#[trigger] view_value(r@[j])) == view_value(vals@[j]),
        decreases vals.len() - i,
    {
        r.push(clone_value(&vals[i]));
        i = i + 1;
    }
    r
}

} // verus!
