//! Type descriptors for the comparison engine.
//!
//! A [`Shape`] describes one type of the data model: an atomic leaf, a
//! record with an ordered field list, or a variant type with an ordered case
//! list.  Fields carry an `ignored` flag; an ignored field never takes part
//! in comparison and is absent from every generated representation.

use vstd::prelude::*;

verus! {

/// One field of a record or of a variant case: its nested shape and whether
/// it is excluded from comparison.
pub struct FieldSchema {
    pub ignored: bool,
    pub shape: Shape,
}

/// One case of a variant type: its ordered field list and whether the whole
/// case is excluded from generation.
pub struct CaseSchema {
    pub ignored: bool,
    pub fields: Vec<FieldSchema>,
}

/// The shape of a type: an atomic value, a record, or a variant type.
pub enum Shape {
    Leaf,
    Record(Vec<FieldSchema>),
    Variant(Vec<CaseSchema>),
}

/// How many fields of a field list take part in comparison.
pub open spec fn spec_comparable_count(fields: Seq<FieldSchema>) -> nat
    decreases fields.len(),
{
    if fields.len() == 0 {
        0
    } else {
        spec_comparable_count(fields.drop_last()) + if fields.last().ignored {
            0nat
        } else {
            1nat
        }
    }
}

/// The declaration-order position of the single comparable field of a field
/// list, meaningful when exactly one field is comparable.
pub open spec fn spec_single_comparable(fields: Seq<FieldSchema>) -> int
    decreases fields.len(),
{
    if fields.len() == 0 {
        0
    } else if fields.last().ignored {
        spec_single_comparable(fields.drop_last())
    } else {
        fields.len() - 1
    }
}

/// Count the comparable fields of a field list.
pub fn comparable_count(fields: &Vec<FieldSchema>) -> (n: usize)
    ensures
        n == spec_comparable_count(fields@),
{
    let mut n: usize = 0;
    let mut i: usize = 0;
    while i < fields.len()
        invariant
            i <= fields.len(),
            n == spec_comparable_count(fields@.subrange(0, i as int)),
            n <= i,
        decreases fields.len() - i,
    {
        proof {
            assert(fields@.subrange(0, i + 1).drop_last() =~= fields@.subrange(0, i as int));
            assert(fields@.subrange(0, i + 1).last() == fields@[i as int]);
        }
        if !fields[i].ignored {
            n = n + 1;
        }
        i = i + 1;
    }
    proof {
        assert(fields@.subrange(0, fields@.len() as int) =~= fields@);
    }
    n
}

/// Find the declaration-order position of the single comparable field.
pub fn single_comparable(fields: &Vec<FieldSchema>) -> (k: usize)
    requires
        spec_comparable_count(fields@) == 1,
    ensures
        k == spec_single_comparable(fields@),
        k < fields@.len(),
        !fields@[k as int].ignored,
{
    proof {
        lemma_single_comparable(fields@);
        assert(fields@.subrange(0, fields@.len() as int) =~= fields@);
    }
    let mut k: usize = fields.len() - 1;
    loop
        invariant
            k < fields@.len(),
            spec_comparable_count(fields@) == 1,
            spec_single_comparable(fields@) <= k,
            spec_single_comparable(fields@) == spec_single_comparable(
                fields@.subrange(0, k + 1),
            ),
        decreases k,
    {
        proof {
            assert(fields@.subrange(0, k + 1).drop_last() =~= fields@.subrange(0, k as int));
            assert(fields@.subrange(0, k + 1).last() == fields@[k as int]);
        }
        if !fields[k].ignored {
            proof {
                assert(spec_single_comparable(fields@.subrange(0, k + 1)) == k);
            }
            return k;
        }
        proof {
            lemma_single_comparable(fields@);
        }
        k = k - 1;
    }
}

/// When exactly one field is comparable, the position that
/// `spec_single_comparable` names is in range, not ignored, and every other
/// field is ignored.
pub proof fn lemma_single_comparable(fields: Seq<FieldSchema>)
    requires
        spec_comparable_count(fields) == 1,
    ensures
        0 <= spec_single_comparable(fields) < fields.len(),
        !fields[spec_single_comparable(fields)].ignored,
        forall|j: int|
            0 <= j < fields.len() && j != spec_single_comparable(fields) ==> fields[j].ignored,
    decreases fields.len(),
{
    if fields.len() == 0 {
    } else if fields.last().ignored {
        lemma_single_comparable(fields.drop_last());
        assert forall|j: int|
            0 <= j < fields.len() && j != spec_single_comparable(fields) implies fields[j].ignored by {
            if j < fields.len() - 1 {
                assert(fields.drop_last()[j] == fields[j]);
            }
        }
    } else {
        lemma_comparable_zero_all_ignored(fields.drop_last());
        assert forall|j: int|
            0 <= j < fields.len() && j != spec_single_comparable(fields) implies fields[j].ignored by {
            assert(fields.drop_last()[j] == fields[j]);
        }
    }
}

/// When no field of a list is comparable, every field is ignored, and
/// conversely.
pub proof fn lemma_comparable_zero_all_ignored(fields: Seq<FieldSchema>)
    ensures
        spec_comparable_count(fields) == 0 <==> (forall|j: int|
            0 <= j < fields.len() ==> fields[j].ignored),
    decreases fields.len(),
{
    if fields.len() > 0 {
        lemma_comparable_zero_all_ignored(fields.drop_last());
        if spec_comparable_count(fields) == 0 {
            assert forall|j: int| 0 <= j < fields.len() implies fields[j].ignored by {
                if j < fields.len() - 1 {
                    assert(fields.drop_last()[j] == fields[j]);
                }
            }
        } else {
        }
        if forall|j: int| 0 <= j < fields.len() ==> fields[j].ignored {
            assert forall|j: int| 0 <= j < fields.drop_last().len() implies fields.drop_last()[j].ignored by {
                assert(fields.drop_last()[j] == fields[j]);
            }
        }
    }
}

} // verus!
