//! The protocol core: the two result containers that every comparison
//! returns.
//!
//! A comparison of two values of one type yields a [`Changed`]: either
//! `Unchanged`, or `Changed(c)` carrying the typed difference.  A comparison
//! of two variant-type values yields, inside the `Changed` case, a
//! [`VariantChange`]: the per-field differences when both values share a
//! case, or the two descriptions when they do not.

use vstd::prelude::*;

verus! {

/// The outcome of comparing two values: no difference, or a difference
/// carried as a typed payload.  Absence of change is a normal result, not an
/// error.
#[derive(Debug, PartialEq, Eq)]
pub enum Changed<C> {
    Unchanged,
    Changed(C),
}

impl<C> Changed<C> {
    /// True exactly when this outcome is `Unchanged`.
    pub fn is_unchanged(&self) -> (r: bool)
        ensures
            r == (*self is Unchanged),
    {
        match self {
            Changed::Unchanged => true,
            Changed::Changed(_) => false,
        }
    }
}

/// The difference of two variant-type values: `SameCase` holds the per-field
/// differences when both belong to one case, `DifferentCase` holds the
/// description of each side when they do not, since no field-to-field
/// correspondence exists across cases.
#[derive(Debug, PartialEq, Eq)]
pub enum VariantChange<D, C> {
    SameCase(C),
    DifferentCase(D, D),
}

} // verus!
