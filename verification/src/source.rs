//! The input of the synthesis layer: one source type declaration, read
//! once, with its annotations.

use vstd::prelude::*;

verus! {

/// The visibility that generated declarations carry: an explicit `pub`, or
/// none (the inherited, private form).
#[derive(Clone, Copy, Debug, PartialEq, Eq, Structural)]
pub enum Vis {
    Public,
    Inherited,
}

/// One recognized annotation of the configuration vocabulary, with its
/// payload text where the vocabulary takes one.
#[derive(Clone, Debug, PartialEq, Eq)]
pub enum Annotation {
    /// Override the description type with the payload text.
    DescribeType(String),
    /// Override the description computation with the payload text.
    DescribeBody(String),
    /// Suppress the description: the unit type and the unit value.
    NoDescription,
    /// Derive the description from a diff against the type's default value.
    CompareDefault,
    /// Force the generated declarations public.
    MarkPublic,
    /// Force the generated declarations private.
    MarkPrivate,
    /// Exclude this field or case from every generated representation.
    Ignore,
}

/// The kinds of annotation, for lookup.
#[derive(Clone, Copy, Debug, PartialEq, Eq, Structural)]
pub enum AnnotationKind {
    DescribeType,
    DescribeBody,
    NoDescription,
    CompareDefault,
    MarkPublic,
    MarkPrivate,
    Ignore,
}

/// An annotation belongs to a kind.
pub open spec fn is_kind(a: Annotation, k: AnnotationKind) -> bool {
    match a {
        Annotation::DescribeType(_) => k == AnnotationKind::DescribeType,
        Annotation::DescribeBody(_) => k == AnnotationKind::DescribeBody,
        Annotation::NoDescription => k == AnnotationKind::NoDescription,
        Annotation::CompareDefault => k == AnnotationKind::CompareDefault,
        Annotation::MarkPublic => k == AnnotationKind::MarkPublic,
        Annotation::MarkPrivate => k == AnnotationKind::MarkPrivate,
        Annotation::Ignore => k == AnnotationKind::Ignore,
    }
}

/// The payload text of an annotation, where its kind carries one.
pub open spec fn payload_of(a: Annotation) -> Seq<char> {
    match a {
        Annotation::DescribeType(s) => s@,
        Annotation::DescribeBody(s) => s@,
        _ => Seq::empty(),
    }
}

/// Some annotation of the kind is present.
pub open spec fn spec_has(attrs: Seq<Annotation>, k: AnnotationKind) -> bool {
    exists|i: int| 0 <= i < attrs.len() && is_kind(#[trigger] attrs[i], k)
}

/// The payload of the first annotation of the kind, if any is present.
pub open spec fn spec_first_payload(attrs: Seq<Annotation>, k: AnnotationKind) -> Option<
    Seq<char>,
>
    decreases attrs,
{
    if attrs.len() == 0 {
        None
    } else if is_kind(attrs[0], k) {
        Some(payload_of(attrs[0]))
    } else {
        spec_first_payload(attrs.drop_first(), k)
    }
}

/// Skipping a prefix free of the kind does not move the first match.
proof fn lemma_first_payload_skip(attrs: Seq<Annotation>, k: AnnotationKind, i: int)
    requires
        0 <= i <= attrs.len(),
        forall|j: int| 0 <= j < i ==> !is_kind(#[trigger] attrs[j], k),
    ensures
        spec_first_payload(attrs, k) == spec_first_payload(attrs.skip(i), k),
    decreases i,
{
    if i > 0 {
        assert(!is_kind(attrs[0], k));
        assert forall|j: int| 0 <= j < i - 1 implies !is_kind(
            #[trigger] attrs.drop_first()[j],
            k,
        ) by {
            assert(attrs.drop_first()[j] == attrs[j + 1]);
        }
        lemma_first_payload_skip(attrs.drop_first(), k, i - 1);
        assert(spec_first_payload(attrs, k) == spec_first_payload(attrs.drop_first(), k));
        assert(attrs.drop_first().skip(i - 1) =~= attrs.skip(i));
        assert(spec_first_payload(attrs.drop_first().skip(i - 1), k) == spec_first_payload(
            attrs.skip(i),
            k,
        ));
    } else {
        assert(attrs.skip(0) =~= attrs);
    }
}

/// A first payload exists exactly when the kind is present.
pub proof fn lemma_first_payload_some(attrs: Seq<Annotation>, k: AnnotationKind)
    ensures
        spec_first_payload(attrs, k) is Some <==> spec_has(attrs, k),
    decreases attrs,
{
    if attrs.len() > 0 {
        lemma_first_payload_some(attrs.drop_first(), k);
        if !is_kind(attrs[0], k) {
            if spec_has(attrs.drop_first(), k) {
                let i = choose|i: int|
                    0 <= i < attrs.drop_first().len() && is_kind(
                        #[trigger] attrs.drop_first()[i],
                        k,
                    );
                assert(attrs.drop_first()[i] == attrs[i + 1]);
                assert(is_kind(attrs[i + 1], k));
            }
            if spec_has(attrs, k) {
                let i = choose|i: int| 0 <= i < attrs.len() && is_kind(#[trigger] attrs[i], k);
                assert(attrs.drop_first()[i - 1] == attrs[i]);
            }
        }
    }
}

/// Whether an annotation belongs to a kind.
pub fn annotation_is_kind(a: &Annotation, k: AnnotationKind) -> (r: bool)
    ensures
        r == is_kind(*a, k),
{
    match (a, k) {
        (Annotation::DescribeType(_), AnnotationKind::DescribeType) => true,
        (Annotation::DescribeBody(_), AnnotationKind::DescribeBody) => true,
        (Annotation::NoDescription, AnnotationKind::NoDescription) => true,
        (Annotation::CompareDefault, AnnotationKind::CompareDefault) => true,
        (Annotation::MarkPublic, AnnotationKind::MarkPublic) => true,
        (Annotation::MarkPrivate, AnnotationKind::MarkPrivate) => true,
        (Annotation::Ignore, AnnotationKind::Ignore) => true,
        _ => false,
    }
}

/// Whether an annotation of the kind is present.
pub fn has_annotation(attrs: &Vec<Annotation>, k: AnnotationKind) -> (r: bool)
    ensures
        r == spec_has(attrs@, k),
{
    let mut i: usize = 0;
    while i < attrs.len()
        invariant
            i <= attrs@.len(),
            forall|j: int| 0 <= j < i ==> !is_kind(#[trigger] attrs@[j], k),
        decreases attrs@.len() - i,
    {
        if annotation_is_kind(&attrs[i], k) {
            return true;
        }
        i = i + 1;
    }
    false
}

/// The payload of the first annotation of the kind, if one is present.
pub fn first_payload(attrs: &Vec<Annotation>, k: AnnotationKind) -> (r: Option<String>)
    ensures
        r is Some <==> spec_first_payload(attrs@, k) is Some,
        r matches Some(p) ==> spec_first_payload(attrs@, k) == Some(p@),
{
    let mut i: usize = 0;
    while i < attrs.len()
        invariant
            i <= attrs@.len(),
            forall|j: int| 0 <= j < i ==> !is_kind(#[trigger] attrs@[j], k),
        decreases attrs@.len() - i,
    {
        if annotation_is_kind(&attrs[i], k) {
            proof {
                lemma_first_payload_skip(attrs@, k, i as int);
                assert(attrs@.skip(i as int)[0] == attrs@[i as int]);
            }
            let p: String = match &attrs[i] {
                Annotation::DescribeType(s) => s.clone(),
                Annotation::DescribeBody(s) => s.clone(),
                _ => String::new(),
            };
            return Some(p);
        }
        i = i + 1;
    }
    proof {
        lemma_first_payload_skip(attrs@, k, attrs@.len() as int);
        assert(attrs@.skip(attrs@.len() as int) =~= Seq::<Annotation>::empty());
    }
    None
}

/// One field of a record or of a variant case: its identifier (a name, or
/// nothing for a positional field), the text of its type as written, and
/// its annotations.
#[derive(Clone, Debug, PartialEq, Eq)]
pub struct FieldSpec {
    pub name: Option<String>,
    pub ty: String,
    pub attrs: Vec<Annotation>,
}

/// How a variant case writes its fields.
#[derive(Clone, Copy, Debug, PartialEq, Eq, Structural)]
pub enum CaseStyle {
    Named,
    Positional,
    Unit,
}

/// One case of a variant type.
#[derive(Clone, Debug, PartialEq, Eq)]
pub struct CaseSpec {
    pub name: String,
    pub attrs: Vec<Annotation>,
    pub style: CaseStyle,
    pub fields: Vec<FieldSpec>,
}

/// The field or case list of a source type.
#[derive(Clone, Debug, PartialEq, Eq)]
pub enum SourceData {
    Record(Vec<FieldSpec>),
    Variant(Vec<CaseSpec>),
    Union(Vec<FieldSpec>),
}

/// A source type declaration: its name, its own visibility, its
/// annotations, and its field or case list.
#[derive(Clone, Debug, PartialEq, Eq)]
pub struct SourceType {
    pub name: String,
    pub vis: Vis,
    pub attrs: Vec<Annotation>,
    pub data: SourceData,
}

/// A field is excluded from generation.
pub open spec fn spec_ignored(f: FieldSpec) -> bool {
    spec_has(f.attrs@, AnnotationKind::Ignore)
}

/// A case is excluded from generation.
pub open spec fn spec_case_ignored(c: CaseSpec) -> bool {
    spec_has(c.attrs@, AnnotationKind::Ignore)
}

} // verus!
