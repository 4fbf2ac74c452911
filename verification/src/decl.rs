//! The output model of the synthesis layer: type expressions, type
//! declarations and the protocol implementation plan that a code emitter
//! would turn into host declarations.

use vstd::prelude::*;
use crate::source::Vis;

verus! {

/// A type expression of a generated declaration.
#[derive(Debug, PartialEq, Eq)]
pub enum TypeExpr {
    /// The unit type.
    Unit,
    /// The source type itself.
    SelfTy,
    /// The source type's own change type.
    SelfChange,
    /// The source type's own description type.
    SelfDesc,
    /// A type written by hand in an annotation payload, token-normalized.
    Custom(String),
    /// A generated type, by name.
    Named(String),
    /// The description type of the named source field type.
    DescOf(String),
    /// The change type of the named source field type.
    ChangeOf(String),
    /// The comparison-outcome container around an inner type.
    ChangedOf(Box<TypeExpr>),
    /// An ordered collection of an inner type.
    VecOf(Box<TypeExpr>),
    /// The variant-difference container: a description side and a change
    /// side.
    VariantChangeOf(Box<TypeExpr>, Box<TypeExpr>),
}

/// How a generated `describe` computes its value.
#[derive(Debug, PartialEq, Eq)]
pub enum DescBody {
    /// The unit value: description suppressed.
    Unit,
    /// An expression written by hand in an annotation payload,
    /// token-normalized.
    Custom(String),
    /// A diff against the type's default value, or an empty default when
    /// unchanged.
    DefaultDiff,
    /// A clone of the value itself.
    CloneSelf,
    /// A case-by-case mirror of the value, each field described.
    MirrorMatch,
}

/// The name of a generated case: an identifier, or a positional case
/// rendered as the word `Field` followed by the position.
#[derive(Debug, PartialEq, Eq)]
pub enum CaseName {
    Ident(String),
    FieldIndex(usize),
}

/// One named field of a generated case.
#[derive(Debug, PartialEq, Eq)]
pub struct FieldDecl {
    pub name: String,
    pub ty: TypeExpr,
}

/// The fields of a generated case.
#[derive(Debug, PartialEq, Eq)]
pub enum CaseFieldsDecl {
    Unit,
    Tuple(Vec<TypeExpr>),
    Named(Vec<FieldDecl>),
}

/// One case of a generated variant type.
#[derive(Debug, PartialEq, Eq)]
pub struct CaseDecl {
    pub name: CaseName,
    pub fields: CaseFieldsDecl,
}

/// The body of a generated type declaration: a unit struct, a tuple
/// struct, or a variant type.
#[derive(Debug, PartialEq, Eq)]
pub enum DeclBody {
    Unit,
    Tuple(Vec<TypeExpr>),
    Cases(Vec<CaseDecl>),
}

/// A generated type declaration.
#[derive(Debug, PartialEq, Eq)]
pub struct TypeDecl {
    pub vis: Vis,
    pub name: String,
    pub body: DeclBody,
}

/// How a generated `compare` computes its outcome.
#[derive(Debug, PartialEq, Eq)]
pub enum CompareBody {
    /// Nothing to differ: always `Unchanged`.
    AlwaysUnchanged,
    /// Delegate to the single comparable field and wrap its change.
    DelegateSingle(FieldId),
    /// Compare every comparable field, keep the changed ones' cases in
    /// declaration order, and report `Unchanged` on an empty collection.
    CollectFields,
    /// Match on both operands' cases: per-case field comparison for one
    /// case, the two descriptions for two cases.
    MatchCases,
}

/// The identifier of a source field: its name, or its position.
#[derive(Debug, PartialEq, Eq)]
pub enum FieldId {
    Named(String),
    Index(usize),
}

/// The protocol implementation plan for one source type.
#[derive(Debug, PartialEq, Eq)]
pub struct DeltaImpl {
    pub ty_name: String,
    pub desc_type: TypeExpr,
    pub desc_body: DescBody,
    pub change_type: TypeExpr,
    pub compare_body: CompareBody,
}

/// Everything synthesized for one source type: the new declarations, the
/// protocol implementation plan, and — for variant types — the name of the
/// change type that carries the all-fields-unchanged predicate.
#[derive(Debug, PartialEq, Eq)]
pub struct Generated {
    pub decls: Vec<TypeDecl>,
    pub delta_impl: DeltaImpl,
    pub is_unchanged_impl: Option<String>,
}

/// The description type of a source field type, by its text.
pub fn desc_type_of(ty: &String) -> (r: TypeExpr)
    ensures
        r matches TypeExpr::DescOf(t) && t@ == ty@,
{
    TypeExpr::DescOf(ty.clone())
}

/// The change type of a source field type, by its text.
pub fn change_type_of(ty: &String) -> (r: TypeExpr)
    ensures
        r matches TypeExpr::ChangeOf(t) && t@ == ty@,
{
    TypeExpr::ChangeOf(ty.clone())
}

/// A struct declaration: a unit struct when the body is empty, a tuple
/// struct otherwise.
pub fn struct_definition(vis: Vis, name: &String, body: Vec<TypeExpr>) -> (d: TypeDecl)
    ensures
        d.vis == vis,
        d.name@ == name@,
        body@.len() == 0 ==> d.body == DeclBody::Unit,
        body@.len() > 0 ==> d.body == DeclBody::Tuple(body),
{
    if body.len() == 0 {
        TypeDecl { vis, name: name.clone(), body: DeclBody::Unit }
    } else {
        TypeDecl { vis, name: name.clone(), body: DeclBody::Tuple(body) }
    }
}

/// A variant type declaration with the given cases.
pub fn enum_definition(vis: Vis, name: &String, cases: Vec<CaseDecl>) -> (d: TypeDecl)
    ensures
        d.vis == vis,
        d.name@ == name@,
        d.body == DeclBody::Cases(cases),
{
    TypeDecl { vis, name: name.clone(), body: DeclBody::Cases(cases) }
}

/// The protocol implementation plan, from its five parts.
pub fn define_delta_impl(
    ty_name: &String,
    desc_type: TypeExpr,
    desc_body: DescBody,
    change_type: TypeExpr,
    compare_body: CompareBody,
) -> (r: DeltaImpl)
    ensures
        r.ty_name@ == ty_name@,
        r.desc_type == desc_type,
        r.desc_body == desc_body,
        r.change_type == change_type,
        r.compare_body == compare_body,
{
    DeltaImpl {
        ty_name: ty_name.clone(),
        desc_type,
        desc_body,
        change_type,
        compare_body,
    }
}

} // verus!
