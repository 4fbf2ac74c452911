//! The record and variant diff synthesizers: from a resolved policy and a
//! field or case list to the generated declarations and the protocol
//! implementation plan.

use vstd::prelude::*;
use crate::decl::{CaseDecl, CaseFieldsDecl, CaseName, CompareBody, DeclBody, DeltaImpl, DescBody, FieldDecl, FieldId, Generated, TypeDecl, TypeExpr, define_delta_impl, enum_definition, struct_definition};
use crate::names::{pascal_of, to_pascal};
use crate::policy::{GenError, Policy, body_payload_bad, desc_body_matches, desc_type_matches, resolve_policy, spec_vis, type_payload_bad};
use crate::source::{AnnotationKind, CaseSpec, CaseStyle, FieldSpec, SourceData, SourceType, Vis, has_annotation, spec_case_ignored, spec_ignored};

verus! {

/// The model of a comparable field: its identifier and its change-case
/// name, both ready for generation, and its type text.
#[verifier::ext_equal]
pub struct FieldInfoV {
    pub id: FieldIdV,
    pub case_name: CaseNameV,
    pub ty: Seq<char>,
}

/// The model of a source field identifier.
#[verifier::ext_equal]
pub enum FieldIdV {
    Named(Seq<char>),
    Index(int),
}

/// The model of a generated case name.
#[verifier::ext_equal]
pub enum CaseNameV {
    Ident(Seq<char>),
    FieldIndex(int),
}

/// One comparable field, prepared for generation: its identifier, the name
/// of its change case (the Pascal-cased field name, or the position), and
/// its type text.
#[derive(Debug, PartialEq, Eq)]
pub struct FieldInfo {
    pub id: FieldId,
    pub case_name: CaseName,
    pub ty: String,
}

/// The model of a field identifier.
pub open spec fn view_field_id(f: FieldId) -> FieldIdV {
    match f {
        FieldId::Named(s) => FieldIdV::Named(s@),
        FieldId::Index(i) => FieldIdV::Index(i as int),
    }
}

/// The model of a case name.
pub open spec fn view_case_name(c: CaseName) -> CaseNameV {
    match c {
        CaseName::Ident(s) => CaseNameV::Ident(s@),
        CaseName::FieldIndex(i) => CaseNameV::FieldIndex(i as int),
    }
}

/// The model of a prepared field.
pub open spec fn view_info(f: FieldInfo) -> FieldInfoV {
    FieldInfoV { id: view_field_id(f.id), case_name: view_case_name(f.case_name), ty: f.ty@ }
}

/// The models of a prepared field list.
pub open spec fn view_infos(s: Seq<FieldInfo>) -> Seq<FieldInfoV> {
    Seq::new(
        s.len(),
        |i: int|
            if 0 <= i < s.len() {
                view_info(s[i])
            } else {
                FieldInfoV { id: FieldIdV::Index(0), case_name: CaseNameV::FieldIndex(0), ty: Seq::empty() }
            },
    )
}

/// The comparable fields of a field list, in declaration order: ignored
/// fields are left out; a named field keeps its name and gets the
/// Pascal-cased case name; a positional field is identified by its
/// position.
pub open spec fn spec_comparable_fields(fields: Seq<FieldSpec>) -> Seq<FieldInfoV>
    decreases fields,
{
    if fields.len() == 0 {
        Seq::empty()
    } else {
        let rest = spec_comparable_fields(fields.drop_last());
        let k = fields.len() - 1;
        let f = fields.last();
        if spec_ignored(f) {
            rest
        } else {
            rest.push(
                match f.name {
                    Some(n) => FieldInfoV {
                        id: FieldIdV::Named(n@),
                        case_name: CaseNameV::Ident(pascal_of(n@)),
                        ty: f.ty@,
                    },
                    None => FieldInfoV {
                        id: FieldIdV::Index(k),
                        case_name: CaseNameV::FieldIndex(k),
                        ty: f.ty@,
                    },
                },
            )
        }
    }
}

/// Collect the comparable fields of a record or case, prepared for
/// generation.
pub fn comparable_fields(fields: &Vec<FieldSpec>) -> (r: Vec<FieldInfo>)
    ensures
        view_infos(r@) == spec_comparable_fields(fields@),
{
    let mut r: Vec<FieldInfo> = Vec::new();
    let mut i: usize = 0;
    while i < fields.len()
        invariant
            i <= fields@.len(),
            view_infos(r@) == spec_comparable_fields(fields@.subrange(0, i as int)),
        decreases fields@.len() - i,
    {
        proof {
            assert(fields@.subrange(0, i + 1).drop_last() =~= fields@.subrange(0, i as int));
            assert(fields@.subrange(0, i + 1).last() == fields@[i as int]);
        }
        if !has_annotation(&fields[i].attrs, AnnotationKind::Ignore) {
            let ghost old_r = r@;
            let info: FieldInfo = match &fields[i].name {
                Some(n) => FieldInfo {
                    id: FieldId::Named(n.clone()),
                    case_name: CaseName::Ident(to_pascal(n.as_str())),
                    ty: fields[i].ty.clone(),
                },
                None => FieldInfo {
                    id: FieldId::Index(i),
                    case_name: CaseName::FieldIndex(i),
                    ty: fields[i].ty.clone(),
                },
            };
            r.push(info);
            proof {
                assert forall|j: int|
                    0 <= j < old_r.len() + 1 implies view_infos(r@)[j] == view_infos(old_r).push(
                    view_info(r@.last()),
                )[j] by {
                    if j < old_r.len() {
                        assert(r@[j] == old_r[j]);
                    }
                }
                assert(view_infos(r@) =~= view_infos(old_r).push(view_info(r@.last())));
            }
        }
        i = i + 1;
    }
    proof {
        assert(fields@.subrange(0, fields@.len() as int) =~= fields@);
    }
    r
}

/// The generated declarations and plan of a record with the given
/// comparable fields: nothing to declare and nothing to compare without
/// one; a wrapper around the single field's change with one; a variant
/// type with one case per field, and an ordered collection of its cases,
/// with several.
pub open spec fn record_shape_matches(
    infv: Seq<FieldInfoV>,
    vis: Vis,
    change_nm: Seq<char>,
    g: Generated,
) -> bool {
    if infv.len() == 0 {
        &&& g.decls@.len() == 0
        &&& g.delta_impl.change_type == TypeExpr::Unit
        &&& g.delta_impl.compare_body == CompareBody::AlwaysUnchanged
    } else if infv.len() == 1 {
        &&& g.decls@.len() == 1
        &&& g.decls@[0].vis == vis
        &&& g.decls@[0].name@ == change_nm
        &&& g.decls@[0].body matches DeclBody::Tuple(ts) && ts@.len() == 1 && (ts@[0] matches
        TypeExpr::ChangeOf(t) && t@ == infv[0].ty)
        &&& g.delta_impl.change_type matches TypeExpr::Named(n) && n@ == change_nm
        &&& g.delta_impl.compare_body matches CompareBody::DelegateSingle(f) && view_field_id(f)
            == infv[0].id
    } else {
        &&& g.decls@.len() == 1
        &&& g.decls@[0].vis == vis
        &&& g.decls@[0].name@ == change_nm
        &&& g.decls@[0].body matches DeclBody::Cases(cs) && cs@.len() == infv.len() && (forall|
            j: int,
        |
            0 <= j < infv.len() ==> rec_case_matches(#[trigger] cs@[j], infv[j]))
        &&& g.delta_impl.change_type matches TypeExpr::VecOf(b) && (*b matches TypeExpr::Named(n)
            && n@ == change_nm)
        &&& g.delta_impl.compare_body == CompareBody::CollectFields
    }
}

/// One change case of a multi-field record: named after the field, holding
/// the field's change type.
pub open spec fn rec_case_matches(cd: CaseDecl, info: FieldInfoV) -> bool {
    &&& view_case_name(cd.name) == info.case_name
    &&& cd.fields matches CaseFieldsDecl::Tuple(ts) && ts@.len() == 1 && (ts@[0] matches
    TypeExpr::ChangeOf(t) && t@ == info.ty)
}

/// Copy of a field identifier.
pub fn clone_field_id(f: &FieldId) -> (r: FieldId)
    ensures
        r == *f,
{
    match f {
        FieldId::Named(s) => FieldId::Named(s.clone()),
        FieldId::Index(i) => FieldId::Index(*i),
    }
}

/// Copy of a case name.
pub fn clone_case_name(c: &CaseName) -> (r: CaseName)
    ensures
        r == *c,
{
    match c {
        CaseName::Ident(s) => CaseName::Ident(s.clone()),
        CaseName::FieldIndex(i) => CaseName::FieldIndex(*i),
    }
}

/// Synthesize a record's change declarations and plan from its comparable
/// fields.
pub fn process_record(p: Policy, infos: &Vec<FieldInfo>) -> (g: Generated)
    ensures
        g.delta_impl.ty_name@ == p.ty_name@,
        g.delta_impl.desc_type == p.desc_type,
        g.delta_impl.desc_body == p.desc_body,
        g.is_unchanged_impl is None,
        record_shape_matches(view_infos(infos@), p.vis, p.change_ty_name@, g),
{
    let Policy { vis, ty_name, desc_ty_name: _, change_ty_name, desc_type, desc_body } = p;
    if infos.len() == 0 {
        let di = define_delta_impl(
            &ty_name,
            desc_type,
            desc_body,
            TypeExpr::Unit,
            CompareBody::AlwaysUnchanged,
        );
        Generated { decls: Vec::new(), delta_impl: di, is_unchanged_impl: None }
    } else if infos.len() == 1 {
        let ch = TypeExpr::ChangeOf(infos[0].ty.clone());
        let mut body: Vec<TypeExpr> = Vec::new();
        body.push(ch);
        let change_decl = struct_definition(vis, &change_ty_name, body);
        let di = define_delta_impl(
            &ty_name,
            desc_type,
            desc_body,
            TypeExpr::Named(change_ty_name.clone()),
            CompareBody::DelegateSingle(clone_field_id(&infos[0].id)),
        );
        let mut decls: Vec<TypeDecl> = Vec::new();
        decls.push(change_decl);
        proof {
            assert(view_infos(infos@)[0] == view_info(infos@[0]));
        }
        Generated { decls, delta_impl: di, is_unchanged_impl: None }
    } else {
        let mut cases: Vec<CaseDecl> = Vec::new();
        let mut i: usize = 0;
        while i < infos.len()
            invariant
                i <= infos@.len(),
                cases@.len() == i,
                forall|j: int|
                    0 <= j < i ==> rec_case_matches(#[trigger] cases@[j], view_infos(infos@)[j]),
            decreases infos@.len() - i,
        {
            let mut ts: Vec<TypeExpr> = Vec::new();
            ts.push(TypeExpr::ChangeOf(infos[i].ty.clone()));
            let cd = CaseDecl {
                name: clone_case_name(&infos[i].case_name),
                fields: CaseFieldsDecl::Tuple(ts),
            };
            cases.push(cd);
            proof {
                assert(view_infos(infos@)[i as int] == view_info(infos@[i as int]));
            }
            i = i + 1;
        }
        let change_decl = enum_definition(vis, &change_ty_name, cases);
        let di = define_delta_impl(
            &ty_name,
            desc_type,
            desc_body,
            TypeExpr::VecOf(Box::new(TypeExpr::Named(change_ty_name.clone()))),
            CompareBody::CollectFields,
        );
        let mut decls: Vec<TypeDecl> = Vec::new();
        decls.push(change_decl);
        Generated { decls, delta_impl: di, is_unchanged_impl: None }
    }
}

/// The model of one generated-relevant case: its name, how it writes its
/// fields, and its comparable fields.
#[verifier::ext_equal]
pub struct CaseSigV {
    pub name: Seq<char>,
    pub style: CaseStyle,
    pub fields: Seq<FieldSigV>,
}

/// The model of one comparable field of a case: its name, if it has one,
/// and its type text.
#[verifier::ext_equal]
pub struct FieldSigV {
    pub name: Option<Seq<char>>,
    pub ty: Seq<char>,
}

/// The comparable fields of a case, in declaration order.
pub open spec fn spec_field_sigs(fields: Seq<FieldSpec>) -> Seq<FieldSigV>
    decreases fields,
{
    if fields.len() == 0 {
        Seq::empty()
    } else {
        let rest = spec_field_sigs(fields.drop_last());
        let f = fields.last();
        if spec_ignored(f) {
            rest
        } else {
            rest.push(
                FieldSigV {
                    name: match f.name {
                        Some(n) => Some(n@),
                        None => None,
                    },
                    ty: f.ty@,
                },
            )
        }
    }
}

/// The comparable cases of a variant type, in declaration order: ignored
/// cases are dropped from generation entirely.
pub open spec fn spec_case_sigs(cases: Seq<CaseSpec>) -> Seq<CaseSigV>
    decreases cases,
{
    if cases.len() == 0 {
        Seq::empty()
    } else {
        let rest = spec_case_sigs(cases.drop_last());
        let c = cases.last();
        if spec_case_ignored(c) {
            rest
        } else {
            rest.push(CaseSigV { name: c.name@, style: c.style, fields: spec_field_sigs(c.fields@) })
        }
    }
}

/// A well-formed case: a unit case has no fields, and a named case names
/// every field.
pub open spec fn case_wf(c: CaseSpec) -> bool {
    &&& c.style == CaseStyle::Unit ==> c.fields@.len() == 0
    &&& c.style == CaseStyle::Named ==> forall|j: int|
        0 <= j < c.fields@.len() ==> (#[trigger] c.fields@[j]).name is Some
}

/// A description case's fields mirror the source case's shape, each type
/// replaced by that field's description type.
pub open spec fn desc_fields_match(cf: CaseFieldsDecl, sig: CaseSigV) -> bool {
    match sig.style {
        CaseStyle::Unit => cf == CaseFieldsDecl::Unit,
        CaseStyle::Positional => cf matches CaseFieldsDecl::Tuple(ts) && ts@.len()
            == sig.fields.len() && (forall|j: int|
            0 <= j < sig.fields.len() ==> ((#[trigger] ts@[j]) matches TypeExpr::DescOf(t) && t@
                == sig.fields[j].ty)),
        CaseStyle::Named => cf matches CaseFieldsDecl::Named(fs) && fs@.len() == sig.fields.len()
            && (forall|j: int|
            0 <= j < sig.fields.len() ==> (#[trigger] fs@[j]).name@ == sig.fields[j].name->0
                && (fs@[j].ty matches TypeExpr::DescOf(t) && t@ == sig.fields[j].ty)),
    }
}

/// A change case's fields mirror the source case's shape, each type
/// replaced by the comparison-outcome container around that field's change
/// type.
pub open spec fn change_fields_match(cf: CaseFieldsDecl, sig: CaseSigV) -> bool {
    match sig.style {
        CaseStyle::Unit => cf == CaseFieldsDecl::Unit,
        CaseStyle::Positional => cf matches CaseFieldsDecl::Tuple(ts) && ts@.len()
            == sig.fields.len() && (forall|j: int|
            0 <= j < sig.fields.len() ==> ((#[trigger] ts@[j]) matches TypeExpr::ChangedOf(b) && (
            *b matches TypeExpr::ChangeOf(t) && t@ == sig.fields[j].ty))),
        CaseStyle::Named => cf matches CaseFieldsDecl::Named(fs) && fs@.len() == sig.fields.len()
            && (forall|j: int|
            0 <= j < sig.fields.len() ==> (#[trigger] fs@[j]).name@ == sig.fields[j].name->0
                && (fs@[j].ty matches TypeExpr::ChangedOf(b) && (*b matches TypeExpr::ChangeOf(t)
                && t@ == sig.fields[j].ty))),
    }
}

/// A description case mirrors the source case.
pub open spec fn case_matches_desc(cd: CaseDecl, sig: CaseSigV) -> bool {
    &&& cd.name matches CaseName::Ident(n) && n@ == sig.name
    &&& desc_fields_match(cd.fields, sig)
}

/// A change case mirrors the source case.
pub open spec fn case_matches_change(cd: CaseDecl, sig: CaseSigV) -> bool {
    &&& cd.name matches CaseName::Ident(n) && n@ == sig.name
    &&& change_fields_match(cd.fields, sig)
}

/// The generated declarations and plan of a variant type: a description
/// variant type and a change variant type, both case-mirroring, the
/// protocol plan keyed on both operands' cases, and the
/// all-fields-unchanged predicate on the change type.
pub open spec fn variant_shape_matches(
    sigs: Seq<CaseSigV>,
    vis: Vis,
    desc_nm: Seq<char>,
    change_nm: Seq<char>,
    g: Generated,
) -> bool {
    &&& g.decls@.len() == 2
    &&& g.decls@[0].vis == vis && g.decls@[0].name@ == desc_nm
    &&& g.decls@[0].body matches DeclBody::Cases(dcs) && dcs@.len() == sigs.len() && (forall|
        k: int,
    |
        0 <= k < sigs.len() ==> case_matches_desc(#[trigger] dcs@[k], sigs[k]))
    &&& g.decls@[1].vis == vis && g.decls@[1].name@ == change_nm
    &&& g.decls@[1].body matches DeclBody::Cases(ccs) && ccs@.len() == sigs.len() && (forall|
        k: int,
    |
        0 <= k < sigs.len() ==> case_matches_change(#[trigger] ccs@[k], sigs[k]))
    &&& g.delta_impl.desc_type matches TypeExpr::Named(n) && n@ == desc_nm
    &&& g.delta_impl.desc_body == DescBody::MirrorMatch
    &&& g.delta_impl.change_type matches TypeExpr::VariantChangeOf(d, c) && *d
        == TypeExpr::SelfDesc && (*c matches TypeExpr::Named(n2) && n2@ == change_nm)
    &&& g.delta_impl.compare_body == CompareBody::MatchCases
    &&& g.is_unchanged_impl matches Some(n3) && n3@ == change_nm
}

/// Synthesize a variant type's description and change declarations and its
/// plan.  The policy's description strategy is not consulted: a variant
/// type always describes itself case for case.
pub fn process_enum(p: Policy, cases: &Vec<CaseSpec>) -> (g: Generated)
    requires
        forall|i: int| 0 <= i < cases@.len() ==> case_wf(#[trigger] cases@[i]),
    ensures
        g.delta_impl.ty_name@ == p.ty_name@,
        variant_shape_matches(
            spec_case_sigs(cases@),
            p.vis,
            p.desc_ty_name@,
            p.change_ty_name@,
            g,
        ),
{
    let Policy { vis, ty_name, desc_ty_name, change_ty_name, desc_type: _, desc_body: _ } = p;
    let mut dcs: Vec<CaseDecl> = Vec::new();
    let mut ccs: Vec<CaseDecl> = Vec::new();
    let mut i: usize = 0;
    while i < cases.len()
        invariant
            i <= cases@.len(),
            forall|k: int| 0 <= k < cases@.len() ==> case_wf(#[trigger] cases@[k]),
            dcs@.len() == spec_case_sigs(cases@.subrange(0, i as int)).len(),
            ccs@.len() == dcs@.len(),
            forall|k: int|
                0 <= k < dcs@.len() ==> case_matches_desc(
                    #[trigger] dcs@[k],
                    spec_case_sigs(cases@.subrange(0, i as int))[k],
                ),
            forall|k: int|
                0 <= k < ccs@.len() ==> case_matches_change(
                    #[trigger] ccs@[k],
                    spec_case_sigs(cases@.subrange(0, i as int))[k],
                ),
        decreases cases@.len() - i,
    {
        proof {
            assert(cases@.subrange(0, i + 1).drop_last() =~= cases@.subrange(0, i as int));
            assert(cases@.subrange(0, i + 1).last() == cases@[i as int]);
        }
        if !has_annotation(&cases[i].attrs, AnnotationKind::Ignore) {
            let ghost sig = CaseSigV {
                name: cases@[i as int].name@,
                style: cases@[i as int].style,
                fields: spec_field_sigs(cases@[i as int].fields@),
            };
            let case_fields = &cases[i].fields;
            let dfields: CaseFieldsDecl;
            let cfields: CaseFieldsDecl;
            match cases[i].style {
                CaseStyle::Unit => {
                    dfields = CaseFieldsDecl::Unit;
                    cfields = CaseFieldsDecl::Unit;
                },
                CaseStyle::Positional => {
                    let mut dts: Vec<TypeExpr> = Vec::new();
                    let mut cts: Vec<TypeExpr> = Vec::new();
                    let mut j: usize = 0;
                    while j < case_fields.len()
                        invariant
                            j <= case_fields@.len(),
                            dts@.len() == spec_field_sigs(
                                case_fields@.subrange(0, j as int),
                            ).len(),
                            cts@.len() == dts@.len(),
                            forall|l: int|
                                0 <= l < dts@.len() ==> ((#[trigger] dts@[l]) matches
                                TypeExpr::DescOf(t) && t@ == spec_field_sigs(
                                    case_fields@.subrange(0, j as int),
                                )[l].ty),
                            forall|l: int|
                                0 <= l < cts@.len() ==> ((#[trigger] cts@[l]) matches
                                TypeExpr::ChangedOf(b) && (*b matches TypeExpr::ChangeOf(t) && t@
                                    == spec_field_sigs(case_fields@.subrange(0, j as int))[l].ty)),
                        decreases case_fields@.len() - j,
                    {
                        proof {
                            assert(case_fields@.subrange(0, j + 1).drop_last()
                                =~= case_fields@.subrange(0, j as int));
                            assert(case_fields@.subrange(0, j + 1).last()
                                == case_fields@[j as int]);
                        }
                        if !has_annotation(&case_fields[j].attrs, AnnotationKind::Ignore) {
                            dts.push(TypeExpr::DescOf(case_fields[j].ty.clone()));
                            cts.push(
                                TypeExpr::ChangedOf(
                                    Box::new(TypeExpr::ChangeOf(case_fields[j].ty.clone())),
                                ),
                            );
                        }
                        j = j + 1;
                    }
                    proof {
                        assert(case_fields@.subrange(0, case_fields@.len() as int)
                            =~= case_fields@);
                    }
                    dfields = CaseFieldsDecl::Tuple(dts);
                    cfields = CaseFieldsDecl::Tuple(cts);
                },
                CaseStyle::Named => {
                    let mut dfs: Vec<FieldDecl> = Vec::new();
                    let mut cfs: Vec<FieldDecl> = Vec::new();
                    let mut j: usize = 0;
                    while j < case_fields.len()
                        invariant
                            j <= case_fields@.len(),
                            case_wf(cases@[i as int]),
                            cases@[i as int].style == CaseStyle::Named,
                            case_fields@ == cases@[i as int].fields@,
                            dfs@.len() == spec_field_sigs(
                                case_fields@.subrange(0, j as int),
                            ).len(),
                            cfs@.len() == dfs@.len(),
                            forall|l: int|
                                0 <= l < dfs@.len() ==> (#[trigger] dfs@[l]).name@
                                    == spec_field_sigs(case_fields@.subrange(0, j as int))[l].name->0
                                    && (dfs@[l].ty matches TypeExpr::DescOf(t) && t@
                                    == spec_field_sigs(case_fields@.subrange(0, j as int))[l].ty),
                            forall|l: int|
                                0 <= l < cfs@.len() ==> (#[trigger] cfs@[l]).name@
                                    == spec_field_sigs(case_fields@.subrange(0, j as int))[l].name->0
                                    && (cfs@[l].ty matches TypeExpr::ChangedOf(b) && (*b matches
                                TypeExpr::ChangeOf(t) && t@ == spec_field_sigs(
                                    case_fields@.subrange(0, j as int),
                                )[l].ty)),
                        decreases case_fields@.len() - j,
                    {
                        proof {
                            assert(case_fields@.subrange(0, j + 1).drop_last()
                                =~= case_fields@.subrange(0, j as int));
                            assert(case_fields@.subrange(0, j + 1).last()
                                == case_fields@[j as int]);
                        }
                        if !has_annotation(&case_fields[j].attrs, AnnotationKind::Ignore) {
                            let fname: String = match &case_fields[j].name {
                                Some(n) => n.clone(),
                                None => {
                                    proof {
                                        assert(cases@[i as int].fields@[j as int].name is Some);
                                        assert(false);
                                    }
                                    String::new()
                                },
                            };
                            dfs.push(
                                FieldDecl {
                                    name: fname.clone(),
                                    ty: TypeExpr::DescOf(case_fields[j].ty.clone()),
                                },
                            );
                            cfs.push(
                                FieldDecl {
                                    name: fname,
                                    ty: TypeExpr::ChangedOf(
                                        Box::new(TypeExpr::ChangeOf(case_fields[j].ty.clone())),
                                    ),
                                },
                            );
                        }
                        j = j + 1;
                    }
                    proof {
                        assert(case_fields@.subrange(0, case_fields@.len() as int)
                            =~= case_fields@);
                    }
                    dfields = CaseFieldsDecl::Named(dfs);
                    cfields = CaseFieldsDecl::Named(cfs);
                },
            }
            let ghost old_dcs = dcs@;
            let ghost old_ccs = ccs@;
            dcs.push(CaseDecl { name: CaseName::Ident(cases[i].name.clone()), fields: dfields });
            ccs.push(CaseDecl { name: CaseName::Ident(cases[i].name.clone()), fields: cfields });
            proof {
                assert(spec_case_sigs(cases@.subrange(0, i + 1)) == spec_case_sigs(
                    cases@.subrange(0, i as int),
                ).push(sig));
                assert(case_matches_desc(dcs@.last(), sig));
                assert(case_matches_change(ccs@.last(), sig));
                assert forall|k: int| 0 <= k < dcs@.len() implies case_matches_desc(
                    #[trigger] dcs@[k],
                    spec_case_sigs(cases@.subrange(0, i + 1))[k],
                ) by {
                    if k < old_dcs.len() {
                        assert(dcs@[k] == old_dcs[k]);
                    }
                }
                assert forall|k: int| 0 <= k < ccs@.len() implies case_matches_change(
                    #[trigger] ccs@[k],
                    spec_case_sigs(cases@.subrange(0, i + 1))[k],
                ) by {
                    if k < old_ccs.len() {
                        assert(ccs@[k] == old_ccs[k]);
                    }
                }
            }
        }
        i = i + 1;
    }
    proof {
        assert(cases@.subrange(0, cases@.len() as int) =~= cases@);
    }
    let desc_decl = enum_definition(vis, &desc_ty_name, dcs);
    let change_decl = enum_definition(vis, &change_ty_name, ccs);
    let di = define_delta_impl(
        &ty_name,
        TypeExpr::Named(desc_ty_name.clone()),
        DescBody::MirrorMatch,
        TypeExpr::VariantChangeOf(
            Box::new(TypeExpr::SelfDesc),
            Box::new(TypeExpr::Named(change_ty_name.clone())),
        ),
        CompareBody::MatchCases,
    );
    let mut decls: Vec<TypeDecl> = Vec::new();
    decls.push(desc_decl);
    decls.push(change_decl);
    Generated { decls, delta_impl: di, is_unchanged_impl: Some(change_ty_name) }
}

/// Synthesize the declarations and plan for one source type: records and
/// variant types by their shape rules; a malformed annotation payload or a
/// union aborts generation for the type, the payloads examined first, as
/// generation reads them first.
pub fn derive_delta(input: &SourceType) -> (r: Result<Generated, GenError>)
    requires
        input.data matches SourceData::Variant(cs) ==> forall|i: int|
            0 <= i < cs@.len() ==> case_wf(#[trigger] cs@[i]),
    ensures
        r is Err <==> type_payload_bad(input.attrs@) || body_payload_bad(input.attrs@)
            || input.data is Union,
        r matches Err(GenError::MalformedDescribeType { ty_name, .. }) ==> type_payload_bad(
            input.attrs@,
        ) && ty_name@ == input.name@,
        r matches Err(GenError::MalformedDescribeBody { ty_name, .. }) ==> body_payload_bad(
            input.attrs@,
        ) && !type_payload_bad(input.attrs@) && ty_name@ == input.name@,
        r matches Err(GenError::UnsupportedUnion { ty_name }) ==> input.data is Union
            && !type_payload_bad(input.attrs@) && !body_payload_bad(input.attrs@) && ty_name@
            == input.name@,
        r matches Ok(g) ==> {
            &&& g.delta_impl.ty_name@ == input.name@
            &&& match input.data {
                SourceData::Record(fs) => {
                    &&& desc_type_matches(input.attrs@, g.delta_impl.desc_type)
                    &&& desc_body_matches(input.attrs@, g.delta_impl.desc_body)
                    &&& g.is_unchanged_impl is None
                    &&& record_shape_matches(
                        spec_comparable_fields(fs@),
                        spec_vis(input.attrs@, input.vis),
                        input.name@ + "Change"@,
                        g,
                    )
                },
                SourceData::Variant(cs) => variant_shape_matches(
                    spec_case_sigs(cs@),
                    spec_vis(input.attrs@, input.vis),
                    input.name@ + "Desc"@,
                    input.name@ + "Change"@,
                    g,
                ),
                SourceData::Union(_) => false,
            }
        },
{
    let p = match resolve_policy(input) {
        Ok(p) => p,
        Err(e) => {
            return Err(e);
        },
    };
    match &input.data {
        SourceData::Record(fs) => {
            let infos = comparable_fields(fs);
            Ok(process_record(p, &infos))
        },
        SourceData::Variant(cs) => Ok(process_enum(p, cs)),
        SourceData::Union(_) => Err(GenError::UnsupportedUnion { ty_name: input.name.clone() }),
    }
}

} // verus!
