use delta_synth::decl::{CaseFieldsDecl, CaseName, CompareBody, DeclBody, DescBody, FieldId, TypeExpr};
use delta_synth::policy::{resolve_policy, GenError};
use delta_synth::source::{Annotation, CaseSpec, CaseStyle, FieldSpec, SourceData, SourceType, Vis};
use delta_synth::synth::derive_delta;

fn named_field(name: &str, ty: &str) -> FieldSpec {
    FieldSpec { name: Some(name.to_string()), ty: ty.to_string(), attrs: vec![] }
}

fn positional_field(ty: &str) -> FieldSpec {
    FieldSpec { name: None, ty: ty.to_string(), attrs: vec![] }
}

fn ignored(mut f: FieldSpec) -> FieldSpec {
    f.attrs.push(Annotation::Ignore);
    f
}

fn record(name: &str, attrs: Vec<Annotation>, fields: Vec<FieldSpec>) -> SourceType {
    SourceType {
        name: name.to_string(),
        vis: Vis::Public,
        attrs,
        data: SourceData::Record(fields),
    }
}

#[test]
fn policy_defaults() {
    let input = record("Foo", vec![], vec![]);
    let p = resolve_policy(&input).unwrap();
    assert_eq!(p.vis, Vis::Public);
    assert_eq!(p.ty_name, "Foo");
    assert_eq!(p.desc_ty_name, "FooDesc");
    assert_eq!(p.change_ty_name, "FooChange");
    assert_eq!(p.desc_type, TypeExpr::SelfTy);
    assert_eq!(p.desc_body, DescBody::CloneSelf);
}

#[test]
fn policy_visibility_overrides() {
    let input = record("Foo", vec![Annotation::MarkPrivate], vec![]);
    assert_eq!(resolve_policy(&input).unwrap().vis, Vis::Inherited);
    let input = record("Foo", vec![Annotation::MarkPublic], vec![]);
    assert_eq!(resolve_policy(&input).unwrap().vis, Vis::Public);
    // the private override wins over the public one
    let input = record("Foo", vec![Annotation::MarkPublic, Annotation::MarkPrivate], vec![]);
    assert_eq!(resolve_policy(&input).unwrap().vis, Vis::Inherited);
}

#[test]
fn policy_no_description() {
    let input = record("Foo", vec![Annotation::NoDescription], vec![]);
    let p = resolve_policy(&input).unwrap();
    assert_eq!(p.desc_type, TypeExpr::Unit);
    assert_eq!(p.desc_body, DescBody::Unit);
}

#[test]
fn policy_compare_default() {
    let input = record("Foo", vec![Annotation::CompareDefault], vec![]);
    let p = resolve_policy(&input).unwrap();
    assert_eq!(p.desc_type, TypeExpr::SelfChange);
    assert_eq!(p.desc_body, DescBody::DefaultDiff);
}

#[test]
fn policy_custom_type_is_token_normalized() {
    let input = record(
        "Foo",
        vec![Annotation::DescribeType("Vec<u8>".to_string())],
        vec![],
    );
    let p = resolve_policy(&input).unwrap();
    match p.desc_type {
        TypeExpr::Custom(t) => assert_eq!(t, "Vec < u8 >"),
        other => panic!("expected a custom description type, got {:?}", other),
    }
}

#[test]
fn policy_custom_body() {
    let input = record(
        "Foo",
        vec![Annotation::DescribeBody("self.len()".to_string())],
        vec![],
    );
    let p = resolve_policy(&input).unwrap();
    match p.desc_body {
        DescBody::Custom(t) => assert_eq!(t, "self . len ()"),
        other => panic!("expected a custom description body, got {:?}", other),
    }
}

#[test]
fn policy_malformed_type_payload() {
    let input = record(
        "Foo",
        vec![Annotation::DescribeType("not a type !!".to_string())],
        vec![],
    );
    match resolve_policy(&input) {
        Err(GenError::MalformedDescribeType { ty_name, .. }) => assert_eq!(ty_name, "Foo"),
        other => panic!("expected a malformed-type failure, got {:?}", other),
    }
}

#[test]
fn policy_malformed_body_payload() {
    let input = record(
        "Foo",
        vec![Annotation::DescribeBody("fn fn fn".to_string())],
        vec![],
    );
    match resolve_policy(&input) {
        Err(GenError::MalformedDescribeBody { ty_name, .. }) => assert_eq!(ty_name, "Foo"),
        other => panic!("expected a malformed-body failure, got {:?}", other),
    }
}

#[test]
fn union_is_unsupported() {
    let input = SourceType {
        name: "Foo".to_string(),
        vis: Vis::Public,
        attrs: vec![],
        data: SourceData::Union(vec![]),
    };
    match derive_delta(&input) {
        Err(GenError::UnsupportedUnion { ty_name }) => assert_eq!(ty_name, "Foo"),
        other => panic!("expected the union failure, got {:?}", other),
    }
}

#[test]
fn record_with_no_fields_generates_nothing_to_compare() {
    let input = record("Empty", vec![], vec![]);
    let g = derive_delta(&input).unwrap();
    assert_eq!(g.decls.len(), 0);
    assert_eq!(g.delta_impl.change_type, TypeExpr::Unit);
    assert_eq!(g.delta_impl.compare_body, CompareBody::AlwaysUnchanged);
    assert_eq!(g.is_unchanged_impl, None);
}

#[test]
fn single_field_record_generates_wrapper() {
    let input = record("Wrap", vec![], vec![named_field("inner", "u32")]);
    let g = derive_delta(&input).unwrap();
    assert_eq!(g.decls.len(), 1);
    assert_eq!(g.decls[0].name, "WrapChange");
    assert_eq!(
        g.decls[0].body,
        DeclBody::Tuple(vec![TypeExpr::ChangeOf("u32".to_string())])
    );
    assert_eq!(
        g.delta_impl.change_type,
        TypeExpr::Named("WrapChange".to_string())
    );
    assert_eq!(
        g.delta_impl.compare_body,
        CompareBody::DelegateSingle(FieldId::Named("inner".to_string()))
    );
}

#[test]
fn multi_field_record_generates_case_per_field() {
    // the case names come from the fields' names, in the capitalized form
    let input = record(
        "Pair",
        vec![],
        vec![named_field("first_part", "u32"), named_field("second_part", "String")],
    );
    let g = derive_delta(&input).unwrap();
    assert_eq!(g.decls.len(), 1);
    assert_eq!(g.decls[0].name, "PairChange");
    match &g.decls[0].body {
        DeclBody::Cases(cs) => {
            assert_eq!(cs.len(), 2);
            assert_eq!(cs[0].name, CaseName::Ident("FirstPart".to_string()));
            assert_eq!(
                cs[0].fields,
                CaseFieldsDecl::Tuple(vec![TypeExpr::ChangeOf("u32".to_string())])
            );
            assert_eq!(cs[1].name, CaseName::Ident("SecondPart".to_string()));
            assert_eq!(
                cs[1].fields,
                CaseFieldsDecl::Tuple(vec![TypeExpr::ChangeOf("String".to_string())])
            );
        }
        other => panic!("expected cases, got {:?}", other),
    }
    assert_eq!(
        g.delta_impl.change_type,
        TypeExpr::VecOf(Box::new(TypeExpr::Named("PairChange".to_string())))
    );
    assert_eq!(g.delta_impl.compare_body, CompareBody::CollectFields);
}

#[test]
fn positional_fields_get_indexed_cases() {
    let input = record(
        "Tup",
        vec![],
        vec![positional_field("u8"), positional_field("u16")],
    );
    let g = derive_delta(&input).unwrap();
    match &g.decls[0].body {
        DeclBody::Cases(cs) => {
            assert_eq!(cs[0].name, CaseName::FieldIndex(0));
            assert_eq!(cs[1].name, CaseName::FieldIndex(1));
        }
        other => panic!("expected cases, got {:?}", other),
    }
}

#[test]
fn ignored_field_is_absent_from_generation() {
    // the ignored middle field leaves two comparable fields, whose
    // positions keep the declaration numbering
    let input = record(
        "Trio",
        vec![],
        vec![
            positional_field("u8"),
            ignored(positional_field("u16")),
            positional_field("u32"),
        ],
    );
    let g = derive_delta(&input).unwrap();
    match &g.decls[0].body {
        DeclBody::Cases(cs) => {
            assert_eq!(cs.len(), 2);
            assert_eq!(cs[0].name, CaseName::FieldIndex(0));
            assert_eq!(cs[1].name, CaseName::FieldIndex(2));
        }
        other => panic!("expected cases, got {:?}", other),
    }
}

#[test]
fn variant_type_generates_mirrored_declarations() {
    let input = SourceType {
        name: "Shapeish".to_string(),
        vis: Vis::Public,
        attrs: vec![],
        data: SourceData::Variant(vec![
            CaseSpec {
                name: "Point".to_string(),
                attrs: vec![],
                style: CaseStyle::Named,
                fields: vec![named_field("x", "i64"), named_field("y", "i64")],
            },
            CaseSpec {
                name: "Empty".to_string(),
                attrs: vec![],
                style: CaseStyle::Unit,
                fields: vec![],
            },
            CaseSpec {
                name: "Hidden".to_string(),
                attrs: vec![Annotation::Ignore],
                style: CaseStyle::Positional,
                fields: vec![positional_field("u8")],
            },
        ]),
    };
    let g = derive_delta(&input).unwrap();
    assert_eq!(g.decls.len(), 2);
    assert_eq!(g.decls[0].name, "ShapeishDesc");
    assert_eq!(g.decls[1].name, "ShapeishChange");
    // the ignored case appears in neither declaration
    match &g.decls[0].body {
        DeclBody::Cases(cs) => {
            assert_eq!(cs.len(), 2);
            assert_eq!(cs[0].name, CaseName::Ident("Point".to_string()));
            match &cs[0].fields {
                CaseFieldsDecl::Named(fs) => {
                    assert_eq!(fs.len(), 2);
                    assert_eq!(fs[0].name, "x");
                    assert_eq!(fs[0].ty, TypeExpr::DescOf("i64".to_string()));
                }
                other => panic!("expected named fields, got {:?}", other),
            }
            assert_eq!(cs[1].name, CaseName::Ident("Empty".to_string()));
            assert_eq!(cs[1].fields, CaseFieldsDecl::Unit);
        }
        other => panic!("expected cases, got {:?}", other),
    }
    match &g.decls[1].body {
        DeclBody::Cases(cs) => {
            assert_eq!(cs.len(), 2);
            match &cs[0].fields {
                CaseFieldsDecl::Named(fs) => {
                    assert_eq!(
                        fs[1].ty,
                        TypeExpr::ChangedOf(Box::new(TypeExpr::ChangeOf("i64".to_string())))
                    );
                }
                other => panic!("expected named fields, got {:?}", other),
            }
        }
        other => panic!("expected cases, got {:?}", other),
    }
    assert_eq!(
        g.delta_impl.desc_type,
        TypeExpr::Named("ShapeishDesc".to_string())
    );
    assert_eq!(g.delta_impl.desc_body, DescBody::MirrorMatch);
    assert_eq!(
        g.delta_impl.change_type,
        TypeExpr::VariantChangeOf(
            Box::new(TypeExpr::SelfDesc),
            Box::new(TypeExpr::Named("ShapeishChange".to_string()))
        )
    );
    assert_eq!(g.delta_impl.compare_body, CompareBody::MatchCases);
    assert_eq!(g.is_unchanged_impl, Some("ShapeishChange".to_string()));
}
