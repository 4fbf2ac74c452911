//! The policy resolver: per-type annotations become a concrete generation
//! policy — visibility, generated names, and the description strategy.

use vstd::prelude::*;
use crate::decl::{DescBody, TypeExpr};
use crate::names::{parse_expr_text, parse_type_text, parsed_expr_text, parsed_type_text};
use crate::source::{Annotation, AnnotationKind, SourceType, Vis, first_payload, has_annotation, lemma_first_payload_some, spec_first_payload, spec_has};
use vstd::string::StringExecFns;

verus! {

/// A generation-time fatal failure: a malformed annotation payload, or an
/// unsupported source-type kind.  Each carries the name of the offending
/// type; the payload failures carry the parser's own words.
#[derive(Clone, Debug, PartialEq, Eq)]
pub enum GenError {
    MalformedDescribeType { ty_name: String, detail: String },
    MalformedDescribeBody { ty_name: String, detail: String },
    UnsupportedUnion { ty_name: String },
}

/// The resolved generation policy of one source type.
#[derive(Debug, PartialEq, Eq)]
pub struct Policy {
    pub vis: Vis,
    pub ty_name: String,
    pub desc_ty_name: String,
    pub change_ty_name: String,
    pub desc_type: TypeExpr,
    pub desc_body: DescBody,
}

/// The resolved visibility: an explicit private override wins, then an
/// explicit public override, else the source type's own visibility.
pub open spec fn spec_vis(attrs: Seq<Annotation>, source_vis: Vis) -> Vis {
    if spec_has(attrs, AnnotationKind::MarkPrivate) {
        Vis::Inherited
    } else if spec_has(attrs, AnnotationKind::MarkPublic) {
        Vis::Public
    } else {
        source_vis
    }
}

/// The resolved description type: suppression wins, then a well-formed
/// explicit payload, then the default-diff strategy, else the type itself.
pub open spec fn desc_type_matches(attrs: Seq<Annotation>, t: TypeExpr) -> bool {
    if spec_has(attrs, AnnotationKind::NoDescription) {
        t == TypeExpr::Unit
    } else {
        match spec_first_payload(attrs, AnnotationKind::DescribeType) {
            Some(pl) => t matches TypeExpr::Custom(s) && parsed_type_text(pl) == Some(s@),
            None => if spec_has(attrs, AnnotationKind::CompareDefault) {
                t == TypeExpr::SelfChange
            } else {
                t == TypeExpr::SelfTy
            },
        }
    }
}

/// The resolved description computation, in the same priority order.
pub open spec fn desc_body_matches(attrs: Seq<Annotation>, b: DescBody) -> bool {
    if spec_has(attrs, AnnotationKind::NoDescription) {
        b == DescBody::Unit
    } else {
        match spec_first_payload(attrs, AnnotationKind::DescribeBody) {
            Some(pl) => b matches DescBody::Custom(s) && parsed_expr_text(pl) == Some(s@),
            None => if spec_has(attrs, AnnotationKind::CompareDefault) {
                b == DescBody::DefaultDiff
            } else {
                b == DescBody::CloneSelf
            },
        }
    }
}

/// The description-type payload is present and does not parse.
pub open spec fn type_payload_bad(attrs: Seq<Annotation>) -> bool {
    &&& !spec_has(attrs, AnnotationKind::NoDescription)
    &&& spec_first_payload(attrs, AnnotationKind::DescribeType) matches Some(pl)
    &&& parsed_type_text(pl) is None
}

/// The description-body payload is present and does not parse.
pub open spec fn body_payload_bad(attrs: Seq<Annotation>) -> bool {
    &&& !spec_has(attrs, AnnotationKind::NoDescription)
    &&& spec_first_payload(attrs, AnnotationKind::DescribeBody) matches Some(pl)
    &&& parsed_expr_text(pl) is None
}

/// Resolve a source type's annotations into its generation policy, or
/// report the first malformed payload — the description type is examined
/// before the description body, as generation reads them in that order.
pub fn resolve_policy(input: &SourceType) -> (r: Result<Policy, GenError>)
    ensures
        r is Err <==> type_payload_bad(input.attrs@) || body_payload_bad(input.attrs@),
        r matches Err(GenError::MalformedDescribeType { ty_name, .. }) ==> type_payload_bad(
            input.attrs@,
        ) && ty_name@ == input.name@,
        r matches Err(GenError::MalformedDescribeBody { ty_name, .. }) ==> !type_payload_bad(
            input.attrs@,
        ) && body_payload_bad(input.attrs@) && ty_name@ == input.name@,
        r matches Err(e) ==> (e is MalformedDescribeType || e is MalformedDescribeBody),
        r matches Ok(p) ==> {
            &&& p.vis == spec_vis(input.attrs@, input.vis)
            &&& p.ty_name@ == input.name@
            &&& p.desc_ty_name@ == input.name@ + "Desc"@
            &&& p.change_ty_name@ == input.name@ + "Change"@
            &&& desc_type_matches(input.attrs@, p.desc_type)
            &&& desc_body_matches(input.attrs@, p.desc_body)
        },
{
    let vis: Vis = if has_annotation(&input.attrs, AnnotationKind::MarkPrivate) {
        Vis::Inherited
    } else if has_annotation(&input.attrs, AnnotationKind::MarkPublic) {
        Vis::Public
    } else {
        input.vis
    };
    let no_desc = has_annotation(&input.attrs, AnnotationKind::NoDescription);
    let compare_default = has_annotation(&input.attrs, AnnotationKind::CompareDefault);
    proof {
        lemma_first_payload_some(input.attrs@, AnnotationKind::DescribeType);
        lemma_first_payload_some(input.attrs@, AnnotationKind::DescribeBody);
    }
    let desc_type: TypeExpr = if no_desc {
        TypeExpr::Unit
    } else {
        match first_payload(&input.attrs, AnnotationKind::DescribeType) {
            Some(pl) => match parse_type_text(pl.as_str()) {
                Ok(t) => TypeExpr::Custom(t),
                Err(detail) => {
                    return Err(
                        GenError::MalformedDescribeType { ty_name: input.name.clone(), detail },
                    );
                },
            },
            None => if compare_default {
                TypeExpr::SelfChange
            } else {
                TypeExpr::SelfTy
            },
        }
    };
    let desc_body: DescBody = if no_desc {
        DescBody::Unit
    } else {
        match first_payload(&input.attrs, AnnotationKind::DescribeBody) {
            Some(pl) => match parse_expr_text(pl.as_str()) {
                Ok(t) => DescBody::Custom(t),
                Err(detail) => {
                    return Err(
                        GenError::MalformedDescribeBody { ty_name: input.name.clone(), detail },
                    );
                },
            },
            None => if compare_default {
                DescBody::DefaultDiff
            } else {
                DescBody::CloneSelf
            },
        }
    };
    let desc_ty_name = input.name.clone().concat("Desc");
    let change_ty_name = input.name.clone().concat("Change");
    Ok(
        Policy {
            vis,
            ty_name: input.name.clone(),
            desc_ty_name,
            change_ty_name,
            desc_type,
            desc_body,
        },
    )
}

} // verus!
