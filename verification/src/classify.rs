//! Optionality classification: deciding, for each field, whether its declared
//! type is the optional marker applied to an inner type.
//!
//! Matching is purely lexical on the outer name — the head of the type's
//! possibly-qualified path.  A user-defined type merely named like the
//! optional marker is classified as optional; this is a documented limitation
//! of structural, syntax-level classification.  A marker-named type whose
//! head segment does not carry exactly one generic argument is a fatal
//! generation error.

use vstd::prelude::*;
use vstd::string::StringExecFns;

use crate::model::{FieldSchema, GenError, TypeExpr};

verus! {

/// The classification of one field.
#[derive(Debug, PartialEq, Eq)]
pub enum Classification {
    /// The field must be set before assembly; the payload is its declared
    /// type.
    Required(TypeExpr),
    /// The field may be left absent; the payload is the inner type wrapped by
    /// the optional marker.
    Optional(TypeExpr),
}

/// A field together with its classification.  The declared type is carried
/// beside the classification so that the synthesizer can lay an optional
/// field's slot down with its declared type verbatim.
#[derive(Debug, PartialEq, Eq)]
pub struct ClassifiedField {
    pub name: String,
    pub declared: TypeExpr,
    pub class: Classification,
}

/// Whether a type expression is lexically optional-marker-named: a path type
/// whose head segment is named `Option`.
pub open spec fn spec_is_option(t: TypeExpr) -> bool {
    t matches TypeExpr::Path { head, .. } && head@ == "Option"@
}

/// Whether a type expression is a well-formed optional type: marker-named
/// with exactly one generic argument on the head segment.
pub open spec fn spec_is_wf_option(t: TypeExpr) -> bool {
    spec_is_option(t) && t->args.len() == 1
}

/// Whether a type expression is marker-named but malformed: not exactly one
/// generic argument on the head segment.
pub open spec fn spec_is_malformed_option(t: TypeExpr) -> bool {
    spec_is_option(t) && t->args.len() != 1
}

/// Whether a field's type is lexically optional-marker-named.
pub fn is_option(field_type: &TypeExpr) -> (r: bool)
    ensures
        r == spec_is_option(*field_type),
{
    match field_type {
        TypeExpr::Path { head, .. } => {
            let marker: String = String::from_str("Option");
            *head == marker
        },
        TypeExpr::Verbatim(_) => false,
    }
}

/// The sole generic argument of a type's head segment, when it carries
/// exactly one; `None` for any other shape.
pub fn option_inner(field_type: &TypeExpr) -> (r: Option<TypeExpr>)
    ensures
        match r {
            Some(inner) => field_type matches TypeExpr::Path { args, .. }
                && args.len() == 1
                && inner.deep() == args[0].deep(),
            None => !(*field_type matches TypeExpr::Path { args, .. } && args.len() == 1),
        },
{
    match field_type {
        TypeExpr::Path { args, .. } => {
            if args.len() == 1 {
                Some(args[0].duplicate())
            } else {
                None
            }
        },
        TypeExpr::Verbatim(_) => None,
    }
}

/// Classifies one field.
///
/// A field is optional iff its declared type is a well-formed optional type;
/// a marker-named type of any other arity is a fatal generation error naming
/// the field; every other type is required as declared.
pub fn classify(f: FieldSchema) -> (r: Result<ClassifiedField, GenError>)
    ensures
        !spec_is_option(f.ty) ==> (r matches Ok(c)
            && c.name == f.name
            && c.declared == f.ty
            && (c.class matches Classification::Required(t) && t.deep() == f.ty.deep())),
        spec_is_wf_option(f.ty) ==> (r matches Ok(c)
            && c.name == f.name
            && c.declared == f.ty
            && (c.class matches Classification::Optional(t) && t.deep() == f.ty->args[0].deep())),
        spec_is_malformed_option(f.ty) ==> r == Err::<ClassifiedField, GenError>(
            GenError::MalformedOptional { field: f.name },
        ),
{
    if is_option(&f.ty) {
        match option_inner(&f.ty) {
            Some(inner) => Ok(ClassifiedField {
                name: f.name,
                declared: f.ty,
                class: Classification::Optional(inner),
            }),
            None => Err(GenError::MalformedOptional { field: f.name }),
        }
    } else {
        let declared_copy = f.ty.duplicate();
        Ok(ClassifiedField {
            name: f.name,
            declared: f.ty,
            class: Classification::Required(declared_copy),
        })
    }
}

/// The relation between a field and its classified form: the name is kept,
/// the declared type is kept (up to its ghost value), and the classification
/// follows the lexical rule.
pub open spec fn spec_classified_for(f: FieldSchema, c: ClassifiedField) -> bool {
    &&& c.name == f.name
    &&& c.declared.deep() == f.ty.deep()
    &&& !spec_is_option(f.ty) ==> (c.class matches Classification::Required(t) && t.deep()
        == f.ty.deep())
    &&& spec_is_wf_option(f.ty) ==> (c.class matches Classification::Optional(t) && t.deep()
        == f.ty->args[0].deep())
}

/// Classifies every field of the list, in declaration order.
///
/// The first malformed optional field (in declaration order) aborts
/// classification with a fatal error naming that field; otherwise every field
/// is classified.
#[verifier::loop_isolation(false)]
pub fn classify_fields(fields: Vec<FieldSchema>) -> (r: Result<Vec<ClassifiedField>, GenError>)
    ensures
        ((forall|i: int|
            0 <= i < fields@.len() ==> !spec_is_malformed_option(fields@[i].ty)) <==> (r is Ok)),
        r matches Ok(cs) ==> cs@.len() == fields@.len() && (forall|i: int|
            0 <= i < fields@.len() ==> spec_classified_for(fields@[i], #[trigger] cs@[i])),
        r matches Err(e) ==> (exists|k: int|
            0 <= k < fields@.len() && #[trigger] spec_is_malformed_option(fields@[k].ty) && (
            forall|j: int| 0 <= j < k ==> !spec_is_malformed_option(fields@[j].ty)) && e
                == (GenError::MalformedOptional { field: fields@[k].name })),
{
    let ghost orig: Seq<FieldSchema> = fields@;
    let mut rest = fields;
    let mut out: Vec<ClassifiedField> = Vec::new();
    while rest.len() > 0
        invariant
            out@.len() + rest@.len() == orig.len(),
            orig.subrange(out@.len() as int, orig.len() as int) == rest@,
            forall|i: int|
                0 <= i < out@.len() ==> spec_classified_for(orig[i], #[trigger] out@[i]),
            forall|i: int| 0 <= i < out@.len() ==> !spec_is_malformed_option(orig[i].ty),
        decreases rest@.len(),
    {
        let ghost k = out@.len() as int;
        let f = rest.remove(0);
        proof {
            assert(f == orig.subrange(k, orig.len() as int)[0]);
            assert(f == orig[k]);
            assert(orig.subrange(k + 1, orig.len() as int) =~= rest@);
        }
        match classify(f) {
            Ok(c) => {
                out.push(c);
            },
            Err(e) => {
                proof {
                    assert(spec_is_malformed_option(orig[k].ty));
                    assert(e == (GenError::MalformedOptional { field: orig[k].name }));
                    assert(forall|j: int| 0 <= j < k ==> !spec_is_malformed_option(orig[j].ty));
                }
                return Err(e);
            },
        }
    }
    proof {
        assert(forall|i: int| 0 <= i < orig.len() ==> !spec_is_malformed_option(orig[i].ty));
    }
    Ok(out)
}

} // verus!
