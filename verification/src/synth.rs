//! Builder synthesis: from the classified field list, the declarations of
//! the accumulator, its setters and its assembly operation, and the one-shot
//! pipeline that runs all stages on a structural description.

use vstd::prelude::*;
use vstd::string::StringExecFns;

use crate::classify::{
    classify_fields, spec_is_malformed_option, spec_is_wf_option, Classification,
    ClassifiedField,
};
use crate::extract::extract_schema;
use crate::model::{DataShape, FieldSchema, GenError, StructDescription, TypeExpr};

verus! {

/// The type of one accumulator slot.
#[derive(Debug, PartialEq, Eq)]
pub enum SlotType {
    /// A required field's slot: the optional marker wrapped around the
    /// field's declared type.
    OptionOf(TypeExpr),
    /// An optional field's slot: the field's declared type verbatim, which
    /// is already an absent/present wrapper by construction.
    Declared(TypeExpr),
}

/// One storage slot of the accumulator, named after its field.
#[derive(Debug, PartialEq, Eq)]
pub struct SlotDecl {
    pub name: String,
    pub ty: SlotType,
}

/// The accumulator's storage layout: one slot per field, in declaration
/// order.  Its initializer sets every slot absent regardless of
/// classification; constructing an accumulator always succeeds.
#[derive(Debug, PartialEq, Eq)]
pub struct AccumulatorLayout {
    pub slots: Vec<SlotDecl>,
}

/// One setter declaration: an operation named after its field, taking one
/// parameter of the field's unwrapped type, storing it as present, and
/// enabling chained calls.
#[derive(Debug, PartialEq, Eq)]
pub struct SetterDecl {
    pub name: String,
    pub param: TypeExpr,
}

/// One step of the assembly operation, in declaration order.
#[derive(Debug, PartialEq, Eq)]
pub enum AssembleStep {
    /// An optional field: read the slot as-is, present or absent.
    CopySlot { field: String },
    /// A required field: unwrap the slot if present, otherwise abort
    /// assembly with a missing-field error naming the field.
    RequireSlot { field: String },
}

/// The generated declaration set for one structure: the accumulator type,
/// the factory association, the setters, and the assembly operation.
#[derive(Debug, PartialEq, Eq)]
pub struct GeneratedSet {
    /// The described structure's name.
    pub source_name: String,
    /// The accumulator type's name: the structure's name with the fixed
    /// `Builder` suffix.
    pub builder_name: String,
    /// The accumulator's storage layout.
    pub layout: AccumulatorLayout,
    /// One setter per field, in declaration order.
    pub setters: Vec<SetterDecl>,
    /// The assembly operation's steps, in declaration order.
    pub assembly: Vec<AssembleStep>,
}

/// The slot a classified field gets: its name, and its declared type either
/// wrapped (required) or verbatim (optional).
pub open spec fn spec_slot_for_classified(c: ClassifiedField, s: SlotDecl) -> bool {
    &&& s.name == c.name
    &&& match c.class {
        Classification::Required(_) => s.ty matches SlotType::OptionOf(t) && t.deep()
            == c.declared.deep(),
        Classification::Optional(_) => s.ty matches SlotType::Declared(t) && t.deep()
            == c.declared.deep(),
    }
}

/// The setter a classified field gets: named after the field, its parameter
/// the unwrapped type — the inner type for optional fields, the declared
/// type for required ones.
pub open spec fn spec_setter_for_classified(c: ClassifiedField, s: SetterDecl) -> bool {
    &&& s.name == c.name
    &&& match c.class {
        Classification::Required(t) => s.param.deep() == t.deep(),
        Classification::Optional(t) => s.param.deep() == t.deep(),
    }
}

/// The assembly step a classified field gets.
pub open spec fn spec_step_for_classified(c: ClassifiedField, st: AssembleStep) -> bool {
    match c.class {
        Classification::Required(_) => st == (AssembleStep::RequireSlot { field: c.name }),
        Classification::Optional(_) => st == (AssembleStep::CopySlot { field: c.name }),
    }
}

/// Derives the accumulator's storage layout from the classified field list:
/// one slot per field, in declaration order.  No validation occurs here.
pub fn synthesize_layout(cs: &Vec<ClassifiedField>) -> (r: AccumulatorLayout)
    ensures
        r.slots@.len() == cs@.len(),
        forall|i: int|
            0 <= i < cs@.len() ==> spec_slot_for_classified(cs@[i], #[trigger] r.slots@[i]),
{
    let mut slots: Vec<SlotDecl> = Vec::new();
    for i in 0..cs.len()
        invariant
            slots@.len() == i,
            forall|j: int|
                0 <= j < i ==> spec_slot_for_classified(cs@[j], #[trigger] slots@[j]),
    {
        let c = &cs[i];
        let ty = match &c.class {
            Classification::Required(_) => SlotType::OptionOf(c.declared.duplicate()),
            Classification::Optional(_) => SlotType::Declared(c.declared.duplicate()),
        };
        slots.push(SlotDecl { name: c.name.clone(), ty });
    }
    AccumulatorLayout { slots }
}

/// Derives one setter per classified field, in declaration order.
pub fn synthesize_setters(cs: &Vec<ClassifiedField>) -> (r: Vec<SetterDecl>)
    ensures
        r@.len() == cs@.len(),
        forall|i: int|
            0 <= i < cs@.len() ==> spec_setter_for_classified(cs@[i], #[trigger] r@[i]),
{
    let mut setters: Vec<SetterDecl> = Vec::new();
    for i in 0..cs.len()
        invariant
            setters@.len() == i,
            forall|j: int|
                0 <= j < i ==> spec_setter_for_classified(cs@[j], #[trigger] setters@[j]),
    {
        let c = &cs[i];
        let param = match &c.class {
            Classification::Required(t) => t.duplicate(),
            Classification::Optional(t) => t.duplicate(),
        };
        setters.push(SetterDecl { name: c.name.clone(), param });
    }
    setters
}

/// Derives the assembly operation's steps, one per classified field, in
/// declaration order.
pub fn synthesize_assembly(cs: &Vec<ClassifiedField>) -> (r: Vec<AssembleStep>)
    ensures
        r@.len() == cs@.len(),
        forall|i: int|
            0 <= i < cs@.len() ==> spec_step_for_classified(cs@[i], #[trigger] r@[i]),
{
    let mut steps: Vec<AssembleStep> = Vec::new();
    for i in 0..cs.len()
        invariant
            steps@.len() == i,
            forall|j: int|
                0 <= j < i ==> spec_step_for_classified(cs@[j], #[trigger] steps@[j]),
    {
        let c = &cs[i];
        let step = match &c.class {
            Classification::Required(_) => AssembleStep::RequireSlot { field: c.name.clone() },
            Classification::Optional(_) => AssembleStep::CopySlot { field: c.name.clone() },
        };
        steps.push(step);
    }
    steps
}

/// The slot a field gets, stated over the field itself.
pub open spec fn spec_slot_for(f: FieldSchema, s: SlotDecl) -> bool {
    &&& s.name == f.name
    &&& if spec_is_wf_option(f.ty) {
        s.ty matches SlotType::Declared(t) && t.deep() == f.ty.deep()
    } else {
        s.ty matches SlotType::OptionOf(t) && t.deep() == f.ty.deep()
    }
}

/// The setter a field gets, stated over the field itself.
pub open spec fn spec_setter_for(f: FieldSchema, s: SetterDecl) -> bool {
    &&& s.name == f.name
    &&& if spec_is_wf_option(f.ty) {
        s.param.deep() == f.ty->args[0].deep()
    } else {
        s.param.deep() == f.ty.deep()
    }
}

/// The assembly step a field gets, stated over the field itself.
pub open spec fn spec_step_for(f: FieldSchema, st: AssembleStep) -> bool {
    if spec_is_wf_option(f.ty) {
        st == (AssembleStep::CopySlot { field: f.name })
    } else {
        st == (AssembleStep::RequireSlot { field: f.name })
    }
}

/// The whole generated set matches the field list, field by field and in
/// declaration order.
pub open spec fn spec_generated_for(name: String, fields: Seq<FieldSchema>, g: GeneratedSet) -> bool {
    &&& g.source_name == name
    &&& g.builder_name@ == name@ + "Builder"@
    &&& g.layout.slots@.len() == fields.len()
    &&& forall|i: int|
        0 <= i < fields.len() ==> spec_slot_for(fields[i], #[trigger] g.layout.slots@[i])
    &&& g.setters@.len() == fields.len()
    &&& forall|i: int|
        0 <= i < fields.len() ==> spec_setter_for(fields[i], #[trigger] g.setters@[i])
    &&& g.assembly@.len() == fields.len()
    &&& forall|i: int|
        0 <= i < fields.len() ==> spec_step_for(fields[i], #[trigger] g.assembly@[i])
}

/// Runs the whole pipeline on one structural description: extraction,
/// classification, and synthesis of the accumulator layout, the setters and
/// the assembly operation.
///
/// Generation is all-or-nothing: a description that is not a named-field
/// structure, or a field whose type is marker-named with the wrong
/// generic-argument arity, aborts generation with a fatal error, and the
/// first such field in declaration order decides the error.
pub fn derive(description: StructDescription) -> (r: Result<GeneratedSet, GenError>)
    ensures
        description.data is Positional || description.data is Unit ==> r == Err::<
            GeneratedSet,
            GenError,
        >(GenError::NoNamedFields),
        description.data is Enumeration || description.data is Untagged ==> r == Err::<
            GeneratedSet,
            GenError,
        >(GenError::NotAStruct),
        description.data matches DataShape::NamedFields(fields) ==> {
            &&& ((forall|i: int|
                0 <= i < fields@.len() ==> !spec_is_malformed_option(fields@[i].ty)) <==> (
            r is Ok))
            &&& r matches Ok(g) ==> spec_generated_for(description.name, fields@, g)
            &&& r matches Err(e) ==> (exists|k: int|
                0 <= k < fields@.len() && #[trigger] spec_is_malformed_option(fields@[k].ty)
                    && (forall|j: int| 0 <= j < k ==> !spec_is_malformed_option(fields@[j].ty))
                    && e == (GenError::MalformedOptional { field: fields@[k].name }))
        },
{
    let StructDescription { name, data } = description;
    let fields = match extract_schema(data) {
        Ok(fields) => fields,
        Err(e) => {
            return Err(e);
        },
    };
    let classified = match classify_fields(fields) {
        Ok(cs) => cs,
        Err(e) => {
            return Err(e);
        },
    };
    let layout = synthesize_layout(&classified);
    let setters = synthesize_setters(&classified);
    let assembly = synthesize_assembly(&classified);
    let builder_name = name.clone().concat("Builder");
    Ok(GeneratedSet { source_name: name, builder_name, layout, setters, assembly })
}

} // verus!
