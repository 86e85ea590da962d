//! The structural description a generation pass works on: type expressions,
//! fields, and the shape of the described data structure, together with their
//! ghost counterparts used by the contracts.

use vstd::prelude::*;

verus! {

/// A type expression, kept only as far as the generator reads it.
///
/// The classifier inspects the head (first) segment of a path type: its name
/// and its generic type arguments.  Everything else — the remaining path
/// segments, or a type that is not a path at all — is carried through as
/// opaque text, never inspected.
#[derive(Debug, PartialEq, Eq)]
pub enum TypeExpr {
    /// A path type such as `Option<String>` or `core::fmt::Error`: the name
    /// of its first segment, that segment's generic type arguments, and the
    /// remaining segments as opaque text (empty for a single-segment path).
    Path { head: String, args: Vec<TypeExpr>, tail: String },
    /// A type of any other shape (reference, tuple, slice, ...), as opaque
    /// text.
    Verbatim(String),
}

/// Ghost counterpart of [`TypeExpr`].
pub enum SpecType {
    Path { head: Seq<char>, args: Seq<SpecType>, tail: Seq<char> },
    Verbatim(Seq<char>),
}

impl TypeExpr {
    /// The ghost value of a type expression.
    pub open spec fn deep(self) -> SpecType
        decreases self,
    {
        match self {
            TypeExpr::Path { head, args, tail } => SpecType::Path {
                head: head@,
                args: deep_of_types(args@),
                tail: tail@,
            },
            TypeExpr::Verbatim(text) => SpecType::Verbatim(text@),
        }
    }
}

/// The ghost values of a sequence of type expressions, element by element.
pub open spec fn deep_of_types(ts: Seq<TypeExpr>) -> Seq<SpecType>
    decreases ts,
{
    if ts.len() == 0 {
        Seq::empty()
    } else {
        deep_of_types(ts.drop_last()).push(ts.last().deep())
    }
}

/// `deep_of_types` maps the sequence element by element.
pub proof fn lemma_deep_of_types(ts: Seq<TypeExpr>)
    ensures
        deep_of_types(ts).len() == ts.len(),
        forall|i: int| 0 <= i < ts.len() ==> deep_of_types(ts)[i] == ts[i].deep(),
    decreases ts.len(),
{
    if ts.len() > 0 {
        lemma_deep_of_types(ts.drop_last());
    }
}

impl TypeExpr {
    /// A structural copy with the same ghost value.
    #[verifier::loop_isolation(false)]
    pub fn duplicate(&self) -> (r: TypeExpr)
        ensures
            r.deep() == self.deep(),
        decreases self,
    {
        match self {
            TypeExpr::Path { head, args, tail } => {
                let mut copied: Vec<TypeExpr> = Vec::new();
                let ghost orig: Seq<TypeExpr> = args@;
                for i in 0..args.len()
                    invariant
                        args@ == orig,
                        copied@.len() == i,
                        forall|j: int| 0 <= j < i ==> copied@[j].deep() == orig[j].deep(),
                    decreases args.len() - i,
                {
                    copied.push(args[i].duplicate());
                }
                proof {
                    lemma_deep_of_types(orig);
                    lemma_deep_of_types(copied@);
                    assert(deep_of_types(copied@) =~= deep_of_types(orig));
                }
                TypeExpr::Path { head: head.clone(), args: copied, tail: tail.clone() }
            },
            TypeExpr::Verbatim(text) => TypeExpr::Verbatim(text.clone()),
        }
    }
}

/// One field of the described structure: its name and its declared type.
#[derive(Debug, PartialEq, Eq)]
pub struct FieldSchema {
    pub name: String,
    pub ty: TypeExpr,
}

/// The shape of the described data: a structure with named fields, or one of
/// the shapes the generator rejects.
#[derive(Debug)]
pub enum DataShape {
    /// A structure with named fields, in declaration order.
    NamedFields(Vec<FieldSchema>),
    /// A structure with positional (unnamed) fields only.
    Positional,
    /// A structure without fields.
    Unit,
    /// An enumeration.
    Enumeration,
    /// An untagged union.
    Untagged,
}

/// The structural description handed to the generator: the structure's name
/// and the shape of its data.
#[derive(Debug)]
pub struct StructDescription {
    pub name: String,
    pub data: DataShape,
}

/// A generation-time failure.  These are fatal: no declarations are produced.
#[derive(Debug, PartialEq, Eq)]
pub enum GenError {
    /// The description is not of a structure.
    NotAStruct,
    /// The description is of a structure without named fields.
    NoNamedFields,
    /// A field's type is named like the optional marker but does not carry
    /// exactly one generic argument.
    MalformedOptional { field: String },
}

} // verus!
