//! Schema extraction: the first stage of the pipeline.  It accepts the
//! structural description's data and hands back the ordered field list, or
//! rejects the description before any other stage runs.

use vstd::prelude::*;

use crate::model::{DataShape, FieldSchema, GenError};

verus! {

/// Extracts the ordered list of named fields from the described data.
///
/// Anything that is not a structure fails with [`GenError::NotAStruct`]; a
/// structure whose fields are not named (positional fields, or none at all)
/// fails with [`GenError::NoNamedFields`].  Both are fatal: generation does
/// not continue.
pub fn extract_schema(data: DataShape) -> (r: Result<Vec<FieldSchema>, GenError>)
    ensures
        data matches DataShape::NamedFields(fields) ==> r == Ok::<Vec<FieldSchema>, GenError>(
            fields,
        ),
        data is Positional || data is Unit ==> r == Err::<Vec<FieldSchema>, GenError>(
            GenError::NoNamedFields,
        ),
        data is Enumeration || data is Untagged ==> r == Err::<Vec<FieldSchema>, GenError>(
            GenError::NotAStruct,
        ),
{
    match data {
        DataShape::NamedFields(fields) => Ok(fields),
        DataShape::Positional => Err(GenError::NoNamedFields),
        DataShape::Unit => Err(GenError::NoNamedFields),
        DataShape::Enumeration => Err(GenError::NotAStruct),
        DataShape::Untagged => Err(GenError::NotAStruct),
    }
}

} // verus!
