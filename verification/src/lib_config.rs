//! The derive as a whole: read the annotated struct, then write the code
//! generated for it.

use vstd::prelude::*;
use crate::error::ParseError;
use crate::gen_struct::{derive_text, generate};
use crate::structure::{OriginStruct, StructInput, struct_accepted, struct_outcome};

verus! {

/// Reads the annotated struct and writes the code generated for it, or
/// reports why the struct is rejected. `serde` makes the override struct
/// deserializable.
pub fn derive(input: StructInput, serde: bool) -> (r: Result<String, ParseError>)
    ensures
        r is Ok <==> struct_accepted(input),
        r matches Err(e) ==> struct_outcome(input, Err(e)),
        r matches Ok(s) ==> exists|o: OriginStruct|
            struct_outcome(input, Ok(o)) && o.wf() && s@ == #[trigger] derive_text(o, serde),
{
    let origin = OriginStruct::from_input(input)?;
    let out = generate(&origin, serde);
    assert(struct_outcome(input, Ok(origin)) && origin.wf() && out@ == derive_text(origin, serde));
    Ok(out)
}

} // verus!
