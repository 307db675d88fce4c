use vstd::prelude::*;
use crate::episode::{ConvertError, HeaderCheck};
use crate::json::{document_text, render_episodes};
use crate::table::{parse_episodes, parsed_episodes};

verus! {

/// Converts the bytes of a CSV episode table into the JSON document for its
/// episodes. Fails with `ParseError` exactly where the bytes are not a
/// well-formed table.
pub fn convert(data: &[u8], check: HeaderCheck) -> (r: Result<String, ConvertError>)
    ensures
        r is Ok <==> parsed_episodes(data@, check) is Some,
        r is Err ==> r->Err_0 == ConvertError::ParseError,
        r is Ok ==> r->Ok_0@ == document_text(parsed_episodes(data@, check)->Some_0),
{
    let episodes = parse_episodes(data, check)?;
    Ok(render_episodes(&episodes))
}

} // verus!
