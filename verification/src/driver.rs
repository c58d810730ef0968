//! The decision core of the fetch-and-render run.
//!
//! The surrounding application fetches the payload bytes and prints the
//! annotation views; everything between those two edges — decoding the
//! bytes against the schema, picking the first result group, projecting
//! its items — stands here with a contract.

use vstd::prelude::*;
use crate::json::{json_parse_of, json_text_of, json_from_bytes, json_to_bytes, JsonValue};
use crate::parse::{parse_envelope, envelope_of_json};
use crate::project::{process_result_items, project_item, ProteinAnnotation};
use crate::schema::{AnnotationError, ApiResponse, ResultItem};
use crate::ser::envelope_to_json;

verus! {

/// Decodes a payload into the response envelope.
///
/// Succeeds exactly when the bytes are well-formed JSON denoting a tree
/// the envelope schema accepts, and then returns exactly the envelope
/// that tree denotes; anything else is a schema mismatch, and no
/// partial result is produced.
pub fn decode_envelope(bytes: &[u8]) -> (r: Result<ApiResponse, AnnotationError>)
    ensures
        match r {
            Ok(env) => json_parse_of(bytes@) matches Some(j) && parse_envelope(j) == Some(env@),
            Err(e) => e == AnnotationError::SchemaMismatch && match json_parse_of(bytes@) {
                Some(j) => parse_envelope(j) is None,
                None => true,
            },
        },
{
    match json_from_bytes(bytes) {
        Some(j) => envelope_of_json(&j),
        None => Err(AnnotationError::SchemaMismatch),
    }
}

/// Encodes the envelope as a JSON payload.
///
/// The bytes print a tree that the schema accepts and that denotes
/// exactly `env`: re-serializing a decoded envelope loses nothing.
pub fn encode_envelope(env: &ApiResponse) -> (r: Vec<u8>)
    ensures
        exists|j: JsonValue|
            parse_envelope(j) == Some(env@) && r@ == #[trigger] json_text_of(j),
{
    let j = envelope_to_json(env);
    let out = json_to_bytes(&j);
    proof {
        assert(parse_envelope(j) == Some(env@) && out@ == json_text_of(j));
    }
    out
}

/// Selects the first result group's result sequence.
///
/// The envelope must hold at least one group; an empty group sequence
/// is the empty-result-set error, and nothing is selected.  Further
/// groups are ignored by design.
pub fn first_results<'a>(env: &'a ApiResponse) -> (r: Result<&'a Vec<ResultItem>, AnnotationError>)
    ensures
        match r {
            Ok(items) => env@.responses.len() > 0 && items@.map_values(|it: ResultItem| it@)
                == env@.responses[0].results,
            Err(e) => e == AnnotationError::EmptyResultSet && env@.responses.len() == 0,
        },
{
    if env.responses.len() == 0 {
        Err(AnnotationError::EmptyResultSet)
    } else {
        let first = &env.responses[0];
        proof {
            assert(env@.responses[0] == env.responses@[0]@);
        }
        Ok(&first.results)
    }
}

/// Projects the first result group of an envelope: one annotation view
/// per result item, in item order.  Fails exactly when the envelope
/// holds no result group.
pub fn annotate<'a>(env: &'a ApiResponse) -> (r: Result<
    Vec<ProteinAnnotation<'a>>,
    AnnotationError,
>)
    ensures
        match r {
            Ok(anns) => env@.responses.len() > 0 && anns@.len() == env@.responses[0].results.len()
                && forall|i: int|
                0 <= i < anns@.len() ==> #[trigger] anns@[i]@ == project_item(
                    env@.responses[0].results[i],
                ),
            Err(e) => e == AnnotationError::EmptyResultSet && env@.responses.len() == 0,
        },
{
    match first_results(env) {
        Ok(items) => {
            let anns = process_result_items(items);
            proof {
                assert(forall|i: int|
                    0 <= i < anns@.len() ==> items@[i]@ == env@.responses[0].results[i]);
            }
            Ok(anns)
        },
        Err(e) => Err(e),
    }
}

} // verus!
