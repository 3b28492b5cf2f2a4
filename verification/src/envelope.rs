//! Unwrapping the gateway's response envelope.
//!
//! A response is interpreted in a fixed order: a status outside the success
//! range fails first, without the body being looked at; then the body must
//! be valid JSON; a non-null `errors` key is authoritative and is returned
//! as the GraphQL error list (any `data` beside it is discarded); otherwise
//! the `data` payload is the result, and its absence is a malformed
//! envelope. `spec_response_outcome` states that order as one function of
//! the status and the body text, and `interpret_response` is proved to
//! realize it.

use vstd::prelude::*;

use crate::codec::json_parse;
use crate::codec::parse_json;
use crate::error::HasuraError;
use crate::error::HasuraGraphQLClientError;
use crate::json::find_key;
use crate::json::JsonValue;

verus! {

/// The HTTP success range, as the transport library classifies it.
pub open spec fn spec_status_success(status: u16) -> bool {
    200 <= status < 300
}

/// The envelope's `errors` value, if the key is present.
pub open spec fn spec_errors_value(body: JsonValue) -> Option<JsonValue> {
    body.spec_get("errors"@)
}

/// The envelope carries GraphQL errors: `errors` is present and non-null.
pub open spec fn spec_has_errors(body: JsonValue) -> bool {
    match spec_errors_value(body) {
        Some(e) => !(e is Null),
        None => false,
    }
}

/// The envelope's `data` value, if the key is present.
pub open spec fn spec_data_value(body: JsonValue) -> Option<JsonValue> {
    body.spec_get("data"@)
}

/// An error entry has the expected shape: an object whose `message` is text.
pub open spec fn spec_entry_ok(v: JsonValue) -> bool {
    match v.spec_get("message"@) {
        Some(JsonValue::Text(_)) => true,
        _ => false,
    }
}

/// The `message` text of a well-shaped error entry.
pub open spec fn spec_entry_message(v: JsonValue) -> String
    recommends
        spec_entry_ok(v),
{
    match v.spec_get("message"@) {
        Some(JsonValue::Text(m)) => m,
        _ => vstd::pervasive::arbitrary::<String>(),
    }
}

/// Every element of an `errors` array has the expected shape.
pub open spec fn spec_all_entries_ok(items: Seq<JsonValue>) -> bool {
    forall|j: int| 0 <= j < items.len() ==> #[trigger] spec_entry_ok(items[j])
}

/// The messages of an `errors` array, in order.
pub open spec fn spec_entries_messages(items: Seq<JsonValue>) -> Seq<String> {
    items.map_values(|v: JsonValue| spec_entry_message(v))
}

/// The one outcome a response is mapped to.
pub enum ResponseOutcome {
    /// The status was outside the success range; the body plays no part.
    BadStatus(u16),
    /// The body is not valid JSON, or its `errors` value is not a
    /// well-shaped list of entries.
    Unparsable,
    /// The gateway reported these GraphQL error messages.
    GraphqlErrors(Seq<String>),
    /// A valid envelope with neither `errors` nor `data`.
    MissingData,
    /// The `data` payload.
    Success(JsonValue),
}

/// The outcome of a parsed envelope: a non-null `errors` key short-circuits
/// (well-shaped or not), else `data` decides.
pub open spec fn spec_envelope_outcome(body: JsonValue) -> ResponseOutcome {
    if spec_has_errors(body) {
        match spec_errors_value(body) {
            Some(JsonValue::Array(items)) => {
                if spec_all_entries_ok(items@) {
                    ResponseOutcome::GraphqlErrors(spec_entries_messages(items@))
                } else {
                    ResponseOutcome::Unparsable
                }
            },
            _ => ResponseOutcome::Unparsable,
        }
    } else {
        match spec_data_value(body) {
            Some(d) => ResponseOutcome::Success(d),
            None => ResponseOutcome::MissingData,
        }
    }
}

/// The outcome of a whole response: the status decides first, then the
/// parsed body's envelope.
pub open spec fn spec_response_outcome(status: u16, text: Seq<char>) -> ResponseOutcome {
    if !spec_status_success(status) {
        ResponseOutcome::BadStatus(status)
    } else {
        match json_parse(text) {
            Some(body) => spec_envelope_outcome(body),
            None => ResponseOutcome::Unparsable,
        }
    }
}

/// Which concrete results realize an outcome. Every outcome pins its
/// result: the error list up to its entries' messages, everything else
/// exactly.
pub open spec fn result_matches_outcome(
    r: Result<JsonValue, HasuraGraphQLClientError>,
    o: ResponseOutcome,
) -> bool {
    match o {
        ResponseOutcome::BadStatus(s) => r == Err::<JsonValue, _>(
            HasuraGraphQLClientError::TransportError(Some(s)),
        ),
        ResponseOutcome::Unparsable => r == Err::<JsonValue, _>(
            HasuraGraphQLClientError::BodyParseError,
        ),
        ResponseOutcome::GraphqlErrors(msgs) => {
            &&& r matches Err(HasuraGraphQLClientError::GraphqlError(es))
            &&& es@.len() == msgs.len()
            &&& forall|j: int| 0 <= j < msgs.len() ==> (#[trigger] es@[j]).message == msgs[j]
        },
        ResponseOutcome::MissingData => r == Err::<JsonValue, _>(
            HasuraGraphQLClientError::MissingDataError,
        ),
        ResponseOutcome::Success(d) => r == Ok::<JsonValue, HasuraGraphQLClientError>(d),
    }
}

/// The `message` text of one error entry, where it has the expected shape.
fn entry_message(v: &JsonValue) -> (r: Option<&String>)
    ensures
        r is Some <==> spec_entry_ok(*v),
        r matches Some(m) ==> *m == spec_entry_message(*v),
{
    match v {
        JsonValue::Object(entries) => {
            let key: String = "message".to_owned();
            match find_key(entries, &key) {
                Some(i) => match &entries[i].1 {
                    JsonValue::Text(m) => Some(m),
                    _ => None,
                },
                None => None,
            }
        },
        _ => None,
    }
}

/// The error list of an `errors` array, or nothing where some element is
/// not a well-shaped entry.
fn parse_error_entries(items: &Vec<JsonValue>) -> (r: Option<Vec<HasuraError>>)
    ensures
        r is Some <==> spec_all_entries_ok(items@),
        r matches Some(es) ==> {
            &&& es@.len() == items@.len()
            &&& forall|j: int|
                0 <= j < items@.len() ==> (#[trigger] es@[j]).message == spec_entry_message(
                    items@[j],
                )
        },
{
    let n = items.len();
    let mut out: Vec<HasuraError> = Vec::new();
    for i in 0..n
        invariant
            n == items@.len(),
            out@.len() == i,
            forall|j: int| 0 <= j < i ==> #[trigger] spec_entry_ok(items@[j]),
            forall|j: int| 0 <= j < i ==> (#[trigger] out@[j]).message == spec_entry_message(
                items@[j],
            ),
    {
        match entry_message(&items[i]) {
            Some(m) => {
                let message = m.clone();
                out.push(HasuraError { message });
            },
            None => {
                return None;
            },
        }
    }
    Some(out)
}

/// Maps a parsed envelope to its outcome: the GraphQL error list where a
/// non-null `errors` key stands (any `data` beside it is discarded), else
/// the `data` payload, else the missing-data error.
pub fn interpret_envelope(body: JsonValue) -> (r: Result<JsonValue, HasuraGraphQLClientError>)
    ensures
        result_matches_outcome(r, spec_envelope_outcome(body)),
{
    match body {
        JsonValue::Object(mut entries) => {
            let errors_key: String = "errors".to_owned();
            let mut errors_idx: Option<usize> = None;
            if let Some(i) = find_key(&entries, &errors_key) {
                if !entries[i].1.is_null() {
                    errors_idx = Some(i);
                }
            }
            if let Some(i) = errors_idx {
                match &entries[i].1 {
                    JsonValue::Array(items) => match parse_error_entries(items) {
                        Some(es) => Err(HasuraGraphQLClientError::GraphqlError(es)),
                        None => Err(HasuraGraphQLClientError::BodyParseError),
                    },
                    _ => Err(HasuraGraphQLClientError::BodyParseError),
                }
            } else {
                let data_key: String = "data".to_owned();
                match find_key(&entries, &data_key) {
                    Some(j) => {
                        let pair = entries.remove(j);
                        Ok(pair.1)
                    },
                    None => Err(HasuraGraphQLClientError::MissingDataError),
                }
            }
        },
        _ => Err(HasuraGraphQLClientError::MissingDataError),
    }
}

/// Maps a whole response to its outcome, in the stated order: a status
/// outside the success range fails first, with the body untouched; an
/// unparsable body fails next; then the envelope decides.
pub fn interpret_response(status: u16, text: &str) -> (r: Result<
    JsonValue,
    HasuraGraphQLClientError,
>)
    ensures
        result_matches_outcome(r, spec_response_outcome(status, text@)),
{
    if status < 200 || status >= 300 {
        return Err(HasuraGraphQLClientError::TransportError(Some(status)));
    }
    match parse_json(text) {
        Some(body) => interpret_envelope(body),
        None => Err(HasuraGraphQLClientError::BodyParseError),
    }
}

/// A response in the success range whose body parses to an envelope without
/// GraphQL errors and with a `data` key yields exactly that `data` payload,
/// whatever the query was.
pub proof fn lemma_success_response(status: u16, text: Seq<char>, body: JsonValue, d: JsonValue)
    requires
        spec_status_success(status),
        json_parse(text) == Some(body),
        !spec_has_errors(body),
        spec_data_value(body) == Some(d),
    ensures
        spec_response_outcome(status, text) == ResponseOutcome::Success(d),
{
}

/// A non-null `errors` key is authoritative: two envelopes with the same
/// `errors` value have the same outcome, whatever `data` either of them
/// carries beside it. In particular no `data` is ever returned then.
pub proof fn lemma_errors_ignore_data(b1: JsonValue, b2: JsonValue)
    requires
        spec_has_errors(b1),
        spec_errors_value(b1) == spec_errors_value(b2),
    ensures
        spec_has_errors(b2),
        spec_envelope_outcome(b1) == spec_envelope_outcome(b2),
        !(spec_envelope_outcome(b1) is Success),
{
}

/// A status outside the success range decides the outcome by itself: the
/// body plays no part, so it is never parsed.
pub proof fn lemma_bad_status_short_circuits(status: u16, t1: Seq<char>, t2: Seq<char>)
    requires
        !spec_status_success(status),
    ensures
        spec_response_outcome(status, t1) == ResponseOutcome::BadStatus(status),
        spec_response_outcome(status, t1) == spec_response_outcome(status, t2),
{
}

/// Interpreting a response is deterministic: two results of the same
/// outcome are equal — for a GraphQL error list, equal entry for entry.
pub proof fn lemma_interpretation_deterministic(
    o: ResponseOutcome,
    r1: Result<JsonValue, HasuraGraphQLClientError>,
    r2: Result<JsonValue, HasuraGraphQLClientError>,
)
    requires
        result_matches_outcome(r1, o),
        result_matches_outcome(r2, o),
    ensures
        match (r1, r2) {
            (
                Err(HasuraGraphQLClientError::GraphqlError(e1)),
                Err(HasuraGraphQLClientError::GraphqlError(e2)),
            ) => e1@ == e2@,
            _ => r1 == r2,
        },
{
    if let ResponseOutcome::GraphqlErrors(msgs) = o {
        if let (
            Err(HasuraGraphQLClientError::GraphqlError(e1)),
            Err(HasuraGraphQLClientError::GraphqlError(e2)),
        ) = (r1, r2) {
            assert forall|j: int| 0 <= j < msgs.len() implies e1@[j] == e2@[j] by {
                assert(e1@[j] =~= e2@[j]);
            }
            assert(e1@ =~= e2@);
        }
    }
}

} // verus!
