//! One outbound request and its JSON body.

use vstd::prelude::*;

use crate::json::lookup_entries;
use crate::json::JsonValue;

verus! {

/// One request: the GraphQL document text and its optional variables.
/// Built per call, turned into a body, and discarded.
#[derive(Debug)]
pub struct GraphQLRequest {
    pub query: String,
    pub variables: Option<JsonValue>,
}

impl GraphQLRequest {
    /// A request carrying exactly the given query text and variables.
    pub fn new(query: &str, variables: Option<JsonValue>) -> (r: Self)
        ensures
            r.query@ == query@,
            r.variables == variables,
    {
        GraphQLRequest { query: query.to_owned(), variables }
    }

    /// The request body `{"query": <query>, "variables": <variables>}`,
    /// with `variables` omitted where there are none.
    pub fn to_body_json(self) -> (r: JsonValue)
        ensures
            ({
                &&& r matches JsonValue::Object(entries)
                &&& entries@.len() == (if self.variables is Some {
                    2int
                } else {
                    1int
                })
                &&& entries@[0].0@ == "query"@
                &&& entries@[0].1 == JsonValue::Text(self.query)
                &&& (self.variables matches Some(v) ==> entries@[1].0@ == "variables"@
                    && entries@[1].1 == v)
            }),
            r.spec_get("query"@) == Some(JsonValue::Text(self.query)),
            r.spec_get("variables"@) == self.variables,
    {
        let mut entries: Vec<(String, JsonValue)> = Vec::new();
        entries.push(("query".to_owned(), JsonValue::Text(self.query)));
        if let Some(v) = self.variables {
            entries.push(("variables".to_owned(), v));
        }
        proof {
            reveal_strlit("query");
            reveal_strlit("variables");
            assert("query"@.len() == 5);
            assert("variables"@.len() == 9);
            if entries@.len() == 2 {
                assert(entries@.drop_first().len() == 1);
                assert(entries@.drop_first()[0] == entries@[1]);
                assert(lookup_entries(entries@.drop_first(), "variables"@) == Some(
                    entries@[1].1,
                ));
            } else {
                assert(entries@.drop_first().len() == 0);
                assert(lookup_entries(entries@.drop_first(), "variables"@) is None);
            }
        }
        JsonValue::Object(entries)
    }
}

} // verus!
