//! The two factories that build immutable query descriptors.

use vstd::prelude::*;

use crate::types::QueryConfig;
use crate::types::QueryType;

verus! {

/// A CSS-selector query over the given selector text.
pub fn css(query: String) -> (r: QueryConfig)
    ensures
        r.query@ == query@,
        r.query_type == QueryType::CSS,
{
    QueryConfig { query, query_type: QueryType::CSS }
}

/// An XPath query over the given expression text.
pub fn xpath(query: String) -> (r: QueryConfig)
    ensures
        r.query@ == query@,
        r.query_type == QueryType::XPath,
{
    QueryConfig { query, query_type: QueryType::XPath }
}

} // verus!
