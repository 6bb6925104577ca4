//! Query HTML documents with CSS selectors or XPath expressions.
//!
//! A document is parsed once into two trees: a DOM-style tree for CSS
//! matching and an XPath-evaluable tree, both built from the same source
//! text.  Selected elements are materialized as self-contained snapshots
//! of their serialized markup, which can be introspected or queried again
//! without keeping any reference into the original document.
//!
//! Invalid selectors and expressions are swallowed by design: the only
//! failure signal a query can give is an absent option or an empty vector.

use vstd::prelude::*;

pub mod backend;
pub mod engines;
pub mod model;
pub mod parser;
pub mod query_builders;
pub mod textops;
pub mod types;

pub use parser::HTMLParser;
pub use query_builders::css;
pub use query_builders::xpath;
pub use types::HTMLElement;
pub use types::QueryConfig;
pub use types::QueryType;
pub use types::SelectFirstOptions;
pub use types::SelectManyOptions;

verus! {

/// Parses markup into a document that can be queried with either engine.
/// Parsing is lenient and never fails: malformed markup is recovered into
/// a usable tree.
pub fn parse(content: String) -> (r: HTMLParser)
    ensures
        r@ == content@,
{
    HTMLParser::new(content)
}

} // verus!
