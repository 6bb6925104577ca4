//! The document: one immutable source text and the two parse trees built
//! from it, one for CSS matching and one for XPath evaluation.

use vstd::prelude::*;

use crate::backend::parse_css_tree;
use crate::backend::parse_xpath_tree;
use crate::engines::select_first_by_css;
use crate::engines::select_first_by_xpath;
use crate::engines::select_many_by_css;
use crate::engines::select_many_by_xpath;
use crate::model::capped;
use crate::model::css_document_matches;
use crate::model::elem_views;
use crate::model::first_result_ok;
use crate::model::xpath_first_ok;
use crate::model::xpath_many_ok;
use crate::types::HTMLElement;
use crate::types::QueryType;
use crate::types::SelectFirstOptions;
use crate::types::SelectManyOptions;

verus! {

/// A loaded document.  Both trees are built eagerly from the same source
/// text when the document is constructed, and never change afterwards.
pub struct HTMLParser {
    // Both trees must be parses of `content`: the trusted query
    // contracts in `backend` speak of `content` but read the trees, so
    // they are sound only while that pairing holds.  `new` is the one
    // place allowed to build this struct.
    pub(crate) content: String,
    pub(crate) document: scraper::Html,
    pub(crate) package: sxd_document::Package,
}

impl View for HTMLParser {
    type V = Seq<char>;

    closed spec fn view(&self) -> Seq<char> {
        self.content@
    }
}

impl HTMLParser {
    /// Builds a document from markup.  Parsing is lenient: malformed
    /// markup is recovered per the standard error-tolerant rules, so
    /// construction cannot fail.
    pub fn new(content: String) -> (r: HTMLParser)
        ensures
            r@ == content@,
    {
        let document = parse_css_tree(&content);
        let package = parse_xpath_tree(&content);
        HTMLParser { content, document, package }
    }

    /// The first match of the query in this document, materialized as a
    /// snapshot; absent when the query is invalid or matches nothing.
    pub fn select_first(&self, options: SelectFirstOptions) -> (r: Option<HTMLElement>)
        ensures
            options.query.query_type is CSS ==> first_result_ok(
                css_document_matches(self@, options.query.query@),
                r,
            ),
            options.query.query_type is XPath ==> xpath_first_ok(self@, options.query.query@, r),
    {
        match options.query.query_type {
            QueryType::CSS => select_first_by_css(self, options.query.query),
            QueryType::XPath => select_first_by_xpath(self, options.query.query),
        }
    }

    /// All matches of the query in this document, in document order,
    /// capped by a positive limit; empty when the query is invalid.
    pub fn select_many(&self, options: SelectManyOptions) -> (r: Vec<HTMLElement>)
        ensures
            options.query.query_type is CSS ==> elem_views(r@) == capped(
                css_document_matches(self@, options.query.query@),
                options.limit,
            ),
            options.query.query_type is XPath ==> xpath_many_ok(
                self@,
                options.query.query@,
                options.limit,
                r@,
            ),
    {
        match options.query.query_type {
            QueryType::CSS => select_many_by_css(self, options.query.query, options.limit),
            QueryType::XPath => select_many_by_xpath(self, options.query.query, options.limit),
        }
    }
}

} // verus!
