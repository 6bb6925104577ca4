//! The trusted boundary around the outside parsing and matching engines.
//!
//! Everything the library believes about the HTML parser, the CSS matcher
//! and the XPath evaluator is stated here.  The parse trees themselves are
//! opaque: the contracts speak of the source text a tree was built from,
//! which determines it, since parsing and matching are deterministic.

use vstd::multiset::Multiset;
use vstd::prelude::*;

use crate::parser::HTMLParser;

verus! {

#[verifier::external_type_specification]
#[verifier::external_body]
pub struct ExHtml(scraper::Html);

#[verifier::external_type_specification]
#[verifier::external_body]
pub struct ExPackage(sxd_document::Package);

/// Whether `scraper::Selector::parse` accepts the selector text.
pub uninterp spec fn css_valid(q: Seq<char>) -> bool;

/// The serialized outer markup, in document order, of the elements of the
/// document parsed from `html` that match the (valid) selector `q`.
pub uninterp spec fn doc_css_matches(html: Seq<char>, q: Seq<char>) -> Seq<Seq<char>>;

/// As `doc_css_matches`, but with `html` parsed as an isolated fragment.
pub uninterp spec fn frag_css_matches(html: Seq<char>, q: Seq<char>) -> Seq<Seq<char>>;

/// Whether `sxd_xpath::evaluate_xpath` accepts the expression `e` and
/// returns a node-set (rather than a string, number or boolean) when run
/// against the tree parsed from `html`.
pub uninterp spec fn xpath_yields_nodeset(html: Seq<char>, e: Seq<char>) -> bool;

/// The string values of the node-set that `e` selects in the tree parsed
/// from `html`, as a multiset: which nodes are selected, and what each is
/// worth, is a function of the text and the expression alone, but the
/// order they come back in is not always (see `xpath_order_fixed`).
pub uninterp spec fn xpath_value_multiset(html: Seq<char>, e: Seq<char>) -> Multiset<Seq<char>>;

/// Whether the engine's sort fixes the order of the selected node-set.
/// `Nodeset::document_order` sorts by an index that covers elements,
/// text, comments and attributes but not namespace nodes; two namespace
/// nodes tie, and their relative order follows a per-instance hash seed.
/// This holds exactly when the node-set holds no namespace node — so for
/// every expression that selects along the ordinary axes.
pub uninterp spec fn xpath_order_fixed(html: Seq<char>, e: Seq<char>) -> bool;

/// The string values, in document order, of the node-set that `e` selects
/// in the tree parsed from `html`; meaningful only under
/// `xpath_order_fixed`, since otherwise the engine fixes no order.
pub uninterp spec fn xpath_string_values(html: Seq<char>, e: Seq<char>) -> Seq<Seq<char>>;

/// Whether the fragment parse of `frag` leaves an element-typed child
/// under the implicit root: the "real element" of a snapshot.
pub uninterp spec fn has_real_element(frag: Seq<char>) -> bool;

/// The serialized contents of the real element of `frag`.
pub uninterp spec fn inner_html_of(frag: Seq<char>) -> Seq<char>;

/// The tag name of the real element of `frag`, as the parser stores it.
pub uninterp spec fn tag_of(frag: Seq<char>) -> Seq<char>;

/// What `str::to_uppercase` returns: a function of the characters alone.
pub uninterp spec fn upper_of(s: Seq<char>) -> Seq<char>;

/// The attributes of the real element of `frag` as `Element::attr` looks
/// them up: keyed by name in the empty namespace.  A foreign attribute
/// that the parser adjusted into a namespace (`xmlns`, `xlink:href`,
/// `xml:id`) is not in this map.
pub uninterp spec fn attr_map_of(frag: Seq<char>) -> Map<Seq<char>, Seq<char>>;

/// The attributes of the real element of `frag` as the `Element::attrs`
/// iterator yields them: keyed by local name, whatever the namespace, a
/// later entry overwriting an earlier one with the same local name.
/// Empty when the fragment has no real element.  The iteration order is
/// fixed (the element stores its attributes sorted), so this is a
/// function of the markup alone.
pub uninterp spec fn local_attrs_of(frag: Seq<char>) -> Map<Seq<char>, Seq<char>>;

/// What `Element::id` returns for the real element of `frag`: the value
/// of the first attribute whose local name is `id`, in any namespace.
/// `None` when the fragment has no real element or none of its
/// attributes is so named.
pub uninterp spec fn id_of(frag: Seq<char>) -> Option<Seq<char>>;

/// Whether the real element of `frag` exists and carries an attribute
/// named `name`.
pub open spec fn has_attr(frag: Seq<char>, name: Seq<char>) -> bool {
    has_real_element(frag) && attr_map_of(frag).contains_key(name)
}

/// The text runs of the whole fragment parsed from `frag`, in document
/// order.
pub uninterp spec fn text_runs_of(frag: Seq<char>) -> Seq<Seq<char>>;

/// The serialized outer markup of the element-typed children of the real
/// element of `frag`, in tree order.
pub uninterp spec fn child_htmls_of(frag: Seq<char>) -> Seq<Seq<char>>;

/// Relies on `scraper::Html::parse_document`: lenient HTML parsing that
/// never fails.  The returned tree is opaque; contracts about matching in
/// it speak of the source text instead.
#[verifier::external_body]
pub(crate) fn parse_css_tree(content: &String) -> scraper::Html {
    scraper::Html::parse_document(content.as_str())
}

/// Relies on `sxd_html::parse_html`: error-tolerant HTML parsing into an
/// XPath-evaluable tree that never fails.
#[verifier::external_body]
pub(crate) fn parse_xpath_tree(content: &String) -> sxd_document::Package {
    sxd_html::parse_html(content.as_str())
}

/// Relies on `scraper::Selector::parse` (an invalid selector is refused)
/// and `scraper::Html::select` with `scraper::ElementRef::html` (matches
/// serialized in document order).
#[verifier::external_body]
pub(crate) fn doc_css_all(doc: &HTMLParser, query: &String) -> (r: Option<Vec<String>>)
    ensures
        r is Some <==> css_valid(query@),
        r matches Some(v) ==> crate::model::views(v@) == doc_css_matches(doc@, query@),
{
    match scraper::Selector::parse(query.as_str()) {
        Ok(sel) => Some(doc.document.select(&sel).map(|e| e.html()).collect()),
        Err(_) => None,
    }
}

/// Relies on `scraper::Selector::parse`, `scraper::Html::parse_fragment`
/// and `scraper::Html::select`: the matches of a selector in the fragment
/// parse of `markup`, serialized in document order.
#[verifier::external_body]
pub(crate) fn frag_css_all(markup: &String, query: &String) -> (r: Option<Vec<String>>)
    ensures
        r is Some <==> css_valid(query@),
        r matches Some(v) ==> crate::model::views(v@) == frag_css_matches(markup@, query@),
{
    match scraper::Selector::parse(query.as_str()) {
        Ok(sel) => {
            let fragment = scraper::Html::parse_fragment(markup.as_str());
            Some(fragment.select(&sel).map(|e| e.html()).collect())
        }
        Err(_) => None,
    }
}

/// Relies on `sxd_xpath::evaluate_xpath` (refused expressions and
/// non-node-set results are both reported as `None`) and on
/// `sxd_xpath::nodeset::Nodeset::document_order` with
/// `sxd_xpath::nodeset::Node::string_value`.
#[verifier::external_body]
pub(crate) fn doc_xpath_all(doc: &HTMLParser, expr: &String) -> (r: Option<Vec<String>>)
    ensures
        r is Some <==> xpath_yields_nodeset(doc@, expr@),
        r matches Some(v) ==> crate::model::views(v@).to_multiset() == xpath_value_multiset(
            doc@,
            expr@,
        ),
        r matches Some(v) ==> xpath_order_fixed(doc@, expr@) ==> crate::model::views(v@)
            == xpath_string_values(doc@, expr@),
{
    let document = doc.package.as_document();
    match sxd_xpath::evaluate_xpath(&document, expr.as_str()) {
        Ok(sxd_xpath::Value::Nodeset(ns)) => {
            Some(ns.document_order().iter().map(|n| n.string_value()).collect())
        }
        Ok(_) => None,
        Err(_) => None,
    }
}

/// Relies on `sxd_html::parse_html` and `sxd_xpath::evaluate_xpath`, as
/// `doc_xpath_all` does, with the tree built fresh from `markup`.
#[verifier::external_body]
pub(crate) fn frag_xpath_all(markup: &String, expr: &String) -> (r: Option<Vec<String>>)
    ensures
        r is Some <==> xpath_yields_nodeset(markup@, expr@),
        r matches Some(v) ==> crate::model::views(v@).to_multiset() == xpath_value_multiset(
            markup@,
            expr@,
        ),
        r matches Some(v) ==> xpath_order_fixed(markup@, expr@) ==> crate::model::views(v@)
            == xpath_string_values(markup@, expr@),
{
    let package = sxd_html::parse_html(markup.as_str());
    let document = package.as_document();
    match sxd_xpath::evaluate_xpath(&document, expr.as_str()) {
        Ok(sxd_xpath::Value::Nodeset(ns)) => {
            Some(ns.document_order().iter().map(|n| n.string_value()).collect())
        }
        Ok(_) => None,
        Err(_) => None,
    }
}

/// Relies on `scraper::Html::parse_fragment` and `scraper::ElementRef::wrap`:
/// whether the implicit root has an element-typed child.
#[verifier::external_body]
pub(crate) fn real_element_present(markup: &String) -> (r: bool)
    ensures
        r == has_real_element(markup@),
{
    let fragment = scraper::Html::parse_fragment(markup.as_str());
    let root = fragment.root_element();
    root.children().filter_map(scraper::ElementRef::wrap).next().is_some()
}

/// Relies on `scraper::ElementRef::inner_html`: the serialized contents of
/// the real element, which the precondition guarantees to exist.
#[verifier::external_body]
pub(crate) fn real_inner_html(markup: &String) -> (r: String)
    requires
        has_real_element(markup@),
    ensures
        r@ == inner_html_of(markup@),
{
    let fragment = scraper::Html::parse_fragment(markup.as_str());
    let root = fragment.root_element();
    let element = root.children().filter_map(scraper::ElementRef::wrap).next().unwrap();
    element.inner_html()
}

/// Relies on `scraper::node::Element::name`: the tag name of the real
/// element, absent when the fragment has none.
#[verifier::external_body]
pub(crate) fn real_tag(markup: &String) -> (r: Option<String>)
    ensures
        r is Some <==> has_real_element(markup@),
        r matches Some(t) ==> t@ == tag_of(markup@),
{
    let fragment = scraper::Html::parse_fragment(markup.as_str());
    let root = fragment.root_element();
    let element = root.children().filter_map(scraper::ElementRef::wrap).next();
    element.map(|el| el.value().name().to_string())
}

/// Relies on `str::to_uppercase`: the result depends on the characters
/// alone.
#[verifier::external_body]
pub(crate) fn to_upper(s: &String) -> (r: String)
    ensures
        r@ == upper_of(s@),
{
    s.to_uppercase()
}

/// Relies on `scraper::node::Element::id`: the value of the first
/// attribute of the real element whose local name is `id`, in any
/// namespace — which is how the element reports its id, and not always
/// the same as looking `id` up in the empty namespace.
#[verifier::external_body]
pub(crate) fn real_id(markup: &String) -> (r: Option<String>)
    ensures
        r is Some <==> id_of(markup@) is Some,
        r matches Some(v) ==> id_of(markup@) == Some(v@),
{
    let fragment = scraper::Html::parse_fragment(markup.as_str());
    let root = fragment.root_element();
    let element = root.children().filter_map(scraper::ElementRef::wrap).next();
    element.and_then(|el| el.value().id()).map(|v| v.to_string())
}

/// Relies on `scraper::node::Element::attr`: the value of the named
/// attribute of the real element, absent when there is no real element or
/// no such attribute.
#[verifier::external_body]
pub(crate) fn real_attr(markup: &String, name: &String) -> (r: Option<String>)
    ensures
        r is Some <==> has_attr(markup@, name@),
        r matches Some(v) ==> v@ == attr_map_of(markup@)[name@],
{
    let fragment = scraper::Html::parse_fragment(markup.as_str());
    let root = fragment.root_element();
    let element = root.children().filter_map(scraper::ElementRef::wrap).next();
    element.and_then(|el| el.value().attr(name.as_str())).map(|v| v.to_string())
}

/// Relies on `scraper::ElementRef::text`: the text runs under the
/// fragment's implicit root, in document order.
#[verifier::external_body]
pub(crate) fn fragment_text_runs(markup: &String) -> (r: Vec<String>)
    ensures
        crate::model::views(r@) == text_runs_of(markup@),
{
    let fragment = scraper::Html::parse_fragment(markup.as_str());
    fragment.root_element().text().map(|t| t.to_string()).collect()
}

/// Relies on `scraper::ElementRef::child_elements` and
/// `scraper::ElementRef::html`: the element-typed children of the real
/// element, serialized, in tree order.
#[verifier::external_body]
pub(crate) fn real_child_elements(markup: &String) -> (r: Option<Vec<String>>)
    ensures
        r is Some <==> has_real_element(markup@),
        r matches Some(v) ==> crate::model::views(v@) == child_htmls_of(markup@),
{
    let fragment = scraper::Html::parse_fragment(markup.as_str());
    let root = fragment.root_element();
    let element = root.children().filter_map(scraper::ElementRef::wrap).next();
    element.map(|el| el.child_elements().map(|c| c.html()).collect())
}

} // verus!
