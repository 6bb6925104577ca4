//! The mathematical model of querying: which matches a query has, how a
//! limit caps them, what each selection mode must return, and the laws
//! the query engine obeys.

use vstd::multiset::Multiset;
use vstd::prelude::*;

use crate::backend::attr_map_of;
use crate::backend::child_htmls_of;
use crate::backend::css_valid;
use crate::backend::doc_css_matches;
use crate::backend::frag_css_matches;
use crate::backend::id_of;
use crate::backend::inner_html_of;
use crate::backend::local_attrs_of;
use crate::backend::text_runs_of;
use crate::backend::xpath_order_fixed;
use crate::backend::xpath_string_values;
use crate::backend::xpath_value_multiset;
use crate::backend::xpath_yields_nodeset;
use crate::textops::joined;
use crate::textops::split_ws;
use crate::types::class_attr_of;
use crate::types::tag_name_of;
use crate::types::HTMLElement;

verus! {

/// The character sequences behind a vector of strings.
pub open spec fn views(ss: Seq<String>) -> Seq<Seq<char>> {
    ss.map_values(|s: String| s@)
}

/// The markup sequences behind a vector of element snapshots.
pub open spec fn elem_views(es: Seq<HTMLElement>) -> Seq<Seq<char>> {
    es.map_values(|e: HTMLElement| e@)
}

/// The matches of a CSS selector in a document: empty when the selector
/// is invalid, which is indistinguishable from matching nothing.
pub open spec fn css_document_matches(d: Seq<char>, q: Seq<char>) -> Seq<Seq<char>> {
    if css_valid(q) {
        doc_css_matches(d, q)
    } else {
        Seq::empty()
    }
}

/// The matches of a CSS selector in a snapshot's fragment: empty when the
/// selector is invalid.
pub open spec fn css_fragment_matches(s: Seq<char>, q: Seq<char>) -> Seq<Seq<char>> {
    if css_valid(q) {
        frag_css_matches(s, q)
    } else {
        Seq::empty()
    }
}

/// The matches of an XPath expression in document order — meaningful
/// when the engine fixes that order (`xpath_order_fixed`) — or empty
/// when the expression is invalid or yields a non-node-set result, both
/// swallowed identically.
pub open spec fn xpath_matches(s: Seq<char>, e: Seq<char>) -> Seq<Seq<char>> {
    if xpath_yields_nodeset(s, e) {
        xpath_string_values(s, e)
    } else {
        Seq::empty()
    }
}

/// How many values an XPath query selects: the size of its node-set, or
/// zero when the evaluation is swallowed.
pub open spec fn xpath_value_count(s: Seq<char>, e: Seq<char>) -> nat {
    if xpath_yields_nodeset(s, e) {
        xpath_value_multiset(s, e).len()
    } else {
        0
    }
}

/// A positive limit caps the match sequence at that many items; a
/// non-positive or absent limit leaves it whole.
pub open spec fn capped(all: Seq<Seq<char>>, limit: Option<i32>) -> Seq<Seq<char>> {
    match limit {
        Some(l) => {
            if 0 < l && (l as int) < all.len() {
                all.take(l as int)
            } else {
                all
            }
        },
        None => all,
    }
}

/// How long a capped sequence of `n` matches is.
pub open spec fn capped_len(n: int, limit: Option<i32>) -> int {
    match limit {
        Some(l) => {
            if 0 < l && (l as int) < n {
                l as int
            } else {
                n
            }
        },
        None => n,
    }
}

/// Whether a limit means "return every match".
pub open spec fn unlimited(limit: Option<i32>) -> bool {
    match limit {
        Some(l) => l <= 0,
        None => true,
    }
}

/// What a first-match selection must return, given the full document-order
/// match sequence: its head when there is one, else nothing.
pub open spec fn first_result_ok(all: Seq<Seq<char>>, r: Option<HTMLElement>) -> bool {
    &&& r is Some <==> all.len() > 0
    &&& r matches Some(e) ==> e@ == all[0]
}

/// What a first-match XPath selection must return.  When the engine's
/// node order is fixed, exactly the head of the document-order value
/// sequence; in every case, something precisely when the node-set is
/// non-empty, and then one of its values.
pub open spec fn xpath_first_ok(s: Seq<char>, e: Seq<char>, r: Option<HTMLElement>) -> bool {
    &&& xpath_order_fixed(s, e) ==> first_result_ok(xpath_matches(s, e), r)
    &&& r is Some <==> xpath_value_count(s, e) > 0
    &&& r matches Some(el) ==> xpath_value_multiset(s, e).contains(el@)
}

/// What a many-match XPath selection must return.  When the engine's
/// node order is fixed, exactly the capped document-order value
/// sequence; in every case, a swallowed evaluation gives the empty
/// sequence, the length is the capped node-set size, and an unlimited
/// query returns the whole value multiset.
pub open spec fn xpath_many_ok(
    s: Seq<char>,
    e: Seq<char>,
    limit: Option<i32>,
    r: Seq<HTMLElement>,
) -> bool {
    &&& xpath_order_fixed(s, e) ==> elem_views(r) == capped(xpath_matches(s, e), limit)
    &&& !xpath_yields_nodeset(s, e) ==> elem_views(r) == Seq::<Seq<char>>::empty()
    &&& elem_views(r).len() == capped_len(xpath_value_count(s, e) as int, limit)
    &&& unlimited(limit) && xpath_yields_nodeset(s, e) ==> elem_views(r).to_multiset()
        == xpath_value_multiset(s, e)
}

/// Law: a capped result is a prefix of the full match sequence, so a
/// positive limit `l` returns exactly `min(l, total)` matches, in the
/// same order, and a non-positive or absent limit returns them all.
pub proof fn lemma_limit_truncates(all: Seq<Seq<char>>, limit: Option<i32>)
    ensures
        limit matches Some(l) ==> {
            &&& l > 0 && (l as int) <= all.len() ==> capped(all, limit).len() == l as int
            &&& l > 0 && (l as int) > all.len() ==> capped(all, limit).len() == all.len()
            &&& l <= 0 ==> capped(all, limit) == all
        },
        limit is None ==> capped(all, limit) == all,
        capped(all, limit).len() == capped_len(all.len() as int, limit),
        forall|i: int|
            0 <= i < capped(all, limit).len() ==> capped(all, limit)[i] == all[i],
{
}

/// Law: an unlimited many-match CSS query returns the full document-order
/// match sequence, and a first-match CSS query returns exactly its head.
pub proof fn lemma_first_is_head_of_many(d: Seq<char>, q: Seq<char>)
    ensures
        capped(css_document_matches(d, q), None) == css_document_matches(d, q),
        css_document_matches(d, q).len() > 0 ==> capped(css_document_matches(d, q), None)[0]
            == css_document_matches(d, q)[0],
{
}

/// Law: whenever the engine fixes the node order, an unlimited XPath
/// many-match query returns the full document-order value sequence, and
/// any limit returns a prefix of it, keeping that order.
pub proof fn lemma_xpath_order_kept(s: Seq<char>, e: Seq<char>, limit: Option<i32>)
    ensures
        capped(xpath_matches(s, e), None) == xpath_matches(s, e),
        forall|i: int|
            0 <= i < capped(xpath_matches(s, e), limit).len() ==> capped(
                xpath_matches(s, e),
                limit,
            )[i] == xpath_matches(s, e)[i],
{
}

/// Law: a syntactically invalid CSS selector is swallowed: it selects
/// nothing in any document and in any snapshot, so a first-match query
/// returns nothing and a many-match query returns an empty sequence.
pub proof fn lemma_invalid_selector_swallowed(d: Seq<char>, q: Seq<char>)
    requires
        !css_valid(q),
    ensures
        css_document_matches(d, q) == Seq::<Seq<char>>::empty(),
        css_fragment_matches(d, q) == Seq::<Seq<char>>::empty(),
        capped(css_document_matches(d, q), None).len() == 0,
{
}

/// Law: an XPath evaluation that does not yield a node-set — an invalid
/// expression or a string, number or boolean result — is swallowed the
/// same way.
pub proof fn lemma_non_nodeset_swallowed(s: Seq<char>, e: Seq<char>)
    requires
        !xpath_yields_nodeset(s, e),
    ensures
        xpath_matches(s, e) == Seq::<Seq<char>>::empty(),
        xpath_value_count(s, e) == 0,
        capped(xpath_matches(s, e), None).len() == 0,
{
}

/// Law: every derived view of a snapshot is a function of its serialized
/// markup alone, so repeated introspection of the same snapshot — or of
/// two snapshots holding the same markup — yields identical results.
pub proof fn lemma_introspection_deterministic(a: Seq<char>, b: Seq<char>)
    requires
        a == b,
    ensures
        tag_name_of(a) == tag_name_of(b),
        class_attr_of(a) == class_attr_of(b),
        split_ws(class_attr_of(a)) == split_ws(class_attr_of(b)),
        joined(text_runs_of(a)) == joined(text_runs_of(b)),
        inner_html_of(a) == inner_html_of(b),
        attr_map_of(a) == attr_map_of(b),
        local_attrs_of(a) == local_attrs_of(b),
        id_of(a) == id_of(b),
        child_htmls_of(a) == child_htmls_of(b),
{
}

} // verus!
