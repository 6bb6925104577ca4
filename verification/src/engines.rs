//! The two selection algorithms, each in a first-match and a many-match
//! mode, plus the shared plumbing that swallows failed compilations,
//! applies the limit and wraps matches into snapshots.

use vstd::multiset::Multiset;
use vstd::prelude::*;

use crate::backend::doc_css_all;
use crate::backend::doc_xpath_all;
use crate::backend::xpath_order_fixed;
use crate::backend::xpath_string_values;
use crate::backend::xpath_value_multiset;
use crate::backend::xpath_yields_nodeset;
use crate::model::capped;
use crate::model::capped_len;
use crate::model::css_document_matches;
use crate::model::elem_views;
use crate::model::first_result_ok;
use crate::model::unlimited;
use crate::model::views;
use crate::model::xpath_first_ok;
use crate::model::xpath_many_ok;
use crate::model::xpath_matches;
use crate::parser::HTMLParser;
use crate::types::HTMLElement;

verus! {

broadcast use vstd::seq_lib::group_to_multiset_ensures;

/// Turns a swallowed failure into the empty match list: an invalid query
/// and a query with no matches are indistinguishable by design.
pub(crate) fn swallow(m: Option<Vec<String>>) -> (r: Vec<String>)
    ensures
        m matches Some(v) ==> r == v,
        m is None ==> r@ =~= Seq::<String>::empty(),
{
    match m {
        Some(v) => v,
        None => Vec::new(),
    }
}

/// The first match as a snapshot, if there is one.
pub(crate) fn head_of(all: Vec<String>) -> (r: Option<HTMLElement>)
    ensures
        r is Some <==> views(all@).len() > 0,
        r matches Some(e) ==> e@ == views(all@)[0],
{
    let mut rest = all;
    if rest.len() > 0 {
        let s = rest.remove(0);
        Some(HTMLElement { outer_html: s })
    } else {
        None
    }
}

/// Caps the match list at a positive limit and wraps each match into an
/// independent snapshot, keeping the order.
pub(crate) fn take_limit(all: Vec<String>, limit: Option<i32>) -> (r: Vec<HTMLElement>)
    ensures
        elem_views(r@) == capped(views(all@), limit),
{
    let ghost full = views(all@);
    let mut rest = all;
    match limit {
        Some(l) => {
            if 0 < l && (l as usize) < rest.len() {
                rest.truncate(l as usize);
                proof {
                    assert(views(rest@) =~= capped(full, limit));
                }
            } else {
                proof {
                    assert(views(rest@) =~= capped(full, limit));
                }
            }
        },
        None => {
            proof {
                assert(views(rest@) =~= capped(full, limit));
            }
        },
    }
    let mut out: Vec<HTMLElement> = Vec::new();
    let mut i: usize = 0;
    while i < rest.len()
        invariant
            i <= rest.len(),
            views(rest@) == capped(full, limit),
            out@.len() == i,
            forall|m: int| 0 <= m < i ==> out@[m]@ == rest@[m]@,
        decreases rest.len() - i,
    {
        let s = rest[i].clone();
        out.push(HTMLElement { outer_html: s });
        i += 1;
    }
    proof {
        assert forall|m: int| 0 <= m < out@.len() implies elem_views(out@)[m] == capped(
            full,
            limit,
        )[m] by {
            assert(views(rest@)[m] == rest@[m]@);
        }
        assert(elem_views(out@) =~= capped(full, limit));
    }
    out
}

/// Builds the first-match result from what an XPath wrapper returned,
/// swallowing a refused evaluation into an absent result.
pub(crate) fn xpath_first_result(
    m: Option<Vec<String>>,
    Ghost(s): Ghost<Seq<char>>,
    Ghost(e): Ghost<Seq<char>>,
) -> (r: Option<HTMLElement>)
    requires
        m is Some <==> xpath_yields_nodeset(s, e),
        m matches Some(v) ==> views(v@).to_multiset() == xpath_value_multiset(s, e),
        m matches Some(v) ==> xpath_order_fixed(s, e) ==> views(v@) == xpath_string_values(s, e),
    ensures
        xpath_first_ok(s, e, r),
{
    let ghost m0 = m;
    let all = swallow(m);
    let ghost av = views(all@);
    proof {
        if m0 is Some {
            assert(av.to_multiset() == xpath_value_multiset(s, e));
            assert(av.len() == av.to_multiset().len());
            if av.len() > 0 {
                assert(av.contains(av[0]));
                assert(av.to_multiset().count(av[0]) > 0);
            }
        } else {
            assert(av =~= Seq::<Seq<char>>::empty());
        }
    }
    head_of(all)
}

/// Builds the many-match result from what an XPath wrapper returned,
/// swallowing a refused evaluation into an empty result and applying the
/// limit.
pub(crate) fn xpath_many_result(
    m: Option<Vec<String>>,
    limit: Option<i32>,
    Ghost(s): Ghost<Seq<char>>,
    Ghost(e): Ghost<Seq<char>>,
) -> (r: Vec<HTMLElement>)
    requires
        m is Some <==> xpath_yields_nodeset(s, e),
        m matches Some(v) ==> views(v@).to_multiset() == xpath_value_multiset(s, e),
        m matches Some(v) ==> xpath_order_fixed(s, e) ==> views(v@) == xpath_string_values(s, e),
    ensures
        xpath_many_ok(s, e, limit, r@),
{
    let ghost m0 = m;
    let all = swallow(m);
    let ghost av = views(all@);
    proof {
        if m0 is Some {
            assert(av.to_multiset() == xpath_value_multiset(s, e));
            assert(av.len() == av.to_multiset().len());
        } else {
            assert(av =~= Seq::<Seq<char>>::empty());
            if xpath_order_fixed(s, e) {
                assert(av =~= xpath_matches(s, e));
            }
        }
    }
    let out = take_limit(all, limit);
    proof {
        assert(capped(av, limit).len() == capped_len(av.len() as int, limit));
        if m0 is None {
            assert(elem_views(out@) =~= Seq::<Seq<char>>::empty());
        }
        if unlimited(limit) {
            assert(capped(av, limit) == av);
        }
    }
    out
}

/// First CSS match in the document, in document order; absent when the
/// selector is invalid or matches nothing.
pub fn select_first_by_css(doc: &HTMLParser, query: String) -> (r: Option<HTMLElement>)
    ensures
        first_result_ok(css_document_matches(doc@, query@), r),
{
    let all = swallow(doc_css_all(doc, &query));
    proof {
        assert(views(all@) =~= css_document_matches(doc@, query@));
    }
    head_of(all)
}

/// First XPath match in the document; absent when the expression is
/// invalid, yields a non-node-set result, or selects no node.
pub fn select_first_by_xpath(doc: &HTMLParser, query: String) -> (r: Option<HTMLElement>)
    ensures
        xpath_first_ok(doc@, query@, r),
{
    let m = doc_xpath_all(doc, &query);
    xpath_first_result(m, Ghost(doc@), Ghost(query@))
}

/// All CSS matches in the document, in document order, capped by a
/// positive limit; empty when the selector is invalid.
pub fn select_many_by_css(doc: &HTMLParser, query: String, limit: Option<i32>) -> (r: Vec<
    HTMLElement,
>)
    ensures
        elem_views(r@) == capped(css_document_matches(doc@, query@), limit),
{
    let all = swallow(doc_css_all(doc, &query));
    proof {
        assert(views(all@) =~= css_document_matches(doc@, query@));
    }
    take_limit(all, limit)
}

/// All XPath matches in the document — the string values of the selected
/// node-set, in document order whenever the engine fixes one — capped by
/// a positive limit; empty when the evaluation does not yield a node-set.
pub fn select_many_by_xpath(doc: &HTMLParser, query: String, limit: Option<i32>) -> (r: Vec<
    HTMLElement,
>)
    ensures
        xpath_many_ok(doc@, query@, limit, r@),
{
    let m = doc_xpath_all(doc, &query);
    xpath_many_result(m, limit, Ghost(doc@), Ghost(query@))
}

} // verus!
