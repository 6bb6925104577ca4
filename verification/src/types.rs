//! The query descriptors and the element snapshot with its introspection
//! accessors.
//!
//! A snapshot is nothing but serialized markup.  Every accessor re-parses
//! that markup as an isolated fragment; the "real element" is the first
//! element-typed child of the fragment's implicit root, and accessors
//! fall back to type-specific defaults when there is none.

use vstd::prelude::*;
use vstd::string::StringExecFns;

use std::collections::HashMap;

use crate::backend::attr_map_of;
use crate::backend::child_htmls_of;
use crate::backend::frag_css_all;
use crate::backend::frag_xpath_all;
use crate::backend::fragment_text_runs;
use crate::backend::has_attr;
use crate::backend::has_real_element;
use crate::backend::id_of;
use crate::backend::inner_html_of;
use crate::backend::local_attrs_of;
use crate::backend::real_attr;
use crate::backend::real_child_elements;
use crate::backend::real_element_present;
use crate::backend::real_id;
use crate::backend::real_inner_html;
use crate::backend::real_tag;
use crate::backend::tag_of;
use crate::backend::text_runs_of;
use crate::backend::to_upper;
use crate::backend::upper_of;
use crate::engines::head_of;
use crate::engines::swallow;
use crate::engines::take_limit;
use crate::engines::xpath_first_result;
use crate::engines::xpath_many_result;
use crate::model::capped;
use crate::model::css_fragment_matches;
use crate::model::elem_views;
use crate::model::first_result_ok;
use crate::model::views;
use crate::model::xpath_first_ok;
use crate::model::xpath_many_ok;
use crate::textops::join_with_spaces;
use crate::textops::joined;
use crate::textops::split_whitespace;
use crate::textops::split_ws;

verus! {

/// The engine a query runs on.
#[derive(Clone, Copy, PartialEq, Eq, Structural, Debug)]
pub enum QueryType {
    CSS,
    XPath,
}

/// An immutable query descriptor: the selector or expression text and
/// the engine it is meant for.
#[derive(Debug)]
pub struct QueryConfig {
    pub query: String,
    pub query_type: QueryType,
}

/// Options of a first-match selection.
pub struct SelectFirstOptions {
    pub query: QueryConfig,
}

/// Options of a many-match selection; an absent limit, or one of zero or
/// less, means unlimited.
pub struct SelectManyOptions {
    pub query: QueryConfig,
    pub limit: Option<i32>,
}

/// A selected element, held as its serialized outer markup alone: a
/// self-contained snapshot with no reference into the document it came
/// from.
pub struct HTMLElement {
    pub outer_html: String,
}

impl View for HTMLElement {
    type V = Seq<char>;

    open spec fn view(&self) -> Seq<char> {
        self.outer_html@
    }
}

/// The tag name a snapshot reports: the real element's name in upper
/// case, or the sentinel when the fragment has no real element.
pub open spec fn tag_name_of(frag: Seq<char>) -> Seq<char> {
    if has_real_element(frag) {
        upper_of(tag_of(frag))
    } else {
        "UNKNOWN"@
    }
}

/// The class text a snapshot reports: the real element's `class` value,
/// or empty when there is no real element or no such attribute.
pub open spec fn class_attr_of(frag: Seq<char>) -> Seq<char> {
    if has_attr(frag, "class"@) {
        attr_map_of(frag)["class"@]
    } else {
        Seq::empty()
    }
}

impl HTMLElement {
    /// The serialized contents of the real element.  Asking this of a
    /// snapshot without a real element is a documented gap: the caller
    /// must know one exists, or use `try_inner_html`.
    pub fn inner_html(&self) -> (r: String)
        requires
            has_real_element(self@),
        ensures
            r@ == inner_html_of(self@),
    {
        real_inner_html(&self.outer_html)
    }

    /// The serialized contents of the real element, or nothing when the
    /// fragment has no real element.
    pub fn try_inner_html(&self) -> (r: Option<String>)
        ensures
            r is Some <==> has_real_element(self@),
            r matches Some(v) ==> v@ == inner_html_of(self@),
    {
        if real_element_present(&self.outer_html) {
            Some(self.inner_html())
        } else {
            None
        }
    }

    /// All text runs of the fragment, joined by single spaces.
    pub fn text(&self) -> (r: String)
        ensures
            r@ == joined(text_runs_of(self@)),
    {
        let runs = fragment_text_runs(&self.outer_html);
        join_with_spaces(&runs)
    }

    /// The id the real element reports: the value of its first attribute
    /// whose local name is `id`, if any.
    pub fn id(&self) -> (r: Option<String>)
        ensures
            r is Some <==> id_of(self@) is Some,
            r matches Some(v) ==> id_of(self@) == Some(v@),
    {
        real_id(&self.outer_html)
    }

    /// The real element's tag name in upper case, or "UNKNOWN" when the
    /// fragment has no real element.
    pub fn tag_name(&self) -> (r: String)
        ensures
            r@ == tag_name_of(self@),
    {
        match real_tag(&self.outer_html) {
            Some(t) => to_upper(&t),
            None => String::from_str("UNKNOWN"),
        }
    }

    /// The value of the named attribute of the real element, if any.
    pub fn get_attribute(&self, name: String) -> (r: Option<String>)
        ensures
            r is Some <==> has_attr(self@, name@),
            r matches Some(v) ==> v@ == attr_map_of(self@)[name@],
    {
        real_attr(&self.outer_html, &name)
    }

    /// Every attribute of the real element, keyed by its local name, a
    /// later entry overwriting an earlier one with the same local name;
    /// empty when the fragment has no real element.  Relies on
    /// `scraper::node::Element::attrs`.
    #[verifier::external_body]
    pub fn attributes(&self) -> (r: HashMap<String, String>)
        ensures
            forall|k: String| #[trigger] r@.contains_key(k) == local_attrs_of(self@).contains_key(k@),
            forall|k: String| #[trigger] r@.contains_key(k) ==> r@[k]@ == local_attrs_of(self@)[k@],
    {
        let fragment = scraper::Html::parse_fragment(self.outer_html.as_str());
        let root = fragment.root_element();
        let element = root.children().filter_map(scraper::ElementRef::wrap).next();
        let mut attr_map = HashMap::new();
        if let Some(el) = element {
            for (key, value) in el.value().attrs() {
                attr_map.insert(key.to_string(), value.to_string());
            }
        }
        attr_map
    }

    /// The `class` attribute of the real element, or the empty string.
    pub fn class_name(&self) -> (r: String)
        ensures
            r@ == class_attr_of(self@),
    {
        let key = String::from_str("class");
        match real_attr(&self.outer_html, &key) {
            Some(v) => v,
            None => String::new(),
        }
    }

    /// The classes of the real element: its `class` attribute split on
    /// whitespace; empty when there is no real element or no classes.
    pub fn class_list(&self) -> (r: Vec<String>)
        ensures
            views(r@) == split_ws(class_attr_of(self@)),
    {
        let cn = self.class_name();
        split_whitespace(&cn)
    }

    /// The first match of the query inside this snapshot.  The query
    /// runs against trees built fresh from the snapshot markup; nothing
    /// of the originating document is shared.
    pub fn select_first(&self, options: SelectFirstOptions) -> (r: Option<HTMLElement>)
        ensures
            options.query.query_type is CSS ==> first_result_ok(
                css_fragment_matches(self@, options.query.query@),
                r,
            ),
            options.query.query_type is XPath ==> xpath_first_ok(self@, options.query.query@, r),
    {
        match options.query.query_type {
            QueryType::CSS => {
                let all = swallow(frag_css_all(&self.outer_html, &options.query.query));
                proof {
                    assert(views(all@) =~= css_fragment_matches(self@, options.query.query@));
                }
                head_of(all)
            },
            QueryType::XPath => {
                let m = frag_xpath_all(&self.outer_html, &options.query.query);
                xpath_first_result(m, Ghost(self@), Ghost(options.query.query@))
            },
        }
    }

    /// All matches of the query inside this snapshot, in document order,
    /// capped by a positive limit.
    pub fn select_many(&self, options: SelectManyOptions) -> (r: Vec<HTMLElement>)
        ensures
            options.query.query_type is CSS ==> elem_views(r@) == capped(
                css_fragment_matches(self@, options.query.query@),
                options.limit,
            ),
            options.query.query_type is XPath ==> xpath_many_ok(
                self@,
                options.query.query@,
                options.limit,
                r@,
            ),
    {
        match options.query.query_type {
            QueryType::CSS => {
                let all = swallow(frag_css_all(&self.outer_html, &options.query.query));
                proof {
                    assert(views(all@) =~= css_fragment_matches(self@, options.query.query@));
                }
                take_limit(all, options.limit)
            },
            QueryType::XPath => {
                let m = frag_xpath_all(&self.outer_html, &options.query.query);
                xpath_many_result(m, options.limit, Ghost(self@), Ghost(options.query.query@))
            },
        }
    }

    /// The first element-typed child of the real element, as a new
    /// independent snapshot.
    pub fn first_child(&self) -> (r: Option<HTMLElement>)
        ensures
            r is Some <==> has_real_element(self@) && child_htmls_of(self@).len() > 0,
            r matches Some(e) ==> e@ == child_htmls_of(self@)[0],
    {
        match real_child_elements(&self.outer_html) {
            None => None,
            Some(mut v) => {
                if v.len() > 0 {
                    let s = v.remove(0);
                    Some(HTMLElement { outer_html: s })
                } else {
                    None
                }
            },
        }
    }

    /// The last element-typed child of the real element, as a new
    /// independent snapshot.
    pub fn last_child(&self) -> (r: Option<HTMLElement>)
        ensures
            r is Some <==> has_real_element(self@) && child_htmls_of(self@).len() > 0,
            r matches Some(e) ==> e@ == child_htmls_of(self@).last(),
    {
        match real_child_elements(&self.outer_html) {
            None => None,
            Some(mut v) => {
                match v.pop() {
                    Some(s) => Some(HTMLElement { outer_html: s }),
                    None => None,
                }
            },
        }
    }

    /// The full serialized markup of the snapshot.
    pub fn to_string(&self) -> (r: &String)
        ensures
            r@ == self@,
    {
        &self.outer_html
    }
}

} // verus!
