use html_query::css;
use html_query::parse;
use html_query::xpath;
use html_query::HTMLElement;
use html_query::SelectFirstOptions;
use html_query::SelectManyOptions;

fn select_p() -> HTMLElement {
    let doc = parse(
        "<div><p id=\"i\" class=\"  a   b\tc \" data-x=\"1\">Hi</p></div>".to_string(),
    );
    doc.select_first(SelectFirstOptions {
        query: css("p".to_string()),
    })
    .expect("p should match")
}

#[test]
fn repeated_introspection_is_identical() {
    let el = select_p();
    assert_eq!(el.tag_name(), el.tag_name());
    assert_eq!(el.text(), el.text());
    assert_eq!(el.class_name(), el.class_name());
    assert_eq!(el.class_list(), el.class_list());
    assert_eq!(el.attributes(), el.attributes());
    assert_eq!(el.id(), el.id());
    assert_eq!(el.try_inner_html(), el.try_inner_html());
}

#[test]
fn attributes_map_contents() {
    let el = select_p();
    let attrs = el.attributes();
    assert_eq!(attrs.len(), 3);
    assert_eq!(attrs.get("id").map(String::as_str), Some("i"));
    assert_eq!(attrs.get("class").map(String::as_str), Some("  a   b\tc "));
    assert_eq!(attrs.get("data-x").map(String::as_str), Some("1"));
    assert!(attrs.get("missing").is_none());
}

#[test]
fn id_is_the_id_attribute() {
    let el = select_p();
    assert_eq!(el.id().as_deref(), Some("i"));
}

#[test]
fn class_list_splits_on_whitespace() {
    let el = select_p();
    assert_eq!(el.class_name(), "  a   b\tc ");
    assert_eq!(el.class_list(), vec!["a", "b", "c"]);
}

#[test]
fn no_real_element_defaults() {
    let el = HTMLElement {
        outer_html: "just some text".to_string(),
    };
    assert_eq!(el.tag_name(), "UNKNOWN");
    assert!(el.id().is_none());
    assert_eq!(el.class_name(), "");
    assert!(el.class_list().is_empty());
    assert!(el.attributes().is_empty());
    assert!(el.try_inner_html().is_none());
    assert!(el.first_child().is_none());
    assert!(el.last_child().is_none());
    assert_eq!(el.text(), "just some text");
}

#[test]
fn inner_and_outer_html() {
    let doc = parse("<div><b>x</b>y</div>".to_string());
    let el = doc
        .select_first(SelectFirstOptions {
            query: css("div".to_string()),
        })
        .expect("div should match");
    assert_eq!(el.to_string().as_str(), "<div><b>x</b>y</div>");
    assert_eq!(el.try_inner_html().as_deref(), Some("<b>x</b>y"));
    assert_eq!(el.inner_html(), "<b>x</b>y");
}

#[test]
fn text_joins_runs_with_single_spaces() {
    let doc = parse("<p>a<b>b</b>c</p>".to_string());
    let el = doc
        .select_first(SelectFirstOptions {
            query: css("p".to_string()),
        })
        .expect("p should match");
    assert_eq!(el.text(), "a b c");
}

#[test]
fn first_and_last_child() {
    let doc = parse("<ul><li>1</li><li>2</li><li>3</li></ul>".to_string());
    let ul = doc
        .select_first(SelectFirstOptions {
            query: css("ul".to_string()),
        })
        .expect("ul should match");
    let first = ul.first_child().expect("first child");
    let last = ul.last_child().expect("last child");
    assert_eq!(first.to_string().as_str(), "<li>1</li>");
    assert_eq!(last.to_string().as_str(), "<li>3</li>");
    assert_eq!(first.text(), "1");
    assert_eq!(last.text(), "3");
}

#[test]
fn nested_select_with_limit() {
    let doc = parse("<ul><li>1</li><li>2</li><li>3</li></ul>".to_string());
    let ul = doc
        .select_first(SelectFirstOptions {
            query: css("ul".to_string()),
        })
        .expect("ul should match");
    let items = ul.select_many(SelectManyOptions {
        query: css("li".to_string()),
        limit: Some(2),
    });
    assert_eq!(items.len(), 2);
    assert_eq!(items[0].text(), "1");
    assert_eq!(items[1].text(), "2");
}

#[test]
fn nested_xpath_select() {
    let doc = parse("<ul><li>1</li><li>2</li><li>3</li></ul>".to_string());
    let ul = doc
        .select_first(SelectFirstOptions {
            query: css("ul".to_string()),
        })
        .expect("ul should match");
    let items = ul.select_many(SelectManyOptions {
        query: xpath("//li".to_string()),
        limit: None,
    });
    assert_eq!(items.len(), 3);
    assert_eq!(items[0].to_string().as_str(), "1");
    assert_eq!(items[2].to_string().as_str(), "3");
}

#[test]
fn nested_invalid_selector_swallowed() {
    let el = select_p();
    assert!(el
        .select_first(SelectFirstOptions {
            query: css("[[[".to_string()),
        })
        .is_none());
    let items = el.select_many(SelectManyOptions {
        query: css("[[[".to_string()),
        limit: None,
    });
    assert!(items.is_empty());
}

#[test]
fn snapshot_is_independent_of_document() {
    let el = {
        let doc = parse("<div><p class=\"x\">Hi</p></div>".to_string());
        doc.select_first(SelectFirstOptions {
            query: css("p.x".to_string()),
        })
        .expect("p.x should match")
    };
    // The document is dropped; the snapshot still answers every accessor.
    assert_eq!(el.tag_name(), "P");
    assert_eq!(el.text(), "Hi");
    assert_eq!(el.class_list(), vec!["x"]);
}

#[test]
fn namespaced_attribute_differs_by_accessor() {
    // In foreign content the parser moves `xlink:href` into the xlink
    // namespace: the attributes map still lists it under its local name,
    // while the single-attribute lookup works in the empty namespace.
    let doc = parse("<svg xlink:href=\"x\"></svg>".to_string());
    let el = doc
        .select_first(SelectFirstOptions {
            query: css("svg".to_string()),
        })
        .expect("svg should match");
    let attrs = el.attributes();
    assert_eq!(attrs.get("href").map(String::as_str), Some("x"));
    assert!(el.get_attribute("href".to_string()).is_none());
}

#[test]
fn builders_carry_text_and_kind() {
    let c = css("p.x".to_string());
    assert_eq!(c.query, "p.x");
    assert!(matches!(c.query_type, html_query::QueryType::CSS));
    let x = xpath("//li".to_string());
    assert_eq!(x.query, "//li");
    assert!(matches!(x.query_type, html_query::QueryType::XPath));
}
