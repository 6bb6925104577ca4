use html_query::css;
use html_query::parse;
use html_query::xpath;
use html_query::SelectFirstOptions;
use html_query::SelectManyOptions;

fn first_opts(q: html_query::QueryConfig) -> SelectFirstOptions {
    SelectFirstOptions { query: q }
}

fn many_opts(q: html_query::QueryConfig, limit: Option<i32>) -> SelectManyOptions {
    SelectManyOptions { query: q, limit }
}

#[test]
fn scenario_first_match_css() {
    let doc = parse("<div id=\"a\"><p class=\"x\">Hi</p></div>".to_string());
    let el = doc
        .select_first(first_opts(css("p.x".to_string())))
        .expect("p.x should match");
    assert_eq!(el.to_string().as_str(), "<p class=\"x\">Hi</p>");
    assert_eq!(el.tag_name(), "P");
    assert_eq!(el.class_name(), "x");
    assert_eq!(el.text(), "Hi");
}

#[test]
fn scenario_limit_one() {
    let doc = parse("<div id=\"a\"><p class=\"x\">Hi</p></div>".to_string());
    let matches = doc.select_many(many_opts(css("div".to_string()), Some(1)));
    assert_eq!(matches.len(), 1);
    assert_eq!(
        matches[0].to_string().as_str(),
        "<div id=\"a\"><p class=\"x\">Hi</p></div>"
    );
}

#[test]
fn scenario_list_in_order() {
    let doc = parse("<ul><li>1</li><li>2</li><li>3</li></ul>".to_string());
    let items = doc.select_many(many_opts(css("li".to_string()), None));
    assert_eq!(items.len(), 3);
    assert_eq!(items[0].text(), "1");
    assert_eq!(items[1].text(), "2");
    assert_eq!(items[2].text(), "3");

    let ul = doc
        .select_first(first_opts(css("ul".to_string())))
        .expect("ul should match");
    let first = ul.first_child().expect("ul has element children");
    assert_eq!(first.text(), "1");
}

#[test]
fn scenario_xpath_string_values() {
    let doc = parse("<ul><li>1</li><li>2</li><li>3</li></ul>".to_string());
    let items = doc.select_many(many_opts(xpath("//li".to_string()), None));
    assert_eq!(items.len(), 3);
    assert_eq!(items[0].to_string().as_str(), "1");
    assert_eq!(items[1].to_string().as_str(), "2");
    assert_eq!(items[2].to_string().as_str(), "3");
}

#[test]
fn scenario_no_span() {
    let doc = parse("<div id=\"a\"><p class=\"x\">Hi</p></div>".to_string());
    assert!(doc.select_first(first_opts(css("span".to_string()))).is_none());
    let matches = doc.select_many(many_opts(css("span".to_string()), None));
    assert!(matches.is_empty());
}

#[test]
fn scenario_missing_attribute_absent() {
    let doc = parse("<div id=\"a\"><p class=\"x\">Hi</p></div>".to_string());
    let el = doc
        .select_first(first_opts(css("p".to_string())))
        .expect("p should match");
    assert!(el.get_attribute("missing".to_string()).is_none());
}

#[test]
fn invalid_selector_swallowed() {
    let doc = parse("<div id=\"a\"><p class=\"x\">Hi</p></div>".to_string());
    assert!(doc.select_first(first_opts(css("[[[".to_string()))).is_none());
    let matches = doc.select_many(many_opts(css("[[[".to_string()), None));
    assert!(matches.is_empty());
}

#[test]
fn invalid_xpath_swallowed() {
    let doc = parse("<ul><li>1</li></ul>".to_string());
    assert!(doc.select_first(first_opts(xpath("///".to_string()))).is_none());
    let matches = doc.select_many(many_opts(xpath("///".to_string()), None));
    assert!(matches.is_empty());
}

#[test]
fn non_nodeset_xpath_swallowed() {
    let doc = parse("<ul><li>1</li><li>2</li></ul>".to_string());
    assert!(doc
        .select_first(first_opts(xpath("count(//li)".to_string())))
        .is_none());
    let matches = doc.select_many(many_opts(xpath("count(//li)".to_string()), None));
    assert!(matches.is_empty());
}

#[test]
fn xpath_select_first_is_first_value() {
    let doc = parse("<ul><li>1</li><li>2</li><li>3</li></ul>".to_string());
    let el = doc
        .select_first(first_opts(xpath("//li".to_string())))
        .expect("//li should match");
    assert_eq!(el.to_string().as_str(), "1");
}

#[test]
fn limit_truncates_in_order() {
    let doc = parse("<ul><li>1</li><li>2</li><li>3</li></ul>".to_string());
    let items = doc.select_many(many_opts(css("li".to_string()), Some(2)));
    assert_eq!(items.len(), 2);
    assert_eq!(items[0].text(), "1");
    assert_eq!(items[1].text(), "2");
}

#[test]
fn limit_zero_or_negative_is_unlimited() {
    let doc = parse("<ul><li>1</li><li>2</li><li>3</li></ul>".to_string());
    let all = doc.select_many(many_opts(css("li".to_string()), Some(0)));
    assert_eq!(all.len(), 3);
    let all = doc.select_many(many_opts(css("li".to_string()), Some(-5)));
    assert_eq!(all.len(), 3);
}

#[test]
fn limit_above_total_returns_all() {
    let doc = parse("<ul><li>1</li><li>2</li><li>3</li></ul>".to_string());
    let all = doc.select_many(many_opts(css("li".to_string()), Some(99)));
    assert_eq!(all.len(), 3);
    let all = doc.select_many(many_opts(xpath("//li".to_string()), Some(99)));
    assert_eq!(all.len(), 3);
}

#[test]
fn engines_called_directly() {
    let doc = parse("<ul><li>1</li><li>2</li><li>3</li></ul>".to_string());
    let first = html_query::engines::select_first_by_css(&doc, "li".to_string())
        .expect("li should match");
    assert_eq!(first.text(), "1");
    let many = html_query::engines::select_many_by_xpath(&doc, "//li".to_string(), Some(2));
    assert_eq!(many.len(), 2);
    assert_eq!(many[0].to_string().as_str(), "1");
}

#[test]
fn malformed_markup_still_parses() {
    let doc = parse("<p>unclosed <b>bold".to_string());
    let el = doc
        .select_first(first_opts(css("b".to_string())))
        .expect("recovered tree should hold the b element");
    assert_eq!(el.text(), "bold");
}
