use neo_ai::html::{
    article_titles, extract_text_from_tags, is_ascii_letter, is_readable, text_of_captures,
    MAX_PAGE_TAGS,
};

#[test]
fn nested_markup_stays_in_the_body() {
    assert_eq!(extract_text_from_tags("<p>Hello <b>world</b></p>"), "Hello <b>world</b>");
}

#[test]
fn bodies_are_joined_in_document_order() {
    let page = "<h1 class=\"t\">Volcano</h1><div><p>  A   volcano \t is</p><h2>Types</h2><p>a rupture.</p><h3>x</h3></div>";
    assert_eq!(extract_text_from_tags(page), "Volcano A volcano is Types a rupture. x");
}

#[test]
fn extraction_is_repeatable() {
    let page = "<p>one</p><h4>skipped</h4><p>two &amp; three</p>";
    let first = extract_text_from_tags(page);
    assert_eq!(first, extract_text_from_tags(page));
    assert_eq!(first, "one two &amp; three");
}

#[test]
fn page_without_tags_gives_no_text() {
    assert_eq!(extract_text_from_tags("plain text"), "");
    assert_eq!(extract_text_from_tags(""), "");
}

#[test]
fn captures_are_read_group_by_group() {
    let found = vec![
        vec![Some("<p>a b</p>".to_string()), Some("a b".to_string()), None, None, None],
        vec![Some("<h2>c</h2>".to_string()), None, None, Some(" c ".to_string()), None],
        vec![Some("x".to_string())],
    ];
    assert_eq!(text_of_captures(&found), "a b c");
}

#[test]
fn titles_are_the_anchors_of_the_results_container() {
    let page = "<html><body><a href=\"/\">Home</a>\
        <div class=\"results\"><ul>\
        <li><a href=\"/A/Volcano\">Volcano</a><cite>...</cite></li>\
        <li><a href=\"/A/Lava\">Lava <b>flow</b></a></li>\
        </ul></div>\
        <div class=\"results\"><a href=\"/x\">Other</a></div></body></html>";
    assert_eq!(article_titles(page), Some(vec!["Volcano".to_string(), "Lava flow".to_string()]));
}

#[test]
fn page_without_results_container_has_no_titles() {
    assert_eq!(article_titles("<html><body><a href=\"/\">Home</a></body></html>"), None);
}

#[test]
fn empty_results_container_lists_nothing() {
    assert_eq!(article_titles("<div class=\"results\"></div>"), Some(vec![]));
}

#[test]
fn body_may_run_over_line_breaks() {
    assert_eq!(extract_text_from_tags("<p>one\ntwo</p>"), "one two");
    assert_eq!(extract_text_from_tags("<p>one\ntwo</p><p>three</p>"), "one two three");
    assert_eq!(extract_text_from_tags("<h1>a</h1>\n<h2>b</h2>"), "a b");
    assert_eq!(extract_text_from_tags("<h1>a\r\nb</h1>\n<h2\nid=\"x\">c\n\nd</h2><h3>\ne\n</h3>"), "a b c d e");
}

#[test]
fn body_ends_at_the_nearest_closing_tag_of_its_name() {
    assert_eq!(extract_text_from_tags("<p>a</p> b <p>c</p>"), "a c");
    assert_eq!(extract_text_from_tags("<h1>a</h2>b</h1>"), "a</h2>b");
    assert_eq!(extract_text_from_tags("<p>open"), "");
}

#[test]
fn empty_bodies_give_no_words() {
    assert_eq!(extract_text_from_tags("<p></p><h1>  </h1><p>x</p>"), "x");
}

fn nested(open: &str, times: usize) -> String {
    let mut page = String::from("<div class=\"results\">");
    for _ in 0..times {
        page.push_str(open);
    }
    page.push_str("<a>deep</a>");
    page
}

#[test]
fn tags_are_counted_where_an_angle_stands_before_a_letter() {
    assert!(is_readable(""));
    assert!(is_readable("<"));
    assert!(is_readable(&"<a>".repeat(MAX_PAGE_TAGS)));
    assert!(!is_readable(&"<a>".repeat(MAX_PAGE_TAGS + 1)));
    assert!(!is_readable(&"<Z".repeat(MAX_PAGE_TAGS + 1)));
    assert!(is_readable(&"</a>< a><1><!--x--><?x>a<<\u{e9}".repeat(4 * MAX_PAGE_TAGS)));
    let mut page = "<a></a>".repeat(MAX_PAGE_TAGS);
    assert!(is_readable(&page));
    page.push('<');
    assert!(is_readable(&page));
    page.push('b');
    assert!(!is_readable(&page));
}

#[test]
fn letters_are_the_ascii_letters() {
    for c in ['a', 'z', 'A', 'Z', 'm', 'Q'] {
        assert!(is_ascii_letter(c), "{:?}", c);
    }
    for c in ['`', '{', '@', '[', '0', '/', '!', ' ', '\u{e9}', '\u{ff41}'] {
        assert!(!is_ascii_letter(c), "{:?}", c);
    }
}

#[test]
fn page_with_as_many_tags_as_are_read_is_read() {
    assert_eq!(MAX_PAGE_TAGS, 500);
    let page = nested("<div>", MAX_PAGE_TAGS - 2);
    assert!(is_readable(&page));
    assert_eq!(article_titles(&page), Some(vec!["deep".to_string()]));
    let page = nested("<span>", MAX_PAGE_TAGS - 2);
    assert_eq!(article_titles(&page), Some(vec!["deep".to_string()]));
}

#[test]
fn nested_tables_within_the_bound_are_read() {
    let page = nested("<table><td>", (MAX_PAGE_TAGS - 2) / 2);
    assert!(is_readable(&page));
    assert_eq!(article_titles(&page), Some(vec!["deep".to_string()]));
    let mut text = String::from("<div class=\"results\"><a>");
    for _ in 0..(MAX_PAGE_TAGS - 2) / 2 {
        text.push_str("<table><td>");
    }
    text.push_str("deep");
    assert_eq!(article_titles(&text), Some(vec!["deep".to_string()]));
}

#[test]
fn page_with_more_tags_than_are_read_lists_nothing() {
    let page = nested("<div>", MAX_PAGE_TAGS - 1);
    assert!(!is_readable(&page));
    assert_eq!(article_titles(&page), None);
    let flat = format!("<div class=\"results\">{}</div>", "<a>t</a>".repeat(MAX_PAGE_TAGS));
    assert_eq!(article_titles(&flat), None);
    assert_eq!(article_titles(&nested("<div>", 100_000)), None);
}

#[test]
fn closing_tags_and_text_do_not_count() {
    let page = format!(
        "<div class=\"results\">{}<a>Etna</a>{}</div>",
        "</i> 1 < 2 ".repeat(2000),
        "x".repeat(100_000)
    );
    assert_eq!(article_titles(&page), Some(vec!["Etna".to_string()]));
}
