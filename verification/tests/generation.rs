use docsite::generator::{generate_html, render};
use docsite::html::{escape_text, serialize_nodes, Attr, Node};
use docsite::model::{DocumentationItem, DocumentationSection, Link};

fn link(url: &str, title: &str) -> Link {
    Link { url: url.to_string(), title: title.to_string() }
}

fn section(title: &str, items: Vec<DocumentationItem>) -> DocumentationSection {
    DocumentationSection { title: title.to_string(), content: items }
}

fn item(links: Vec<Link>) -> DocumentationItem {
    DocumentationItem { links }
}

#[test]
fn deterministic_output() {
    let make = || {
        vec![
            section("Basics", vec![item(vec![link("intro.html", "Introduction")])]),
            section("Advanced", vec![item(vec![link("deep.html", "Deep dive")])]),
        ]
    };
    let first = generate_html(make());
    let second = generate_html(make());
    assert_eq!(first, second);
}

#[test]
fn sanitized_output_equals_raw_rendering() {
    let summary = vec![section("S", vec![item(vec![link("a.html", "A")])])];
    let raw = render(&summary);
    let clean = generate_html(summary);
    assert_eq!(raw, clean);
}

#[test]
fn empty_summary_produces_empty_sidebar() {
    let html = generate_html(vec![]);
    assert!(html.starts_with("<!DOCTYPE html>"));
    assert!(html.contains("<div class=\"sidebar\"></div>"));
    assert!(html.contains("<div class=\"content\">TODO</div>"));
}

#[test]
fn empty_summary_exact_document() {
    let html = generate_html(vec![]);
    let expected = "<!DOCTYPE html>\
<html lang=\"en\">\
<head>\
<title>Hello world</title>\
<meta charset=\"utf-8\"></meta>\
<meta name=\"viewport\" content=\"width=device-width, initial-scale=1.0\"></meta>\
<link rel=\"stylesheet\" href=\"style.css\"></link>\
<script src=\"script.js\"></script>\
</head>\
<body>\
<div class=\"mobile-container\">\
<div class=\"mobile-nav\">\
<div class=\"hamburger\">\
<div class=\"line\"></div>\
<div class=\"line\"></div>\
<div class=\"line\"></div>\
</div>\
<h1>uiua-essentials</h1>\
</div>\
<div class=\"container\">\
<div class=\"sidebar\"></div>\
<div class=\"content\">TODO</div>\
</div>\
</div>\
</body>\
</html>";
    assert_eq!(html, expected);
}

#[test]
fn sidebar_preserves_link_order_across_items() {
    let summary = vec![
        section(
            "A",
            vec![item(vec![link("u1", "t1"), link("u2", "t2")])],
        ),
        section("B", vec![item(vec![link("u3", "t3")])]),
    ];
    let html = generate_html(summary);
    assert!(html.contains(
        "<div class=\"sidebar-section\">\
<div class=\"section-name\">A</div>\
<ul>\
<li><a href=\"u1\">t1</a></li>\
<li><a href=\"u2\">t2</a></li>\
</ul>\
</div>"
    ));
    let p1 = html.find("href=\"u1\"").unwrap();
    let p2 = html.find("href=\"u2\"").unwrap();
    let p3 = html.find("href=\"u3\"").unwrap();
    assert!(p1 < p2 && p2 < p3);
}

#[test]
fn links_flattened_across_items_of_one_section() {
    let summary = vec![section(
        "S",
        vec![
            item(vec![link("u1", "t1"), link("u2", "t2")]),
            item(vec![link("u3", "t3")]),
        ],
    )];
    let html = generate_html(summary);
    assert!(html.contains(
        "<ul>\
<li><a href=\"u1\">t1</a></li>\
<li><a href=\"u2\">t2</a></li>\
<li><a href=\"u3\">t3</a></li>\
</ul>"
    ));
}

#[test]
fn duplicate_links_are_kept_as_is() {
    let summary = vec![section(
        "S",
        vec![item(vec![link("u", "t"), link("u", "t")])],
    )];
    let html = generate_html(summary);
    assert!(html.contains(
        "<li><a href=\"u\">t</a></li><li><a href=\"u\">t</a></li>"
    ));
}

#[test]
fn markup_in_titles_is_escaped_to_inert_text() {
    let summary = vec![section(
        "S",
        vec![item(vec![link("u", "<script>alert(\"x\")</script>")])],
    )];
    let html = generate_html(summary);
    assert!(html.contains("&lt;script&gt;alert(&quot;x&quot;)&lt;/script&gt;"));
    assert!(!html.contains("<script>alert"));
}

#[test]
fn markup_in_section_titles_and_urls_is_escaped() {
    let summary = vec![section(
        "<b>Bold</b>",
        vec![item(vec![link("a\"b&c", "t")])],
    )];
    let html = generate_html(summary);
    assert!(html.contains("<div class=\"section-name\">&lt;b&gt;Bold&lt;/b&gt;</div>"));
    assert!(html.contains("<a href=\"a&quot;b&amp;c\">t</a>"));
}

#[test]
fn escape_text_exact_values() {
    assert_eq!(escape_text("a&b<c>\"d\""), "a&amp;b&lt;c&gt;&quot;d&quot;");
    assert_eq!(escape_text(""), "");
    assert_eq!(escape_text("plain text"), "plain text");
}

#[test]
fn serialize_element_with_attribute_and_text() {
    let node = Node::Element {
        tag: "div".to_string(),
        attrs: vec![Attr { name: "class".to_string(), value: "x".to_string() }],
        children: vec![Node::Text("hi".to_string())],
    };
    assert_eq!(serialize_nodes(&vec![node]), "<div class=\"x\">hi</div>");
}

#[test]
fn serialize_comment_verbatim() {
    let node = Node::Comment("note".to_string());
    assert_eq!(serialize_nodes(&vec![node]), "<!--note-->");
}
