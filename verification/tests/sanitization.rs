use docsite::html::{serialize_nodes, Attr, Node};
use docsite::sanitize::sanitize;

fn attr(name: &str, value: &str) -> Attr {
    Attr { name: name.to_string(), value: value.to_string() }
}

fn elem(tag: &str, attrs: Vec<Attr>, children: Vec<Node>) -> Node {
    Node::Element { tag: tag.to_string(), attrs, children }
}

fn text(s: &str) -> Node {
    Node::Text(s.to_string())
}

fn comment(s: &str) -> Node {
    Node::Comment(s.to_string())
}

#[test]
fn removes_comments_at_every_depth() {
    let tree = vec![
        comment("top"),
        elem(
            "div",
            vec![],
            vec![
                comment("inner"),
                text("kept"),
                elem("span", vec![], vec![comment("deep"), text("also kept")]),
            ],
        ),
        comment("trailing"),
    ];
    let html = serialize_nodes(&sanitize(&tree));
    assert!(!html.contains("<!--"));
    assert!(!html.contains("-->"));
    assert_eq!(html, "<div>kept<span>also kept</span></div>");
}

#[test]
fn root_level_comment_alone_vanishes() {
    let tree = vec![comment("only")];
    let clean = sanitize(&tree);
    assert_eq!(serialize_nodes(&clean), "");
}

#[test]
fn removes_marker_attribute_and_keeps_all_others() {
    let tree = vec![elem(
        "div",
        vec![attr("data-hk", "0-0-1"), attr("class", "card"), attr("id", "main")],
        vec![elem("a", vec![attr("href", "x"), attr("data-hk", "0-0-2")], vec![text("t")])],
    )];
    let html = serialize_nodes(&sanitize(&tree));
    assert!(!html.contains("data-hk"));
    assert_eq!(html, "<div class=\"card\" id=\"main\"><a href=\"x\">t</a></div>");
}

#[test]
fn keeps_attributes_that_merely_resemble_the_marker() {
    let tree = vec![elem("div", vec![attr("data-hka", "v"), attr("adata-hk", "w")], vec![])];
    let html = serialize_nodes(&sanitize(&tree));
    assert_eq!(html, "<div data-hka=\"v\" adata-hk=\"w\"></div>");
}

#[test]
fn sanitize_is_idempotent() {
    let tree = vec![
        comment("c"),
        elem(
            "div",
            vec![attr("data-hk", "1"), attr("class", "x")],
            vec![comment("inner"), text("body")],
        ),
    ];
    let once = sanitize(&tree);
    let twice = sanitize(&once);
    assert_eq!(serialize_nodes(&once), serialize_nodes(&twice));
}

#[test]
fn leaves_clean_trees_unchanged() {
    let tree = vec![elem("ul", vec![], vec![elem("li", vec![], vec![text("one")])])];
    let html_before = serialize_nodes(&tree);
    let html_after = serialize_nodes(&sanitize(&tree));
    assert_eq!(html_before, html_after);
}
