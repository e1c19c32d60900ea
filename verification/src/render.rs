//! Composition of the page view tree: a fixed skeleton (head, mobile nav,
//! two-pane layout) around a sidebar built from the documentation summary in
//! strict input order.

use vstd::prelude::*;
use vstd::string::StringExecFns;
use crate::html::{Attr, AttrView, Node, NodeView, node_view, nodes_view, lemma_nodes_view_push};
use crate::model::{
    DocumentationSection, DocumentationSectionView, LinkView, flat_links, lemma_flat_links_push,
};

verus! {

/// An element node, as a mathematical value.
pub open spec fn spec_elem(
    tag: Seq<char>,
    attrs: Seq<AttrView>,
    children: Seq<NodeView>,
) -> NodeView {
    NodeView::Element { tag: tag, attrs: attrs, children: children }
}

/// A `class` attribute, as a mathematical value.
pub open spec fn spec_class(value: Seq<char>) -> AttrView {
    AttrView { name: "class"@, value: value }
}

/// The list entry rendered for one link: an anchor with the link's url as its
/// `href` and the link's title as its text, inside a list item.
pub open spec fn spec_link_node(l: LinkView) -> NodeView {
    spec_elem(
        "li"@,
        Seq::empty(),
        seq![
            spec_elem(
                "a"@,
                seq![AttrView { name: "href"@, value: l.url }],
                seq![NodeView::Text(l.title)],
            ),
        ],
    )
}

/// The list entries for a sequence of links, in order.
pub open spec fn spec_link_nodes(ls: Seq<LinkView>) -> Seq<NodeView>
    decreases ls.len(),
{
    if ls.len() == 0 {
        Seq::empty()
    } else {
        spec_link_nodes(ls.drop_last()).push(spec_link_node(ls.last()))
    }
}

/// Link rendering distributes over appending one link.
pub proof fn lemma_link_nodes_push(ls: Seq<LinkView>, l: LinkView)
    ensures
        spec_link_nodes(ls.push(l)) == spec_link_nodes(ls).push(spec_link_node(l)),
{
    assert(ls.push(l).drop_last() =~= ls);
    assert(ls.push(l).last() == l);
}

/// The sidebar block for one section: the section's title, then one flat,
/// order-preserving list of all links of all its items.
pub open spec fn spec_section_node(s: DocumentationSectionView) -> NodeView {
    spec_elem(
        "div"@,
        seq![spec_class("sidebar-section"@)],
        seq![
            spec_elem("div"@, seq![spec_class("section-name"@)], seq![NodeView::Text(s.title)]),
            spec_elem("ul"@, Seq::empty(), spec_link_nodes(flat_links(s.content))),
        ],
    )
}

/// The sidebar blocks for all sections, in input order.
pub open spec fn spec_sidebar_nodes(ss: Seq<DocumentationSectionView>) -> Seq<NodeView>
    decreases ss.len(),
{
    if ss.len() == 0 {
        Seq::empty()
    } else {
        spec_sidebar_nodes(ss.drop_last()).push(spec_section_node(ss.last()))
    }
}

/// Sidebar rendering distributes over appending one section.
pub proof fn lemma_sidebar_nodes_push(ss: Seq<DocumentationSectionView>, s: DocumentationSectionView)
    ensures
        spec_sidebar_nodes(ss.push(s)) == spec_sidebar_nodes(ss).push(spec_section_node(s)),
{
    assert(ss.push(s).drop_last() =~= ss);
    assert(ss.push(s).last() == s);
}

/// The document head: title, charset and viewport declarations, and the
/// relative references to the bundled stylesheet and script.
pub open spec fn spec_head_node() -> NodeView {
    spec_elem(
        "head"@,
        Seq::empty(),
        seq![
            spec_elem("title"@, Seq::empty(), seq![NodeView::Text("Hello world"@)]),
            spec_elem("meta"@, seq![AttrView { name: "charset"@, value: "utf-8"@ }], Seq::empty()),
            spec_elem(
                "meta"@,
                seq![
                    AttrView { name: "name"@, value: "viewport"@ },
                    AttrView { name: "content"@, value: "width=device-width, initial-scale=1.0"@ },
                ],
                Seq::empty(),
            ),
            spec_elem(
                "link"@,
                seq![
                    AttrView { name: "rel"@, value: "stylesheet"@ },
                    AttrView { name: "href"@, value: "style.css"@ },
                ],
                Seq::empty(),
            ),
            spec_elem(
                "script"@,
                seq![AttrView { name: "src"@, value: "script.js"@ }],
                Seq::empty(),
            ),
        ],
    )
}

/// The mobile navigation header: a hamburger of three lines and the site
/// heading.
pub open spec fn spec_mobile_nav_node() -> NodeView {
    spec_elem(
        "div"@,
        seq![spec_class("mobile-nav"@)],
        seq![
            spec_elem(
                "div"@,
                seq![spec_class("hamburger"@)],
                seq![
                    spec_elem("div"@, seq![spec_class("line"@)], Seq::empty()),
                    spec_elem("div"@, seq![spec_class("line"@)], Seq::empty()),
                    spec_elem("div"@, seq![spec_class("line"@)], Seq::empty()),
                ],
            ),
            spec_elem("h1"@, Seq::empty(), seq![NodeView::Text("uiua-essentials"@)]),
        ],
    )
}

/// The document body: the mobile navigation header above a two-pane layout of
/// sidebar and content, the content pane being a static placeholder.
pub open spec fn spec_body_node(ss: Seq<DocumentationSectionView>) -> NodeView {
    spec_elem(
        "body"@,
        Seq::empty(),
        seq![
            spec_elem(
                "div"@,
                seq![spec_class("mobile-container"@)],
                seq![
                    spec_mobile_nav_node(),
                    spec_elem(
                        "div"@,
                        seq![spec_class("container"@)],
                        seq![
                            spec_elem(
                                "div"@,
                                seq![spec_class("sidebar"@)],
                                spec_sidebar_nodes(ss),
                            ),
                            spec_elem(
                                "div"@,
                                seq![spec_class("content"@)],
                                seq![NodeView::Text("TODO"@)],
                            ),
                        ],
                    ),
                ],
            ),
        ],
    )
}

/// The whole page: an `html` element holding the head and the body.
pub open spec fn spec_page(ss: Seq<DocumentationSectionView>) -> NodeView {
    spec_elem(
        "html"@,
        seq![AttrView { name: "lang"@, value: "en"@ }],
        seq![spec_head_node(), spec_body_node(ss)],
    )
}

/// An attribute with both parts taken from string literals.
fn attr_of(name: &str, value: &str) -> (r: Attr)
    ensures
        r.deep_view() == (AttrView { name: name@, value: value@ }),
{
    Attr { name: name.to_owned(), value: value.to_owned() }
}

/// An attribute whose value is taken from the summary.
fn attr_with_value(name: &str, value: &String) -> (r: Attr)
    ensures
        r.deep_view() == (AttrView { name: name@, value: value@ }),
{
    Attr { name: name.to_owned(), value: value.clone() }
}

/// A text node taken from a string literal.
fn text_of(s: &str) -> (r: Node)
    ensures
        node_view(r) == NodeView::Text(s@),
{
    Node::Text(s.to_owned())
}

/// An empty attribute list.
fn attrs0() -> (r: Vec<Attr>)
    ensures
        r.deep_view() == Seq::<AttrView>::empty(),
{
    let r: Vec<Attr> = Vec::new();
    proof {
        assert(r.deep_view() =~= Seq::<AttrView>::empty());
    }
    r
}

/// An attribute list of one.
fn attrs1(a: Attr) -> (r: Vec<Attr>)
    ensures
        r.deep_view() == seq![a.deep_view()],
{
    let mut r: Vec<Attr> = Vec::new();
    r.push(a);
    proof {
        assert(r.deep_view() =~= seq![r@[0].deep_view()]);
    }
    r
}

/// An attribute list of two, in order.
fn attrs2(a: Attr, b: Attr) -> (r: Vec<Attr>)
    ensures
        r.deep_view() == seq![a.deep_view(), b.deep_view()],
{
    let mut r: Vec<Attr> = Vec::new();
    r.push(a);
    r.push(b);
    proof {
        assert(r.deep_view() =~= seq![r@[0].deep_view(), r@[1].deep_view()]);
    }
    r
}

/// An empty child list.
fn nodes0() -> (r: Vec<Node>)
    ensures
        nodes_view(r@) == Seq::<NodeView>::empty(),
{
    let r: Vec<Node> = Vec::new();
    r
}

/// A child list of one.
fn nodes1(a: Node) -> (r: Vec<Node>)
    ensures
        nodes_view(r@) == seq![node_view(a)],
{
    let ghost av = node_view(a);
    let mut r: Vec<Node> = Vec::new();
    r.push(a);
    proof {
        lemma_nodes_view_push(Seq::empty(), r@[0]);
        assert(Seq::<Node>::empty().push(r@[0]) =~= r@);
        assert(nodes_view(r@) =~= seq![av]);
    }
    r
}

/// A child list of two, in order.
fn nodes2(a: Node, b: Node) -> (r: Vec<Node>)
    ensures
        nodes_view(r@) == seq![node_view(a), node_view(b)],
{
    let ghost av = node_view(a);
    let ghost bv = node_view(b);
    let mut r: Vec<Node> = Vec::new();
    r.push(a);
    r.push(b);
    proof {
        lemma_nodes_view_push(Seq::empty(), r@[0]);
        lemma_nodes_view_push(seq![r@[0]], r@[1]);
        assert(Seq::<Node>::empty().push(r@[0]) =~= seq![r@[0]]);
        assert(seq![r@[0]].push(r@[1]) =~= r@);
        assert(nodes_view(r@) =~= seq![av, bv]);
    }
    r
}

/// A child list of three, in order.
fn nodes3(a: Node, b: Node, c: Node) -> (r: Vec<Node>)
    ensures
        nodes_view(r@) == seq![node_view(a), node_view(b), node_view(c)],
{
    let ghost av = node_view(a);
    let ghost bv = node_view(b);
    let ghost cv = node_view(c);
    let mut r: Vec<Node> = Vec::new();
    r.push(a);
    r.push(b);
    r.push(c);
    proof {
        lemma_nodes_view_push(Seq::empty(), r@[0]);
        lemma_nodes_view_push(seq![r@[0]], r@[1]);
        lemma_nodes_view_push(seq![r@[0], r@[1]], r@[2]);
        assert(Seq::<Node>::empty().push(r@[0]) =~= seq![r@[0]]);
        assert(seq![r@[0]].push(r@[1]) =~= seq![r@[0], r@[1]]);
        assert(seq![r@[0], r@[1]].push(r@[2]) =~= r@);
        assert(nodes_view(r@) =~= seq![av, bv, cv]);
    }
    r
}

/// An element node from a literal tag.
fn elem_of(tag: &str, attrs: Vec<Attr>, children: Vec<Node>) -> (r: Node)
    ensures
        node_view(r) == spec_elem(tag@, attrs.deep_view(), nodes_view(children@)),
{
    Node::Element { tag: tag.to_owned(), attrs: attrs, children: children }
}

/// A `class` attribute.
fn class_of(value: &str) -> (r: Attr)
    ensures
        r.deep_view() == spec_class(value@),
{
    attr_of("class", value)
}

/// Renders the sidebar: one block per section in input order, each flattening
/// its items' links into a single ordered list of anchors, with no
/// de-duplication and no sorting.
pub fn generate_sidebar(summary: &Vec<DocumentationSection>) -> (r: Vec<Node>)
    ensures
        nodes_view(r@) == spec_sidebar_nodes(summary.deep_view()),
{
    let mut out: Vec<Node> = Vec::new();
    let mut i: usize = 0;
    while i < summary.len()
        invariant
            i <= summary.len(),
            nodes_view(out@) == spec_sidebar_nodes(summary.deep_view().take(i as int)),
        decreases summary.len() - i,
    {
        let section = &summary[i];
        let mut link_nodes: Vec<Node> = Vec::new();
        let ghost items = section.content.deep_view();
        let mut j: usize = 0;
        while j < section.content.len()
            invariant
                j <= section.content.len(),
                items == section.content.deep_view(),
                nodes_view(link_nodes@) == spec_link_nodes(flat_links(items.take(j as int))),
            decreases section.content.len() - j,
        {
            let item = &section.content[j];
            let ghost links = item.links.deep_view();
            let ghost flat_before = flat_links(items.take(j as int));
            let mut k: usize = 0;
            while k < item.links.len()
                invariant
                    k <= item.links.len(),
                    links == item.links.deep_view(),
                    flat_before == flat_links(items.take(j as int)),
                    nodes_view(link_nodes@) == spec_link_nodes(
                        flat_before + links.take(k as int),
                    ),
                decreases item.links.len() - k,
            {
                let link = &item.links[k];
                let anchor = elem_of(
                    "a",
                    attrs1(attr_with_value("href", &link.url)),
                    nodes1(Node::Text(link.title.clone())),
                );
                let entry = elem_of("li", attrs0(), nodes1(anchor));
                proof {
                    assert(node_view(entry) == spec_link_node(links[k as int]));
                }
                let ghost before = link_nodes@;
                link_nodes.push(entry);
                proof {
                    lemma_nodes_view_push(before, entry);
                    lemma_link_nodes_push(flat_before + links.take(k as int), links[k as int]);
                    assert((flat_before + links.take(k as int)).push(links[k as int])
                        =~= flat_before + links.take(k + 1 as int));
                }
                k = k + 1;
            }
            proof {
                assert(links.take(item.links.len() as int) =~= links);
                lemma_flat_links_push(items.take(j as int), items[j as int]);
                assert(items.take(j as int).push(items[j as int]) =~= items.take(j + 1 as int));
                assert(flat_before + links =~= flat_links(items.take(j + 1 as int)));
            }
            j = j + 1;
        }
        proof {
            assert(items.take(section.content.len() as int) =~= items);
        }
        let title_node = elem_of(
            "div",
            attrs1(class_of("section-name")),
            nodes1(Node::Text(section.title.clone())),
        );
        let list_node = elem_of("ul", attrs0(), link_nodes);
        let block = elem_of(
            "div",
            attrs1(class_of("sidebar-section")),
            nodes2(title_node, list_node),
        );
        proof {
            assert(node_view(block) == spec_section_node(summary.deep_view()[i as int]));
        }
        let ghost before = out@;
        out.push(block);
        proof {
            lemma_nodes_view_push(before, block);
            lemma_sidebar_nodes_push(
                summary.deep_view().take(i as int),
                summary.deep_view()[i as int],
            );
            assert(summary.deep_view().take(i as int).push(summary.deep_view()[i as int])
                =~= summary.deep_view().take(i + 1 as int));
        }
        i = i + 1;
    }
    proof {
        assert(summary.deep_view().take(summary.len() as int) =~= summary.deep_view());
    }
    out
}

/// Renders the whole page tree for the given summary: the fixed skeleton
/// around the sidebar.
pub fn generate_page(summary: &Vec<DocumentationSection>) -> (r: Node)
    ensures
        node_view(r) == spec_page(summary.deep_view()),
{
    let head = elem_of(
        "head",
        attrs0(),
        nodes5(
            elem_of("title", attrs0(), nodes1(text_of("Hello world"))),
            elem_of("meta", attrs1(attr_of("charset", "utf-8")), nodes0()),
            elem_of(
                "meta",
                attrs2(
                    attr_of("name", "viewport"),
                    attr_of("content", "width=device-width, initial-scale=1.0"),
                ),
                nodes0(),
            ),
            elem_of(
                "link",
                attrs2(attr_of("rel", "stylesheet"), attr_of("href", "style.css")),
                nodes0(),
            ),
            elem_of("script", attrs1(attr_of("src", "script.js")), nodes0()),
        ),
    );
    let hamburger = elem_of(
        "div",
        attrs1(class_of("hamburger")),
        nodes3(
            elem_of("div", attrs1(class_of("line")), nodes0()),
            elem_of("div", attrs1(class_of("line")), nodes0()),
            elem_of("div", attrs1(class_of("line")), nodes0()),
        ),
    );
    let mobile_nav = elem_of(
        "div",
        attrs1(class_of("mobile-nav")),
        nodes2(hamburger, elem_of("h1", attrs0(), nodes1(text_of("uiua-essentials")))),
    );
    let sidebar = elem_of("div", attrs1(class_of("sidebar")), generate_sidebar(summary));
    let content = elem_of(
        "div",
        attrs1(class_of("content")),
        nodes1(text_of("TODO")),
    );
    let container = elem_of("div", attrs1(class_of("container")), nodes2(sidebar, content));
    let mobile_container = elem_of(
        "div",
        attrs1(class_of("mobile-container")),
        nodes2(mobile_nav, container),
    );
    let body = elem_of("body", attrs0(), nodes1(mobile_container));
    elem_of("html", attrs1(attr_of("lang", "en")), nodes2(head, body))
}

/// A child list of five, in order.
fn nodes5(a: Node, b: Node, c: Node, d: Node, e: Node) -> (r: Vec<Node>)
    ensures
        nodes_view(r@) == seq![
            node_view(a),
            node_view(b),
            node_view(c),
            node_view(d),
            node_view(e),
        ],
{
    let ghost av = node_view(a);
    let ghost bv = node_view(b);
    let ghost cv = node_view(c);
    let ghost dv = node_view(d);
    let ghost ev = node_view(e);
    let mut r: Vec<Node> = Vec::new();
    r.push(a);
    r.push(b);
    r.push(c);
    r.push(d);
    r.push(e);
    proof {
        lemma_nodes_view_push(Seq::empty(), r@[0]);
        lemma_nodes_view_push(seq![r@[0]], r@[1]);
        lemma_nodes_view_push(seq![r@[0], r@[1]], r@[2]);
        lemma_nodes_view_push(seq![r@[0], r@[1], r@[2]], r@[3]);
        lemma_nodes_view_push(seq![r@[0], r@[1], r@[2], r@[3]], r@[4]);
        assert(Seq::<Node>::empty().push(r@[0]) =~= seq![r@[0]]);
        assert(seq![r@[0]].push(r@[1]) =~= seq![r@[0], r@[1]]);
        assert(seq![r@[0], r@[1]].push(r@[2]) =~= seq![r@[0], r@[1], r@[2]]);
        assert(seq![r@[0], r@[1], r@[2]].push(r@[3]) =~= seq![r@[0], r@[1], r@[2], r@[3]]);
        assert(seq![r@[0], r@[1], r@[2], r@[3]].push(r@[4]) =~= r@);
        assert(nodes_view(r@) =~= seq![av, bv, cv, dv, ev]);
    }
    r
}

} // verus!
