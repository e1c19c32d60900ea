//! The cross-cutting guarantees of the pipeline: the renderer introduces no
//! generation artifact, so sanitization changes nothing on its output and the
//! final text equals the raw rendering; generation is deterministic; and the
//! page's anchors are exactly the summary's links, flattened in input order.

use vstd::prelude::*;
use crate::html::{AttrView, NodeView};
use crate::model::{DocumentationSectionView, LinkView, flat_links};
use crate::render::{
    spec_class, spec_elem, spec_link_node, spec_link_nodes, spec_page, spec_section_node,
    spec_sidebar_nodes, spec_head_node, spec_mobile_nav_node, spec_body_node,
};
use crate::sanitize::{
    comment_free, comment_free_all, marker_free, marker_free_all, marker_name,
    lemma_sanitize_nodes_identity, spec_sanitize_nodes,
};
use crate::generator::{spec_render, spec_generate_html};

verus! {

/// Holds when a tree carries neither generation artifact: no comment node
/// and no hydration-marker attribute, at any depth.
pub open spec fn artifact_free(n: NodeView) -> bool {
    comment_free(n) && marker_free(n)
}

/// Holds when no node of the sequence carries either artifact.
pub open spec fn artifact_free_all(ns: Seq<NodeView>) -> bool {
    comment_free_all(ns) && marker_free_all(ns)
}

proof fn lemma_free_all_push(ns: Seq<NodeView>, n: NodeView)
    requires
        artifact_free_all(ns),
        artifact_free(n),
    ensures
        artifact_free_all(ns.push(n)),
{
    assert(ns.push(n).drop_last() =~= ns);
    assert(ns.push(n).last() == n);
}

proof fn lemma_free_all1(a: NodeView)
    requires
        artifact_free(a),
    ensures
        artifact_free_all(seq![a]),
{
    lemma_free_all_push(Seq::empty(), a);
    assert(Seq::<NodeView>::empty().push(a) =~= seq![a]);
}

proof fn lemma_free_all2(a: NodeView, b: NodeView)
    requires
        artifact_free(a),
        artifact_free(b),
    ensures
        artifact_free_all(seq![a, b]),
{
    lemma_free_all1(a);
    lemma_free_all_push(seq![a], b);
    assert(seq![a].push(b) =~= seq![a, b]);
}

proof fn lemma_free_all3(a: NodeView, b: NodeView, c: NodeView)
    requires
        artifact_free(a),
        artifact_free(b),
        artifact_free(c),
    ensures
        artifact_free_all(seq![a, b, c]),
{
    lemma_free_all2(a, b);
    lemma_free_all_push(seq![a, b], c);
    assert(seq![a, b].push(c) =~= seq![a, b, c]);
}

proof fn lemma_free_all5(a: NodeView, b: NodeView, c: NodeView, d: NodeView, e: NodeView)
    requires
        artifact_free(a),
        artifact_free(b),
        artifact_free(c),
        artifact_free(d),
        artifact_free(e),
    ensures
        artifact_free_all(seq![a, b, c, d, e]),
{
    lemma_free_all3(a, b, c);
    lemma_free_all_push(seq![a, b, c], d);
    assert(seq![a, b, c].push(d) =~= seq![a, b, c, d]);
    lemma_free_all_push(seq![a, b, c, d], e);
    assert(seq![a, b, c, d].push(e) =~= seq![a, b, c, d, e]);
}

/// None of the attribute names the renderer uses is the hydration marker.
proof fn lemma_renderer_names_not_marker()
    ensures
        "class"@ != marker_name(),
        "href"@ != marker_name(),
        "charset"@ != marker_name(),
        "name"@ != marker_name(),
        "content"@ != marker_name(),
        "rel"@ != marker_name(),
        "src"@ != marker_name(),
        "lang"@ != marker_name(),
{
    reveal_strlit("data-hk");
    reveal_strlit("class");
    reveal_strlit("href");
    reveal_strlit("charset");
    reveal_strlit("name");
    reveal_strlit("content");
    reveal_strlit("rel");
    reveal_strlit("src");
    reveal_strlit("lang");
    assert("charset"@[0] != "data-hk"@[0]);
    assert("content"@[0] != "data-hk"@[0]);
}

proof fn lemma_link_node_free(l: LinkView)
    ensures
        artifact_free(spec_link_node(l)),
{
    lemma_renderer_names_not_marker();
    lemma_free_all1(NodeView::Text(l.title));
    lemma_free_all1(
        spec_elem(
            "a"@,
            seq![AttrView { name: "href"@, value: l.url }],
            seq![NodeView::Text(l.title)],
        ),
    );
}

proof fn lemma_link_nodes_free(ls: Seq<LinkView>)
    ensures
        artifact_free_all(spec_link_nodes(ls)),
    decreases ls.len(),
{
    if ls.len() > 0 {
        lemma_link_nodes_free(ls.drop_last());
        lemma_link_node_free(ls.last());
        lemma_free_all_push(spec_link_nodes(ls.drop_last()), spec_link_node(ls.last()));
    }
}

proof fn lemma_section_node_free(s: DocumentationSectionView)
    ensures
        artifact_free(spec_section_node(s)),
{
    lemma_renderer_names_not_marker();
    lemma_free_all1(NodeView::Text(s.title));
    lemma_link_nodes_free(flat_links(s.content));
    lemma_free_all2(
        spec_elem("div"@, seq![spec_class("section-name"@)], seq![NodeView::Text(s.title)]),
        spec_elem("ul"@, Seq::empty(), spec_link_nodes(flat_links(s.content))),
    );
}

proof fn lemma_sidebar_nodes_free(ss: Seq<DocumentationSectionView>)
    ensures
        artifact_free_all(spec_sidebar_nodes(ss)),
    decreases ss.len(),
{
    if ss.len() > 0 {
        lemma_sidebar_nodes_free(ss.drop_last());
        lemma_section_node_free(ss.last());
        lemma_free_all_push(spec_sidebar_nodes(ss.drop_last()), spec_section_node(ss.last()));
    }
}

proof fn lemma_head_node_free()
    ensures
        artifact_free(spec_head_node()),
{
    lemma_renderer_names_not_marker();
    lemma_free_all1(NodeView::Text("Hello world"@));
    let title = spec_elem("title"@, Seq::empty(), seq![NodeView::Text("Hello world"@)]);
    let charset = spec_elem(
        "meta"@,
        seq![AttrView { name: "charset"@, value: "utf-8"@ }],
        Seq::empty(),
    );
    let viewport = spec_elem(
        "meta"@,
        seq![
            AttrView { name: "name"@, value: "viewport"@ },
            AttrView { name: "content"@, value: "width=device-width, initial-scale=1.0"@ },
        ],
        Seq::empty(),
    );
    let stylesheet = spec_elem(
        "link"@,
        seq![
            AttrView { name: "rel"@, value: "stylesheet"@ },
            AttrView { name: "href"@, value: "style.css"@ },
        ],
        Seq::empty(),
    );
    let script = spec_elem(
        "script"@,
        seq![AttrView { name: "src"@, value: "script.js"@ }],
        Seq::empty(),
    );
    lemma_free_all5(title, charset, viewport, stylesheet, script);
}

proof fn lemma_mobile_nav_free()
    ensures
        artifact_free(spec_mobile_nav_node()),
{
    lemma_renderer_names_not_marker();
    let line = spec_elem("div"@, seq![spec_class("line"@)], Seq::empty());
    lemma_free_all3(line, line, line);
    let hamburger = spec_elem("div"@, seq![spec_class("hamburger"@)], seq![line, line, line]);
    lemma_free_all1(NodeView::Text("uiua-essentials"@));
    let heading = spec_elem("h1"@, Seq::empty(), seq![NodeView::Text("uiua-essentials"@)]);
    lemma_free_all2(hamburger, heading);
}

/// The rendered page carries no generation artifact: no comment node and no
/// hydration-marker attribute anywhere in the tree.
pub proof fn lemma_page_artifact_free(ss: Seq<DocumentationSectionView>)
    ensures
        artifact_free(spec_page(ss)),
{
    lemma_renderer_names_not_marker();
    lemma_sidebar_nodes_free(ss);
    let sidebar = spec_elem("div"@, seq![spec_class("sidebar"@)], spec_sidebar_nodes(ss));
    lemma_free_all1(NodeView::Text("TODO"@));
    let content = spec_elem(
        "div"@,
        seq![spec_class("content"@)],
        seq![NodeView::Text("TODO"@)],
    );
    lemma_free_all2(sidebar, content);
    let container = spec_elem("div"@, seq![spec_class("container"@)], seq![sidebar, content]);
    lemma_mobile_nav_free();
    lemma_free_all2(spec_mobile_nav_node(), container);
    let mobile_container = spec_elem(
        "div"@,
        seq![spec_class("mobile-container"@)],
        seq![spec_mobile_nav_node(), container],
    );
    lemma_free_all1(mobile_container);
    let body = spec_body_node(ss);
    lemma_head_node_free();
    lemma_free_all2(spec_head_node(), body);
}

/// Because the renderer introduces no artifact, sanitization leaves the page
/// tree unchanged, and the final HTML text equals the raw rendering.
pub proof fn lemma_generate_html_is_render(ss: Seq<DocumentationSectionView>)
    ensures
        spec_generate_html(ss) == spec_render(ss),
{
    lemma_page_artifact_free(ss);
    lemma_free_all1(spec_page(ss));
    lemma_sanitize_nodes_identity(seq![spec_page(ss)]);
    let page = spec_page(ss);
    assert(spec_sanitize_nodes(seq![page]) == seq![page]);
    assert(seq![page].drop_last() =~= Seq::<NodeView>::empty());
    assert(seq![page].last() == page);
    assert(crate::html::spec_serialize_nodes(Seq::<NodeView>::empty()) == Seq::<char>::empty());
    assert(crate::html::spec_serialize_nodes(seq![page]) =~= crate::html::spec_serialize_node(
        page,
    ));
}

/// Generation is deterministic: the final HTML text is a function of the
/// summary alone, so equal summaries give byte-identical documents.
pub proof fn lemma_generate_deterministic(
    a: Seq<DocumentationSectionView>,
    b: Seq<DocumentationSectionView>,
)
    requires
        a == b,
    ensures
        spec_generate_html(a) == spec_generate_html(b),
{
}

/// The anchor rendered for one link: its url as `href`, its title as text.
pub open spec fn spec_anchor(l: LinkView) -> NodeView {
    spec_elem("a"@, seq![AttrView { name: "href"@, value: l.url }], seq![NodeView::Text(l.title)])
}

/// The anchors for a sequence of links, in order.
pub open spec fn spec_anchor_list(ls: Seq<LinkView>) -> Seq<NodeView>
    decreases ls.len(),
{
    if ls.len() == 0 {
        Seq::empty()
    } else {
        spec_anchor_list(ls.drop_last()).push(spec_anchor(ls.last()))
    }
}

proof fn lemma_anchor_list_push(ls: Seq<LinkView>, l: LinkView)
    ensures
        spec_anchor_list(ls.push(l)) == spec_anchor_list(ls).push(spec_anchor(l)),
{
    assert(ls.push(l).drop_last() =~= ls);
    assert(ls.push(l).last() == l);
}

/// Anchor listing distributes over concatenation of link sequences.
proof fn lemma_anchor_list_concat(xs: Seq<LinkView>, ys: Seq<LinkView>)
    ensures
        spec_anchor_list(xs + ys) == spec_anchor_list(xs) + spec_anchor_list(ys),
    decreases ys.len(),
{
    if ys.len() == 0 {
        assert(xs + ys =~= xs);
        assert(spec_anchor_list(xs) + spec_anchor_list(ys) =~= spec_anchor_list(xs));
    } else {
        lemma_anchor_list_concat(xs, ys.drop_last());
        assert((xs + ys).drop_last() =~= xs + ys.drop_last());
        assert((xs + ys).last() == ys.last());
        assert(spec_anchor_list(xs) + spec_anchor_list(ys) =~= (spec_anchor_list(xs)
            + spec_anchor_list(ys.drop_last())).push(spec_anchor(ys.last())));
    }
}

/// Every anchor element in a tree, in document order.
pub open spec fn anchors_node(n: NodeView) -> Seq<NodeView>
    decreases n,
{
    match n {
        NodeView::Element { tag, attrs, children } => (if tag == "a"@ {
            seq![n]
        } else {
            Seq::empty()
        }) + anchors_nodes(children),
        NodeView::Text(_) => Seq::empty(),
        NodeView::Comment(_) => Seq::empty(),
    }
}

/// Every anchor element under a sequence of siblings, in document order.
pub open spec fn anchors_nodes(ns: Seq<NodeView>) -> Seq<NodeView>
    decreases ns,
{
    if ns.len() == 0 {
        Seq::empty()
    } else {
        anchors_nodes(ns.drop_last()) + anchors_node(ns.last())
    }
}

proof fn lemma_anchors_nodes_push(ns: Seq<NodeView>, n: NodeView)
    ensures
        anchors_nodes(ns.push(n)) == anchors_nodes(ns) + anchors_node(n),
{
    assert(ns.push(n).drop_last() =~= ns);
    assert(ns.push(n).last() == n);
}

proof fn lemma_anchors_nodes1(a: NodeView)
    ensures
        anchors_nodes(seq![a]) == anchors_node(a),
{
    lemma_anchors_nodes_push(Seq::empty(), a);
    assert(Seq::<NodeView>::empty().push(a) =~= seq![a]);
    assert(Seq::<NodeView>::empty() + anchors_node(a) =~= anchors_node(a));
}

proof fn lemma_anchors_nodes2(a: NodeView, b: NodeView)
    ensures
        anchors_nodes(seq![a, b]) == anchors_node(a) + anchors_node(b),
{
    lemma_anchors_nodes1(a);
    lemma_anchors_nodes_push(seq![a], b);
    assert(seq![a].push(b) =~= seq![a, b]);
}

proof fn lemma_anchors_nodes3(a: NodeView, b: NodeView, c: NodeView)
    ensures
        anchors_nodes(seq![a, b, c]) == anchors_node(a) + anchors_node(b) + anchors_node(c),
{
    lemma_anchors_nodes2(a, b);
    lemma_anchors_nodes_push(seq![a, b], c);
    assert(seq![a, b].push(c) =~= seq![a, b, c]);
}

proof fn lemma_anchors_nodes5(a: NodeView, b: NodeView, c: NodeView, d: NodeView, e: NodeView)
    ensures
        anchors_nodes(seq![a, b, c, d, e]) == anchors_node(a) + anchors_node(b) + anchors_node(c)
            + anchors_node(d) + anchors_node(e),
{
    lemma_anchors_nodes3(a, b, c);
    lemma_anchors_nodes_push(seq![a, b, c], d);
    assert(seq![a, b, c].push(d) =~= seq![a, b, c, d]);
    lemma_anchors_nodes_push(seq![a, b, c, d], e);
    assert(seq![a, b, c, d].push(e) =~= seq![a, b, c, d, e]);
}

/// None of the renderer's fixed tags is the anchor tag.
proof fn lemma_renderer_tags_not_anchor()
    ensures
        "html"@ != "a"@,
        "head"@ != "a"@,
        "title"@ != "a"@,
        "meta"@ != "a"@,
        "link"@ != "a"@,
        "script"@ != "a"@,
        "body"@ != "a"@,
        "div"@ != "a"@,
        "h1"@ != "a"@,
        "ul"@ != "a"@,
        "li"@ != "a"@,
{
    reveal_strlit("a");
    reveal_strlit("html");
    reveal_strlit("head");
    reveal_strlit("title");
    reveal_strlit("meta");
    reveal_strlit("link");
    reveal_strlit("script");
    reveal_strlit("body");
    reveal_strlit("div");
    reveal_strlit("h1");
    reveal_strlit("ul");
    reveal_strlit("li");
    assert("a"@.len() == 1);
    assert("html"@.len() == 4);
    assert("head"@.len() == 4);
    assert("title"@.len() == 5);
    assert("meta"@.len() == 4);
    assert("link"@.len() == 4);
    assert("script"@.len() == 6);
    assert("body"@.len() == 4);
    assert("div"@.len() == 3);
    assert("h1"@.len() == 2);
    assert("ul"@.len() == 2);
    assert("li"@.len() == 2);
}

proof fn lemma_anchors_link_node(l: LinkView)
    ensures
        anchors_node(spec_link_node(l)) == seq![spec_anchor(l)],
{
    lemma_renderer_tags_not_anchor();
    lemma_anchors_nodes1(NodeView::Text(l.title));
    lemma_anchors_nodes1(spec_anchor(l));
    assert(anchors_node(spec_anchor(l)) =~= seq![spec_anchor(l)]);
    assert(anchors_node(spec_link_node(l)) =~= seq![spec_anchor(l)]);
}

proof fn lemma_anchors_link_nodes(ls: Seq<LinkView>)
    ensures
        anchors_nodes(spec_link_nodes(ls)) == spec_anchor_list(ls),
    decreases ls.len(),
{
    if ls.len() > 0 {
        lemma_anchors_link_nodes(ls.drop_last());
        lemma_anchors_nodes_push(spec_link_nodes(ls.drop_last()), spec_link_node(ls.last()));
        lemma_anchors_link_node(ls.last());
        assert(spec_anchor_list(ls.drop_last()) + seq![spec_anchor(ls.last())]
            =~= spec_anchor_list(ls));
    }
}

proof fn lemma_anchors_section(s: DocumentationSectionView)
    ensures
        anchors_node(spec_section_node(s)) == spec_anchor_list(flat_links(s.content)),
{
    lemma_renderer_tags_not_anchor();
    lemma_anchors_nodes1(NodeView::Text(s.title));
    let title = spec_elem("div"@, seq![spec_class("section-name"@)], seq![NodeView::Text(s.title)]);
    let list = spec_elem("ul"@, Seq::empty(), spec_link_nodes(flat_links(s.content)));
    lemma_anchors_nodes2(title, list);
    lemma_anchors_link_nodes(flat_links(s.content));
    assert(anchors_node(title) =~= Seq::<NodeView>::empty());
    assert(anchors_node(list) =~= spec_anchor_list(flat_links(s.content)));
    assert(anchors_node(spec_section_node(s)) =~= spec_anchor_list(flat_links(s.content)));
}

/// The links of the whole summary, flattened in input order: sections in
/// order, items in order within each section, links in order within each
/// item.
pub open spec fn all_links(ss: Seq<DocumentationSectionView>) -> Seq<LinkView>
    decreases ss.len(),
{
    if ss.len() == 0 {
        Seq::empty()
    } else {
        all_links(ss.drop_last()) + flat_links(ss.last().content)
    }
}

proof fn lemma_anchors_sidebar(ss: Seq<DocumentationSectionView>)
    ensures
        anchors_nodes(spec_sidebar_nodes(ss)) == spec_anchor_list(all_links(ss)),
    decreases ss.len(),
{
    if ss.len() == 0 {
        assert(spec_anchor_list(all_links(ss)) =~= Seq::<NodeView>::empty());
    } else {
        lemma_anchors_sidebar(ss.drop_last());
        lemma_anchors_nodes_push(
            spec_sidebar_nodes(ss.drop_last()),
            spec_section_node(ss.last()),
        );
        lemma_anchors_section(ss.last());
        lemma_anchor_list_concat(all_links(ss.drop_last()), flat_links(ss.last().content));
    }
}

proof fn lemma_anchors_head()
    ensures
        anchors_node(spec_head_node()) == Seq::<NodeView>::empty(),
{
    lemma_renderer_tags_not_anchor();
    let title = spec_elem("title"@, Seq::empty(), seq![NodeView::Text("Hello world"@)]);
    let charset = spec_elem(
        "meta"@,
        seq![AttrView { name: "charset"@, value: "utf-8"@ }],
        Seq::empty(),
    );
    let viewport = spec_elem(
        "meta"@,
        seq![
            AttrView { name: "name"@, value: "viewport"@ },
            AttrView { name: "content"@, value: "width=device-width, initial-scale=1.0"@ },
        ],
        Seq::empty(),
    );
    let stylesheet = spec_elem(
        "link"@,
        seq![
            AttrView { name: "rel"@, value: "stylesheet"@ },
            AttrView { name: "href"@, value: "style.css"@ },
        ],
        Seq::empty(),
    );
    let script = spec_elem(
        "script"@,
        seq![AttrView { name: "src"@, value: "script.js"@ }],
        Seq::empty(),
    );
    lemma_anchors_nodes1(NodeView::Text("Hello world"@));
    lemma_anchors_nodes5(title, charset, viewport, stylesheet, script);
    assert(anchors_node(spec_head_node()) =~= Seq::<NodeView>::empty());
}

proof fn lemma_anchors_mobile_nav()
    ensures
        anchors_node(spec_mobile_nav_node()) == Seq::<NodeView>::empty(),
{
    lemma_renderer_tags_not_anchor();
    let line = spec_elem("div"@, seq![spec_class("line"@)], Seq::empty());
    lemma_anchors_nodes3(line, line, line);
    let hamburger = spec_elem("div"@, seq![spec_class("hamburger"@)], seq![line, line, line]);
    lemma_anchors_nodes1(NodeView::Text("uiua-essentials"@));
    let heading = spec_elem("h1"@, Seq::empty(), seq![NodeView::Text("uiua-essentials"@)]);
    lemma_anchors_nodes2(hamburger, heading);
    assert(anchors_node(spec_mobile_nav_node()) =~= Seq::<NodeView>::empty());
}

/// Order preservation: the anchors of the rendered page, in document order,
/// are exactly the summary's links flattened in input order — never
/// reordered, grouped, de-duplicated or dropped.
pub proof fn lemma_page_anchor_order(ss: Seq<DocumentationSectionView>)
    ensures
        anchors_node(spec_page(ss)) == spec_anchor_list(all_links(ss)),
{
    lemma_renderer_tags_not_anchor();
    let anchors = spec_anchor_list(all_links(ss));
    lemma_anchors_sidebar(ss);
    let sidebar = spec_elem("div"@, seq![spec_class("sidebar"@)], spec_sidebar_nodes(ss));
    assert(anchors_node(sidebar) =~= anchors);
    lemma_anchors_nodes1(NodeView::Text("TODO"@));
    let content = spec_elem(
        "div"@,
        seq![spec_class("content"@)],
        seq![NodeView::Text("TODO"@)],
    );
    assert(anchors_node(content) =~= Seq::<NodeView>::empty());
    lemma_anchors_nodes2(sidebar, content);
    let container = spec_elem("div"@, seq![spec_class("container"@)], seq![sidebar, content]);
    assert(anchors_node(container) =~= anchors);
    lemma_anchors_mobile_nav();
    lemma_anchors_nodes2(spec_mobile_nav_node(), container);
    let mobile_container = spec_elem(
        "div"@,
        seq![spec_class("mobile-container"@)],
        seq![spec_mobile_nav_node(), container],
    );
    assert(anchors_node(mobile_container) =~= anchors);
    lemma_anchors_nodes1(mobile_container);
    let body = spec_body_node(ss);
    assert(anchors_node(body) =~= anchors);
    lemma_anchors_head();
    lemma_anchors_nodes2(spec_head_node(), body);
    assert(anchors_node(spec_page(ss)) =~= anchors);
}

} // verus!
