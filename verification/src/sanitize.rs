//! Removal of generation-time artifacts from a view tree: every comment node
//! at any depth, and the internal hydration-tracking attribute on every
//! element, with everything else kept unchanged.

use vstd::prelude::*;
use vstd::string::StringExecFns;
use crate::html::{Attr, AttrView, Node, NodeView, node_view, nodes_view, lemma_nodes_view_push};

verus! {

/// The name of the internal hydration-tracking attribute that the sanitizer
/// removes.
pub open spec fn marker_name() -> Seq<char> {
    "data-hk"@
}

/// The attribute list with every hydration-marker attribute removed and all
/// other attributes kept in order.
pub open spec fn spec_strip_marker(attrs: Seq<AttrView>) -> Seq<AttrView>
    decreases attrs.len(),
{
    if attrs.len() == 0 {
        Seq::empty()
    } else if attrs.last().name == marker_name() {
        spec_strip_marker(attrs.drop_last())
    } else {
        spec_strip_marker(attrs.drop_last()).push(attrs.last())
    }
}

/// Stripping the marker is exactly filtering the attribute list down to the
/// attributes whose name is not the marker: nothing else is removed,
/// reordered or altered.
pub proof fn lemma_strip_marker_is_filter(attrs: Seq<AttrView>)
    ensures
        spec_strip_marker(attrs) == attrs.filter(|a: AttrView| a.name != marker_name()),
    decreases attrs.len(),
{
    reveal(Seq::filter);
    if attrs.len() > 0 {
        lemma_strip_marker_is_filter(attrs.drop_last());
    }
}

/// The sanitized form of one node: `None` for a comment, otherwise the node
/// with its attributes stripped of the marker and its children sanitized.
pub open spec fn spec_sanitize_node(n: NodeView) -> Option<NodeView>
    decreases n,
{
    match n {
        NodeView::Element { tag, attrs, children } => Some(
            NodeView::Element {
                tag: tag,
                attrs: spec_strip_marker(attrs),
                children: spec_sanitize_nodes(children),
            },
        ),
        NodeView::Text(t) => Some(NodeView::Text(t)),
        NodeView::Comment(_) => None,
    }
}

/// The sanitized form of a sequence of sibling nodes, in order.
pub open spec fn spec_sanitize_nodes(ns: Seq<NodeView>) -> Seq<NodeView>
    decreases ns,
{
    if ns.len() == 0 {
        Seq::empty()
    } else {
        spec_sanitize_nodes(ns.drop_last()) + (match spec_sanitize_node(ns.last()) {
            Some(m) => seq![m],
            None => Seq::empty(),
        })
    }
}

/// Sanitization distributes over appending one sibling.
pub proof fn lemma_sanitize_nodes_push(ns: Seq<NodeView>, n: NodeView)
    ensures
        spec_sanitize_nodes(ns.push(n)) == spec_sanitize_nodes(ns) + (match spec_sanitize_node(n) {
            Some(m) => seq![m],
            None => Seq::<NodeView>::empty(),
        }),
{
    assert(ns.push(n).drop_last() =~= ns);
    assert(ns.push(n).last() == n);
}

/// Holds when no comment node stands anywhere in the tree under `n`.
pub open spec fn comment_free(n: NodeView) -> bool
    decreases n,
{
    match n {
        NodeView::Element { tag, attrs, children } => comment_free_all(children),
        NodeView::Text(_) => true,
        NodeView::Comment(_) => false,
    }
}

/// Holds when no comment node stands anywhere under any of the nodes.
pub open spec fn comment_free_all(ns: Seq<NodeView>) -> bool
    decreases ns,
{
    if ns.len() == 0 {
        true
    } else {
        comment_free_all(ns.drop_last()) && comment_free(ns.last())
    }
}

/// Holds when no element anywhere in the tree under `n` carries the
/// hydration-marker attribute.
pub open spec fn marker_free(n: NodeView) -> bool
    decreases n,
{
    match n {
        NodeView::Element { tag, attrs, children } => (forall|i: int|
            0 <= i < attrs.len() ==> attrs[i].name != marker_name()) && marker_free_all(children),
        NodeView::Text(_) => true,
        NodeView::Comment(_) => true,
    }
}

/// Holds when no element under any of the nodes carries the marker.
pub open spec fn marker_free_all(ns: Seq<NodeView>) -> bool
    decreases ns,
{
    if ns.len() == 0 {
        true
    } else {
        marker_free_all(ns.drop_last()) && marker_free(ns.last())
    }
}

/// A stripped attribute list carries no marker attribute.
pub proof fn lemma_strip_marker_clean(attrs: Seq<AttrView>)
    ensures
        forall|i: int|
            0 <= i < spec_strip_marker(attrs).len() ==> spec_strip_marker(attrs)[i].name
                != marker_name(),
    decreases attrs.len(),
{
    if attrs.len() > 0 {
        lemma_strip_marker_clean(attrs.drop_last());
        let s = spec_strip_marker(attrs.drop_last());
        if attrs.last().name != marker_name() {
            assert forall|i: int| 0 <= i < s.push(attrs.last()).len() implies s.push(
                attrs.last(),
            )[i].name != marker_name() by {
                if i < s.len() {
                    assert(s.push(attrs.last())[i] == s[i]);
                } else {
                    assert(s.push(attrs.last())[i] == attrs.last());
                }
            }
        }
    }
}

/// Sanitized output leaks no generation artifact: it holds no comment node
/// and no element with the marker attribute, at any depth.
pub proof fn lemma_sanitize_node_clean(n: NodeView)
    ensures
        spec_sanitize_node(n) is Some ==> comment_free(spec_sanitize_node(n)->0) && marker_free(
            spec_sanitize_node(n)->0,
        ),
    decreases n,
{
    match n {
        NodeView::Element { tag, attrs, children } => {
            lemma_strip_marker_clean(attrs);
            lemma_sanitize_nodes_clean(children);
        },
        _ => {},
    }
}

/// Sanitized sibling sequences leak no generation artifact.
pub proof fn lemma_sanitize_nodes_clean(ns: Seq<NodeView>)
    ensures
        comment_free_all(spec_sanitize_nodes(ns)),
        marker_free_all(spec_sanitize_nodes(ns)),
    decreases ns,
{
    if ns.len() > 0 {
        lemma_sanitize_nodes_clean(ns.drop_last());
        lemma_sanitize_node_clean(ns.last());
        match spec_sanitize_node(ns.last()) {
            Some(m) => {
                assert(spec_sanitize_nodes(ns).drop_last() =~= spec_sanitize_nodes(ns.drop_last()));
                assert(spec_sanitize_nodes(ns).last() == m);
            },
            None => {
                assert(spec_sanitize_nodes(ns) =~= spec_sanitize_nodes(ns.drop_last()));
            },
        }
    }
}

/// A marker-free attribute list is left exactly as it was.
pub proof fn lemma_strip_marker_identity(attrs: Seq<AttrView>)
    requires
        forall|i: int| 0 <= i < attrs.len() ==> attrs[i].name != marker_name(),
    ensures
        spec_strip_marker(attrs) == attrs,
    decreases attrs.len(),
{
    if attrs.len() > 0 {
        lemma_strip_marker_identity(attrs.drop_last());
        assert(spec_strip_marker(attrs) =~= attrs);
    }
}

/// On a tree already free of comments and markers, sanitization changes
/// nothing.
pub proof fn lemma_sanitize_node_identity(n: NodeView)
    requires
        comment_free(n),
        marker_free(n),
    ensures
        spec_sanitize_node(n) == Some(n),
    decreases n,
{
    match n {
        NodeView::Element { tag, attrs, children } => {
            lemma_strip_marker_identity(attrs);
            lemma_sanitize_nodes_identity(children);
        },
        _ => {},
    }
}

/// On sibling sequences already free of comments and markers, sanitization
/// changes nothing.
pub proof fn lemma_sanitize_nodes_identity(ns: Seq<NodeView>)
    requires
        comment_free_all(ns),
        marker_free_all(ns),
    ensures
        spec_sanitize_nodes(ns) == ns,
    decreases ns,
{
    if ns.len() > 0 {
        lemma_sanitize_nodes_identity(ns.drop_last());
        lemma_sanitize_node_identity(ns.last());
        assert(spec_sanitize_nodes(ns) =~= ns);
    }
}

/// Sanitizing twice gives what sanitizing once gives.
pub proof fn lemma_sanitize_idempotent(ns: Seq<NodeView>)
    ensures
        spec_sanitize_nodes(spec_sanitize_nodes(ns)) == spec_sanitize_nodes(ns),
{
    lemma_sanitize_nodes_clean(ns);
    lemma_sanitize_nodes_identity(spec_sanitize_nodes(ns));
}

/// Copies an attribute list, leaving the hydration-marker attribute out.
fn strip_marker_attrs(attrs: &Vec<Attr>) -> (r: Vec<Attr>)
    ensures
        r.deep_view() == spec_strip_marker(attrs.deep_view()),
{
    let marker = String::from_str("data-hk");
    let mut out: Vec<Attr> = Vec::new();
    let mut i: usize = 0;
    while i < attrs.len()
        invariant
            i <= attrs.len(),
            out.deep_view() == spec_strip_marker(attrs.deep_view().take(i as int)),
            marker@ == marker_name(),
        decreases attrs.len() - i,
    {
        let ghost prefix = attrs.deep_view().take(i as int);
        if !(attrs[i].name == marker) {
            out.push(Attr { name: attrs[i].name.clone(), value: attrs[i].value.clone() });
        }
        proof {
            assert(prefix.push(attrs.deep_view()[i as int]) =~= attrs.deep_view().take(
                i + 1 as int,
            ));
            assert(prefix.push(attrs.deep_view()[i as int]).drop_last() =~= prefix);
            assert(out.deep_view() =~= spec_strip_marker(attrs.deep_view().take(i + 1 as int)));
        }
        i = i + 1;
    }
    proof {
        assert(attrs.deep_view().take(attrs.len() as int) =~= attrs.deep_view());
    }
    out
}

/// The sanitized copy of one node: `None` if the node is a comment, otherwise
/// the node with comments and marker attributes removed at every depth.
pub fn sanitize_node(n: &Node) -> (r: Option<Node>)
    ensures
        (r is Some) == (spec_sanitize_node(node_view(*n)) is Some),
        r is Some ==> node_view(r->0) == spec_sanitize_node(node_view(*n))->0,
    decreases *n,
{
    match n {
        Node::Element { tag, attrs, children } => {
            let new_attrs = strip_marker_attrs(attrs);
            let mut kept: Vec<Node> = Vec::new();
            let mut i: usize = 0;
            while i < children.len()
                invariant
                    i <= children.len(),
                    nodes_view(kept@) == spec_sanitize_nodes(
                        nodes_view(children@.take(i as int)),
                    ),
                    *n == (Node::Element { tag: *tag, attrs: *attrs, children: *children }),
                decreases children.len() - i,
            {
                proof {
                    broadcast use vstd::std_specs::vec::axiom_vec_index_decreases;

                    assert(decreases_to!(*n => n->Element_children));
                    assert(decreases_to!(n->Element_children => n->Element_children[i as int]));
                }
                let ghost prefix = nodes_view(children@.take(i as int));
                let ghost kept_before = kept@;
                match sanitize_node(&children[i]) {
                    Some(m) => {
                        kept.push(m);
                        proof {
                            lemma_nodes_view_push(kept_before, kept@.last());
                        }
                    },
                    None => {},
                }
                proof {
                    lemma_nodes_view_push(children@.take(i as int), children@[i as int]);
                    lemma_sanitize_nodes_push(prefix, node_view(children@[i as int]));
                    assert(children@.take(i as int).push(children@[i as int]) =~= children@.take(
                        i + 1 as int,
                    ));
                    match spec_sanitize_node(node_view(children@[i as int])) {
                        Some(m) => {
                            assert(nodes_view(kept@) =~= spec_sanitize_nodes(
                                nodes_view(children@.take(i + 1 as int)),
                            ));
                        },
                        None => {
                            assert(nodes_view(kept@) =~= spec_sanitize_nodes(
                                nodes_view(children@.take(i + 1 as int)),
                            ));
                        },
                    }
                }
                i = i + 1;
            }
            proof {
                assert(children@.take(children.len() as int) =~= children@);
            }
            Some(Node::Element { tag: tag.clone(), attrs: new_attrs, children: kept })
        },
        Node::Text(t) => Some(Node::Text(t.clone())),
        Node::Comment(_) => None,
    }
}

/// Sanitizes a sequence of sibling nodes: removes every comment node at any
/// depth and the hydration-marker attribute from every element, keeping all
/// other structure, text and attributes unchanged and in order.
pub fn sanitize(nodes: &Vec<Node>) -> (r: Vec<Node>)
    ensures
        nodes_view(r@) == spec_sanitize_nodes(nodes_view(nodes@)),
{
    let mut kept: Vec<Node> = Vec::new();
    let mut i: usize = 0;
    while i < nodes.len()
        invariant
            i <= nodes.len(),
            nodes_view(kept@) == spec_sanitize_nodes(nodes_view(nodes@.take(i as int))),
        decreases nodes.len() - i,
    {
        let ghost prefix = nodes_view(nodes@.take(i as int));
        let ghost kept_before = kept@;
        match sanitize_node(&nodes[i]) {
            Some(m) => {
                kept.push(m);
                proof {
                    lemma_nodes_view_push(kept_before, kept@.last());
                }
            },
            None => {},
        }
        proof {
            lemma_nodes_view_push(nodes@.take(i as int), nodes@[i as int]);
            lemma_sanitize_nodes_push(prefix, node_view(nodes@[i as int]));
            assert(nodes@.take(i as int).push(nodes@[i as int]) =~= nodes@.take(i + 1 as int));
            assert(nodes_view(kept@) =~= spec_sanitize_nodes(
                nodes_view(nodes@.take(i + 1 as int)),
            ));
        }
        i = i + 1;
    }
    proof {
        assert(nodes@.take(nodes.len() as int) =~= nodes@);
    }
    kept
}

} // verus!
