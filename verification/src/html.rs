//! A typed HTML view tree and its serialization to HTML text, with escaping
//! of all interpolated string content.

use vstd::prelude::*;
use vstd::string::StrSliceExecFns;
use vstd::string::StringExecFns;

verus! {

/// One attribute on an element: a name and a value.
pub struct Attr {
    pub name: String,
    pub value: String,
}

/// The mathematical value of an `Attr`.
pub struct AttrView {
    pub name: Seq<char>,
    pub value: Seq<char>,
}

impl DeepView for Attr {
    type V = AttrView;

    open spec fn deep_view(&self) -> AttrView {
        AttrView { name: self.name@, value: self.value@ }
    }
}

/// One node of the view tree: an element with attributes and children, a run
/// of text, or a comment.
pub enum Node {
    Element { tag: String, attrs: Vec<Attr>, children: Vec<Node> },
    Text(String),
    Comment(String),
}

/// The mathematical value of a `Node`.
pub enum NodeView {
    Element { tag: Seq<char>, attrs: Seq<AttrView>, children: Seq<NodeView> },
    Text(Seq<char>),
    Comment(Seq<char>),
}

/// The mathematical value of a `Node`, all strings and vectors replaced by
/// sequences.
pub open spec fn node_view(n: Node) -> NodeView
    decreases n,
{
    match n {
        Node::Element { tag, attrs, children } => NodeView::Element {
            tag: tag@,
            attrs: attrs.deep_view(),
            children: nodes_view(children@),
        },
        Node::Text(t) => NodeView::Text(t@),
        Node::Comment(c) => NodeView::Comment(c@),
    }
}

/// The mathematical values of a sequence of nodes, in order.
pub open spec fn nodes_view(ns: Seq<Node>) -> Seq<NodeView>
    decreases ns,
{
    if ns.len() == 0 {
        Seq::empty()
    } else {
        nodes_view(ns.drop_last()).push(node_view(ns.last()))
    }
}

/// `nodes_view` distributes over appending one node at the end.
pub proof fn lemma_nodes_view_push(ns: Seq<Node>, n: Node)
    ensures
        nodes_view(ns.push(n)) == nodes_view(ns).push(node_view(n)),
{
    assert(ns.push(n).drop_last() =~= ns);
    assert(ns.push(n).last() == n);
}

/// How one character reads once escaped: the four markup-special characters
/// become entity references, every other character stands for itself.
pub open spec fn escape_char(c: char) -> Seq<char> {
    if c == '&' {
        "&amp;"@
    } else if c == '<' {
        "&lt;"@
    } else if c == '>' {
        "&gt;"@
    } else if c == '"' {
        "&quot;"@
    } else {
        seq![c]
    }
}

/// HTML escaping of a whole character sequence.
pub open spec fn spec_escape(s: Seq<char>) -> Seq<char>
    decreases s.len(),
{
    if s.len() == 0 {
        Seq::empty()
    } else {
        spec_escape(s.drop_last()) + escape_char(s.last())
    }
}

/// Escaping distributes over appending one character at the end.
pub proof fn lemma_escape_push(s: Seq<char>, c: char)
    ensures
        spec_escape(s.push(c)) == spec_escape(s) + escape_char(c),
{
    assert(s.push(c).drop_last() =~= s);
    assert(s.push(c).last() == c);
}

/// Escaped text is inert: it contains no `<`, `>` or `"`, so interpolated
/// strings can never be parsed as markup or break out of a quoted attribute
/// value.
pub proof fn lemma_escape_inert(s: Seq<char>)
    ensures
        forall|i: int|
            0 <= i < spec_escape(s).len() ==> spec_escape(s)[i] != '<' && spec_escape(s)[i] != '>'
                && spec_escape(s)[i] != '"',
    decreases s.len(),
{
    reveal_strlit("&amp;");
    reveal_strlit("&lt;");
    reveal_strlit("&gt;");
    reveal_strlit("&quot;");
    if s.len() > 0 {
        lemma_escape_inert(s.drop_last());
        let e = spec_escape(s.drop_last());
        let c = escape_char(s.last());
        assert forall|i: int| 0 <= i < (e + c).len() implies (e + c)[i] != '<' && (e + c)[i] != '>'
            && (e + c)[i] != '"' by {
            if i < e.len() {
                assert((e + c)[i] == e[i]);
            } else {
                assert((e + c)[i] == c[i - e.len()]);
            }
        }
    }
}

/// Relies on `String::push`: appends exactly the one given character.
#[verifier::external_body]
fn push_char(out: &mut String, c: char)
    ensures
        final(out)@ == old(out)@ + seq![c],
{
    out.push(c);
}

/// Appends the escaped form of `s` to `out`.
pub fn escape_into(s: &str, out: &mut String)
    ensures
        final(out)@ == old(out)@ + spec_escape(s@),
{
    let len = s.unicode_len();
    let mut i: usize = 0;
    while i < len
        invariant
            i <= len,
            len == s@.len(),
            out@ == old(out)@ + spec_escape(s@.take(i as int)),
        decreases len - i,
    {
        let c = s.get_char(i);
        if c == '&' {
            out.append("&amp;");
        } else if c == '<' {
            out.append("&lt;");
        } else if c == '>' {
            out.append("&gt;");
        } else if c == '"' {
            out.append("&quot;");
        } else {
            push_char(out, c);
        }
        proof {
            lemma_escape_push(s@.take(i as int), s@[i as int]);
            assert(s@.take(i as int).push(s@[i as int]) =~= s@.take(i + 1 as int));
        }
        i = i + 1;
    }
    proof {
        assert(s@.take(len as int) =~= s@);
    }
}

/// HTML-escapes a string: `&`, `<`, `>` and `"` become entity references,
/// all other characters are kept unchanged.
pub fn escape_text(s: &str) -> (r: String)
    ensures
        r@ == spec_escape(s@),
{
    let mut out = String::new();
    escape_into(s, &mut out);
    out
}

/// How one attribute reads in a start tag: a space, the name verbatim, and
/// the value escaped inside double quotes.
pub open spec fn spec_serialize_attr(a: AttrView) -> Seq<char> {
    " "@ + a.name + "=\""@ + spec_escape(a.value) + "\""@
}

/// How a whole attribute list reads, in order.
pub open spec fn spec_serialize_attrs(attrs: Seq<AttrView>) -> Seq<char>
    decreases attrs.len(),
{
    if attrs.len() == 0 {
        Seq::empty()
    } else {
        spec_serialize_attrs(attrs.drop_last()) + spec_serialize_attr(attrs.last())
    }
}

/// Attribute serialization distributes over appending one attribute.
pub proof fn lemma_serialize_attrs_push(attrs: Seq<AttrView>, a: AttrView)
    ensures
        spec_serialize_attrs(attrs.push(a)) == spec_serialize_attrs(attrs) + spec_serialize_attr(a),
{
    assert(attrs.push(a).drop_last() =~= attrs);
    assert(attrs.push(a).last() == a);
}

/// How one node reads as HTML text: text escaped, comments between comment
/// delimiters, an element as a start tag with its attributes, its serialized
/// children, and an end tag.
pub open spec fn spec_serialize_node(n: NodeView) -> Seq<char>
    decreases n,
{
    match n {
        NodeView::Element { tag, attrs, children } => "<"@ + tag + spec_serialize_attrs(attrs)
            + ">"@ + spec_serialize_nodes(children) + "</"@ + tag + ">"@,
        NodeView::Text(t) => spec_escape(t),
        NodeView::Comment(c) => "<!--"@ + c + "-->"@,
    }
}

/// How a sequence of sibling nodes reads, in order.
pub open spec fn spec_serialize_nodes(ns: Seq<NodeView>) -> Seq<char>
    decreases ns,
{
    if ns.len() == 0 {
        Seq::empty()
    } else {
        spec_serialize_nodes(ns.drop_last()) + spec_serialize_node(ns.last())
    }
}

/// Node serialization distributes over appending one sibling.
pub proof fn lemma_serialize_nodes_push(ns: Seq<NodeView>, n: NodeView)
    ensures
        spec_serialize_nodes(ns.push(n)) == spec_serialize_nodes(ns) + spec_serialize_node(n),
{
    assert(ns.push(n).drop_last() =~= ns);
    assert(ns.push(n).last() == n);
}

/// Appends the serialized attribute list to `out`.
fn write_attrs(attrs: &Vec<Attr>, out: &mut String)
    ensures
        final(out)@ == old(out)@ + spec_serialize_attrs(attrs.deep_view()),
{
    let mut i: usize = 0;
    while i < attrs.len()
        invariant
            i <= attrs.len(),
            out@ == old(out)@ + spec_serialize_attrs(attrs.deep_view().take(i as int)),
        decreases attrs.len() - i,
    {
        out.append(" ");
        out.append(attrs[i].name.as_str());
        out.append("=\"");
        escape_into(attrs[i].value.as_str(), out);
        out.append("\"");
        proof {
            lemma_serialize_attrs_push(
                attrs.deep_view().take(i as int),
                attrs.deep_view()[i as int],
            );
            assert(attrs.deep_view().take(i as int).push(attrs.deep_view()[i as int]) =~= attrs
                .deep_view()
                .take(i + 1 as int));
        }
        i = i + 1;
    }
    proof {
        assert(attrs.deep_view().take(attrs.len() as int) =~= attrs.deep_view());
    }
}

impl Node {
    /// Appends this node's HTML text to `out`.
    pub fn write_html(&self, out: &mut String)
        ensures
            final(out)@ == old(out)@ + spec_serialize_node(node_view(*self)),
        decreases *self,
    {
        match self {
            Node::Element { tag, attrs, children } => {
                out.append("<");
                out.append(tag.as_str());
                write_attrs(attrs, out);
                out.append(">");
                let ghost mid = out@;
                let mut i: usize = 0;
                while i < children.len()
                    invariant
                        i <= children.len(),
                        out@ == mid + spec_serialize_nodes(nodes_view(children@.take(i as int))),
                        *self == (Node::Element {
                            tag: *tag,
                            attrs: *attrs,
                            children: *children,
                        }),
                    decreases children.len() - i,
                {
                    proof {
                        broadcast use vstd::std_specs::vec::axiom_vec_index_decreases;

                        assert(decreases_to!(*self => self->Element_children));
                        assert(decreases_to!(self->Element_children => self->Element_children[
                            i as int
                        ]));
                    }
                    children[i].write_html(out);
                    proof {
                        lemma_nodes_view_push(children@.take(i as int), children@[i as int]);
                        lemma_serialize_nodes_push(
                            nodes_view(children@.take(i as int)),
                            node_view(children@[i as int]),
                        );
                        assert(children@.take(i as int).push(children@[i as int]) =~= children@
                            .take(i + 1 as int));
                    }
                    i = i + 1;
                }
                proof {
                    assert(children@.take(children.len() as int) =~= children@);
                }
                out.append("</");
                out.append(tag.as_str());
                out.append(">");
            },
            Node::Text(t) => {
                escape_into(t.as_str(), out);
            },
            Node::Comment(c) => {
                out.append("<!--");
                out.append(c.as_str());
                out.append("-->");
            },
        }
    }
}

/// Serializes a sequence of sibling nodes to one HTML string.
pub fn serialize_nodes(ns: &Vec<Node>) -> (r: String)
    ensures
        r@ == spec_serialize_nodes(nodes_view(ns@)),
{
    let mut out = String::new();
    let mut i: usize = 0;
    while i < ns.len()
        invariant
            i <= ns.len(),
            out@ == spec_serialize_nodes(nodes_view(ns@.take(i as int))),
        decreases ns.len() - i,
    {
        ns[i].write_html(&mut out);
        proof {
            lemma_nodes_view_push(ns@.take(i as int), ns@[i as int]);
            lemma_serialize_nodes_push(
                nodes_view(ns@.take(i as int)),
                node_view(ns@[i as int]),
            );
            assert(ns@.take(i as int).push(ns@[i as int]) =~= ns@.take(i + 1 as int));
        }
        i = i + 1;
    }
    proof {
        assert(ns@.take(ns.len() as int) =~= ns@);
    }
    out
}

} // verus!
