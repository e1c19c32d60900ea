//! The generation pipeline on values: render the summary to raw HTML text,
//! and sanitize-then-serialize it to the final document. Writing the result
//! and the bundled assets to disk is the caller's side of the boundary.

use vstd::prelude::*;
use vstd::string::StringExecFns;
use crate::html::{
    Node, node_view, nodes_view, lemma_nodes_view_push, spec_serialize_node, spec_serialize_nodes,
    serialize_nodes,
};
use crate::model::{DocumentationSection, DocumentationSectionView};
use crate::render::{generate_page, spec_page};
use crate::sanitize::{sanitize, spec_sanitize_nodes};

verus! {

/// The reportable failures of a generation run, one kind per pipeline stage
/// that can fail. Rendering and sanitization are total on values, and the
/// filesystem side of the boundary presently absorbs or aborts on its own
/// failures, so none of these is produced today.
#[derive(Debug)]
pub enum GenerationError {
    DirectoryCreateFailed,
    AssetWriteFailed,
    RenderFailed,
}

/// The raw HTML text of the page: the doctype line followed by the serialized
/// page tree, before sanitization.
pub open spec fn spec_render(ss: Seq<DocumentationSectionView>) -> Seq<char> {
    "<!DOCTYPE html>"@ + spec_serialize_node(spec_page(ss))
}

/// The final HTML text of the page: the doctype line followed by the
/// serialized, sanitized page tree.
pub open spec fn spec_generate_html(ss: Seq<DocumentationSectionView>) -> Seq<char> {
    "<!DOCTYPE html>"@ + spec_serialize_nodes(spec_sanitize_nodes(seq![spec_page(ss)]))
}

/// Renders the summary to raw HTML text, before sanitization.
pub fn render(summary: &Vec<DocumentationSection>) -> (r: String)
    ensures
        r@ == spec_render(summary.deep_view()),
{
    let mut out = String::from_str("<!DOCTYPE html>");
    let page = generate_page(summary);
    page.write_html(&mut out);
    out
}

/// Renders the summary, sanitizes the tree, and serializes it: the complete
/// text of `index.html`.
pub fn generate_html(summary: Vec<DocumentationSection>) -> (r: String)
    ensures
        r@ == spec_generate_html(summary.deep_view()),
{
    let page = generate_page(&summary);
    let ghost page_view = node_view(page);
    let mut pages: Vec<Node> = Vec::new();
    pages.push(page);
    proof {
        lemma_nodes_view_push(Seq::empty(), pages@[0]);
        assert(Seq::<Node>::empty().push(pages@[0]) =~= pages@);
        assert(nodes_view(pages@) =~= seq![page_view]);
    }
    let clean = sanitize(&pages);
    let body = serialize_nodes(&clean);
    String::from_str("<!DOCTYPE html>").concat(body.as_str())
}

} // verus!
