//! The documentation summary handed to the generator: sections of items, each
//! item carrying an ordered list of links.

use vstd::prelude::*;

verus! {

/// A navigable (url, title) pair rendered as an anchor in the sidebar.
pub struct Link {
    pub url: String,
    pub title: String,
}

/// The mathematical value of a `Link`: its two strings as character sequences.
pub struct LinkView {
    pub url: Seq<char>,
    pub title: Seq<char>,
}

impl DeepView for Link {
    type V = LinkView;

    open spec fn deep_view(&self) -> LinkView {
        LinkView { url: self.url@, title: self.title@ }
    }
}

/// One unit of documentation content; only its links matter to the sidebar.
pub struct DocumentationItem {
    pub links: Vec<Link>,
}

/// The mathematical value of a `DocumentationItem`.
pub struct DocumentationItemView {
    pub links: Seq<LinkView>,
}

impl DeepView for DocumentationItem {
    type V = DocumentationItemView;

    open spec fn deep_view(&self) -> DocumentationItemView {
        DocumentationItemView { links: self.links.deep_view() }
    }
}

/// One titled navigational grouping shown as a block in the sidebar.
pub struct DocumentationSection {
    pub title: String,
    pub content: Vec<DocumentationItem>,
}

/// The mathematical value of a `DocumentationSection`.
pub struct DocumentationSectionView {
    pub title: Seq<char>,
    pub content: Seq<DocumentationItemView>,
}

impl DeepView for DocumentationSection {
    type V = DocumentationSectionView;

    open spec fn deep_view(&self) -> DocumentationSectionView {
        DocumentationSectionView { title: self.title@, content: self.content.deep_view() }
    }
}

/// The links of one section, flattened in order: items in `content` order,
/// links in order within each item, with no grouping, sorting or
/// de-duplication.
pub open spec fn flat_links(items: Seq<DocumentationItemView>) -> Seq<LinkView>
    decreases items.len(),
{
    if items.len() == 0 {
        Seq::empty()
    } else {
        flat_links(items.drop_last()) + items.last().links
    }
}

/// Flattening distributes over appending one item at the end.
pub proof fn lemma_flat_links_push(items: Seq<DocumentationItemView>, item: DocumentationItemView)
    ensures
        flat_links(items.push(item)) == flat_links(items) + item.links,
{
    assert(items.push(item).drop_last() =~= items);
    assert(items.push(item).last() == item);
}

} // verus!
