//! Parsed markup and the queries that the extractors make on it, and pattern captures.
//!
//! An element is named by its position among the nodes of the parsed tree, in the order in
//! which the parser created them.

use vstd::prelude::*;

use scraper::Html;

verus! {

#[verifier::external_type_specification]
#[verifier::external_body]
pub struct ExHtml(Html);

/// The elements that `selector` matches, in document order: in the whole document for `None`,
/// among the descendants of the element at `scope` otherwise. `None` when the selector does not
/// parse.
pub uninterp spec fn selection(source: Seq<char>, scope: Option<usize>, selector: Seq<char>) -> Option<
    Seq<usize>,
>;

/// The text of the element at `node`: its descendant text nodes joined in document order.
pub uninterp spec fn element_text(source: Seq<char>, node: usize) -> Seq<char>;

/// The value of attribute `name` of the element at `node`.
pub uninterp spec fn element_attr(source: Seq<char>, node: usize, name: Seq<char>) -> Option<
    Seq<char>,
>;

/// Group `group` of the leftmost-first match of `pattern` in `text`. `None` when the pattern
/// does not compile, nothing matches, or the group took no part in the match.
pub uninterp spec fn pattern_group(pattern: Seq<char>, text: Seq<char>, group: usize) -> Option<
    Seq<char>,
>;

/// The characters of optional text.
pub open spec fn opt_chars(o: Option<Vec<char>>) -> Option<Seq<char>> {
    match o {
        Some(v) => Some(v@),
        None => None,
    }
}

/// The positions of an optional list of nodes.
pub open spec fn opt_nodes(o: Option<Vec<usize>>) -> Option<Seq<usize>> {
    match o {
        Some(v) => Some(v@),
        None => None,
    }
}

/// A document: its markup and the tree parsed from it.
pub struct Page {
    source: String,
    tree: Html,
}

impl View for Page {
    type V = Seq<char>;

    closed spec fn view(&self) -> Seq<char> {
        self.source@
    }
}

/// Relies on scraper::Html::parse_document, which builds the tree from the markup alone.
#[verifier::external_body]
pub(crate) fn parse_page(content: &str) -> (p: Page)
    ensures
        p@ == content@,
{
    Page { source: content.to_string(), tree: Html::parse_document(content) }
}

/// Relies on scraper::Selector::parse, Html::select and ElementRef::select.
#[verifier::external_body]
pub(crate) fn select(page: &Page, scope: Option<usize>, selector: &str) -> (r: Option<Vec<usize>>)
    ensures
        opt_nodes(r) == selection(page@, scope, selector@),
{
    let selector = scraper::Selector::parse(selector).ok()?;
    let found: Vec<scraper::ElementRef> = match scope {
        None => page.tree.select(&selector).collect(),
        Some(k) => page.tree.tree.nodes().nth(k).and_then(scraper::ElementRef::wrap).map_or(
            Vec::new(),
            |e| e.select(&selector).collect(),
        ),
    };
    let ids: Vec<_> = page.tree.tree.nodes().map(|n| n.id()).collect();
    Some(found.iter().map(|e| ids.iter().position(|i| *i == e.id()).unwrap_or(ids.len())).collect())
}

/// Relies on scraper::ElementRef::text.
#[verifier::external_body]
pub(crate) fn text(page: &Page, node: usize) -> (r: Vec<char>)
    ensures
        r@ == element_text(page@, node),
{
    match page.tree.tree.nodes().nth(node).and_then(scraper::ElementRef::wrap) {
        Some(e) => e.text().flat_map(|t| t.chars()).collect(),
        None => Vec::new(),
    }
}

/// Relies on scraper::ElementRef::attr.
#[verifier::external_body]
pub(crate) fn attr(page: &Page, node: usize, name: &str) -> (r: Option<Vec<char>>)
    ensures
        opt_chars(r) == element_attr(page@, node, name@),
{
    let e = scraper::ElementRef::wrap(page.tree.tree.nodes().nth(node)?)?;
    e.attr(name).map(|v| v.chars().collect())
}

/// Relies on regex::Regex::new and Regex::captures.
#[verifier::external_body]
pub(crate) fn capture(pattern: &str, text: &Vec<char>, group: usize) -> (r: Option<Vec<char>>)
    ensures
        opt_chars(r) == pattern_group(pattern@, text@, group),
{
    let text: String = text.iter().collect();
    let caps = regex::Regex::new(pattern).ok()?.captures(&text)?;
    caps.get(group).map(|m| m.as_str().chars().collect())
}

} // verus!
