use vstd::prelude::*;

use crate::errors::ScraperError;

verus! {

// The document, selector and element-handle types of the `scraper` crate.
// They are opaque to verification: the library reads them only through the
// trusted wrappers below and copies plain strings out before reasoning.

#[verifier::external_type_specification]
#[verifier::external_body]
pub struct ExHtml(scraper::Html);

#[verifier::external_type_specification]
#[verifier::external_body]
pub struct ExSelector(scraper::Selector);

#[verifier::external_type_specification]
#[verifier::external_body]
pub struct ExElementRef<'a>(scraper::ElementRef<'a>);

/// Whether `scraper::Selector::parse` accepts the selector text. Compilation
/// is a pure parse of the string, so acceptance is a function of the text
/// alone.
pub uninterp spec fn selector_compiles(s: Seq<char>) -> bool;

/// How many elements match `element` inside the subtree of the first element
/// of the parsed `html` matching `container`; zero where no element matches
/// `container`. Parsing and selection in scraper are deterministic tree
/// operations, so the count is a function of the three texts alone.
pub uninterp spec fn matches_within_first(
    html: Seq<char>,
    container: Seq<char>,
    element: Seq<char>,
) -> nat;

/// The attribute readings of the two-level extraction over the parsed
/// `html`: for each element matching `element` inside the subtree of the
/// first element matching `container`, in document order, the values of
/// `first_attr` and `second_attr`, each `None` where the element lacks the
/// attribute. Empty where no element matches `container`. A function of the
/// five texts alone, for the same reason as `matches_within_first`.
pub uninterp spec fn attr_options(
    html: Seq<char>,
    container: Seq<char>,
    element: Seq<char>,
    first_attr: Seq<char>,
    second_attr: Seq<char>,
) -> Seq<(Option<Seq<char>>, Option<Seq<char>>)>;

/// The cell texts of the parsed `html`'s rows: for each element of the whole
/// document matching `row_selector`, in document order, the
/// whitespace-trimmed inner markup (inner tags kept verbatim) of each of its
/// descendant elements matching `cell_selector`, in document order. A
/// function of the three texts alone: parsing, selection, serialization and
/// trimming are all deterministic in the texts.
pub uninterp spec fn row_cells(
    html: Seq<char>,
    row_selector: Seq<char>,
    cell_selector: Seq<char>,
) -> Seq<Seq<Seq<char>>>;

/// Relies on scraper::Html::parse_document: best-effort parsing that never
/// fails; malformed input yields a partial tree, not an error.
#[verifier::external_body]
pub(crate) fn parse_document_raw(html: &str) -> scraper::Html {
    scraper::Html::parse_document(html)
}

/// Relies on scraper::Selector::parse: returns a compiled selector exactly
/// when the selector text is syntactically valid.
#[verifier::external_body]
pub(crate) fn compile_selector_raw(selector: &str) -> (r: Option<scraper::Selector>)
    ensures
        r is Some <==> selector_compiles(selector@),
{
    scraper::Selector::parse(selector).ok()
}

/// Relies on scraper::Html::select and scraper::ElementRef::select: the
/// elements matching the element selector within the first match of the
/// container selector, in document order. An `HtmlDocument` is only ever
/// built by `HtmlDocument::new`, which stores exactly the text its document
/// was parsed from, so the result's length is the named count over that
/// text. The `requires` keeps out selector texts whose compilation — a pure
/// parse — would fail.
#[verifier::external_body]
pub(crate) fn select_two_level_raw<'a>(
    doc: &'a HtmlDocument,
    container_selector: &str,
    element_selector: &str,
) -> (r: Vec<scraper::ElementRef<'a>>)
    requires
        selector_compiles(container_selector@),
        selector_compiles(element_selector@),
    ensures
        r@.len() == matches_within_first(doc.text(), container_selector@, element_selector@),
{
    let container = scraper::Selector::parse(container_selector).ok().unwrap();
    let element = scraper::Selector::parse(element_selector).ok().unwrap();
    doc.document
        .select(&container)
        .next()
        .map(|c| c.select(&element).collect())
        .unwrap_or_default()
}

/// Relies on scraper::Html::parse_document, Html::select,
/// ElementRef::select and ElementRef::attr: parses the text and reads, for
/// each element of the two-level selection, the two named attributes, each
/// absent one as `None`. Self-contained in the five texts, so the result is
/// exactly the named reading.
#[verifier::external_body]
pub(crate) fn attr_options_raw(
    html: &str,
    container_selector: &str,
    element_selector: &str,
    first_attr: &str,
    second_attr: &str,
) -> (r: Vec<(Option<String>, Option<String>)>)
    requires
        selector_compiles(container_selector@),
        selector_compiles(element_selector@),
    ensures
        r@.map_values(|p: (Option<String>, Option<String>)| (p.0.deep_view(), p.1.deep_view()))
            == attr_options(html@, container_selector@, element_selector@, first_attr@, second_attr@),
{
    let doc = scraper::Html::parse_document(html);
    let container = scraper::Selector::parse(container_selector).ok().unwrap();
    let element = scraper::Selector::parse(element_selector).ok().unwrap();
    doc.select(&container)
        .next()
        .map(|c| {
            c.select(&element)
                .map(|el| (el.attr(first_attr).map(str::to_string), el.attr(second_attr).map(str::to_string)))
                .collect()
        })
        .unwrap_or_default()
}

/// Relies on scraper::Html::parse_document, Html::select,
/// ElementRef::select, ElementRef::inner_html and str::trim: parses the
/// text and reads, for each row the row selector matches, the trimmed inner
/// markup of each of its cells. Self-contained in the three texts, so the
/// result is exactly the named cell reading.
#[verifier::external_body]
pub(crate) fn row_cells_raw(
    html: &str,
    row_selector: &str,
    cell_selector: &str,
) -> (r: Vec<Vec<String>>)
    requires
        selector_compiles(row_selector@),
        selector_compiles(cell_selector@),
    ensures
        r.deep_view() == row_cells(html@, row_selector@, cell_selector@),
{
    let doc = scraper::Html::parse_document(html);
    let rows = scraper::Selector::parse(row_selector).ok().unwrap();
    let cells = scraper::Selector::parse(cell_selector).ok().unwrap();
    doc.select(&rows)
        .map(|row| {
            row.select(&cells).map(|c| c.inner_html().trim().to_string()).collect()
        })
        .collect()
}

/// An immutable parsed representation of an HTML string, ready to be queried
/// with compiled selectors. It keeps the text it was parsed from, so that
/// contracts can speak of extraction results as functions of that text.
pub struct HtmlDocument {
    document: scraper::Html,
    source: String,
}

impl HtmlDocument {
    /// The parsed document value this wrapper holds.
    pub closed spec fn spec_doc(self) -> scraper::Html {
        self.document
    }

    /// The text this document was parsed from.
    pub closed spec fn text(self) -> Seq<char> {
        self.source@
    }

    /// Parses the HTML text. Parsing is best-effort and never fails.
    pub fn new(html: &str) -> (r: Self)
        ensures
            r.text() == html@,
    {
        Self { document: parse_document_raw(html), source: html.to_owned() }
    }

    /// The underlying parsed document, for callers that query it directly:
    /// exactly the stored document, which is never mutated.
    pub fn get_document(&self) -> (r: &scraper::Html)
        ensures
            *r == self.spec_doc(),
    {
        &self.document
    }

    /// The text the document was parsed from.
    pub(crate) fn source_str(&self) -> (r: &str)
        ensures
            r@ == self.text(),
    {
        self.source.as_str()
    }

    /// Compiles the selector text, reporting the offending text on failure.
    pub fn parse_selector(&self, selector: &str) -> (r: Result<
        scraper::Selector,
        ScraperError,
    >)
        ensures
            r is Ok <==> selector_compiles(selector@),
            r is Err ==> (r->Err_0 matches ScraperError::InvalidSelector(t) && t@ == selector@),
    {
        match compile_selector_raw(selector) {
            Some(s) => Ok(s),
            None => Err(ScraperError::InvalidSelector(selector.to_owned())),
        }
    }
}

} // verus!
