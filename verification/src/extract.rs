use vstd::prelude::*;

use crate::errors::ScraperError;
use crate::html::HtmlDocument;
use crate::html::attr_options;
use crate::html::attr_options_raw;
use crate::html::matches_within_first;
use crate::html::select_two_level_raw;
use crate::html::selector_compiles;

verus! {

/// The views of a sequence of string pairs.
pub open spec fn pair_views(ps: Seq<(String, String)>) -> Seq<(Seq<char>, Seq<char>)> {
    ps.map_values(|p: (String, String)| (p.0@, p.1@))
}

/// The string an attribute reading yields: its value where the attribute is
/// present, the empty string where it is absent — never a failure.
pub open spec fn or_empty(o: Option<Seq<char>>) -> Seq<char> {
    match o {
        Some(s) => s,
        None => Seq::empty(),
    }
}

/// Each pair of optional attribute readings turned into a pair of strings,
/// an absent attribute reading as the empty string.
pub open spec fn pairs_or_empty(ps: Seq<(Option<Seq<char>>, Option<Seq<char>>)>) -> Seq<
    (Seq<char>, Seq<char>),
> {
    ps.map_values(
        |p: (Option<Seq<char>>, Option<Seq<char>>)| (or_empty(p.0), or_empty(p.1)),
    )
}

/// The subsequence of `ps` whose pairs have a non-empty first component,
/// in order.
pub open spec fn spec_nonempty_first(ps: Seq<(Seq<char>, Seq<char>)>) -> Seq<
    (Seq<char>, Seq<char>),
>
    decreases ps.len(),
{
    if ps.len() == 0 {
        Seq::empty()
    } else {
        spec_nonempty_first(ps.drop_last()) + if ps.last().0.len() != 0 {
            seq![ps.last()]
        } else {
            Seq::empty()
        }
    }
}

/// Every pair that survives the filter has a non-empty first component.
pub proof fn lemma_nonempty_first_filtered(ps: Seq<(Seq<char>, Seq<char>)>)
    ensures
        forall|i: int|
            0 <= i < spec_nonempty_first(ps).len() ==> #[trigger] spec_nonempty_first(
                ps,
            )[i].0.len() != 0,
    decreases ps.len(),
{
    if ps.len() > 0 {
        lemma_nonempty_first_filtered(ps.drop_last());
        let pre = spec_nonempty_first(ps.drop_last());
        assert forall|i: int|
            0 <= i < spec_nonempty_first(ps).len() implies #[trigger] spec_nonempty_first(
            ps,
        )[i].0.len() != 0 by {
            if i < pre.len() {
                assert(spec_nonempty_first(ps)[i] == pre[i]);
            } else {
                assert(spec_nonempty_first(ps)[i] == ps.last());
            }
        }
    }
}

/// Keeps exactly the pairs whose first component is non-empty, preserving
/// their order.
pub fn filter_nonempty_first(pairs: &Vec<(String, String)>) -> (r: Vec<(String, String)>)
    ensures
        pair_views(r@) == spec_nonempty_first(pair_views(pairs@)),
{
    let ghost pv = pair_views(pairs@);
    let mut r: Vec<(String, String)> = Vec::new();
    let mut i: usize = 0;
    while i < pairs.len()
        invariant
            i <= pairs.len(),
            pv == pair_views(pairs@),
            pair_views(r@) == spec_nonempty_first(pv.subrange(0, i as int)),
        decreases pairs.len() - i,
    {
        let p = &pairs[i];
        if !p.0.as_str().is_empty() {
            r.push((p.0.clone(), p.1.clone()));
        }
        proof {
            let prefix = pv.subrange(0, i + 1);
            assert(prefix.drop_last() =~= pv.subrange(0, i as int));
            assert(prefix.last() == pv[i as int]);
            assert(pair_views(r@) =~= spec_nonempty_first(prefix));
        }
        i = i + 1;
    }
    proof {
        assert(pv.subrange(0, pairs@.len() as int) =~= pv);
    }
    r
}

/// The attribute reading as an owned string: its value where present, the
/// empty string where absent.
fn opt_or_empty(o: &Option<String>) -> (r: String)
    ensures
        r@ == or_empty(o.deep_view()),
{
    match o {
        Some(s) => s.clone(),
        None => String::new(),
    }
}

/// Two-level extraction over one parsed document: a container selector
/// locates the first matching region, an element selector picks elements
/// inside it.
pub struct DataExtractor<'a> {
    document: &'a HtmlDocument,
}

impl<'a> DataExtractor<'a> {
    /// The text of the document this extractor reads.
    pub closed spec fn doc_text(&self) -> Seq<char> {
        self.document.text()
    }

    pub fn new(document: &'a HtmlDocument) -> (r: Self)
        ensures
            r.doc_text() == document.text(),
    {
        Self { document }
    }

    /// All elements matching `element_selector` within the first element
    /// matching `container_selector`, in document order: exactly as many as
    /// the document's text holds there, so a document with no matching
    /// container yields the empty sequence, not an error. A selector that
    /// does not compile yields `InvalidSelector` carrying its exact text,
    /// the container's selector being tried first.
    pub fn extract_elements(
        &self,
        container_selector: &str,
        element_selector: &str,
    ) -> (r: Result<Vec<scraper::ElementRef<'a>>, ScraperError>)
        ensures
            r is Ok <==> (selector_compiles(container_selector@) && selector_compiles(
                element_selector@,
            )),
            !selector_compiles(container_selector@) ==> (r->Err_0 matches
                ScraperError::InvalidSelector(t) && t@ == container_selector@),
            (selector_compiles(container_selector@) && !selector_compiles(element_selector@))
                ==> (r->Err_0 matches ScraperError::InvalidSelector(t) && t@ == element_selector@),
            r is Ok ==> r->Ok_0@.len() == matches_within_first(
                self.doc_text(),
                container_selector@,
                element_selector@,
            ),
    {
        match self.document.parse_selector(container_selector) {
            Ok(_) => {},
            Err(e) => { return Err(e) },
        }
        match self.document.parse_selector(element_selector) {
            Ok(_) => {},
            Err(e) => { return Err(e) },
        }
        Ok(select_two_level_raw(self.document, container_selector, element_selector))
    }

    /// For each element of the two-level extraction, the pair of its
    /// `first_attr` and `second_attr` values (an absent attribute reads as
    /// the empty string, never a failure), keeping only pairs whose first
    /// value is non-empty, in document order. Selector failures propagate
    /// unchanged from element extraction.
    pub fn extract_attribute_pairs(
        &self,
        container_selector: &str,
        element_selector: &str,
        first_attr: &str,
        second_attr: &str,
    ) -> (r: Result<Vec<(String, String)>, ScraperError>)
        ensures
            r is Ok <==> (selector_compiles(container_selector@) && selector_compiles(
                element_selector@,
            )),
            !selector_compiles(container_selector@) ==> (r->Err_0 matches
                ScraperError::InvalidSelector(t) && t@ == container_selector@),
            (selector_compiles(container_selector@) && !selector_compiles(element_selector@))
                ==> (r->Err_0 matches ScraperError::InvalidSelector(t) && t@ == element_selector@),
            r is Ok ==> pair_views(r->Ok_0@) == spec_nonempty_first(
                pairs_or_empty(
                    attr_options(
                        self.doc_text(),
                        container_selector@,
                        element_selector@,
                        first_attr@,
                        second_attr@,
                    ),
                ),
            ),
            r is Ok ==> forall|i: int|
                0 <= i < r->Ok_0@.len() ==> #[trigger] r->Ok_0@[i].0@.len() != 0,
    {
        match self.document.parse_selector(container_selector) {
            Ok(_) => {},
            Err(e) => { return Err(e) },
        }
        match self.document.parse_selector(element_selector) {
            Ok(_) => {},
            Err(e) => { return Err(e) },
        }
        let options = attr_options_raw(
            self.document.source_str(),
            container_selector,
            element_selector,
            first_attr,
            second_attr,
        );
        let ghost ov = options@.map_values(
            |p: (Option<String>, Option<String>)| (p.0.deep_view(), p.1.deep_view()),
        );
        let mut pairs: Vec<(String, String)> = Vec::new();
        let mut i: usize = 0;
        while i < options.len()
            invariant
                i <= options.len(),
                ov == options@.map_values(
                    |p: (Option<String>, Option<String>)| (p.0.deep_view(), p.1.deep_view()),
                ),
                pairs@.len() == i,
                pair_views(pairs@) == pairs_or_empty(ov).subrange(0, i as int),
            decreases options.len() - i,
        {
            let first = opt_or_empty(&options[i].0);
            let second = opt_or_empty(&options[i].1);
            pairs.push((first, second));
            proof {
                assert(ov[i as int] == (options@[i as int].0.deep_view(), options@[
                    i as int
                ].1.deep_view()));
                assert(pairs_or_empty(ov)[i as int] == (
                    or_empty(ov[i as int].0),
                    or_empty(ov[i as int].1),
                ));
                assert(ov.len() == options@.len());
                assert(pairs_or_empty(ov).len() == ov.len());
                let target = pairs_or_empty(ov).subrange(0, i + 1);
                assert(pair_views(pairs@)[i as int] == target[i as int]);
                assert(pair_views(pairs@) =~= target);
            }
            i = i + 1;
        }
        proof {
            assert(pairs_or_empty(ov).subrange(0, options@.len() as int) =~= pairs_or_empty(ov));
        }
        let kept = filter_nonempty_first(&pairs);
        proof {
            lemma_nonempty_first_filtered(pair_views(pairs@));
            assert forall|j: int| 0 <= j < kept@.len() implies #[trigger] kept@[j].0@.len()
                != 0 by {
                assert(pair_views(kept@)[j].0 == kept@[j].0@);
            }
        }
        Ok(kept)
    }
}

} // verus!
