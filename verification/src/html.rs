//! Elements picked out of HTML documents by CSS selectors.
//!
//! Parsing and selector matching are done by the `scraper` crate; what the
//! library reads of each matched element is held as plain values in a
//! `Fragment`.
use vstd::prelude::*;
use crate::text::{join, strs, trim, trim_str};

verus! {

/// An element matched by a selector: its markup, its text nodes in document
/// order, and its `href` attribute if it has one.
pub struct Fragment {
    pub html: String,
    pub texts: Vec<String>,
    pub href: Option<String>,
}

/// What a fragment holds, as plain values.
pub type FragmentView = (Seq<char>, Seq<Seq<char>>, Option<Seq<char>>);

impl View for Fragment {
    type V = FragmentView;

    open spec fn view(&self) -> FragmentView {
        (
            self.html@,
            strs(self.texts@),
            match self.href {
                Some(h) => Some(h@),
                None => None,
            },
        )
    }
}

/// The views of a list of fragments.
pub open spec fn fragments_view(v: Seq<Fragment>) -> Seq<FragmentView> {
    v.map_values(|f: Fragment| f@)
}

/// The elements that `selector` matches in the document `html` parsed as a
/// whole page, in document order; `None` when the selector does not parse.
pub uninterp spec fn document_matches(html: Seq<char>, selector: Seq<char>) -> Option<Seq<FragmentView>>;

/// The elements that `selector` matches in `html` parsed as a fragment, in
/// document order; `None` when the selector does not parse.
pub uninterp spec fn fragment_matches(html: Seq<char>, selector: Seq<char>) -> Option<Seq<FragmentView>>;

/// Calls `Selector::parse`, `Html::parse_document` and `Html::select`; each
/// match is read through `ElementRef::html`, `ElementRef::text` and
/// `Element::attr("href")`. The result is the named `document_matches`.
#[verifier::external_body]
pub fn select_in_document(html: &str, selector: &str) -> (r: Option<Vec<Fragment>>)
    ensures
        match r {
            Some(v) => document_matches(html@, selector@) == Some(fragments_view(v@)),
            None => document_matches(html@, selector@) is None,
        },
{
    let sel = scraper::Selector::parse(selector).ok()?;
    let doc = scraper::Html::parse_document(html);
    let found = doc.select(&sel).map(|e| Fragment {
        html: e.html(),
        texts: e.text().map(String::from).collect(),
        href: e.value().attr("href").map(String::from),
    });
    Some(found.collect())
}

/// Calls `Selector::parse`, `Html::parse_fragment` and `Html::select`; each
/// match is read as in `select_in_document`. The result is the named
/// `fragment_matches`.
#[verifier::external_body]
pub fn select_in_fragment(html: &str, selector: &str) -> (r: Option<Vec<Fragment>>)
    ensures
        match r {
            Some(v) => fragment_matches(html@, selector@) == Some(fragments_view(v@)),
            None => fragment_matches(html@, selector@) is None,
        },
{
    let sel = scraper::Selector::parse(selector).ok()?;
    let doc = scraper::Html::parse_fragment(html);
    let found = doc.select(&sel).map(|e| Fragment {
        html: e.html(),
        texts: e.text().map(String::from).collect(),
        href: e.value().attr("href").map(String::from),
    });
    Some(found.collect())
}

/// The text of an element: its text nodes one after the other.
pub open spec fn element_text(f: FragmentView) -> Seq<char> {
    join(f.1, Seq::<char>::empty())
}

/// The trimmed text of the first match, when there is one and it is not
/// blank.
pub open spec fn first_text(found: Option<Seq<FragmentView>>) -> Option<Seq<char>> {
    match found {
        Some(fs) => if fs.len() > 0 && trim(element_text(fs[0])).len() > 0 {
            Some(trim(element_text(fs[0])))
        } else {
            None
        },
        None => None,
    }
}

/// Joins strings with `sep` between consecutive ones.
pub fn join_strings(v: &Vec<String>, sep: &str) -> (r: String)
    ensures
        r@ == join(strs(v@), sep@),
{
    let mut out = String::new();
    let mut i: usize = 0;
    while i < v.len()
        invariant
            i <= v.len(),
            out@ == join(strs(v@).take(i as int), sep@),
        decreases v.len() - i,
    {
        proof {
            assert(strs(v@).take(i + 1).drop_last() =~= strs(v@).take(i as int));
            assert(strs(v@).take(i + 1).last() == v@[i as int]@);
        }
        if i > 0 {
            crate::text::append_str(&mut out, sep);
        }
        crate::text::append_str(&mut out, v[i].as_str());
        proof {
            if i == 0 {
                assert(strs(v@).take(0) =~= Seq::<Seq<char>>::empty());
                assert(out@ =~= v@[0]@);
            }
        }
        i = i + 1;
    }
    proof {
        assert(strs(v@).take(v.len() as int) =~= strs(v@));
    }
    out
}

/// The trimmed text of an element, `None` when it is blank.
fn trimmed_text(f: &Fragment) -> (r: Option<String>)
    ensures
        match r {
            Some(s) => trim(element_text(f@)).len() > 0 && s@ == trim(element_text(f@)),
            None => trim(element_text(f@)).len() == 0,
        },
{
    let all = join_strings(&f.texts, "");
    proof {
        reveal_strlit("");
        assert(""@ =~= Seq::<char>::empty());
    }
    let t = trim_str(all.as_str());
    if t.unicode_len() == 0 {
        None
    } else {
        Some(t)
    }
}

/// The trimmed text of the first element of the document matching `tag`,
/// unless the selector does not parse, nothing matches or the text is blank.
pub fn select_text(document: &str, tag: &str) -> (r: Option<String>)
    ensures
        match r {
            Some(s) => first_text(document_matches(document@, tag@)) == Some(s@),
            None => first_text(document_matches(document@, tag@)) is None,
        },
{
    match select_in_document(document, tag) {
        Some(found) => {
            if found.len() == 0 {
                None
            } else {
                trimmed_text(&found[0])
            }
        },
        None => None,
    }
}

/// The trimmed text of the first element inside `element` matching `tag`,
/// unless the selector does not parse, nothing matches or the text is blank.
pub fn select_text_in(element: &Fragment, tag: &str) -> (r: Option<String>)
    ensures
        match r {
            Some(s) => first_text(fragment_matches(element.html@, tag@)) == Some(s@),
            None => first_text(fragment_matches(element.html@, tag@)) is None,
        },
{
    match select_in_fragment(element.html.as_str(), tag) {
        Some(found) => {
            if found.len() == 0 {
                None
            } else {
                trimmed_text(&found[0])
            }
        },
        None => None,
    }
}

} // verus!
