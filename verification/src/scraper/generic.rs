//! Any web page: the elements picked by the search's CSS selector.
use vstd::prelude::*;
use crate::html::{document_matches, fragments_view, join_strings, select_in_document, Fragment, FragmentView};
use crate::links::{join_url, joined_url};
use crate::scraper::{contains_any, items_view, ItemView, ScrapeError, ScrapedItem};
use crate::text::{
    append_str, contains, contains_chars, from_chars, join, lowercase, opt_str_view, split, split_chars, starts_with,
    str_starts_with, string_of, strs, to_chars, to_lower, trim, trim_chars, trim_str,
};

verus! {

/// The base used when the page address is not an absolute URL.
pub const FALLBACK_BASE: &'static str = "https://example.com";

/// The address a link points to: kept when it starts with `http`,
/// otherwise joined onto the page address (onto `FALLBACK_BASE` when the
/// page address is not an absolute URL); the link itself when it cannot be
/// joined.
pub open spec fn resolved(base: Seq<char>, href: Seq<char>) -> Seq<char> {
    if starts_with(href, "http"@) {
        href
    } else {
        match joined_url(base, href) {
            Some(Some(u)) => u,
            Some(None) => href,
            None => match joined_url(FALLBACK_BASE@, href) {
                Some(Some(u)) => u,
                _ => href,
            },
        }
    }
}

/// Resolves a link found in the page at `base`.
pub fn resolve_url(base: &str, href: &str) -> (r: String)
    ensures
        r@ == resolved(base@, href@),
{
    if str_starts_with(href, "http") {
        return string_of(href);
    }
    match join_url(base, href) {
        Some(Some(u)) => u,
        Some(None) => string_of(href),
        None => match join_url(FALLBACK_BASE, href) {
            Some(Some(u)) => u,
            _ => string_of(href),
        },
    }
}

/// The keyword terms of a generic search: every comma-separated piece,
/// trimmed and lower-cased, empty pieces included.
pub open spec fn all_terms(pieces: Seq<Seq<char>>) -> Seq<Seq<char>> {
    pieces.map_values(|p: Seq<char>| lowercase(trim(p)))
}

/// The title of an element: its text nodes joined by spaces, trimmed.
pub open spec fn element_title(f: FragmentView) -> Seq<char> {
    trim(join(f.1, " "@))
}

/// The item of an element of the page at `base`.
pub open spec fn element_item(f: FragmentView, base: Seq<char>) -> ItemView {
    ItemView {
        title: if element_title(f).len() == 0 { None } else { Some(element_title(f)) },
        description: None,
        url: match f.2 {
            Some(h) => Some(resolved(base, h)),
            None => None,
        },
        external_id: None,
        raw_data: None,
        published_at: None,
    }
}

/// The items of the elements `fs`, in order; with keywords, only those in
/// whose lower-cased title (followed by a space) some term occurs.
pub open spec fn element_items(fs: Seq<FragmentView>, base: Seq<char>, keywords: Option<Seq<char>>) -> Seq<ItemView>
    decreases fs.len(),
{
    if fs.len() == 0 {
        Seq::<ItemView>::empty()
    } else {
        let r = element_items(fs.drop_last(), base, keywords);
        let it = element_item(fs.last(), base);
        let kept = match keywords {
            Some(k) => contains_any(
                lowercase(it.title.unwrap_or(Seq::<char>::empty()) + " "@),
                all_terms(split(k, ',')),
            ),
            None => true,
        };
        if kept { r.push(it) } else { r }
    }
}

/// The selector of a search, `a` (every link) when it has none.
pub open spec fn selector_of(css_selector: Option<Seq<char>>) -> Seq<char> {
    css_selector.unwrap_or("a"@)
}

/// Splits keyword text into `all_terms`.
fn terms_of_text(k: &str) -> (r: Vec<String>)
    ensures
        strs(r@) == all_terms(split(k@, ',')),
{
    let v = to_chars(k);
    let pieces = split_chars(&v, ',');
    let ghost ps = split(k@, ',');
    let mut out: Vec<String> = Vec::new();
    let mut i: usize = 0;
    while i < pieces.len()
        invariant
            i <= pieces.len(),
            v@ == k@,
            pieces.len() == ps.len(),
            forall|j: int| 0 <= j < pieces.len() ==> #[trigger] pieces@[j]@ == ps[j],
            strs(out@) == all_terms(ps.take(i as int)),
        decreases pieces.len() - i,
    {
        let t = trim_chars(&pieces[i]);
        let ts = from_chars(&t);
        let w = to_lower(ts.as_str());
        let ghost before = out@;
        out.push(w);
        proof {
            assert(ps.take(i + 1) =~= ps.take(i as int).push(ps[i as int]));
            assert(all_terms(ps.take(i + 1)) =~= all_terms(ps.take(i as int)).push(lowercase(trim(ps[i as int]))));
            assert(strs(out@) =~= strs(before).push(w@));
            assert(strs(out@) =~= all_terms(ps.take(i + 1)));
        }
        i = i + 1;
    }
    proof {
        assert(ps.take(pieces.len() as int) =~= ps);
    }
    out
}

fn item_of_element(f: &Fragment, base: &str) -> (r: ScrapedItem)
    ensures
        r@ == element_item(f@, base@),
{
    let joined = join_strings(&f.texts, " ");
    let title = trim_str(joined.as_str());
    let url = match &f.href {
        Some(h) => Some(resolve_url(base, h.as_str())),
        None => None,
    };
    ScrapedItem {
        title: if title.unicode_len() == 0 { None } else { Some(title) },
        description: None,
        url,
        external_id: None,
        raw_data: None,
        published_at: None,
    }
}

/// Reads a page fetched from `page_url`: one item per element matched by
/// the search's selector, kept (when the search has keywords) if some
/// keyword term occurs in its lower-cased title. A selector that does not
/// parse is an error.
pub fn html_items(page_url: &str, body: &str, css_selector: Option<&str>, keywords: Option<&str>) -> (r: Result<Vec<ScrapedItem>, ScrapeError>)
    ensures
        match document_matches(body@, selector_of(opt_str_view(css_selector))) {
            Some(fs) => r matches Ok(v) && items_view(v@) == element_items(fs, page_url@, opt_str_view(keywords)),
            None => r is Err,
        },
{
    let selector: &str = match css_selector {
        Some(s) => s,
        None => "a",
    };
    let found = match select_in_document(body, selector) {
        Some(f) => f,
        None => {
            let mut message = string_of("CSS selector invalid: ");
            append_str(&mut message, selector);
            return Err(ScrapeError { message });
        },
    };
    let terms: Vec<String> = match keywords {
        Some(k) => terms_of_text(k),
        None => Vec::new(),
    };
    let ghost fv = fragments_view(found@);
    let ghost kw = opt_str_view(keywords);
    let mut out: Vec<ScrapedItem> = Vec::new();
    let mut i: usize = 0;
    proof {
        assert(fv.take(0) =~= Seq::<FragmentView>::empty());
        assert(items_view(out@) =~= Seq::<ItemView>::empty());
    }
    while i < found.len()
        invariant
            i <= found.len(),
            fv == fragments_view(found@),
            kw == opt_str_view(keywords),
            kw matches Some(k) ==> strs(terms@) == all_terms(split(k, ',')),
            items_view(out@) == element_items(fv.take(i as int), page_url@, kw),
        decreases found.len() - i,
    {
        proof {
            assert(fv.take(i + 1).drop_last() =~= fv.take(i as int));
            assert(fv.take(i + 1).last() == found@[i as int]@);
        }
        let it = item_of_element(&found[i], page_url);
        let kept = match keywords {
            Some(_) => {
                let mut text = match &it.title {
                    Some(t) => t.clone(),
                    None => String::new(),
                };
                append_str(&mut text, " ");
                let lower = to_lower(text.as_str());
                crate::scraper::any_keyword_contained(lower.as_str(), &terms)
            },
            None => true,
        };
        if kept {
            let ghost before = out@;
            out.push(it);
            proof {
                assert(items_view(out@) =~= items_view(before).push(out@.last()@));
            }
        }
        i = i + 1;
    }
    proof {
        assert(fv.take(found.len() as int) =~= fv);
    }
    Ok(out)
}


/// Without keywords a generic page gives one item per matched element,
/// in order.
pub proof fn lemma_generic_keeps_all(fs: Seq<FragmentView>, base: Seq<char>)
    ensures
        element_items(fs, base, None) == fs.map_values(|f: FragmentView| element_item(f, base)),
    decreases fs.len(),
{
    if fs.len() > 0 {
        lemma_generic_keeps_all(fs.drop_last(), base);
        assert(fs.map_values(|f: FragmentView| element_item(f, base)) =~= fs.drop_last().map_values(
            |f: FragmentView| element_item(f, base),
        ).push(element_item(fs.last(), base)));
    } else {
        assert(fs.map_values(|f: FragmentView| element_item(f, base)) =~= Seq::<ItemView>::empty());
    }
}

/// With keyword text `k`, a matched element is kept exactly when one of the
/// comma-separated pieces of `k`, trimmed and lower-cased, occurs in the
/// element's lower-cased title (its text joined by spaces and trimmed,
/// followed by a space), so the case of the title and of the keywords does
/// not matter: it adds one item after those of the elements before it, or
/// none.
pub proof fn lemma_generic_keyword_ignores_case(fs: Seq<FragmentView>, base: Seq<char>, k: Seq<char>, f: FragmentView)
    ensures
        element_items(fs.push(f), base, Some(k)).len() == element_items(fs, base, Some(k)).len() + (if exists|j: int|
            0 <= j < split(k, ',').len() && contains(
                lowercase(trim(join(f.1, " "@)) + " "@),
                lowercase(trim(#[trigger] split(k, ',')[j])),
            ) {
            1int
        } else {
            0int
        }),
{
    assert(fs.push(f).drop_last() =~= fs);
    let it = element_item(f, base);
    let text = lowercase(trim(join(f.1, " "@)) + " "@);
    assert(it.title.unwrap_or(Seq::<char>::empty()) == element_title(f));
    let ps = split(k, ',');
    let ts = all_terms(ps);
    if exists|j: int| 0 <= j < ps.len() && contains(text, lowercase(trim(#[trigger] ps[j]))) {
        let j = choose|j: int| 0 <= j < ps.len() && contains(text, lowercase(trim(#[trigger] ps[j])));
        assert(ts[j] == lowercase(trim(ps[j])));
        assert(contains_any(text, ts));
    } else {
        if contains_any(text, ts) {
            let j = choose|j: int| 0 <= j < ts.len() && contains(text, #[trigger] ts[j]);
            assert(ts[j] == lowercase(trim(ps[j])));
            assert(false);
        }
    }
}

} // verus!
