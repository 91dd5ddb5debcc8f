//! Turning bulletins, feeds and pages into scraped items.
use vstd::prelude::*;
use crate::dates::SimpleDateTime;
use crate::text::{
    contains, contains_chars, from_chars, lowercase, opt_view, split, split_chars, str_eq, to_chars, to_lower,
    trim, trim_chars,
};
use crate::scraper::boe::{keyword_hits, keyword_matches};

pub mod boe;
pub mod feed;
pub mod bocyl;
pub mod caib;
pub mod borm;
pub mod generic;
pub mod contratacion_estado;

verus! {

/// One announcement found by a scraper.
#[derive(Debug, Clone)]
pub struct ScrapedItem {
    pub title: Option<String>,
    pub description: Option<String>,
    pub url: Option<String>,
    pub external_id: Option<String>,
    pub raw_data: Option<String>,
    pub published_at: Option<SimpleDateTime>,
}

/// What a scraped item holds.
pub struct ItemView {
    pub title: Option<Seq<char>>,
    pub description: Option<Seq<char>>,
    pub url: Option<Seq<char>>,
    pub external_id: Option<Seq<char>>,
    pub raw_data: Option<Seq<char>>,
    pub published_at: Option<SimpleDateTime>,
}

impl View for ScrapedItem {
    type V = ItemView;

    open spec fn view(&self) -> ItemView {
        ItemView {
            title: opt_view(self.title),
            description: opt_view(self.description),
            url: opt_view(self.url),
            external_id: opt_view(self.external_id),
            raw_data: opt_view(self.raw_data),
            published_at: self.published_at,
        }
    }
}

pub open spec fn items_view(v: Seq<ScrapedItem>) -> Seq<ItemView> {
    v.map_values(|i: ScrapedItem| i@)
}

/// Why a scrape failed.
pub struct ScrapeError {
    pub message: String,
}

/// Some keyword matches `text` in the sense of `keyword_hits`.
pub open spec fn hits_any(text: Seq<char>, kws: Seq<Seq<char>>) -> bool {
    exists|j: int| 0 <= j < kws.len() && keyword_hits(text, #[trigger] kws[j])
}

/// Some keyword occurs in `text`.
pub open spec fn contains_any(text: Seq<char>, kws: Seq<Seq<char>>) -> bool {
    exists|j: int| 0 <= j < kws.len() && contains(text, #[trigger] kws[j])
}

/// Decides `hits_any`.
pub fn any_keyword_hits(text: &str, kws: &Vec<String>) -> (r: bool)
    ensures
        r == hits_any(text@, crate::text::strs(kws@)),
{
    let mut i: usize = 0;
    while i < kws.len()
        invariant
            i <= kws.len(),
            forall|j: int| 0 <= j < i ==> !keyword_hits(text@, #[trigger] crate::text::strs(kws@)[j]),
        decreases kws.len() - i,
    {
        if keyword_matches(text, kws[i].as_str()) {
            assert(keyword_hits(text@, crate::text::strs(kws@)[i as int]));
            return true;
        }
        i = i + 1;
    }
    false
}

/// Decides `contains_any`.
pub fn any_keyword_contained(text: &str, kws: &Vec<String>) -> (r: bool)
    ensures
        r == contains_any(text@, crate::text::strs(kws@)),
{
    let t = to_chars(text);
    let mut i: usize = 0;
    while i < kws.len()
        invariant
            i <= kws.len(),
            t@ == text@,
            forall|j: int| 0 <= j < i ==> !contains(text@, #[trigger] crate::text::strs(kws@)[j]),
        decreases kws.len() - i,
    {
        let k = to_chars(kws[i].as_str());
        if contains_chars(&t, &k) {
            assert(contains(text@, crate::text::strs(kws@)[i as int]));
            return true;
        }
        i = i + 1;
    }
    false
}

/// Which scraper handles a search.
#[derive(Debug, Clone, Copy, PartialEq, Eq, Structural)]
pub enum ScraperKind {
    ContratacionEstado,
    GenericHtml,
    BoeRss,
    CaibLicitaciones,
}

pub open spec fn kind_of(search_type: Seq<char>) -> ScraperKind {
    if search_type == "contratacion_estado"@ {
        ScraperKind::ContratacionEstado
    } else if search_type == "boe_rss"@ {
        ScraperKind::BoeRss
    } else if search_type == "caib_licitaciones"@ {
        ScraperKind::CaibLicitaciones
    } else {
        ScraperKind::GenericHtml
    }
}

/// The scraper for a search type; unknown types are scraped as generic HTML.
pub fn scraper_kind(search_type: &str) -> (r: ScraperKind)
    ensures
        r == kind_of(search_type@),
{
    proof {
        reveal_strlit("contratacion_estado");
        reveal_strlit("generic_html");
        reveal_strlit("boe_rss");
        reveal_strlit("caib_licitaciones");
        assert("generic_html"@.len() == 12);
        assert("boe_rss"@.len() == 7);
        assert("caib_licitaciones"@.len() == 17);
        assert("contratacion_estado"@.len() == 19);
    }
    if str_eq(search_type, "contratacion_estado") {
        ScraperKind::ContratacionEstado
    } else if str_eq(search_type, "generic_html") {
        ScraperKind::GenericHtml
    } else if str_eq(search_type, "boe_rss") {
        ScraperKind::BoeRss
    } else if str_eq(search_type, "caib_licitaciones") {
        ScraperKind::CaibLicitaciones
    } else {
        ScraperKind::GenericHtml
    }
}

/// The keywords of a comma-separated list, trimmed and lower-cased, empty
/// ones left out.
pub open spec fn keyword_terms(pieces: Seq<Seq<char>>) -> Seq<Seq<char>>
    decreases pieces.len(),
{
    if pieces.len() == 0 {
        Seq::<Seq<char>>::empty()
    } else {
        let r = keyword_terms(pieces.drop_last());
        let w = lowercase(trim(pieces.last()));
        if w.len() > 0 {
            r.push(w)
        } else {
            r
        }
    }
}

/// The keywords of an optional comma-separated list (none when absent).
pub open spec fn keywords_of(keywords: Option<Seq<char>>) -> Seq<Seq<char>> {
    keyword_terms(split(keywords.unwrap_or(Seq::<char>::empty()), ','))
}

/// Splits a search's keyword list at commas; each keyword is trimmed and
/// lower-cased, and empty ones are dropped.
pub fn keyword_list(keywords: Option<&str>) -> (r: Vec<String>)
    ensures
        r@.map_values(|s: String| s@) == keywords_of(
            match keywords {
                Some(k) => Some(k@),
                None => None,
            },
        ),
{
    let v = match keywords {
        Some(k) => to_chars(k),
        None => Vec::new(),
    };
    let ghost src = match keywords {
        Some(k) => k@,
        None => Seq::<char>::empty(),
    };
    assert(v@ == src);
    let pieces = split_chars(&v, ',');
    let ghost ps = split(src, ',');
    let mut out: Vec<String> = Vec::new();
    let mut j: usize = 0;
    proof {
        assert(ps.take(0) =~= Seq::<Seq<char>>::empty());
    }
    while j < pieces.len()
        invariant
            j <= pieces.len(),
            pieces.len() == ps.len(),
            forall|k: int| 0 <= k < pieces.len() ==> #[trigger] pieces@[k]@ == ps[k],
            out@.map_values(|s: String| s@) == keyword_terms(ps.take(j as int)),
        decreases pieces.len() - j,
    {
        proof {
            assert(ps.take(j + 1).drop_last() =~= ps.take(j as int));
            assert(ps.take(j + 1).last() == ps[j as int]);
        }
        let t = trim_chars(&pieces[j]);
        let ts = from_chars(&t);
        let w = to_lower(ts.as_str());
        let n = w.unicode_len();
        if n > 0 {
            out.push(w);
            proof {
                assert(out@.map_values(|s: String| s@) =~= keyword_terms(ps.take(j as int)).push(lowercase(trim(ps[j as int]))));
            }
        }
        j = j + 1;
    }
    proof {
        assert(ps.take(pieces.len() as int) =~= ps);
    }
    out
}

} // verus!
