//! Learning which CSS selector picks the items of an unknown page.
use vstd::prelude::*;
use crate::html::{document_matches, element_text, fragment_matches, fragments_view, join_strings, select_in_document, select_in_fragment, Fragment, FragmentView};
use crate::links::{host_of, url_host};
use crate::models::UrlProfile;
use crate::text::{bytes_of, clone_opt, opt_view, string_of, trim, trim_str};

verus! {

/// Selectors learned for a domain and how confident the guess is (0..=100).
pub struct LearnedProfile {
    pub domain: String,
    pub item_selector: Option<String>,
    pub title_selector: Option<String>,
    pub link_selector: Option<String>,
    pub description_selector: Option<String>,
    pub confidence: i32,
}


/// The selectors tried as item selectors, in order.
pub open spec fn candidates() -> Seq<Seq<char>> {
    seq![
        "article"@, ".post"@, ".item"@, ".entry"@, ".news-item"@, ".list-item"@, ".card"@, "li.article"@,
        "div[class*=\"item\"]"@, "div[class*=\"post\"]"@, "div[class*=\"news\"]"@, "div[class*=\"card\"]"@,
    ]
}

/// The selector of item titles stored with a learned profile.
pub const TITLE_SELECTOR: &'static str = "h1,h2,h3,h4,.title,[class*=\"title\"]";

/// The selector of item links stored with a learned profile.
pub const LINK_SELECTOR: &'static str = "a";

/// The selector of item descriptions stored with a learned profile.
pub const DESCRIPTION_SELECTOR: &'static str = "p,.summary,.excerpt,[class*=\"desc\"]";

/// A stored profile is used again, without looking at the page, from this
/// confidence on.
pub const REUSE_CONFIDENCE: i32 = 70;

/// The profile kept for a domain, when it is confident enough to be used
/// again.
pub fn reuse_profile(existing: &UrlProfile) -> (r: Option<LearnedProfile>)
    ensures
        existing.confidence >= REUSE_CONFIDENCE ==> (r matches Some(p) && {
            &&& p.domain@ == existing.domain@
            &&& opt_view(p.item_selector) == opt_view(existing.item_selector)
            &&& opt_view(p.title_selector) == opt_view(existing.title_selector)
            &&& opt_view(p.link_selector) == opt_view(existing.link_selector)
            &&& opt_view(p.description_selector) == opt_view(existing.description_selector)
            &&& p.confidence == existing.confidence
        }),
        existing.confidence < REUSE_CONFIDENCE ==> r is None,
{
    if existing.confidence >= REUSE_CONFIDENCE {
        Some(LearnedProfile {
            domain: existing.domain.clone(),
            item_selector: clone_opt(&existing.item_selector),
            title_selector: clone_opt(&existing.title_selector),
            link_selector: clone_opt(&existing.link_selector),
            description_selector: clone_opt(&existing.description_selector),
            confidence: existing.confidence,
        })
    } else {
        None
    }
}

/// The domain a page's profile is kept under: the host of its address, or
/// the address itself when it has no host; `None` when the address is not
/// an absolute URL.
pub open spec fn domain_spec(url: Seq<char>) -> Option<Seq<char>> {
    match url_host(url) {
        None => None,
        Some(None) => Some(url),
        Some(Some(h)) => Some(h),
    }
}

/// Finds the domain of a page (see `domain_spec`).
pub fn profile_domain(url: &str) -> (r: Option<String>)
    ensures
        opt_view(r) == domain_spec(url@),
{
    match host_of(url) {
        None => None,
        Some(None) => Some(string_of(url)),
        Some(Some(h)) => Some(h),
    }
}

/// What the elements matched by a candidate selector show: how many there
/// are, the bytes of their trimmed texts, their links, and how many hold
/// a title.
pub struct CandidateStats {
    pub count: usize,
    pub text_bytes: usize,
    pub links: usize,
    pub titled: usize,
}

/// The number of links inside an element (`None` when the selector does
/// not parse).
pub open spec fn links_in(f: FragmentView) -> int {
    match fragment_matches(f.0, "a"@) {
        Some(ls) => ls.len() as int,
        None => 0,
    }
}

/// Whether an element holds a title.
pub open spec fn has_title(f: FragmentView) -> bool {
    match fragment_matches(f.0, TITLE_SELECTOR@) {
        Some(ts) => ts.len() > 0,
        None => false,
    }
}

/// The totals over the first `n` elements: text bytes, links, titled.
pub open spec fn totals(es: Seq<FragmentView>, n: int) -> (int, int, int)
    decreases n,
{
    if n <= 0 {
        (0, 0, 0)
    } else {
        let (t, l, h) = totals(es, n - 1);
        let e = es[n - 1];
        (t + bytes_of(trim(element_text(e))), l + links_in(e), h + (if has_title(e) { 1int } else { 0 }))
    }
}

/// The statistics of a candidate selector in a page: `None` when the
/// selector does not parse.
pub open spec fn stats_spec(html: Seq<char>, sel: Seq<char>) -> Option<(int, int, int, int)> {
    match document_matches(html, sel) {
        Some(es) => {
            let (t, l, h) = totals(es, es.len() as int);
            Some((es.len() as int, t, l, h))
        },
        None => None,
    }
}

/// The totals never decrease along the elements.
pub proof fn lemma_totals_monotone(es: Seq<FragmentView>, i: int, n: int)
    requires
        0 <= i <= n,
    ensures
        totals(es, i).0 <= totals(es, n).0,
        totals(es, i).1 <= totals(es, n).1,
        totals(es, i).2 <= totals(es, n).2,
        0 <= totals(es, i).0 && 0 <= totals(es, i).1 && 0 <= totals(es, i).2,
    decreases n - i,
{
    lemma_totals_nonneg(es, i);
    if i < n {
        lemma_totals_monotone(es, i + 1, n);
    }
}

proof fn lemma_totals_nonneg(es: Seq<FragmentView>, n: int)
    ensures
        0 <= totals(es, n).0 && 0 <= totals(es, n).1 && 0 <= totals(es, n).2,
    decreases n,
{
    if n > 0 {
        lemma_totals_nonneg(es, n - 1);
    }
}

/// The totals of a page fit in `usize`.
pub open spec fn fits(st: (int, int, int, int)) -> bool {
    st.1 <= usize::MAX && st.2 <= usize::MAX && st.3 <= usize::MAX
}

/// Counts what a candidate selector matches in a page. `None` when the
/// selector does not parse, or when a total does not fit in a `usize`.
pub fn candidate_stats(html: &str, sel: &str) -> (r: Option<CandidateStats>)
    ensures
        r matches Some(s) ==> stats_spec(html@, sel@) == Some(
            (s.count as int, s.text_bytes as int, s.links as int, s.titled as int),
        ),
        r is None ==> (stats_spec(html@, sel@) matches None || (stats_spec(html@, sel@) matches Some(st) && !fits(st))),
{
    let es = match select_in_document(html, sel) {
        Some(v) => v,
        None => return None,
    };
    let ghost ev = fragments_view(es@);
    let mut text_bytes: usize = 0;
    let mut links: usize = 0;
    let mut titled: usize = 0;
    let mut i: usize = 0;
    while i < es.len()
        invariant
            i <= es.len(),
            ev == fragments_view(es@),
            document_matches(html@, sel@) == Some(ev),
            totals(ev, i as int) == (text_bytes as int, links as int, titled as int),
        decreases es.len() - i,
    {
        let e = &es[i];
        proof {
            assert(ev[i as int] == e@);
        }
        let all = join_strings(&e.texts, "");
        proof {
            reveal_strlit("");
            assert(""@ =~= Seq::<char>::empty());
        }
        let t = trim_str(all.as_str());
        let nb = match crate::text::utf8_len(t.as_str()) {
            Some(b) => b,
            None => {
                proof {
                    lemma_totals_monotone(ev, i + 1, ev.len() as int);
                    lemma_totals_nonneg(ev, i as int);
                    assert(ev[i as int] == e@);
                    assert(totals(ev, i + 1).0 == totals(ev, i as int).0 + bytes_of(trim(element_text(ev[i as int]))));
                    assert(document_matches(html@, sel@) == Some(ev));
                }
                return None;
            },
        };
        let nl = match select_in_fragment(e.html.as_str(), "a") {
            Some(ls) => ls.len(),
            None => 0,
        };
        let ht: usize = match select_in_fragment(e.html.as_str(), TITLE_SELECTOR) {
            Some(ts) => if ts.len() > 0 { 1 } else { 0 },
            None => 0,
        };
        proof {
            assert(nb == bytes_of(trim(element_text(e@))));
            assert(nl == links_in(e@));
            assert(ht == (if has_title(e@) { 1int } else { 0 }));
            lemma_totals_monotone(ev, i + 1, ev.len() as int);
            let (t0, l0, h0) = totals(ev, i as int);
            assert(totals(ev, i + 1) == (t0 + bytes_of(trim(element_text(ev[i as int]))), l0 + links_in(ev[i as int]), h0 + (if has_title(ev[i as int]) { 1int } else { 0 })));
            assert(document_matches(html@, sel@) == Some(ev));
        }
        let tb = match text_bytes.checked_add(nb) {
            Some(v) => v,
            None => return None,
        };
        let lk = match links.checked_add(nl) {
            Some(v) => v,
            None => return None,
        };
        let tt = match titled.checked_add(ht) {
            Some(v) => v,
            None => return None,
        };
        proof {
            assert(nb == bytes_of(trim(element_text(e@))));
            assert(nl == links_in(e@));
            assert(ht == (if has_title(e@) { 1int } else { 0 }));
            let (t0, l0, h0) = totals(ev, i as int);
            assert(totals(ev, i + 1) == (t0 + bytes_of(trim(element_text(ev[i as int]))), l0 + links_in(ev[i as int]), h0 + (if has_title(ev[i as int]) { 1int } else { 0 })));
        }
        text_bytes = tb;
        links = lk;
        titled = tt;
        i = i + 1;
    }
    Some(CandidateStats { count: es.len(), text_bytes, links, titled })
}

/// The score of a candidate selector matching `n` elements, with the given
/// totals: up to 40 for the count, up to 20 for the average text length,
/// 5 per average link and up to 50 for the share of elements with a title
/// (all averages rounded down).
pub open spec fn score_spec(n: int, text_bytes: int, links: int, titled: int) -> int {
    let avg_text = text_bytes / n;
    let avg_links = links / n;
    let title_ratio = titled * 100 / n;
    (if n < 20 { n } else { 20 }) * 2 + (if avg_text < 200 { avg_text } else { 200 }) / 10 + avg_links * 5
        + title_ratio / 2
}

/// Whether a candidate's numbers are in the range where its score is
/// computed: at least two elements, no more titled elements than elements,
/// and counts for which the arithmetic stays within `i32`.
pub open spec fn scorable(s: CandidateStats) -> bool {
    &&& s.count >= 2
    &&& s.titled <= s.count
    &&& s.count <= i32::MAX
    &&& (s.text_bytes as int) / (s.count as int) <= i32::MAX
    &&& (s.links as int) / (s.count as int) <= 100_000_000
    &&& s.titled <= 10_000_000
}

/// The score of a candidate (see `score_spec`); none when it matches fewer
/// than two elements or its numbers are out of range.
pub fn candidate_score(s: &CandidateStats) -> (r: Option<i32>)
    ensures
        scorable(*s) ==> r == Some(score_spec(s.count as int, s.text_bytes as int, s.links as int, s.titled as int) as i32)
            && score_spec(s.count as int, s.text_bytes as int, s.links as int, s.titled as int) <= i32::MAX,
        !scorable(*s) ==> r is None,
{
    if s.count < 2 || s.titled > s.count || s.count > 2147483647 || s.titled > 10_000_000 {
        return None;
    }
    let n = s.count;
    let avg_text_u = s.text_bytes / n;
    let avg_links_u = s.links / n;
    if avg_text_u > 2147483647 || avg_links_u > 100_000_000 {
        return None;
    }
    let ratio_u = s.titled * 100 / n;
    proof {
        assert(s.titled * 100 / (n as int) <= 100) by (nonlinear_arith)
            requires s.titled <= n, n >= 2;
    }
    let avg_text = avg_text_u as i32;
    let avg_links = avg_links_u as i32;
    let title_ratio = ratio_u as i32;
    let c: i32 = if n < 20 { n as i32 } else { 20 };
    let t: i32 = if avg_text < 200 { avg_text } else { 200 };
    let score = c * 2 + t / 10 + avg_links * 5 + title_ratio / 2;
    Some(score)
}

/// The confidence of a score: the score, at most 100.
pub open spec fn confidence_of(score: int) -> int {
    if score < 100 { score } else { 100 }
}

/// The candidate with the highest positive score, the earliest on ties:
/// its position and score, among the first `n` candidates.
pub open spec fn best_of(scores: Seq<Option<i32>>, n: int) -> Option<(int, int)>
    decreases n,
{
    if n <= 0 {
        None
    } else {
        let prev = best_of(scores, n - 1);
        let best_score = match prev {
            Some((_, s)) => s,
            None => 0,
        };
        match scores[n - 1] {
            Some(s) => if s > best_score { Some((n - 1, s as int)) } else { prev },
            None => prev,
        }
    }
}

/// The best candidate is one of the first `n`, with a positive score.
pub proof fn lemma_best_of_in_range(scores: Seq<Option<i32>>, n: int)
    requires
        0 <= n <= scores.len(),
    ensures
        best_of(scores, n) matches Some((i, s)) ==> 0 <= i < n && s > 0 && scores[i] == Some(s as i32),
    decreases n,
{
    if n > 0 {
        lemma_best_of_in_range(scores, n - 1);
    }
}

/// Picks the best candidate (see `best_of`).
pub fn best_candidate(scores: &Vec<Option<i32>>) -> (r: Option<(usize, i32)>)
    ensures
        match r {
            Some((i, s)) => best_of(scores@, scores.len() as int) == Some((i as int, s as int)),
            None => best_of(scores@, scores.len() as int) is None,
        },
{
    let mut best: Option<(usize, i32)> = None;
    let mut best_score: i32 = 0;
    let mut i: usize = 0;
    while i < scores.len()
        invariant
            i <= scores.len(),
            match best {
                Some((b, s)) => best_of(scores@, i as int) == Some((b as int, s as int)) && best_score == s,
                None => best_of(scores@, i as int) is None && best_score == 0,
            },
        decreases scores.len() - i,
    {
        match scores[i] {
            Some(s) => if s > best_score {
                best = Some((i, s));
                best_score = s;
            },
            None => {},
        }
        i = i + 1;
    }
    best
}

/// The profile learned from the best candidate, or an empty profile with no
/// confidence when no candidate scores.
pub fn profile_from(domain: String, best: Option<(usize, i32)>, selector: Option<String>) -> (r: LearnedProfile)
    requires
        best is Some <==> selector is Some,
    ensures
        r.domain@ == domain@,
        match best {
            Some((_, score)) => {
                &&& opt_view(r.item_selector) == opt_view(selector)
                &&& opt_view(r.title_selector) == Some(TITLE_SELECTOR@)
                &&& opt_view(r.link_selector) == Some(LINK_SELECTOR@)
                &&& opt_view(r.description_selector) == Some(DESCRIPTION_SELECTOR@)
                &&& r.confidence == confidence_of(score as int)
            },
            None => {
                &&& r.item_selector is None
                &&& r.title_selector is None
                &&& r.link_selector is None
                &&& r.description_selector is None
                &&& r.confidence == 0
            },
        },
{
    match best {
        Some((_, score)) => LearnedProfile {
            domain,
            item_selector: selector,
            title_selector: Some(string_of(TITLE_SELECTOR)),
            link_selector: Some(string_of(LINK_SELECTOR)),
            description_selector: Some(string_of(DESCRIPTION_SELECTOR)),
            confidence: if score < 100 { score } else { 100 },
        },
        None => LearnedProfile {
            domain,
            item_selector: None,
            title_selector: None,
            link_selector: None,
            description_selector: None,
            confidence: 0,
        },
    }
}

/// The candidate selectors, in order.
pub fn candidate_selectors() -> (r: Vec<&'static str>)
    ensures
        r@.map_values(|s: &str| s@) == candidates(),
{
    let r = vec![
        "article", ".post", ".item", ".entry", ".news-item", ".list-item", ".card", "li.article",
        "div[class*=\"item\"]", "div[class*=\"post\"]", "div[class*=\"news\"]", "div[class*=\"card\"]",
    ];
    proof {
        assert(r@.map_values(|s: &str| s@) =~= candidates());
    }
    r
}

/// The score of every candidate selector in a page, in order (none for a
/// candidate that does not parse, matches fewer than two elements or is out
/// of range).
pub open spec fn page_scores(html: Seq<char>, n: int) -> Seq<Option<i32>>
    decreases n,
{
    if n <= 0 {
        Seq::<Option<i32>>::empty()
    } else {
        page_scores(html, n - 1).push(
            match stats_spec(html, candidates()[n - 1]) {
                Some((c, t, l, h)) => if fits((c, t, l, h)) && c >= 2 && h <= c && c <= i32::MAX && t / c <= i32::MAX && l / c <= 100_000_000
                    && h <= 10_000_000 {
                    Some(score_spec(c, t, l, h) as i32)
                } else {
                    None
                },
                None => None,
            },
        )
    }
}

/// Learns the item selector of the page `html` of `domain`: each candidate
/// is scored and the best one, if any scores, is the item selector.
pub fn learn_from_page(domain: String, html: &str) -> (r: LearnedProfile)
    ensures
        r.domain@ == domain@,
        match best_of(page_scores(html@, 12), 12) {
            Some((i, score)) => {
                &&& opt_view(r.item_selector) == Some(candidates()[i])
                &&& opt_view(r.title_selector) == Some(TITLE_SELECTOR@)
                &&& opt_view(r.link_selector) == Some(LINK_SELECTOR@)
                &&& opt_view(r.description_selector) == Some(DESCRIPTION_SELECTOR@)
                &&& r.confidence == confidence_of(score)
            },
            None => r.item_selector is None && r.confidence == 0,
        },
{
    let cands = candidate_selectors();
    let mut scores: Vec<Option<i32>> = Vec::new();
    let mut i: usize = 0;
    while i < cands.len()
        invariant
            i <= cands.len(),
            cands@.map_values(|s: &str| s@) == candidates(),
            scores@ == page_scores(html@, i as int),
            scores.len() == i,
        decreases cands.len() - i,
    {
        proof {
            assert(cands@.map_values(|s: &str| s@)[i as int] == cands@[i as int]@);
        }
        let sc = match candidate_stats(html, cands[i]) {
            Some(st) => candidate_score(&st),
            None => None,
        };
        scores.push(sc);
        proof {
            assert(scores@ =~= page_scores(html@, i + 1));
        }
        i = i + 1;
    }
    proof {
        assert(candidates().len() == 12);
        assert(cands@.map_values(|s: &str| s@).len() == cands@.len());
        assert(cands.len() == 12);
    }
    let best = best_candidate(&scores);
    proof {
        lemma_best_of_in_range(scores@, 12);
    }
    let selector = match best {
        Some((k, _)) => if k < cands.len() {
            proof {
                assert(cands@.map_values(|s: &str| s@)[k as int] == cands@[k as int]@);
            }
            Some(string_of(cands[k]))
        } else {
            None
        },
        None => None,
    };
    let best = match (best, &selector) {
        (Some(b), Some(_)) => Some(b),
        _ => None,
    };
    profile_from(domain, best, selector)
}

} // verus!
