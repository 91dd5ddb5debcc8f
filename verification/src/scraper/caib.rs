//! Procurement notices of the Balearic government (CAIB), read from the
//! BOIB search page, the BOIB feed or the procurement portal.
use vstd::prelude::*;
use vstd::utf8::encode_utf8;
use crate::dates::{parse_rfc2822_utc, rfc2822_utc};
use crate::html::{element_text, select_in_document, select_in_fragment, document_matches, fragment_matches, join_strings, Fragment, FragmentView};
use crate::scraper::{any_keyword_contained, contains_any, items_view, ItemView, ScrapeError, ScrapedItem};
use crate::scraper::boe::or_empty;
use crate::scraper::feed::{entries_view, feed_entries, read_feed, FeedEntry, FeedItem};
use crate::text::{
    after_last, append_str, contains, join, lowercase, opt_view, push_char, replace_all, replaced, split,
    split_chars, starts_with, str_contains, str_starts_with, string_of, strs, to_chars, to_lower, trim, trim_str,
    from_chars,
};

verus! {

/// The procurement portal of the CAIB.
pub const CAIB_PORTAL_URL: &'static str = "https://www.caib.es/sites/contractaciopublica/ca/";

/// The BOIB search page.
pub const CAIB_EBOIB_SEARCH_URL: &'static str = "https://www.caib.es/eboibfront/cercar";

/// The BOIB feed.
pub const CAIB_EBOIB_RSS_URL: &'static str = "https://www.caib.es/eboibfront/indexrss.do?lang=ca";

/// Host that relative BOIB links are resolved against.
pub const CAIB_EBOIB_BASE: &'static str = "https://www.caib.es";

/// The sources a CAIB search tries, in order.
#[derive(Debug, Clone, Copy, PartialEq, Eq, Structural)]
pub enum CaibSource {
    EboibSearch,
    EboibRss,
    Portal,
}

/// What to do after a source was tried.
#[derive(Debug, Clone, Copy, PartialEq, Eq, Structural)]
pub enum CaibStep {
    /// Its result is the result of the search.
    Done,
    /// Its result is dropped and the next source is tried.
    Try(CaibSource),
}

/// After the BOIB search and the BOIB feed, a non-empty list of items ends
/// the search and anything else (an error or no item) moves on to the next
/// source; whatever the portal gives is the result.
pub fn caib_next(source: CaibSource, found: Option<usize>) -> (r: CaibStep)
    ensures
        r == (match source {
            CaibSource::Portal => CaibStep::Done,
            CaibSource::EboibSearch => if found matches Some(n) && n > 0 { CaibStep::Done } else { CaibStep::Try(CaibSource::EboibRss) },
            CaibSource::EboibRss => if found matches Some(n) && n > 0 { CaibStep::Done } else { CaibStep::Try(CaibSource::Portal) },
        }),
{
    match source {
        CaibSource::Portal => CaibStep::Done,
        CaibSource::EboibSearch => match found {
            Some(n) => if n > 0 { CaibStep::Done } else { CaibStep::Try(CaibSource::EboibRss) },
            None => CaibStep::Try(CaibSource::EboibRss),
        },
        CaibSource::EboibRss => match found {
            Some(n) => if n > 0 { CaibStep::Done } else { CaibStep::Try(CaibSource::Portal) },
            None => CaibStep::Try(CaibSource::Portal),
        },
    }
}

/// The first element that `selector` matches inside `f`, if any.
pub open spec fn first_inside(f: FragmentView, selector: Seq<char>) -> Option<FragmentView> {
    match fragment_matches(f.0, selector) {
        Some(fs) => if fs.len() > 0 { Some(fs[0]) } else { None },
        None => None,
    }
}

/// A BOIB link made absolute: kept when it starts with `http`, otherwise
/// put after the host with `/null/` corrected to `/ca/`.
pub open spec fn boib_url(href: Seq<char>) -> Seq<char> {
    if starts_with(href, "http"@) {
        href
    } else {
        CAIB_EBOIB_BASE@ + replaced(href, "/null/"@, "/ca/"@)
    }
}

/// The title of a BOIB result: the link text when there is no bulletin
/// number, else `BOIB Núm <num> - ` followed by the link text with that
/// same prefix removed wherever it occurs.
pub open spec fn boib_title(num: Seq<char>, link_text: Seq<char>) -> Seq<char> {
    if num.len() == 0 {
        link_text
    } else {
        "BOIB Núm "@ + num + " - "@ + replaced(link_text, "BOIB Núm "@ + num + " - "@, Seq::<char>::empty())
    }
}

/// What a result of the BOIB search page gives, when it has the expected
/// shape (`div.caja` holding `div.interior` holding a link): the bulletin
/// number (empty when absent), the link text and the link.
pub open spec fn boib_row(li: FragmentView) -> Option<(Seq<char>, Seq<char>, Seq<char>)> {
    match first_inside(li, "div.caja"@) {
        Some(caja) => match first_inside(caja, "div.interior"@) {
            Some(interior) => match first_inside(interior, "a[href]"@) {
                Some(a) => Some((
                    match first_inside(interior, "span.num"@) {
                        Some(n) => trim(element_text(n)),
                        None => Seq::<char>::empty(),
                    },
                    trim(element_text(a)),
                    a.2.unwrap_or(Seq::<char>::empty()),
                )),
                None => None,
            },
            None => None,
        },
        None => None,
    }
}

/// The item of a BOIB result row.
pub open spec fn boib_item(num: Seq<char>, link_text: Seq<char>, href: Seq<char>) -> ItemView {
    ItemView {
        title: Some(boib_title(num, link_text)),
        description: Some(link_text),
        url: Some(boib_url(href)),
        external_id: Some("caib-boib-"@ + num),
        raw_data: None,
        published_at: None,
    }
}

/// A BOIB result is kept when some keyword occurs in its lower-cased title
/// and link text (or there is no keyword).
pub open spec fn boib_keeps(num: Seq<char>, link_text: Seq<char>, kws: Seq<Seq<char>>) -> bool {
    kws.len() == 0 || contains_any(lowercase(boib_title(num, link_text) + " "@ + link_text), kws)
}

/// The items of the result rows `lis`, in order.
pub open spec fn boib_selection(lis: Seq<FragmentView>, kws: Seq<Seq<char>>) -> Seq<ItemView>
    decreases lis.len(),
{
    if lis.len() == 0 {
        Seq::<ItemView>::empty()
    } else {
        let r = boib_selection(lis.drop_last(), kws);
        match boib_row(lis.last()) {
            Some((num, text, href)) => if boib_keeps(num, text, kws) {
                r.push(boib_item(num, text, href))
            } else {
                r
            },
            None => r,
        }
    }
}

/// The first element that `selector` matches inside `f`.
fn first_in(f: &Fragment, selector: &str) -> (r: Option<Fragment>)
    ensures
        match r {
            Some(g) => first_inside(f@, selector@) == Some(g@),
            None => first_inside(f@, selector@) is None,
        },
{
    match select_in_fragment(f.html.as_str(), selector) {
        Some(mut found) => {
            if found.len() > 0 {
                let g = found.swap_remove(0);
                Some(g)
            } else {
                None
            }
        },
        None => None,
    }
}

/// The trimmed text of an element.
fn text_of(f: &Fragment) -> (r: String)
    ensures
        r@ == trim(element_text(f@)),
{
    let all = join_strings(&f.texts, "");
    proof {
        reveal_strlit("");
        assert(""@ =~= Seq::<char>::empty());
    }
    trim_str(all.as_str())
}

/// Builds `boib_url`.
fn boib_url_of(href: &str) -> (r: String)
    ensures
        r@ == boib_url(href@),
{
    if str_starts_with(href, "http") {
        string_of(href)
    } else {
        proof {
            reveal_strlit("/null/");
        }
        let fixed = replace_all(href, "/null/", "/ca/");
        let mut url = string_of(CAIB_EBOIB_BASE);
        append_str(&mut url, fixed.as_str());
        url
    }
}

/// Builds `boib_title`.
fn boib_title_of(num: &str, link_text: &str) -> (r: String)
    ensures
        r@ == boib_title(num@, link_text@),
{
    if num.unicode_len() == 0 {
        string_of(link_text)
    } else {
        let mut prefix = string_of("BOIB Núm ");
        append_str(&mut prefix, num);
        append_str(&mut prefix, " - ");
        proof {
            reveal_strlit("BOIB Núm ");
            assert(prefix@.len() > 0);
            reveal_strlit("");
            assert(""@ =~= Seq::<char>::empty());
        }
        let rest = replace_all(link_text, prefix.as_str(), "");
        let mut title = string_of(prefix.as_str());
        append_str(&mut title, rest.as_str());
        proof {
            assert(title@ =~= boib_title(num@, link_text@));
        }
        title
    }
}

/// The number, link text and link of a result row, when it has the
/// expected shape.
fn boib_row_of(li: &Fragment) -> (r: Option<(String, String, String)>)
    ensures
        match r {
            Some((n, t, h)) => boib_row(li@) == Some((n@, t@, h@)),
            None => boib_row(li@) is None,
        },
{
    let caja = match first_in(li, "div.caja") {
        Some(c) => c,
        None => return None,
    };
    let interior = match first_in(&caja, "div.interior") {
        Some(i) => i,
        None => return None,
    };
    let a = match first_in(&interior, "a[href]") {
        Some(a) => a,
        None => return None,
    };
    let num = match first_in(&interior, "span.num") {
        Some(n) => text_of(&n),
        None => String::new(),
    };
    let text = text_of(&a);
    let href = match &a.href {
        Some(h) => h.clone(),
        None => String::new(),
    };
    Some((num, text, href))
}

/// Reads the result page of the BOIB search: each `li` with the expected
/// shape gives an item, unless the search has keywords and none of them
/// occurs in its lower-cased title and link text. `keywords` are expected
/// trimmed and lower-cased.
pub fn parse_eboib_search_html(body: &str, keywords: &Vec<String>) -> (r: Result<Vec<ScrapedItem>, ScrapeError>)
    ensures
        match document_matches(body@, "li"@) {
            Some(lis) => r matches Ok(v) && items_view(v@) == boib_selection(lis, strs(keywords@)),
            None => r is Err,
        },
{
    let lis = match select_in_document(body, "li") {
        Some(l) => l,
        None => return Err(ScrapeError { message: string_of("selector de resultados no válido") }),
    };
    let ghost ls = crate::html::fragments_view(lis@);
    let ghost k = strs(keywords@);
    let mut out: Vec<ScrapedItem> = Vec::new();
    let mut i: usize = 0;
    proof {
        assert(ls.take(0) =~= Seq::<FragmentView>::empty());
        assert(items_view(out@) =~= Seq::<ItemView>::empty());
    }
    while i < lis.len()
        invariant
            i <= lis.len(),
            ls == crate::html::fragments_view(lis@),
            k == strs(keywords@),
            items_view(out@) == boib_selection(ls.take(i as int), k),
        decreases lis.len() - i,
    {
        proof {
            assert(ls.take(i + 1).drop_last() =~= ls.take(i as int));
            assert(ls.take(i + 1).last() == lis@[i as int]@);
        }
        match boib_row_of(&lis[i]) {
            Some((num, text, href)) => {
                let title = boib_title_of(num.as_str(), text.as_str());
                let keep = if keywords.len() == 0 {
                    true
                } else {
                    let mut joined = string_of(title.as_str());
                    push_char(&mut joined, ' ');
                    append_str(&mut joined, text.as_str());
                    let lower = to_lower(joined.as_str());
                    proof {
                        reveal_strlit(" ");
                        assert(joined@ =~= boib_title(num@, text@) + " "@ + text@);
                    }
                    any_keyword_contained(lower.as_str(), keywords)
                };
                if keep {
                    let url = boib_url_of(href.as_str());
                    let mut ext = string_of("caib-boib-");
                    append_str(&mut ext, num.as_str());
                    out.push(ScrapedItem {
                        title: Some(title),
                        description: Some(text),
                        url: Some(url),
                        external_id: Some(ext),
                        raw_data: None,
                        published_at: None,
                    });
                    proof {
                        assert(items_view(out@) =~= boib_selection(ls.take(i as int), k).push(boib_item(num@, text@, href@)));
                    }
                }
            },
            None => {},
        }
        i = i + 1;
    }
    proof {
        assert(ls.take(lis.len() as int) =~= ls);
    }
    Ok(out)
}

/// The external id of a BOIB feed entry: its lower-cased title with
/// `boib num ` replaced by `caib-boib-` and `/` by `-`.
pub open spec fn rss_external_id(title: Seq<char>) -> Seq<char> {
    replaced(replaced(lowercase(title), "boib num "@, "caib-boib-"@), "/"@, "-"@)
}

/// A feed entry is kept when it has a title and a link and some keyword
/// occurs in its lower-cased title (or there is no keyword).
pub open spec fn rss_keeps(e: FeedEntry, kws: Seq<Seq<char>>) -> bool {
    &&& or_empty(e.title).len() > 0
    &&& or_empty(e.link).len() > 0
    &&& (kws.len() == 0 || contains_any(lowercase(or_empty(e.title)), kws))
}

/// The item of a kept feed entry, dated in UTC.
pub open spec fn rss_item(e: FeedEntry) -> ItemView {
    ItemView {
        title: Some(or_empty(e.title)),
        description: None,
        url: Some(or_empty(e.link)),
        external_id: Some(rss_external_id(or_empty(e.title))),
        raw_data: None,
        published_at: match e.pub_date {
            Some(d) => rfc2822_utc(d),
            None => None,
        },
    }
}

/// The items of the kept feed entries, in feed order.
pub open spec fn rss_selection(es: Seq<FeedEntry>, kws: Seq<Seq<char>>) -> Seq<ItemView>
    decreases es.len(),
{
    if es.len() == 0 {
        Seq::<ItemView>::empty()
    } else {
        let r = rss_selection(es.drop_last(), kws);
        if rss_keeps(es.last(), kws) {
            r.push(rss_item(es.last()))
        } else {
            r
        }
    }
}

fn or_empty_string(o: &Option<String>) -> (r: String)
    ensures
        r@ == or_empty(opt_view(*o)),
{
    match o {
        Some(s) => s.clone(),
        None => String::new(),
    }
}

/// Builds `rss_external_id`.
fn rss_external_id_of(title: &str) -> (r: String)
    ensures
        r@ == rss_external_id(title@),
{
    let lower = to_lower(title);
    proof {
        reveal_strlit("boib num ");
        reveal_strlit("/");
    }
    let a = replace_all(lower.as_str(), "boib num ", "caib-boib-");
    replace_all(a.as_str(), "/", "-")
}

/// Reads the BOIB feed (`body` as UTF-8 bytes): entries without title or
/// link, or in whose lower-cased title no keyword occurs, are left out.
pub fn parse_eboib_rss(body: &str, keywords: &Vec<String>) -> (r: Result<Vec<ScrapedItem>, ScrapeError>)
    ensures
        match feed_entries(encode_utf8(body@)) {
            Some(es) => r matches Ok(v) && items_view(v@) == rss_selection(es, strs(keywords@)),
            None => r matches Err(e) && starts_with(e.message@, "Error parseando RSS del CAIB: "@),
        },
{
    let entries = match read_feed(body.as_bytes()) {
        Ok(v) => v,
        Err(detail) => {
            let mut message = string_of("Error parseando RSS del CAIB: ");
            let ghost head = message@;
            append_str(&mut message, detail.as_str());
            proof {
                assert(message@.subrange(0, head.len() as int) =~= head);
            }
            return Err(ScrapeError { message });
        },
    };
    let ghost es = entries_view(entries@);
    let ghost k = strs(keywords@);
    let mut out: Vec<ScrapedItem> = Vec::new();
    let mut i: usize = 0;
    proof {
        assert(es.take(0) =~= Seq::<FeedEntry>::empty());
        assert(items_view(out@) =~= Seq::<ItemView>::empty());
    }
    while i < entries.len()
        invariant
            i <= entries.len(),
            es == entries_view(entries@),
            k == strs(keywords@),
            items_view(out@) == rss_selection(es.take(i as int), k),
        decreases entries.len() - i,
    {
        let e = &entries[i];
        proof {
            assert(es.take(i + 1).drop_last() =~= es.take(i as int));
            assert(es.take(i + 1).last() == e@);
        }
        let title = or_empty_string(&e.title);
        let url = or_empty_string(&e.link);
        if title.unicode_len() > 0 && url.unicode_len() > 0 {
            let keep = if keywords.len() == 0 {
                true
            } else {
                let lower = to_lower(title.as_str());
                any_keyword_contained(lower.as_str(), keywords)
            };
            if keep {
                let published_at = match &e.pub_date {
                    Some(d) => parse_rfc2822_utc(d.as_str()),
                    None => None,
                };
                let ext = rss_external_id_of(title.as_str());
                out.push(ScrapedItem {
                    title: Some(title),
                    description: None,
                    url: Some(url),
                    external_id: Some(ext),
                    raw_data: None,
                    published_at,
                });
                proof {
                    assert(items_view(out@) =~= rss_selection(es.take(i as int), k).push(rss_item(e@)));
                }
            }
        }
        i = i + 1;
    }
    proof {
        assert(es.take(entries.len() as int) =~= es);
    }
    Ok(out)
}

/// Whether a portal page is the login page rather than content.
pub open spec fn asks_login(body: Seq<char>) -> bool {
    contains(body, "Mòdul d'autenticació"@) || contains(body, "autenticaci"@)
}

/// The link selectors tried on the portal page, in order.
pub open spec fn portal_selectors() -> Seq<Seq<char>> {
    seq!["a[href*='licit']"@, "a[href*='contract']"@, "a[href*='expedient']"@]
}

/// A portal link made absolute.
pub open spec fn portal_url(href: Seq<char>) -> Seq<char> {
    if starts_with(href, "http"@) { href } else { "https://www.caib.es"@ + href }
}

/// The items of the portal links `links`, in order: links with an `href`
/// and non-blank text in which some keyword occurs (or there is none).
pub open spec fn portal_link_items(links: Seq<FragmentView>, kws: Seq<Seq<char>>) -> Seq<ItemView>
    decreases links.len(),
{
    if links.len() == 0 {
        Seq::<ItemView>::empty()
    } else {
        let r = portal_link_items(links.drop_last(), kws);
        let l = links.last();
        let text = trim(element_text(l));
        match l.2 {
            Some(href) => if text.len() > 0 && (kws.len() == 0 || contains_any(lowercase(text), kws)) {
                r.push(ItemView {
                    title: Some(text),
                    description: Some(text),
                    url: Some(portal_url(href)),
                    external_id: Some(after_last(portal_url(href), '/')),
                    raw_data: None,
                    published_at: None,
                })
            } else {
                r
            },
            None => r,
        }
    }
}

/// The items of the portal page: none when it asks for a login; otherwise
/// those of the links matched by each selector in turn (a selector that
/// does not parse gives none).
pub open spec fn portal_selection(body: Seq<char>, kws: Seq<Seq<char>>, upto: int) -> Seq<ItemView>
    decreases upto,
{
    if upto <= 0 {
        Seq::<ItemView>::empty()
    } else {
        portal_selection(body, kws, upto - 1) + match document_matches(body, portal_selectors()[upto - 1]) {
            Some(links) => portal_link_items(links, kws),
            None => Seq::<ItemView>::empty(),
        }
    }
}

/// The text after the last `/` of a string.
fn after_last_slash(s: &str) -> (r: String)
    ensures
        r@ == after_last(s@, '/'),
{
    let v = to_chars(s);
    let pieces = split_chars(&v, '/');
    proof {
        crate::text::lemma_split_nonempty(s@, '/');
    }
    from_chars(&pieces[pieces.len() - 1])
}

/// Appends the items of the links that `selector` matches in `body`.
fn push_portal_links(out: &mut Vec<ScrapedItem>, body: &str, selector: &str, keywords: &Vec<String>)
    ensures
        items_view(final(out)@) == items_view(old(out)@) + match document_matches(body@, selector@) {
            Some(links) => portal_link_items(links, strs(keywords@)),
            None => Seq::<ItemView>::empty(),
        },
{
    let links = match select_in_document(body, selector) {
        Some(l) => l,
        None => {
            assert(items_view(out@) =~= items_view(out@) + Seq::<ItemView>::empty());
            return;
        },
    };
    let ghost ls = crate::html::fragments_view(links@);
    let ghost k = strs(keywords@);
    let ghost start = items_view(out@);
    let mut i: usize = 0;
    proof {
        assert(ls.take(0) =~= Seq::<FragmentView>::empty());
        assert(items_view(out@) =~= start + portal_link_items(ls.take(0), k));
    }
    while i < links.len()
        invariant
            i <= links.len(),
            ls == crate::html::fragments_view(links@),
            k == strs(keywords@),
            items_view(out@) == start + portal_link_items(ls.take(i as int), k),
        decreases links.len() - i,
    {
        let l = &links[i];
        proof {
            assert(ls.take(i + 1).drop_last() =~= ls.take(i as int));
            assert(ls.take(i + 1).last() == l@);
        }
        match &l.href {
            Some(href) => {
                let text = text_of(l);
                let keep = if text.unicode_len() == 0 {
                    false
                } else if keywords.len() == 0 {
                    true
                } else {
                    let lower = to_lower(text.as_str());
                    any_keyword_contained(lower.as_str(), keywords)
                };
                if keep {
                    let url = if str_starts_with(href.as_str(), "http") {
                        href.clone()
                    } else {
                        let mut u = string_of("https://www.caib.es");
                        append_str(&mut u, href.as_str());
                        u
                    };
                    let ext = after_last_slash(url.as_str());
                    let d = text.clone();
                    let ghost before = out@;
                    out.push(ScrapedItem {
                        title: Some(text),
                        description: Some(d),
                        url: Some(url),
                        external_id: Some(ext),
                        raw_data: None,
                        published_at: None,
                    });
                    proof {
                        let iv = ItemView {
                            title: Some(text@),
                            description: Some(text@),
                            url: Some(portal_url(href@)),
                            external_id: Some(after_last(portal_url(href@), '/')),
                            raw_data: None,
                            published_at: None,
                        };
                        assert(url@ == portal_url(href@));
                        assert(out@.last()@ == iv);
                        assert(items_view(out@) =~= items_view(before).push(iv));
                        assert(portal_link_items(ls.take(i + 1), k) == portal_link_items(ls.take(i as int), k).push(iv));
                        assert(items_view(out@) =~= start + portal_link_items(ls.take(i + 1), k));
                    }
                } else {
                    proof {
                        assert(items_view(out@) =~= start + portal_link_items(ls.take(i + 1), k));
                    }
                }
            },
            None => {
                proof {
                    assert(items_view(out@) =~= start + portal_link_items(ls.take(i + 1), k));
                }
            },
        }
        i = i + 1;
    }
    proof {
        assert(ls.take(links.len() as int) =~= ls);
    }
}

/// Reads the procurement portal page: nothing when it asks for a login,
/// otherwise the links found by each selector of `portal_selectors` in
/// turn.
pub fn portal_items(body: &str, keywords: &Vec<String>) -> (r: Vec<ScrapedItem>)
    ensures
        items_view(r@) == (if asks_login(body@) {
            Seq::<ItemView>::empty()
        } else {
            portal_selection(body@, strs(keywords@), 3)
        }),
{
    let mut out: Vec<ScrapedItem> = Vec::new();
    if str_contains(body, "Mòdul d'autenticació") || str_contains(body, "autenticaci") {
        proof {
            assert(items_view(out@) =~= Seq::<ItemView>::empty());
        }
        return out;
    }
    proof {
        assert(items_view(out@) =~= portal_selection(body@, strs(keywords@), 0));
    }
    let ghost k = strs(keywords@);
    push_portal_links(&mut out, body, "a[href*='licit']", keywords);
    assert(items_view(out@) =~= portal_selection(body@, k, 1));
    push_portal_links(&mut out, body, "a[href*='contract']", keywords);
    assert(items_view(out@) =~= portal_selection(body@, k, 2));
    push_portal_links(&mut out, body, "a[href*='expedient']", keywords);
    assert(items_view(out@) =~= portal_selection(body@, k, 3));
    out
}


/// Every item read from the BOIB feed has a title, a link and an id.
pub proof fn lemma_rss_items_complete(es: Seq<FeedEntry>, kws: Seq<Seq<char>>, i: int)
    requires
        0 <= i < rss_selection(es, kws).len(),
    ensures
        rss_selection(es, kws)[i].title matches Some(t) && t.len() > 0,
        rss_selection(es, kws)[i].url matches Some(u) && u.len() > 0,
        rss_selection(es, kws)[i].external_id is Some,
    decreases es.len(),
{
    if es.len() > 0 {
        let r = rss_selection(es.drop_last(), kws);
        if i < r.len() {
            lemma_rss_items_complete(es.drop_last(), kws, i);
        }
    }
}

/// The BOIB search never gives more items than the page has list entries.
pub proof fn lemma_boib_selection_bounded(lis: Seq<FragmentView>, kws: Seq<Seq<char>>)
    ensures
        boib_selection(lis, kws).len() <= lis.len(),
    decreases lis.len(),
{
    if lis.len() > 0 {
        lemma_boib_selection_bounded(lis.drop_last(), kws);
    }
}

/// With keywords, a feed entry that has a title and a link is kept exactly
/// when some keyword occurs in its lower-cased title, so the case in which
/// the title is written does not matter; a kept entry adds one item, with
/// that title and link, after those of the entries before it.
pub proof fn lemma_rss_keyword_in_lowercased_title(es: Seq<FeedEntry>, kws: Seq<Seq<char>>, e: FeedEntry)
    requires
        kws.len() > 0,
        e.title.unwrap_or(Seq::<char>::empty()).len() > 0,
        e.link.unwrap_or(Seq::<char>::empty()).len() > 0,
    ensures
        (exists|j: int| 0 <= j < kws.len() && contains(lowercase(e.title.unwrap_or(Seq::<char>::empty())), #[trigger] kws[j]))
            ==> {
            &&& rss_selection(es.push(e), kws).len() == rss_selection(es, kws).len() + 1
            &&& rss_selection(es.push(e), kws).drop_last() == rss_selection(es, kws)
            &&& rss_selection(es.push(e), kws).last().title == Some(e.title.unwrap_or(Seq::<char>::empty()))
            &&& rss_selection(es.push(e), kws).last().url == Some(e.link.unwrap_or(Seq::<char>::empty()))
        },
        !(exists|j: int| 0 <= j < kws.len() && contains(lowercase(e.title.unwrap_or(Seq::<char>::empty())), #[trigger] kws[j]))
            ==> rss_selection(es.push(e), kws) == rss_selection(es, kws),
{
    assert(es.push(e).drop_last() =~= es);
    assert(rss_selection(es, kws).push(rss_item(e)).drop_last() =~= rss_selection(es, kws));
}

} // verus!
