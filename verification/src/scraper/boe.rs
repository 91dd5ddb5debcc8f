//! The BOE (Spanish official gazette) feed.
use vstd::prelude::*;
use crate::dates::{parse_rfc2822_local, rfc2822_local, SimpleDateTime};
use crate::filters::{filter_of, item_text, optional_excluded, optional_required, passes, term_occurs};
use crate::scraper::{any_keyword_hits, hits_any, items_view, keyword_list, keywords_of, ItemView, ScrapeError, ScrapedItem};
use crate::scraper::feed::{entries_view, entry_record, feed_entries, read_feed, record_of, FeedEntry, FeedItem};
use crate::text::{
    append_str, clone_opt, contains, contains_chars, lowercase, opt_str_view, opt_view, push_char, str_contains,
    string_of, to_chars, to_lower, words, words_chars,
};

verus! {

/// Whether `keyword` matches `text`: either the whole keyword occurs in the
/// text, or the keyword has several words and each of them occurs in the
/// text (so `ingenier` or `ingeniero industrial` match
/// `cuerpo de ingenieros industriales`).
pub open spec fn keyword_hits(text: Seq<char>, keyword: Seq<char>) -> bool {
    ||| contains(text, keyword)
    ||| (words(keyword).len() > 1 && forall|j: int|
        0 <= j < words(keyword).len() ==> contains(text, #[trigger] words(keyword)[j]))
}

/// Decides `keyword_hits` for a text and a keyword.
pub fn keyword_matches(text: &str, keyword: &str) -> (r: bool)
    ensures
        r == keyword_hits(text@, keyword@),
{
    let t = to_chars(text);
    let k = to_chars(keyword);
    if contains_chars(&t, &k) {
        return true;
    }
    let ws = words_chars(&k);
    if ws.len() > 1 {
        let mut i: usize = 0;
        while i < ws.len()
            invariant
                i <= ws.len(),
                ws.len() == words(keyword@).len(),
                forall|j: int| 0 <= j < ws.len() ==> #[trigger] ws@[j]@ == words(keyword@)[j],
                t@ == text@,
                !contains(text@, keyword@),
                forall|j: int| 0 <= j < i ==> contains(text@, #[trigger] words(keyword@)[j]),
            decreases ws.len() - i,
        {
            if !contains_chars(&t, &ws[i]) {
                assert(!contains(text@, words(keyword@)[i as int]));
                return false;
            }
            i = i + 1;
        }
        return true;
    }
    false
}


/// The BOE feed read when a search names no BOE address: the last two
/// months of public employment announcements.
pub const BOE_RSS_URL: &'static str = "https://www.boe.es/rss/canal_per.php?l=p&c=140";

/// The feed a BOE search reads: its own address when it is on `boe.es`,
/// the default feed otherwise.
pub fn feed_url(config_url: &str) -> (r: &str)
    ensures
        r@ == (if contains(config_url@, "boe.es"@) { config_url@ } else { BOE_RSS_URL@ }),
{
    if str_contains(config_url, "boe.es") {
        config_url
    } else {
        BOE_RSS_URL
    }
}

/// An optional value, or the empty text.
pub open spec fn or_empty(o: Option<Seq<char>>) -> Seq<char> {
    o.unwrap_or(Seq::<char>::empty())
}

/// The text keywords are looked for in: lower-cased title, description and
/// link, separated by spaces.
pub open spec fn entry_search_text(e: FeedEntry) -> Seq<char> {
    lowercase(or_empty(e.title)) + " "@ + lowercase(or_empty(e.description)) + " "@ + lowercase(or_empty(e.link))
}

/// A BOE entry is kept when some keyword matches it (or there are none)
/// and it passes the search's filters, judged on title, description and
/// link.
pub open spec fn boe_keeps(e: FeedEntry, kws: Seq<Seq<char>>, inc: Seq<Seq<char>>, exc: Seq<Seq<char>>) -> bool {
    &&& (kws.len() == 0 || hits_any(entry_search_text(e), kws))
    &&& passes(inc, exc, item_text(Some(or_empty(e.title)), e.description, e.link))
}

/// The item made of a kept entry: no title when it is empty, the GUID (or
/// else the link) as external id, the entry's JSON record as raw data, and
/// the local time of its publication date.
pub open spec fn boe_item(e: FeedEntry) -> ItemView {
    ItemView {
        title: if or_empty(e.title).len() == 0 { None } else { Some(or_empty(e.title)) },
        description: e.description,
        url: e.link,
        external_id: if e.guid is Some { e.guid } else { e.link },
        raw_data: Some(entry_record(e, true)),
        published_at: match e.pub_date {
            Some(d) => rfc2822_local(d),
            None => None,
        },
    }
}

/// The items of the kept entries, in feed order.
pub open spec fn boe_selection(
    es: Seq<FeedEntry>,
    kws: Seq<Seq<char>>,
    inc: Seq<Seq<char>>,
    exc: Seq<Seq<char>>,
) -> Seq<ItemView>
    decreases es.len(),
{
    if es.len() == 0 {
        Seq::<ItemView>::empty()
    } else {
        let r = boe_selection(es.drop_last(), kws, inc, exc);
        if boe_keeps(es.last(), kws, inc, exc) {
            r.push(boe_item(es.last()))
        } else {
            r
        }
    }
}

/// An optional string, lower-cased, or the empty string.
fn lower_or_empty(o: &Option<String>) -> (r: String)
    ensures
        r@ == lowercase(or_empty(opt_view(*o))),
{
    match o {
        Some(s) => to_lower(s.as_str()),
        None => {
            let e = String::new();
            to_lower(e.as_str())
        },
    }
}

/// Builds `entry_search_text`.
pub(crate) fn search_text(e: &FeedItem) -> (r: String)
    ensures
        r@ == entry_search_text(e@),
{
    let mut t = lower_or_empty(&e.title);
    push_char(&mut t, ' ');
    let d = lower_or_empty(&e.description);
    append_str(&mut t, d.as_str());
    push_char(&mut t, ' ');
    let l = lower_or_empty(&e.link);
    append_str(&mut t, l.as_str());
    proof {
        reveal_strlit(" ");
        assert(t@ =~= entry_search_text(e@));
    }
    t
}

/// Builds `boe_item` for one entry.
fn item_of_entry(e: &FeedItem) -> (r: ScrapedItem)
    ensures
        r@ == boe_item(e@),
{
    let title = match &e.title {
        Some(t) => if t.unicode_len() == 0 { None } else { Some(t.clone()) },
        None => None,
    };
    let external_id = match &e.guid {
        Some(g) => Some(g.clone()),
        None => clone_opt(&e.link),
    };
    let published_at = match &e.pub_date {
        Some(d) => parse_rfc2822_local(d.as_str()),
        None => None,
    };
    let raw = record_of(e, true);
    ScrapedItem {
        title,
        description: clone_opt(&e.description),
        url: clone_opt(&e.link),
        external_id,
        raw_data: Some(raw),
        published_at,
    }
}

/// Turns the entries of a BOE feed into items: entries that no keyword
/// matches (when the search has keywords) or that fail its filters are left
/// out.
pub fn boe_items(entries: &Vec<FeedItem>, keywords: Option<&str>, filters: Option<&str>) -> (r: Vec<ScrapedItem>)
    ensures
        items_view(r@) == boe_selection(
            entries_view(entries@),
            keywords_of(opt_str_view(keywords)),
            optional_required(opt_str_view(filters)),
            optional_excluded(opt_str_view(filters)),
        ),
{
    let kws = keyword_list(keywords);
    let filter = filter_of(filters);
    let ghost es = entries_view(entries@);
    let ghost k = keywords_of(opt_str_view(keywords));
    let ghost inc = optional_required(opt_str_view(filters));
    let ghost exc = optional_excluded(opt_str_view(filters));
    proof {
        assert(crate::text::strs(kws@) == k);
    }
    let mut out: Vec<ScrapedItem> = Vec::new();
    let mut i: usize = 0;
    proof {
        assert(es.take(0) =~= Seq::<FeedEntry>::empty());
        assert(items_view(out@) =~= Seq::<ItemView>::empty());
    }
    while i < entries.len()
        invariant
            i <= entries.len(),
            es == entries_view(entries@),
            crate::text::strs(kws@) == k,
            filter.required_terms() == inc,
            filter.excluded_terms() == exc,
            items_view(out@) == boe_selection(es.take(i as int), k, inc, exc),
        decreases entries.len() - i,
    {
        let e = &entries[i];
        proof {
            assert(es.take(i + 1).drop_last() =~= es.take(i as int));
            assert(es.take(i + 1).last() == e@);
        }
        let keep_kw = if kws.len() == 0 {
            true
        } else {
            let text = search_text(e);
            any_keyword_hits(text.as_str(), &kws)
        };
        let title_text: String = match &e.title {
            Some(t) => t.clone(),
            None => String::new(),
        };
        let keep = keep_kw && filter.matches_item(
            Some(title_text.as_str()),
            match &e.description { Some(d) => Some(d.as_str()), None => None },
            match &e.link { Some(l) => Some(l.as_str()), None => None },
        );
        if keep {
            let item = item_of_entry(e);
            out.push(item);
            proof {
                assert(items_view(out@) =~= boe_selection(es.take(i as int), k, inc, exc).push(boe_item(e@)));
            }
        }
        i = i + 1;
    }
    proof {
        assert(es.take(entries.len() as int) =~= es);
    }
    out
}

/// Reads a BOE feed and keeps the items of the search (see `boe_items`);
/// bytes that are not an RSS channel give an error.
pub fn parse_feed(bytes: &[u8], keywords: Option<&str>, filters: Option<&str>) -> (r: Result<Vec<ScrapedItem>, ScrapeError>)
    ensures
        match feed_entries(bytes@) {
            Some(es) => r matches Ok(v) && items_view(v@) == boe_selection(
                es,
                keywords_of(opt_str_view(keywords)),
                optional_required(opt_str_view(filters)),
                optional_excluded(opt_str_view(filters)),
            ),
            None => r matches Err(e) && crate::text::starts_with(e.message@, "Error parseando RSS del BOE: "@),
        },
{
    match read_feed(bytes) {
        Ok(entries) => Ok(boe_items(&entries, keywords, filters)),
        Err(detail) => {
            let mut message = string_of("Error parseando RSS del BOE: ");
            let ghost head = message@;
            append_str(&mut message, detail.as_str());
            proof {
                assert(message@.subrange(0, head.len() as int) =~= head);
            }
            Err(ScrapeError { message })
        },
    }
}


/// A BOE search never gives more items than the feed has entries.
pub proof fn lemma_boe_selection_bounded(es: Seq<FeedEntry>, kws: Seq<Seq<char>>, inc: Seq<Seq<char>>, exc: Seq<Seq<char>>)
    ensures
        boe_selection(es, kws, inc, exc).len() <= es.len(),
    decreases es.len(),
{
    if es.len() > 0 {
        lemma_boe_selection_bounded(es.drop_last(), kws, inc, exc);
    }
}

/// A BOE search without keywords and without filters keeps every entry,
/// in feed order.
pub proof fn lemma_boe_keeps_all(es: Seq<FeedEntry>)
    ensures
        boe_selection(es, Seq::<Seq<char>>::empty(), Seq::<Seq<char>>::empty(), Seq::<Seq<char>>::empty())
            == es.map_values(|e: FeedEntry| boe_item(e)),
    decreases es.len(),
{
    let none = Seq::<Seq<char>>::empty();
    if es.len() > 0 {
        lemma_boe_keeps_all(es.drop_last());
        assert(es.map_values(|e: FeedEntry| boe_item(e)) =~= es.drop_last().map_values(|e: FeedEntry| boe_item(e)).push(boe_item(es.last())));
    } else {
        assert(es.map_values(|e: FeedEntry| boe_item(e)) =~= Seq::<ItemView>::empty());
    }
}

/// The filters of a BOE search are judged on the entry's title,
/// description and link together: an entry whose lower-cased
/// `title description link` contains an excluded term is left out, whatever
/// the keywords, and the items are those of the other entries.
pub proof fn lemma_boe_excluded_anywhere(
    es: Seq<FeedEntry>,
    kws: Seq<Seq<char>>,
    inc: Seq<Seq<char>>,
    exc: Seq<Seq<char>>,
    e: FeedEntry,
    x: int,
)
    requires
        0 <= x < exc.len(),
        contains(
            lowercase(e.title.unwrap_or(Seq::<char>::empty()) + seq![' '] + e.description.unwrap_or(Seq::<char>::empty())
                + seq![' '] + e.link.unwrap_or(Seq::<char>::empty())),
            exc[x],
        ),
    ensures
        boe_selection(es.push(e), kws, inc, exc) == boe_selection(es, kws, inc, exc),
{
    let full = e.title.unwrap_or(Seq::<char>::empty()) + seq![' '] + e.description.unwrap_or(Seq::<char>::empty())
        + seq![' '] + e.link.unwrap_or(Seq::<char>::empty());
    assert(item_text(Some(or_empty(e.title)), e.description, e.link) =~= full);
    assert(term_occurs(lowercase(full), exc[x]));
    assert(!passes(inc, exc, full));
    assert(es.push(e).drop_last() =~= es);
}

/// Without keywords, an entry whose lower-cased `title description link`
/// holds every required term and no excluded one is kept: it adds its item
/// after those of the entries before it.
pub proof fn lemma_boe_passing_entry_kept(es: Seq<FeedEntry>, inc: Seq<Seq<char>>, exc: Seq<Seq<char>>, e: FeedEntry)
    requires
        forall|r: int| 0 <= r < inc.len() ==> term_occurs(
            lowercase(e.title.unwrap_or(Seq::<char>::empty()) + seq![' '] + e.description.unwrap_or(Seq::<char>::empty())
                + seq![' '] + e.link.unwrap_or(Seq::<char>::empty())),
            #[trigger] inc[r],
        ),
        forall|x: int| 0 <= x < exc.len() ==> !term_occurs(
            lowercase(e.title.unwrap_or(Seq::<char>::empty()) + seq![' '] + e.description.unwrap_or(Seq::<char>::empty())
                + seq![' '] + e.link.unwrap_or(Seq::<char>::empty())),
            #[trigger] exc[x],
        ),
    ensures
        boe_selection(es.push(e), Seq::<Seq<char>>::empty(), inc, exc) == boe_selection(
            es,
            Seq::<Seq<char>>::empty(),
            inc,
            exc,
        ).push(boe_item(e)),
{
    let full = e.title.unwrap_or(Seq::<char>::empty()) + seq![' '] + e.description.unwrap_or(Seq::<char>::empty())
        + seq![' '] + e.link.unwrap_or(Seq::<char>::empty());
    assert(item_text(Some(or_empty(e.title)), e.description, e.link) =~= full);
    assert(passes(inc, exc, full));
    assert(es.push(e).drop_last() =~= es);
}

} // verus!
