//! The BOCYL (official gazette of Castilla y León) feed.
use vstd::prelude::*;
use crate::dates::{parse_rfc2822_local, rfc2822_local};
use crate::scraper::{any_keyword_contained, contains_any, items_view, keyword_list, keywords_of, ItemView, ScrapeError, ScrapedItem};
use crate::scraper::boe::{entry_search_text, or_empty, search_text};
use crate::scraper::feed::{entries_view, entry_record, feed_entries, read_feed, record_of, FeedEntry, FeedItem};
use crate::text::{append_str, clone_opt, contains, opt_str_view, str_contains, string_of};

verus! {

/// The feed read when a search names no BOCYL address: section I, the
/// Community of Castilla y León.
pub const BOCYL_RSS_URL: &'static str = "https://bocyl.jcyl.es/rss.do?seccion=I";

/// The feed a BOCYL search reads: its own address when it is on
/// `bocyl.jcyl.es`, the default feed otherwise.
pub fn feed_url(config_url: &str) -> (r: &str)
    ensures
        r@ == (if contains(config_url@, "bocyl.jcyl.es"@) { config_url@ } else { BOCYL_RSS_URL@ }),
{
    if str_contains(config_url, "bocyl.jcyl.es") {
        config_url
    } else {
        BOCYL_RSS_URL
    }
}

/// The item made of a kept entry: as for the BOE, but the raw record has no
/// categories.
pub open spec fn bocyl_item(e: FeedEntry) -> ItemView {
    ItemView {
        title: if or_empty(e.title).len() == 0 { None } else { Some(or_empty(e.title)) },
        description: e.description,
        url: e.link,
        external_id: if e.guid is Some { e.guid } else { e.link },
        raw_data: Some(entry_record(e, false)),
        published_at: match e.pub_date {
            Some(d) => rfc2822_local(d),
            None => None,
        },
    }
}

/// The items of the entries in which some keyword occurs (all entries when
/// there is no keyword), in feed order.
pub open spec fn bocyl_selection(es: Seq<FeedEntry>, kws: Seq<Seq<char>>) -> Seq<ItemView>
    decreases es.len(),
{
    if es.len() == 0 {
        Seq::<ItemView>::empty()
    } else {
        let r = bocyl_selection(es.drop_last(), kws);
        if kws.len() == 0 || contains_any(entry_search_text(es.last()), kws) {
            r.push(bocyl_item(es.last()))
        } else {
            r
        }
    }
}

fn item_of_entry(e: &FeedItem) -> (r: ScrapedItem)
    ensures
        r@ == bocyl_item(e@),
{
    let title = match &e.title {
        Some(t) => if t.unicode_len() == 0 { None } else { Some(t.clone()) },
        None => None,
    };
    let external_id = match &e.guid {
        Some(g) => Some(g.clone()),
        None => clone_opt(&e.link),
    };
    let published_at = match &e.pub_date {
        Some(d) => parse_rfc2822_local(d.as_str()),
        None => None,
    };
    let raw = record_of(e, false);
    ScrapedItem {
        title,
        description: clone_opt(&e.description),
        url: clone_opt(&e.link),
        external_id,
        raw_data: Some(raw),
        published_at,
    }
}

/// Turns the entries of a BOCYL feed into items, leaving out those in
/// which no keyword occurs when the search has keywords.
pub fn bocyl_items(entries: &Vec<FeedItem>, keywords: Option<&str>) -> (r: Vec<ScrapedItem>)
    ensures
        items_view(r@) == bocyl_selection(entries_view(entries@), keywords_of(opt_str_view(keywords))),
{
    let kws = keyword_list(keywords);
    let ghost es = entries_view(entries@);
    let ghost k = keywords_of(opt_str_view(keywords));
    let mut out: Vec<ScrapedItem> = Vec::new();
    let mut i: usize = 0;
    proof {
        assert(es.take(0) =~= Seq::<FeedEntry>::empty());
        assert(items_view(out@) =~= Seq::<ItemView>::empty());
    }
    while i < entries.len()
        invariant
            i <= entries.len(),
            es == entries_view(entries@),
            crate::text::strs(kws@) == k,
            items_view(out@) == bocyl_selection(es.take(i as int), k),
        decreases entries.len() - i,
    {
        let e = &entries[i];
        proof {
            assert(es.take(i + 1).drop_last() =~= es.take(i as int));
            assert(es.take(i + 1).last() == e@);
        }
        let keep = if kws.len() == 0 {
            true
        } else {
            let text = search_text(e);
            any_keyword_contained(text.as_str(), &kws)
        };
        if keep {
            let item = item_of_entry(e);
            out.push(item);
            proof {
                assert(items_view(out@) =~= bocyl_selection(es.take(i as int), k).push(bocyl_item(e@)));
            }
        }
        i = i + 1;
    }
    proof {
        assert(es.take(entries.len() as int) =~= es);
    }
    out
}

/// Reads a BOCYL feed and keeps the items of the search (see
/// `bocyl_items`); bytes that are not an RSS channel give an error.
pub fn parse_feed(bytes: &[u8], keywords: Option<&str>) -> (r: Result<Vec<ScrapedItem>, ScrapeError>)
    ensures
        match feed_entries(bytes@) {
            Some(es) => r matches Ok(v) && items_view(v@) == bocyl_selection(es, keywords_of(opt_str_view(keywords))),
            None => r matches Err(e) && crate::text::starts_with(e.message@, "Error parseando RSS del BOCYL: "@),
        },
{
    match read_feed(bytes) {
        Ok(entries) => Ok(bocyl_items(&entries, keywords)),
        Err(detail) => {
            let mut message = string_of("Error parseando RSS del BOCYL: ");
            let ghost head = message@;
            append_str(&mut message, detail.as_str());
            proof {
                assert(message@.subrange(0, head.len() as int) =~= head);
            }
            Err(ScrapeError { message })
        },
    }
}

} // verus!
