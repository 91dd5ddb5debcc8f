//! RSS feeds read through the `rss` crate, and the JSON record kept of each
//! feed entry.
use vstd::prelude::*;
use crate::text::{append_str, join, opt_view, strs};

verus! {

/// One entry of an RSS channel, as plain values.
pub struct FeedItem {
    pub title: Option<String>,
    pub link: Option<String>,
    pub description: Option<String>,
    pub guid: Option<String>,
    pub pub_date: Option<String>,
    pub categories: Vec<String>,
}

/// What a feed entry holds.
pub struct FeedEntry {
    pub title: Option<Seq<char>>,
    pub link: Option<Seq<char>>,
    pub description: Option<Seq<char>>,
    pub guid: Option<Seq<char>>,
    pub pub_date: Option<Seq<char>>,
    pub categories: Seq<Seq<char>>,
}

impl View for FeedItem {
    type V = FeedEntry;

    open spec fn view(&self) -> FeedEntry {
        FeedEntry {
            title: opt_view(self.title),
            link: opt_view(self.link),
            description: opt_view(self.description),
            guid: opt_view(self.guid),
            pub_date: opt_view(self.pub_date),
            categories: strs(self.categories@),
        }
    }
}

pub open spec fn entries_view(v: Seq<FeedItem>) -> Seq<FeedEntry> {
    v.map_values(|f: FeedItem| f@)
}

/// The entries of the RSS channel in `bytes`, in order, as
/// `Channel::read_from` reads them; `None` when the bytes are not a channel.
pub uninterp spec fn feed_entries(bytes: Seq<u8>) -> Option<Seq<FeedEntry>>;

/// Calls `Channel::read_from` and reads each item's title, link,
/// description, GUID value, publication date and category names. On failure
/// the error's text is returned; nothing is stated of that text.
#[verifier::external_body]
pub fn read_feed(bytes: &[u8]) -> (r: Result<Vec<FeedItem>, String>)
    ensures
        match r {
            Ok(v) => feed_entries(bytes@) == Some(entries_view(v@)),
            Err(_) => feed_entries(bytes@) is None,
        },
{
    let ch = rss::Channel::read_from(bytes).map_err(|e| e.to_string())?;
    Ok(ch.items().iter().map(|i| FeedItem {
        title: i.title().map(String::from),
        link: i.link().map(String::from),
        description: i.description().map(String::from),
        guid: i.guid().map(|g| g.value().to_string()),
        pub_date: i.pub_date().map(String::from),
        categories: i.categories().iter().map(|c| c.name().to_string()).collect(),
    }).collect())
}

/// The JSON string literal for `s`, as `serde_json` writes it.
pub uninterp spec fn json_quoted(s: Seq<char>) -> Seq<char>;

/// Calls `serde_json::Value::to_string` on the JSON string `s`; the result
/// is the named `json_quoted`.
#[verifier::external_body]
pub fn json_string(s: &str) -> (r: String)
    ensures
        r@ == json_quoted(s@),
{
    serde_json::Value::from(s).to_string()
}

/// JSON for an optional string: `null` or the string literal.
pub open spec fn json_opt(o: Option<Seq<char>>) -> Seq<char> {
    match o {
        Some(s) => json_quoted(s),
        None => "null"@,
    }
}

/// A JSON array of strings, written without spaces.
pub open spec fn json_array(items: Seq<Seq<char>>) -> Seq<char> {
    "["@ + join(items.map_values(|s: Seq<char>| json_quoted(s)), ","@) + "]"@
}

/// The compact JSON object kept as the raw record of a feed entry: its
/// keys in alphabetical order (as `serde_json`'s map orders them), with
/// the category names only when `with_categories`.
pub open spec fn entry_record(e: FeedEntry, with_categories: bool) -> Seq<char> {
    "{"@ + (if with_categories { "\"categories\":"@ + json_array(e.categories) + ","@ } else { Seq::<char>::empty() })
        + "\"description\":"@ + json_opt(e.description)
        + ",\"guid\":"@ + json_opt(e.guid)
        + ",\"link\":"@ + json_opt(e.link)
        + ",\"pub_date\":"@ + json_opt(e.pub_date)
        + ",\"title\":"@ + json_opt(e.title)
        + "}"@
}

/// Appends `json_opt` of an optional string.
fn push_json_opt(out: &mut String, o: &Option<String>)
    ensures
        final(out)@ == old(out)@ + json_opt(opt_view(*o)),
{
    match o {
        Some(s) => {
            let q = json_string(s.as_str());
            append_str(out, q.as_str());
        },
        None => {
            append_str(out, "null");
        },
    }
}

/// Appends the JSON array of `items`.
fn push_json_array(out: &mut String, items: &Vec<String>)
    ensures
        final(out)@ == old(out)@ + json_array(strs(items@)),
{
    let ghost start = out@;
    let ghost qs = strs(items@).map_values(|s: Seq<char>| json_quoted(s));
    append_str(out, "[");
    let mut i: usize = 0;
    proof {
        reveal_strlit("[");
        assert(qs.take(0) =~= Seq::<Seq<char>>::empty());
        assert(out@ =~= start + "["@ + join(qs.take(0), ","@));
    }
    while i < items.len()
        invariant
            i <= items.len(),
            qs == strs(items@).map_values(|s: Seq<char>| json_quoted(s)),
            qs.len() == items.len(),
            out@ == start + "["@ + join(qs.take(i as int), ","@),
        decreases items.len() - i,
    {
        let ghost before = out@;
        if i > 0 {
            append_str(out, ",");
        }
        let q = json_string(items[i].as_str());
        append_str(out, q.as_str());
        proof {
            assert(qs.take(i + 1).drop_last() =~= qs.take(i as int));
            assert(qs.take(i + 1).last() == json_quoted(items@[i as int]@));
            if i == 0 {
                assert(out@ =~= start + "["@ + join(qs.take(1), ","@));
            } else {
                assert(out@ =~= start + "["@ + join(qs.take(i + 1), ","@));
            }
        }
        i = i + 1;
    }
    append_str(out, "]");
    proof {
        assert(qs.take(items.len() as int) =~= qs);
        assert(out@ =~= start + json_array(strs(items@)));
    }
}

/// Writes the raw JSON record of a feed entry (see `entry_record`).
pub fn record_of(e: &FeedItem, with_categories: bool) -> (r: String)
    ensures
        r@ == entry_record(e@, with_categories),
{
    let mut out = String::new();
    append_str(&mut out, "{");
    if with_categories {
        append_str(&mut out, "\"categories\":");
        push_json_array(&mut out, &e.categories);
        append_str(&mut out, ",");
    }
    append_str(&mut out, "\"description\":");
    push_json_opt(&mut out, &e.description);
    append_str(&mut out, ",\"guid\":");
    push_json_opt(&mut out, &e.guid);
    append_str(&mut out, ",\"link\":");
    push_json_opt(&mut out, &e.link);
    append_str(&mut out, ",\"pub_date\":");
    push_json_opt(&mut out, &e.pub_date);
    append_str(&mut out, ",\"title\":");
    push_json_opt(&mut out, &e.title);
    append_str(&mut out, "}");
    proof {
        assert(out@ =~= entry_record(e@, with_categories));
    }
    out
}

} // verus!
