//! The BORM (official gazette of the Region of Murcia), whose services
//! answer with XML-like markup wrapped in HTML.
use vstd::prelude::*;
use crate::dates::{dashed_dmy, dmy_text, format_dmy, midnight, parse_dashed_dmy, valid_date, SimpleDate, SimpleDateTime};
use crate::html::{
    document_matches, element_text, first_text, fragment_matches, fragments_view, join_strings,
    select_in_document, select_in_fragment, select_text, select_text_in, Fragment, FragmentView,
};
use crate::scraper::{any_keyword_contained, contains_any, items_view, ItemView, ScrapedItem};
use crate::text::{append_str, contains, lowercase, push_char, string_of, strs, to_lower, trim, trim_str, truncate_bytes, truncated};

verus! {

/// Host of the BORM web site.
pub const BORM_BASE_URL: &'static str = "https://www.borm.es";

/// The service describing the latest bulletin.
pub const BORM_LATEST_URL: &'static str = "https://www.borm.es/services/boletin/ultimo";

/// Titles are cut to this many bytes.
pub const TITLE_MAX_BYTES: usize = 200;

/// The address of an announcement in the BORM web site.
pub open spec fn announcement_url_spec(id: Seq<char>, numero: Seq<char>, ano: Seq<char>) -> Seq<char> {
    BORM_BASE_URL@ + "/#/home/anuncio/"@ + id + "/"@ + numero + "/"@ + ano
}

/// Builds the address of an announcement.
pub fn announcement_url(id: &str, numero: &str, ano: &str) -> (r: String)
    ensures
        r@ == announcement_url_spec(id@, numero@, ano@),
{
    let mut s = string_of(BORM_BASE_URL);
    append_str(&mut s, "/#/home/anuncio/");
    append_str(&mut s, id);
    append_str(&mut s, "/");
    append_str(&mut s, numero);
    append_str(&mut s, "/");
    append_str(&mut s, ano);
    s
}

/// The address of the summary of the bulletin of a day.
pub open spec fn summary_url_spec(d: SimpleDate) -> Seq<char> {
    "https://www.borm.es/services/boletin/fecha/"@ + dmy_text(d) + "/sumario"@
}

/// Builds the address of the summary of the bulletin of `d`.
pub fn summary_url(d: SimpleDate) -> (r: String)
    requires
        valid_date(d.year as int, d.month as int, d.day as int),
    ensures
        r@ == summary_url_spec(d),
{
    let mut s = string_of("https://www.borm.es/services/boletin/fecha/");
    let f = format_dmy(d);
    append_str(&mut s, f.as_str());
    append_str(&mut s, "/sumario");
    s
}

/// What the latest-bulletin service tells: the publication day and the id
/// of the bulletin, when both are there and the day reads as `dd-mm-yyyy`.
pub open spec fn ultimo_spec(html: Seq<char>) -> Option<(SimpleDate, Seq<char>)> {
    match (first_text(document_matches(html, "id"@)), first_text(document_matches(html, "fechapublicacion"@))) {
        (Some(id), Some(f)) => match dashed_dmy(f) {
            Some(d) => Some((d, id)),
            None => None,
        },
        _ => None,
    }
}

/// Reads the answer of the latest-bulletin service.
pub fn parse_ultimo(html: &str) -> (r: Option<(SimpleDate, String)>)
    ensures
        match r {
            Some((d, id)) => ultimo_spec(html@) == Some((d, id@)),
            None => ultimo_spec(html@) is None,
        },
        r matches Some((d, _)) ==> valid_date(d.year as int, d.month as int, d.day as int),
{
    let id = select_text(html, "id");
    let fecha = select_text(html, "fechapublicacion");
    match (id, fecha) {
        (Some(id), Some(f)) => match parse_dashed_dmy(f.as_str()) {
            Some(d) => Some((d, id)),
            None => None,
        },
        _ => None,
    }
}

/// The trimmed text of the first element matching `tag` inside `e`.
pub open spec fn field(e: FragmentView, tag: Seq<char>) -> Option<Seq<char>> {
    first_text(fragment_matches(e.0, tag))
}

/// The description of an announcement: its section and subsection joined
/// by ` — `, or whichever of the two it has.
pub open spec fn description_spec(apartado: Option<Seq<char>>, subapartado: Option<Seq<char>>) -> Option<Seq<char>> {
    match (apartado, subapartado) {
        (Some(a), Some(s)) => Some(a + " — "@ + s),
        (Some(a), None) => Some(a),
        (None, Some(s)) => Some(s),
        (None, None) => None,
    }
}

/// The day of an announcement: its own publication day when it reads as
/// `dd-mm-yyyy`, the bulletin's day otherwise.
pub open spec fn announcement_day(e: FragmentView, fecha: SimpleDate) -> SimpleDate {
    match fragment_matches(e.0, "fechapublicacion"@) {
        Some(fs) => if fs.len() > 0 {
            match dashed_dmy(trim(element_text(fs[0]))) {
                Some(d) => d,
                None => fecha,
            }
        } else {
            fecha
        },
        None => fecha,
    }
}

/// The item of an announcement, when it has an id, a number and a year and
/// (if there are keywords) some keyword occurs in its lower-cased summary.
pub open spec fn announcement(e: FragmentView, kws: Seq<Seq<char>>, fecha: SimpleDate) -> Option<ItemView> {
    match (field(e, "id"@), field(e, "numero"@), field(e, "ano"@)) {
        (Some(id), Some(numero), Some(ano)) => {
            let sumario = field(e, "sumario"@).unwrap_or(Seq::<char>::empty());
            if kws.len() == 0 || contains_any(lowercase(sumario), kws) {
                Some(ItemView {
                    title: Some(truncated(sumario, TITLE_MAX_BYTES as nat)),
                    description: description_spec(field(e, "apartado"@), field(e, "subapartado"@)),
                    url: Some(announcement_url_spec(id, numero, ano)),
                    external_id: Some(ano + "/"@ + numero),
                    raw_data: None,
                    published_at: Some(midnight(announcement_day(e, fecha))),
                })
            } else {
                None
            }
        },
        _ => None,
    }
}

/// The items of the announcements `es`, in order.
pub open spec fn announcements(es: Seq<FragmentView>, kws: Seq<Seq<char>>, fecha: SimpleDate) -> Seq<ItemView>
    decreases es.len(),
{
    if es.len() == 0 {
        Seq::<ItemView>::empty()
    } else {
        let r = announcements(es.drop_last(), kws, fecha);
        match announcement(es.last(), kws, fecha) {
            Some(it) => r.push(it),
            None => r,
        }
    }
}

/// The items of a bulletin summary: one per announcement (an
/// `anunciosboletin` directly inside another).
pub open spec fn sumario_spec(html: Seq<char>, kws: Seq<Seq<char>>, fecha: SimpleDate) -> Seq<ItemView> {
    match document_matches(html, "anunciosboletin > anunciosboletin"@) {
        Some(es) => announcements(es, kws, fecha),
        None => Seq::<ItemView>::empty(),
    }
}

fn day_of(e: &Fragment, fecha: SimpleDate) -> (r: SimpleDate)
    ensures
        r == announcement_day(e@, fecha),
{
    match select_in_fragment(e.html.as_str(), "fechapublicacion") {
        Some(fs) => {
            if fs.len() > 0 {
                let all = join_strings(&fs[0].texts, "");
                proof {
                    reveal_strlit("");
                    assert(""@ =~= Seq::<char>::empty());
                }
                let t = trim_str(all.as_str());
                match parse_dashed_dmy(t.as_str()) {
                    Some(d) => d,
                    None => fecha,
                }
            } else {
                fecha
            }
        },
        None => fecha,
    }
}

fn description_of(apartado: Option<String>, subapartado: Option<String>) -> (r: Option<String>)
    ensures
        crate::text::opt_view(r) == description_spec(crate::text::opt_view(apartado), crate::text::opt_view(subapartado)),
{
    match (apartado, subapartado) {
        (Some(a), Some(s)) => {
            let mut d = a;
            append_str(&mut d, " — ");
            append_str(&mut d, s.as_str());
            Some(d)
        },
        (Some(a), None) => Some(a),
        (None, Some(s)) => Some(s),
        (None, None) => None,
    }
}

fn announcement_of(e: &Fragment, keywords: &Vec<String>, fecha: SimpleDate) -> (r: Option<ScrapedItem>)
    ensures
        match r {
            Some(it) => announcement(e@, strs(keywords@), fecha) == Some(it@),
            None => announcement(e@, strs(keywords@), fecha) is None,
        },
{
    let id = select_text_in(e, "id");
    let numero = select_text_in(e, "numero");
    let ano = select_text_in(e, "ano");
    let (id, numero, ano) = match (id, numero, ano) {
        (Some(i), Some(n), Some(a)) => (i, n, a),
        _ => return None,
    };
    let sumario = match select_text_in(e, "sumario") {
        Some(s) => s,
        None => String::new(),
    };
    if keywords.len() > 0 {
        let lower = to_lower(sumario.as_str());
        if !any_keyword_contained(lower.as_str(), keywords) {
            return None;
        }
    }
    let url = announcement_url(id.as_str(), numero.as_str(), ano.as_str());
    let title = truncate_bytes(sumario.as_str(), TITLE_MAX_BYTES);
    let description = description_of(select_text_in(e, "apartado"), select_text_in(e, "subapartado"));
    let mut ext = string_of(ano.as_str());
    append_str(&mut ext, "/");
    append_str(&mut ext, numero.as_str());
    let day = day_of(e, fecha);
    Some(ScrapedItem {
        title: Some(title),
        description,
        url: Some(url),
        external_id: Some(ext),
        raw_data: None,
        published_at: Some(SimpleDateTime { date: day, hour: 0, minute: 0, second: 0 }),
    })
}

/// Reads the summary of a bulletin published on `fecha`; `keywords` are
/// expected trimmed and lower-cased.
pub fn parse_sumario(html: &str, keywords: &Vec<String>, fecha: SimpleDate) -> (r: Vec<ScrapedItem>)
    ensures
        items_view(r@) == sumario_spec(html@, strs(keywords@), fecha),
{
    let mut out: Vec<ScrapedItem> = Vec::new();
    let es = match select_in_document(html, "anunciosboletin > anunciosboletin") {
        Some(v) => v,
        None => {
            assert(items_view(out@) =~= Seq::<ItemView>::empty());
            return out;
        },
    };
    let ghost ev = fragments_view(es@);
    let ghost k = strs(keywords@);
    let mut i: usize = 0;
    proof {
        assert(ev.take(0) =~= Seq::<FragmentView>::empty());
        assert(items_view(out@) =~= Seq::<ItemView>::empty());
    }
    while i < es.len()
        invariant
            i <= es.len(),
            ev == fragments_view(es@),
            k == strs(keywords@),
            items_view(out@) == announcements(ev.take(i as int), k, fecha),
        decreases es.len() - i,
    {
        proof {
            assert(ev.take(i + 1).drop_last() =~= ev.take(i as int));
            assert(ev.take(i + 1).last() == es@[i as int]@);
        }
        match announcement_of(&es[i], keywords, fecha) {
            Some(it) => {
                let ghost before = out@;
                out.push(it);
                proof {
                    assert(items_view(out@) =~= items_view(before).push(out@.last()@));
                }
            },
            None => {},
        }
        i = i + 1;
    }
    proof {
        assert(ev.take(es.len() as int) =~= ev);
    }
    out
}


/// Every BORM announcement item has a title of at most 200 bytes, an
/// address and an id of the form `<year>/<number>`.
pub proof fn lemma_announcements_shape(es: Seq<FragmentView>, kws: Seq<Seq<char>>, fecha: SimpleDate, i: int)
    requires
        0 <= i < announcements(es, kws, fecha).len(),
    ensures
        announcements(es, kws, fecha)[i].title matches Some(t) && crate::text::bytes_of(t) <= TITLE_MAX_BYTES,
        announcements(es, kws, fecha)[i].url is Some,
        announcements(es, kws, fecha)[i].external_id is Some,
    decreases es.len(),
{
    if es.len() > 0 {
        let r = announcements(es.drop_last(), kws, fecha);
        if i < r.len() {
            lemma_announcements_shape(es.drop_last(), kws, fecha, i);
        } else {
            match announcement(es.last(), kws, fecha) {
                Some(it) => {
                    let sumario = field(es.last(), "sumario"@).unwrap_or(Seq::<char>::empty());
                    crate::text::lemma_truncated_fits(sumario, TITLE_MAX_BYTES as nat);
                },
                None => {},
            }
        }
    }
}

/// With keywords, an announcement that has an id, a number and a year is
/// kept exactly when some keyword occurs in its lower-cased summary, so the
/// case in which the summary is written does not matter: it adds one item
/// after those of the announcements before it, or none.
pub proof fn lemma_borm_keyword_in_lowercased_summary(
    es: Seq<FragmentView>,
    kws: Seq<Seq<char>>,
    fecha: SimpleDate,
    e: FragmentView,
)
    requires
        kws.len() > 0,
        field(e, "id"@) is Some,
        field(e, "numero"@) is Some,
        field(e, "ano"@) is Some,
    ensures
        announcements(es.push(e), kws, fecha).len() == announcements(es, kws, fecha).len() + (if exists|j: int|
            0 <= j < kws.len() && contains(
                lowercase(field(e, "sumario"@).unwrap_or(Seq::<char>::empty())),
                #[trigger] kws[j],
            ) {
            1int
        } else {
            0int
        }),
{
    assert(es.push(e).drop_last() =~= es);
}

} // verus!
