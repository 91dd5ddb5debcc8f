//! The state procurement portal (contrataciondelestado.es), read through a
//! browser: what is decided around the browser session.
use vstd::prelude::*;
use crate::dates::{from_ymd, midnight, valid_date, SimpleDate, SimpleDateTime};
use crate::num::{parse_i32, parse_u32, parsed_i32, parsed_u32};
use crate::scraper::{items_view, keyword_terms, ItemView, ScrapedItem};
use crate::text::{
    append_str, find_chars, find_first_of, first_of, first_occurrence, from_chars, push_char,
    opt_view, replace_all, replaced, slice_chars, split, split_chars, string_of, to_chars, trim, trim_chars,
};

verus! {

/// Start of the address of a tender's detail page; the tender id follows.
pub const DETAIL_URL_BASE: &'static str = "https://contrataciondelestado.es/wps/poc?uri=deeplink:detalle_licitacion&idEvl=";

/// The portal's search page.
pub const BASE_URL: &'static str = "https://contrataciondelestado.es/wps/portal/plataforma/buscador/";

/// The date of a result row, written `dd/mm/yyyy`: three `/`-separated
/// parts read as day, month and year; midnight of that day when it exists.
pub open spec fn portal_date(s: Seq<char>) -> Option<SimpleDateTime> {
    let parts = split(s, '/');
    if s.len() == 0 || parts.len() != 3 {
        None
    } else {
        match (parsed_u32(parts[0]), parsed_u32(parts[1]), parsed_i32(parts[2])) {
            (Some(d), Some(m), Some(y)) => if valid_date(y, m, d) {
                Some(midnight(SimpleDate { year: y as i32, month: m as u32, day: d as u32 }))
            } else {
                None
            },
            _ => None,
        }
    }
}

/// Reads a result row's date (`dd/mm/yyyy`); `None` when it is empty,
/// malformed or not a calendar day.
pub fn parse_date(date_str: &str) -> (r: Option<SimpleDateTime>)
    ensures
        r == portal_date(date_str@),
{
    let v = to_chars(date_str);
    if v.len() == 0 {
        return None;
    }
    let parts = split_chars(&v, '/');
    if parts.len() != 3 {
        return None;
    }
    let ds = from_chars(&parts[0]);
    let ms = from_chars(&parts[1]);
    let ys = from_chars(&parts[2]);
    let day = parse_u32(ds.as_str());
    let month = parse_u32(ms.as_str());
    let year = parse_i32(ys.as_str());
    match (day, month, year) {
        (Some(d), Some(m), Some(y)) => match from_ymd(y, m, d) {
            Some(date) => Some(SimpleDateTime { date, hour: 0, minute: 0, second: 0 }),
            None => None,
        },
        _ => None,
    }
}

/// The id carried by an `onclick` handler: the text after `idEvl=` up to
/// the first `&`, `'`, `"`, `)` or `;` (or the end); failing that, the text
/// between the first two single quotes.
pub open spec fn onclick_id(s: Seq<char>) -> Option<Seq<char>> {
    match first_occurrence(s, "idEvl="@) {
        Some(p) => {
            let start = p + 6;
            let rest = s.subrange(start, s.len() as int);
            let end = match first_of(rest, seq!['&', '\'', '"', ')', ';']) {
                Some(k) => start + k,
                None => s.len() as int,
            };
            Some(s.subrange(start, end))
        },
        None => match first_occurrence(s, seq!['\'']) {
            Some(a) => {
                let rest = s.subrange(a + 1, s.len() as int);
                match first_occurrence(rest, seq!['\'']) {
                    Some(b) => Some(rest.subrange(0, b)),
                    None => None,
                }
            },
            None => None,
        },
    }
}

/// Extracts a tender id from an `onclick` handler (see `onclick_id`).
pub fn extract_id_from_onclick(onclick: &str) -> (r: Option<String>)
    ensures
        match r {
            Some(s) => onclick_id(onclick@) == Some(s@),
            None => onclick_id(onclick@) is None,
        },
{
    let v = to_chars(onclick);
    let marker = to_chars("idEvl=");
    proof {
        reveal_strlit("idEvl=");
        assert(marker@ =~= "idEvl="@);
        assert(v@ =~= onclick@);
    }
    match find_chars(&v, &marker) {
        Some(p) => {
            assert(first_occurrence(onclick@, "idEvl="@) == Some(p as int));
            let start = p + 6;
            let rest = slice_chars(&v, start, v.len());
            let stops = vec!['&', '\'', '"', ')', ';'];
            let end = match find_first_of(&rest, &stops) {
                Some(k) => start + k,
                None => v.len(),
            };
            let id = slice_chars(&v, start, end);
            proof {
                assert(stops@ =~= seq!['&', '\'', '"', ')', ';']);
                assert(rest@ =~= onclick@.subrange(start as int, onclick@.len() as int));
            }
            let out = from_chars(&id);
            assert(out@ =~= onclick@.subrange(start as int, end as int));
            Some(out)
        },
        None => {
            assert(first_occurrence(onclick@, "idEvl="@) is None);
            let quote = vec!['\''];
            proof {
                assert(quote@ =~= seq!['\'']);
            }
            match find_chars(&v, &quote) {
                Some(a) => {
                    let rest = slice_chars(&v, a + 1, v.len());
                    match find_chars(&rest, &quote) {
                        Some(b) => {
                            let id = slice_chars(&rest, 0, b);
                            Some(from_chars(&id))
                        },
                        None => None,
                    }
                },
                None => None,
            }
        },
    }
}

/// The address of a tender's detail page.
pub fn detail_url(id: &str) -> (r: String)
    ensures
        r@ == DETAIL_URL_BASE@ + id@,
{
    let mut s = string_of(DETAIL_URL_BASE);
    append_str(&mut s, id);
    s
}

/// Script that finds the id (or name) of the search box.
pub const FIND_INPUT_JS: &'static str = "\n        (function() {\n            const inputs = document.querySelectorAll('input[type=\"text\"]');\n            for (let input of inputs) {\n                const id = input.id || '';\n                const title = input.title || '';\n                const placeholder = input.placeholder || '';\n                if (id.includes('texto') || title.includes('buscar') || placeholder.includes('buscar')) {\n                    return input.id || input.name || '';\n                }\n            }\n            // Fallback: primer input de texto visible\n            for (let input of inputs) {\n                if (input.offsetParent !== null) {\n                    return input.id || input.name || '';\n                }\n            }\n            return '';\n        })()\n    ";

/// Script that presses the search button (or submits the form).
pub const CLICK_SEARCH_JS: &'static str = "\n        (function() {\n            const buttons = document.querySelectorAll('input[type=\"submit\"], button, input[type=\"button\"]');\n            for (let btn of buttons) {\n                const text = (btn.value || btn.textContent || '').toLowerCase();\n                if (text.includes('buscar') || text.includes('search')) {\n                    btn.click();\n                    return true;\n                }\n            }\n            const form = document.querySelector('form');\n            if (form) {\n                form.submit();\n                return true;\n            }\n            return false;\n        })()\n    ";

/// Script that waits up to 25 seconds for the result table.
pub const WAIT_RESULTS_JS: &'static str = "\n        new Promise((resolve) => {\n            const check = () => {\n                const table = document.querySelector('table.tabla-detalle');\n                const rows = document.querySelectorAll('table tr');\n                if (table && rows.length > 1) {\n                    resolve(true);\n                } else {\n                    setTimeout(check, 500);\n                }\n            };\n            check();\n            setTimeout(() => resolve(false), 25000);\n        })\n    ";

/// Script that reads the result rows as a JSON array.
pub const EXTRACT_ROWS_JS: &'static str = "\n        (function() {\n            const items = [];\n            const rows = document.querySelectorAll('table.tabla-detalle tbody tr, table tr');\n\n            for (let row of rows) {\n                const cells = row.querySelectorAll('td');\n                if (cells.length < 2) continue;\n\n                const titleEl = cells[1].querySelector('a[id*=\"textColumnaTituloResultado\"], a span.commandLink');\n                const title = titleEl ? titleEl.textContent.trim() : '';\n\n                const descEl = cells[1].querySelector('span[id*=\"textColumnaExpedienteResultado\"], span.outputText');\n                const description = descEl ? descEl.textContent.trim() : '';\n\n                const dateEl = cells[2] ? cells[2].querySelector('span[id*=\"textColumnaDateResultado\"]') : null;\n                const dateStr = dateEl ? dateEl.textContent.trim() : '';\n\n                const detailLink = cells[1].querySelector('a[href*=\"detalle_licitacion\"]');\n                let externalId = '';\n                let detailUrl = '';\n\n                if (detailLink) {\n                    const href = detailLink.getAttribute('href') || '';\n                    detailUrl = href;\n                    const match = href.match(/idEvl=([^&]+)/);\n                    if (match) {\n                        externalId = match[1];\n                    }\n                }\n\n                if (title || description || externalId) {\n                    items.push({\n                        title: title,\n                        description: description,\n                        date: dateStr,\n                        external_id: externalId,\n                        detail_url: detailUrl\n                    });\n                }\n            }\n\n            return JSON.stringify(items);\n        })()\n    ";

/// Start of the script that fills the search box; the box id follows.
pub const FILL_JS_HEAD: &'static str = "\n        (function() {\n            let input = document.getElementById('";

/// Middle of the fill script; the search text follows.
pub const FILL_JS_MIDDLE: &'static str = "') || \n                        document.querySelector('input[type=\"text\"]') ||\n                        document.querySelector('input[name*=\"texto\"]');\n            if (input) {\n                input.value = '";

/// End of the fill script.
pub const FILL_JS_TAIL: &'static str = "';\n                input.dispatchEvent(new Event('input', { bubbles: true }));\n                input.dispatchEvent(new Event('change', { bubbles: true }));\n                return true;\n            }\n            return false;\n        })()\n        ";

/// The search text put in the portal's search box when a search has no
/// keyword.
pub const DEFAULT_KEYWORD: &'static str = "prevención de riesgos";

/// The pieces of a keyword list, trimmed, empty ones left out (case kept).
pub open spec fn trimmed_terms(pieces: Seq<Seq<char>>) -> Seq<Seq<char>>
    decreases pieces.len(),
{
    if pieces.len() == 0 {
        Seq::<Seq<char>>::empty()
    } else {
        let r = trimmed_terms(pieces.drop_last());
        if trim(pieces.last()).len() > 0 { r.push(trim(pieces.last())) } else { r }
    }
}

/// The text searched on the portal: the first keyword of the search, or
/// `DEFAULT_KEYWORD` when it has none.
pub open spec fn search_keyword(keywords: Option<Seq<char>>) -> Seq<char> {
    let ts = trimmed_terms(split(keywords.unwrap_or(Seq::<char>::empty()), ','));
    if ts.len() > 0 { ts[0] } else { DEFAULT_KEYWORD@ }
}

/// Chooses the text searched on the portal (see `search_keyword`).
pub fn portal_keyword(keywords: Option<&str>) -> (r: String)
    ensures
        r@ == search_keyword(crate::text::opt_str_view(keywords)),
{
    let v = match keywords {
        Some(k) => to_chars(k),
        None => Vec::new(),
    };
    let ghost src = match keywords {
        Some(k) => k@,
        None => Seq::<char>::empty(),
    };
    let pieces = split_chars(&v, ',');
    let ghost ps = split(src, ',');
    let mut i: usize = 0;
    proof {
        assert(ps.take(0) =~= Seq::<Seq<char>>::empty());
    }
    while i < pieces.len()
        invariant
            i <= pieces.len(),
            pieces.len() == ps.len(),
            ps == split(src, ','),
            src == match keywords { Some(k) => k@, None => Seq::<char>::empty() },
            forall|j: int| 0 <= j < pieces.len() ==> #[trigger] pieces@[j]@ == ps[j],
            trimmed_terms(ps.take(i as int)).len() == 0,
        decreases pieces.len() - i,
    {
        proof {
            assert(ps.take(i + 1).drop_last() =~= ps.take(i as int));
        }
        let t = trim_chars(&pieces[i]);
        if t.len() > 0 {
            proof {
                lemma_first_term(ps, i as int);
            }
            return from_chars(&t);
        }
        i = i + 1;
    }
    proof {
        assert(ps.take(pieces.len() as int) =~= ps);
    }
    string_of(DEFAULT_KEYWORD)
}

/// When the first `i` pieces give no term and piece `i` is not blank, it is
/// the first term.
proof fn lemma_first_term(ps: Seq<Seq<char>>, i: int)
    requires
        0 <= i < ps.len(),
        trimmed_terms(ps.take(i)).len() == 0,
        trim(ps[i]).len() > 0,
    ensures
        trimmed_terms(ps).len() > 0,
        trimmed_terms(ps)[0] == trim(ps[i]),
    decreases ps.len(),
{
    assert(ps.take(i + 1).drop_last() =~= ps.take(i));
    assert(trimmed_terms(ps.take(i + 1)) =~= seq![trim(ps[i])]);
    lemma_terms_prefix(ps, i + 1);
    assert(trimmed_terms(ps.take(i + 1))[0] == trim(ps[i]));
}

/// The terms of a prefix of the pieces come first among the terms of all.
proof fn lemma_terms_prefix(ps: Seq<Seq<char>>, n: int)
    requires
        0 <= n <= ps.len(),
    ensures
        trimmed_terms(ps.take(n)).len() <= trimmed_terms(ps).len(),
        forall|j: int| 0 <= j < trimmed_terms(ps.take(n)).len() ==> trimmed_terms(ps)[j] == #[trigger] trimmed_terms(ps.take(n))[j],
    decreases ps.len() - n,
{
    if n < ps.len() {
        lemma_terms_prefix(ps, n + 1);
        assert(ps.take(n + 1).drop_last() =~= ps.take(n));
        let a = trimmed_terms(ps.take(n));
        let b = trimmed_terms(ps.take(n + 1));
        assert(ps.take(n + 1).last() == ps[n]);
        assert forall|j: int| 0 <= j < a.len() implies trimmed_terms(ps)[j] == #[trigger] a[j] by {
            assert(b[j] == a[j]);
        }
    } else {
        assert(ps.take(n) =~= ps);
    }
}

/// Text put between single quotes in a script: each `'` becomes `\'`.
pub open spec fn js_quoted(s: Seq<char>) -> Seq<char> {
    replaced(s, "'"@, "\\'"@)
}

/// The script that writes `keyword` into the search box `input_id` and
/// signals the change.
pub open spec fn fill_script_spec(input_id: Seq<char>, keyword: Seq<char>) -> Seq<char> {
    FILL_JS_HEAD@ + js_quoted(input_id) + FILL_JS_MIDDLE@ + js_quoted(keyword) + FILL_JS_TAIL@
}

/// Builds the script that fills the search box.
pub fn fill_script(input_id: &str, keyword: &str) -> (r: String)
    ensures
        r@ == fill_script_spec(input_id@, keyword@),
{
    proof {
        reveal_strlit("'");
    }
    let id = replace_all(input_id, "'", "\\'");
    let kw = replace_all(keyword, "'", "\\'");
    let mut s = string_of(FILL_JS_HEAD);
    append_str(&mut s, id.as_str());
    append_str(&mut s, FILL_JS_MIDDLE);
    append_str(&mut s, kw.as_str());
    append_str(&mut s, FILL_JS_TAIL);
    s
}

/// A result row read by `EXTRACT_ROWS_JS`: its string fields, and the row
/// as JSON text.
pub struct PortalRow {
    pub title: Option<String>,
    pub description: Option<String>,
    pub date: Option<String>,
    pub external_id: Option<String>,
    pub raw: String,
}

/// What a result row holds.
pub struct RowView {
    pub title: Option<Seq<char>>,
    pub description: Option<Seq<char>>,
    pub date: Option<Seq<char>>,
    pub external_id: Option<Seq<char>>,
    pub raw: Seq<char>,
}

impl View for PortalRow {
    type V = RowView;

    open spec fn view(&self) -> RowView {
        RowView {
            title: opt_view(self.title),
            description: opt_view(self.description),
            date: opt_view(self.date),
            external_id: opt_view(self.external_id),
            raw: self.raw@,
        }
    }
}

pub open spec fn rows_view(v: Seq<PortalRow>) -> Seq<RowView> {
    v.map_values(|r: PortalRow| r@)
}

/// The rows of a JSON array as `serde_json` reads it (no row when the text
/// is not a JSON array): each field present only when it is a JSON string,
/// and each row written back by `Value::to_string`.
pub uninterp spec fn json_rows(json: Seq<char>) -> Seq<RowView>;

/// Calls `serde_json::from_str` into a list of values (an empty list when
/// that fails) and reads the string fields `title`, `description`, `date`
/// and `external_id` of each; the result is the named `json_rows`.
#[verifier::external_body]
pub fn parse_rows(json: &str) -> (r: Vec<PortalRow>)
    ensures
        rows_view(r@) == json_rows(json@),
{
    let values: Vec<serde_json::Value> = serde_json::from_str(json).unwrap_or_default();
    let text = |v: &serde_json::Value, k: &str| v.get(k).and_then(|x| x.as_str()).map(String::from);
    values.iter().map(|v| PortalRow {
        title: text(v, "title"),
        description: text(v, "description"),
        date: text(v, "date"),
        external_id: text(v, "external_id"),
        raw: v.to_string(),
    }).collect()
}

/// The item of a result row: the detail page is known when the row has a
/// non-empty id, and the date reads as `dd/mm/yyyy`.
pub open spec fn row_item(r: RowView) -> ItemView {
    ItemView {
        title: r.title,
        description: r.description,
        url: match r.external_id {
            Some(id) => if id.len() > 0 { Some(DETAIL_URL_BASE@ + id) } else { None },
            None => None,
        },
        external_id: r.external_id,
        raw_data: Some(r.raw),
        published_at: portal_date(r.date.unwrap_or(Seq::<char>::empty())),
    }
}

/// Turns result rows into items, one per row, in order.
pub fn row_items(rows: &Vec<PortalRow>) -> (r: Vec<ScrapedItem>)
    ensures
        items_view(r@) == rows_view(rows@).map_values(|x: RowView| row_item(x)),
{
    let mut out: Vec<ScrapedItem> = Vec::new();
    let mut i: usize = 0;
    while i < rows.len()
        invariant
            i <= rows.len(),
            items_view(out@) == rows_view(rows@).take(i as int).map_values(|x: RowView| row_item(x)),
        decreases rows.len() - i,
    {
        let row = &rows[i];
        let url = match &row.external_id {
            Some(id) => if id.unicode_len() == 0 { None } else { Some(detail_url(id.as_str())) },
            None => None,
        };
        let published_at = match &row.date {
            Some(d) => parse_date(d.as_str()),
            None => parse_date(""),
        };
        proof {
            reveal_strlit("");
        }
        let ghost before = out@;
        out.push(ScrapedItem {
            title: crate::text::clone_opt(&row.title),
            description: crate::text::clone_opt(&row.description),
            url,
            external_id: crate::text::clone_opt(&row.external_id),
            raw_data: Some(row.raw.clone()),
            published_at,
        });
        proof {
            assert(rows_view(rows@).take(i + 1) =~= rows_view(rows@).take(i as int).push(row@));
            assert(items_view(out@) =~= items_view(before).push(row_item(row@)));
        }
        i = i + 1;
    }
    proof {
        assert(rows_view(rows@).take(rows.len() as int) =~= rows_view(rows@));
    }
    out
}

/// Turns the JSON written by `EXTRACT_ROWS_JS` into items.
pub fn portal_items(json: &str) -> (r: Vec<ScrapedItem>)
    ensures
        items_view(r@) == json_rows(json@).map_values(|x: RowView| row_item(x)),
{
    let rows = parse_rows(json);
    row_items(&rows)
}

} // verus!
