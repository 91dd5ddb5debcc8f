//! SQL statements whose text depends on the request.
use vstd::prelude::*;
use crate::text::{append_str, join, string_of};

verus! {

/// Which fields of a search an update sets (each present field is bound,
/// in this order, before the id and the owner).
pub struct SearchUpdate {
    pub name: bool,
    pub url: bool,
    pub search_type: bool,
    pub keywords: bool,
    pub css_selector: bool,
    pub notify_mode: bool,
    pub filters: bool,
}

/// The clause of a field when it is set.
pub open spec fn clause(set: bool, text: Seq<char>) -> Seq<char> {
    if set { text } else { Seq::<char>::empty() }
}

/// The update statement of a search: the set fields in the order of
/// `SearchUpdate`, restricted to the search's id and owner; none when no
/// field is set.
pub open spec fn update_sql(u: SearchUpdate) -> Option<Seq<char>> {
    if !(u.name || u.url || u.search_type || u.keywords || u.css_selector || u.notify_mode || u.filters) {
        None
    } else {
        Some("UPDATE search_configs SET updated_at = CURRENT_TIMESTAMP"@
            + clause(u.name, ", name = ?"@)
            + clause(u.url, ", url = ?"@)
            + clause(u.search_type, ", search_type = ?"@)
            + clause(u.keywords, ", keywords = ?"@)
            + clause(u.css_selector, ", css_selector = ?"@)
            + clause(u.notify_mode, ", notify_mode = ?"@)
            + clause(u.filters, ", filters = ?"@)
            + " WHERE id = ? AND telegram_id = ?"@)
    }
}

fn push_clause(s: &mut String, set: bool, text: &str)
    ensures
        final(s)@ == old(s)@ + clause(set, text@),
{
    if set {
        append_str(s, text);
    } else {
        assert(old(s)@ + Seq::<char>::empty() =~= old(s)@);
    }
}

/// Writes the update statement of a search (see `update_sql`).
pub fn update_statement(u: &SearchUpdate) -> (r: Option<String>)
    ensures
        match r {
            Some(s) => update_sql(*u) == Some(s@),
            None => update_sql(*u) is None,
        },
{
    if !(u.name || u.url || u.search_type || u.keywords || u.css_selector || u.notify_mode || u.filters) {
        return None;
    }
    let mut s = string_of("UPDATE search_configs SET updated_at = CURRENT_TIMESTAMP");
    push_clause(&mut s, u.name, ", name = ?");
    push_clause(&mut s, u.url, ", url = ?");
    push_clause(&mut s, u.search_type, ", search_type = ?");
    push_clause(&mut s, u.keywords, ", keywords = ?");
    push_clause(&mut s, u.css_selector, ", css_selector = ?");
    push_clause(&mut s, u.notify_mode, ", notify_mode = ?");
    push_clause(&mut s, u.filters, ", filters = ?");
    append_str(&mut s, " WHERE id = ? AND telegram_id = ?");
    Some(s)
}

/// `n` placeholders separated by commas.
pub open spec fn placeholders(n: nat) -> Seq<char> {
    join(Seq::new(n, |i: int| "?"@), ","@)
}

/// The statement marking `n` results as notified; none when there is none.
pub open spec fn mark_notified_sql(n: nat) -> Option<Seq<char>> {
    if n == 0 {
        None
    } else {
        Some("UPDATE search_results SET notified = TRUE WHERE id IN ("@ + placeholders(n) + ")"@)
    }
}

/// Writes the statement marking `n` results as notified.
pub fn mark_notified_statement(n: usize) -> (r: Option<String>)
    ensures
        match r {
            Some(s) => mark_notified_sql(n as nat) == Some(s@),
            None => mark_notified_sql(n as nat) is None,
        },
{
    if n == 0 {
        return None;
    }
    let mut s = string_of("UPDATE search_results SET notified = TRUE WHERE id IN (");
    let ghost head = s@;
    let mut i: usize = 0;
    proof {
        assert(Seq::new(0, |j: int| "?"@) =~= Seq::<Seq<char>>::empty());
        assert(s@ =~= head + placeholders(0));
    }
    while i < n
        invariant
            i <= n,
            s@ == head + placeholders(i as nat),
        decreases n - i,
    {
        if i > 0 {
            append_str(&mut s, ",");
        }
        append_str(&mut s, "?");
        proof {
            let a = Seq::new(i as nat, |j: int| "?"@);
            let b = Seq::new((i + 1) as nat, |j: int| "?"@);
            assert(b.drop_last() =~= a);
            assert(b.last() == "?"@);
            if i == 0 {
                assert(s@ =~= head + placeholders(1));
            } else {
                assert(s@ =~= head + placeholders((i + 1) as nat));
            }
        }
        i = i + 1;
    }
    append_str(&mut s, ")");
    Some(s)
}

} // verus!
