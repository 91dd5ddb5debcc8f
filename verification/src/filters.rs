//! Include/exclude filters applied to scraped items.
use vstd::prelude::*;
use crate::text::{
    append_str, contains, contains_chars, from_chars, join, lowercase, push_char, slice_chars, split,
    split_chars, string_of, strs, to_chars, to_lower, trim, trim_chars,
};

verus! {

/// Filters stored with a search: every required term must occur and no
/// excluded term may occur in the lower-cased text; `status` is kept for
/// portals that report one.
pub struct FilterConfig {
    pub required: Vec<String>,
    pub exclude: Vec<String>,
    pub status: Option<String>,
}

/// How one comma-separated, already trimmed piece of filter text is read:
/// `None` for an empty piece, otherwise whether it is a required term and
/// the lower-cased term.
pub open spec fn read_piece(part: Seq<char>) -> Option<(bool, Seq<char>)> {
    if part.len() == 0 {
        None
    } else if part[0] == '-' || part[0] == '!' {
        Some((false, lowercase(trim(part.drop_first()))))
    } else if part[0] == '+' {
        Some((true, lowercase(trim(part.drop_first()))))
    } else {
        Some((true, lowercase(part)))
    }
}

/// The terms of one kind (required or not) read from `pieces`, in order.
pub open spec fn terms_of(pieces: Seq<Seq<char>>, wanted: bool) -> Seq<Seq<char>>
    decreases pieces.len(),
{
    if pieces.len() == 0 {
        Seq::<Seq<char>>::empty()
    } else {
        let r = terms_of(pieces.drop_last(), wanted);
        match read_piece(trim(pieces.last())) {
            Some((inc, w)) => if inc == wanted { r.push(w) } else { r },
            None => r,
        }
    }
}

/// Required terms of the filter text `input`.
pub open spec fn parsed_required(input: Seq<char>) -> Seq<Seq<char>> {
    terms_of(split(input, ','), true)
}

/// Excluded terms of the filter text `input`.
pub open spec fn parsed_excluded(input: Seq<char>) -> Seq<Seq<char>> {
    terms_of(split(input, ','), false)
}

/// `term` with its final `o` turned into `a` or its final `a` into `o`
/// (the other grammatical gender of a Spanish word); `None` when it ends in
/// neither.
pub open spec fn other_gender(term: Seq<char>) -> Option<Seq<char>> {
    if term.len() > 0 && term.last() == 'o' {
        Some(term.drop_last().push('a'))
    } else if term.len() > 0 && term.last() == 'a' {
        Some(term.drop_last().push('o'))
    } else {
        None
    }
}

/// `term` occurs in `text`, as written or in its other gender, so that
/// `expirado` is found in `expirada`.
pub open spec fn term_occurs(text: Seq<char>, term: Seq<char>) -> bool {
    ||| contains(text, term)
    ||| (other_gender(term) matches Some(g) && contains(text, g))
}

/// `text` passes the filter given by `inc` and `exc`: in the lower-cased
/// text every required term occurs and no excluded term occurs.
pub open spec fn passes(inc: Seq<Seq<char>>, exc: Seq<Seq<char>>, text: Seq<char>) -> bool {
    &&& forall|i: int| 0 <= i < inc.len() ==> term_occurs(lowercase(text), #[trigger] inc[i])
    &&& forall|i: int| 0 <= i < exc.len() ==> !term_occurs(lowercase(text), #[trigger] exc[i])
}

/// Decides `term_occurs`.
fn occurs(hay: &Vec<char>, term: &Vec<char>) -> (r: bool)
    ensures
        r == term_occurs(hay@, term@),
{
    if contains_chars(hay, term) {
        return true;
    }
    let n = term.len();
    if n > 0 && (term[n - 1] == 'o' || term[n - 1] == 'a') {
        let mut g = slice_chars(term, 0, n - 1);
        if term[n - 1] == 'o' {
            g.push('a');
        } else {
            g.push('o');
        }
        proof {
            assert(term@.drop_last() =~= term@.subrange(0, n - 1));
        }
        contains_chars(hay, &g)
    } else {
        false
    }
}

/// `s` with `c` put in front.
pub open spec fn prefixed(c: char, s: Seq<char>) -> Seq<char> {
    seq![c] + s
}

/// The readable form of a filter: `+term` for each required term, then
/// `-term` for each excluded term, separated by ", "; a fixed text when
/// there are none.
pub open spec fn display_of(inc: Seq<Seq<char>>, exc: Seq<Seq<char>>) -> Seq<char> {
    if inc.len() == 0 && exc.len() == 0 {
        "(sin filtros)"@
    } else {
        join(
            inc.map_values(|w: Seq<char>| prefixed('+', w)) + exc.map_values(
                |w: Seq<char>| prefixed('-', w),
            ),
            ", "@,
        )
    }
}

/// The text an item is matched on: title, description and URL, each empty
/// when absent, separated by single spaces.
pub open spec fn item_text(
    title: Option<Seq<char>>,
    description: Option<Seq<char>>,
    url: Option<Seq<char>>,
) -> Seq<char> {
    title.unwrap_or(Seq::<char>::empty()) + seq![' '] + description.unwrap_or(
        Seq::<char>::empty(),
    ) + seq![' '] + url.unwrap_or(Seq::<char>::empty())
}

fn lower_chars(v: &Vec<char>) -> (r: String)
    ensures
        r@ == lowercase(v@),
{
    let s = from_chars(v);
    to_lower(s.as_str())
}

impl Default for FilterConfig {
    /// A filter with no term and no status, which every text passes.
    fn default() -> (r: FilterConfig)
        ensures
            r.required@.len() == 0,
            r.exclude@.len() == 0,
            r.status is None,
    {
        FilterConfig { required: Vec::new(), exclude: Vec::new(), status: None }
    }
}

/// Required terms of optional filter text (none when absent).
pub open spec fn optional_required(filters: Option<Seq<char>>) -> Seq<Seq<char>> {
    match filters {
        Some(f) => parsed_required(f),
        None => Seq::<Seq<char>>::empty(),
    }
}

/// Excluded terms of optional filter text (none when absent).
pub open spec fn optional_excluded(filters: Option<Seq<char>>) -> Seq<Seq<char>> {
    match filters {
        Some(f) => parsed_excluded(f),
        None => Seq::<Seq<char>>::empty(),
    }
}

impl FilterConfig {
    pub open spec fn required_terms(&self) -> Seq<Seq<char>> {
        strs(self.required@)
    }

    pub open spec fn excluded_terms(&self) -> Seq<Seq<char>> {
        strs(self.exclude@)
    }

    /// Reads filter text such as `+Baleares,+Mallorca,-Cáceres,-expirado`:
    /// pieces are separated by commas and trimmed; empty pieces are skipped;
    /// a leading `-` or `!` marks an excluded term, a leading `+` (or none)
    /// a required term; terms are trimmed after the mark and lower-cased.
    pub fn parse(input: &str) -> (r: Self)
        ensures
            r.required_terms() == parsed_required(input@),
            r.excluded_terms() == parsed_excluded(input@),
            r.status is None,
    {
        let v = to_chars(input);
        let pieces = split_chars(&v, ',');
        let ghost ps = split(input@, ',');
        let mut required: Vec<String> = Vec::new();
        let mut exclude: Vec<String> = Vec::new();
        let mut j: usize = 0;
        proof {
            assert(ps.take(0) =~= Seq::<Seq<char>>::empty());
        }
        while j < pieces.len()
            invariant
                j <= pieces.len(),
                pieces.len() == ps.len(),
                forall|k: int| 0 <= k < pieces.len() ==> #[trigger] pieces@[k]@ == ps[k],
                strs(required@) == terms_of(ps.take(j as int), true),
                strs(exclude@) == terms_of(ps.take(j as int), false),
            decreases pieces.len() - j,
        {
            let ghost before = ps.take(j as int);
            let ghost after = ps.take(j + 1);
            proof {
                assert(after.drop_last() =~= before);
                assert(after.last() == ps[j as int]);
            }
            let part = trim_chars(&pieces[j]);
            if part.len() > 0 {
                let c = part[0];
                if c == '-' || c == '!' || c == '+' {
                    let rest = slice_chars(&part, 1, part.len());
                    let term = trim_chars(&rest);
                    let lower = lower_chars(&term);
                    proof {
                        assert(rest@ =~= part@.drop_first());
                    }
                    if c == '+' {
                        required.push(lower);
                        proof {
                            assert(strs(required@) =~= terms_of(before, true).push(lower@));
                        }
                    } else {
                        exclude.push(lower);
                        proof {
                            assert(strs(exclude@) =~= terms_of(before, false).push(lower@));
                        }
                    }
                } else {
                    let lower = lower_chars(&part);
                    required.push(lower);
                    proof {
                        assert(strs(required@) =~= terms_of(before, true).push(lower@));
                    }
                }
            }
            j = j + 1;
        }
        proof {
            assert(ps.take(pieces.len() as int) =~= ps);
        }
        FilterConfig { required, exclude, status: None }
    }

    /// The filter in readable form, e.g. `+baleares, -cáceres`, or
    /// `(sin filtros)` when it has no terms.
    pub fn to_display_string(&self) -> (r: String)
        ensures
            r@ == display_of(self.required_terms(), self.excluded_terms()),
    {
        let ghost inc = self.required_terms();
        let ghost exc = self.excluded_terms();
        let ghost parts = inc.map_values(|w: Seq<char>| prefixed('+', w)) + exc.map_values(
            |w: Seq<char>| prefixed('-', w),
        );
        if self.required.len() == 0 && self.exclude.len() == 0 {
            return string_of("(sin filtros)");
        }
        let mut out = String::new();
        let mut k: usize = 0;
        while k < self.required.len()
            invariant
                k <= self.required.len(),
                parts.len() == inc.len() + exc.len(),
                inc == self.required_terms(),
                exc == self.excluded_terms(),
                parts == inc.map_values(|w: Seq<char>| prefixed('+', w)) + exc.map_values(
                    |w: Seq<char>| prefixed('-', w),
                ),
                out@ == join(parts.take(k as int), ", "@),
            decreases self.required.len() - k,
        {
            let ghost before = parts.take(k as int);
            let ghost after = parts.take(k + 1);
            proof {
                assert(after.drop_last() =~= before);
                assert(parts[k as int] == prefixed('+', inc[k as int]));
                assert(after.last() == parts[k as int]);
            }
            if k > 0 {
                append_str(&mut out, ", ");
            }
            push_char(&mut out, '+');
            append_str(&mut out, self.required[k].as_str());
            proof {
                if k == 0 {
                    assert(out@ =~= after[0]);
                } else {
                    assert(out@ =~= join(before, ", "@) + ", "@ + after.last());
                }
            }
            k = k + 1;
        }
        let nreq = self.required.len();
        let mut e: usize = 0;
        while e < self.exclude.len()
            invariant
                e <= self.exclude.len(),
                nreq == self.required.len(),
                parts.len() == inc.len() + exc.len(),
                inc == self.required_terms(),
                exc == self.excluded_terms(),
                parts == inc.map_values(|w: Seq<char>| prefixed('+', w)) + exc.map_values(
                    |w: Seq<char>| prefixed('-', w),
                ),
                out@ == join(parts.take(nreq + e), ", "@),
            decreases self.exclude.len() - e,
        {
            let ghost before = parts.take(nreq + e);
            let ghost after = parts.take(nreq + e + 1);
            proof {
                assert(after.drop_last() =~= before);
                assert(parts[nreq + e] == prefixed('-', exc[e as int]));
                assert(after.last() == parts[nreq + e]);
            }
            if nreq > 0 || e > 0 {
                append_str(&mut out, ", ");
            }
            push_char(&mut out, '-');
            append_str(&mut out, self.exclude[e].as_str());
            proof {
                if nreq + e == 0 {
                    assert(out@ =~= after[0]);
                } else {
                    assert(out@ =~= join(before, ", "@) + ", "@ + after.last());
                }
            }
            e = e + 1;
        }
        proof {
            assert(parts.take(nreq + self.exclude.len()) =~= parts);
        }
        out
    }

    /// Whether `text`, lower-cased, holds every required term and no
    /// excluded term, a term also being found in its other grammatical
    /// gender (final `o` and `a` swapped).
    pub fn matches(&self, text: &str) -> (r: bool)
        ensures
            r == passes(self.required_terms(), self.excluded_terms(), text@),
    {
        let lower = to_lower(text);
        let hay = to_chars(lower.as_str());
        let mut i: usize = 0;
        while i < self.required.len()
            invariant
                i <= self.required.len(),
                hay@ == lowercase(text@),
                forall|k: int| 0 <= k < i ==> term_occurs(hay@, #[trigger] self.required_terms()[k]),
            decreases self.required.len() - i,
        {
            let needle = to_chars(self.required[i].as_str());
            if !occurs(&hay, &needle) {
                assert(!term_occurs(lowercase(text@), self.required_terms()[i as int]));
                return false;
            }
            i = i + 1;
        }
        let mut e: usize = 0;
        while e < self.exclude.len()
            invariant
                e <= self.exclude.len(),
                hay@ == lowercase(text@),
                forall|k: int| 0 <= k < e ==> !term_occurs(hay@, #[trigger] self.excluded_terms()[k]),
            decreases self.exclude.len() - e,
        {
            let needle = to_chars(self.exclude[e].as_str());
            if occurs(&hay, &needle) {
                assert(term_occurs(lowercase(text@), self.excluded_terms()[e as int]));
                return false;
            }
            e = e + 1;
        }
        true
    }

    /// Whether an item passes the filter, judged on its title, description
    /// and URL joined by spaces.
    pub fn matches_item(&self, title: Option<&str>, description: Option<&str>, url: Option<&str>) -> (r: bool)
        ensures
            r == passes(
                self.required_terms(),
                self.excluded_terms(),
                item_text(
                    match title { Some(t) => Some(t@), None => None },
                    match description { Some(d) => Some(d@), None => None },
                    match url { Some(u) => Some(u@), None => None },
                ),
            ),
    {
        let mut combined = String::new();
        match title {
            Some(t) => append_str(&mut combined, t),
            None => {},
        }
        push_char(&mut combined, ' ');
        match description {
            Some(d) => append_str(&mut combined, d),
            None => {},
        }
        push_char(&mut combined, ' ');
        match url {
            Some(u) => append_str(&mut combined, u),
            None => {},
        }
        proof {
            assert(combined@ =~= item_text(
                match title { Some(t) => Some(t@), None => None },
                match description { Some(d) => Some(d@), None => None },
                match url { Some(u) => Some(u@), None => None },
            ));
        }
        self.matches(combined.as_str())
    }
}

/// The filter of a search: parsed from its filter text, or one that every
/// text passes when it has none.
pub fn filter_of(filters: Option<&str>) -> (r: FilterConfig)
    ensures
        r.required_terms() == optional_required(crate::text::opt_str_view(filters)),
        r.excluded_terms() == optional_excluded(crate::text::opt_str_view(filters)),
{
    match filters {
        Some(f) => FilterConfig::parse(f),
        None => {
            let d = FilterConfig::default();
            proof {
                assert(d.required_terms() =~= Seq::<Seq<char>>::empty());
                assert(d.excluded_terms() =~= Seq::<Seq<char>>::empty());
            }
            d
        },
    }
}


/// A filter with no term lets every text through.
pub proof fn lemma_empty_filter_passes(text: Seq<char>)
    ensures
        passes(Seq::<Seq<char>>::empty(), Seq::<Seq<char>>::empty(), text),
{
}

/// A text in which an excluded term occurs never passes the filter.
pub proof fn lemma_excluded_term_rejects(inc: Seq<Seq<char>>, exc: Seq<Seq<char>>, text: Seq<char>, i: int)
    requires
        0 <= i < exc.len(),
        term_occurs(lowercase(text), exc[i]),
    ensures
        !passes(inc, exc, text),
{
}

/// A text that passes the filter holds every required term.
pub proof fn lemma_passing_holds_required(inc: Seq<Seq<char>>, exc: Seq<Seq<char>>, text: Seq<char>, i: int)
    requires
        passes(inc, exc, text),
        0 <= i < inc.len(),
    ensures
        term_occurs(lowercase(text), inc[i]),
{
}

} // verus!
