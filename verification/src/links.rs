//! Web addresses, as the `url` crate reads and joins them.
use vstd::prelude::*;

verus! {

/// What joining `href` onto `base` gives: `None` when `base` is not an
/// absolute URL, `Some(None)` when `href` cannot be joined onto it, and
/// otherwise the joined address as `Url::join` and `Url::to_string` write
/// it.
pub uninterp spec fn joined_url(base: Seq<char>, href: Seq<char>) -> Option<Option<Seq<char>>>;

/// The host of an address: `None` when it is not an absolute URL,
/// `Some(None)` when it has no host, else the host as `Url::host_str`
/// gives it.
pub uninterp spec fn url_host(url: Seq<char>) -> Option<Option<Seq<char>>>;

/// Calls `Url::parse` on `base`, then `Url::join` with `href`; the result
/// is the named `joined_url`.
#[verifier::external_body]
pub fn join_url(base: &str, href: &str) -> (r: Option<Option<String>>)
    ensures
        match r {
            None => joined_url(base@, href@) is None,
            Some(None) => joined_url(base@, href@) == Some(None::<Seq<char>>),
            Some(Some(u)) => joined_url(base@, href@) == Some(Some(u@)),
        },
{
    let b = url::Url::parse(base).ok()?;
    Some(b.join(href).ok().map(|u| u.to_string()))
}

/// Calls `Url::parse` and `Url::host_str`; the result is the named
/// `url_host`.
#[verifier::external_body]
pub fn host_of(url: &str) -> (r: Option<Option<String>>)
    ensures
        match r {
            None => url_host(url@) is None,
            Some(None) => url_host(url@) == Some(None::<Seq<char>>),
            Some(Some(h)) => url_host(url@) == Some(Some(h@)),
        },
{
    let u = url::Url::parse(url).ok()?;
    Some(u.host_str().map(String::from))
}

} // verus!
