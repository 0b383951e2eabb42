//! Addresses on the web. An address is a `url::Url`; what the contracts know
//! of one is its text, as `Url::as_str` gives it.

use vstd::prelude::*;
use url::Url;
use crate::text::{ends_with, ends_with_char};

verus! {

#[verifier::external_type_specification]
#[verifier::external_body]
pub struct ExUrl(url::Url);

/// `Url::clone` copies the address.
pub assume_specification[ <url::Url as Clone>::clone ](u: &url::Url) -> (r: url::Url)
    ensures
        r == *u,
;

/// The text of an address: what `Url::as_str` gives for it.
pub uninterp spec fn url_text(u: Url) -> Seq<char>;

/// The path of the address with the text `url`, as `Url::path` gives it.
pub uninterp spec fn url_path(url: Seq<char>) -> Seq<char>;

/// The text of the address with the text `url` after `Url::set_path` with `path`.
pub uninterp spec fn url_with_path(url: Seq<char>, path: Seq<char>) -> Seq<char>;

/// The text of the address that `Url::join` makes of the address with the
/// text `base` and the reference `input`; `None` where it makes none.
pub uninterp spec fn url_joined(base: Seq<char>, input: Seq<char>) -> Option<Seq<char>>;

/// Calls `Url::path` and copies the path.
#[verifier::external_body]
pub(crate) fn address_path(u: &Url) -> (s: String)
    ensures
        s@ == url_path(url_text(*u)),
{
    u.path().to_string()
}

/// Calls `Url::set_path`, which puts the path, percent-encoded where it has
/// to be, in place of the address's own.
#[verifier::external_body]
pub(crate) fn address_set_path(u: &mut Url, path: &str)
    ensures
        url_text(*final(u)) == url_with_path(url_text(*old(u)), path@),
{
    u.set_path(path)
}

/// Calls `Url::join`, which reads the reference against the address as its base.
#[verifier::external_body]
pub(crate) fn address_join(u: &Url, input: &str) -> (r: Option<Url>)
    ensures
        match r {
            Some(j) => url_joined(url_text(*u), input@) == Some(url_text(j)),
            None => url_joined(url_text(*u), input@) is None,
        },
{
    match u.join(input) {
        Ok(j) => Some(j),
        Err(_) => None,
    }
}

/// The text of the address with the text `url` once its path ends in a
/// slash: the address itself where it does already, else the address with
/// a slash added to its path.
pub open spec fn with_trailing_slash(url: Seq<char>) -> Seq<char> {
    if ends_with_char(url_path(url), '/') {
        url
    } else {
        url_with_path(url, url_path(url).push('/'))
    }
}

/// Makes the path of an address end in a slash, so that a reference joined
/// to it keeps the whole path as its prefix.
pub fn ensure_trailing_slash(u: Url) -> (r: Url)
    ensures
        url_text(r) == with_trailing_slash(url_text(u)),
{
    let mut u = u;
    let mut path = address_path(&u);
    if !ends_with(path.as_str(), '/') {
        path.append("/");
        proof {
            reveal_strlit("/");
            assert(path@ =~= url_path(url_text(u)).push('/'));
        }
        address_set_path(&mut u, path.as_str());
    }
    u
}

/// The text of the address of the endpoint `path` of a gateway or provider
/// at the address with the text `base`.
pub open spec fn endpoint_text(base: Seq<char>, path: Seq<char>) -> Option<Seq<char>> {
    url_joined(with_trailing_slash(base), path)
}

/// The address of the endpoint `path` under `base`, whose path is made to
/// end in a slash first.
pub fn endpoint(base: &Url, path: &str) -> (r: Option<Url>)
    ensures
        match r {
            Some(u) => endpoint_text(url_text(*base), path@) == Some(url_text(u)),
            None => endpoint_text(url_text(*base), path@) is None,
        },
{
    let base = ensure_trailing_slash(base.clone());
    address_join(&base, path)
}

} // verus!
