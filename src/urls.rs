//! URL handling: the base URL of a playlist, resolution of relative
//! references against it, and the referer sent with playlist requests.

use vstd::prelude::*;
use crate::error::FetchError;

verus! {

/// The serialization of `s` parsed as an absolute URL, if it parses.
pub uninterp spec fn url_parsed(s: Seq<char>) -> Option<Seq<char>>;

/// The serialization of `reference` resolved against the absolute URL `base`,
/// if both steps succeed.
pub uninterp spec fn url_joined(base: Seq<char>, reference: Seq<char>) -> Option<Seq<char>>;

/// The path component of `s` parsed as an absolute URL, if it parses.
pub uninterp spec fn url_path_of(s: Seq<char>) -> Option<Seq<char>>;

/// The serialization of `s` parsed as an absolute URL, with its query set to
/// `query` and its path replaced by `path`, if it parses.
pub uninterp spec fn url_with_path(s: Seq<char>, path: Seq<char>, query: Option<Seq<char>>) -> Option<Seq<char>>;

/// The host of `s` parsed as an absolute URL (a domain name or an address), if
/// it parses and has one.
pub uninterp spec fn url_host_of(s: Seq<char>) -> Option<Seq<char>>;

/// The view of an optional string.
pub open spec fn opt_view(o: Option<String>) -> Option<Seq<char>> {
    match o {
        Some(s) => Some(s@),
        None => None,
    }
}

/// The view of an optional string slice.
pub open spec fn opt_str_view(o: Option<&str>) -> Option<Seq<char>> {
    match o {
        Some(s) => Some(s@),
        None => None,
    }
}

/// Relies on `url::Url::parse` and `Url`'s serialization.
#[verifier::external_body]
fn parse_url(s: &str) -> (r: Option<String>)
    ensures
        opt_view(r) == url_parsed(s@),
{
    url::Url::parse(s).ok().map(|u| u.to_string())
}

/// Relies on `url::Url::parse` of the base and `url::Url::join`.
#[verifier::external_body]
fn join_url(base: &str, reference: &str) -> (r: Option<String>)
    ensures
        opt_view(r) == url_joined(base@, reference@),
{
    url::Url::parse(base).and_then(|b| b.join(reference)).ok().map(|u| u.to_string())
}

/// Relies on `url::Url::parse` and `url::Url::path`.
#[verifier::external_body]
fn url_path(s: &str) -> (r: Option<String>)
    ensures
        opt_view(r) == url_path_of(s@),
{
    url::Url::parse(s).ok().map(|u| u.path().to_string())
}

/// Relies on `url::Url::parse`, `url::Url::set_query` and `url::Url::set_path`.
#[verifier::external_body]
fn replace_path(s: &str, path: &str, query: Option<&str>) -> (r: Option<String>)
    ensures
        opt_view(r) == url_with_path(s@, path@, opt_str_view(query)),
{
    url::Url::parse(s).ok().map(|mut u| {
        u.set_query(query);
        u.set_path(path);
        u.to_string()
    })
}

/// Relies on `url::Url::parse` and `url::Url::host_str`.
#[verifier::external_body]
fn url_host(s: &str) -> (r: Option<String>)
    ensures
        opt_view(r) == url_host_of(s@),
{
    url::Url::parse(s).ok().and_then(|u| u.host_str().map(|h| h.to_string()))
}

/// Whether `s` starts with `http` (so that it names a remote resource).
pub open spec fn is_remote(s: Seq<char>) -> bool {
    s.len() >= 4 && s[0] == 'h' && s[1] == 't' && s[2] == 't' && s[3] == 'p'
}

/// The index of the last `c` in `s`, or -1 when there is none.
pub open spec fn last_index_of(s: Seq<char>, c: char) -> int
    decreases s.len(),
{
    if s.len() == 0 {
        -1
    } else if s.last() == c {
        s.len() - 1
    } else {
        last_index_of(s.drop_last(), c)
    }
}

/// The base URL of a playlist read from `url`: for a remote URL, the URL with
/// its query and the final segment of its path removed (its path cut after
/// the last `/`, and no query).
pub open spec fn base_url_spec(url: Seq<char>) -> Result<Option<Seq<char>>, FetchError> {
    if !is_remote(url) {
        Ok(None)
    } else {
        match url_path_of(url) {
            None => Err(FetchError::InvalidUrl),
            Some(path) => {
                let k = last_index_of(path, '/');
                if k < 0 {
                    Ok(None)
                } else {
                    match url_with_path(url, path.subrange(0, k + 1), None) {
                        Some(b) => Ok(Some(b)),
                        None => Err(FetchError::InvalidUrl),
                    }
                }
            }
        }
    }
}

proof fn lemma_last_index_bounds(s: Seq<char>, c: char)
    ensures
        -1 <= last_index_of(s, c) < s.len(),
        last_index_of(s, c) >= 0 ==> s[last_index_of(s, c)] == c,
    decreases s.len(),
{
    if s.len() > 0 && s.last() != c {
        lemma_last_index_bounds(s.drop_last(), c);
    }
}

/// The index of the last `c` in `s`, if any.
pub fn find_last(s: &str, c: char) -> (r: Option<usize>)
    ensures
        match r {
            Some(i) => i == last_index_of(s@, c) && i < s@.len() <= usize::MAX,
            None => last_index_of(s@, c) == -1,
        },
{
    let n = s.unicode_len();
    let mut i: usize = n;
    assert(s@.subrange(0, n as int) =~= s@);
    while i > 0
        invariant
            i <= n == s@.len(),
            last_index_of(s@, c) == last_index_of(s@.subrange(0, i as int), c),
        decreases i,
    {
        let ch = s.get_char(i - 1);
        let ghost prefix = s@.subrange(0, i as int);
        if ch == c {
            assert(prefix.last() == c);
            return Some(i - 1);
        }
        assert(prefix.drop_last() =~= s@.subrange(0, i - 1));
        i = i - 1;
    }
    assert(s@.subrange(0, 0).len() == 0);
    None
}

/// The base URL against which the relative references of the playlist at
/// `url` are resolved.
pub fn base_url(url: &str) -> (r: Result<Option<String>, FetchError>)
    ensures
        match r {
            Ok(b) => base_url_spec(url@) == Ok::<Option<Seq<char>>, FetchError>(opt_view(b)),
            Err(e) => base_url_spec(url@) == Err::<Option<Seq<char>>, FetchError>(e),
        },
{
    let n = url.unicode_len();
    if n < 4 || url.get_char(0) != 'h' || url.get_char(1) != 't' || url.get_char(2) != 't'
        || url.get_char(3) != 'p' {
        return Ok(None);
    }
    let path = match url_path(url) {
        Some(p) => p,
        None => return Err(FetchError::InvalidUrl),
    };
    proof {
        lemma_last_index_bounds(path@, '/');
    }
    match find_last(path.as_str(), '/') {
        None => Ok(None),
        Some(k) => {
            let dir = path.as_str().substring_char(0, k + 1);
            match replace_path(url, dir, None) {
                Some(b) => Ok(Some(b)),
                None => Err(FetchError::InvalidUrl),
            }
        },
    }
}

/// Where the reference `uri` of a playlist entry points: resolved against the
/// base when there is one, and taken as it is otherwise.
pub open spec fn entry_url_spec(base: Option<Seq<char>>, uri: Seq<char>) -> Option<Seq<char>> {
    match base {
        Some(b) => url_joined(b, uri),
        None => Some(uri),
    }
}

/// The location of a segment or variant whose reference is `uri`.
pub fn entry_url(base: Option<&str>, uri: &str) -> (r: Result<String, FetchError>)
    ensures
        match r {
            Ok(s) => entry_url_spec(opt_str_view(base), uri@) == Some(s@),
            Err(e) => e == FetchError::InvalidUrl && entry_url_spec(
                opt_str_view(base),
                uri@,
            ) is None,
        },
{
    match base {
        Some(b) => match join_url(b, uri) {
            Some(s) => Ok(s),
            None => Err(FetchError::InvalidUrl),
        },
        None => Ok(String::from_str(uri)),
    }
}

/// Where a key reference `uri` points: resolved against the base when there is
/// one, and parsed as an absolute URL otherwise.
pub open spec fn key_url_spec(base: Option<Seq<char>>, uri: Seq<char>) -> Option<Seq<char>> {
    match base {
        Some(b) => url_joined(b, uri),
        None => url_parsed(uri),
    }
}

/// The location of the key whose reference is `uri`.
pub fn key_url(base: Option<&str>, uri: &str) -> (r: Result<String, FetchError>)
    ensures
        match r {
            Ok(s) => key_url_spec(opt_str_view(base), uri@) == Some(s@),
            Err(e) => e == FetchError::InvalidUrl && key_url_spec(
                opt_str_view(base),
                uri@,
            ) is None,
        },
{
    let found = match base {
        Some(b) => join_url(b, uri),
        None => parse_url(uri),
    };
    match found {
        Some(s) => Ok(s),
        None => Err(FetchError::InvalidUrl),
    }
}

/// The `Referer` sent with a request for `url`: the site root of its host,
/// when it has one.
pub open spec fn referer_spec(url: Seq<char>) -> Option<Seq<char>> {
    match url_host_of(url) {
        Some(d) => Some("https://"@ + d + "/"@),
        None => None,
    }
}

/// The `Referer` header value for a request of `url`.
pub fn referer_for(url: &str) -> (r: Option<String>)
    ensures
        opt_view(r) == referer_spec(url@),
{
    match url_host(url) {
        Some(d) => {
            let mut s = String::from_str("https://");
            s.append(d.as_str());
            s.append("/");
            Some(s)
        },
        None => None,
    }
}

} // verus!
