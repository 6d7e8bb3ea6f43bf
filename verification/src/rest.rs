//! The HTTP side of an instance: its REST base URL, derived from the
//! WebSocket URL in the configuration.
use vstd::prelude::*;

use url::Url;

use crate::strings::{find_char, find_char_in, lemma_find_char_bound, slice, str_eq, to_owned_string};

verus! {

/// What `Url::parse` makes of a string: the serialization (`Url::as_str`)
/// of the URL it parses, or the text of the error it reports.
pub uninterp spec fn url_parse_outcome(s: Seq<char>) -> Result<Seq<char>, Seq<char>>;

/// `Url::host_str` of the URL that `Url::parse` makes of `t`, if any.
pub uninterp spec fn url_host(t: Seq<char>) -> Option<Seq<char>>;

/// `Url::path` of the URL that `Url::parse` makes of `t`.
pub uninterp spec fn url_path(t: Seq<char>) -> Seq<char>;

/// The scheme of a serialized URL: what precedes its first `:` (a scheme
/// holds no `:`, and a serialization is the scheme, `:`, then the rest).
pub open spec fn scheme_part(t: Seq<char>) -> Seq<char> {
    match find_char(t, ':') {
        Some(i) => t.take(i),
        None => t,
    }
}

/// The special schemes with a network host.
pub open spec fn net_scheme(s: Seq<char>) -> bool {
    s == "http"@ || s == "https"@ || s == "ws"@ || s == "wss"@
}

/// `Url::parse`, the URL kept as its serialization. A serialization parses
/// again to itself (the url crate checks this as an invariant of every URL).
#[verifier::external_body]
pub(crate) fn parse_url(s: &str) -> (r: Result<String, String>)
    ensures
        match r {
            Ok(t) => url_parse_outcome(s@) == Ok::<Seq<char>, Seq<char>>(t@) && url_parse_outcome(t@) == Ok::<
                Seq<char>,
                Seq<char>,
            >(t@),
            Err(e) => url_parse_outcome(s@) == Err::<Seq<char>, Seq<char>>(e@),
        },
{
    match Url::parse(s) {
        Ok(u) => Ok(u.as_str().to_string()),
        Err(e) => Err(e.to_string()),
    }
}

/// `Url::set_scheme` on the URL serialized as `t`, giving the new
/// serialization. Between two of `http`, `https`, `ws`, `wss` it succeeds
/// (both are special and such a URL has a host); the scheme becomes the new
/// one and the host stays. Other outcomes are not described.
#[verifier::external_body]
fn set_url_scheme(t: &str, scheme: &str) -> (r: Result<String, ()>)
    ensures
        match url_parse_outcome(t@) {
            Ok(t0) => net_scheme(scheme_part(t0)) && net_scheme(scheme@) ==> (r matches Ok(t2) && scheme_part(t2@)
                == scheme@ && url_host(t2@) == url_host(t0) && url_parse_outcome(t2@) == Ok::<Seq<char>, Seq<char>>(
                t2@,
            )),
            Err(_) => r is Err,
        },
{
    let mut u = Url::parse(t).map_err(|_| ())?;
    u.set_scheme(scheme)?;
    Ok(u.as_str().to_string())
}

/// `Url::set_path` on the URL serialized as `t`, giving the new
/// serialization. On a URL of `http`, `https`, `ws` or `wss` the path `/`
/// becomes its path, and scheme and host stay.
#[verifier::external_body]
fn set_url_path(t: &str, path: &str) -> (r: Result<String, ()>)
    ensures
        match url_parse_outcome(t@) {
            Ok(t0) => net_scheme(scheme_part(t0)) && path@ == "/"@ ==> (r matches Ok(t2) && scheme_part(t2@) == scheme_part(
                t0,
            ) && url_host(t2@) == url_host(t0) && url_path(t2@) == "/"@),
            Err(_) => r is Err,
        },
{
    let mut u = Url::parse(t).map_err(|_| ())?;
    u.set_path(path);
    Ok(u.as_str().to_string())
}

/// The scheme of a serialized URL.
pub(crate) fn scheme_of(t: &str) -> (r: &str)
    ensures
        r@ == scheme_part(t@),
{
    match find_char_in(t, ':') {
        Some(i) => {
            proof {
                lemma_find_char_bound(t@, ':');
            }
            let r = slice(t, 0, i);
            assert(r@ =~= t@.take(i as int));
            r
        },
        None => t,
    }
}

/// The HTTP scheme for a WebSocket one.
pub open spec fn http_scheme_for(s: Seq<char>) -> Seq<char> {
    if s == "ws"@ {
        "http"@
    } else {
        "https"@
    }
}

/// The HTTP base for a Home Assistant WebSocket URL, serialized: `ws://`
/// becomes `http://`, `wss://` becomes `https://`, the host stays and the
/// path becomes `/`. A URL that does not parse, or has another scheme, is
/// refused.
pub fn https_base_from_ws(ws_url: &str) -> (r: Result<String, String>)
    ensures
        match url_parse_outcome(ws_url@) {
            Err(e) => r matches Err(m) && m@ == e,
            Ok(t) => if scheme_part(t) == "ws"@ || scheme_part(t) == "wss"@ {
                r matches Ok(u) && scheme_part(u@) == http_scheme_for(scheme_part(t)) && url_host(u@) == url_host(t)
                    && url_path(u@) == "/"@
            } else {
                r matches Err(m) && m@ == "unexpected scheme: "@ + scheme_part(t)
            },
        },
{
    let t = match parse_url(ws_url) {
        Ok(t) => t,
        Err(e) => {
            return Err(e);
        },
    };
    let scheme = scheme_of(t.as_str());
    proof {
        reveal_strlit("ws");
        reveal_strlit("wss");
        reveal_strlit("http");
        reveal_strlit("https");
    }
    let http = if str_eq(scheme, "ws") {
        "http"
    } else if str_eq(scheme, "wss") {
        "https"
    } else {
        let mut m = to_owned_string("unexpected scheme: ");
        m.append(scheme);
        return Err(m);
    };
    let t2 = match set_url_scheme(t.as_str(), http) {
        Ok(t2) => t2,
        Err(()) => {
            return Err(to_owned_string("scheme replace failed"));
        },
    };
    proof {
        reveal_strlit("/");
    }
    match set_url_path(t2.as_str(), "/") {
        Ok(t3) => Ok(t3),
        Err(()) => Err(to_owned_string("scheme replace failed")),
    }
}

} // verus!
