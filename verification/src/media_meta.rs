//! The text side of the local media player's track report: a line of
//! `|||`-separated fields, blank fields dropped, and decimal numbers written
//! with a comma or a point.
use vstd::prelude::*;

use crate::rest::{parse_url, scheme_of, scheme_part, url_parse_outcome};
use crate::strings::{char_len, find_str, find_str_in, lemma_find_str_bound, slice, str_eq, to_owned_string, trim, trim_str};

verus! {

/// `str::splitn(n, sep)`: at most `n` pieces, the last holding the rest.
pub open spec fn splitn_spec(s: Seq<char>, n: nat, sep: Seq<char>) -> Seq<Seq<char>>
    decreases n,
{
    if n == 0 {
        Seq::empty()
    } else if n == 1 {
        seq![s]
    } else {
        match find_str(s, sep) {
            None => seq![s],
            Some(i) => seq![s.take(i)] + splitn_spec(s.skip(i + sep.len()), (n - 1) as nat, sep),
        }
    }
}

pub open spec fn str_views(v: Seq<&str>) -> Seq<Seq<char>> {
    v.map_values(|s: &str| s@)
}

/// Split `s` at the first `n - 1` occurrences of a non-empty `sep`.
pub fn splitn<'a>(s: &'a str, n: usize, sep: &str) -> (r: Vec<&'a str>)
    requires
        sep@.len() > 0,
    ensures
        str_views(r@) == splitn_spec(s@, n as nat, sep@),
{
    let mut out: Vec<&'a str> = Vec::new();
    if n == 0 {
        return out;
    }
    let mut rest: &'a str = s;
    let mut left: usize = n;
    loop
        invariant
            sep@.len() > 0,
            left >= 1,
            str_views(out@) + splitn_spec(rest@, left as nat, sep@) == splitn_spec(s@, n as nat, sep@),
        decreases left,
    {
        if left == 1 {
            let ghost before = str_views(out@);
            out.push(rest);
            assert(str_views(out@) =~= before + seq![rest@]);
            return out;
        }
        match find_str_in(rest, sep) {
            None => {
                let ghost before = str_views(out@);
                out.push(rest);
                assert(str_views(out@) =~= before + seq![rest@]);
                return out;
            },
            Some(i) => {
                proof {
                    lemma_find_str_bound(rest@, sep@);
                }
                let m = char_len(rest);
                let k = char_len(sep);
                let head = slice(rest, 0, i);
                let tail = slice(rest, i + k, m);
                assert(head@ =~= rest@.take(i as int));
                assert(tail@ =~= rest@.skip(i + sep@.len()));
                let ghost before = str_views(out@);
                out.push(head);
                proof {
                    assert(str_views(out@) =~= before + seq![head@]);
                    let t = splitn_spec(tail@, (left - 1) as nat, sep@);
                    assert(str_views(out@) + t =~= before + (seq![head@] + t));
                }
                rest = tail;
                left = left - 1;
            },
        }
    }
}

/// The trimmed text, or nothing when it is blank.
pub open spec fn non_empty_spec(s: Seq<char>) -> Option<Seq<char>> {
    if trim(s).len() == 0 {
        None
    } else {
        Some(trim(s))
    }
}

pub fn non_empty(s: &str) -> (r: Option<String>)
    ensures
        match r {
            Some(t) => non_empty_spec(s@) == Some(t@),
            None => non_empty_spec(s@) is None,
        },
{
    let t = trim_str(s);
    if char_len(t) == 0 {
        None
    } else {
        Some(to_owned_string(t))
    }
}

/// A decimal number as written by a locale that may use a comma: trimmed,
/// every `,` turned into `.`.
pub open spec fn decimal_text_spec(s: Seq<char>) -> Seq<char> {
    trim(s).map_values(|c: char| if c == ',' { '.' } else { c })
}

pub fn decimal_text(s: &str) -> (r: String)
    ensures
        r@ == decimal_text_spec(s@),
{
    let t = trim_str(s);
    let n = char_len(t);
    let mut out = String::new();
    let mut i: usize = 0;
    let mut start: usize = 0;
    while i < n
        invariant
            n == t@.len(),
            start <= i <= n,
            out@ + t@.subrange(start as int, i as int) == decimal_text_spec(s@).take(i as int),
            t@ == trim(s@),
        decreases n - i,
    {
        let c = t.get_char(i);
        if c == ',' {
            proof {
                reveal_strlit(".");
            }
            let ghost old_out = out@;
            let ghost old_start = start;
            assert(old_out + t@.subrange(old_start as int, i as int) == decimal_text_spec(s@).take(i as int));
            let piece = slice(t, start, i);
            out.append(piece);
            out.append(".");
            assert(out@ == old_out + t@.subrange(start as int, i as int) + seq!['.']);
            assert(decimal_text_spec(s@)[i as int] == '.');
            assert(decimal_text_spec(s@).take(i as int + 1) =~= decimal_text_spec(s@).take(i as int) + seq!['.']);
            start = i + 1;
            assert(t@.subrange(start as int, i as int + 1) =~= Seq::<char>::empty());
            assert(out@ =~= decimal_text_spec(s@).take(i as int + 1));
            assert(out@ + t@.subrange(start as int, i as int + 1) =~= decimal_text_spec(s@).take(i as int + 1));
        } else {
            assert(decimal_text_spec(s@)[i as int] == c);
            assert(t@.subrange(start as int, i as int + 1) =~= t@.subrange(start as int, i as int) + seq![c]);
            assert(decimal_text_spec(s@).take(i as int + 1) =~= decimal_text_spec(s@).take(i as int) + seq![c]);
            assert(out@ + t@.subrange(start as int, i as int + 1) =~= decimal_text_spec(s@).take(i as int + 1));
        }
        i = i + 1;
    }
    out.append(slice(t, start, n));
    assert(decimal_text_spec(s@).take(n as int) =~= decimal_text_spec(s@));
    out
}

/// Where a player's cover art comes from.
#[derive(Debug)]
pub enum ArtSource {
    /// A local file.
    File(std::path::PathBuf),
    /// An `http` or `https` URL, to be downloaded.
    Remote,
    /// None usable: the URL does not parse, has another scheme, or names no
    /// local path.
    Skip,
}

/// `Url::to_file_path` on the URL serialized as `t`. The path it gives
/// depends on the platform, so nothing is stated of it.
#[verifier::external_body]
fn url_file_path(t: &str) -> (r: Option<std::path::PathBuf>) {
    url::Url::parse(t).ok()?.to_file_path().ok()
}

/// Where the cover art at URL `raw` comes from, by the URL's scheme: `file`
/// a local path (when the URL names one), `http` and `https` a download,
/// anything else nothing.
pub fn art_source(raw: &str) -> (r: ArtSource)
    ensures
        match url_parse_outcome(raw@) {
            Ok(t) => if scheme_part(t) == "file"@ {
                r is File || r is Skip
            } else if scheme_part(t) == "http"@ || scheme_part(t) == "https"@ {
                r is Remote
            } else {
                r is Skip
            },
            Err(_) => r is Skip,
        },
{
    let t = match parse_url(raw) {
        Ok(t) => t,
        Err(_) => return ArtSource::Skip,
    };
    let scheme = scheme_of(t.as_str());
    if str_eq(scheme, "file") {
        match url_file_path(t.as_str()) {
            Some(p) => ArtSource::File(p),
            None => ArtSource::Skip,
        }
    } else if str_eq(scheme, "http") || str_eq(scheme, "https") {
        ArtSource::Remote
    } else {
        ArtSource::Skip
    }
}

} // verus!
