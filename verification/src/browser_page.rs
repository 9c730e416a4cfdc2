//! Text helpers of the built-in browser: a page's title from its URL or
//! HTML, and the percent-decoding of `data:` URLs.
use vstd::prelude::*;
use vstd::utf8::{decode_utf8, encode_utf8, valid_utf8};
use vstd::string::StringSliceAdditionalSpecFns;
use crate::text::{
    ascii_lower, find_from, split_once, starts_with, str_split_once, str_starts_with, strip_prefix,
    to_ascii_lowercase, trim, trim_str, find_str,
};

verus! {

/// The host of an `http(s)` URL, when it has one; otherwise the URL itself.
pub open spec fn browser_title(url: Seq<char>) -> Seq<char> {
    let rest = if starts_with(url, "https://"@) {
        Some(url.skip(8))
    } else if starts_with(url, "http://"@) {
        Some(url.skip(7))
    } else {
        None
    };
    match rest {
        Some(r) => {
            let host = match split_once(r, "/"@) { Some((h, _)) => h, None => r };
            if host.len() > 0 { host } else { url }
        },
        None => url,
    }
}

/// The title shown for a URL; see `browser_title`.
pub fn normalize_browser_title(url: &str) -> (r: String)
    ensures
        r@ == browser_title(url@),
{
    proof { reveal_strlit("https://"); reveal_strlit("http://"); }
    let rest = match strip_prefix(url, "https://") {
        Some(r) => Some(r),
        None => strip_prefix(url, "http://"),
    };
    match rest {
        Some(r) => {
            let host = match str_split_once(r, "/") { Some((h, _)) => h, None => r };
            if host.unicode_len() > 0 { String::from_str(host) } else { String::from_str(url) }
        },
        None => String::from_str(url),
    }
}

/// The text of the first `<title>` element (tags matched in any case),
/// trimmed.
pub open spec fn html_title(html: Seq<char>) -> Option<Seq<char>> {
    let lower = ascii_lower(html);
    let start = find_from(lower, "<title>"@, 0);
    if start < 0 {
        None
    } else {
        let begin = start + 7;
        let end = find_from(lower.skip(begin), "</title>"@, 0);
        if end < 0 { None } else { Some(trim(html.subrange(begin, begin + end))) }
    }
}

/// A page's title from its HTML; see `html_title`.
pub fn extract_html_title(html: &str) -> (r: Option<String>)
    ensures
        crate::control::opt_str_view(r) == html_title(html@),
{
    proof { reveal_strlit("<title>"); }
    let lower = to_ascii_lowercase(html);
    let start = match find_str(lower.as_str(), "<title>") { Some(s) => s, None => return None };
    let n = lower.unicode_len();
    let begin = start + 7;
    let tail = lower.as_str().substring_char(begin, n);
    proof { assert(tail@ =~= lower@.skip(begin as int)); }
    let end = match find_str(tail, "</title>") { Some(e) => e, None => return None };
    proof { assert(html@.len() == lower@.len()); }
    let inner = html.substring_char(begin, begin + end);
    Some(String::from_str(trim_str(inner)))
}

/// Whether a byte is an ASCII hex digit.
pub open spec fn hex_byte(b: u8) -> bool {
    (48 <= b && b <= 57) || (97 <= b && b <= 102) || (65 <= b && b <= 70)
}

pub open spec fn hex_byte_value(b: u8) -> u8 {
    if 48 <= b && b <= 57 { (b - 48) as u8 } else if 97 <= b && b <= 102 { (b - 87) as u8 } else { (b - 55) as u8 }
}

/// Percent-decoding of bytes: `%` and two hex digits give one byte, `+` gives
/// a space, any other byte is kept.
pub open spec fn percent_bytes(b: Seq<u8>) -> Seq<u8>
    decreases b.len(),
{
    if b.len() == 0 {
        Seq::empty()
    } else if b[0] == 37 && b.len() > 2 && hex_byte(b[1]) && hex_byte(b[2]) {
        seq![(hex_byte_value(b[1]) * 16 + hex_byte_value(b[2])) as u8] + percent_bytes(b.skip(3))
    } else {
        seq![if b[0] == 43 { 32u8 } else { b[0] }] + percent_bytes(b.skip(1))
    }
}

/// The string `String::from_utf8_lossy` makes of some bytes.
pub uninterp spec fn utf8_lossy(bytes: Seq<u8>) -> Seq<char>;

/// `String::from_utf8_lossy`: the bytes decoded as UTF-8, each invalid
/// sequence replaced by U+FFFD; valid UTF-8 is decoded as it is.
#[verifier::external_body]
fn string_from_utf8_lossy(bytes: &[u8]) -> (r: String)
    ensures
        r@ == utf8_lossy(bytes@),
        valid_utf8(bytes@) ==> r@ == decode_utf8(bytes@),
{
    String::from_utf8_lossy(bytes).to_string()
}

fn hex_byte_of(b: u8) -> (r: u8)
    requires
        hex_byte(b),
    ensures
        r == hex_byte_value(b),
        r < 16,
{
    if 48 <= b && b <= 57 { b - 48 } else if 97 <= b && b <= 102 { b - 87 } else { b - 55 }
}

/// Percent-decodes the bytes of a string, then reads them as UTF-8 (lossily).
pub fn percent_decode(input: &str) -> (r: String)
    ensures
        r@ == utf8_lossy(percent_bytes(input.spec_bytes())),
        valid_utf8(percent_bytes(input.spec_bytes())) ==> r@ == decode_utf8(percent_bytes(input.spec_bytes())),
{
    let bytes = input.as_bytes();
    let ghost all = bytes@;
    let mut out: Vec<u8> = Vec::new();
    let mut idx: usize = 0;
    let n = bytes.len();
    proof {
        assert(all.skip(0) =~= all);
        assert(out@ + all =~= all);
    }
    while idx < n
        invariant
            n == all.len(),
            all == bytes@,
            idx <= n,
            out@ + percent_bytes(all.skip(idx as int)) == percent_bytes(all),
        decreases n - idx,
    {
        let ghost rest = all.skip(idx as int);
        if bytes[idx] == 37 && n - idx > 2 {
            let hi = bytes[idx + 1];
            let lo = bytes[idx + 2];
            let hi_ok = (48 <= hi && hi <= 57) || (97 <= hi && hi <= 102) || (65 <= hi && hi <= 70);
            let lo_ok = (48 <= lo && lo <= 57) || (97 <= lo && lo <= 102) || (65 <= lo && lo <= 70);
            if hi_ok && lo_ok {
                let v = hex_byte_of(hi) * 16 + hex_byte_of(lo);
                let ghost before = out@;
                out.push(v);
                proof {
                    assert(rest[0] == 37 && rest[1] == hi && rest[2] == lo);
                    assert(rest.skip(3) =~= all.skip(idx + 3));
                    assert(out@ + percent_bytes(all.skip(idx + 3)) =~= before + percent_bytes(rest));
                }
                idx = idx + 3;
                continue;
            }
        }
        let b = bytes[idx];
        let ghost before = out@;
        out.push(if b == 43 { 32u8 } else { b });
        proof {
            assert(rest[0] == b);
            assert(rest.skip(1) =~= all.skip(idx + 1));
            assert(out@ + percent_bytes(all.skip(idx + 1)) =~= before + percent_bytes(rest));
        }
        idx = idx + 1;
    }
    proof {
        assert(all.skip(idx as int) =~= Seq::<u8>::empty());
        assert(out@ + Seq::<u8>::empty() =~= out@);
    }
    string_from_utf8_lossy(out.as_slice())
}

/// The HTML of a `data:text/html` URL: what follows its first comma,
/// percent-decoded.
pub open spec fn data_html(url: Seq<char>) -> Option<Seq<char>> {
    if !starts_with(url, "data:text/html"@) {
        None
    } else {
        match split_once(url, ","@) {
            None => None,
            Some((_, enc)) => Some(utf8_lossy(percent_bytes(encode_utf8(enc)))),
        }
    }
}

/// The HTML a `data:` URL carries; see `data_html`.
pub fn decode_data_html(url: &str) -> (r: Option<String>)
    ensures
        crate::control::opt_str_view(r) == data_html(url@),
{
    if !str_starts_with(url, "data:text/html") {
        return None;
    }
    match str_split_once(url, ",") {
        None => None,
        Some((_, encoded)) => Some(percent_decode(encoded)),
    }
}


/// The local path a `file://` URL names: what follows the scheme (a
/// `localhost/` host standing for the root), cut at the first `#` and then
/// at the first `?`, percent-decoded; `None` when that part is empty.
pub open spec fn file_path(url: Seq<char>) -> Option<Seq<char>> {
    if !starts_with(url, "file://"@) {
        None
    } else {
        let rest = url.skip(7);
        let p = if starts_with(rest, "localhost/"@) { "/"@ + rest.skip(10) } else { rest };
        let p1 = match split_once(p, "#"@) { Some((a, _)) => a, None => p };
        let p2 = match split_once(p1, "?"@) { Some((a, _)) => a, None => p1 };
        if p2.len() == 0 { None } else { Some(utf8_lossy(percent_bytes(encode_utf8(p2)))) }
    }
}

/// The file a `file://` URL names; see `file_path`. Reading it is left to
/// the caller.
pub fn file_html_path(url: &str) -> (r: Option<String>)
    ensures
        crate::control::opt_str_view(r) == file_path(url@),
{
    proof { reveal_strlit("file://"); reveal_strlit("localhost/"); }
    let rest = match strip_prefix(url, "file://") { Some(r) => r, None => return None };
    let path = match strip_prefix(rest, "localhost/") {
        Some(local) => {
            let mut p = String::from_str("/");
            p.append(local);
            p
        },
        None => String::from_str(rest),
    };
    let p1 = match str_split_once(path.as_str(), "#") { Some((a, _)) => a, None => path.as_str() };
    let p2 = match str_split_once(p1, "?") { Some((a, _)) => a, None => p1 };
    if p2.unicode_len() == 0 {
        None
    } else {
        Some(percent_decode(p2))
    }
}

} // verus!
