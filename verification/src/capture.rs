//! Helpers of the debug screenshots: safe file labels and a rough count of
//! changed pixels between two renderings of a surface's text.
use vstd::prelude::*;
use vstd::utf8::encode_utf8;
use vstd::string::StringSliceAdditionalSpecFns;
use crate::text::{push_char, str_eq, trim, trim_str};

verus! {

pub open spec fn is_label_char(c: char) -> bool {
    ('a' <= c && c <= 'z') || ('A' <= c && c <= 'Z') || ('0' <= c && c <= '9') || c == '-' || c == '_'
}

pub open spec fn label_char(c: char) -> char {
    if is_label_char(c) { c } else { '_' }
}

/// A label made safe for a file name: trimmed, every character other than an
/// ASCII letter, digit, `-` or `_` replaced by `_`; `shot` when empty.
pub open spec fn safe_label(label: Seq<char>) -> Seq<char> {
    let t = trim(label);
    if t.len() == 0 { "shot"@ } else { t.map_values(|c: char| label_char(c)) }
}

/// A label made safe for a file name; see `safe_label`.
pub fn sanitize_debug_label(label: &str) -> (r: String)
    ensures
        r@ == safe_label(label@),
{
    let t = trim_str(label);
    let n = t.unicode_len();
    if n == 0 {
        return String::from_str("shot");
    }
    let mut out = String::new();
    let mut i: usize = 0;
    while i < n
        invariant
            n == t@.len(),
            i <= n,
            out@ == t@.take(i as int).map_values(|c: char| label_char(c)),
        decreases n - i,
    {
        let c = t.get_char(i);
        let ok = ('a' <= c && c <= 'z') || ('A' <= c && c <= 'Z') || ('0' <= c && c <= '9') || c == '-' || c == '_';
        push_char(&mut out, if ok { c } else { '_' });
        proof { assert(out@ =~= t@.take(i + 1).map_values(|c: char| label_char(c))); }
        i = i + 1;
    }
    proof { assert(t@.take(i as int) =~= t@); }
    out
}

/// The positions, up to the shorter length, where two byte strings differ.
pub open spec fn mismatches(a: Seq<u8>, b: Seq<u8>) -> nat
    decreases a.len(),
{
    if a.len() == 0 || b.len() == 0 {
        0
    } else {
        mismatches(a.drop_first(), b.drop_first()) + if a[0] != b[0] { 1nat } else { 0nat }
    }
}

/// A rough count of the pixels that changed between two renderings: none
/// when equal, else 64 per differing or extra byte (saturating), at least 24.
pub open spec fn changed_pixels(previous: Seq<char>, current: Seq<char>) -> u64 {
    if previous == current {
        0
    } else {
        let (a, b) = (encode_utf8(previous), encode_utf8(current));
        let extra = if a.len() >= b.len() { a.len() - b.len() } else { b.len() - a.len() };
        let d = mismatches(a, b) + extra;
        let scaled: u64 = if d * 64 > u64::MAX { u64::MAX } else { (d * 64) as u64 };
        if scaled > 24 { scaled } else { 24 }
    }
}

proof fn lemma_mismatches_bound(a: Seq<u8>, b: Seq<u8>)
    ensures
        mismatches(a, b) <= a.len(),
        mismatches(a, b) <= b.len(),
    decreases a.len(),
{
    if a.len() > 0 && b.len() > 0 {
        lemma_mismatches_bound(a.drop_first(), b.drop_first());
    }
}

/// A rough count of changed pixels; see `changed_pixels`.
pub fn estimate_changed_pixels(previous: &str, current: &str) -> (r: u64)
    ensures
        r == changed_pixels(previous@, current@),
{
    if str_eq(previous, current) {
        return 0;
    }
    let a = previous.as_bytes();
    let b = current.as_bytes();
    let (la, lb) = (a.len(), b.len());
    let m = if la < lb { la } else { lb };
    let mut diff: usize = 0;
    let mut i: usize = m;
    proof { lemma_mismatches_bound(a@.skip(m as int), b@.skip(m as int)); }
    while i > 0
        invariant
            i <= m,
            m <= la,
            m <= lb,
            la == a@.len(),
            lb == b@.len(),
            m == la || m == lb,
            diff as nat == mismatches(a@.skip(i as int), b@.skip(i as int)),
            diff <= m - i,
        decreases i,
    {
        i = i - 1;
        proof {
            assert(a@.skip(i as int).drop_first() =~= a@.skip(i + 1));
            assert(b@.skip(i as int).drop_first() =~= b@.skip(i + 1));
        }
        if a[i] != b[i] {
            diff = diff + 1;
        }
    }
    proof {
        assert(a@.skip(0) =~= a@);
        assert(b@.skip(0) =~= b@);
    }
    let extra = if la >= lb { la - lb } else { lb - la };
    let total = diff + extra;
    let t = total as u64;
    let scaled = if t > u64::MAX / 64 { u64::MAX } else { t * 64 };
    if scaled > 24 { scaled } else { 24 }
}

} // verus!
