//! Keyboard shortcut combos (such as `cmd+shift+p`) and the fuzzy matching
//! of the command palette.
use vstd::prelude::*;
use crate::text::{lemma_find_from_bounds, find_from, ascii_lower, is_ws, is_whitespace, lower_char, push_char, split_once, str_eq, str_split_once, to_ascii_lowercase};

verus! {

/// A combo lowercased with its whitespace removed.
pub open spec fn normalized_combo(combo: Seq<char>) -> Seq<char> {
    ascii_lower(combo).filter(|c: char| !is_ws(c))
}

/// Normalizes a combo; see `normalized_combo`.
pub fn normalize_shortcut_combo(combo: &str) -> (r: String)
    ensures
        r@ == normalized_combo(combo@),
{
    let lower = to_ascii_lowercase(combo);
    let n = lower.unicode_len();
    let mut out = String::new();
    let mut i: usize = 0;
    while i < n
        invariant
            n == lower@.len(),
            i <= n,
            out@ == lower@.take(i as int).filter(|c: char| !is_ws(c)),
        decreases n - i,
    {
        let c = lower.as_str().get_char(i);
        proof {
            assert(lower@.take(i + 1) =~= lower@.take(i as int).push(c));
            lower@.take(i as int).lemma_filter_push(c, |c: char| !is_ws(c));
        }
        if !is_whitespace(c) {
            push_char(&mut out, c);
        }
        i = i + 1;
    }
    proof { assert(lower@.take(i as int) =~= lower@); }
    out
}

/// The parts of a string between its `+` signs.
pub open spec fn plus_parts(s: Seq<char>) -> Seq<Seq<char>>
    decreases s.len(),
{
    match split_once(s, "+"@) {
        Some((a, rest)) => if rest.len() < s.len() { seq![a] + plus_parts(rest) } else { seq![a] },
        None => seq![s],
    }
}

pub open spec fn upper_char(c: char) -> char {
    if 'a' <= c && c <= 'z' { ((c as u32) - 32) as char } else { c }
}

/// What the parts of a combo name: shift, control, option, command, and the
/// key (the last other part, uppercased).
pub struct ComboV {
    pub shift: bool,
    pub ctrl: bool,
    pub opt: bool,
    pub cmd: bool,
    pub key: Seq<char>,
}

pub open spec fn read_part(c: ComboV, part: Seq<char>) -> ComboV {
    if part == "shift"@ {
        ComboV { shift: true, ..c }
    } else if part == "ctrl"@ || part == "control"@ {
        ComboV { ctrl: true, ..c }
    } else if part == "opt"@ || part == "option"@ || part == "alt"@ {
        ComboV { opt: true, ..c }
    } else if part == "cmd"@ || part == "command"@ || part == "meta"@ {
        ComboV { cmd: true, ..c }
    } else if part.len() == 0 {
        c
    } else {
        ComboV { key: part.map_values(|ch: char| upper_char(ch)), ..c }
    }
}

pub open spec fn read_parts(parts: Seq<Seq<char>>) -> ComboV
    decreases parts.len(),
{
    if parts.len() == 0 {
        ComboV { shift: false, ctrl: false, opt: false, cmd: false, key: Seq::empty() }
    } else {
        read_part(read_parts(parts.drop_last()), parts.last())
    }
}

/// The hint shown for a combo: ⇧, ⌃, ⌥ and ⌘ for the modifiers it names, in
/// that order, then its key.
pub open spec fn shortcut_hint(combo: Seq<char>) -> Seq<char> {
    let c = read_parts(plus_parts(normalized_combo(combo)));
    (if c.shift { seq!['⇧'] } else { Seq::empty() })
        + (if c.ctrl { seq!['⌃'] } else { Seq::empty() })
        + (if c.opt { seq!['⌥'] } else { Seq::empty() })
        + (if c.cmd { seq!['⌘'] } else { Seq::empty() })
        + c.key
}

fn uppercase(s: &str) -> (r: String)
    ensures
        r@ == s@.map_values(|ch: char| upper_char(ch)),
{
    let n = s.unicode_len();
    let mut out = String::new();
    let mut i: usize = 0;
    while i < n
        invariant
            n == s@.len(),
            i <= n,
            out@ == s@.take(i as int).map_values(|ch: char| upper_char(ch)),
        decreases n - i,
    {
        let c = s.get_char(i);
        let u = if 'a' <= c && c <= 'z' { ((c as u8) - 32) as char } else { c };
        push_char(&mut out, u);
        proof { assert(out@ =~= s@.take(i + 1).map_values(|ch: char| upper_char(ch))); }
        i = i + 1;
    }
    proof { assert(s@.take(i as int) =~= s@); }
    out
}

/// The hint shown for a combo; see `shortcut_hint`.
pub fn combo_to_shortcut_hint(combo: &str) -> (r: String)
    ensures
        r@ == shortcut_hint(combo@),
{
    let normalized = normalize_shortcut_combo(combo);
    let ghost all = plus_parts(normalized@);
    let mut shift = false;
    let mut ctrl = false;
    let mut opt = false;
    let mut cmd = false;
    let mut key = String::new();
    let mut rest: &str = normalized.as_str();
    let ghost mut done: Seq<Seq<char>> = Seq::empty();
    let mut finished = false;
    proof {
        assert(all =~= done + plus_parts(rest@));
    }
    while !finished
        invariant
            all == plus_parts(normalized@),
            !finished ==> all == done + plus_parts(rest@),
            finished ==> all == done,
            read_parts(done) == (ComboV { shift, ctrl, opt, cmd, key: key@ }),
        decreases rest@.len(), if finished { 0int } else { 1int },
    {
        let (part, next, last) = match str_split_once(rest, "+") {
            Some((a, b)) => (a, b, false),
            None => (rest, rest, true),
        };
        let ghost before = done;
        proof {
            reveal_strlit("+");
            if !last {
                lemma_find_from_bounds(rest@, "+"@, 0);
                assert(next@.len() < rest@.len());
                assert(plus_parts(rest@) =~= seq![part@] + plus_parts(next@));
            } else {
                assert(plus_parts(rest@) =~= seq![part@]);
            }
            done = done.push(part@);
            assert(done.drop_last() =~= before);
        }
        if str_eq(part, "shift") {
            shift = true;
        } else if str_eq(part, "ctrl") || str_eq(part, "control") {
            ctrl = true;
        } else if str_eq(part, "opt") || str_eq(part, "option") || str_eq(part, "alt") {
            opt = true;
        } else if str_eq(part, "cmd") || str_eq(part, "command") || str_eq(part, "meta") {
            cmd = true;
        } else if part.unicode_len() == 0 {
        } else {
            key = uppercase(part);
        }
        proof {
            if !last {
                assert(all =~= done + plus_parts(next@));
            } else {
                assert(all =~= done);
            }
        }
        if last {
            finished = true;
        } else {
            rest = next;
        }
    }
    let mut hint = String::new();
    if shift { push_char(&mut hint, '⇧'); }
    if ctrl { push_char(&mut hint, '⌃'); }
    if opt { push_char(&mut hint, '⌥'); }
    if cmd { push_char(&mut hint, '⌘'); }
    let ghost h = hint@;
    hint.append(key.as_str());
    proof {
        assert(h =~= (if shift { seq!['⇧'] } else { Seq::empty() })
            + (if ctrl { seq!['⌃'] } else { Seq::empty() })
            + (if opt { seq!['⌥'] } else { Seq::empty() })
            + (if cmd { seq!['⌘'] } else { Seq::empty() }));
    }
    hint
}

/// Whether `needle` occurs in `haystack` as a subsequence (its characters in
/// order, not necessarily adjacent).
pub open spec fn is_subsequence(haystack: Seq<char>, needle: Seq<char>) -> bool
    decreases haystack.len(),
{
    if needle.len() == 0 {
        true
    } else if haystack.len() == 0 {
        false
    } else if haystack[0] == needle[0] {
        is_subsequence(haystack.drop_first(), needle.drop_first())
    } else {
        is_subsequence(haystack.drop_first(), needle)
    }
}

/// Fuzzy matching of the palette; see `is_subsequence`.
pub fn fuzzy_subsequence(haystack: &str, needle: &str) -> (r: bool)
    ensures
        r == is_subsequence(haystack@, needle@),
{
    let n = needle.unicode_len();
    if n == 0 {
        return true;
    }
    let h = haystack.unicode_len();
    let mut j: usize = 0;
    let mut i: usize = 0;
    proof {
        assert(haystack@.skip(0) =~= haystack@);
        assert(needle@.skip(0) =~= needle@);
    }
    while i < h
        invariant
            h == haystack@.len(),
            n == needle@.len(),
            i <= h,
            j < n,
            is_subsequence(haystack@, needle@) == is_subsequence(haystack@.skip(i as int), needle@.skip(j as int)),
        decreases h - i,
    {
        let c = haystack.get_char(i);
        proof {
            let hs = haystack@.skip(i as int);
            let ns = needle@.skip(j as int);
            assert(hs[0] == c);
            assert(hs.drop_first() =~= haystack@.skip(i + 1));
            assert(ns[0] == needle@[j as int]);
            assert(ns.drop_first() =~= needle@.skip(j + 1));
        }
        if c == needle.get_char(j) {
            proof {
                assert(is_subsequence(haystack@.skip(i as int), needle@.skip(j as int))
                    == is_subsequence(haystack@.skip(i + 1), needle@.skip(j + 1)));
            }
            j = j + 1;
            if j == n {
                proof {
                    assert(needle@.skip(j as int).len() == 0);
                    assert(is_subsequence(haystack@.skip(i + 1), needle@.skip(j as int)));
                }
                return true;
            }
        }
        i = i + 1;
    }
    proof {
        assert(haystack@.skip(i as int).len() == 0);
        assert(needle@.skip(j as int).len() > 0);
    }
    false
}

} // verus!
