//! Handles by which clients name workspaces, windows, panes and surfaces:
//! UUID-shaped ids (`00000000-0000-0000-0000-` and twelve hex digits) and
//! refs such as `surface:7`.
use vstd::prelude::*;
use crate::text::{
    is_ws, trim_start, trim_end, unsigned_part, all_digits, is_digit_char, digits_value, find_from, matches_at,
    digit_char, hex_char,
    decimal, hex, push_char, push_decimal, push_hex, trim, trim_str, parse_u64, str_parse_u64,
    split_once, str_split_once,
};

verus! {

/// `00000000-0000-0000-0000-`: the part of a handle before the id's digits.
pub open spec fn handle_prefix() -> Seq<char> {
    zeros(8) + seq!['-'] + zeros(4) + seq!['-'] + zeros(4) + seq!['-'] + zeros(4) + seq!['-']
}

/// `n` zeros.
pub open spec fn zeros(n: nat) -> Seq<char> {
    Seq::new(n, |i: int| '0')
}

/// Lowercase hex of `n`, padded with zeros to at least twelve digits.
pub open spec fn hex12(n: u64) -> Seq<char> {
    let h = hex(n as nat);
    if h.len() < 12 { zeros((12 - h.len()) as nat) + h } else { h }
}

/// The UUID-shaped handle of an id.
pub open spec fn handle_of(id: u64) -> Seq<char> {
    handle_prefix() + hex12(id)
}

/// A ref handle: the kind, a colon and the id in decimal.
pub open spec fn ref_of(kind: Seq<char>, id: u64) -> Seq<char> {
    kind + ":"@ + decimal(id as nat)
}

/// The UUID-shaped handle of an id.
pub fn encode_handle_id(id: u64) -> (r: String)
    ensures
        r@ == handle_of(id),
{
    let mut h = String::new();
    push_hex(&mut h, id);
    proof { assert(h@ =~= hex(id as nat)); }
    let len = h.unicode_len();
    let mut out = String::from_str("00000000-0000-0000-0000-");
    proof {
        reveal_strlit("00000000-0000-0000-0000-");
        assert(out@ =~= handle_prefix());
    }
    let ghost start = out@;
    if len < 12 {
        let mut k: usize = 0;
        while k < 12 - len
            invariant
                len < 12,
                k <= 12 - len,
                out@ == start + zeros(k as nat),
            decreases 12 - len - k,
        {
            push_char(&mut out, '0');
            proof { assert(out@ =~= start + zeros((k + 1) as nat)); }
            k = k + 1;
        }
    }
    out.append(h.as_str());
    proof {
        if len < 12 {
            assert(out@ =~= handle_prefix() + (zeros((12 - len) as nat) + hex(id as nat)));
        } else {
            assert(out@ =~= handle_prefix() + hex(id as nat));
        }
    }
    out
}

fn ref_handle(kind: &str, id: u64) -> (r: String)
    ensures
        r@ == ref_of(kind@, id),
{
    let mut out = String::from_str(kind);
    out.append(":");
    push_decimal(&mut out, id);
    proof { assert(out@ =~= kind@ + ":"@ + decimal(id as nat)); }
    out
}

/// `workspace:<id>`
pub fn workspace_ref(id: u64) -> (r: String)
    ensures
        r@ == ref_of("workspace"@, id),
{
    ref_handle("workspace", id)
}

/// `pane:<id>`
pub fn pane_ref(id: u64) -> (r: String)
    ensures
        r@ == ref_of("pane"@, id),
{
    ref_handle("pane", id)
}

/// `surface:<id>`
pub fn surface_ref(id: u64) -> (r: String)
    ensures
        r@ == ref_of("surface"@, id),
{
    ref_handle("surface", id)
}

/// `window:<id>`
pub fn window_ref(id: u64) -> (r: String)
    ensures
        r@ == ref_of("window"@, id),
{
    ref_handle("window", id)
}

// ---------------------------------------------------------------------------
// Decoding
// ---------------------------------------------------------------------------

pub open spec fn is_hex_digit(c: char) -> bool {
    ('0' <= c && c <= '9') || ('a' <= c && c <= 'f') || ('A' <= c && c <= 'F')
}

pub open spec fn hex_digit_value(c: char) -> nat {
    if '0' <= c && c <= '9' {
        ((c as u32) - 48) as nat
    } else if 'a' <= c && c <= 'f' {
        ((c as u32) - 87) as nat
    } else {
        ((c as u32) - 55) as nat
    }
}

/// The value of a string of hex digits, most significant first.
pub open spec fn hex_value(s: Seq<char>) -> nat
    decreases s.len(),
{
    if s.len() == 0 { 0 } else { hex_value(s.drop_last()) * 16 + hex_digit_value(s.last()) }
}

/// Bytes a character takes in UTF-8.
pub open spec fn utf8_width(c: char) -> nat {
    if (c as u32) < 0x80 { 1 } else if (c as u32) < 0x800 { 2 } else if (c as u32) < 0x10000 { 3 } else { 4 }
}

/// Bytes a string takes in UTF-8.
pub open spec fn utf8_len(s: Seq<char>) -> nat
    decreases s.len(),
{
    if s.len() == 0 { 0 } else { utf8_len(s.drop_last()) + utf8_width(s.last()) }
}

pub open spec fn not_dash(c: char) -> bool {
    c != '-'
}

/// The string with its dashes taken out.
pub open spec fn no_dashes(s: Seq<char>) -> Seq<char> {
    s.filter(|c: char| not_dash(c))
}

/// The id a handle names: a decimal id, a ref (`kind:id`), or a UUID-shaped
/// handle whose 32 hex digits end in the id's twelve. A UUID whose last
/// twelve characters are not all hex digits names nothing.
pub open spec fn decode_handle(raw: Seq<char>) -> Option<u64> {
    let s = trim(raw);
    if s.len() == 0 {
        None
    } else if parse_u64(s) is Some {
        parse_u64(s)
    } else if split_once(s, ":"@) is Some {
        match split_once(s, ":"@) {
            Some((_, suffix)) => parse_u64(trim(suffix)),
            None => None,
        }
    } else {
        let h = no_dashes(s);
        if utf8_len(h) == 32 && h.len() >= 12 && (forall|i: int| h.len() - 12 <= i < h.len() ==> is_hex_digit(#[trigger] h[i])) {
            Some(hex_value(h.skip(h.len() - 12)) as u64)
        } else {
            None
        }
    }
}

/// 16 to the power `n`.
pub open spec fn pow16(n: nat) -> nat
    decreases n,
{
    if n == 0 { 1 } else { 16 * pow16((n - 1) as nat) }
}

proof fn lemma_pow16_mono(a: nat, b: nat)
    requires
        a <= b,
    ensures
        pow16(a) <= pow16(b),
    decreases b,
{
    if a < b {
        lemma_pow16_mono(a, (b - 1) as nat);
    }
}

fn hex_digit_of(c: char) -> (r: u64)
    requires
        is_hex_digit(c),
    ensures
        r == hex_digit_value(c),
{
    if '0' <= c && c <= '9' {
        (c as u32 - 48) as u64
    } else if 'a' <= c && c <= 'f' {
        (c as u32 - 87) as u64
    } else {
        (c as u32 - 55) as u64
    }
}

fn char_width(c: char) -> (r: usize)
    ensures
        r == utf8_width(c),
{
    if (c as u32) < 0x80 { 1 } else if (c as u32) < 0x800 { 2 } else if (c as u32) < 0x10000 { 3 } else { 4 }
}

/// The id a handle names; see `decode_handle`.
pub fn decode_handle_id(raw: &str) -> (r: Option<u64>)
    ensures
        r == decode_handle(raw@),
{
    let s = trim_str(raw);
    if s.unicode_len() == 0 {
        return None;
    }
    if let Some(v) = str_parse_u64(s) {
        return Some(v);
    }
    if let Some((_, suffix)) = str_split_once(s, ":") {
        return str_parse_u64(trim_str(suffix));
    }
    let n = s.unicode_len();
    let mut kept: Vec<char> = Vec::new();
    let mut bytes: usize = 0;
    let mut i: usize = 0;
    while i < n
        invariant
            n == s@.len(),
            i <= n,
            kept@ == no_dashes(s@.take(i as int)),
            utf8_len(kept@) <= 32 ==> bytes == utf8_len(kept@),
            utf8_len(kept@) > 32 ==> bytes > 32,
            bytes <= 36,
        decreases n - i,
    {
        let c = s.get_char(i);
        proof {
            assert(s@.take(i + 1) =~= s@.take(i as int).push(c));
            s@.take(i as int).lemma_filter_push(c, |c: char| not_dash(c));
        }
        if c != '-' {
            let ghost before = kept@;
            kept.push(c);
            proof { assert(kept@.drop_last() =~= before); }
            if bytes <= 32 {
                bytes = bytes + char_width(c);
            }
        }
        i = i + 1;
    }
    proof { assert(s@.take(n as int) =~= s@); }
    let len = kept.len();
    if bytes != 32 || len < 12 {
        return None;
    }
    let mut value: u64 = 0;
    let mut k: usize = len - 12;
    while k < len
        invariant
            len == kept@.len(),
            len >= 12,
            kept@ == no_dashes(s@),
            s@ == trim(raw@),
            s@.len() > 0,
            parse_u64(s@) is None,
            split_once(s@, ":"@) is None,
            utf8_len(kept@) == 32,
            len - 12 <= k <= len,
            forall|j: int| len - 12 <= j < k ==> is_hex_digit(#[trigger] kept@[j]),
            value as nat == hex_value(kept@.subrange(len - 12, k as int)),
            value < pow16((k - (len - 12)) as nat),
        decreases len - k,
    {
        let c = kept[k];
        if !(('0' <= c && c <= '9') || ('a' <= c && c <= 'f') || ('A' <= c && c <= 'F')) {
            proof { assert(!is_hex_digit(kept@[k as int])); }
            return None;
        }
        let d = hex_digit_of(c);
        proof {
            assert(kept@.subrange(len - 12, k + 1).drop_last() =~= kept@.subrange(len - 12, k as int));
            let p = pow16((k - (len - 12)) as nat);
            assert(pow16((k + 1 - (len - 12)) as nat) == 16 * p);
            lemma_pow16_mono((k + 1 - (len - 12)) as nat, 12);
            assert(pow16(12) == 0x1000000000000) by {
                reveal_with_fuel(pow16, 13);
            }
            assert(value * 16 + d < p * 16) by (nonlinear_arith)
                requires value < p, d < 16;
        }
        value = value * 16 + d;
        k = k + 1;
    }
    proof { assert(kept@.subrange(len - 12, len as int) =~= kept@.skip(len - 12)); }
    Some(value)
}


/// The UTF-8 byte count of a string (at most `u64::MAX`).
pub fn utf8_byte_count(s: &str) -> (r: u64)
    ensures
        r as nat == if utf8_len(s@) <= u64::MAX { utf8_len(s@) } else { u64::MAX as nat },
{
    let n = s.unicode_len();
    let mut total: u64 = 0;
    let mut i: usize = 0;
    while i < n
        invariant
            n == s@.len(),
            i <= n,
            total as nat == if utf8_len(s@.take(i as int)) <= u64::MAX { utf8_len(s@.take(i as int)) } else { u64::MAX as nat },
        decreases n - i,
    {
        let c = s.get_char(i);
        proof { assert(s@.take(i + 1).drop_last() =~= s@.take(i as int)); }
        let w = char_width(c) as u64;
        total = total.saturating_add(w);
        i = i + 1;
    }
    proof { assert(s@.take(n as int) =~= s@); }
    total
}


// ---------------------------------------------------------------------------
// Round trips
// ---------------------------------------------------------------------------

proof fn lemma_no_dashes_zeros(k: nat)
    ensures
        no_dashes(zeros(k)) == zeros(k),
    decreases k,
{
    reveal(Seq::filter);
    if k > 0 {
        lemma_no_dashes_zeros((k - 1) as nat);
        assert(zeros(k).drop_last() =~= zeros((k - 1) as nat));
        assert(zeros((k - 1) as nat).push('0') =~= zeros(k));
    }
}

proof fn lemma_no_dashes_keeps(s: Seq<char>)
    requires
        forall|i: int| 0 <= i < s.len() ==> s[i] != '-',
    ensures
        no_dashes(s) == s,
    decreases s.len(),
{
    reveal(Seq::filter);
    if s.len() > 0 {
        lemma_no_dashes_keeps(s.drop_last());
        assert(s.drop_last().push(s.last()) =~= s);
    }
}

proof fn lemma_no_dashes_dash()
    ensures
        no_dashes(seq!['-']) == Seq::<char>::empty(),
{
    reveal(Seq::filter);
    let s = seq!['-'];
    assert(s.drop_last() =~= Seq::<char>::empty());
    assert(s.last() == '-');
    assert(!not_dash(s.last()));
    assert(s.drop_last().filter(|c: char| not_dash(c)) == s.drop_last());
    assert(s.filter(|c: char| not_dash(c)) == s.drop_last().filter(|c: char| not_dash(c)));
}

proof fn lemma_utf8_len_ascii(s: Seq<char>)
    requires
        forall|i: int| 0 <= i < s.len() ==> (s[i] as u32) < 0x80,
    ensures
        utf8_len(s) == s.len(),
    decreases s.len(),
{
    if s.len() > 0 {
        lemma_utf8_len_ascii(s.drop_last());
    }
}

proof fn lemma_hex_digits(n: nat)
    ensures
        hex(n).len() >= 1,
        forall|i: int| 0 <= i < hex(n).len() ==> is_hex_digit(#[trigger] hex(n)[i]) && (hex(n)[i] as u32) < 0x80,
        hex_value(hex(n)) == n,
    decreases n,
{
    let d = n % 16;
    assert(hex_digit_value(hex_char(d)) == d && is_hex_digit(hex_char(d)) && (hex_char(d) as u32) < 0x80);
    if n < 16 {
        assert(hex(n) == seq![hex_char(n)]);
        assert(hex(n).drop_last() =~= Seq::<char>::empty());
        assert(hex_value(Seq::<char>::empty()) == 0);
        assert(hex(n).last() == hex_char(n));
        assert(n % 16 == n);
        assert(hex_value(hex(n)) == hex_value(hex(n).drop_last()) * 16 + hex_digit_value(hex(n).last()));
    } else {
        lemma_hex_digits(n / 16);
        let h = hex(n / 16).push(hex_char(d));
        assert(h.drop_last() =~= hex(n / 16));
        assert(hex_value(h) == hex_value(hex(n / 16)) * 16 + d);
        assert(n == (n / 16) * 16 + d);
    }
}

proof fn lemma_hex_value_zeros(k: nat, h: Seq<char>)
    ensures
        hex_value(zeros(k) + h) == hex_value(h),
    decreases h.len(), k,
{
    if h.len() > 0 {
        assert((zeros(k) + h).drop_last() =~= zeros(k) + h.drop_last());
        lemma_hex_value_zeros(k, h.drop_last());
    } else {
        assert(zeros(k) + h =~= zeros(k));
        if k > 0 {
            assert(zeros(k).drop_last() =~= zeros((k - 1) as nat));
            lemma_hex_value_zeros((k - 1) as nat, h);
            assert(zeros((k - 1) as nat) + h =~= zeros((k - 1) as nat));
        }
    }
}

proof fn lemma_find_none(s: Seq<char>, p: Seq<char>, i: int)
    requires
        p.len() == 1,
        0 <= i,
        forall|j: int| i <= j < s.len() ==> s[j] != p[0],
    ensures
        find_from(s, p, i) == -1,
    decreases s.len() + 1 - i,
{
    if i + 1 <= s.len() {
        assert(!matches_at(s, p, i)) by {
            if matches_at(s, p, i) {
                assert(s.subrange(i, i + 1)[0] == s[i]);
            }
        }
        lemma_find_none(s, p, i + 1);
    }
}

/// What any id's UUID-shaped handle is made of: it is its own trim, no
/// number, holds no colon, and without its dashes is twenty zeros followed
/// by the id's (at least twelve) hex digits, all ASCII.
proof fn lemma_handle_shape(id: u64)
    ensures
        crate::text::trim(handle_of(id)) == handle_of(id),
        parse_u64(handle_of(id)) is None,
        split_once(handle_of(id), ":"@) is None,
        no_dashes(handle_of(id)) == zeros(20) + hex12(id),
        utf8_len(no_dashes(handle_of(id))) == 20 + hex12(id).len(),
        hex12(id).len() >= 12,
        forall|i: int| 0 <= i < hex12(id).len() ==> is_hex_digit(#[trigger] hex12(id)[i]),
{
    let hx = hex(id as nat);
    lemma_hex_digits(id as nat);
    let h12 = hex12(id);
    assert(h12.len() >= 12);
    assert forall|i: int| 0 <= i < h12.len() implies is_hex_digit(#[trigger] h12[i]) && (h12[i] as u32) < 0x80 by {
        if hx.len() < 12 && i < 12 - hx.len() {
            assert(h12[i] == '0');
        } else if hx.len() < 12 {
            assert(h12[i] == hx[i - (12 - hx.len())]);
        }
    }
    let pre = handle_prefix();
    let h = handle_of(id);
    assert(h =~= pre + h12);
    // the handle is its own trim
    assert(h[0] == '0');
    assert(!is_ws(h[0]));
    assert(trim_start(h) == h);
    assert(h.last() == h12[h12.len() - 1]);
    assert(!is_ws(h.last()));
    assert(trim_end(h) == h);
    assert(crate::text::trim(h) == h);
    // it is not a number
    assert(unsigned_part(h) == h);
    assert(!is_digit_char(h[8]));
    assert(!all_digits(h));
    // it holds no colon
    reveal_strlit(":");
    assert forall|j: int| 0 <= j < h.len() implies h[j] != ":"@[0] by {
        if j < 24 {
            assert(h[j] == pre[j]);
        } else {
            assert(h[j] == h12[j - 24]);
        }
    }
    lemma_find_none(h, ":"@, 0);
    assert(split_once(h, ":"@) is None);
    // without dashes: twenty zeros, then the digits
    lemma_no_dashes_zeros(8);
    lemma_no_dashes_zeros(4);
    lemma_no_dashes_dash();
    assert forall|i: int| 0 <= i < h12.len() implies h12[i] != '-' by {}
    lemma_no_dashes_keeps(h12);
    Seq::filter_distributes_over_add(zeros(8), seq!['-'], |c: char| not_dash(c));
    Seq::filter_distributes_over_add(zeros(8) + seq!['-'], zeros(4), |c: char| not_dash(c));
    Seq::filter_distributes_over_add(zeros(8) + seq!['-'] + zeros(4), seq!['-'], |c: char| not_dash(c));
    Seq::filter_distributes_over_add(zeros(8) + seq!['-'] + zeros(4) + seq!['-'], zeros(4), |c: char| not_dash(c));
    Seq::filter_distributes_over_add(zeros(8) + seq!['-'] + zeros(4) + seq!['-'] + zeros(4), seq!['-'], |c: char| not_dash(c));
    Seq::filter_distributes_over_add(zeros(8) + seq!['-'] + zeros(4) + seq!['-'] + zeros(4) + seq!['-'], zeros(4), |c: char| not_dash(c));
    Seq::filter_distributes_over_add(pre.drop_last(), seq!['-'], |c: char| not_dash(c));
    assert(pre.drop_last() + seq!['-'] =~= pre);
    assert(zeros(8) + seq!['-'] + zeros(4) + seq!['-'] + zeros(4) + seq!['-'] + zeros(4) =~= pre.drop_last());
    Seq::filter_distributes_over_add(pre, h12, |c: char| not_dash(c));
    let nd = no_dashes(h);
    assert(nd =~= zeros(20) + h12);
    assert forall|i: int| 0 <= i < nd.len() implies (nd[i] as u32) < 0x80 by {
        if i >= 20 {
            assert(nd[i] == h12[i - 20]);
        }
    }
    lemma_utf8_len_ascii(nd);
}

/// A handle names the id it was made from, for ids of at most twelve hex
/// digits (below 2^48); the handle of a larger id names nothing.
pub proof fn law_handle_round_trip(id: u64)
    ensures
        id < 0x1_0000_0000_0000 ==> decode_handle(handle_of(id)) == Some(id),
        id >= 0x1_0000_0000_0000 ==> decode_handle(handle_of(id)) is None,
{
    lemma_handle_shape(id);
    let hx = hex(id as nat);
    lemma_hex_digits(id as nat);
    let h12 = hex12(id);
    let nd = no_dashes(handle_of(id));
    if id < 0x1_0000_0000_0000 {
        lemma_hex_len_le_12(id as nat);
        assert(h12.len() == 12);
        assert(nd.skip(nd.len() - 12) =~= h12);
        assert forall|i: int| nd.len() - 12 <= i < nd.len() implies is_hex_digit(#[trigger] nd[i]) by {
            assert(nd[i] == h12[i - 20]);
        }
        if hx.len() < 12 {
            lemma_hex_value_zeros((12 - hx.len()) as nat, hx);
        }
    } else {
        lemma_hex_len_ge_13(id as nat);
        assert(h12 == hx);
        assert(utf8_len(nd) != 32);
    }
}

proof fn lemma_hex_len_ge_13(n: nat)
    requires
        n >= 0x1_0000_0000_0000,
    ensures
        hex(n).len() >= 13,
{
    assert(pow16(12) == 0x1000000000000) by {
        reveal_with_fuel(pow16, 13);
    }
    lemma_hex_len_ge(n, 12);
}

proof fn lemma_hex_len_ge(n: nat, k: nat)
    requires
        n >= pow16(k),
    ensures
        hex(n).len() >= k + 1,
    decreases k,
{
    if k > 0 {
        assert(pow16(k) == 16 * pow16((k - 1) as nat));
        assert(n / 16 >= pow16((k - 1) as nat));
        lemma_hex_len_ge(n / 16, (k - 1) as nat);
        assert(n >= 16);
        assert(hex(n) == hex(n / 16).push(hex_char(n % 16)));
    }
}

proof fn lemma_hex_len_le_12(n: nat)
    requires
        n < 0x1_0000_0000_0000,
    ensures
        hex(n).len() <= 12,
{
    assert(pow16(12) == 0x1000000000000) by {
        reveal_with_fuel(pow16, 13);
    }
    lemma_hex_len_pow(n, 12);
}

proof fn lemma_hex_len_pow(n: nat, k: nat)
    requires
        n < pow16(k),
        k >= 1,
    ensures
        hex(n).len() <= k,
    decreases k,
{
    if n >= 16 {
        assert(pow16(k) == 16 * pow16((k - 1) as nat));
        assert(n / 16 < pow16((k - 1) as nat));
        if k == 1 {
            assert(pow16(0) == 1);
        } else {
            lemma_hex_len_pow(n / 16, (k - 1) as nat);
        }
    }
}


proof fn lemma_decimal_digits(n: nat)
    ensures
        decimal(n).len() >= 1,
        forall|i: int| 0 <= i < decimal(n).len() ==> is_digit_char(#[trigger] decimal(n)[i]),
        digits_value(decimal(n)) == n,
    decreases n,
{
    let d = n % 10;
    assert(is_digit_char(digit_char(d)) && ((digit_char(d) as u32) - 48) as nat == d);
    if n < 10 {
        assert(decimal(n) == seq![digit_char(n)]);
        assert(decimal(n).drop_last() =~= Seq::<char>::empty());
        assert(digits_value(decimal(n)) == digits_value(decimal(n).drop_last()) * 10 + ((decimal(n).last() as u32) - 48) as nat);
    } else {
        lemma_decimal_digits(n / 10);
        let s = decimal(n / 10).push(digit_char(d));
        assert(s.drop_last() =~= decimal(n / 10));
        assert(digits_value(s) == digits_value(decimal(n / 10)) * 10 + d);
        assert(n == (n / 10) * 10 + d);
    }
}

proof fn lemma_find_at(s: Seq<char>, p: Seq<char>, i: int, k: int)
    requires
        p.len() == 1,
        0 <= i <= k < s.len(),
        s[k] == p[0],
        forall|j: int| i <= j < k ==> s[j] != p[0],
    ensures
        find_from(s, p, i) == k,
    decreases k - i,
{
    if i < k {
        assert(!matches_at(s, p, i)) by {
            if matches_at(s, p, i) {
                assert(s.subrange(i, i + 1)[0] == s[i]);
            }
        }
        lemma_find_at(s, p, i + 1, k);
    } else {
        assert(s.subrange(k, k + 1) =~= p);
    }
}

/// A ref names the id it was made from, whatever its kind (a kind without a
/// colon and not starting with whitespace).
pub proof fn law_ref_round_trip(kind: Seq<char>, id: u64)
    requires
        forall|i: int| 0 <= i < kind.len() ==> kind[i] != ':',
        kind.len() == 0 || !is_ws(kind[0]),
    ensures
        decode_handle(ref_of(kind, id)) == Some(id),
{
    reveal_strlit(":");
    let dec = decimal(id as nat);
    lemma_decimal_digits(id as nat);
    let r = ref_of(kind, id);
    assert(r =~= kind + seq![':'] + dec);
    let k = kind.len() as int;
    assert(r[k] == ':');
    // its own trim
    assert(!is_ws(r[0]));
    assert(trim_start(r) == r);
    assert(r.last() == dec.last());
    assert(!is_ws(r.last()));
    assert(trim_end(r) == r);
    assert(crate::text::trim(r) == r);
    // not a number: it holds a colon
    let u = unsigned_part(r);
    if r[0] == '+' {
        assert(u[k - 1] == ':');
        assert(!is_digit_char(u[k - 1]));
    } else {
        assert(u[k] == ':');
        assert(!is_digit_char(u[k]));
    }
    assert(!all_digits(u));
    // split at its colon
    assert forall|j: int| 0 <= j < k implies r[j] != ":"@[0] by {
        assert(r[j] == kind[j]);
    }
    lemma_find_at(r, ":"@, 0, k);
    assert(r.take(k) =~= kind);
    assert(r.skip(k + 1) =~= dec);
    assert(split_once(r, ":"@) == Some((kind, dec)));
    // the id in decimal
    assert(!is_ws(dec[0]));
    assert(trim_start(dec) == dec);
    assert(!is_ws(dec.last()));
    assert(trim_end(dec) == dec);
    assert(crate::text::trim(dec) == dec);
    assert(unsigned_part(dec) == dec);
    assert(all_digits(dec));
}


/// The decimal rendering of a number starts and ends with a digit.
proof fn lemma_decimal_ends(n: nat)
    ensures
        decimal(n).len() > 0,
        !is_ws(decimal(n)[0]),
        !is_ws(decimal(n).last()),
        decimal(n)[0] != '+',
{
    lemma_decimal_digits(n);
    assert(is_digit_char(decimal(n)[0]));
    assert(is_digit_char(decimal(n)[decimal(n).len() - 1]));
}

proof fn lemma_trim_plain(s: Seq<char>)
    requires
        s.len() > 0,
        !is_ws(s[0]),
        !is_ws(s.last()),
    ensures
        trim(s) == s,
{
}

/// A decimal id names that id, and a blank handle names nothing. (A ref
/// `kind:<id>` names its id: `law_ref_round_trip`.)
pub proof fn law_decode_decimal(id: u64)
    ensures
        decode_handle(decimal(id as nat)) == Some(id),
        decode_handle("  "@) is None,
{
    let d = decimal(id as nat);
    lemma_decimal_digits(id as nat);
    lemma_decimal_ends(id as nat);
    lemma_trim_plain(d);
    assert(unsigned_part(d) == d);
    assert(parse_u64(d) == Some(id));

    reveal_strlit("  ");
    let b = "  "@;
    assert(b.len() == 2 && b[0] == ' ' && b[1] == ' ');
    assert(b.drop_first().drop_first() =~= Seq::<char>::empty());
    reveal_with_fuel(trim_start, 3);
    assert(trim_start(b) =~= Seq::<char>::empty());
}

} // verus!
