//! The command-line client's argument handling and the shaping of the answers
//! it prints.
use vstd::prelude::*;
use crate::json::{Json, JsonNumber, JsonV, json_view, members_view, items_view, lookup, get, object, array, key_is};
use crate::seqs::{first_index, lemma_first_index};
use crate::text::{decimal, push_char, push_decimal, str_eq, str_starts_with, starts_with};
use crate::socket_path::SocketMode;
use crate::control::opt_str_view;

verus! {

/// How handles are shown: as refs, as UUIDs, or both.
#[derive(Clone, Copy, Debug, PartialEq, Eq, Structural)]
pub enum IdFormat {
    Refs,
    Both,
    Uuids,
}

pub open spec fn id_format_of(raw: Seq<char>) -> Option<IdFormat> {
    if raw == "refs"@ {
        Some(IdFormat::Refs)
    } else if raw == "both"@ {
        Some(IdFormat::Both)
    } else if raw == "uuids"@ {
        Some(IdFormat::Uuids)
    } else {
        None
    }
}

impl IdFormat {
    /// `refs`, `both` or `uuids`.
    pub fn parse(raw: &str) -> (r: Result<IdFormat, String>)
        ensures
            match r {
                Ok(f) => id_format_of(raw@) == Some(f),
                Err(e) => id_format_of(raw@) is None && e@ == "--id-format must be one of refs|both|uuids"@,
            },
    {
        if str_eq(raw, "refs") {
            Ok(IdFormat::Refs)
        } else if str_eq(raw, "both") {
            Ok(IdFormat::Both)
        } else if str_eq(raw, "uuids") {
            Ok(IdFormat::Uuids)
        } else {
            Err(String::from_str("--id-format must be one of refs|both|uuids"))
        }
    }
}

pub open spec fn args_view(args: Seq<String>) -> Seq<Seq<char>> {
    args.map_values(|s: String| s@)
}

/// The value after the first occurrence of `name` that has one.
pub open spec fn option_value(args: Seq<Seq<char>>, name: Seq<char>) -> Option<Seq<char>>
    decreases args.len(),
{
    if args.len() < 2 {
        None
    } else if args[0] == name {
        Some(args[1])
    } else {
        option_value(args.drop_first(), name)
    }
}

/// The value given for option `name`; see `option_value`.
pub fn parse_opt(args: &[String], name: &str) -> (r: Option<String>)
    ensures
        crate::control::opt_str_view(r) == option_value(args_view(args@), name@),
{
    let ghost all = args_view(args@);
    let mut i: usize = 0;
    proof { assert(all.skip(0) =~= all); }
    while args.len() - i >= 2
        invariant
            all == args_view(args@),
            i <= args.len(),
            option_value(all, name@) == option_value(all.skip(i as int), name@),
        decreases args.len() - i,
    {
        proof {
            assert(all.skip(i as int)[0] == args@[i as int]@);
            assert(all.skip(i as int)[1] == args@[i + 1]@);
            assert(all.skip(i as int).drop_first() =~= all.skip(i + 1));
        }
        if str_eq(args[i].as_str(), name) {
            return Some(args[i + 1].clone());
        }
        i = i + 1;
    }
    None
}

/// Whether flag `name` is given.
pub fn parse_flag(args: &[String], name: &str) -> (r: bool)
    ensures
        r == args_view(args@).contains(name@),
{
    let ghost all = args_view(args@);
    let mut i: usize = 0;
    while i < args.len()
        invariant
            all == args_view(args@),
            i <= args.len(),
            forall|k: int| 0 <= k < i ==> all[k] != name@,
        decreases args.len() - i,
    {
        if str_eq(args[i].as_str(), name) {
            proof { assert(all[i as int] == name@); }
            return true;
        }
        i = i + 1;
    }
    false
}

/// Options that take a value, which `trailing_title` skips with their value.
pub open spec fn takes_value(arg: Seq<char>) -> bool {
    arg == "--workspace"@ || arg == "--tab"@ || arg == "--surface"@ || arg == "--pane"@
        || arg == "--target-pane"@ || arg == "--action"@ || arg == "--title"@ || arg == "--url"@
        || arg == "--cwd"@ || arg == "--command"@ || arg == "--direction"@ || arg == "--type"@
        || arg == "--lines"@ || arg == "--timeout"@ || arg == "--timeout-ms"@ || arg == "--name"@
        || arg == "--out"@
}

/// The words left once options (and the values of those that take one) are
/// skipped.
pub open spec fn plain_words(args: Seq<Seq<char>>) -> Seq<Seq<char>>
    decreases args.len(),
{
    if args.len() == 0 {
        Seq::empty()
    } else if takes_value(args[0]) {
        if args.len() >= 2 { plain_words(args.skip(2)) } else { Seq::empty() }
    } else if args[0].len() > 0 && args[0][0] == '-' {
        plain_words(args.drop_first())
    } else {
        seq![args[0]] + plain_words(args.drop_first())
    }
}

/// Words joined by single spaces.
pub open spec fn join_words(words: Seq<Seq<char>>) -> Seq<char>
    decreases words.len(),
{
    if words.len() == 0 {
        Seq::empty()
    } else if words.len() == 1 {
        words[0]
    } else {
        join_words(words.drop_last()) + " "@ + words.last()
    }
}

/// The title given as plain words, joined by spaces; `None` when there are
/// none.
pub open spec fn trailing_words(args: Seq<Seq<char>>) -> Option<Seq<char>> {
    let w = plain_words(args);
    if w.len() == 0 { None } else { Some(join_words(w)) }
}

fn option_takes_value(arg: &str) -> (r: bool)
    ensures
        r == takes_value(arg@),
{
    str_eq(arg, "--workspace") || str_eq(arg, "--tab") || str_eq(arg, "--surface") || str_eq(arg, "--pane")
        || str_eq(arg, "--target-pane") || str_eq(arg, "--action") || str_eq(arg, "--title") || str_eq(arg, "--url")
        || str_eq(arg, "--cwd") || str_eq(arg, "--command") || str_eq(arg, "--direction") || str_eq(arg, "--type")
        || str_eq(arg, "--lines") || str_eq(arg, "--timeout") || str_eq(arg, "--timeout-ms") || str_eq(arg, "--name")
        || str_eq(arg, "--out")
}

/// The title given as plain words; see `trailing_words`.
pub fn trailing_title(args: &[String]) -> (r: Option<String>)
    ensures
        crate::control::opt_str_view(r) == trailing_words(args_view(args@)),
{
    let ghost all = args_view(args@);
    let mut out = String::new();
    let mut count: usize = 0;
    let ghost mut taken: Seq<Seq<char>> = Seq::empty();
    let mut i: usize = 0;
    proof { assert(all.skip(0) =~= all); }
    while i < args.len()
        invariant
            all == args_view(args@),
            i <= args.len(),
            plain_words(all) == taken + plain_words(all.skip(i as int)),
            count == taken.len(),
            count > 0 ==> out@ == join_words(taken),
            count == 0 ==> out@ == Seq::<char>::empty(),
            count <= i,
        decreases args.len() - i,
    {
        let arg = args[i].as_str();
        let ghost rest = all.skip(i as int);
        proof { assert(rest[0] == arg@); }
        if option_takes_value(arg) {
            proof {
                if rest.len() >= 2 {
                    assert(rest.skip(2) =~= all.skip(i + 2));
                } else {
                    assert(all.skip(i + 1) =~= Seq::<Seq<char>>::empty());
                }
            }
            if i + 1 < args.len() {
                i = i + 2;
            } else {
                i = i + 1;
            }
        } else if arg.unicode_len() > 0 && arg.get_char(0) == '-' {
            proof { assert(rest.drop_first() =~= all.skip(i + 1)); }
            i = i + 1;
        } else {
            proof {
                assert(rest.drop_first() =~= all.skip(i + 1));
                reveal_strlit(" ");
            }
            if count > 0 {
                out.append(" ");
            }
            out.append(arg);
            proof {
                let t2 = taken.push(arg@);
                assert(t2.drop_last() =~= taken);
                assert(t2.last() == arg@);
                if count > 0 {
                    assert(join_words(t2) == join_words(taken) + " "@ + arg@);
                    assert(out@ =~= join_words(t2));
                } else {
                    assert(t2 =~= seq![arg@]);
                    assert(join_words(t2) == arg@);
                    assert(out@ =~= join_words(t2));
                }
                assert(taken + (seq![arg@] + plain_words(all.skip(i + 1))) =~= t2 + plain_words(all.skip(i + 1)));
                taken = t2;
            }
            count = count + 1;
            i = i + 1;
        }
    }
    proof { assert(all.skip(i as int) =~= Seq::<Seq<char>>::empty()); assert(taken + Seq::<Seq<char>>::empty() =~= taken); }
    if count == 0 { None } else { Some(out) }
}

pub open spec fn signal_char(c: char) -> char {
    if ('a' <= c && c <= 'z') || ('A' <= c && c <= 'Z') || ('0' <= c && c <= '9') || c == '-' || c == '_' { c } else { '_' }
}

/// The file that signals a named wait: `/tmp/chostty-wait-for-<name>.sig`,
/// with every character other than an ASCII letter, digit, `-` or `_`
/// replaced by `_`.
pub open spec fn signal_path(name: Seq<char>) -> Seq<char> {
    "/tmp/chostty-wait-for-"@ + name.map_values(|c: char| signal_char(c)) + ".sig"@
}

/// The file that signals a named wait; see `signal_path`.
pub fn wait_signal_path(name: &str) -> (r: String)
    ensures
        r@ == signal_path(name@),
{
    let mut out = String::from_str("/tmp/chostty-wait-for-");
    let ghost start = out@;
    let n = name.unicode_len();
    let mut i: usize = 0;
    while i < n
        invariant
            n == name@.len(),
            i <= n,
            out@ == start + name@.take(i as int).map_values(|c: char| signal_char(c)),
        decreases n - i,
    {
        let c = name.get_char(i);
        let ok = ('a' <= c && c <= 'z') || ('A' <= c && c <= 'Z') || ('0' <= c && c <= '9') || c == '-' || c == '_';
        push_char(&mut out, if ok { c } else { '_' });
        proof { assert(out@ =~= start + name@.take(i + 1).map_values(|c: char| signal_char(c))); }
        i = i + 1;
    }
    proof { assert(name@.take(i as int) =~= name@); }
    out.append(".sig");
    out
}

/// The tmux commands the client refuses.
pub open spec fn unsupported_tmux(cmd: Seq<char>) -> bool {
    cmd == "popup"@ || cmd == "bind-key"@ || cmd == "unbind-key"@ || cmd == "copy-mode"@
}

pub fn is_unsupported_tmux_cmd(cmd: &str) -> (r: bool)
    ensures
        r == unsupported_tmux(cmd@),
{
    str_eq(cmd, "popup") || str_eq(cmd, "bind-key") || str_eq(cmd, "unbind-key") || str_eq(cmd, "copy-mode")
}

// ---------------------------------------------------------------------------
// Reading answers
// ---------------------------------------------------------------------------

/// A number as text; a floating point value has no text here.
pub open spec fn number_text(n: JsonNumber) -> Option<Seq<char>> {
    match n {
        JsonNumber::UInt(u) => Some(decimal(u as nat)),
        JsonNumber::NegInt(i) => if i < 0 {
            Some("-"@ + decimal((-(i as int)) as nat))
        } else {
            Some(decimal(i as nat))
        },
        JsonNumber::FloatBits(_) => None,
    }
}

/// The first of `keys` that holds a non-empty string or a number, as text.
pub open spec fn string_at(v: JsonV, keys: Seq<Seq<char>>) -> Option<Seq<char>>
    decreases keys.len(),
{
    if keys.len() == 0 {
        None
    } else {
        let here = match v {
            JsonV::Object(ms) => match lookup(ms, keys[0]) {
                Some(JsonV::Str(s)) => if s.len() > 0 { Some(s) } else { None },
                Some(JsonV::Number(n)) => number_text(n),
                _ => None,
            },
            _ => None,
        };
        match here {
            Some(s) => Some(s),
            None => string_at(v, keys.drop_first()),
        }
    }
}

fn number_string(n: JsonNumber) -> (r: Option<String>)
    ensures
        crate::control::opt_str_view(r) == number_text(n),
{
    match n {
        JsonNumber::UInt(u) => {
            let mut s = String::new();
            push_decimal(&mut s, u);
            proof { assert(s@ =~= decimal(u as nat)); }
            Some(s)
        },
        JsonNumber::NegInt(i) => {
            if i >= 0 {
                let mut s = String::new();
                push_decimal(&mut s, i as u64);
                proof { assert(s@ =~= decimal(i as nat)); }
                return Some(s);
            }
            let mut s = String::from_str("-");
            let mag: u64 = if i == i64::MIN { 9223372036854775808u64 } else { (-i) as u64 };
            proof { reveal_strlit("-"); assert(mag as int == -(i as int)); }
            push_decimal(&mut s, mag);
            Some(s)
        },
        JsonNumber::FloatBits(_) => None,
    }
}

pub open spec fn keys_of(keys: Seq<&str>) -> Seq<Seq<char>> {
    keys.map_values(|k: &str| k@)
}

/// The first of `keys` holding text; see `string_at`.
pub fn get_string(value: &Json, keys: &[&str]) -> (r: Option<String>)
    ensures
        crate::control::opt_str_view(r) == string_at(json_view(*value), keys_of(keys@)),
{
    let ghost all = keys_of(keys@);
    let mut i: usize = 0;
    proof { assert(all.skip(0) =~= all); }
    while i < keys.len()
        invariant
            all == keys_of(keys@),
            i <= keys@.len(),
            string_at(json_view(*value), all) == string_at(json_view(*value), all.skip(i as int)),
        decreases keys.len() - i,
    {
        proof {
            assert(all.skip(i as int)[0] == keys@[i as int]@);
            assert(all.skip(i as int).drop_first() =~= all.skip(i + 1));
        }
        let here: Option<String> = match value {
            Json::Object(ms) => {
                proof { assert(json_view(*value)->Object_0 =~= members_view(ms@)); }
                match get(ms, keys[i]) {
                    Some(Json::Str(s)) => if s.unicode_len() > 0 { Some(s.clone()) } else { None },
                    Some(Json::Number(n)) => number_string(*n),
                    _ => None,
                }
            },
            _ => None,
        };
        if here.is_some() {
            return here;
        }
        i = i + 1;
    }
    proof { assert(all.skip(i as int) =~= Seq::<Seq<char>>::empty()); }
    None
}

/// A row's handle: its ref, else its id, else nothing.
pub open spec fn handle_in(v: JsonV, id_key: Seq<char>, ref_key: Seq<char>) -> Seq<char> {
    match string_at(v, seq![ref_key]) {
        Some(s) => s,
        None => match string_at(v, seq![id_key]) {
            Some(s) => s,
            None => Seq::empty(),
        },
    }
}

pub fn handle_from_payload(value: &Json, id_key: &str, ref_key: &str) -> (r: String)
    ensures
        r@ == handle_in(json_view(*value), id_key@, ref_key@),
{
    let rk = [ref_key];
    let ik = [id_key];
    proof {
        assert(keys_of(rk@) =~= seq![ref_key@]);
        assert(keys_of(ik@) =~= seq![id_key@]);
    }
    match get_string(value, &rk) {
        Some(s) => s,
        None => match get_string(value, &ik) {
            Some(s) => s,
            None => String::new(),
        },
    }
}


// ---------------------------------------------------------------------------
// Handle formats
// ---------------------------------------------------------------------------

pub open spec fn ends_with_id(k: Seq<char>) -> bool {
    k.len() >= 3 && k.skip(k.len() - 3) == "_id"@
}

/// A key with every trailing `_id` removed.
pub open spec fn strip_id(k: Seq<char>) -> Seq<char>
    decreases k.len(),
{
    if ends_with_id(k) { strip_id(k.take(k.len() - 3)) } else { k }
}

pub open spec fn has_key(ms: Seq<(Seq<char>, JsonV)>, k: Seq<char>) -> bool {
    exists|i: int| 0 <= i < ms.len() && #[trigger] ms[i].0 == k
}

pub open spec fn without_key(ms: Seq<(Seq<char>, JsonV)>, k: Seq<char>) -> Seq<(Seq<char>, JsonV)> {
    ms.filter(|p: (Seq<char>, JsonV)| p.0 != k)
}

/// What the format keeps of an `*_id` key: with refs, the id goes when its
/// ref is there; with UUIDs, the ref goes when the id is there.
pub open spec fn format_key(ms: Seq<(Seq<char>, JsonV)>, key: Seq<char>, f: IdFormat) -> Seq<(Seq<char>, JsonV)> {
    if ends_with_id(key) {
        let ref_key = strip_id(key) + "_ref"@;
        match f {
            IdFormat::Refs => if has_key(ms, ref_key) { without_key(ms, key) } else { ms },
            IdFormat::Uuids => if has_key(ms, key) { without_key(ms, ref_key) } else { ms },
            IdFormat::Both => ms,
        }
    } else {
        ms
    }
}

pub open spec fn format_keys(ms: Seq<(Seq<char>, JsonV)>, keys: Seq<Seq<char>>, f: IdFormat) -> Seq<(Seq<char>, JsonV)>
    decreases keys.len(),
{
    if keys.len() == 0 { ms } else { format_keys(format_key(ms, keys[0], f), keys.drop_first(), f) }
}

/// The members an object keeps under a format: the `*_id`/`*_ref` pairs
/// decided key by key in order, then `id`/`ref`.
pub open spec fn format_members(ms: Seq<(Seq<char>, JsonV)>, f: IdFormat) -> Seq<(Seq<char>, JsonV)> {
    let ms1 = format_keys(ms, ms.map_values(|p: (Seq<char>, JsonV)| p.0), f);
    match f {
        IdFormat::Refs => if has_key(ms1, "ref"@) { without_key(ms1, "id"@) } else { ms1 },
        IdFormat::Uuids => if has_key(ms1, "id"@) { without_key(ms1, "ref"@) } else { ms1 },
        IdFormat::Both => ms1,
    }
}

/// A value with its handles shown in a format, in every object at any depth.
pub open spec fn id_formatted(v: JsonV, f: IdFormat) -> JsonV
    decreases v, 1nat,
{
    match v {
        JsonV::Object(ms) => JsonV::Object(format_members(formatted_children(ms, f), f)),
        JsonV::Array(items) => JsonV::Array(formatted_items(items, f)),
        _ => v,
    }
}

/// The items of an array, each formatted.
pub open spec fn formatted_items(items: Seq<JsonV>, f: IdFormat) -> Seq<JsonV>
    decreases items, 0nat,
{
    Seq::new(items.len(), |i: int| if 0 <= i < items.len() { id_formatted(items[i], f) } else { JsonV::Null })
}

/// The members of an object, each value formatted.
pub open spec fn formatted_children(ms: Seq<(Seq<char>, JsonV)>, f: IdFormat) -> Seq<(Seq<char>, JsonV)>
    decreases ms, 0nat,
{
    Seq::new(ms.len(), |i: int| if 0 <= i < ms.len() { (ms[i].0, id_formatted(ms[i].1, f)) } else { (Seq::empty(), JsonV::Null) })
}

pub(crate) fn has_member(ms: &Vec<(String, Json)>, key: &str) -> (r: bool)
    ensures
        r == has_key(members_view(ms@), key@),
{
    let ghost mv = members_view(ms@);
    let mut i: usize = 0;
    while i < ms.len()
        invariant
            i <= ms.len(),
            mv == members_view(ms@),
            forall|k: int| 0 <= k < i ==> mv[k].0 != key@,
        decreases ms.len() - i,
    {
        if str_eq(ms[i].0.as_str(), key) {
            proof { assert(mv[i as int].0 == key@); }
            return true;
        }
        i = i + 1;
    }
    false
}

pub(crate) fn remove_member(ms: Vec<(String, Json)>, key: &str) -> (r: Vec<(String, Json)>)
    ensures
        members_view(r@) == without_key(members_view(ms@), key@),
{
    let ghost mv = members_view(ms@);
    let mut ms = ms;
    let mut out: Vec<(String, Json)> = Vec::new();
    let mut i: usize = 0;
    proof { assert(mv.take(0) =~= Seq::<(Seq<char>, JsonV)>::empty()); }
    while i < ms.len()
        invariant
            i <= ms.len(),
            ms@.len() == mv.len(),
            forall|k: int| i <= k < mv.len() ==> (#[trigger] ms@[k]).0@ == mv[k].0 && json_view(ms@[k].1) == mv[k].1,
            members_view(out@) == without_key(mv.take(i as int), key@),
        decreases ms.len() - i,
    {
        let mut item = (String::new(), Json::Null);
        std::mem::swap(&mut item, &mut ms[i]);
        proof {
            assert(mv.take(i + 1) =~= mv.take(i as int).push(mv[i as int]));
            mv.take(i as int).lemma_filter_push(mv[i as int], |p: (Seq<char>, JsonV)| p.0 != key@);
        }
        let ghost before = members_view(out@);
        if !str_eq(item.0.as_str(), key) {
            let ghost pv = (item.0@, json_view(item.1));
            out.push(item);
            proof { assert(members_view(out@) =~= before.push(pv)); }
        }
        i = i + 1;
    }
    proof { assert(mv.take(i as int) =~= mv); }
    out
}

fn strip_id_suffix(k: &str) -> (r: String)
    ensures
        r@ == strip_id(k@),
{
    let mut end = k.unicode_len();
    proof { reveal_strlit("_id"); assert(k@.take(end as int) =~= k@); }
    while end >= 3 && k.get_char(end - 3) == '_' && k.get_char(end - 2) == 'i' && k.get_char(end - 1) == 'd'
        invariant
            end <= k@.len(),
            strip_id(k@) == strip_id(k@.take(end as int)),
        decreases end,
    {
        proof {
            reveal_strlit("_id");
            let t = k@.take(end as int);
            assert(t.skip(t.len() - 3) =~= "_id"@);
            assert(t.take(t.len() - 3) =~= k@.take(end - 3));
        }
        end = end - 3;
    }
    proof {
        reveal_strlit("_id");
        let t = k@.take(end as int);
        if t.len() >= 3 {
            assert(t.skip(t.len() - 3)[0] == t[t.len() - 3]);
            assert(t.skip(t.len() - 3)[1] == t[t.len() - 2]);
            assert(t.skip(t.len() - 3)[2] == t[t.len() - 1]);
        }
    }
    String::from_str(k.substring_char(0, end))
}

fn id_key_ending(k: &str) -> (r: bool)
    ensures
        r == ends_with_id(k@),
{
    proof { reveal_strlit("_id"); }
    let n = k.unicode_len();
    let r = n >= 3 && k.get_char(n - 3) == '_' && k.get_char(n - 2) == 'i' && k.get_char(n - 1) == 'd';
    proof {
        if n >= 3 {
            if r { assert(k@.skip(n - 3) =~= "_id"@); }
            else {
                assert(k@.skip(n - 3)[0] == k@[n - 3]);
                assert(k@.skip(n - 3)[1] == k@[n - 2]);
                assert(k@.skip(n - 3)[2] == k@[n - 1]);
            }
        }
    }
    r
}

fn format_member_keys(ms: Vec<(String, Json)>, f: IdFormat) -> (r: Vec<(String, Json)>)
    ensures
        members_view(r@) == format_members(members_view(ms@), f),
{
    let ghost mv0 = members_view(ms@);
    let ghost keys = mv0.map_values(|p: (Seq<char>, JsonV)| p.0);
    let mut names: Vec<String> = Vec::new();
    let mut i: usize = 0;
    while i < ms.len()
        invariant
            i <= ms.len(),
            mv0 == members_view(ms@),
            keys == mv0.map_values(|p: (Seq<char>, JsonV)| p.0),
            names@.len() == i,
            forall|k: int| 0 <= k < i ==> #[trigger] names@[k]@ == keys[k],
        decreases ms.len() - i,
    {
        names.push(ms[i].0.clone());
        i = i + 1;
    }
    let mut ms = ms;
    let mut j: usize = 0;
    proof { assert(keys.skip(0) =~= keys); }
    while j < names.len()
        invariant
            j <= names@.len(),
            names@.len() == keys.len(),
            forall|k: int| 0 <= k < names@.len() ==> #[trigger] names@[k]@ == keys[k],
            format_keys(mv0, keys, f) == format_keys(members_view(ms@), keys.skip(j as int), f),
        decreases names.len() - j,
    {
        let key = names[j].as_str();
        proof {
            assert(keys.skip(j as int)[0] == key@);
            assert(keys.skip(j as int).drop_first() =~= keys.skip(j + 1));
        }
        if id_key_ending(key) {
            let mut ref_key = strip_id_suffix(key);
            ref_key.append("_ref");
            match f {
                IdFormat::Refs => {
                    if has_member(&ms, ref_key.as_str()) {
                        ms = remove_member(ms, key);
                    }
                },
                IdFormat::Uuids => {
                    if has_member(&ms, key) {
                        ms = remove_member(ms, ref_key.as_str());
                    }
                },
                IdFormat::Both => {},
            }
        }
        j = j + 1;
    }
    proof { assert(keys.skip(j as int) =~= Seq::<Seq<char>>::empty()); }
    match f {
        IdFormat::Refs => if has_member(&ms, "ref") { remove_member(ms, "id") } else { ms },
        IdFormat::Uuids => if has_member(&ms, "id") { remove_member(ms, "ref") } else { ms },
        IdFormat::Both => ms,
    }
}

fn formatted_copy(value: &Json, f: IdFormat) -> (r: Json)
    ensures
        json_view(r) == id_formatted(json_view(*value), f),
    decreases value,
{
    match value {
        Json::Object(v) => {
            let mut out: Vec<(String, Json)> = Vec::new();
            let mut i: usize = 0;
            while i < v.len()
                invariant
                    i <= v.len(),
                    *value == Json::Object(*v),
                    out@.len() == i,
                    forall|k: int| 0 <= k < i ==> (#[trigger] out@[k]).0@ == v@[k].0@
                        && json_view(out@[k].1) == id_formatted(json_view(v@[k].1), f),
                decreases v.len() - i,
            {
                proof {
                    assert(decreases_to!(*value => (*value)->Object_0));
                    assert(decreases_to!(*v => v@));
                    assert(decreases_to!(v@ => v@[i as int]));
                    assert(decreases_to!(v@[i as int] => v@[i as int].1));
                }
                let c = formatted_copy(&v[i].1, f);
                out.push((v[i].0.clone(), c));
                i = i + 1;
            }
            proof {
                let ms = json_view(*value)->Object_0;
                assert(ms =~= members_view(v@));
                assert(members_view(out@) =~= formatted_children(ms, f));
                assert(json_view(*value) == JsonV::Object(ms));
                assert(id_formatted(json_view(*value), f) == JsonV::Object(format_members(formatted_children(ms, f), f)));
            }
            let ghost outv = members_view(out@);
            let fm = format_member_keys(out, f);
            assert(members_view(fm@) == format_members(outv, f));
            let r = object(fm);
            assert(json_view(r) == id_formatted(json_view(*value), f));
            r
        },
        Json::Array(v) => {
            let mut out: Vec<Json> = Vec::new();
            let mut i: usize = 0;
            while i < v.len()
                invariant
                    i <= v.len(),
                    *value == Json::Array(*v),
                    out@.len() == i,
                    forall|k: int| 0 <= k < i ==> json_view(#[trigger] out@[k]) == id_formatted(json_view(v@[k]), f),
                decreases v.len() - i,
            {
                proof {
                    assert(decreases_to!(*value => (*value)->Array_0));
                    assert(decreases_to!(*v => v@));
                    assert(decreases_to!(v@ => v@[i as int]));
                }
                let c = formatted_copy(&v[i], f);
                out.push(c);
                i = i + 1;
            }
            proof {
                let items = json_view(*value)->Array_0;
                assert(items =~= items_view(v@));
                assert(items_view(out@) =~= formatted_items(items, f));
            }
            array(out)
        },
        _ => {
            let r = crate::json::clone_json(value);
            assert(json_view(r) == id_formatted(json_view(*value), f));
            r
        },
    }
}

/// Shows the handles of a value in a format; see `id_formatted`.
pub fn apply_id_format(value: &mut Json, f: IdFormat)
    ensures
        json_view(*final(value)) == id_formatted(json_view(*old(value)), f),
{
    let r = formatted_copy(&*value, f);
    *value = r;
}


// ---------------------------------------------------------------------------
// Listing as text
// ---------------------------------------------------------------------------

/// The array under `key`, or none.
pub open spec fn rows_at(payload: JsonV, key: Seq<char>) -> Seq<JsonV> {
    match payload {
        JsonV::Object(ms) => match lookup(ms, key) {
            Some(JsonV::Array(items)) => items,
            _ => Seq::empty(),
        },
        _ => Seq::empty(),
    }
}

pub open spec fn bool_at(row: JsonV, key: Seq<char>) -> Option<bool> {
    match row {
        JsonV::Object(ms) => match lookup(ms, key) {
            Some(JsonV::Bool(b)) => Some(b),
            _ => None,
        },
        _ => None,
    }
}

pub open spec fn uint_at(row: JsonV, key: Seq<char>) -> Option<u64> {
    match row {
        JsonV::Object(ms) => match lookup(ms, key) {
            Some(JsonV::Number(JsonNumber::UInt(n))) => Some(n),
            _ => None,
        },
        _ => None,
    }
}

pub open spec fn or_empty(o: Option<Seq<char>>) -> Seq<char> {
    match o { Some(s) => s, None => Seq::empty() }
}

pub open spec fn bool_text(b: bool) -> Seq<char> {
    if b { "true"@ } else { "false"@ }
}

/// The line printed for a row of a listing.
pub open spec fn list_line(command: Seq<char>, row: JsonV) -> Seq<char> {
    if command == "list-panels"@ {
        handle_in(row, "surface_id"@, "surface_ref"@) + " "@ + or_empty(string_at(row, seq!["title"@]))
    } else if command == "list-panes"@ {
        handle_in(row, "pane_id"@, "pane_ref"@) + " surfaces="@
            + decimal((match uint_at(row, "surface_count"@) { Some(n) => n, None => 0 }) as nat)
    } else if command == "list-workspaces"@ {
        let mark = if bool_at(row, "selected"@) == Some(true) { "* "@ } else { "  "@ };
        mark + handle_in(row, "workspace_id"@, "workspace_ref"@) + " "@ + or_empty(string_at(row, seq!["title"@, "name"@]))
    } else {
        handle_in(row, "surface_id"@, "surface_ref"@) + " healthy="@
            + bool_text(match bool_at(row, "healthy"@) { Some(b) => b, None => true })
    }
}

/// Lines joined by newlines.
pub open spec fn join_lines(lines: Seq<Seq<char>>) -> Seq<char>
    decreases lines.len(),
{
    if lines.len() == 0 {
        Seq::empty()
    } else if lines.len() == 1 {
        lines[0]
    } else {
        join_lines(lines.drop_last()) + "\n"@ + lines.last()
    }
}

/// The text a listing command prints: one line per row, or a notice that
/// there are none.
pub open spec fn list_text(command: Seq<char>, payload: JsonV) -> Seq<char> {
    let (key, none) = if command == "list-panels"@ {
        ("surfaces"@, "No surfaces"@)
    } else if command == "list-panes"@ {
        ("panes"@, "No panes"@)
    } else if command == "list-workspaces"@ {
        ("workspaces"@, "No workspaces"@)
    } else {
        ("surfaces"@, "No surfaces"@)
    };
    if !(command == "list-panels"@ || command == "list-panes"@ || command == "list-workspaces"@ || command == "surface-health"@) {
        Seq::empty()
    } else {
        let rows = rows_at(payload, key);
        if rows.len() == 0 {
            none
        } else {
            join_lines(rows.map_values(|row: JsonV| list_line(command, row)))
        }
    }
}

fn bool_in(row: &Json, key: &str) -> (r: Option<bool>)
    ensures
        r == bool_at(json_view(*row), key@),
{
    match row {
        Json::Object(ms) => {
            proof { assert(json_view(*row)->Object_0 =~= members_view(ms@)); }
            match get(ms, key) {
                Some(Json::Bool(b)) => Some(*b),
                _ => None,
            }
        },
        _ => None,
    }
}

fn uint_in(row: &Json, key: &str) -> (r: Option<u64>)
    ensures
        r == uint_at(json_view(*row), key@),
{
    match row {
        Json::Object(ms) => {
            proof { assert(json_view(*row)->Object_0 =~= members_view(ms@)); }
            match get(ms, key) {
                Some(Json::Number(JsonNumber::UInt(n))) => Some(*n),
                _ => None,
            }
        },
        _ => None,
    }
}

fn list_line_of(command: &str, row: &Json) -> (r: String)
    requires
        command@ == "list-panels"@ || command@ == "list-panes"@ || command@ == "list-workspaces"@ || command@ == "surface-health"@,
    ensures
        r@ == list_line(command@, json_view(*row)),
{
    let t = [ "title" ];
    let tn = [ "title", "name" ];
    proof {
        assert(keys_of(t@) =~= seq!["title"@]);
        assert(keys_of(tn@) =~= seq!["title"@, "name"@]);
    }
    if str_eq(command, "list-panels") {
        let mut line = handle_from_payload(row, "surface_id", "surface_ref");
        line.append(" ");
        let title = match get_string(row, &t) { Some(x) => x, None => String::new() };
        line.append(title.as_str());
        line
    } else if str_eq(command, "list-panes") {
        let mut line = handle_from_payload(row, "pane_id", "pane_ref");
        line.append(" surfaces=");
        let count = match uint_in(row, "surface_count") { Some(n) => n, None => 0 };
        push_decimal(&mut line, count);
        line
    } else if str_eq(command, "list-workspaces") {
        let mut line = if bool_in(row, "selected") == Some(true) { String::from_str("* ") } else { String::from_str("  ") };
        let handle = handle_from_payload(row, "workspace_id", "workspace_ref");
        line.append(handle.as_str());
        line.append(" ");
        let title = match get_string(row, &tn) { Some(x) => x, None => String::new() };
        line.append(title.as_str());
        line
    } else {
        let mut line = handle_from_payload(row, "surface_id", "surface_ref");
        line.append(" healthy=");
        let healthy = match bool_in(row, "healthy") { Some(b) => b, None => true };
        line.append(if healthy { "true" } else { "false" });
        line
    }
}

/// The text a listing command prints; see `list_text`.
pub fn render_list_text(command: &str, payload: &Json) -> (r: String)
    ensures
        r@ == list_text(command@, json_view(*payload)),
{
    let listing = str_eq(command, "list-panels") || str_eq(command, "list-panes")
        || str_eq(command, "list-workspaces") || str_eq(command, "surface-health");
    if !listing {
        return String::new();
    }
    let (key, none) = if str_eq(command, "list-panels") {
        ("surfaces", "No surfaces")
    } else if str_eq(command, "list-panes") {
        ("panes", "No panes")
    } else if str_eq(command, "list-workspaces") {
        ("workspaces", "No workspaces")
    } else {
        ("surfaces", "No surfaces")
    };
    let rows: &Vec<Json> = match payload {
        Json::Object(ms) => {
            proof { assert(json_view(*payload)->Object_0 =~= members_view(ms@)); }
            match get(ms, key) {
                Some(Json::Array(items)) => items,
                _ => return String::from_str(none),
            }
        },
        _ => return String::from_str(none),
    };
    let ghost rv = rows_at(json_view(*payload), key@);
    proof { assert(rv =~= items_view(rows@)); }
    if rows.len() == 0 {
        return String::from_str(none);
    }
    let ghost lines = rv.map_values(|row: JsonV| list_line(command@, row));
    let mut out = list_line_of(command, &rows[0]);
    let mut i: usize = 1;
    proof { assert(lines.take(1) =~= seq![lines[0]]); }
    while i < rows.len()
        invariant
            1 <= i <= rows.len(),
            rv == items_view(rows@),
            lines == rv.map_values(|row: JsonV| list_line(command@, row)),
            command@ == "list-panels"@ || command@ == "list-panes"@ || command@ == "list-workspaces"@ || command@ == "surface-health"@,
            out@ == join_lines(lines.take(i as int)),
        decreases rows.len() - i,
    {
        out.append("\n");
        let line = list_line_of(command, &rows[i]);
        out.append(line.as_str());
        proof {
            assert(lines.take(i + 1).drop_last() =~= lines.take(i as int));
            assert(lines.take(i + 1).last() == line@);
        }
        i = i + 1;
    }
    proof { assert(lines.take(i as int) =~= lines); }
    out
}


/// The global options that stand before the command, as values.
pub struct GlobalOptionsV {
    pub socket: Option<Seq<char>>,
    pub socket_mode: SocketMode,
    pub json_output: bool,
    pub id_format: IdFormat,
    pub request: Option<Seq<char>>,
    pub pretty: bool,
}

/// Where reading the global options ends: asked for help, done with the
/// command starting at an index, or refused with a message.
pub enum GlobalScan {
    Help,
    Done(GlobalOptionsV, int),
    Fail(Seq<char>),
}

/// No socket, the runtime socket, text output, refs.
pub open spec fn default_global_options() -> GlobalOptionsV {
    GlobalOptionsV {
        socket: None,
        socket_mode: SocketMode::Runtime,
        json_output: false,
        id_format: IdFormat::Refs,
        request: None,
        pretty: false,
    }
}

pub open spec fn with_socket(o: GlobalOptionsV, v: Seq<char>) -> GlobalOptionsV {
    GlobalOptionsV { socket: Some(v), socket_mode: o.socket_mode, json_output: o.json_output, id_format: o.id_format, request: o.request, pretty: o.pretty }
}

pub open spec fn with_mode(o: GlobalOptionsV, m: SocketMode) -> GlobalOptionsV {
    GlobalOptionsV { socket: o.socket, socket_mode: m, json_output: o.json_output, id_format: o.id_format, request: o.request, pretty: o.pretty }
}

pub open spec fn with_json(o: GlobalOptionsV) -> GlobalOptionsV {
    GlobalOptionsV { socket: o.socket, socket_mode: o.socket_mode, json_output: true, id_format: o.id_format, request: o.request, pretty: o.pretty }
}

pub open spec fn with_format(o: GlobalOptionsV, f: IdFormat) -> GlobalOptionsV {
    GlobalOptionsV { socket: o.socket, socket_mode: o.socket_mode, json_output: o.json_output, id_format: f, request: o.request, pretty: o.pretty }
}

pub open spec fn with_request(o: GlobalOptionsV, v: Seq<char>) -> GlobalOptionsV {
    GlobalOptionsV { socket: o.socket, socket_mode: o.socket_mode, json_output: o.json_output, id_format: o.id_format, request: Some(v), pretty: o.pretty }
}

pub open spec fn with_pretty(o: GlobalOptionsV) -> GlobalOptionsV {
    GlobalOptionsV { socket: o.socket, socket_mode: o.socket_mode, json_output: o.json_output, id_format: o.id_format, request: o.request, pretty: true }
}

/// Reads global options from index `i` on: each word that starts with `-` and
/// is a known global option is taken (with its value where it has one); the
/// command starts at the first word that is not. `--help` and `-h` ask for
/// help.
pub open spec fn scan_globals(args: Seq<Seq<char>>, i: int, o: GlobalOptionsV) -> GlobalScan
    decreases args.len() - i,
{
    if i < 0 || i >= args.len() {
        GlobalScan::Done(o, i)
    } else {
        let a = args[i];
        let has_value = i + 1 < args.len();
        if !(a.len() > 0 && a[0] == '-') {
            GlobalScan::Done(o, i)
        } else if a == "--socket"@ {
            if has_value { scan_globals(args, i + 2, with_socket(o, args[i + 1])) }
            else { GlobalScan::Fail("--socket requires a value"@) }
        } else if a == "--socket-mode"@ {
            if !has_value {
                GlobalScan::Fail("--socket-mode requires runtime|debug"@)
            } else if args[i + 1] == "runtime"@ {
                scan_globals(args, i + 2, with_mode(o, SocketMode::Runtime))
            } else if args[i + 1] == "debug"@ {
                scan_globals(args, i + 2, with_mode(o, SocketMode::Debug))
            } else {
                GlobalScan::Fail("--socket-mode must be runtime or debug"@)
            }
        } else if a == "--json"@ {
            scan_globals(args, i + 1, with_json(o))
        } else if a == "--id-format"@ {
            if !has_value {
                GlobalScan::Fail("--id-format requires refs|both|uuids"@)
            } else {
                match id_format_of(args[i + 1]) {
                    Some(f) => scan_globals(args, i + 2, with_format(o, f)),
                    None => GlobalScan::Fail("--id-format must be one of refs|both|uuids"@),
                }
            }
        } else if a == "--request"@ {
            if has_value { scan_globals(args, i + 2, with_request(o, args[i + 1])) }
            else { GlobalScan::Fail("--request requires a JSON value"@) }
        } else if a == "--pretty"@ {
            scan_globals(args, i + 1, with_pretty(o))
        } else if a == "--help"@ || a == "-h"@ {
            GlobalScan::Help
        } else {
            GlobalScan::Done(o, i)
        }
    }
}

/// The global options and the words of the command that follows them.
pub struct GlobalOptions {
    pub socket: Option<String>,
    pub socket_mode: SocketMode,
    pub json_output: bool,
    pub id_format: IdFormat,
    pub request: Option<String>,
    pub pretty: bool,
    pub command_args: Vec<String>,
}

impl GlobalOptions {
    pub open spec fn options_view(&self) -> GlobalOptionsV {
        GlobalOptionsV {
            socket: opt_str_view(self.socket),
            socket_mode: self.socket_mode,
            json_output: self.json_output,
            id_format: self.id_format,
            request: opt_str_view(self.request),
            pretty: self.pretty,
        }
    }
}

/// What the command line asks for: help, or a command with its options.
pub enum ParsedArgs {
    Help,
    Options(GlobalOptions),
}

/// The words from index `start` on.
fn words_from(args: &Vec<String>, start: usize) -> (r: Vec<String>)
    requires
        start <= args.len(),
    ensures
        args_view(r@) == args_view(args@).skip(start as int),
{
    let mut out: Vec<String> = Vec::new();
    let mut k: usize = start;
    while k < args.len()
        invariant
            start <= k <= args.len(),
            out@.len() == k - start,
            forall|j: int| 0 <= j < out@.len() ==> out@[j]@ == args@[start + j]@,
        decreases args.len() - k,
    {
        let w = args[k].clone();
        out.push(w);
        k = k + 1;
    }
    proof {
        assert forall|j: int| 0 <= j < out@.len() implies args_view(out@)[j] == args_view(args@).skip(start as int)[j] by {
            assert(out@[j]@ == args@[start + j]@);
        }
        assert(args_view(out@) =~= args_view(args@).skip(start as int));
    }
    out
}

/// Reads the global options from the arguments (the program's name left out)
/// as `scan_globals` says; the rest are the command's words.
pub fn parse_global_args(args: Vec<String>) -> (r: Result<ParsedArgs, String>)
    ensures
        match (r, scan_globals(args_view(args@), 0, default_global_options())) {
            (Ok(ParsedArgs::Help), GlobalScan::Help) => true,
            (Ok(ParsedArgs::Options(g)), GlobalScan::Done(o, start)) =>
                g.options_view() == o && args_view(g.command_args@) == args_view(args@).skip(start),
            (Err(e), GlobalScan::Fail(m)) => e@ == m,
            _ => false,
        },
{
    let ghost all = args_view(args@);
    let mut socket: Option<String> = None;
    let mut socket_mode = SocketMode::Runtime;
    let mut json_output = false;
    let mut id_format = IdFormat::Refs;
    let mut request: Option<String> = None;
    let mut pretty = false;
    let mut i: usize = 0;
    loop
        invariant
            all == args_view(args@),
            i <= args.len(),
            scan_globals(all, 0, default_global_options()) == scan_globals(all, i as int, GlobalOptionsV {
                socket: opt_str_view(socket),
                socket_mode,
                json_output,
                id_format,
                request: opt_str_view(request),
                pretty,
            }),
        decreases args.len() - i,
    {
        let ghost o = GlobalOptionsV {
            socket: opt_str_view(socket),
            socket_mode,
            json_output,
            id_format,
            request: opt_str_view(request),
            pretty,
        };
        let mut stop = i >= args.len();
        if !stop {
            proof { assert(all[i as int] == args@[i as int]@); }
            let dash = str_starts_with(args[i].as_str(), "-");
            proof {
                reveal_strlit("-");
                let w = all[i as int];
                if dash {
                    assert(w.take(1)[0] == w[0]);
                } else if w.len() > 0 && w[0] == '-' {
                    assert(w.take(1) =~= "-"@);
                }
                assert(dash <==> (w.len() > 0 && w[0] == '-'));
            }
            stop = !dash;
        }
        if !stop {
            let has_value = i + 1 < args.len();
            proof {
                if has_value {
                    assert(all[i + 1] == args@[i + 1]@);
                }
            }
            let a = args[i].as_str();
            if str_eq(a, "--socket") {
                if !has_value {
                    return Err(String::from_str("--socket requires a value"));
                }
                socket = Some(args[i + 1].clone());
                i = i + 2;
            } else if str_eq(a, "--socket-mode") {
                if !has_value {
                    return Err(String::from_str("--socket-mode requires runtime|debug"));
                }
                let v = args[i + 1].as_str();
                if str_eq(v, "runtime") {
                    socket_mode = SocketMode::Runtime;
                } else if str_eq(v, "debug") {
                    socket_mode = SocketMode::Debug;
                } else {
                    return Err(String::from_str("--socket-mode must be runtime or debug"));
                }
                i = i + 2;
            } else if str_eq(a, "--json") {
                json_output = true;
                i = i + 1;
            } else if str_eq(a, "--id-format") {
                if !has_value {
                    return Err(String::from_str("--id-format requires refs|both|uuids"));
                }
                match IdFormat::parse(args[i + 1].as_str()) {
                    Ok(f) => { id_format = f; }
                    Err(e) => { return Err(e); }
                }
                i = i + 2;
            } else if str_eq(a, "--request") {
                if !has_value {
                    return Err(String::from_str("--request requires a JSON value"));
                }
                request = Some(args[i + 1].clone());
                i = i + 2;
            } else if str_eq(a, "--pretty") {
                pretty = true;
                i = i + 1;
            } else if str_eq(a, "--help") || str_eq(a, "-h") {
                return Ok(ParsedArgs::Help);
            } else {
                stop = true;
            }
        }
        if stop {
            let command_args = words_from(&args, i);
            return Ok(ParsedArgs::Options(GlobalOptions {
                socket,
                socket_mode,
                json_output,
                id_format,
                request,
                pretty,
                command_args,
            }));
        }
    }
}

} // verus!
