//! Panel snapshots, window screenshots and the pane layout of the focused
//! window. The control plane keeps each surface's snapshot baseline and the
//! screenshot counter; the host writes the image files, names them with
//! `snapshot_file_name`, and adds their `path` and `url` to the answer.
use vstd::prelude::*;
use vstd::utf8::encode_utf8;
use crate::json::{Json, JsonV, json_view, members_view, object, put, new_members, uint, text, string, boolean, juint, jstr, jbool};
use crate::text::{decimal, push_decimal, trim, trim_str, push_char};
use super::model::{list_panes, focused_handles};
use super::protocol::{CommandError, ErrorV, Members, u64_param_any, not_found_err, string_param, optional_string_param, jhandle, handle_json};
use super::dispatch::{Outcome, fail, ok, res_view, focused_surface_id, focused_surface_of};
use super::debug_commands::{listed_surface, listed_surface_of, surface_hint};
use super::state::ControlState;
use super::{ControlV, PaneInfo};

verus! {

/// The bytes of the placeholder PNG image the host writes.
pub open spec fn mock_png() -> Seq<u8> {
    seq![
        137u8, 80, 78, 71, 13, 10, 26, 10, 0, 0, 0, 13, 73, 72, 68, 82, 0, 0, 0, 1, 0, 0, 0, 1, 8, 4, 0,
        0, 0, 181, 28, 12, 2, 0, 0, 0, 11, 73, 68, 65, 84, 120, 218, 99, 252, 255, 31, 0, 3, 3, 2, 0,
        238, 217, 43, 101, 0, 0, 0, 0, 73, 69, 78, 68, 174, 66, 96, 130,
    ]
}

/// The placeholder PNG image written for snapshots and screenshots.
pub fn mock_png_bytes() -> (r: Vec<u8>)
    ensures
        r@ == mock_png(),
        r@.len() == 68,
{
    let r = vec![
        137u8, 80, 78, 71, 13, 10, 26, 10, 0, 0, 0, 13, 73, 72, 68, 82, 0, 0, 0, 1, 0, 0, 0, 1, 8, 4, 0,
        0, 0, 181, 28, 12, 2, 0, 0, 0, 11, 73, 68, 65, 84, 120, 218, 99, 252, 255, 31, 0, 3, 3, 2, 0,
        238, 217, 43, 101, 0, 0, 0, 0, 73, 69, 78, 68, 174, 66, 96, 130,
    ];
    proof { assert(r@ =~= mock_png()); }
    r
}

pub open spec fn label_char(c: char) -> char {
    if ('0' <= c <= '9') || ('a' <= c <= 'z') || ('A' <= c <= 'Z') || c == '-' || c == '_' { c } else { '_' }
}

/// A label fit for a file name: trimmed, every character other than an
/// ASCII letter, digit, `-` or `_` replaced by `_`; `shot` when blank.
pub open spec fn sanitized_label(label: Seq<char>) -> Seq<char> {
    let t = trim(label);
    if t.len() == 0 { "shot"@ } else { t.map_values(|c: char| label_char(c)) }
}

pub fn sanitize_label(label: &str) -> (r: String)
    ensures
        r@ == sanitized_label(label@),
{
    let t = trim_str(label);
    let n = t.unicode_len();
    if n == 0 {
        return String::from_str("shot");
    }
    let mut out = String::new();
    let mut i: usize = 0;
    while i < n
        invariant
            n == t@.len(),
            t@ == trim(label@),
            i <= n,
            out@ == t@.take(i as int).map_values(|c: char| label_char(c)),
        decreases n - i,
    {
        let c = t.get_char(i);
        let k = if ('0' <= c && c <= '9') || ('a' <= c && c <= 'z') || ('A' <= c && c <= 'Z') || c == '-' || c == '_' { c } else { '_' };
        push_char(&mut out, k);
        proof {
            assert(t@.take(i + 1).map_values(|c: char| label_char(c))
                =~= t@.take(i as int).map_values(|c: char| label_char(c)).push(label_char(c)));
        }
        i = i + 1;
    }
    proof { assert(t@.take(n as int) =~= t@); }
    out
}

/// The name of an image file: `<prefix>-<id>-<stamp>-<label>.png`, where the
/// stamp is the host's clock reading and the label is sanitized.
pub open spec fn snapshot_name(prefix: Seq<char>, label: Seq<char>, id: u64, stamp: Seq<char>) -> Seq<char> {
    prefix + "-"@ + decimal(id as nat) + "-"@ + stamp + "-"@ + sanitized_label(label) + ".png"@
}

pub fn snapshot_file_name(prefix: &str, label: &str, id: u64, stamp: &str) -> (r: String)
    ensures
        r@ == snapshot_name(prefix@, label@, id, stamp@),
{
    let mut s = String::from_str(prefix);
    s.append("-");
    push_decimal(&mut s, id);
    s.append("-");
    s.append(stamp);
    s.append("-");
    let l = sanitize_label(label);
    s.append(l.as_str());
    s.append(".png");
    s
}

/// Positions below `n` where the two byte strings differ.
pub open spec fn mismatches(a: Seq<u8>, b: Seq<u8>, n: nat) -> nat
    decreases n,
{
    if n == 0 { 0 } else { mismatches(a, b, (n - 1) as nat) + if a[n - 1] != b[n - 1] { 1nat } else { 0nat } }
}

/// An estimate of the pixels that changed between two texts: nothing when
/// they are equal; else 64 per differing UTF-8 byte (the length difference
/// counted as differing), saturating, and at least 24.
pub open spec fn changed_pixels(previous: Seq<char>, current: Seq<char>) -> u64 {
    if previous == current {
        0
    } else {
        let a = encode_utf8(previous);
        let b = encode_utf8(current);
        let lo = if a.len() <= b.len() { a.len() } else { b.len() };
        let hi = if a.len() <= b.len() { b.len() } else { a.len() };
        let diff = mismatches(a, b, lo) + (hi - lo);
        let scaled: int = if diff * 64 <= u64::MAX { diff * 64 } else { u64::MAX as int };
        if scaled < 24 { 24 } else { scaled as u64 }
    }
}

pub fn estimate_changed_pixels(previous: &str, current: &str) -> (r: u64)
    ensures
        r == changed_pixels(previous@, current@),
{
    if crate::text::str_eq(previous, current) {
        return 0;
    }
    let a = previous.as_bytes();
    let b = current.as_bytes();
    proof { assert(a@ == encode_utf8(previous@)); assert(b@ == encode_utf8(current@)); }
    let lo: usize = if a.len() <= b.len() { a.len() } else { b.len() };
    let hi: usize = if a.len() <= b.len() { b.len() } else { a.len() };
    let mut diff: u64 = 0;
    let mut i: usize = 0;
    while i < lo
        invariant
            i <= lo,
            lo <= a@.len(),
            lo <= b@.len(),
            diff as nat == mismatches(a@, b@, i as nat),
            diff <= i,
        decreases lo - i,
    {
        if a[i] != b[i] {
            diff = diff + 1;
        }
        i = i + 1;
    }
    let total: u64 = diff + (hi - lo) as u64;
    let scaled: u64 = if total <= u64::MAX / 64 { total * 64 } else { u64::MAX };
    if scaled < 24 { 24 } else { scaled }
}

/// The surface a snapshot names: the one given, else the focused one.
pub open spec fn snapshot_surface(m: ControlV, hint: Option<u64>) -> Option<u64> {
    match hint {
        Some(s) => Some(s),
        None => focused_surface_id(m),
    }
}

/// `debug.panel_snapshot.reset`: the surface's current text becomes its
/// baseline.
pub open spec fn cmd_panel_snapshot_reset(m: ControlV, ms: Members) -> Outcome {
    match u64_param_any(ms, seq!["surface_id"@, "id"@]) {
        Err(e) => fail(m, e),
        Ok(hint) => match snapshot_surface(m, hint) {
            None => fail(m, not_found_err("surface not found"@)),
            Some(sid) => match listed_surface(m, sid) {
                None => fail(m, not_found_err("surface not found"@)),
                Some(s) => ok(
                    ControlV { panel_baselines: m.panel_baselines.insert(sid, s.text), ..m },
                    JsonV::Object(seq![("ok"@, jbool(true)), ("surface_id"@, jhandle(sid))]),
                ),
            },
        },
    }
}

pub fn panel_snapshot_reset(state: &mut ControlState, params: &Vec<(String, Json)>) -> (r: Result<Json, CommandError>)
    ensures
        (final(state)@, res_view(r)) == cmd_panel_snapshot_reset(old(state)@, members_view(params@)),
{
    let hint = match surface_hint(params) { Err(e) => return Err(e), Ok(v) => v };
    let sid = match hint {
        Some(s) => s,
        None => match focused_surface_of(state) {
            Some(s) => s,
            None => return Err(CommandError::not_found("surface not found")),
        },
    };
    match listed_surface_of(state, sid) {
        None => Err(CommandError::not_found("surface not found")),
        Some(s) => {
            state.set_panel_baseline(sid, s.text);
            let mut m = new_members();
            put(&mut m, "ok", boolean(true));
            put(&mut m, "surface_id", handle_json(sid));
            proof { assert(members_view(m@) =~= seq![("ok"@, jbool(true)), ("surface_id"@, jhandle(sid))]); }
            Ok(object(m))
        },
    }
}

/// The answer to a panel snapshot before the host adds the image's `path`
/// and `url`.
pub open spec fn panel_snapshot_reply(sid: u64, changed: u64) -> JsonV {
    JsonV::Object(seq![
        ("surface_id"@, jhandle(sid)),
        ("panel_id"@, jhandle(sid)),
        ("width"@, juint(640)),
        ("height"@, juint(360)),
        ("changed_pixels"@, juint(changed)),
    ])
}

/// `debug.panel_snapshot`: compares the surface's text with its baseline
/// (its own text when it has none), and makes the text the new baseline.
pub open spec fn cmd_panel_snapshot(m: ControlV, ms: Members) -> Outcome {
    match u64_param_any(ms, seq!["surface_id"@, "id"@]) {
        Err(e) => fail(m, e),
        Ok(hint) => match snapshot_surface(m, hint) {
            None => fail(m, not_found_err("surface not found"@)),
            Some(sid) => match string_param(ms, "label"@) {
                Err(e) => fail(m, e),
                Ok(_) => match listed_surface(m, sid) {
                    None => fail(m, not_found_err("surface not found"@)),
                    Some(s) => {
                        let previous = if m.panel_baselines.contains_key(sid) { m.panel_baselines[sid] } else { s.text };
                        ok(
                            ControlV { panel_baselines: m.panel_baselines.insert(sid, s.text), ..m },
                            panel_snapshot_reply(sid, changed_pixels(previous, s.text)),
                        )
                    },
                },
            },
        },
    }
}

pub fn panel_snapshot(state: &mut ControlState, params: &Vec<(String, Json)>) -> (r: Result<Json, CommandError>)
    ensures
        (final(state)@, res_view(r)) == cmd_panel_snapshot(old(state)@, members_view(params@)),
{
    let hint = match surface_hint(params) { Err(e) => return Err(e), Ok(v) => v };
    let sid = match hint {
        Some(s) => s,
        None => match focused_surface_of(state) {
            Some(s) => s,
            None => return Err(CommandError::not_found("surface not found")),
        },
    };
    if let Err(e) = optional_string_param(params, "label") {
        return Err(e);
    }
    match listed_surface_of(state, sid) {
        None => Err(CommandError::not_found("surface not found")),
        Some(s) => {
            let previous = match state.panel_baseline(sid) { Some(p) => p, None => s.text.clone() };
            let changed = estimate_changed_pixels(previous.as_str(), s.text.as_str());
            state.set_panel_baseline(sid, s.text);
            let mut m = new_members();
            put(&mut m, "surface_id", handle_json(sid));
            put(&mut m, "panel_id", handle_json(sid));
            put(&mut m, "width", uint(640));
            put(&mut m, "height", uint(360));
            put(&mut m, "changed_pixels", uint(changed));
            proof { assert(members_view(m@) =~= (panel_snapshot_reply(sid, changed))->Object_0); }
            Ok(object(m))
        },
    }
}

/// The answer to a window screenshot before the host adds the image's
/// `path` and `url`.
pub open spec fn screenshot_answer(id: u64) -> JsonV {
    JsonV::Object(seq![
        ("ok"@, jbool(true)),
        ("screenshot_id"@, jstr(decimal(id as nat))),
        ("format"@, jstr("png"@)),
        ("bytes"@, juint(68)),
    ])
}

/// `debug.window.screenshot`: takes the next screenshot id.
pub open spec fn cmd_window_screenshot(m: ControlV, ms: Members) -> Outcome {
    match string_param(ms, "label"@) {
        Err(e) => fail(m, e),
        Ok(_) => ok(
            ControlV { next_snapshot_id: super::model::sat_inc(m.next_snapshot_id), ..m },
            screenshot_answer(m.next_snapshot_id),
        ),
    }
}

pub fn window_screenshot(state: &mut ControlState, params: &Vec<(String, Json)>) -> (r: Result<Json, CommandError>)
    ensures
        (final(state)@, res_view(r)) == cmd_window_screenshot(old(state)@, members_view(params@)),
{
    if let Err(e) = optional_string_param(params, "label") {
        return Err(e);
    }
    let id = state.take_snapshot_id();
    let mut digits = String::new();
    push_decimal(&mut digits, id);
    let mut m = new_members();
    put(&mut m, "ok", boolean(true));
    put(&mut m, "screenshot_id", string(digits));
    put(&mut m, "format", text("png"));
    put(&mut m, "bytes", uint(68));
    proof { assert(members_view(m@) =~= (screenshot_answer(id))->Object_0); }
    Ok(object(m))
}

/// A pane of the focused window as laid out: its id, its current surface,
/// and the width and height added to its default size.
pub open spec fn layout_pane(m: ControlV, p: PaneInfo) -> (u64, Option<u64>, i64, i64) {
    let d = if m.size_overrides.contains_key(p.id) { m.size_overrides[p.id] } else { (0i64, 0i64) };
    (p.id, p.current_surface_id, d.0, d.1)
}

/// The panes of the focused window in order, as `debug.layout` lays them
/// out; none when there is no focused window.
pub open spec fn layout_panes(m: ControlV) -> Seq<(u64, Option<u64>, i64, i64)> {
    match list_panes(m) {
        None => Seq::empty(),
        Some(ps) => ps.map_values(|p: PaneInfo| layout_pane(m, p)),
    }
}

pub fn layout_panes_of(state: &ControlState) -> (r: Vec<(u64, Option<u64>, i64, i64)>)
    ensures
        r@ == layout_panes(state@),
{
    let mut out: Vec<(u64, Option<u64>, i64, i64)> = Vec::new();
    match state.list_panes() {
        None => {
            proof { assert(out@ =~= Seq::<(u64, Option<u64>, i64, i64)>::empty()); }
            out
        },
        Some(ps) => {
            let mut i: usize = 0;
            while i < ps.len()
                invariant
                    i <= ps.len(),
                    list_panes(state@) == Some(ps@),
                    out@ == ps@.take(i as int).map_values(|p: PaneInfo| layout_pane(state@, p)),
                decreases ps.len() - i,
            {
                let p = ps[i];
                let d = state.size_override(p.id);
                out.push((p.id, p.current_surface_id, d.0, d.1));
                proof {
                    assert(ps@.take(i + 1).map_values(|p: PaneInfo| layout_pane(state@, p))
                        =~= ps@.take(i as int).map_values(|p: PaneInfo| layout_pane(state@, p)).push(layout_pane(state@, p)));
                }
                i = i + 1;
            }
            proof { assert(ps@.take(i as int) =~= ps@); }
            out
        },
    }
}

} // verus!
