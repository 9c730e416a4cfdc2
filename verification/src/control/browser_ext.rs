//! The rest of the browser's commands: acting on and reading elements,
//! scripts, styles, the console, cookies and storage, tabs, frames and
//! dialogs, and saving and loading the browser's state.
use vstd::prelude::*;
use crate::json::{
    Json, JsonNumber, JsonV, json_view, members_view, items_view, object, array, put, push_item, new_members,
    new_items, uint, string, text, boolean, juint, jstr, jbool,
};
use crate::text::{contains, str_contains, str_eq, ascii_lower, to_ascii_lowercase, decimal, push_decimal, trim, trim_str, split_once, str_split_once, parse_i64, str_parse_i64};
use super::browser::{
    BrowserState, BrowserV, Pairs, Flags, Counts, pairs_view, strings_view, resolve, selector_exists, pair_get,
    pair_put, entry_get, entry_put, sat_succ, page_attrs, page_styles, page_counts, page_enabled,
    page_visible, pair_value, pair_set, flag_value, flag_set, count_value, count_set, lemma_entry_get_one,
};
use super::browser_commands::{with_browser, contains_text, history_room};
use super::model::{split_surface, mark_browser_panel, has_id_room};
use super::browser::{register_tab, navigate};
use crate::seqs::{first_index, lemma_first_index, lemma_first_index_unique};
use crate::handles::surface_ref;
use crate::json::{lookup, get};
use crate::text::{starts_with, str_starts_with};
use super::protocol::{params_members, params_object, unknown_method_err};
use super::palette::{pair_del, pair_remove};
use super::palette_commands::string_or;
use super::protocol::{
    CommandError, ErrorV, Members, string_param, required_string, u64_param, not_found_err, invalid_params_err,
    optional_string_param, required_string_param, optional_u64_param, u64_param_any, optional_u64_param_any,
    keys_view, conflict_err, jhandle, jref, handle_json,
};
use super::dispatch::{Outcome, fail, ok, res_view};
use super::debug_commands::{ok_reply, ok_json};
use super::state::ControlState;
use super::{ControlV, opt_str_view};

verus! {

pub open spec fn ok_and(key: Seq<char>, v: JsonV) -> JsonV {
    JsonV::Object(seq![("ok"@, jbool(true)), (key, v)])
}

pub open spec fn ok_and2(k1: Seq<char>, v1: JsonV, k2: Seq<char>, v2: JsonV) -> JsonV {
    JsonV::Object(seq![("ok"@, jbool(true)), (k1, v1), (k2, v2)])
}

fn ok_and_json(key: &str, v: Json) -> (r: Json)
    ensures
        json_view(r) == ok_and(key@, json_view(v)),
{
    let ghost jv = json_view(v);
    let mut m = new_members();
    put(&mut m, "ok", boolean(true));
    put(&mut m, key, v);
    proof { assert(members_view(m@) =~= (ok_and(key@, jv))->Object_0); }
    object(m)
}

fn ok_and2_json(k1: &str, v1: Json, k2: &str, v2: Json) -> (r: Json)
    ensures
        json_view(r) == ok_and2(k1@, json_view(v1), k2@, json_view(v2)),
{
    let ghost j1 = json_view(v1);
    let ghost j2 = json_view(v2);
    let mut m = new_members();
    put(&mut m, "ok", boolean(true));
    put(&mut m, k1, v1);
    put(&mut m, k2, v2);
    proof { assert(members_view(m@) =~= (ok_and2(k1@, j1, k2@, j2))->Object_0); }
    object(m)
}

fn two_json(k1: &str, v1: Json, k2: &str, v2: Json) -> (r: Json)
    ensures
        json_view(r) == JsonV::Object(seq![(k1@, json_view(v1)), (k2@, json_view(v2))]),
{
    let ghost j1 = json_view(v1);
    let ghost j2 = json_view(v2);
    let mut m = new_members();
    put(&mut m, k1, v1);
    put(&mut m, k2, v2);
    proof { assert(members_view(m@) =~= seq![(k1@, j1), (k2@, j2)]); }
    object(m)
}

fn one(k: &str, v: Json) -> (r: Json)
    ensures
        json_view(r) == JsonV::Object(seq![(k@, json_view(v))]),
{
    let ghost j = json_view(v);
    let mut m = new_members();
    put(&mut m, k, v);
    proof { assert(members_view(m@) =~= seq![(k@, j)]); }
    object(m)
}

/// What pointing at an element does.
#[derive(Clone, Copy, Debug, PartialEq, Eq, Structural)]
pub enum ElementAction {
    Focus,
    Hover,
    DoubleClick,
    ScrollIntoView,
}

/// Focusing makes the element the active one; hovering and double clicks
/// are counted; scrolling into view marks it as in view.
pub open spec fn element_acted(b: BrowserV, sel: Seq<char>, a: ElementAction) -> BrowserV {
    match a {
        ElementAction::Focus => BrowserV { active_element: sel, ..b },
        ElementAction::Hover => BrowserV { hover_count: sat_succ(b.hover_count), ..b },
        ElementAction::DoubleClick => BrowserV { dbl_count: sat_succ(b.dbl_count), ..b },
        ElementAction::ScrollIntoView => BrowserV {
            in_view: if b.in_view.contains(sel) { b.in_view } else { b.in_view.push(sel) },
            ..b
        },
    }
}

/// `browser.focus`, `browser.hover`, `browser.dblclick` and
/// `browser.scroll_into_view`: the element (through its ref) must exist.
pub open spec fn cmd_element_action(m: ControlV, ms: Members, a: ElementAction) -> Outcome {
    match required_string(ms, "selector"@) {
        Err(e) => fail(m, e),
        Ok(sel) => {
            let r = resolve(m.browser, sel);
            if !selector_exists(m.browser, r) {
                fail(m, not_found_err("element not found"@))
            } else {
                ok(with_browser(m, element_acted(m.browser, r, a)), ok_and("selector"@, jstr(sel)))
            }
        },
    }
}

pub fn element_action(state: &mut ControlState, params: &Vec<(String, Json)>, a: ElementAction) -> (r: Result<Json, CommandError>)
    ensures
        (final(state)@, res_view(r)) == cmd_element_action(old(state)@, members_view(params@), a),
{
    let sel = match required_string_param(params, "selector") { Err(e) => return Err(e), Ok(v) => v };
    let r = state.browser().resolve(sel.as_str());
    if !state.browser().has_selector(r.as_str()) {
        return Err(CommandError::not_found("element not found"));
    }
    let mut b = state.take_browser();
    match a {
        ElementAction::Focus => { b.active_element = r; },
        ElementAction::Hover => { b.hover_count = b.hover_count.saturating_add(1); },
        ElementAction::DoubleClick => { b.dbl_count = b.dbl_count.saturating_add(1); },
        ElementAction::ScrollIntoView => {
            if !contains_text(&b.in_view, r.as_str()) {
                let ghost before = b.in_view@;
                b.in_view.push(r);
                proof { assert(strings_view(b.in_view@) =~= strings_view(before).push(r@)); }
            }
        },
    }
    state.put_browser(b);
    Ok(ok_and_json("selector", string(sel)))
}

/// `browser.press`, `browser.keydown` and `browser.keyup`: each counts a
/// key going down and up; a press is counted as well.
pub open spec fn cmd_key(m: ControlV, ms: Members, press: bool) -> Outcome {
    match required_string(ms, "key"@) {
        Err(e) => fail(m, e),
        Ok(k) => {
            let b = m.browser;
            let b1 = BrowserV {
                key_down_count: sat_succ(b.key_down_count),
                key_up_count: sat_succ(b.key_up_count),
                key_press_count: if press { sat_succ(b.key_press_count) } else { b.key_press_count },
                ..b
            };
            ok(with_browser(m, b1), ok_and("key"@, jstr(k)))
        },
    }
}

pub fn key_input(state: &mut ControlState, params: &Vec<(String, Json)>, press: bool) -> (r: Result<Json, CommandError>)
    ensures
        (final(state)@, res_view(r)) == cmd_key(old(state)@, members_view(params@), press),
{
    let k = match required_string_param(params, "key") { Err(e) => return Err(e), Ok(v) => v };
    let mut b = state.take_browser();
    b.key_down_count = b.key_down_count.saturating_add(1);
    b.key_up_count = b.key_up_count.saturating_add(1);
    if press {
        b.key_press_count = b.key_press_count.saturating_add(1);
    }
    state.put_browser(b);
    Ok(ok_and_json("key", string(k)))
}

/// `browser.type`: the text is added to the end of the field.
pub open spec fn cmd_type(m: ControlV, ms: Members) -> Outcome {
    match required_string(ms, "selector"@) {
        Err(e) => fail(m, e),
        Ok(sel) => match required_string(ms, "text"@) {
            Err(e) => fail(m, e),
            Ok(t) => {
                let existing = match pair_get(m.browser.fields, sel) { Some(v) => v, None => Seq::empty() };
                let b1 = BrowserV { fields: pair_put(m.browser.fields, sel, existing + t), ..m.browser };
                ok(with_browser(m, b1), ok_and2("selector"@, jstr(sel), "text"@, jstr(t)))
            },
        },
    }
}

pub fn type_text(state: &mut ControlState, params: &Vec<(String, Json)>) -> (r: Result<Json, CommandError>)
    ensures
        (final(state)@, res_view(r)) == cmd_type(old(state)@, members_view(params@)),
{
    let sel = match required_string_param(params, "selector") { Err(e) => return Err(e), Ok(v) => v };
    let t = match required_string_param(params, "text") { Err(e) => return Err(e), Ok(v) => v };
    let mut b = state.take_browser();
    let mut value = match pair_value(&b.fields, sel.as_str()) { Some(v) => v, None => String::new() };
    value.append(t.as_str());
    pair_set(&mut b.fields, sel.clone(), value);
    state.put_browser(b);
    Ok(ok_and2_json("selector", string(sel), "text", string(t)))
}

/// `browser.check` and `browser.uncheck`
pub open spec fn cmd_check(m: ControlV, ms: Members, on: bool) -> Outcome {
    match required_string(ms, "selector"@) {
        Err(e) => fail(m, e),
        Ok(sel) => ok(
            with_browser(m, BrowserV { checked: entry_put(m.browser.checked, sel, on), ..m.browser }),
            ok_and2("selector"@, jstr(sel), "checked"@, jbool(on)),
        ),
    }
}

pub fn check(state: &mut ControlState, params: &Vec<(String, Json)>, on: bool) -> (r: Result<Json, CommandError>)
    ensures
        (final(state)@, res_view(r)) == cmd_check(old(state)@, members_view(params@), on),
{
    let sel = match required_string_param(params, "selector") { Err(e) => return Err(e), Ok(v) => v };
    let mut b = state.take_browser();
    flag_set(&mut b.checked, sel.clone(), on);
    state.put_browser(b);
    Ok(ok_and2_json("selector", string(sel), "checked", boolean(on)))
}

/// `browser.select`: the field takes the value.
pub open spec fn cmd_select(m: ControlV, ms: Members) -> Outcome {
    match required_string(ms, "selector"@) {
        Err(e) => fail(m, e),
        Ok(sel) => match required_string(ms, "value"@) {
            Err(e) => fail(m, e),
            Ok(v) => ok(
                with_browser(m, BrowserV { fields: pair_put(m.browser.fields, sel, v), ..m.browser }),
                ok_and2("selector"@, jstr(sel), "value"@, jstr(v)),
            ),
        },
    }
}

pub fn select(state: &mut ControlState, params: &Vec<(String, Json)>) -> (r: Result<Json, CommandError>)
    ensures
        (final(state)@, res_view(r)) == cmd_select(old(state)@, members_view(params@)),
{
    let sel = match required_string_param(params, "selector") { Err(e) => return Err(e), Ok(v) => v };
    let v = match required_string_param(params, "value") { Err(e) => return Err(e), Ok(x) => x };
    let mut b = state.take_browser();
    pair_set(&mut b.fields, sel.clone(), v.clone());
    state.put_browser(b);
    Ok(ok_and2_json("selector", string(sel), "value", string(v)))
}

pub open spec fn sat_add(a: u64, b: u64) -> u64 {
    if a + b <= u64::MAX { (a + b) as u64 } else { u64::MAX }
}

/// `browser.scroll`: an element named by `selector` scrolls down by `dy`
/// (a whole number of pixels, from 0).
pub open spec fn cmd_scroll(m: ControlV, ms: Members) -> Outcome {
    match string_param(ms, "selector"@) {
        Err(e) => fail(m, e),
        Ok(sel) => match u64_param(ms, "dy"@) {
            Err(e) => fail(m, e),
            Ok(d) => {
                let dy: u64 = match d { Some(x) => x, None => 0 };
                let m1 = match sel {
                    Some(s) => {
                        let cur: u64 = match entry_get(m.browser.scroll_tops, s) { Some(x) => x, None => 0 };
                        with_browser(m, BrowserV { scroll_tops: entry_put(m.browser.scroll_tops, s, sat_add(cur, dy)), ..m.browser })
                    },
                    None => m,
                };
                ok(m1, ok_reply())
            },
        },
    }
}

pub fn scroll(state: &mut ControlState, params: &Vec<(String, Json)>) -> (r: Result<Json, CommandError>)
    ensures
        (final(state)@, res_view(r)) == cmd_scroll(old(state)@, members_view(params@)),
{
    let sel = match optional_string_param(params, "selector") { Err(e) => return Err(e), Ok(v) => v };
    let d = match optional_u64_param(params, "dy") { Err(e) => return Err(e), Ok(v) => v };
    let dy: u64 = match d { Some(x) => x, None => 0 };
    match sel {
        Some(s) => {
            let mut b = state.take_browser();
            let cur: u64 = match count_value(&b.scroll_tops, s.as_str()) { Some(x) => x, None => 0 };
            count_set(&mut b.scroll_tops, s, cur.saturating_add(dy));
            state.put_browser(b);
        },
        None => {},
    }
    Ok(ok_json())
}

/// An element's attribute, empty when it has none.
pub open spec fn attr_of(b: BrowserV, sel: Seq<char>, name: Seq<char>) -> Seq<char> {
    match entry_get(page_attrs(b.page), sel) {
        Some(attrs) => match pair_get(attrs, name) { Some(v) => v, None => Seq::empty() },
        None => Seq::empty(),
    }
}

/// `browser.get.attr`: the attribute named by `name` (or `attr`).
pub open spec fn cmd_get_attr(m: ControlV, ms: Members) -> Outcome {
    match required_string(ms, "selector"@) {
        Err(e) => fail(m, e),
        Ok(sel) => match string_or(ms, "name"@, "attr"@) {
            Err(e) => fail(m, e),
            Ok(None) => fail(m, invalid_params_err("name/attr is required"@)),
            Ok(Some(name)) => ok(m, JsonV::Object(seq![("value"@, jstr(attr_of(m.browser, sel, name)))])),
        },
    }
}

fn pairs_of(v: &[(&str, &str)]) -> (r: Vec<(String, String)>)
    ensures
        pairs_view(r@) == v@.map_values(|p: (&str, &str)| (p.0@, p.1@)),
{
    let mut out: Vec<(String, String)> = Vec::new();
    let mut i: usize = 0;
    while i < v.len()
        invariant
            i <= v.len(),
            pairs_view(out@) == v@.take(i as int).map_values(|p: (&str, &str)| (p.0@, p.1@)),
        decreases v.len() - i,
    {
        let ghost before = pairs_view(out@);
        out.push((String::from_str(v[i].0), String::from_str(v[i].1)));
        proof {
            assert(pairs_view(out@) =~= before.push((v@[i as int].0@, v@[i as int].1@)));
            assert(v@.take(i + 1).map_values(|p: (&str, &str)| (p.0@, p.1@)) =~= v@.take(i as int).map_values(|p: (&str, &str)| (p.0@, p.1@)).push((v@[i as int].0@, v@[i as int].1@)));
        }
        i = i + 1;
    }
    proof { assert(v@.take(i as int) =~= v@); }
    out
}

fn attrs_for(b: &BrowserState, sel: &str) -> (r: Option<Vec<(String, String)>>)
    ensures
        match r {
            Some(v) => entry_get(page_attrs(b@.page), sel@) == Some(pairs_view(v@)),
            None => entry_get(page_attrs(b@.page), sel@) is None,
        },
{
    match b.page {
        super::browser::PageKind::Comprehensive => {
            proof { lemma_entry_get_one("#status"@, seq![("data-role"@, "status"@)], sel@); }
            if str_eq(sel, "#status") {
                let a = [("data-role", "status")];
                let v = pairs_of(&a);
                proof { assert(a@.map_values(|p: (&str, &str)| (p.0@, p.1@)) =~= seq![("data-role"@, "status"@)]); }
                Some(v)
            } else {
                None
            }
        },
        super::browser::PageKind::Extended => {
            proof {
                lemma_entry_get_one("#name"@, seq![("placeholder"@, "Type name"@), ("title"@, "name-title"@), ("data-testid"@, "name-field"@)], sel@);
            }
            if str_eq(sel, "#name") {
                let a = [("placeholder", "Type name"), ("title", "name-title"), ("data-testid", "name-field")];
                let v = pairs_of(&a);
                proof {
                    assert(a@.map_values(|p: (&str, &str)| (p.0@, p.1@)) =~= seq![
                        ("placeholder"@, "Type name"@), ("title"@, "name-title"@), ("data-testid"@, "name-field"@),
                    ]);
                }
                Some(v)
            } else {
                None
            }
        },
        _ => None,
    }
}

pub fn get_attr(state: &mut ControlState, params: &Vec<(String, Json)>) -> (r: Result<Json, CommandError>)
    ensures
        (final(state)@, res_view(r)) == cmd_get_attr(old(state)@, members_view(params@)),
{
    let sel = match required_string_param(params, "selector") { Err(e) => return Err(e), Ok(v) => v };
    let name = match optional_string_param(params, "name") {
        Err(e) => return Err(e),
        Ok(Some(x)) => x,
        Ok(None) => match optional_string_param(params, "attr") {
            Ok(Some(y)) => y,
            _ => return Err(CommandError::invalid_params("name/attr is required")),
        },
    };
    let v = match attrs_for(state.browser(), sel.as_str()) {
        Some(attrs) => match pair_value(&attrs, name.as_str()) { Some(x) => x, None => String::new() },
        None => String::new(),
    };
    Ok(one("value", string(v)))
}

pub open spec fn box_reply() -> JsonV {
    JsonV::Object(seq![("value"@, JsonV::Object(seq![
        ("x"@, juint(0)), ("y"@, juint(0)), ("width"@, juint(123)), ("height"@, juint(45)),
    ]))])
}

/// `browser.get.box`: a fixed box.
pub fn get_box() -> (r: Json)
    ensures
        json_view(r) == box_reply(),
{
    let mut m = new_members();
    put(&mut m, "x", uint(0));
    put(&mut m, "y", uint(0));
    put(&mut m, "width", uint(123));
    put(&mut m, "height", uint(45));
    proof { assert(members_view(m@) =~= (box_reply()->Object_0[0].1)->Object_0); }
    one("value", object(m))
}

/// `browser.get.count`: how many elements a selector matches (one unless the
/// page says otherwise).
pub open spec fn cmd_get_count(m: ControlV, ms: Members) -> Outcome {
    match required_string(ms, "selector"@) {
        Err(e) => fail(m, e),
        Ok(sel) => ok(m, JsonV::Object(seq![("count"@, juint(match entry_get(page_counts(m.browser.page), sel) { Some(c) => c, None => 1 }))])),
    }
}

fn count_for(b: &BrowserState, sel: &str) -> (r: Option<u64>)
    ensures
        r == entry_get(page_counts(b@.page), sel@),
{
    match b.page {
        super::browser::PageKind::Comprehensive | super::browser::PageKind::Basic => {
            proof { lemma_entry_get_one("option"@, 2u64, sel@); }
            if str_eq(sel, "option") { Some(2) } else { None }
        },
        super::browser::PageKind::Extended => {
            proof { lemma_entry_get_one("li.row"@, 3u64, sel@); }
            if str_eq(sel, "li.row") { Some(3) } else { None }
        },
        _ => None,
    }
}

pub fn get_count(state: &mut ControlState, params: &Vec<(String, Json)>) -> (r: Result<Json, CommandError>)
    ensures
        (final(state)@, res_view(r)) == cmd_get_count(old(state)@, members_view(params@)),
{
    let sel = match required_string_param(params, "selector") { Err(e) => return Err(e), Ok(v) => v };
    let c = match count_for(state.browser(), sel.as_str()) { Some(c) => c, None => 1 };
    Ok(one("count", uint(c)))
}

/// The page's markup as a whole document.
pub open spec fn page_document(b: BrowserV) -> Seq<char> {
    "<html><head><title>"@ + b.title + "</title></head><body>"@ + b.page_text + "</body></html>"@
}

/// `browser.get.html`: an element's markup, else the whole document.
pub open spec fn cmd_get_html(m: ControlV, ms: Members) -> Outcome {
    match string_param(ms, "selector"@) {
        Err(e) => fail(m, e),
        Ok(sel) => {
            let h = match sel {
                Some(s) => match pair_get(m.browser.dom_html, s) { Some(x) => x, None => page_document(m.browser) },
                None => page_document(m.browser),
            };
            ok(m, JsonV::Object(seq![("value"@, jstr(h))]))
        },
    }
}

fn document_of(b: &BrowserState) -> (r: String)
    ensures
        r@ == page_document(b@),
{
    let mut s = String::from_str("<html><head><title>");
    s.append(b.title.as_str());
    s.append("</title></head><body>");
    s.append(b.page_text.as_str());
    s.append("</body></html>");
    s
}

pub fn get_html(state: &mut ControlState, params: &Vec<(String, Json)>) -> (r: Result<Json, CommandError>)
    ensures
        (final(state)@, res_view(r)) == cmd_get_html(old(state)@, members_view(params@)),
{
    let sel = match optional_string_param(params, "selector") { Err(e) => return Err(e), Ok(v) => v };
    let b = state.browser();
    let h = match sel {
        Some(s) => match pair_value(&b.dom_html, s.as_str()) { Some(x) => x, None => document_of(b) },
        None => document_of(b),
    };
    Ok(one("value", string(h)))
}

/// The computed styles of an element (`display: block` unless the page says
/// otherwise); an added style sheet that mentions `0, 128, 0` makes it green.
pub open spec fn styles_of(b: BrowserV, sel: Seq<char>) -> Pairs {
    let base = match entry_get(page_styles(b.page), sel) { Some(s) => s, None => seq![("display"@, "block"@)] };
    if exists|i: int| 0 <= i < b.styles.len() && contains(#[trigger] b.styles[i], "0, 128, 0"@) {
        pair_put(base, "color"@, "rgb(0, 128, 0)"@)
    } else {
        base
    }
}

pub open spec fn pairs_object(p: Pairs) -> JsonV {
    JsonV::Object(p.map_values(|e: (Seq<char>, Seq<char>)| (e.0, jstr(e.1))))
}

/// `browser.get.styles`: all of an element's styles (`#style-target` by
/// default), or the one named by `property` (or `name`), empty when unset.
pub open spec fn cmd_get_styles(m: ControlV, ms: Members) -> Outcome {
    match string_or(ms, "property"@, "name"@) {
        Err(e) => fail(m, e),
        Ok(p) => match string_param(ms, "selector"@) {
            Err(e) => fail(m, e),
            Ok(s) => {
                let property = match p { Some(x) => x, None => Seq::empty() };
                let sel = match s { Some(x) => x, None => "#style-target"@ };
                let styles = styles_of(m.browser, sel);
                if property.len() == 0 {
                    ok(m, JsonV::Object(seq![("value"@, pairs_object(styles))]))
                } else {
                    ok(m, JsonV::Object(seq![("value"@, jstr(match pair_get(styles, property) { Some(v) => v, None => Seq::empty() }))]))
                }
            },
        },
    }
}

fn styles_for(b: &BrowserState, sel: &str) -> (r: Vec<(String, String)>)
    ensures
        pairs_view(r@) == styles_of(b@, sel@),
{
    proof { lemma_entry_get_one("#style-target"@, super::browser::target_styles(), sel@); }
    let has = match b.page {
        super::browser::PageKind::Comprehensive | super::browser::PageKind::Extended | super::browser::PageKind::Second => str_eq(sel, "#style-target"),
        _ => false,
    };
    let mut base = if has {
        let a = [("color", "rgb(255, 0, 0)"), ("display", "block")];
        let v = pairs_of(&a);
        proof { assert(a@.map_values(|p: (&str, &str)| (p.0@, p.1@)) =~= super::browser::target_styles()); }
        v
    } else {
        let a = [("display", "block")];
        let v = pairs_of(&a);
        proof { assert(a@.map_values(|p: (&str, &str)| (p.0@, p.1@)) =~= seq![("display"@, "block"@)]); }
        v
    };
    let ghost sv = strings_view(b.styles@);
    let mut green = false;
    let mut i: usize = 0;
    while i < b.styles.len()
        invariant
            i <= b.styles.len(),
            sv == strings_view(b.styles@),
            green == (exists|j: int| 0 <= j < i && contains(#[trigger] sv[j], "0, 128, 0"@)),
        decreases b.styles.len() - i,
    {
        if str_contains(b.styles[i].as_str(), "0, 128, 0") {
            proof { assert(contains(sv[i as int], "0, 128, 0"@)); }
            green = true;
        }
        i = i + 1;
    }
    let ghost bv = pairs_view(base@);
    proof {
        assert(bv == match entry_get(page_styles(b@.page), sel@) { Some(s) => s, None => seq![("display"@, "block"@)] });
        assert(sv == b@.styles);
        assert(sv.len() == b.styles.len());
        if green {
            let j = choose|j: int| 0 <= j < i && contains(#[trigger] sv[j], "0, 128, 0"@);
            assert(contains(b@.styles[j], "0, 128, 0"@));
        }
        assert(green == (exists|j: int| 0 <= j < b@.styles.len() && contains(#[trigger] b@.styles[j], "0, 128, 0"@)));
    }
    if green {
        pair_set(&mut base, String::from_str("color"), String::from_str("rgb(0, 128, 0)"));
    }
    base
}

fn pairs_json(p: &Vec<(String, String)>) -> (r: Json)
    ensures
        json_view(r) == pairs_object(pairs_view(p@)),
{
    let ghost pv = pairs_view(p@);
    let mut m = new_members();
    let mut i: usize = 0;
    while i < p.len()
        invariant
            i <= p.len(),
            pv == pairs_view(p@),
            members_view(m@) == pv.take(i as int).map_values(|e: (Seq<char>, Seq<char>)| (e.0, jstr(e.1))),
        decreases p.len() - i,
    {
        let ghost before = members_view(m@);
        put(&mut m, p[i].0.as_str(), string(p[i].1.clone()));
        proof {
            assert(pv[i as int] == (p@[i as int].0@, p@[i as int].1@));
            assert(pv.take(i + 1) =~= pv.take(i as int).push(pv[i as int]));
            assert(members_view(m@) =~= pv.take(i + 1).map_values(|e: (Seq<char>, Seq<char>)| (e.0, jstr(e.1))));
        }
        i = i + 1;
    }
    proof { assert(pv.take(i as int) =~= pv); }
    object(m)
}

pub fn get_styles(state: &mut ControlState, params: &Vec<(String, Json)>) -> (r: Result<Json, CommandError>)
    ensures
        (final(state)@, res_view(r)) == cmd_get_styles(old(state)@, members_view(params@)),
{
    let p = match optional_string_param(params, "property") {
        Err(e) => return Err(e),
        Ok(Some(x)) => Some(x),
        Ok(None) => match optional_string_param(params, "name") {
            Ok(Some(y)) => Some(y),
            _ => None,
        },
    };
    let s = match optional_string_param(params, "selector") { Err(e) => return Err(e), Ok(v) => v };
    let property = match p { Some(x) => x, None => String::new() };
    let sel = match s { Some(x) => x, None => String::from_str("#style-target") };
    let styles = styles_for(state.browser(), sel.as_str());
    if property.unicode_len() == 0 {
        Ok(one("value", pairs_json(&styles)))
    } else {
        let v = match pair_value(&styles, property.as_str()) { Some(x) => x, None => String::new() };
        Ok(one("value", string(v)))
    }
}

/// Which of an element's states a query reads.
#[derive(Clone, Copy, Debug, PartialEq, Eq, Structural)]
pub enum ElementState {
    Checked,
    Enabled,
    Visible,
}

/// An element's state: checked (not unless checked), enabled and visible
/// (both unless the page says otherwise).
pub open spec fn element_state(b: BrowserV, sel: Seq<char>, q: ElementState) -> bool {
    match q {
        ElementState::Checked => match entry_get(b.checked, sel) { Some(v) => v, None => false },
        ElementState::Enabled => match entry_get(page_enabled(b.page), sel) { Some(v) => v, None => true },
        ElementState::Visible => match entry_get(page_visible(b.page), sel) { Some(v) => v, None => true },
    }
}

pub open spec fn state_reply(q: ElementState, v: bool) -> JsonV {
    match q {
        ElementState::Checked => JsonV::Object(seq![("checked"@, jbool(v)), ("value"@, jbool(v))]),
        ElementState::Enabled => JsonV::Object(seq![("value"@, jbool(v)), ("enabled"@, jbool(v))]),
        ElementState::Visible => JsonV::Object(seq![("value"@, jbool(v)), ("visible"@, jbool(v))]),
    }
}

/// `browser.is.checked`, `browser.is.enabled` and `browser.is.visible`
pub open spec fn cmd_element_state(m: ControlV, ms: Members, q: ElementState) -> Outcome {
    match required_string(ms, "selector"@) {
        Err(e) => fail(m, e),
        Ok(sel) => ok(m, state_reply(q, element_state(m.browser, sel, q))),
    }
}

fn state_flags_for(k: super::browser::PageKind, visible: bool) -> (r: Vec<(String, bool)>)
    ensures
        super::browser::flags_view(r@) == if visible { page_visible(k) } else { page_enabled(k) },
{
    let mut v: Vec<(String, bool)> = Vec::new();
    if visible {
        match k {
            super::browser::PageKind::Comprehensive => {
                v.push((String::from_str("#status"), true));
                v.push((String::from_str("#hidden"), false));
                v.push((String::from_str("#keys"), true));
                v.push((String::from_str("#hover"), true));
                v.push((String::from_str("#dbl"), true));
                v.push((String::from_str("#chk"), true));
                v.push((String::from_str("#sel"), true));
                v.push((String::from_str("#scroller"), true));
                v.push((String::from_str("#style-target"), true));
                v.push((String::from_str("#btn"), true));
            },
            super::browser::PageKind::ComprehensiveTwo => { v.push((String::from_str("#page2"), true)); },
            super::browser::PageKind::Basic => {
                v.push((String::from_str("#name"), true));
                v.push((String::from_str("#btn"), true));
                v.push((String::from_str("#chk"), true));
                v.push((String::from_str("#sel"), true));
                v.push((String::from_str("#out"), true));
            },
            super::browser::PageKind::Extended => {
                v.push((String::from_str("#status"), true));
                v.push((String::from_str("#action-btn"), true));
            },
            super::browser::PageKind::Second => { v.push((String::from_str("#second"), true)); },
            super::browser::PageKind::Probe => { v.push((String::from_str("#probe"), true)); },
            super::browser::PageKind::Plain => {},
        }
    } else {
        match k {
            super::browser::PageKind::Comprehensive => {
                v.push((String::from_str("#btn"), true));
                v.push((String::from_str("#disabled"), false));
            },
            super::browser::PageKind::Extended => { v.push((String::from_str("#action-btn"), true)); },
            _ => {},
        }
    }
    proof { assert(super::browser::flags_view(v@) =~= if visible { page_visible(k) } else { page_enabled(k) }); }
    v
}

fn state_json(q: ElementState, v: bool) -> (r: Json)
    ensures
        json_view(r) == state_reply(q, v),
{
    match q {
        ElementState::Checked => two_json("checked", boolean(v), "value", boolean(v)),
        ElementState::Enabled => two_json("value", boolean(v), "enabled", boolean(v)),
        ElementState::Visible => two_json("value", boolean(v), "visible", boolean(v)),
    }
}

pub fn element_state_of(state: &mut ControlState, params: &Vec<(String, Json)>, q: ElementState) -> (r: Result<Json, CommandError>)
    ensures
        (final(state)@, res_view(r)) == cmd_element_state(old(state)@, members_view(params@), q),
{
    let sel = match required_string_param(params, "selector") { Err(e) => return Err(e), Ok(v) => v };
    let b = state.browser();
    let v = match q {
        ElementState::Checked => match flag_value(&b.checked, sel.as_str()) { Some(x) => x, None => false },
        ElementState::Enabled => match flag_value(&state_flags_for(b.page, false), sel.as_str()) { Some(x) => x, None => true },
        ElementState::Visible => match flag_value(&state_flags_for(b.page, true), sel.as_str()) { Some(x) => x, None => true },
    };
    Ok(state_json(q, v))
}

} // verus!

verus! {

/// A new element ref (`@e` and the next number) for a selector.
pub open spec fn new_ref(b: BrowserV, sel: Seq<char>) -> (BrowserV, Seq<char>) {
    let r = "@e"@ + decimal(b.next_element_ref as nat);
    (BrowserV { next_element_ref: sat_succ(b.next_element_ref), element_refs: pair_put(b.element_refs, r, sel), ..b }, r)
}

fn make_ref(b: &mut BrowserState, sel: &str) -> (r: String)
    ensures
        (final(b)@, r@) == new_ref(old(b)@, sel@),
{
    let mut r = String::from_str("@e");
    push_decimal(&mut r, b.next_element_ref);
    b.next_element_ref = b.next_element_ref.saturating_add(1);
    pair_set(&mut b.element_refs, r.clone(), String::from_str(sel));
    r
}

/// The element a role search finds: a submit button (`#action-btn` when the
/// page has it, else `#btn`), or else `#status`.
pub open spec fn role_target(b: BrowserV, role: Seq<char>, name: Seq<char>) -> Seq<char> {
    if role == "button"@ && contains(ascii_lower(name), "submit"@) {
        if selector_exists(b, "#action-btn"@) { "#action-btn"@ } else { "#btn"@ }
    } else {
        "#status"@
    }
}

pub open spec fn role_reply(r: Seq<char>, role: Seq<char>, title: Seq<char>, sel: Seq<char>) -> JsonV {
    JsonV::Object(seq![
        ("element_ref"@, jstr(r)),
        ("matches"@, JsonV::Array(seq![JsonV::Object(seq![("role"@, jstr(role)), ("name"@, jstr(title)), ("selector"@, jstr(sel))])])),
    ])
}

/// `browser.find.role`: a ref to the element found.
pub open spec fn cmd_find_role(m: ControlV, ms: Members) -> Outcome {
    match required_string(ms, "role"@) {
        Err(e) => fail(m, e),
        Ok(role) => match string_param(ms, "name"@) {
            Err(e) => fail(m, e),
            Ok(n) => {
                let name = match n { Some(x) => x, None => Seq::empty() };
                let sel = role_target(m.browser, role, name);
                let (b1, r) = new_ref(m.browser, sel);
                ok(with_browser(m, b1), role_reply(r, role, b1.title, sel))
            },
        },
    }
}

pub fn find_role(state: &mut ControlState, params: &Vec<(String, Json)>) -> (r: Result<Json, CommandError>)
    ensures
        (final(state)@, res_view(r)) == cmd_find_role(old(state)@, members_view(params@)),
{
    let role = match required_string_param(params, "role") { Err(e) => return Err(e), Ok(v) => v };
    let n = match optional_string_param(params, "name") { Err(e) => return Err(e), Ok(v) => v };
    let name = match n { Some(x) => x, None => String::new() };
    let sel = if str_eq(role.as_str(), "button") && str_contains(to_ascii_lowercase(name.as_str()).as_str(), "submit") {
        if state.browser().has_selector("#action-btn") { "#action-btn" } else { "#btn" }
    } else {
        "#status"
    };
    let mut b = state.take_browser();
    let r = make_ref(&mut b, sel);
    let title = b.title.clone();
    state.put_browser(b);
    let ghost rv = r@;
    let ghost rolev = role@;
    let ghost tv = title@;
    let mut found = new_members();
    put(&mut found, "role", string(role));
    put(&mut found, "name", string(title));
    put(&mut found, "selector", text(sel));
    proof { assert(members_view(found@) =~= seq![("role"@, jstr(rolev)), ("name"@, jstr(tv)), ("selector"@, jstr(sel@))]); }
    let fo = object(found);
    let mut items = new_items();
    push_item(&mut items, fo);
    let mut m = new_members();
    put(&mut m, "element_ref", string(r));
    put(&mut m, "matches", array(items));
    proof {
        assert(items_view(items@) =~= seq![JsonV::Object(seq![("role"@, jstr(rolev)), ("name"@, jstr(tv)), ("selector"@, jstr(sel@))])]);
        assert(members_view(m@) =~= (role_reply(rv, rolev, tv, sel@))->Object_0);
    }
    Ok(object(m))
}

/// The element the other searches find, by the kind of search.
pub open spec fn search_target(method: Seq<char>) -> Seq<char> {
    if method == "browser.find.text"@ {
        "li.row"@
    } else if method == "browser.find.label"@ || method == "browser.find.placeholder"@
        || method == "browser.find.title"@ || method == "browser.find.testid"@ {
        "#name"@
    } else if method == "browser.find.alt"@ {
        "#hero"@
    } else if method == "browser.find.first"@ || method == "browser.find.last"@ || method == "browser.find.nth"@ {
        "li.row"@
    } else {
        "#status"@
    }
}

/// `browser.find.*` (but `role`): a ref to the element found.
pub open spec fn cmd_find(m: ControlV, method: Seq<char>) -> Outcome {
    let (b1, r) = new_ref(m.browser, search_target(method));
    ok(with_browser(m, b1), JsonV::Object(seq![("element_ref"@, jstr(r))]))
}

fn search_target_of(method: &str) -> (r: &'static str)
    ensures
        r@ == search_target(method@),
{
    if str_eq(method, "browser.find.text") {
        "li.row"
    } else if str_eq(method, "browser.find.label") || str_eq(method, "browser.find.placeholder")
        || str_eq(method, "browser.find.title") || str_eq(method, "browser.find.testid") {
        "#name"
    } else if str_eq(method, "browser.find.alt") {
        "#hero"
    } else if str_eq(method, "browser.find.first") || str_eq(method, "browser.find.last") || str_eq(method, "browser.find.nth") {
        "li.row"
    } else {
        "#status"
    }
}

pub fn find(state: &mut ControlState, method: &str) -> (r: Json)
    ensures
        (final(state)@, Ok::<JsonV, ErrorV>(json_view(r))) == cmd_find(old(state)@, method@),
{
    let mut b = state.take_browser();
    let r = make_ref(&mut b, search_target_of(method));
    state.put_browser(b);
    one("element_ref", string(r))
}

/// A number that an `i64` sum gives.
pub open spec fn jint(v: i64) -> JsonV {
    if v >= 0 { JsonV::Number(JsonNumber::UInt(v as u64)) } else { JsonV::Number(JsonNumber::NegInt(v)) }
}

/// The value of a script that is a sum of two integers (`a + b`), added as
/// `i64` values wrap.
pub open spec fn script_sum(script: Seq<char>) -> Option<i64> {
    match split_once(trim(script), "+"@) {
        Some((l, r)) => match (parse_i64(trim(l)), parse_i64(trim(r))) {
            (Some(a), Some(c)) => Some(a.wrapping_add(c)),
            _ => None,
        },
        None => None,
    }
}

/// A script added to the page: the dialog trigger queues a confirm, a
/// prompt and an alert; the console trigger logs an entry and an error.
pub open spec fn script_added(b: BrowserV, script: Seq<char>) -> BrowserV {
    let b1 = BrowserV { scripts: b.scripts.push(script), ..b };
    let b2 = if contains(script, "window.triggerDialogs"@) {
        BrowserV { dialogs: seq!["confirm"@, "prompt"@, "alert"@], ..b1 }
    } else {
        b1
    };
    if contains(script, "window.emitConsoleAndError"@) {
        BrowserV { console: b2.console.push("limux-console-entry"@), errors: b2.errors.push("limux-boom"@), ..b2 }
    } else {
        b2
    }
}

/// `browser.addscript`: answers the script's sum, or null.
pub open spec fn cmd_addscript(m: ControlV, ms: Members) -> Outcome {
    match required_string(ms, "script"@) {
        Err(e) => fail(m, e),
        Ok(script) => ok(
            with_browser(m, script_added(m.browser, script)),
            ok_and("value"@, match script_sum(script) { Some(v) => jint(v), None => JsonV::Null }),
        ),
    }
}

fn sum_of(script: &str) -> (r: Option<i64>)
    ensures
        r == script_sum(script@),
{
    let t = trim_str(script);
    match str_split_once(t, "+") {
        Some((l, rest)) => match (str_parse_i64(trim_str(l)), str_parse_i64(trim_str(rest))) {
            (Some(a), Some(c)) => Some(a.wrapping_add(c)),
            _ => None,
        },
        None => None,
    }
}

fn push_text(v: &mut Vec<String>, s: &str)
    ensures
        strings_view(final(v)@) == strings_view(old(v)@).push(s@),
{
    v.push(String::from_str(s));
    proof { assert(strings_view(v@) =~= strings_view(old(v)@).push(s@)); }
}

pub fn addscript(state: &mut ControlState, params: &Vec<(String, Json)>) -> (r: Result<Json, CommandError>)
    ensures
        (final(state)@, res_view(r)) == cmd_addscript(old(state)@, members_view(params@)),
{
    let script = match required_string_param(params, "script") { Err(e) => return Err(e), Ok(v) => v };
    let mut b = state.take_browser();
    push_text(&mut b.scripts, script.as_str());
    if str_contains(script.as_str(), "window.triggerDialogs") {
        let d = vec![String::from_str("confirm"), String::from_str("prompt"), String::from_str("alert")];
        proof { assert(strings_view(d@) =~= seq!["confirm"@, "prompt"@, "alert"@]); }
        b.dialogs = d;
    }
    if str_contains(script.as_str(), "window.emitConsoleAndError") {
        push_text(&mut b.console, "limux-console-entry");
        push_text(&mut b.errors, "limux-boom");
    }
    state.put_browser(b);
    let v = match sum_of(script.as_str()) {
        Some(x) => if x >= 0 { Json::Number(JsonNumber::UInt(x as u64)) } else { Json::Number(JsonNumber::NegInt(x)) },
        None => Json::Null,
    };
    Ok(ok_and_json("value", v))
}

/// `browser.addinitscript`: kept for the next page load.
pub open spec fn cmd_addinitscript(m: ControlV, ms: Members) -> Outcome {
    match required_string(ms, "script"@) {
        Err(e) => fail(m, e),
        Ok(script) => ok(with_browser(m, BrowserV { init_scripts: m.browser.init_scripts.push(script), ..m.browser }), ok_reply()),
    }
}

pub fn addinitscript(state: &mut ControlState, params: &Vec<(String, Json)>) -> (r: Result<Json, CommandError>)
    ensures
        (final(state)@, res_view(r)) == cmd_addinitscript(old(state)@, members_view(params@)),
{
    let script = match required_string_param(params, "script") { Err(e) => return Err(e), Ok(v) => v };
    let mut b = state.take_browser();
    push_text(&mut b.init_scripts, script.as_str());
    state.put_browser(b);
    Ok(ok_json())
}

/// `browser.addstyle`: the sheet in `style` (or `css`) is added.
pub open spec fn cmd_addstyle(m: ControlV, ms: Members) -> Outcome {
    match string_or(ms, "style"@, "css"@) {
        Err(e) => fail(m, e),
        Ok(None) => fail(m, invalid_params_err("style/css is required"@)),
        Ok(Some(style)) => ok(with_browser(m, BrowserV { styles: m.browser.styles.push(style), ..m.browser }), ok_reply()),
    }
}

pub fn addstyle(state: &mut ControlState, params: &Vec<(String, Json)>) -> (r: Result<Json, CommandError>)
    ensures
        (final(state)@, res_view(r)) == cmd_addstyle(old(state)@, members_view(params@)),
{
    let style = match optional_string_param(params, "style") {
        Err(e) => return Err(e),
        Ok(Some(x)) => x,
        Ok(None) => match optional_string_param(params, "css") {
            Ok(Some(y)) => y,
            _ => return Err(CommandError::invalid_params("style/css is required")),
        },
    };
    let mut b = state.take_browser();
    push_text(&mut b.styles, style.as_str());
    state.put_browser(b);
    Ok(ok_json())
}

pub open spec fn texts_json(v: Seq<Seq<char>>) -> JsonV {
    JsonV::Array(v.map_values(|s: Seq<char>| jstr(s)))
}

/// The console's entries (or the errors), with their count.
pub open spec fn log_reply(key: Seq<char>, v: Seq<Seq<char>>) -> JsonV {
    JsonV::Object(seq![(key, texts_json(v)), ("count"@, juint(v.len() as u64))])
}

fn texts_as_json(v: &Vec<String>) -> (r: Json)
    ensures
        json_view(r) == texts_json(strings_view(v@)),
{
    let ghost sv = strings_view(v@);
    let mut items = new_items();
    let mut i: usize = 0;
    while i < v.len()
        invariant
            i <= v.len(),
            sv == strings_view(v@),
            items_view(items@) == sv.take(i as int).map_values(|s: Seq<char>| jstr(s)),
        decreases v.len() - i,
    {
        push_item(&mut items, string(v[i].clone()));
        proof {
            assert(sv.take(i + 1) =~= sv.take(i as int).push(sv[i as int]));
            assert(items_view(items@) =~= sv.take(i + 1).map_values(|s: Seq<char>| jstr(s)));
        }
        i = i + 1;
    }
    proof { assert(sv.take(i as int) =~= sv); }
    array(items)
}

/// `browser.console.list` and `browser.errors.list`
pub fn log_list(state: &ControlState, errors: bool) -> (r: Json)
    ensures
        json_view(r) == if errors { log_reply("errors"@, state@.browser.errors) } else { log_reply("entries"@, state@.browser.console) },
{
    let b = state.browser();
    let v = if errors { &b.errors } else { &b.console };
    let n = v.len() as u64;
    proof { assert(strings_view(v@).len() == v.len()); }
    two_json(if errors { "errors" } else { "entries" }, texts_as_json(v), "count", uint(n))
}

/// `browser.console.clear`
pub fn console_clear(state: &mut ControlState) -> (r: Json)
    ensures
        final(state)@ == with_browser(old(state)@, BrowserV { console: Seq::empty(), ..old(state)@.browser }),
        json_view(r) == ok_reply(),
{
    let mut b = state.take_browser();
    b.console = Vec::new();
    proof { assert(strings_view(b.console@) =~= Seq::<Seq<char>>::empty()); }
    state.put_browser(b);
    ok_json()
}

pub open spec fn cookie_json(name: Seq<char>, value: Seq<char>) -> JsonV {
    JsonV::Object(seq![("name"@, jstr(name)), ("value"@, jstr(value))])
}

/// The cookies, or the one named (none when it is unset or empty).
pub open spec fn cookies_reply(b: BrowserV, name: Option<Seq<char>>) -> JsonV {
    let rows = match name {
        Some(n) => {
            let v = match pair_get(b.cookies, n) { Some(x) => x, None => Seq::empty() };
            if v.len() == 0 { Seq::empty() } else { seq![cookie_json(n, v)] }
        },
        None => b.cookies.map_values(|c: (Seq<char>, Seq<char>)| cookie_json(c.0, c.1)),
    };
    JsonV::Object(seq![("cookies"@, JsonV::Array(rows))])
}

/// `browser.cookies.get`
pub open spec fn cmd_cookies_get(m: ControlV, ms: Members) -> Outcome {
    match string_param(ms, "name"@) {
        Err(e) => fail(m, e),
        Ok(n) => ok(m, cookies_reply(m.browser, n)),
    }
}

fn cookie_as_json(name: String, value: String) -> (r: Json)
    ensures
        json_view(r) == cookie_json(name@, value@),
{
    two_json("name", string(name), "value", string(value))
}

pub fn cookies_get(state: &mut ControlState, params: &Vec<(String, Json)>) -> (r: Result<Json, CommandError>)
    ensures
        (final(state)@, res_view(r)) == cmd_cookies_get(old(state)@, members_view(params@)),
{
    let n = match optional_string_param(params, "name") { Err(e) => return Err(e), Ok(v) => v };
    let b = state.browser();
    let mut items = new_items();
    match n {
        Some(name) => {
            let v = match pair_value(&b.cookies, name.as_str()) { Some(x) => x, None => String::new() };
            if v.unicode_len() > 0 {
                push_item(&mut items, cookie_as_json(name, v));
            }
        },
        None => {
            let ghost cv = b@.cookies;
            let mut i: usize = 0;
            while i < b.cookies.len()
                invariant
                    i <= b.cookies.len(),
                    cv == pairs_view(b.cookies@),
                    items_view(items@) == cv.take(i as int).map_values(|c: (Seq<char>, Seq<char>)| cookie_json(c.0, c.1)),
                decreases b.cookies.len() - i,
            {
                push_item(&mut items, cookie_as_json(b.cookies[i].0.clone(), b.cookies[i].1.clone()));
                proof {
                    assert(cv.take(i + 1) =~= cv.take(i as int).push(cv[i as int]));
                    assert(items_view(items@) =~= cv.take(i + 1).map_values(|c: (Seq<char>, Seq<char>)| cookie_json(c.0, c.1)));
                }
                i = i + 1;
            }
            proof { assert(cv.take(i as int) =~= cv); }
        },
    }
    Ok(one("cookies", array(items)))
}

/// `browser.cookies.set`
pub open spec fn cmd_cookies_set(m: ControlV, ms: Members) -> Outcome {
    match required_string(ms, "name"@) {
        Err(e) => fail(m, e),
        Ok(n) => match required_string(ms, "value"@) {
            Err(e) => fail(m, e),
            Ok(v) => ok(
                with_browser(m, BrowserV { cookies: pair_put(m.browser.cookies, n, v), ..m.browser }),
                ok_and2("name"@, jstr(n), "value"@, jstr(v)),
            ),
        },
    }
}

pub fn cookies_set(state: &mut ControlState, params: &Vec<(String, Json)>) -> (r: Result<Json, CommandError>)
    ensures
        (final(state)@, res_view(r)) == cmd_cookies_set(old(state)@, members_view(params@)),
{
    let n = match required_string_param(params, "name") { Err(e) => return Err(e), Ok(v) => v };
    let v = match required_string_param(params, "value") { Err(e) => return Err(e), Ok(x) => x };
    let mut b = state.take_browser();
    pair_set(&mut b.cookies, n.clone(), v.clone());
    state.put_browser(b);
    Ok(ok_and2_json("name", string(n), "value", string(v)))
}

/// `browser.cookies.clear`: the named cookie, or all of them.
pub open spec fn cmd_cookies_clear(m: ControlV, ms: Members) -> Outcome {
    match string_param(ms, "name"@) {
        Err(e) => fail(m, e),
        Ok(n) => {
            let c = match n { Some(x) => pair_del(m.browser.cookies, x), None => Seq::empty() };
            ok(with_browser(m, BrowserV { cookies: c, ..m.browser }), ok_reply())
        },
    }
}

pub fn cookies_clear(state: &mut ControlState, params: &Vec<(String, Json)>) -> (r: Result<Json, CommandError>)
    ensures
        (final(state)@, res_view(r)) == cmd_cookies_clear(old(state)@, members_view(params@)),
{
    let n = match optional_string_param(params, "name") { Err(e) => return Err(e), Ok(v) => v };
    let mut b = state.take_browser();
    match n {
        Some(x) => { b.cookies = pair_remove(&b.cookies, x.as_str()); },
        None => {
            b.cookies = Vec::new();
            proof { assert(pairs_view(b.cookies@) =~= Seq::<(Seq<char>, Seq<char>)>::empty()); }
        },
    }
    state.put_browser(b);
    Ok(ok_json())
}

/// Which storage a request names: session storage for `session`, else local.
pub open spec fn is_session(t: Option<Seq<char>>) -> bool {
    t == Some("session"@)
}

pub open spec fn store_of(b: BrowserV, session: bool) -> Pairs {
    if session { b.session_storage } else { b.local_storage }
}

pub open spec fn with_store(b: BrowserV, session: bool, p: Pairs) -> BrowserV {
    if session { BrowserV { session_storage: p, ..b } } else { BrowserV { local_storage: p, ..b } }
}

/// `browser.storage.get`: the value, or null.
pub open spec fn cmd_storage_get(m: ControlV, ms: Members) -> Outcome {
    match required_string(ms, "key"@) {
        Err(e) => fail(m, e),
        Ok(k) => match string_param(ms, "type"@) {
            Err(e) => fail(m, e),
            Ok(t) => ok(m, JsonV::Object(seq![("value"@, match pair_get(store_of(m.browser, is_session(t)), k) {
                Some(v) => jstr(v),
                None => JsonV::Null,
            })])),
        },
    }
}

fn session_named(t: &Option<String>) -> (r: bool)
    ensures
        r == is_session(opt_str_view(*t)),
{
    match t {
        Some(x) => str_eq(x.as_str(), "session"),
        None => false,
    }
}

pub fn storage_get(state: &mut ControlState, params: &Vec<(String, Json)>) -> (r: Result<Json, CommandError>)
    ensures
        (final(state)@, res_view(r)) == cmd_storage_get(old(state)@, members_view(params@)),
{
    let k = match required_string_param(params, "key") { Err(e) => return Err(e), Ok(v) => v };
    let t = match optional_string_param(params, "type") { Err(e) => return Err(e), Ok(v) => v };
    let b = state.browser();
    let store = if session_named(&t) { &b.session_storage } else { &b.local_storage };
    let v = match pair_value(store, k.as_str()) { Some(x) => string(x), None => Json::Null };
    Ok(one("value", v))
}

/// `browser.storage.set`
pub open spec fn cmd_storage_set(m: ControlV, ms: Members) -> Outcome {
    match required_string(ms, "key"@) {
        Err(e) => fail(m, e),
        Ok(k) => match required_string(ms, "value"@) {
            Err(e) => fail(m, e),
            Ok(v) => match string_param(ms, "type"@) {
                Err(e) => fail(m, e),
                Ok(t) => {
                    let s = is_session(t);
                    ok(with_browser(m, with_store(m.browser, s, pair_put(store_of(m.browser, s), k, v))), ok_and2("key"@, jstr(k), "value"@, jstr(v)))
                },
            },
        },
    }
}

pub fn storage_set(state: &mut ControlState, params: &Vec<(String, Json)>) -> (r: Result<Json, CommandError>)
    ensures
        (final(state)@, res_view(r)) == cmd_storage_set(old(state)@, members_view(params@)),
{
    let k = match required_string_param(params, "key") { Err(e) => return Err(e), Ok(v) => v };
    let v = match required_string_param(params, "value") { Err(e) => return Err(e), Ok(x) => x };
    let t = match optional_string_param(params, "type") { Err(e) => return Err(e), Ok(x) => x };
    let mut b = state.take_browser();
    if session_named(&t) {
        pair_set(&mut b.session_storage, k.clone(), v.clone());
    } else {
        pair_set(&mut b.local_storage, k.clone(), v.clone());
    }
    state.put_browser(b);
    Ok(ok_and2_json("key", string(k), "value", string(v)))
}

/// `browser.storage.clear`: the named key, or the whole storage.
pub open spec fn cmd_storage_clear(m: ControlV, ms: Members) -> Outcome {
    match string_param(ms, "type"@) {
        Err(e) => fail(m, e),
        Ok(t) => match string_param(ms, "key"@) {
            Err(e) => fail(m, e),
            Ok(k) => {
                let s = is_session(t);
                let p = match k { Some(x) => pair_del(store_of(m.browser, s), x), None => Seq::empty() };
                ok(with_browser(m, with_store(m.browser, s, p)), ok_reply())
            },
        },
    }
}

pub fn storage_clear(state: &mut ControlState, params: &Vec<(String, Json)>) -> (r: Result<Json, CommandError>)
    ensures
        (final(state)@, res_view(r)) == cmd_storage_clear(old(state)@, members_view(params@)),
{
    let t = match optional_string_param(params, "type") { Err(e) => return Err(e), Ok(v) => v };
    let k = match optional_string_param(params, "key") { Err(e) => return Err(e), Ok(v) => v };
    let s = session_named(&t);
    let mut b = state.take_browser();
    let kept = match k {
        Some(x) => pair_remove(if s { &b.session_storage } else { &b.local_storage }, x.as_str()),
        None => {
            let e: Vec<(String, String)> = Vec::new();
            proof { assert(pairs_view(e@) =~= Seq::<(Seq<char>, Seq<char>)>::empty()); }
            e
        },
    };
    if s { b.session_storage = kept; } else { b.local_storage = kept; }
    state.put_browser(b);
    Ok(ok_json())
}


/// After a value is set under a key, the key reads back that value.
pub proof fn lemma_pair_put_get(l: Pairs, k: Seq<char>, v: Seq<char>)
    ensures
        pair_get(pair_put(l, k, v), k) == Some(v),
{
    let p = super::browser::pair_key_is(k);
    lemma_first_index(l, p);
    let i = first_index(l, p);
    let l2 = pair_put(l, k, v);
    if i < 0 {
        assert(p(l2[l.len() as int]));
        lemma_first_index(l2, p);
        assert forall|j: int| 0 <= j < l.len() implies !p(#[trigger] l2[j]) by {
            assert(l2[j] == l[j]);
        }
    } else {
        assert(p(l2[i]));
        lemma_first_index(l2, p);
        assert forall|j: int| 0 <= j < i implies !p(#[trigger] l2[j]) by {
            assert(l2[j] == l[j]);
        }
    }
}

/// A `browser.storage.get` of the key a `browser.storage.set` just wrote,
/// in the same storage (`type` session, or else local), answers the value
/// written; the other storage is left as it was.
pub proof fn law_storage_set_then_get(m: ControlV, set: Members, get: Members)
    requires
        required_string(set, "key"@) is Ok,
        required_string(set, "value"@) is Ok,
        string_param(set, "type"@) is Ok,
        required_string(get, "key"@) == required_string(set, "key"@),
        string_param(get, "type"@) is Ok,
        is_session(string_param(get, "type"@)->Ok_0) == is_session(string_param(set, "type"@)->Ok_0),
    ensures
        cmd_storage_get(cmd_storage_set(m, set).0, get).1
            == Ok::<JsonV, ErrorV>(JsonV::Object(seq![("value"@, jstr(required_string(set, "value"@)->Ok_0))])),
        ({
            let s = is_session(string_param(set, "type"@)->Ok_0);
            store_of(cmd_storage_set(m, set).0.browser, !s) == store_of(m.browser, !s)
        }),
{
    let k = required_string(set, "key"@)->Ok_0;
    let v = required_string(set, "value"@)->Ok_0;
    let s = is_session(string_param(set, "type"@)->Ok_0);
    lemma_pair_put_get(store_of(m.browser, s), k, v);
}

} // verus!

verus! {

pub open spec fn tab_ref(id: u64) -> JsonV {
    jref("surface"@, id)
}

pub open spec fn tab_json(id: u64) -> JsonV {
    JsonV::Object(seq![("id"@, jhandle(id)), ("ref"@, tab_ref(id)), ("surface_id"@, jhandle(id)), ("surface_ref"@, tab_ref(id))])
}

/// `browser.tab.list`: the tabs and the current one.
pub open spec fn tab_list_reply(b: BrowserV) -> JsonV {
    JsonV::Object(seq![
        ("tabs"@, JsonV::Array(b.tab_ids.map_values(|id: u64| tab_json(id)))),
        ("current_surface_id"@, jhandle(b.current_tab_id)),
        ("current_surface_ref"@, tab_ref(b.current_tab_id)),
    ])
}

fn tab_as_json(id: u64) -> (r: Json)
    ensures
        json_view(r) == tab_json(id),
{
    let mut m = new_members();
    put(&mut m, "id", handle_json(id));
    put(&mut m, "ref", string(surface_ref(id)));
    put(&mut m, "surface_id", handle_json(id));
    put(&mut m, "surface_ref", string(surface_ref(id)));
    proof { assert(members_view(m@) =~= (tab_json(id))->Object_0); }
    object(m)
}

pub fn tab_list(state: &ControlState) -> (r: Json)
    ensures
        json_view(r) == tab_list_reply(state@.browser),
{
    let b = state.browser();
    let ghost tv = b@.tab_ids;
    let mut items = new_items();
    let mut i: usize = 0;
    while i < b.tab_ids.len()
        invariant
            i <= b.tab_ids.len(),
            tv == b.tab_ids@,
            items_view(items@) == tv.take(i as int).map_values(|id: u64| tab_json(id)),
        decreases b.tab_ids.len() - i,
    {
        push_item(&mut items, tab_as_json(b.tab_ids[i]));
        proof {
            assert(tv.take(i + 1) =~= tv.take(i as int).push(tv[i as int]));
            assert(items_view(items@) =~= tv.take(i + 1).map_values(|id: u64| tab_json(id)));
        }
        i = i + 1;
    }
    proof { assert(tv.take(i as int) =~= tv); }
    let mut m = new_members();
    put(&mut m, "tabs", array(items));
    put(&mut m, "current_surface_id", handle_json(b.current_tab_id));
    put(&mut m, "current_surface_ref", string(surface_ref(b.current_tab_id)));
    proof { assert(members_view(m@) =~= (tab_list_reply(b@))->Object_0); }
    object(m)
}

pub open spec fn tab_reply(id: u64) -> JsonV {
    JsonV::Object(seq![("surface_id"@, jhandle(id)), ("surface_ref"@, tab_ref(id))])
}

fn tab_reply_json(id: u64) -> (r: Json)
    ensures
        json_view(r) == tab_reply(id),
{
    two_json("surface_id", handle_json(id), "surface_ref", string(surface_ref(id)))
}

/// `browser.tab.new`: a browser tab split off the focused pane shows `url`
/// (else the current page while the browser is open, else `about:blank`).
/// The `url` parameter is read once the tab exists.
pub open spec fn cmd_tab_new(m: ControlV, ms: Members, files: Pairs) -> Outcome {
    let (m1, created) = split_surface(m, Some("browser"@));
    match created {
        None => fail(m1, not_found_err("no active window"@)),
        Some(sv) => {
            let m2 = mark_browser_panel(with_browser(m1, register_tab(m1.browser, sv.id)), sv.id);
            match string_param(ms, "url"@) {
                Err(e) => fail(m2, e),
                Ok(u) => {
                    let url = match u {
                        Some(x) => x,
                        None => if m2.browser.open { m2.browser.url } else { "about:blank"@ },
                    };
                    ok(with_browser(m2, navigate(m2.browser, url, files)), tab_reply(sv.id))
                },
            }
        },
    }
}

pub fn tab_new(state: &mut ControlState, params: &Vec<(String, Json)>, files: &Vec<(String, String)>) -> (r: Result<Json, CommandError>)
    requires
        has_id_room(old(state)@),
        history_room(old(state)@),
    ensures
        (final(state)@, res_view(r)) == cmd_tab_new(old(state)@, members_view(params@), pairs_view(files@)),
{
    let title = String::from_str("browser");
    proof { reveal_strlit("browser"); }
    let created = match state.split_surface(Some(title)) {
        None => return Err(CommandError::not_found("no active window")),
        Some(sv) => sv,
    };
    let mut b = state.take_browser();
    b.register_tab(created.id);
    state.put_browser(b);
    state.mark_browser_panel(created.id);
    let u = match optional_string_param(params, "url") { Err(e) => return Err(e), Ok(v) => v };
    let mut b = state.take_browser();
    let url = match u {
        Some(x) => x,
        None => if b.open { b.url.clone() } else { String::from_str("about:blank") },
    };
    b.navigate(url, files);
    state.put_browser(b);
    Ok(tab_reply_json(created.id))
}

/// `browser.tab.switch`: the tab named by `target_surface_id`, `surface_id`
/// or `tab_id` becomes current (and a tab, if it was not one).
pub open spec fn cmd_tab_switch(m: ControlV, ms: Members) -> Outcome {
    match u64_param_any(ms, seq!["target_surface_id"@, "surface_id"@, "tab_id"@]) {
        Err(e) => fail(m, e),
        Ok(None) => fail(m, invalid_params_err("target_surface_id/surface_id/tab_id is required"@)),
        Ok(Some(id)) => {
            let b = m.browser;
            let tabs = if b.tab_ids.contains(id) { b.tab_ids } else { b.tab_ids.push(id) };
            ok(with_browser(m, BrowserV { tab_ids: tabs, current_tab_id: id, ..b }), tab_reply(id))
        },
    }
}

fn tab_hint(params: &Vec<(String, Json)>) -> (r: Result<Option<u64>, CommandError>)
    ensures
        match r {
            Ok(v) => u64_param_any(members_view(params@), seq!["target_surface_id"@, "surface_id"@, "tab_id"@]) == Ok::<Option<u64>, ErrorV>(v),
            Err(e) => u64_param_any(members_view(params@), seq!["target_surface_id"@, "surface_id"@, "tab_id"@]) == Err::<Option<u64>, ErrorV>(e@),
        },
{
    proof { assert(keys_view(["target_surface_id", "surface_id", "tab_id"]@) =~= seq!["target_surface_id"@, "surface_id"@, "tab_id"@]); }
    optional_u64_param_any(params, &["target_surface_id", "surface_id", "tab_id"])
}

fn has_id(v: &Vec<u64>, x: u64) -> (r: Option<usize>)
    ensures
        match r {
            Some(i) => i < v.len() && v@[i as int] == x && forall|j: int| 0 <= j < i ==> v@[j] != x,
            None => !v@.contains(x),
        },
{
    let mut i: usize = 0;
    while i < v.len()
        invariant
            i <= v.len(),
            forall|j: int| 0 <= j < i ==> v@[j] != x,
        decreases v.len() - i,
    {
        if v[i] == x {
            return Some(i);
        }
        i = i + 1;
    }
    None
}

pub fn tab_switch(state: &mut ControlState, params: &Vec<(String, Json)>) -> (r: Result<Json, CommandError>)
    ensures
        (final(state)@, res_view(r)) == cmd_tab_switch(old(state)@, members_view(params@)),
{
    let id = match tab_hint(params) {
        Err(e) => return Err(e),
        Ok(None) => return Err(CommandError::invalid_params("target_surface_id/surface_id/tab_id is required")),
        Ok(Some(x)) => x,
    };
    let mut b = state.take_browser();
    if has_id(&b.tab_ids, id).is_none() {
        b.tab_ids.push(id);
    }
    b.current_tab_id = id;
    state.put_browser(b);
    Ok(tab_reply_json(id))
}

pub open spec fn id_is(x: u64) -> spec_fn(u64) -> bool {
    |y: u64| y == x
}

pub open spec fn first_pos(v: Seq<u64>, x: u64) -> int {
    first_index(v, id_is(x))
}

/// `browser.tab.close`: closes the named tab (the current one by default);
/// the last tab stays. When the current tab closes, the last one left
/// becomes current.
pub open spec fn cmd_tab_close(m: ControlV, ms: Members) -> Outcome {
    match u64_param_any(ms, seq!["target_surface_id"@, "surface_id"@, "tab_id"@]) {
        Err(e) => fail(m, e),
        Ok(t) => {
            let b = m.browser;
            let id = match t { Some(x) => x, None => b.current_tab_id };
            if b.tab_ids.len() <= 1 {
                fail(m, conflict_err("cannot close last tab"@))
            } else {
                let i = first_pos(b.tab_ids, id);
                if i < 0 {
                    fail(m, not_found_err("tab not found"@))
                } else {
                    let tabs = b.tab_ids.remove(i);
                    let cur = if b.current_tab_id == id { tabs.last() } else { b.current_tab_id };
                    ok(with_browser(m, BrowserV { tab_ids: tabs, current_tab_id: cur, ..b }), ok_and2("surface_id"@, jhandle(id), "surface_ref"@, tab_ref(id)))
                }
            }
        },
    }
}

pub fn tab_close(state: &mut ControlState, params: &Vec<(String, Json)>) -> (r: Result<Json, CommandError>)
    ensures
        (final(state)@, res_view(r)) == cmd_tab_close(old(state)@, members_view(params@)),
{
    let t = match tab_hint(params) { Err(e) => return Err(e), Ok(v) => v };
    let id = match t { Some(x) => x, None => state.browser().current_tab_id };
    if state.browser().tab_ids.len() <= 1 {
        return Err(CommandError::conflict("cannot close last tab"));
    }
    let ghost tv = state@.browser.tab_ids;
    match has_id(&state.browser().tab_ids, id) {
        None => {
            proof {
                lemma_first_index(tv, id_is(id));
                if first_pos(tv, id) >= 0 {
                    assert(tv[first_pos(tv, id)] == id);
                }
            }
            Err(CommandError::not_found("tab not found"))
        },
        Some(i) => {
            proof { lemma_first_index_unique(tv, id_is(id), i as int); }
            let mut b = state.take_browser();
            b.tab_ids.remove(i);
            if b.current_tab_id == id {
                let n = b.tab_ids.len();
                b.current_tab_id = b.tab_ids[n - 1];
            }
            state.put_browser(b);
            Ok(ok_and2_json("surface_id", handle_json(id), "surface_ref", string(surface_ref(id))))
        },
    }
}

/// `browser.frame.select`: the frame named by `selector` (or `frame_id`) is
/// selected; one with `missing` in its name does not exist.
pub open spec fn cmd_frame_select(m: ControlV, ms: Members) -> Outcome {
    match string_or(ms, "selector"@, "frame_id"@) {
        Err(e) => fail(m, e),
        Ok(None) => fail(m, invalid_params_err("selector is required"@)),
        Ok(Some(sel)) => if contains(sel, "missing"@) {
            fail(m, not_found_err("frame not found"@))
        } else {
            ok(with_browser(m, BrowserV { frame_selected: true, ..m.browser }), JsonV::Object(seq![("frame_id"@, jstr(sel))]))
        },
    }
}

pub fn frame_select(state: &mut ControlState, params: &Vec<(String, Json)>) -> (r: Result<Json, CommandError>)
    ensures
        (final(state)@, res_view(r)) == cmd_frame_select(old(state)@, members_view(params@)),
{
    let sel = match optional_string_param(params, "selector") {
        Err(e) => return Err(e),
        Ok(Some(x)) => x,
        Ok(None) => match optional_string_param(params, "frame_id") {
            Ok(Some(y)) => y,
            _ => return Err(CommandError::invalid_params("selector is required")),
        },
    };
    if str_contains(sel.as_str(), "missing") {
        return Err(CommandError::not_found("frame not found"));
    }
    let mut b = state.take_browser();
    b.frame_selected = true;
    state.put_browser(b);
    Ok(one("frame_id", string(sel)))
}

/// `browser.frame.main`
pub fn frame_main(state: &mut ControlState) -> (r: Json)
    ensures
        final(state)@ == with_browser(old(state)@, BrowserV { frame_selected: false, ..old(state)@.browser }),
        json_view(r) == JsonV::Object(seq![("frame_id"@, jstr("main"@))]),
{
    let mut b = state.take_browser();
    b.frame_selected = false;
    state.put_browser(b);
    one("frame_id", text("main"))
}

/// `browser.dialog.accept` and `browser.dialog.dismiss`: the oldest dialog
/// is answered.
pub open spec fn cmd_dialog(m: ControlV, accept: bool) -> Outcome {
    if m.browser.dialogs.len() == 0 {
        fail(m, not_found_err("dialog queue empty"@))
    } else {
        ok(with_browser(m, BrowserV { dialogs: m.browser.dialogs.drop_first(), ..m.browser }), ok_and("accepted"@, jbool(accept)))
    }
}

pub fn dialog(state: &mut ControlState, accept: bool) -> (r: Result<Json, CommandError>)
    ensures
        (final(state)@, res_view(r)) == cmd_dialog(old(state)@, accept),
{
    if state.browser().dialogs.len() == 0 {
        return Err(CommandError::not_found("dialog queue empty"));
    }
    let mut b = state.take_browser();
    let ghost before = b.dialogs@;
    proof { assert(b@.dialogs.len() > 0); assert(b.dialogs@.len() == b@.dialogs.len()); }
    b.dialogs.remove(0);
    proof { assert(strings_view(b.dialogs@) =~= strings_view(before).drop_first()); }
    state.put_browser(b);
    Ok(ok_and_json("accepted", boolean(accept)))
}

/// The browser's state as saved: the page, its tab and both storages.
pub open spec fn saved_state(b: BrowserV) -> JsonV {
    JsonV::Object(seq![
        ("url"@, jstr(b.url)),
        ("title"@, jstr(b.title)),
        ("current_tab_id"@, juint(b.current_tab_id)),
        ("local_storage"@, pairs_object(b.local_storage)),
        ("session_storage"@, pairs_object(b.session_storage)),
    ])
}

/// `browser.state.save`: the state, with the `path` the host writes it to
/// when one is given.
pub open spec fn cmd_state_save(m: ControlV, ms: Members) -> Outcome {
    match string_param(ms, "path"@) {
        Err(e) => fail(m, e),
        Ok(Some(p)) => ok(m, JsonV::Object(seq![("path"@, jstr(p)), ("state"@, saved_state(m.browser))])),
        Ok(None) => ok(m, JsonV::Object(seq![("state"@, saved_state(m.browser))])),
    }
}

/// The browser's state as saved; see `saved_state`.
pub fn saved_state_json(state: &ControlState) -> (r: Json)
    ensures
        json_view(r) == saved_state(state@.browser),
{
    let b = state.browser();
    let mut m = new_members();
    put(&mut m, "url", string(b.url.clone()));
    put(&mut m, "title", string(b.title.clone()));
    put(&mut m, "current_tab_id", uint(b.current_tab_id));
    put(&mut m, "local_storage", pairs_json(&b.local_storage));
    put(&mut m, "session_storage", pairs_json(&b.session_storage));
    proof { assert(members_view(m@) =~= (saved_state(b@))->Object_0); }
    object(m)
}

pub fn state_save(state: &mut ControlState, params: &Vec<(String, Json)>) -> (r: Result<Json, CommandError>)
    ensures
        (final(state)@, res_view(r)) == cmd_state_save(old(state)@, members_view(params@)),
{
    let p = match optional_string_param(params, "path") { Err(e) => return Err(e), Ok(v) => v };
    match p {
        Some(path) => Ok(two_json("path", string(path), "state", saved_state_json(state))),
        None => Ok(one("state", saved_state_json(state))),
    }
}

/// The URL a `state` parameter carries, if it is an object with a string `url`.
pub open spec fn state_url(ms: Members) -> Option<Seq<char>> {
    match lookup(ms, "state"@) {
        Some(JsonV::Object(st)) => match lookup(st, "url"@) {
            Some(JsonV::Str(u)) => Some(u),
            _ => None,
        },
        _ => None,
    }
}

/// `browser.state.load`: without a `path`, opens the URL of the `state`
/// parameter, if any; a file named by `path` is loaded by the host (see
/// `loaded_state`), so here it changes nothing. Answers the URL shown.
pub open spec fn cmd_state_load(m: ControlV, ms: Members, files: Pairs) -> Outcome {
    match string_param(ms, "path"@) {
        Err(e) => fail(m, e),
        Ok(p) => {
            let b = match p {
                Some(_) => m.browser,
                None => match state_url(ms) {
                    Some(u) => navigate(m.browser, u, files),
                    None => m.browser,
                },
            };
            ok(with_browser(m, b), ok_and("url"@, jstr(b.url)))
        },
    }
}

fn state_url_of(params: &Vec<(String, Json)>) -> (r: Option<String>)
    ensures
        opt_str_view(r) == state_url(members_view(params@)),
{
    match get(params, "state") {
        Some(Json::Object(st)) => {
            proof { assert(members_view(st@) =~= (json_view(Json::Object(*st)))->Object_0); }
            match get(st, "url") {
                Some(Json::Str(u)) => Some(u.clone()),
                _ => None,
            }
        },
        _ => None,
    }
}

pub fn state_load(state: &mut ControlState, params: &Vec<(String, Json)>, files: &Vec<(String, String)>) -> (r: Result<Json, CommandError>)
    requires
        history_room(old(state)@),
    ensures
        (final(state)@, res_view(r)) == cmd_state_load(old(state)@, members_view(params@), pairs_view(files@)),
{
    let p = match optional_string_param(params, "path") { Err(e) => return Err(e), Ok(v) => v };
    if p.is_none() {
        match state_url_of(params) {
            Some(u) => {
                let mut b = state.take_browser();
                b.navigate(u, files);
                state.put_browser(b);
            },
            None => {},
        }
    }
    let u = state.browser().url.clone();
    Ok(ok_and_json("url", string(u)))
}

/// A state file's contents: a URL to open, then the storages it replaces.
pub open spec fn loaded_state(b: BrowserV, url: Option<Seq<char>>, local: Option<Pairs>, session: Option<Pairs>, files: Pairs) -> BrowserV {
    let b1 = match url { Some(u) => navigate(b, u, files), None => b };
    let b2 = match local { Some(l) => BrowserV { local_storage: l, ..b1 }, None => b1 };
    match session { Some(s) => BrowserV { session_storage: s, ..b2 }, None => b2 }
}

pub open spec fn opt_pairs_view(o: Option<Vec<(String, String)>>) -> Option<Pairs> {
    match o {
        Some(v) => Some(pairs_view(v@)),
        None => None,
    }
}

/// Loads a state file the host has read; see `loaded_state`. Answers as
/// `browser.state.load` does.
pub fn load_state(
    state: &mut ControlState,
    url: Option<String>,
    local: Option<Vec<(String, String)>>,
    session: Option<Vec<(String, String)>>,
    files: &Vec<(String, String)>,
) -> (r: Json)
    requires
        history_room(old(state)@),
    ensures
        final(state)@ == with_browser(old(state)@, loaded_state(old(state)@.browser, opt_str_view(url), opt_pairs_view(local), opt_pairs_view(session), pairs_view(files@))),
        json_view(r) == ok_and("url"@, jstr(final(state)@.browser.url)),
{
    let mut b = state.take_browser();
    match url {
        Some(u) => b.navigate(u, files),
        None => {},
    }
    match local {
        Some(l) => { b.local_storage = l; },
        None => {},
    }
    match session {
        Some(s) => { b.session_storage = s; },
        None => {},
    }
    let u = b.url.clone();
    state.put_browser(b);
    ok_and_json("url", string(u))
}

/// Where `browser.download.wait` looks and for how long: `path` (by default
/// `/tmp/download.bin`) and `timeout_ms` (by default 5000).
pub open spec fn download_wait_spec(ms: Members) -> Result<(Seq<char>, u64), ErrorV> {
    match string_param(ms, "path"@) {
        Err(e) => Err(e),
        Ok(p) => match u64_param(ms, "timeout_ms"@) {
            Err(e) => Err(e),
            Ok(t) => Ok((match p { Some(x) => x, None => "/tmp/download.bin"@ }, match t { Some(x) => x, None => 5000 })),
        },
    }
}

/// The file and timeout of a `browser.download.wait`; see `download_wait_spec`.
pub fn download_wait_params(params: &Vec<(String, Json)>) -> (r: Result<(String, u64), CommandError>)
    ensures
        match r {
            Ok((p, t)) => download_wait_spec(members_view(params@)) == Ok::<(Seq<char>, u64), ErrorV>((p@, t)),
            Err(e) => download_wait_spec(members_view(params@)) == Err::<(Seq<char>, u64), ErrorV>(e@),
        },
{
    let p = match optional_string_param(params, "path") { Err(e) => return Err(e), Ok(v) => v };
    let t = match optional_u64_param(params, "timeout_ms") { Err(e) => return Err(e), Ok(v) => v };
    let path = match p { Some(x) => x, None => String::from_str("/tmp/download.bin") };
    Ok((path, match t { Some(x) => x, None => 5000 }))
}

} // verus!

verus! {

/// The methods answered as not supported: no page here has a viewport,
/// location, network, trace, screencast or raw input to set.
pub open spec fn unsupported_browser_methods() -> Seq<Seq<char>> {
    seq![
        "browser.viewport.set"@, "browser.geolocation.set"@, "browser.offline.set"@, "browser.trace.start"@,
        "browser.trace.stop"@, "browser.network.route"@, "browser.network.unroute"@, "browser.network.requests"@,
        "browser.screencast.start"@, "browser.screencast.stop"@, "browser.input_mouse"@, "browser.input_keyboard"@,
        "browser.input_touch"@,
    ]
}

fn is_unsupported_browser_method(method: &str) -> (r: bool)
    ensures
        r == unsupported_browser_methods().contains(method@),
{
    let names = [
        "browser.viewport.set", "browser.geolocation.set", "browser.offline.set", "browser.trace.start",
        "browser.trace.stop", "browser.network.route", "browser.network.unroute", "browser.network.requests",
        "browser.screencast.start", "browser.screencast.stop", "browser.input_mouse", "browser.input_keyboard",
        "browser.input_touch",
    ];
    proof { assert(names@.map_values(|s: &str| s@) =~= unsupported_browser_methods()); }
    let mut i: usize = 0;
    while i < names.len()
        invariant
            i <= names.len(),
            names@.map_values(|s: &str| s@) == unsupported_browser_methods(),
            forall|j: int| 0 <= j < i ==> unsupported_browser_methods()[j] != method@,
        decreases names.len() - i,
    {
        if str_eq(names[i], method) {
            proof { assert(unsupported_browser_methods()[i as int] == method@); }
            return true;
        }
        i = i + 1;
    }
    proof {
        if unsupported_browser_methods().contains(method@) {
            let j = choose|j: int| 0 <= j < unsupported_browser_methods().len() && unsupported_browser_methods()[j] == method@;
            assert(unsupported_browser_methods()[j] != method@);
        }
    }
    false
}

pub open spec fn not_supported(method: Seq<char>) -> ErrorV {
    ErrorV { code: -32020i64, message: "not_supported: "@ + method }
}

/// The browser methods beyond opening, navigating, reading and filling the
/// page. `browser.download.wait` is answered by the host, which can see the
/// file system; here it is not supported.
pub open spec fn browser_ext_dispatch(m: ControlV, method: Seq<char>, params: JsonV, files: Pairs) -> Outcome {
    match params_members(params) {
        Err(e) => fail(m, e),
        Ok(ms) => if method == "browser.focus"@ {
            cmd_element_action(m, ms, ElementAction::Focus)
        } else if method == "browser.hover"@ {
            cmd_element_action(m, ms, ElementAction::Hover)
        } else if method == "browser.dblclick"@ {
            cmd_element_action(m, ms, ElementAction::DoubleClick)
        } else if method == "browser.scroll_into_view"@ {
            cmd_element_action(m, ms, ElementAction::ScrollIntoView)
        } else if method == "browser.press"@ {
            cmd_key(m, ms, true)
        } else if method == "browser.keydown"@ || method == "browser.keyup"@ {
            cmd_key(m, ms, false)
        } else if method == "browser.type"@ {
            cmd_type(m, ms)
        } else if method == "browser.check"@ {
            cmd_check(m, ms, true)
        } else if method == "browser.uncheck"@ {
            cmd_check(m, ms, false)
        } else if method == "browser.select"@ {
            cmd_select(m, ms)
        } else if method == "browser.scroll"@ {
            cmd_scroll(m, ms)
        } else if method == "browser.get.attr"@ {
            cmd_get_attr(m, ms)
        } else if method == "browser.get.box"@ {
            ok(m, box_reply())
        } else if method == "browser.get.count"@ {
            cmd_get_count(m, ms)
        } else if method == "browser.get.html"@ {
            cmd_get_html(m, ms)
        } else if method == "browser.get.styles"@ {
            cmd_get_styles(m, ms)
        } else if method == "browser.is.checked"@ {
            cmd_element_state(m, ms, ElementState::Checked)
        } else if method == "browser.is.enabled"@ {
            cmd_element_state(m, ms, ElementState::Enabled)
        } else if method == "browser.is.visible"@ {
            cmd_element_state(m, ms, ElementState::Visible)
        } else if method == "browser.find.role"@ {
            cmd_find_role(m, ms)
        } else if method == "browser.highlight"@ {
            ok(m, ok_reply())
        } else if method == "browser.addscript"@ {
            cmd_addscript(m, ms)
        } else if method == "browser.addinitscript"@ {
            cmd_addinitscript(m, ms)
        } else if method == "browser.addstyle"@ {
            cmd_addstyle(m, ms)
        } else if method == "browser.console.list"@ {
            ok(m, log_reply("entries"@, m.browser.console))
        } else if method == "browser.console.clear"@ {
            ok(with_browser(m, BrowserV { console: Seq::empty(), ..m.browser }), ok_reply())
        } else if method == "browser.errors.list"@ {
            ok(m, log_reply("errors"@, m.browser.errors))
        } else if method == "browser.cookies.get"@ {
            cmd_cookies_get(m, ms)
        } else if method == "browser.cookies.set"@ {
            cmd_cookies_set(m, ms)
        } else if method == "browser.cookies.clear"@ {
            cmd_cookies_clear(m, ms)
        } else if method == "browser.storage.get"@ {
            cmd_storage_get(m, ms)
        } else if method == "browser.storage.set"@ {
            cmd_storage_set(m, ms)
        } else if method == "browser.storage.clear"@ {
            cmd_storage_clear(m, ms)
        } else if method == "browser.tab.list"@ {
            ok(m, tab_list_reply(m.browser))
        } else if method == "browser.tab.new"@ {
            cmd_tab_new(m, ms, files)
        } else if method == "browser.tab.switch"@ {
            cmd_tab_switch(m, ms)
        } else if method == "browser.tab.close"@ {
            cmd_tab_close(m, ms)
        } else if method == "browser.frame.select"@ {
            cmd_frame_select(m, ms)
        } else if method == "browser.frame.main"@ {
            ok(with_browser(m, BrowserV { frame_selected: false, ..m.browser }), JsonV::Object(seq![("frame_id"@, jstr("main"@))]))
        } else if method == "browser.dialog.accept"@ {
            cmd_dialog(m, true)
        } else if method == "browser.dialog.dismiss"@ {
            cmd_dialog(m, false)
        } else if method == "browser.state.save"@ {
            cmd_state_save(m, ms)
        } else if method == "browser.state.load"@ {
            cmd_state_load(m, ms, files)
        } else if starts_with(method, "browser.find."@) {
            cmd_find(m, method)
        } else if method == "browser.download.wait"@ || unsupported_browser_methods().contains(method) {
            fail(m, not_supported(method))
        } else {
            fail(m, unknown_method_err(method))
        },
    }
}

/// Carries out one of the browser methods of `browser_ext_dispatch`.
pub fn handle_browser_ext(state: &mut ControlState, method: &str, params: &Json, files: &Vec<(String, String)>) -> (r: Result<Json, CommandError>)
    requires
        has_id_room(old(state)@),
        history_room(old(state)@),
    ensures
        (final(state)@, res_view(r)) == browser_ext_dispatch(old(state)@, method@, json_view(*params), pairs_view(files@)),
{
    let ms = match params_object(params) { Err(e) => return Err(e), Ok(ms) => ms };
    proof { assert(json_view(*params)->Object_0 =~= members_view(ms@)); }
    if str_eq(method, "browser.focus") {
        element_action(state, ms, ElementAction::Focus)
    } else if str_eq(method, "browser.hover") {
        element_action(state, ms, ElementAction::Hover)
    } else if str_eq(method, "browser.dblclick") {
        element_action(state, ms, ElementAction::DoubleClick)
    } else if str_eq(method, "browser.scroll_into_view") {
        element_action(state, ms, ElementAction::ScrollIntoView)
    } else if str_eq(method, "browser.press") {
        key_input(state, ms, true)
    } else if str_eq(method, "browser.keydown") || str_eq(method, "browser.keyup") {
        key_input(state, ms, false)
    } else if str_eq(method, "browser.type") {
        type_text(state, ms)
    } else if str_eq(method, "browser.check") {
        check(state, ms, true)
    } else if str_eq(method, "browser.uncheck") {
        check(state, ms, false)
    } else if str_eq(method, "browser.select") {
        select(state, ms)
    } else if str_eq(method, "browser.scroll") {
        scroll(state, ms)
    } else if str_eq(method, "browser.get.attr") {
        get_attr(state, ms)
    } else if str_eq(method, "browser.get.box") {
        Ok(get_box())
    } else if str_eq(method, "browser.get.count") {
        get_count(state, ms)
    } else if str_eq(method, "browser.get.html") {
        get_html(state, ms)
    } else if str_eq(method, "browser.get.styles") {
        get_styles(state, ms)
    } else if str_eq(method, "browser.is.checked") {
        element_state_of(state, ms, ElementState::Checked)
    } else if str_eq(method, "browser.is.enabled") {
        element_state_of(state, ms, ElementState::Enabled)
    } else if str_eq(method, "browser.is.visible") {
        element_state_of(state, ms, ElementState::Visible)
    } else if str_eq(method, "browser.find.role") {
        find_role(state, ms)
    } else if str_eq(method, "browser.highlight") {
        Ok(ok_json())
    } else if str_eq(method, "browser.addscript") {
        addscript(state, ms)
    } else if str_eq(method, "browser.addinitscript") {
        addinitscript(state, ms)
    } else if str_eq(method, "browser.addstyle") {
        addstyle(state, ms)
    } else if str_eq(method, "browser.console.list") {
        Ok(log_list(state, false))
    } else if str_eq(method, "browser.console.clear") {
        Ok(console_clear(state))
    } else if str_eq(method, "browser.errors.list") {
        Ok(log_list(state, true))
    } else if str_eq(method, "browser.cookies.get") {
        cookies_get(state, ms)
    } else if str_eq(method, "browser.cookies.set") {
        cookies_set(state, ms)
    } else if str_eq(method, "browser.cookies.clear") {
        cookies_clear(state, ms)
    } else if str_eq(method, "browser.storage.get") {
        storage_get(state, ms)
    } else if str_eq(method, "browser.storage.set") {
        storage_set(state, ms)
    } else if str_eq(method, "browser.storage.clear") {
        storage_clear(state, ms)
    } else if str_eq(method, "browser.tab.list") {
        Ok(tab_list(state))
    } else if str_eq(method, "browser.tab.new") {
        tab_new(state, ms, files)
    } else if str_eq(method, "browser.tab.switch") {
        tab_switch(state, ms)
    } else if str_eq(method, "browser.tab.close") {
        tab_close(state, ms)
    } else if str_eq(method, "browser.frame.select") {
        frame_select(state, ms)
    } else if str_eq(method, "browser.frame.main") {
        Ok(frame_main(state))
    } else if str_eq(method, "browser.dialog.accept") {
        dialog(state, true)
    } else if str_eq(method, "browser.dialog.dismiss") {
        dialog(state, false)
    } else if str_eq(method, "browser.state.save") {
        state_save(state, ms)
    } else if str_eq(method, "browser.state.load") {
        state_load(state, ms, files)
    } else if str_starts_with(method, "browser.find.") {
        Ok(find(state, method))
    } else if str_eq(method, "browser.download.wait") || is_unsupported_browser_method(method) {
        Err(CommandError::not_supported(method))
    } else {
        Err(CommandError::unknown_method(method))
    }
}

} // verus!
