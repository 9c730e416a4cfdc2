//! The control protocol's errors, parameter readers and the JSON shapes of
//! its answers.
use vstd::prelude::*;
use crate::json::{
    Json, JsonNumber, JsonV, json_view, members_view, items_view, lookup, get, object, array, put,
    push_item, new_members, new_items, uint, string, text, boolean, opt_uint, juint, jstr, jbool,
    jopt_uint,
};
use crate::handles::{
    handle_of, ref_of, encode_handle_id, workspace_ref, pane_ref, surface_ref, window_ref,
    decode_handle, decode_handle_id,
};
use super::{
    PaneInfo, SurfaceInfo, SurfaceInfoV, WindowInfo, WindowInfoV, WorkspaceInfo, WorkspaceInfoV,
    NotificationInfo, NotificationV,
};

verus! {

/// An error answered to a request.
pub struct CommandError {
    pub code: i64,
    pub message: String,
}

pub struct ErrorV {
    pub code: i64,
    pub message: Seq<char>,
}

impl View for CommandError {
    type V = ErrorV;

    open spec fn view(&self) -> ErrorV {
        ErrorV { code: self.code, message: self.message@ }
    }
}

pub open spec fn invalid_params_err(msg: Seq<char>) -> ErrorV {
    ErrorV { code: -32602i64, message: "invalid_params: "@ + msg }
}

pub open spec fn not_found_err(msg: Seq<char>) -> ErrorV {
    ErrorV { code: -32004i64, message: "not_found: "@ + msg }
}

pub open spec fn conflict_err(msg: Seq<char>) -> ErrorV {
    ErrorV { code: -32009i64, message: msg }
}

pub open spec fn timeout_err(msg: Seq<char>) -> ErrorV {
    ErrorV { code: -32008i64, message: "timeout: "@ + msg }
}

pub open spec fn unknown_method_err(method: Seq<char>) -> ErrorV {
    ErrorV { code: -32601i64, message: "unknown method: "@ + method }
}

fn concat(a: &str, b: &str) -> (r: String)
    ensures
        r@ == a@ + b@,
{
    let mut s = String::from_str(a);
    s.append(b);
    s
}

impl CommandError {
    pub fn invalid_params(message: &str) -> (r: CommandError)
        ensures
            r@ == invalid_params_err(message@),
    {
        CommandError { code: -32602, message: concat("invalid_params: ", message) }
    }

    pub fn not_found(message: &str) -> (r: CommandError)
        ensures
            r@ == not_found_err(message@),
    {
        CommandError { code: -32004, message: concat("not_found: ", message) }
    }

    pub fn conflict(message: &str) -> (r: CommandError)
        ensures
            r@ == conflict_err(message@),
    {
        CommandError { code: -32009, message: String::from_str(message) }
    }

    pub fn timeout(message: &str) -> (r: CommandError)
        ensures
            r@ == timeout_err(message@),
    {
        CommandError { code: -32008, message: concat("timeout: ", message) }
    }

    pub fn not_supported(method: &str) -> (r: CommandError)
        ensures
            r@ == (ErrorV { code: -32020i64, message: "not_supported: "@ + method@ }),
    {
        CommandError { code: -32020, message: concat("not_supported: ", method) }
    }

    pub fn unknown_method(method: &str) -> (r: CommandError)
        ensures
            r@ == unknown_method_err(method@),
    {
        CommandError { code: -32601, message: concat("unknown method: ", method) }
    }
}

// ---------------------------------------------------------------------------
// Parameters
// ---------------------------------------------------------------------------

pub type Members = Seq<(Seq<char>, JsonV)>;

/// The members of the parameters, which must be an object.
pub open spec fn params_members(p: JsonV) -> Result<Members, ErrorV> {
    match p {
        JsonV::Object(ms) => Ok(ms),
        _ => Err(invalid_params_err("params must be an object"@)),
    }
}

pub open spec fn string_param(ms: Members, key: Seq<char>) -> Result<Option<Seq<char>>, ErrorV> {
    match lookup(ms, key) {
        None => Ok(None),
        Some(JsonV::Null) => Ok(None),
        Some(JsonV::Str(s)) => Ok(Some(s)),
        Some(_) => Err(invalid_params_err(key + " must be a string"@)),
    }
}

pub open spec fn required_string(ms: Members, key: Seq<char>) -> Result<Seq<char>, ErrorV> {
    match string_param(ms, key) {
        Err(e) => Err(e),
        Ok(None) => Err(invalid_params_err(key + " is required and must be a string"@)),
        Ok(Some(s)) => Ok(s),
    }
}

pub open spec fn u64_param(ms: Members, key: Seq<char>) -> Result<Option<u64>, ErrorV> {
    match lookup(ms, key) {
        None => Ok(None),
        Some(JsonV::Null) => Ok(None),
        Some(JsonV::Number(JsonNumber::UInt(n))) => Ok(Some(n)),
        Some(JsonV::Str(s)) => match decode_handle(s) {
            Some(v) => Ok(Some(v)),
            None => Err(invalid_params_err(key + " must be an unsigned integer, UUID, or ref handle"@)),
        },
        Some(_) => Err(invalid_params_err(key + " must be an unsigned integer"@)),
    }
}

/// The first of several keys that holds an id; an ill-formed value of an
/// earlier key is an error.
pub open spec fn u64_param_any(ms: Members, keys: Seq<Seq<char>>) -> Result<Option<u64>, ErrorV>
    decreases keys.len(),
{
    if keys.len() == 0 {
        Ok(None)
    } else {
        match u64_param(ms, keys[0]) {
            Err(e) => Err(e),
            Ok(Some(v)) => Ok(Some(v)),
            Ok(None) => u64_param_any(ms, keys.drop_first()),
        }
    }
}

pub open spec fn bool_param(ms: Members, key: Seq<char>) -> Result<Option<bool>, ErrorV> {
    match lookup(ms, key) {
        None => Ok(None),
        Some(JsonV::Null) => Ok(None),
        Some(JsonV::Bool(b)) => Ok(Some(b)),
        Some(_) => Err(invalid_params_err(key + " must be a boolean"@)),
    }
}

pub open spec fn index_param(ms: Members, key: Seq<char>) -> Result<Option<usize>, ErrorV> {
    match u64_param(ms, key) {
        Err(e) => Err(e),
        Ok(None) => Ok(None),
        Ok(Some(v)) => if v <= usize::MAX { Ok(Some(v as usize)) } else { Err(invalid_params_err(key + " is too large"@)) },
    }
}

pub open spec fn keys_view(keys: Seq<&str>) -> Seq<Seq<char>> {
    keys.map_values(|k: &str| k@)
}

/// The members of the parameters; see `params_members`.
pub fn params_object(params: &Json) -> (r: Result<&Vec<(String, Json)>, CommandError>)
    ensures
        match r {
            Ok(m) => params_members(json_view(*params)) == Ok::<Members, ErrorV>(members_view(m@)),
            Err(e) => params_members(json_view(*params)) == Err::<Members, ErrorV>(e@),
        },
{
    match params {
        Json::Object(m) => {
            proof { assert(json_view(*params)->Object_0 =~= members_view(m@)); }
            Ok(m)
        },
        _ => Err(CommandError::invalid_params("params must be an object")),
    }
}

pub fn optional_string_param(params: &Vec<(String, Json)>, key: &str) -> (r: Result<Option<String>, CommandError>)
    ensures
        match r {
            Ok(v) => string_param(members_view(params@), key@) == Ok::<Option<Seq<char>>, ErrorV>(crate::control::opt_str_view(v)),
            Err(e) => string_param(members_view(params@), key@) == Err::<Option<Seq<char>>, ErrorV>(e@),
        },
{
    match get(params, key) {
        None => Ok(None),
        Some(Json::Null) => Ok(None),
        Some(Json::Str(s)) => Ok(Some(s.clone())),
        Some(_) => Err(CommandError::invalid_params(concat(key, " must be a string").as_str())),
    }
}

pub fn required_string_param(params: &Vec<(String, Json)>, key: &str) -> (r: Result<String, CommandError>)
    ensures
        match r {
            Ok(v) => required_string(members_view(params@), key@) == Ok::<Seq<char>, ErrorV>(v@),
            Err(e) => required_string(members_view(params@), key@) == Err::<Seq<char>, ErrorV>(e@),
        },
{
    match optional_string_param(params, key) {
        Err(e) => Err(e),
        Ok(None) => Err(CommandError::invalid_params(concat(key, " is required and must be a string").as_str())),
        Ok(Some(s)) => Ok(s),
    }
}

pub fn optional_u64_param(params: &Vec<(String, Json)>, key: &str) -> (r: Result<Option<u64>, CommandError>)
    ensures
        match r {
            Ok(v) => u64_param(members_view(params@), key@) == Ok::<Option<u64>, ErrorV>(v),
            Err(e) => u64_param(members_view(params@), key@) == Err::<Option<u64>, ErrorV>(e@),
        },
{
    match get(params, key) {
        None => Ok(None),
        Some(Json::Null) => Ok(None),
        Some(Json::Number(JsonNumber::UInt(n))) => Ok(Some(*n)),
        Some(Json::Str(s)) => match decode_handle_id(s.as_str()) {
            Some(v) => Ok(Some(v)),
            None => Err(CommandError::invalid_params(
                concat(key, " must be an unsigned integer, UUID, or ref handle").as_str(),
            )),
        },
        Some(_) => Err(CommandError::invalid_params(concat(key, " must be an unsigned integer").as_str())),
    }
}

pub fn optional_u64_param_any(params: &Vec<(String, Json)>, keys: &[&str]) -> (r: Result<Option<u64>, CommandError>)
    ensures
        match r {
            Ok(v) => u64_param_any(members_view(params@), keys_view(keys@)) == Ok::<Option<u64>, ErrorV>(v),
            Err(e) => u64_param_any(members_view(params@), keys_view(keys@)) == Err::<Option<u64>, ErrorV>(e@),
        },
{
    let ghost ms = members_view(params@);
    let ghost all = keys_view(keys@);
    let mut i: usize = 0;
    proof { assert(all.skip(0) =~= all); }
    while i < keys.len()
        invariant
            i <= keys@.len(),
            all == keys_view(keys@),
            ms == members_view(params@),
            u64_param_any(ms, all) == u64_param_any(ms, all.skip(i as int)),
        decreases keys.len() - i,
    {
        proof {
            assert(all.skip(i as int)[0] == keys@[i as int]@);
            assert(all.skip(i as int).drop_first() =~= all.skip(i + 1));
        }
        match optional_u64_param(params, keys[i]) {
            Err(e) => return Err(e),
            Ok(Some(v)) => return Ok(Some(v)),
            Ok(None) => {},
        }
        i = i + 1;
    }
    proof { assert(all.skip(i as int) =~= Seq::<Seq<char>>::empty()); }
    Ok(None)
}

pub fn optional_bool_param(params: &Vec<(String, Json)>, key: &str) -> (r: Result<Option<bool>, CommandError>)
    ensures
        match r {
            Ok(v) => bool_param(members_view(params@), key@) == Ok::<Option<bool>, ErrorV>(v),
            Err(e) => bool_param(members_view(params@), key@) == Err::<Option<bool>, ErrorV>(e@),
        },
{
    match get(params, key) {
        None => Ok(None),
        Some(Json::Null) => Ok(None),
        Some(Json::Bool(b)) => Ok(Some(*b)),
        Some(_) => Err(CommandError::invalid_params(concat(key, " must be a boolean").as_str())),
    }
}

pub fn optional_index_param(params: &Vec<(String, Json)>, key: &str) -> (r: Result<Option<usize>, CommandError>)
    ensures
        match r {
            Ok(v) => index_param(members_view(params@), key@) == Ok::<Option<usize>, ErrorV>(v),
            Err(e) => index_param(members_view(params@), key@) == Err::<Option<usize>, ErrorV>(e@),
        },
{
    match optional_u64_param(params, key) {
        Err(e) => Err(e),
        Ok(None) => Ok(None),
        Ok(Some(v)) => if v <= usize::MAX as u64 {
            Ok(Some(v as usize))
        } else {
            Err(CommandError::invalid_params(concat(key, " is too large").as_str()))
        },
    }
}


// ---------------------------------------------------------------------------
// Answers
// ---------------------------------------------------------------------------

pub open spec fn ws_info_json(i: WorkspaceInfoV) -> JsonV {
    JsonV::Object(seq![
        ("id"@, juint(i.id)),
        ("name"@, jstr(i.name)),
        ("host_window_id"@, juint(i.host_window_id)),
        ("window_count"@, juint(i.window_count as u64)),
        ("current_window_id"@, jopt_uint(i.current_window_id)),
    ])
}

pub open spec fn win_info_json(i: WindowInfoV) -> JsonV {
    JsonV::Object(seq![
        ("id"@, juint(i.id)),
        ("title"@, jstr(i.title)),
        ("pane_count"@, juint(i.pane_count as u64)),
        ("current_pane_id"@, jopt_uint(i.current_pane_id)),
    ])
}

pub open spec fn pane_info_json(p: PaneInfo) -> JsonV {
    JsonV::Object(seq![
        ("id"@, juint(p.id)),
        ("surface_count"@, juint(p.surface_count as u64)),
        ("current_surface_id"@, jopt_uint(p.current_surface_id)),
    ])
}

pub open spec fn surf_info_json(s: SurfaceInfoV) -> JsonV {
    JsonV::Object(seq![
        ("id"@, juint(s.id)),
        ("pane_id"@, juint(s.pane_id)),
        ("title"@, jstr(s.title)),
        ("text"@, jstr(s.text)),
        ("panel_type"@, jstr(s.panel_type)),
        ("developer_tools_visible"@, jbool(s.developer_tools_visible)),
        ("pinned"@, jbool(s.pinned)),
        ("unread"@, jbool(s.unread)),
        ("flash_count"@, juint(s.flash_count)),
        ("refresh_count"@, juint(s.refresh_count)),
    ])
}

pub open spec fn jhandle(id: u64) -> JsonV {
    jstr(handle_of(id))
}

pub open spec fn jopt_handle(o: Option<u64>) -> JsonV {
    match o {
        Some(id) => jhandle(id),
        None => JsonV::Null,
    }
}

pub open spec fn jref(kind: Seq<char>, id: u64) -> JsonV {
    jstr(ref_of(kind, id))
}

/// The answer naming a workspace.
pub open spec fn ws_reply(i: WorkspaceInfoV) -> JsonV {
    JsonV::Object(seq![
        ("workspace_id"@, jhandle(i.id)),
        ("workspace_ref"@, jref("workspace"@, i.id)),
        ("workspace"@, ws_info_json(i)),
    ])
}

/// The answer naming a window.
pub open spec fn win_reply(i: WindowInfoV) -> JsonV {
    JsonV::Object(seq![
        ("window_id"@, jhandle(i.id)),
        ("window_ref"@, jref("window"@, i.id)),
        ("window"@, win_info_json(i)),
    ])
}

/// The answer naming a pane.
pub open spec fn pane_reply(p: PaneInfo) -> JsonV {
    JsonV::Object(seq![
        ("pane_id"@, jhandle(p.id)),
        ("pane_ref"@, jref("pane"@, p.id)),
        ("pane"@, pane_info_json(p)),
    ])
}

/// The answer naming a surface and its pane.
pub open spec fn surf_reply(s: SurfaceInfoV) -> JsonV {
    JsonV::Object(seq![
        ("surface_id"@, jhandle(s.id)),
        ("surface_ref"@, jref("surface"@, s.id)),
        ("pane_id"@, jhandle(s.pane_id)),
        ("pane_ref"@, jref("pane"@, s.pane_id)),
        ("surface"@, surf_info_json(s)),
    ])
}

/// A notification as listed to clients.
pub open spec fn notification_json(n: NotificationV) -> JsonV {
    JsonV::Object(seq![
        ("id"@, jhandle(n.id)),
        ("message"@, jstr(n.message)),
        ("title"@, jstr(n.title)),
        ("subtitle"@, jstr(n.subtitle)),
        ("body"@, jstr(n.body)),
        ("surface_id"@, jopt_handle(n.surface_id)),
        ("workspace_id"@, jopt_handle(n.workspace_id)),
        ("is_read"@, jbool(!n.unread)),
        ("unread"@, jbool(n.unread)),
    ])
}

/// A row of `workspace.list`.
pub open spec fn workspace_row(index: nat, selected_id: u64, w: WorkspaceInfoV, cwd: Option<Seq<char>>) -> JsonV {
    JsonV::Object(seq![
        ("index"@, juint(index as u64)),
        ("id"@, jhandle(w.id)),
        ("ref"@, jref("workspace"@, w.id)),
        ("workspace_id"@, jhandle(w.id)),
        ("workspace_ref"@, jref("workspace"@, w.id)),
        ("title"@, jstr(w.name)),
        ("name"@, jstr(w.name)),
        ("selected"@, jbool(w.id == selected_id)),
        ("focused"@, jbool(w.id == selected_id)),
        ("window_count"@, juint(w.window_count as u64)),
        ("cwd"@, jstr(match cwd { Some(c) => c, None => Seq::empty() })),
    ])
}

/// A row of `pane.list`.
pub open spec fn pane_row(index: nat, focused: Option<u64>, p: PaneInfo) -> JsonV {
    JsonV::Object(seq![
        ("index"@, juint(index as u64)),
        ("id"@, jhandle(p.id)),
        ("ref"@, jref("pane"@, p.id)),
        ("pane_id"@, jhandle(p.id)),
        ("pane_ref"@, jref("pane"@, p.id)),
        ("surface_count"@, juint(p.surface_count as u64)),
        ("focused"@, jbool(focused == Some(p.id))),
    ])
}

/// A row of `surface.list`.
pub open spec fn surface_row(index: nat, focused: Option<u64>, s: SurfaceInfoV) -> JsonV {
    JsonV::Object(seq![
        ("index"@, juint(index as u64)),
        ("id"@, jhandle(s.id)),
        ("ref"@, jref("surface"@, s.id)),
        ("surface_id"@, jhandle(s.id)),
        ("surface_ref"@, jref("surface"@, s.id)),
        ("pane_id"@, jhandle(s.pane_id)),
        ("pane_ref"@, jref("pane"@, s.pane_id)),
        ("title"@, jstr(s.title)),
        ("type"@, jstr(s.panel_type)),
        ("developer_tools_visible"@, jbool(s.developer_tools_visible)),
        ("focused"@, jbool(focused == Some(s.id))),
        ("selected"@, jbool(focused == Some(s.id))),
        ("pinned"@, jbool(s.pinned)),
        ("unread"@, jbool(s.unread)),
        ("flash_count"@, juint(s.flash_count)),
        ("refresh_count"@, juint(s.refresh_count)),
    ])
}

/// A row of `window.list`; windows are counted from one.
pub open spec fn window_row(index: nat, focused: Option<u64>, w: WindowInfoV) -> JsonV {
    JsonV::Object(seq![
        ("index"@, juint((index + 1) as u64)),
        ("id"@, jhandle(w.id)),
        ("ref"@, jref("window"@, w.id)),
        ("window_id"@, jhandle(w.id)),
        ("window_ref"@, jref("window"@, w.id)),
        ("title"@, jstr(w.title)),
        ("focused"@, jbool(focused == Some(w.id))),
        ("pane_count"@, juint(w.pane_count as u64)),
    ])
}

pub fn handle_json(id: u64) -> (r: Json)
    ensures
        json_view(r) == jhandle(id),
{
    string(encode_handle_id(id))
}

pub fn opt_handle_json(o: Option<u64>) -> (r: Json)
    ensures
        json_view(r) == jopt_handle(o),
{
    match o {
        Some(id) => handle_json(id),
        None => Json::Null,
    }
}

pub fn workspace_info_json(i: &WorkspaceInfo) -> (r: Json)
    ensures
        json_view(r) == ws_info_json(i@),
{
    let mut m = new_members();
    put(&mut m, "id", uint(i.id));
    put(&mut m, "name", string(i.name.clone()));
    put(&mut m, "host_window_id", uint(i.host_window_id));
    put(&mut m, "window_count", uint(i.window_count as u64));
    put(&mut m, "current_window_id", opt_uint(i.current_window_id));
    proof { assert(members_view(m@) =~= (ws_info_json(i@))->Object_0); }
    object(m)
}

pub fn window_info_json(i: &WindowInfo) -> (r: Json)
    ensures
        json_view(r) == win_info_json(i@),
{
    let mut m = new_members();
    put(&mut m, "id", uint(i.id));
    put(&mut m, "title", string(i.title.clone()));
    put(&mut m, "pane_count", uint(i.pane_count as u64));
    put(&mut m, "current_pane_id", opt_uint(i.current_pane_id));
    proof { assert(members_view(m@) =~= (win_info_json(i@))->Object_0); }
    object(m)
}

pub fn pane_info_as_json(p: &PaneInfo) -> (r: Json)
    ensures
        json_view(r) == pane_info_json(*p),
{
    let mut m = new_members();
    put(&mut m, "id", uint(p.id));
    put(&mut m, "surface_count", uint(p.surface_count as u64));
    put(&mut m, "current_surface_id", opt_uint(p.current_surface_id));
    proof { assert(members_view(m@) =~= (pane_info_json(*p))->Object_0); }
    object(m)
}

pub fn surface_info_json(s: &SurfaceInfo) -> (r: Json)
    ensures
        json_view(r) == surf_info_json(s@),
{
    let mut m = new_members();
    put(&mut m, "id", uint(s.id));
    put(&mut m, "pane_id", uint(s.pane_id));
    put(&mut m, "title", string(s.title.clone()));
    put(&mut m, "text", string(s.text.clone()));
    put(&mut m, "panel_type", string(s.panel_type.clone()));
    put(&mut m, "developer_tools_visible", boolean(s.developer_tools_visible));
    put(&mut m, "pinned", boolean(s.pinned));
    put(&mut m, "unread", boolean(s.unread));
    put(&mut m, "flash_count", uint(s.flash_count));
    put(&mut m, "refresh_count", uint(s.refresh_count));
    proof { assert(members_view(m@) =~= (surf_info_json(s@))->Object_0); }
    object(m)
}

pub fn workspace_reply(i: &WorkspaceInfo) -> (r: Json)
    ensures
        json_view(r) == ws_reply(i@),
{
    let mut m = new_members();
    put(&mut m, "workspace_id", handle_json(i.id));
    put(&mut m, "workspace_ref", string(workspace_ref(i.id)));
    put(&mut m, "workspace", workspace_info_json(i));
    proof { assert(members_view(m@) =~= (ws_reply(i@))->Object_0); }
    object(m)
}

pub fn window_reply(i: &WindowInfo) -> (r: Json)
    ensures
        json_view(r) == win_reply(i@),
{
    let mut m = new_members();
    put(&mut m, "window_id", handle_json(i.id));
    put(&mut m, "window_ref", string(window_ref(i.id)));
    put(&mut m, "window", window_info_json(i));
    proof { assert(members_view(m@) =~= (win_reply(i@))->Object_0); }
    object(m)
}

pub fn pane_reply_json(p: &PaneInfo) -> (r: Json)
    ensures
        json_view(r) == pane_reply(*p),
{
    let mut m = new_members();
    put(&mut m, "pane_id", handle_json(p.id));
    put(&mut m, "pane_ref", string(pane_ref(p.id)));
    put(&mut m, "pane", pane_info_as_json(p));
    proof { assert(members_view(m@) =~= (pane_reply(*p))->Object_0); }
    object(m)
}

pub fn surface_reply(s: &SurfaceInfo) -> (r: Json)
    ensures
        json_view(r) == surf_reply(s@),
{
    let mut m = new_members();
    put(&mut m, "surface_id", handle_json(s.id));
    put(&mut m, "surface_ref", string(surface_ref(s.id)));
    put(&mut m, "pane_id", handle_json(s.pane_id));
    put(&mut m, "pane_ref", string(pane_ref(s.pane_id)));
    put(&mut m, "surface", surface_info_json(s));
    proof { assert(members_view(m@) =~= (surf_reply(s@))->Object_0); }
    object(m)
}

pub fn notification_as_json(n: &NotificationInfo) -> (r: Json)
    ensures
        json_view(r) == notification_json(n@),
{
    let mut m = new_members();
    put(&mut m, "id", handle_json(n.id));
    put(&mut m, "message", string(n.message.clone()));
    put(&mut m, "title", string(n.title.clone()));
    put(&mut m, "subtitle", string(n.subtitle.clone()));
    put(&mut m, "body", string(n.body.clone()));
    put(&mut m, "surface_id", opt_handle_json(n.surface_id));
    put(&mut m, "workspace_id", opt_handle_json(n.workspace_id));
    put(&mut m, "is_read", boolean(!n.unread));
    put(&mut m, "unread", boolean(n.unread));
    proof { assert(members_view(m@) =~= (notification_json(n@))->Object_0); }
    object(m)
}

pub fn workspace_row_json(index: usize, selected_id: u64, w: &WorkspaceInfo, cwd: Option<&str>) -> (r: Json)
    ensures
        json_view(r) == workspace_row(index as nat, selected_id, w@, crate::control::str_opt(cwd)),
{
    let mut m = new_members();
    put(&mut m, "index", uint(index as u64));
    put(&mut m, "id", handle_json(w.id));
    put(&mut m, "ref", string(workspace_ref(w.id)));
    put(&mut m, "workspace_id", handle_json(w.id));
    put(&mut m, "workspace_ref", string(workspace_ref(w.id)));
    put(&mut m, "title", string(w.name.clone()));
    put(&mut m, "name", string(w.name.clone()));
    put(&mut m, "selected", boolean(w.id == selected_id));
    put(&mut m, "focused", boolean(w.id == selected_id));
    put(&mut m, "window_count", uint(w.window_count as u64));
    let c = match cwd {
        Some(c) => String::from_str(c),
        None => String::new(),
    };
    put(&mut m, "cwd", string(c));
    proof { assert(members_view(m@) =~= (workspace_row(index as nat, selected_id, w@, crate::control::str_opt(cwd)))->Object_0); }
    object(m)
}

fn same_id(o: Option<u64>, id: u64) -> (r: bool)
    ensures
        r == (o == Some(id)),
{
    match o {
        Some(x) => x == id,
        None => false,
    }
}

pub fn pane_row_json(index: usize, focused: Option<u64>, p: &PaneInfo) -> (r: Json)
    ensures
        json_view(r) == pane_row(index as nat, focused, *p),
{
    let mut m = new_members();
    put(&mut m, "index", uint(index as u64));
    put(&mut m, "id", handle_json(p.id));
    put(&mut m, "ref", string(pane_ref(p.id)));
    put(&mut m, "pane_id", handle_json(p.id));
    put(&mut m, "pane_ref", string(pane_ref(p.id)));
    put(&mut m, "surface_count", uint(p.surface_count as u64));
    put(&mut m, "focused", boolean(same_id(focused, p.id)));
    proof { assert(members_view(m@) =~= (pane_row(index as nat, focused, *p))->Object_0); }
    object(m)
}

pub fn surface_row_json(index: usize, focused: Option<u64>, s: &SurfaceInfo) -> (r: Json)
    ensures
        json_view(r) == surface_row(index as nat, focused, s@),
{
    let mut m = new_members();
    put(&mut m, "index", uint(index as u64));
    put(&mut m, "id", handle_json(s.id));
    put(&mut m, "ref", string(surface_ref(s.id)));
    put(&mut m, "surface_id", handle_json(s.id));
    put(&mut m, "surface_ref", string(surface_ref(s.id)));
    put(&mut m, "pane_id", handle_json(s.pane_id));
    put(&mut m, "pane_ref", string(pane_ref(s.pane_id)));
    put(&mut m, "title", string(s.title.clone()));
    put(&mut m, "type", string(s.panel_type.clone()));
    put(&mut m, "developer_tools_visible", boolean(s.developer_tools_visible));
    put(&mut m, "focused", boolean(same_id(focused, s.id)));
    put(&mut m, "selected", boolean(same_id(focused, s.id)));
    put(&mut m, "pinned", boolean(s.pinned));
    put(&mut m, "unread", boolean(s.unread));
    put(&mut m, "flash_count", uint(s.flash_count));
    put(&mut m, "refresh_count", uint(s.refresh_count));
    proof { assert(members_view(m@) =~= (surface_row(index as nat, focused, s@))->Object_0); }
    object(m)
}

pub fn window_row_json(index: usize, focused: Option<u64>, w: &WindowInfo) -> (r: Json)
    requires
        index < usize::MAX,
    ensures
        json_view(r) == window_row(index as nat, focused, w@),
{
    let mut m = new_members();
    put(&mut m, "index", uint((index + 1) as u64));
    put(&mut m, "id", handle_json(w.id));
    put(&mut m, "ref", string(window_ref(w.id)));
    put(&mut m, "window_id", handle_json(w.id));
    put(&mut m, "window_ref", string(window_ref(w.id)));
    put(&mut m, "title", string(w.title.clone()));
    put(&mut m, "focused", boolean(same_id(focused, w.id)));
    put(&mut m, "pane_count", uint(w.pane_count as u64));
    proof { assert(members_view(m@) =~= (window_row(index as nat, focused, w@))->Object_0); }
    object(m)
}

} // verus!
