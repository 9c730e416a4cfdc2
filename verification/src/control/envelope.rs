//! The JSON shapes on the wire: a request line read as a request, and a
//! response written out.
use vstd::prelude::*;
use crate::json::{
    Json, JsonNumber, JsonV, json_view, members_view, lookup, get, object, put, new_members, clone_json,
    jstr, jbool, boolean, string,
};
use super::dispatch::{V2Request, V2Response, V2Error, opt_json_view};

verus! {

/// What a request line holds: an id, a method and its parameters.
pub struct RequestV {
    pub id: Option<JsonV>,
    pub method: Seq<char>,
    pub params: JsonV,
}

/// A member, with `null` counting as absent.
pub open spec fn present(ms: Seq<(Seq<char>, JsonV)>, key: Seq<char>) -> Option<JsonV> {
    match lookup(ms, key) {
        Some(JsonV::Null) => None,
        other => other,
    }
}

/// The parameters of a request: its `params` member, an empty object when
/// there is none.
pub open spec fn params_of(ms: Seq<(Seq<char>, JsonV)>) -> JsonV {
    match present(ms, "params"@) {
        Some(p) => p,
        None => JsonV::Object(Seq::empty()),
    }
}

/// Reads a request: an object with a string `method` (and optionally `id`
/// and `params`) is a request as it stands; one with a string `command`
/// (and optionally `params`) is a command envelope, which carries no id;
/// anything else is refused.
pub open spec fn read_request(j: JsonV) -> Result<RequestV, Seq<char>> {
    match j {
        JsonV::Object(ms) => match lookup(ms, "method"@) {
            Some(JsonV::Str(m)) => Ok(RequestV { id: present(ms, "id"@), method: m, params: params_of(ms) }),
            _ => match lookup(ms, "command"@) {
                Some(JsonV::Str(c)) => Ok(RequestV { id: None, method: c, params: params_of(ms) }),
                _ => Err("invalid request payload: expected a method or a command"@),
            },
        },
        _ => Err("invalid request payload: expected an object"@),
    }
}

pub open spec fn request_view(r: V2Request) -> RequestV {
    RequestV { id: opt_json_view(r.id), method: r.method@, params: json_view(r.params) }
}

fn present_member(ms: &Vec<(String, Json)>, key: &str) -> (r: Option<Json>)
    ensures
        opt_json_view(r) == present(members_view(ms@), key@),
{
    match get(ms, key) {
        Some(Json::Null) => None,
        Some(j) => Some(clone_json(j)),
        None => None,
    }
}

/// Reads a request from the JSON of a line; see `read_request`.
pub fn request_from_json(j: &Json) -> (r: Result<V2Request, String>)
    ensures
        match r {
            Ok(req) => read_request(json_view(*j)) == Ok::<RequestV, Seq<char>>(request_view(req)),
            Err(e) => read_request(json_view(*j)) == Err::<RequestV, Seq<char>>(e@),
        },
{
    match j {
        Json::Object(ms) => {
            proof { assert(json_view(*j)->Object_0 =~= members_view(ms@)); }
            let params = match present_member(ms, "params") { Some(p) => p, None => object(new_members()) };
            match get(ms, "method") {
                Some(Json::Str(m)) => {
                    let id = present_member(ms, "id");
                    Ok(V2Request { id, method: m.clone(), params })
                },
                _ => match get(ms, "command") {
                    Some(Json::Str(c)) => Ok(V2Request { id: None, method: c.clone(), params }),
                    _ => Err(String::from_str("invalid request payload: expected a method or a command")),
                },
            }
        },
        _ => Err(String::from_str("invalid request payload: expected an object")),
    }
}

pub open spec fn opt_or_null(o: Option<JsonV>) -> JsonV {
    match o {
        Some(j) => j,
        None => JsonV::Null,
    }
}

/// A response as written out: the id (or null), `ok`, then the result, or
/// the error with its code, message and any data.
pub open spec fn response_json(id: Option<JsonV>, result: Option<JsonV>, error: Option<(i64, Seq<char>, Option<JsonV>)>) -> JsonV {
    let head = seq![("id"@, opt_or_null(id)), ("ok"@, jbool(error is None))];
    let with_result = match result {
        Some(r) => head.push(("result"@, r)),
        None => head,
    };
    match error {
        Some((code, message, data)) => {
            let base = seq![("code"@, code_json(code)), ("message"@, jstr(message))];
            let e = match data { Some(d) => base.push(("data"@, d)), None => base };
            JsonV::Object(with_result.push(("error"@, JsonV::Object(e))))
        },
        None => JsonV::Object(with_result),
    }
}

/// An error code as a JSON number.
pub open spec fn code_json(code: i64) -> JsonV {
    if code >= 0 { JsonV::Number(JsonNumber::UInt(code as u64)) } else { JsonV::Number(JsonNumber::NegInt(code)) }
}

pub open spec fn error_parts(e: Option<V2Error>) -> Option<(i64, Seq<char>, Option<JsonV>)> {
    match e {
        Some(x) => Some((x.code, x.message@, opt_json_view(x.data))),
        None => None,
    }
}

fn code_number(code: i64) -> (r: Json)
    ensures
        json_view(r) == code_json(code),
{
    if code >= 0 { Json::Number(JsonNumber::UInt(code as u64)) } else { Json::Number(JsonNumber::NegInt(code)) }
}

/// The JSON written for a response; see `response_json`.
pub fn response_to_json(resp: V2Response) -> (r: Json)
    ensures
        json_view(r) == response_json(opt_json_view(resp.id), opt_json_view(resp.result), error_parts(resp.error)),
{
    let V2Response { id, result, error } = resp;
    let ghost rv = opt_json_view(result);
    let ghost ep = error_parts(error);
    let ghost iv = opt_json_view(id);
    let ghost head = seq![("id"@, opt_or_null(iv)), ("ok"@, jbool(ep is None))];
    let ghost with_result = match rv { Some(r) => head.push(("result"@, r)), None => head };
    let mut m = new_members();
    put(&mut m, "id", match id { Some(j) => j, None => Json::Null });
    put(&mut m, "ok", boolean(error.is_none()));
    proof { assert(members_view(m@) =~= head); }
    match result {
        Some(r) => put(&mut m, "result", r),
        None => {},
    }
    proof { assert(members_view(m@) =~= with_result); }
    match error {
        Some(V2Error { code, message, data }) => {
            let ghost dv = opt_json_view(data);
            let ghost base = seq![("code"@, code_json(code)), ("message"@, jstr(message@))];
            let mut e = new_members();
            put(&mut e, "code", code_number(code));
            put(&mut e, "message", string(message));
            proof { assert(members_view(e@) =~= base); }
            match data {
                Some(d) => put(&mut e, "data", d),
                None => {},
            }
            proof { assert(members_view(e@) =~= (match dv { Some(d) => base.push(("data"@, d)), None => base })); }
            let ej = object(e);
            put(&mut m, "error", ej);
            proof { assert(members_view(m@) =~= (response_json(iv, rv, ep))->Object_0); }
        },
        None => {
            proof { assert(members_view(m@) =~= (response_json(iv, rv, ep))->Object_0); }
        },
    }
    object(m)
}

} // verus!
