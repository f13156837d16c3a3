//! Interpretation of the three HTTP responses.
//!
//! Every operation answers the same way: a non-success status code is a
//! failure whatever the body says; on success the body must have the expected
//! JSON shape, with extra fields ignored and absent optional fields mapped to
//! `None`.

use vstd::prelude::*;
use crate::json::JsonValue;
use crate::json::json_of;
use crate::json::lookup;
use crate::json::obj_get;
use crate::json::parse_json_text;
use crate::types::AppAccessToken;
use crate::types::AppAccessTokenView;
use crate::types::Error;
use crate::types::ValidatedToken;
use crate::types::ValidatedTokenView;
use crate::types::string_views;

verus! {

/// Whether a status code counts as HTTP success.
pub open spec fn status_ok(status: u16) -> bool {
    200 <= status < 300
}

/// Whether every element of the sequence is a JSON string.
pub open spec fn all_str(vs: Seq<JsonValue>) -> bool {
    forall|i: int| 0 <= i < vs.len() ==> vs[i] is Str
}

/// The character sequences of a sequence of JSON strings.
pub open spec fn str_seq(vs: Seq<JsonValue>) -> Seq<Seq<char>> {
    vs.map_values(|j: JsonValue| j->Str_0@)
}

/// How an optional list-of-strings field reads: an absent field or a JSON
/// null is no list, an array of strings is the list, and anything else is a
/// shape error (the outer `None`).
pub open spec fn parse_scope_field(f: Option<JsonValue>) -> Option<Option<Seq<Seq<char>>>> {
    match f {
        None => Some(None),
        Some(JsonValue::Null) => Some(None),
        Some(JsonValue::Arr(items)) => if all_str(items@) {
            Some(Some(str_seq(items@)))
        } else {
            None
        },
        Some(_) => None,
    }
}

/// How an optional string field reads: an absent field or a JSON null is no
/// value, a JSON string is the value, and anything else is a shape error
/// (the outer `None`).
pub open spec fn parse_opt_str_field(f: Option<JsonValue>) -> Option<Option<Seq<char>>> {
    match f {
        None => Some(None),
        Some(JsonValue::Null) => Some(None),
        Some(JsonValue::Str(s)) => Some(Some(s@)),
        Some(_) => None,
    }
}

/// The app access token a JSON value describes, or `None` when the value is
/// not an object with a string `access_token`, an unsigned `expires_in` that
/// fits a usize, a string `token_type`, and a well-shaped optional `scope`.
pub open spec fn parse_app_token(v: JsonValue) -> Option<AppAccessTokenView> {
    match v {
        JsonValue::Obj(fields) => match (
            lookup(fields@, "access_token"@),
            lookup(fields@, "expires_in"@),
            lookup(fields@, "token_type"@),
            parse_scope_field(lookup(fields@, "scope"@)),
        ) {
            (
                Some(JsonValue::Str(at)),
                Some(JsonValue::UInt(e)),
                Some(JsonValue::Str(tt)),
                Some(sc),
            ) => if e <= usize::MAX {
                Some(
                    AppAccessTokenView {
                        access_token: at@,
                        expires_in: e as usize,
                        scope: sc,
                        token_type: tt@,
                    },
                )
            } else {
                None
            },
            _ => None,
        },
        _ => None,
    }
}

/// The introspection record a JSON value describes, or `None` when the value
/// is not an object with a string `client_id`, well-shaped optional `login`
/// and `user_id`, and a `scopes` array of strings.
pub open spec fn parse_validated_token(v: JsonValue) -> Option<ValidatedTokenView> {
    match v {
        JsonValue::Obj(fields) => match (
            lookup(fields@, "client_id"@),
            parse_opt_str_field(lookup(fields@, "login"@)),
            parse_opt_str_field(lookup(fields@, "user_id"@)),
            lookup(fields@, "scopes"@),
        ) {
            (Some(JsonValue::Str(cid)), Some(login), Some(user_id), Some(JsonValue::Arr(items))) => if all_str(
                items@,
            ) {
                Some(
                    ValidatedTokenView {
                        client_id: cid@,
                        login,
                        user_id,
                        scopes: str_seq(items@),
                    },
                )
            } else {
                None
            },
            _ => None,
        },
        _ => None,
    }
}

/// Copies a JSON array of strings out as owned strings; answers `None` as
/// soon as one element is not a string.
pub fn collect_strings(items: &Vec<JsonValue>) -> (r: Option<Vec<String>>)
    ensures
        match r {
            Some(ss) => all_str(items@) && string_views(ss@) == str_seq(items@),
            None => !all_str(items@),
        },
{
    let mut out: Vec<String> = Vec::new();
    let mut i: usize = 0;
    while i < items.len()
        invariant
            i <= items.len(),
            out@.len() == i,
            forall|k: int| 0 <= k < i ==> items@[k] is Str,
            forall|k: int| 0 <= k < i ==> out@[k]@ == items@[k]->Str_0@,
        decreases items.len() - i,
    {
        match &items[i] {
            JsonValue::Str(s) => out.push(s.clone()),
            _ => {
                proof {
                    assert(!(items@[i as int] is Str));
                }
                return None;
            },
        }
        i = i + 1;
    }
    proof {
        assert(string_views(out@) =~= str_seq(items@));
    }
    Some(out)
}

/// Decodes an issuance response body's JSON value into the token record.
pub fn decode_app_access_token(v: &JsonValue) -> (r: Result<AppAccessToken, Error>)
    ensures
        match r {
            Ok(t) => parse_app_token(*v) == Some(t@),
            Err(e) => e == Error::Decode && parse_app_token(*v) is None,
        },
{
    let fields = match v {
        JsonValue::Obj(fields) => fields,
        _ => { return Err(Error::Decode) },
    };
    let key = "access_token".to_owned();
    let access_token = match obj_get(fields, &key) {
        Some(JsonValue::Str(s)) => s.clone(),
        _ => { return Err(Error::Decode) },
    };
    let key = "expires_in".to_owned();
    let expires_in: usize = match obj_get(fields, &key) {
        Some(JsonValue::UInt(u)) => {
            if *u <= usize::MAX as u64 {
                *u as usize
            } else {
                return Err(Error::Decode);
            }
        },
        _ => { return Err(Error::Decode) },
    };
    let key = "token_type".to_owned();
    let token_type = match obj_get(fields, &key) {
        Some(JsonValue::Str(s)) => s.clone(),
        _ => { return Err(Error::Decode) },
    };
    let key = "scope".to_owned();
    let scope: Option<Vec<String>> = match obj_get(fields, &key) {
        None => None,
        Some(JsonValue::Null) => None,
        Some(JsonValue::Arr(items)) => match collect_strings(items) {
            Some(ss) => Some(ss),
            None => { return Err(Error::Decode) },
        },
        Some(_) => { return Err(Error::Decode) },
    };
    Ok(AppAccessToken { access_token, expires_in, scope, token_type })
}

/// Decodes a validation response body's JSON value into the introspection
/// record.
pub fn decode_validated_token(v: &JsonValue) -> (r: Result<ValidatedToken, Error>)
    ensures
        match r {
            Ok(t) => parse_validated_token(*v) == Some(t@),
            Err(e) => e == Error::Decode && parse_validated_token(*v) is None,
        },
{
    let fields = match v {
        JsonValue::Obj(fields) => fields,
        _ => { return Err(Error::Decode) },
    };
    let key = "client_id".to_owned();
    let client_id = match obj_get(fields, &key) {
        Some(JsonValue::Str(s)) => s.clone(),
        _ => { return Err(Error::Decode) },
    };
    let key = "login".to_owned();
    let login = match obj_get(fields, &key) {
        None => None,
        Some(JsonValue::Null) => None,
        Some(JsonValue::Str(s)) => Some(s.clone()),
        Some(_) => { return Err(Error::Decode) },
    };
    let key = "user_id".to_owned();
    let user_id = match obj_get(fields, &key) {
        None => None,
        Some(JsonValue::Null) => None,
        Some(JsonValue::Str(s)) => Some(s.clone()),
        Some(_) => { return Err(Error::Decode) },
    };
    let key = "scopes".to_owned();
    let scopes = match obj_get(fields, &key) {
        Some(JsonValue::Arr(items)) => match collect_strings(items) {
            Some(ss) => ss,
            None => { return Err(Error::Decode) },
        },
        _ => { return Err(Error::Decode) },
    };
    Ok(ValidatedToken { client_id, login, user_id, scopes })
}

/// Turns an issuance response (status code and body text) into the issued
/// token: a failure on any non-success status, a decode failure when the
/// body is not well-formed JSON of the expected shape.
pub fn issuance_from_response(status: u16, body: &str) -> (r: Result<AppAccessToken, Error>)
    ensures
        !status_ok(status) ==> r == Err::<AppAccessToken, Error>(Error::HttpStatus(status)),
        status_ok(status) ==> match json_of(body@) {
            None => r == Err::<AppAccessToken, Error>(Error::Decode),
            Some(v) => match r {
                Ok(t) => parse_app_token(v) == Some(t@),
                Err(e) => e == Error::Decode && parse_app_token(v) is None,
            },
        },
{
    if status < 200 || status >= 300 {
        return Err(Error::HttpStatus(status));
    }
    match parse_json_text(body) {
        None => Err(Error::Decode),
        Some(v) => decode_app_access_token(&v),
    }
}

/// Turns a validation response (status code and body text) into the
/// introspection record, failing exactly as issuance does.
pub fn validation_from_response(status: u16, body: &str) -> (r: Result<ValidatedToken, Error>)
    ensures
        !status_ok(status) ==> r == Err::<ValidatedToken, Error>(Error::HttpStatus(status)),
        status_ok(status) ==> match json_of(body@) {
            None => r == Err::<ValidatedToken, Error>(Error::Decode),
            Some(v) => match r {
                Ok(t) => parse_validated_token(v) == Some(t@),
                Err(e) => e == Error::Decode && parse_validated_token(v) is None,
            },
        },
{
    if status < 200 || status >= 300 {
        return Err(Error::HttpStatus(status));
    }
    match parse_json_text(body) {
        None => Err(Error::Decode),
        Some(v) => decode_validated_token(&v),
    }
}

/// Turns a revocation response into the operation's outcome: success on any
/// success status, with no payload inspected, and the status failure
/// otherwise.
pub fn revocation_from_response(status: u16) -> (r: Result<(), Error>)
    ensures
        r == if status_ok(status) {
            Ok::<(), Error>(())
        } else {
            Err::<(), Error>(Error::HttpStatus(status))
        },
{
    if status < 200 || status >= 300 {
        return Err(Error::HttpStatus(status));
    }
    Ok(())
}

} // verus!
