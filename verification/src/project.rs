//! The payload projector: best-effort decode of a raw event body into
//! the minimal `Payload` shape, or its `Ping` envelope, used only for
//! filter matching.

use vstd::prelude::*;
use crate::json::{json_as_str, json_get, json_is_null, json_of, model_of, parse_json, JsonV};
use crate::rep::{Organization, Payload, PayloadV, Ping, RepoV, Repository, Sender};

verus! {

/// Why an event body yielded no payload: the text is not JSON at all,
/// or it is JSON in neither the direct payload shape nor the `Ping`
/// envelope.
#[derive(Debug, PartialEq, Eq, Structural)]
pub enum DecodeError {
    Syntax,
    Shape,
}

/// The field a JSON object holds under a key; nothing, on a value that
/// is not an object or lacks the key.
pub open spec fn field_of(j: JsonV, key: Seq<char>) -> Option<JsonV> {
    match j {
        JsonV::Obj(m) => if m.dom().contains(key) {
            Some(m[key])
        } else {
            None
        },
        _ => None,
    }
}

/// The text of a JSON string; nothing, on any other value.
pub open spec fn str_of(j: JsonV) -> Option<Seq<char>> {
    match j {
        JsonV::Str(s) => Some(s),
        _ => None,
    }
}

/// The `login` string of an account-shaped object (a sender or an
/// organization); nothing, where the shape is wrong.
pub open spec fn login_of(j: JsonV) -> Option<Seq<char>> {
    match field_of(j, "login"@) {
        Some(l) => str_of(l),
        None => None,
    }
}

/// An optional organization field under `key`: missing or null is
/// absent (`Some(None)`), a well-formed one is its login, and a
/// present but malformed one fails the decode (`None`).
pub open spec fn opt_org_of(j: JsonV, key: Seq<char>) -> Option<Option<Seq<char>>> {
    match field_of(j, key) {
        None => Some(None),
        Some(f) => if f is Null {
            Some(None)
        } else {
            match login_of(f) {
                Some(l) => Some(Some(l)),
                None => None,
            }
        },
    }
}

/// The repository a repository-shaped object decodes to: string `name`
/// and `full_name` are required, the organization is optional.
pub open spec fn repo_of(j: JsonV) -> Option<RepoV> {
    match field_of(j, "name"@) {
        None => None,
        Some(n) => match str_of(n) {
            None => None,
            Some(name) => match field_of(j, "full_name"@) {
                None => None,
                Some(f) => match str_of(f) {
                    None => None,
                    Some(full_name) => match opt_org_of(j, "organization"@) {
                        None => None,
                        Some(organization) => Some(RepoV { name, full_name, organization }),
                    },
                },
            },
        },
    }
}

/// The payload a JSON value decodes to in the direct shape: the
/// sender's login is required; the organization and repository are
/// optional, with missing or null fields absent and present but
/// malformed ones failing the decode.
pub open spec fn payload_of(j: JsonV) -> Option<PayloadV> {
    match field_of(j, "sender"@) {
        None => None,
        Some(s) => match login_of(s) {
            None => None,
            Some(sender_login) => match opt_org_of(j, "organization"@) {
                None => None,
                Some(organization) => match field_of(j, "repository"@) {
                    None => Some(PayloadV { sender_login, organization, repository: None }),
                    Some(rv) => if rv is Null {
                        Some(PayloadV { sender_login, organization, repository: None })
                    } else {
                        match repo_of(rv) {
                            None => None,
                            Some(rep) => Some(
                                PayloadV { sender_login, organization, repository: Some(rep) },
                            ),
                        }
                    },
                },
            },
        },
    }
}

/// The payload a JSON value decodes to through the `Ping` envelope:
/// the direct shape, unwrapped from under a `hook` field.
pub open spec fn ping_of(j: JsonV) -> Option<PayloadV> {
    match field_of(j, "hook"@) {
        Some(h) => payload_of(h),
        None => None,
    }
}

/// What projecting a JSON value yields: the direct shape is tried
/// first, the `Ping` envelope is the fallback.
pub open spec fn projection_of(j: JsonV) -> Option<PayloadV> {
    if payload_of(j) is Some {
        payload_of(j)
    } else {
        ping_of(j)
    }
}

/// Settles the projection of a body from its two decode attempts: the
/// direct shape wins when it decoded, the unwrapped `Ping` envelope is
/// the fallback, and with neither the body is rejected as the wrong
/// shape. Decode failure is non-fatal: the caller drops the event.
pub fn choose_projection(direct: Option<Payload>, ping: Option<Ping>) -> (r: Result<
    Payload,
    DecodeError,
>)
    ensures
        direct matches Some(p) ==> r == Ok::<Payload, DecodeError>(p),
        direct is None ==> (ping matches Some(pg) ==> r == Ok::<Payload, DecodeError>(pg.hook)),
        direct is None && ping is None ==> r == Err::<Payload, DecodeError>(DecodeError::Shape),
{
    match direct {
        Some(p) => Ok(p),
        None => match ping {
            Some(pg) => Ok(pg.hook),
            None => Err(DecodeError::Shape),
        },
    }
}

/// Reads an `Organization` (or any account whose `login` is a string)
/// out of a JSON value.
fn decode_org(v: &serde_json::Value) -> (r: Option<Organization>)
    ensures
        match login_of(model_of(*v)) {
            Some(l) => r matches Some(o) && o.login@ == l,
            None => r is None,
        },
{
    match json_get(v, "login") {
        Some(login_v) => match json_as_str(login_v) {
            Some(login) => Some(Organization { login: login.to_owned() }),
            None => None,
        },
        None => None,
    }
}

/// Reads an optional organization field: a missing or null field is
/// absent, a present but malformed one fails the whole decode
/// (`None`), and a well-formed one is wrapped (`Some(Some(..))`).
fn decode_opt_org(v: &serde_json::Value, key: &str) -> (r: Option<Option<Organization>>)
    ensures
        match opt_org_of(model_of(*v), key@) {
            Some(Some(l)) => r matches Some(oo) && (oo matches Some(o) && o.login@ == l),
            Some(None) => r == Some(Option::<Organization>::None),
            None => r is None,
        },
{
    match json_get(v, key) {
        None => Some(None),
        Some(field) => {
            if json_is_null(field) {
                Some(None)
            } else {
                match decode_org(field) {
                    Some(o) => Some(Some(o)),
                    None => None,
                }
            }
        },
    }
}

/// Reads a `Repository` out of a JSON value: an object whose `name`
/// and `full_name` are strings, with an optional organization.
fn decode_repo(v: &serde_json::Value) -> (r: Option<Repository>)
    ensures
        match repo_of(model_of(*v)) {
            Some(rv) => r matches Some(rep) && rep@ == rv,
            None => r is None,
        },
{
    let name = match json_get(v, "name") {
        Some(nv) => match json_as_str(nv) {
            Some(n) => n.to_owned(),
            None => {
                return None;
            },
        },
        None => {
            return None;
        },
    };
    let full_name = match json_get(v, "full_name") {
        Some(fv) => match json_as_str(fv) {
            Some(f) => f.to_owned(),
            None => {
                return None;
            },
        },
        None => {
            return None;
        },
    };
    match decode_opt_org(v, "organization") {
        Some(organization) => Some(Repository { name, full_name, organization }),
        None => None,
    }
}

/// Reads a `Payload` out of a JSON value in the direct shape.
fn decode_payload(v: &serde_json::Value) -> (r: Option<Payload>)
    ensures
        match payload_of(model_of(*v)) {
            Some(pv) => r matches Some(p) && p@ == pv,
            None => r is None,
        },
{
    let sender = match json_get(v, "sender") {
        Some(sv) => match json_get(sv, "login") {
            Some(lv) => match json_as_str(lv) {
                Some(login) => Sender { login: login.to_owned() },
                None => {
                    return None;
                },
            },
            None => {
                return None;
            },
        },
        None => {
            return None;
        },
    };
    let organization = match decode_opt_org(v, "organization") {
        Some(o) => o,
        None => {
            return None;
        },
    };
    let repository = match json_get(v, "repository") {
        None => None,
        Some(rv) => {
            if json_is_null(rv) {
                None
            } else {
                match decode_repo(rv) {
                    Some(rep) => Some(rep),
                    None => {
                        return None;
                    },
                }
            }
        },
    };
    Some(Payload { sender, organization, repository })
}

/// Reads a `Ping` envelope out of a JSON value: a payload wrapped
/// under a `hook` field.
fn decode_ping(v: &serde_json::Value) -> (r: Option<Ping>)
    ensures
        match ping_of(model_of(*v)) {
            Some(pv) => r matches Some(pg) && pg.hook@ == pv,
            None => r is None,
        },
{
    match json_get(v, "hook") {
        Some(hv) => match decode_payload(hv) {
            Some(p) => Some(Ping { hook: p }),
            None => None,
        },
        None => None,
    }
}

/// Projects a raw event body onto the minimal `Payload` shape: text
/// that is not JSON fails with `Syntax`; JSON is decoded in the direct
/// shape first, then through the `Ping` envelope, and fails with
/// `Shape` when it fits neither. Projection never panics, however
/// malformed the body.
pub fn project(raw: &str) -> (r: Result<Payload, DecodeError>)
    ensures
        r == Err::<Payload, DecodeError>(DecodeError::Syntax) <==> json_of(raw@) is None,
        json_of(raw@) matches Some(j) ==> match projection_of(j) {
            Some(pv) => r matches Ok(p) && p@ == pv,
            None => r == Err::<Payload, DecodeError>(DecodeError::Shape),
        },
{
    match parse_json(raw) {
        None => Err(DecodeError::Syntax),
        Some(v) => {
            let direct = decode_payload(&v);
            let ping = if direct.is_some() {
                None
            } else {
                decode_ping(&v)
            };
            choose_projection(direct, ping)
        },
    }
}

} // verus!
