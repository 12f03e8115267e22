//! The pairing orchestrator's decision logic. One pairing attempt is two
//! strictly ordered HTTP POSTs — start, then confirm — followed by
//! persisting the granted token. The functions here decide each step from
//! the previous step's outcome: they build the requests, read the replies,
//! and classify failures; performing the POSTs is the caller's part, outside
//! the library.

use vstd::prelude::*;
use vstd::string::StrSliceExecFns;
use vstd::string::StringExecFns;

use crate::errors::{PairError, PairField, StoreError};
use crate::json::{empty_fields, get_string_field, obj_insert_string, obj_new, obj_to_string,
    parsed_fields, string_field};
use crate::store::TokenStore;

verus! {

/// The inputs of one pairing attempt: the server's base URL, the short-lived
/// user-entered code, and a human-readable label for this device.
pub struct PairParams {
    pub server_url: String,
    pub pair_code: String,
    pub device_name: String,
}

/// One HTTP POST the caller is asked to perform: the URL, and the JSON body
/// to send (`None` for an empty body).
pub struct PairRequest {
    pub url: String,
    pub body: Option<String>,
}

/// What one POST came back with: the response's body text, or a transport
/// failure. A reply's HTTP status is not inspected, matching the protocol's
/// tolerance: only the body's JSON content decides.
pub enum HttpOutcome {
    Reply(String),
    Failed,
}

/// The base URL with its trailing slashes removed, so that bases given with
/// or without one produce the same endpoint URLs.
pub open spec fn trimmed_base(base: Seq<char>) -> Seq<char>
    decreases base.len(),
{
    if base.len() > 0 && base.last() == '/' {
        trimmed_base(base.drop_last())
    } else {
        base
    }
}

/// The URL of the start call.
pub open spec fn start_url(base: Seq<char>) -> Seq<char> {
    trimmed_base(base) + "/pair/start"@
}

/// The URL of the confirm call.
pub open spec fn confirm_url(base: Seq<char>) -> Seq<char> {
    trimmed_base(base) + "/pair/confirm"@
}

/// The fields of the confirm call's body: the server's pair_id, the
/// user-entered code (under the wire name `code`), and the device's label.
pub open spec fn confirm_fields(
    pair_id: Seq<char>,
    code: Seq<char>,
    device_name: Seq<char>,
) -> Map<Seq<char>, Option<Seq<char>>> {
    empty_fields().insert("pair_id"@, Some(pair_id)).insert("code"@, Some(code)).insert(
        "device_name"@,
        Some(device_name),
    )
}

/// Joins the normalized base URL with a path.
fn join_base(base: &str, path: &str) -> (r: String)
    ensures
        r@ == trimmed_base(base@) + path@,
{
    let len = base.unicode_len();
    let mut end: usize = len;
    proof {
        assert(base@.subrange(0, end as int) =~= base@);
    }
    while end > 0 && base.get_char(end - 1) == '/'
        invariant
            end <= base@.len(),
            trimmed_base(base@) == trimmed_base(base@.subrange(0, end as int)),
        decreases end,
    {
        proof {
            let s = base@.subrange(0, end as int);
            assert(s.last() == base@[end as int - 1]);
            assert(s.drop_last() =~= base@.subrange(0, end as int - 1));
        }
        end = end - 1;
    }
    proof {
        let s = base@.subrange(0, end as int);
        if end > 0 {
            assert(s.last() == base@[end as int - 1]);
        }
        assert(trimmed_base(s) == s);
    }
    let prefix = base.substring_char(0, end);
    let mut r = prefix.to_owned();
    r.append(path);
    r
}

/// The first step of an attempt: the start call, a POST with an empty body
/// to `{server_url}/pair/start`.
pub fn start_request(params: &PairParams) -> (r: PairRequest)
    ensures
        r.url@ == start_url(params.server_url@),
        r.body is None,
{
    PairRequest { url: join_base(params.server_url.as_str(), "/pair/start"), body: None }
}

/// Builds the confirm call's JSON body for a granted pair_id.
pub fn confirm_body(pair_id: &str, code: &str, device_name: &str) -> (r: String)
    ensures
        parsed_fields(r@) == Some(confirm_fields(pair_id@, code@, device_name@)),
{
    let mut map = obj_new();
    obj_insert_string(&mut map, "pair_id", pair_id);
    obj_insert_string(&mut map, "code", code);
    obj_insert_string(&mut map, "device_name", device_name);
    obj_to_string(&map)
}

/// The second step: reads the start call's outcome and decides. A transport
/// failure is a `Network` error; a reply whose body lacks a string `pair_id`
/// is an `invalid pair_id` protocol error, and no confirm call is issued; a
/// reply granting a pair_id yields the confirm call to perform, whose body
/// carries exactly the pair_id, the code, and the device name.
pub fn confirm_from_start(params: &PairParams, outcome: &HttpOutcome) -> (r: Result<
    PairRequest,
    PairError,
>)
    ensures
        match *outcome {
            HttpOutcome::Failed => r matches Err(e) && e == PairError::Network,
            HttpOutcome::Reply(body) => match string_field(body@, "pair_id"@) {
                Some(id) => {
                    &&& r matches Ok(req)
                    &&& req.url@ == confirm_url(params.server_url@)
                    &&& req.body matches Some(b)
                    &&& parsed_fields(b@) == Some(
                        confirm_fields(id, params.pair_code@, params.device_name@),
                    )
                },
                None => r matches Err(e) && e == PairError::Protocol(PairField::PairId),
            },
        },
{
    match outcome {
        HttpOutcome::Failed => Err(PairError::Network),
        HttpOutcome::Reply(body) => match get_string_field(body.as_str(), "pair_id") {
            Some(id) => {
                let url = join_base(params.server_url.as_str(), "/pair/confirm");
                let b = confirm_body(
                    id.as_str(),
                    params.pair_code.as_str(),
                    params.device_name.as_str(),
                );
                Ok(PairRequest { url, body: Some(b) })
            },
            None => Err(PairError::Protocol(PairField::PairId)),
        },
    }
}

/// The last decision: reads the confirm call's outcome. A transport failure
/// is a `Network` error; a reply whose body lacks a string `device_token` is
/// an `invalid device_token` protocol error, and no token is to be
/// persisted; a reply granting a token yields it.
pub fn token_from_confirm(outcome: &HttpOutcome) -> (r: Result<String, PairError>)
    ensures
        match *outcome {
            HttpOutcome::Failed => r matches Err(e) && e == PairError::Network,
            HttpOutcome::Reply(body) => match string_field(body@, "device_token"@) {
                Some(t) => r matches Ok(tok) && tok@ == t,
                None => r matches Err(e) && e == PairError::Protocol(PairField::DeviceToken),
            },
        },
{
    match outcome {
        HttpOutcome::Failed => Err(PairError::Network),
        HttpOutcome::Reply(body) => match get_string_field(body.as_str(), "device_token") {
            Some(t) => Ok(t),
            None => Err(PairError::Protocol(PairField::DeviceToken)),
        },
    }
}

/// Completes an attempt from the confirm call's outcome and the store as it
/// was opened: reads the token and persists it. The persist step starts only
/// once a token was granted, so a reply failure takes precedence over a store
/// failure; a storage error — the open's failure, or the save's, which is
/// never `NotFound` — is reported only for a granted token. On full success
/// the returned token is exactly the one the confirm reply granted (the
/// caller can use it without a subsequent load).
pub fn complete_pairing(store: &Result<TokenStore, StoreError>, outcome: &HttpOutcome) -> (r:
    Result<String, PairError>)
    ensures
        match *outcome {
            HttpOutcome::Failed => r matches Err(e) && e == PairError::Network,
            HttpOutcome::Reply(body) => match string_field(body@, "device_token"@) {
                Some(t) => match *store {
                    Ok(_) => (r matches Ok(tok) ==> tok@ == t) && (r matches Err(e) ==> {
                        &&& e matches PairError::Storage(se)
                        &&& se != StoreError::NotFound
                    }),
                    Err(se) => r matches Err(e) && e == PairError::Storage(se),
                },
                None => r matches Err(e) && e == PairError::Protocol(PairField::DeviceToken),
            },
        },
{
    let token = match token_from_confirm(outcome) {
        Ok(t) => t,
        Err(e) => {
            return Err(e);
        },
    };
    let opened = match store {
        Ok(s) => s,
        Err(se) => {
            return Err(PairError::Storage(*se));
        },
    };
    match opened.save_token(token.as_str()) {
        Ok(()) => Ok(token),
        Err(se) => Err(PairError::Storage(se)),
    }
}

} // verus!
