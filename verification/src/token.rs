//! Agent token checking: the HS256-signed payload of a JWT (a trusted call
//! into `jsonwebtoken`), the agent claims that a payload holds, and the
//! expiry check with the default leeway of 60 seconds.

use vstd::prelude::*;
use vstd::string::*;
use vstd::utf8::encode_utf8;
use crate::auth::{texts, AgentClaims};
use crate::clock::{now_utc, UtcTime};
use crate::record_id::{entry_index, entry_str, entry_string, find_entry, JsonValue};
use crate::response::AppError;
use crate::site::opt_text;
use crate::text::{owned, parse_usize, parse_usize_spec};

verus! {

broadcast use vstd::string::group_string_axioms;

/// The payload of an HS256 JWT whose signature `secret` verifies, as
/// `jsonwebtoken::decode` yields it when expiry is not checked; `None` for
/// a token that is malformed, signed otherwise or with another key, or whose
/// registered claims fail `jsonwebtoken`'s default checks other than
/// expiry (`exp` present, no audience).
pub uninterp spec fn spec_hs256_payload(token: Seq<char>, secret: Seq<u8>) -> Option<JsonValue>;

/// The library's form of a `serde_json::Value`: the same tree, a number as
/// the text that its `Display` writes, an object as its entries in the
/// map's order. Only converts the payload that `hs256_payload` decodes.
#[verifier::external_body]
fn json_value_of(v: serde_json::Value) -> JsonValue {
    match v {
        serde_json::Value::Null => JsonValue::Null,
        serde_json::Value::Bool(b) => JsonValue::Bool(b),
        serde_json::Value::Number(n) => JsonValue::Number(n.to_string()),
        serde_json::Value::String(s) => JsonValue::String(s),
        serde_json::Value::Array(a) => JsonValue::Array(a.into_iter().map(json_value_of).collect()),
        serde_json::Value::Object(m) => {
            JsonValue::Object(m.into_iter().map(|(k, v)| (k, json_value_of(v))).collect())
        },
    }
}

/// `jsonwebtoken::decode::<serde_json::Value>` with the key
/// `DecodingKey::from_secret(secret)` and `Validation::new(Algorithm::HS256)`
/// whose expiry check is off: the payload, named `spec_hs256_payload`; with
/// expiry unchecked, nothing in the decoding reads the clock, so the payload
/// depends on the token and the secret alone.
#[verifier::external_body]
fn hs256_payload(token: &str, secret: &str) -> (r: Option<JsonValue>)
    ensures
        r == spec_hs256_payload(token@, encode_utf8(secret@)),
{
    let mut validation = jsonwebtoken::Validation::new(jsonwebtoken::Algorithm::HS256);
    validation.validate_exp = false;
    let key = jsonwebtoken::DecodingKey::from_secret(secret.as_bytes());
    match jsonwebtoken::decode::<serde_json::Value>(token, &key, &validation) {
        Ok(data) => Some(json_value_of(data.claims)),
        Err(_) => None,
    }
}

/// The optional text of entry `k`: none when the entry is absent or null,
/// its text when it is a string; `None` when it holds anything else.
pub open spec fn opt_string_entry(m: Seq<(String, JsonValue)>, k: Seq<char>) -> Option<
    Option<Seq<char>>,
> {
    match entry_index(m, k) {
        None => Some(None),
        Some(i) => match m[i].1 {
            JsonValue::Null => Some(None),
            JsonValue::String(s) => Some(Some(s@)),
            _ => None,
        },
    }
}

/// Every element is a string.
pub open spec fn all_strings(a: Seq<JsonValue>) -> bool {
    forall|k: int| 0 <= k < a.len() ==> (#[trigger] a[k]) is String
}

/// The texts of a list of strings.
pub open spec fn string_items(a: Seq<JsonValue>) -> Seq<Seq<char>> {
    a.map_values(
        |v: JsonValue|
            match v {
                JsonValue::String(s) => s@,
                _ => Seq::empty(),
            },
    )
}

/// The texts of entry `k`: none when the entry is absent, the texts of an
/// array of strings; `None` when it holds anything else.
pub open spec fn string_list_entry(m: Seq<(String, JsonValue)>, k: Seq<char>) -> Option<
    Seq<Seq<char>>,
> {
    match entry_index(m, k) {
        None => Some(Seq::empty()),
        Some(i) => match m[i].1 {
            JsonValue::Array(a) => if all_strings(a@) {
                Some(string_items(a@))
            } else {
                None
            },
            _ => None,
        },
    }
}

/// The `usize` of entry `k`: a number written as decimal digits that fits.
pub open spec fn usize_entry(m: Seq<(String, JsonValue)>, k: Seq<char>) -> Option<usize> {
    match entry_index(m, k) {
        Some(i) => match m[i].1 {
            JsonValue::Number(t) => parse_usize_spec(t@),
            _ => None,
        },
        None => None,
    }
}

/// The payload holds agent claims: an object with a string `sub`, integer
/// `exp` and `iat`, and, when present, a string or null `role` and
/// `session_id` and an array of strings `permissions`.
pub open spec fn has_agent_claims(p: JsonValue) -> bool {
    match p {
        JsonValue::Object(m) => {
            &&& entry_str(m@, "sub"@) is Some
            &&& opt_string_entry(m@, "role"@) is Some
            &&& string_list_entry(m@, "permissions"@) is Some
            &&& opt_string_entry(m@, "session_id"@) is Some
            &&& usize_entry(m@, "exp"@) is Some
            &&& usize_entry(m@, "iat"@) is Some
        },
        _ => false,
    }
}

/// `c` is the agent claims that payload `p` holds, field by field (an
/// absent `permissions` is the empty list).
pub open spec fn is_claims_of(p: JsonValue, c: AgentClaims) -> bool {
    match p {
        JsonValue::Object(m) => {
            &&& entry_str(m@, "sub"@) == Some(c.sub@)
            &&& opt_string_entry(m@, "role"@) == Some(opt_text(c.role))
            &&& string_list_entry(m@, "permissions"@) == Some(texts(c.permissions@))
            &&& opt_string_entry(m@, "session_id"@) == Some(opt_text(c.session_id))
            &&& usize_entry(m@, "exp"@) == Some(c.exp)
            &&& usize_entry(m@, "iat"@) == Some(c.iat)
        },
        _ => false,
    }
}

fn opt_string_of(m: &Vec<(String, JsonValue)>, k: &str) -> (r: Option<Option<String>>)
    ensures
        r is Some <==> opt_string_entry(m@, k@) is Some,
        r matches Some(o) ==> opt_string_entry(m@, k@) == Some(opt_text(o)),
{
    match find_entry(m, k) {
        None => Some(None),
        Some(i) => match &m[i].1 {
            JsonValue::Null => Some(None),
            JsonValue::String(s) => Some(Some(owned(s.as_str()))),
            _ => None,
        },
    }
}

fn string_list_of(m: &Vec<(String, JsonValue)>, k: &str) -> (r: Option<Vec<String>>)
    ensures
        r is Some <==> string_list_entry(m@, k@) is Some,
        r matches Some(v) ==> string_list_entry(m@, k@) == Some(texts(v@)),
{
    match find_entry(m, k) {
        None => {
            let v: Vec<String> = Vec::new();
            assert(texts(v@) =~= Seq::<Seq<char>>::empty());
            Some(v)
        },
        Some(i) => match &m[i].1 {
            JsonValue::Array(a) => {
                assert(m@[i as int].1 == JsonValue::Array(*a));
                let mut out: Vec<String> = Vec::new();
                let mut j: usize = 0;
                while j < a.len()
                    invariant
                        i < m@.len(),
                        m@[i as int].1 == JsonValue::Array(*a),
                        entry_index(m@, k@) == Some(i as int),
                        j <= a@.len(),
                        out@.len() == j,
                        forall|q: int| 0 <= q < j ==> (#[trigger] a@[q]) is String,
                        forall|q: int| 0 <= q < j ==> (#[trigger] out@[q])@ == string_items(a@)[q],
                    decreases a@.len() - j,
                {
                    match &a[j] {
                        JsonValue::String(s) => {
                            out.push(owned(s.as_str()));
                        },
                        _ => {
                            assert(!all_strings(a@));
                            return None;
                        },
                    }
                    j = j + 1;
                }
                assert(texts(out@) =~= string_items(a@));
                Some(out)
            },
            _ => None,
        },
    }
}

fn usize_of(m: &Vec<(String, JsonValue)>, k: &str) -> (r: Option<usize>)
    ensures
        r == usize_entry(m@, k@),
{
    match find_entry(m, k) {
        Some(i) => match &m[i].1 {
            JsonValue::Number(t) => parse_usize(t.as_str()),
            _ => None,
        },
        None => None,
    }
}

/// The agent claims that a payload holds, read as serde reads `AgentClaims`
/// from it (see `has_agent_claims` and `is_claims_of`).
pub fn agent_claims_of(p: &JsonValue) -> (r: Option<AgentClaims>)
    ensures
        r is Some <==> has_agent_claims(*p),
        r matches Some(c) ==> is_claims_of(*p, c),
{
    match p {
        JsonValue::Object(m) => {
            let sub = match entry_string(m, "sub") {
                Some(s) => owned(s.as_str()),
                None => return None,
            };
            let role = match opt_string_of(m, "role") {
                Some(o) => o,
                None => return None,
            };
            let permissions = match string_list_of(m, "permissions") {
                Some(v) => v,
                None => return None,
            };
            let session_id = match opt_string_of(m, "session_id") {
                Some(o) => o,
                None => return None,
            };
            let exp = match usize_of(m, "exp") {
                Some(x) => x,
                None => return None,
            };
            let iat = match usize_of(m, "iat") {
                Some(x) => x,
                None => return None,
            };
            Some(AgentClaims { sub, role, permissions, session_id, exp, iat })
        },
        _ => None,
    }
}

/// The `exp` of a payload that holds agent claims.
pub open spec fn claims_exp(p: JsonValue) -> usize {
    match p {
        JsonValue::Object(m) => match usize_entry(m@, "exp"@) {
            Some(e) => e,
            None => 0,
        },
        _ => 0,
    }
}

/// How long after its `exp` a token is still accepted, in seconds
/// (`jsonwebtoken`'s default leeway).
pub open spec fn exp_leeway() -> int {
    60
}

/// What checking a token's payload at time `now` answers: "invalid token"
/// without a payload, "invalid claims" when the payload holds no agent
/// claims, "expired token" when `exp` plus the leeway lies before `now`,
/// and otherwise the claims.
pub open spec fn token_check_outcome(
    payload: Option<JsonValue>,
    now: UtcTime,
    r: Result<AgentClaims, AppError>,
) -> bool {
    match payload {
        None => r matches Err(AppError::Jwt(m)) && m@ == "invalid token"@,
        Some(p) => if !has_agent_claims(p) {
            r matches Err(AppError::Jwt(m)) && m@ == "invalid claims"@
        } else if claims_exp(p) + exp_leeway() < now.secs {
            r matches Err(AppError::Jwt(m)) && m@ == "expired token"@
        } else {
            r matches Ok(c) && is_claims_of(p, c)
        },
    }
}

/// Checks a token's payload at time `now` (see `token_check_outcome`).
pub fn check_token(payload: Option<JsonValue>, now: UtcTime) -> (r: Result<AgentClaims, AppError>)
    requires
        now.wf(),
    ensures
        token_check_outcome(payload, now, r),
{
    match payload {
        None => Err(AppError::Jwt(owned("invalid token"))),
        Some(p) => match agent_claims_of(&p) {
            None => Err(AppError::Jwt(owned("invalid claims"))),
            Some(c) => {
                proof {
                    if let JsonValue::Object(m) = p {
                        assert(usize_entry(m@, "exp"@) == Some(c.exp));
                    }
                }
                if (c.exp as i128) + 60 < now.secs as i128 {
                    Err(AppError::Jwt(owned("expired token")))
                } else {
                    Ok(c)
                }
            },
        },
    }
}

/// Checks an agent's JWT against the server's secret at the current time:
/// the claims of an HS256 token signed with `jwt_secret` that has not
/// expired (with the leeway), an error otherwise.
pub fn verify_token(token: &str, jwt_secret: &str) -> (r: Result<AgentClaims, AppError>)
    ensures
        exists|t: UtcTime|
            t.wf() && #[trigger] token_check_outcome(
                spec_hs256_payload(token@, encode_utf8(jwt_secret@)),
                t,
                r,
            ),
{
    let payload = hs256_payload(token, jwt_secret);
    let now = now_utc();
    let r = check_token(payload, now);
    assert(now.wf() && token_check_outcome(
        spec_hs256_payload(token@, encode_utf8(jwt_secret@)),
        now,
        r,
    ));
    r
}

/// Whatever the time, a token whose payload holds no agent claims is
/// refused, and an accepted token's claims are exactly those its payload
/// holds.
pub proof fn law_token_claims_are_the_payload(
    payload: Option<JsonValue>,
    now: UtcTime,
    r: Result<AgentClaims, AppError>,
)
    requires
        token_check_outcome(payload, now, r),
    ensures
        r matches Ok(c) ==> (payload matches Some(p) && is_claims_of(p, c) && c.exp + exp_leeway()
            >= now.secs),
        (payload is None || !has_agent_claims(payload.unwrap())) ==> r is Err,
{
    if let Some(p) = payload {
        if has_agent_claims(p) {
            if let JsonValue::Object(m) = p {
                if let Ok(c) = r {
                    assert(usize_entry(m@, "exp"@) == Some(c.exp));
                }
            }
        }
    }
}

} // verus!
