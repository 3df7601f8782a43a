//! Bearer tokens: what a token claims, how one is issued and how one is
//! verified.
//!
//! A token is a signed JSON object with three members: `sub`, the identity
//! it speaks for, and `exp` and `iat`, the seconds since 1970 at which it
//! expires and at which it was issued. Signing and checking are done by
//! `jsonwebtoken`, with HMAC-SHA256 under a secret shared by the whole
//! process; a token is accepted for a minute past its expiry.

use crate::json::{exact, json_from_value, lemma_member_at, value_from_json, Json, JsonDoc, Member};
use crate::stamps::{now_unix, CLOCK_LIMIT};
use crate::text::after_prefix;
use jsonwebtoken::{DecodingKey, EncodingKey, Header, Validation};
use serde_json::Value;
use vstd::prelude::*;

verus! {

/// The seconds for which an issued token is valid: seven days.
pub const TOKEN_LIFETIME: i64 = 604_800;

/// What a token claims.
#[derive(Debug, Clone, PartialEq, Eq)]
pub struct Claims {
    /// The identity that the token speaks for.
    pub sub: String,
    /// When the token expires, in seconds since 1970.
    pub exp: usize,
    /// When the token was issued, in seconds since 1970.
    pub iat: usize,
}

/// The abstract value of [`Claims`].
pub struct Grant {
    pub sub: Seq<char>,
    pub exp: usize,
    pub iat: usize,
}

impl View for Claims {
    type V = Grant;

    open spec fn view(&self) -> Grant {
        Grant { sub: self.sub@, exp: self.exp, iat: self.iat }
    }
}

/// Why a token was not accepted.
#[derive(Debug, Clone, PartialEq, Eq)]
pub enum VerificationError {
    /// The verifier refused the token: it is malformed, its signature does
    /// not match the secret, or it has expired.
    Refused,
    /// The token is sound but does not hold the three claims.
    IncompleteClaims,
}

/// Why no token was issued.
#[derive(Debug, Clone, PartialEq, Eq)]
pub enum TokenError {
    /// The time of issue is negative, or the expiry is beyond what the
    /// machine can count.
    Clock,
    /// The signer refused.
    Signing,
}

/// The JSON object of a grant: `sub`, `exp`, `iat`, in this order.
pub open spec fn grant_doc(grant: Grant) -> JsonDoc {
    JsonDoc::Object(
        seq![
            ("sub"@, JsonDoc::Str(grant.sub)),
            ("exp"@, JsonDoc::Number(Some(grant.exp as u64))),
            ("iat"@, JsonDoc::Number(Some(grant.iat as u64))),
        ],
    )
}

/// The count that `doc` holds under `key`: an unsigned integer that the
/// machine can hold.
pub open spec fn count_at(doc: JsonDoc, key: Seq<char>) -> Option<usize> {
    match doc.field(key) {
        Some(value) => match value.unsigned() {
            Some(n) => if n <= usize::MAX {
                Some(n as usize)
            } else {
                None
            },
            None => None,
        },
        None => None,
    }
}

/// The grant that a token's payload holds: an object with a string `sub` and
/// counts `exp` and `iat`. Other members are passed over.
pub open spec fn grant_of(doc: JsonDoc) -> Option<Grant> {
    match doc.field("sub"@) {
        Some(JsonDoc::Str(sub)) => if count_at(doc, "exp"@) is Some && count_at(doc, "iat"@)
            is Some {
            Some(Grant { sub, exp: count_at(doc, "exp"@)->0, iat: count_at(doc, "iat"@)->0 })
        } else {
            None
        },
        _ => None,
    }
}

/// The grant issued to `user_id` at time `now`: valid from `now` for
/// [`TOKEN_LIFETIME`] seconds. None is issued for a negative time, nor where
/// the expiry cannot be counted.
pub open spec fn issued(user_id: Seq<char>, now: i64) -> Option<Grant> {
    if 0 <= now && now + TOKEN_LIFETIME <= i64::MAX && now + TOKEN_LIFETIME <= usize::MAX {
        Some(Grant { sub: user_id, exp: (now + TOKEN_LIFETIME) as usize, iat: now as usize })
    } else {
        None
    }
}

/// The token that `jsonwebtoken` signs for `claims` under `secret`; `None`
/// where it refuses.
pub uninterp spec fn signed(claims: JsonDoc, secret: Seq<char>) -> Option<Seq<char>>;

/// What follows `Bearer ` in an `Authorization` header; `None` for a header
/// that does not start so.
pub open spec fn bearer_of(header: Seq<char>) -> Option<Seq<char>> {
    if "Bearer "@.is_prefix_of(header) {
        Some(header.skip(7))
    } else {
        None
    }
}

/// The payload that `token` carries under `secret`: the JSON document in
/// the token's middle part, for a token whose signature is the one that the
/// secret gives. It is what `jsonwebtoken` hands out whenever it accepts the
/// token, at whatever time.
pub uninterp spec fn carried(token: Seq<char>, secret: Seq<char>) -> Option<JsonDoc>;

/// The error of `jsonwebtoken`. Its inside is not looked into: that there
/// is an error is all that counts.
#[verifier::external_type_specification]
#[verifier::external_body]
pub struct ExTokenError(jsonwebtoken::errors::Error);

/// Signs `claims` under `secret`.
///
/// Trusted: calls `jsonwebtoken::encode` with the default header (HS256,
/// type `JWT`) and a key made by `EncodingKey::from_secret` of the secret's
/// bytes. The token is the header and the claims, each written as compact
/// JSON and base64url-encoded, and the HMAC-SHA256 of the two under the
/// secret. It depends on the claims and the secret alone, so it has a name,
/// [`signed`]. With an HMAC key and the HS256 header nothing in `encode` can
/// fail: the key fits the algorithm, a `Value` and the header are always
/// written, and the HMAC is always computed.
#[verifier::external_body]
fn sign_claims(claims: &Json, secret: &str) -> (token: Result<String, jsonwebtoken::errors::Error>)
    requires
        exact(claims@),
    ensures
        token is Ok,
        token matches Ok(t) ==> signed(claims@, secret@) == Some(t@),
{
    let key = EncodingKey::from_secret(secret.as_bytes());
    jsonwebtoken::encode(&Header::default(), &value_from_json(claims), &key)
}

/// Checks `token` against `secret` and hands out its payload.
///
/// Trusted: calls `jsonwebtoken::decode` with the default validation
/// (HS256; `exp` required and checked against the clock with a leeway of 60
/// seconds) and a key made by `DecodingKey::from_secret` of the secret's
/// bytes, and copies the payload with `json_from_value`. Whether a payload
/// is handed out depends on the clock, so that is not claimed. Which payload
/// it is does not: `decode` checks the signature against the secret, reads
/// the token's middle part as JSON, and only then asks the clock. So the
/// payload has a name, [`carried`]. The call fails only where the clock
/// stands before 1970.
#[verifier::external_body]
fn read_token(token: &str, secret: &str) -> (payload: Result<Json, jsonwebtoken::errors::Error>)
    ensures
        payload matches Ok(doc) ==> carried(token@, secret@) == Some(doc@),
{
    let key = DecodingKey::from_secret(secret.as_bytes());
    jsonwebtoken::decode::<Value>(token, &key, &Validation::default()).map(
        |data| json_from_value(data.claims),
    )
}

proof fn lemma_claim_names_differ()
    ensures
        "sub"@ != "exp"@,
        "sub"@ != "iat"@,
        "exp"@ != "iat"@,
{
    reveal_strlit("sub");
    reveal_strlit("exp");
    reveal_strlit("iat");
    assert("sub"@[0] != "exp"@[0]);
    assert("sub"@[0] != "iat"@[0]);
    assert("exp"@[0] != "iat"@[0]);
}

/// Reading the JSON object of a grant gives the grant back.
pub proof fn grant_round_trip(grant: Grant)
    ensures
        grant_of(grant_doc(grant)) == Some(grant),
        exact(grant_doc(grant)),
{
    lemma_claim_names_differ();
    let members = grant_doc(grant)->Object_0;
    lemma_member_at(members, "sub"@, 0);
    lemma_member_at(members, "exp"@, 1);
    lemma_member_at(members, "iat"@, 2);
    assert forall|i: int| 0 <= i < members.len() implies exact((#[trigger] members[i]).1) by {
        if i == 0 {
        } else if i == 1 {
        } else {
        }
    }
}

/// The count that `doc` holds under `key`.
fn count_field(doc: &Json, key: &str) -> (found: Option<usize>)
    ensures
        found == count_at(doc@, key@),
{
    match doc.field(key) {
        Some(value) => match value.as_u64() {
            Some(n) => if n <= usize::MAX as u64 {
                Some(n as usize)
            } else {
                None
            },
            None => None,
        },
        None => None,
    }
}

impl Claims {
    /// The claims of a token issued to `user_id` at time `now`.
    pub fn issue(user_id: &str, now: i64) -> (claims: Option<Claims>)
        ensures
            match claims {
                Some(c) => issued(user_id@, now) == Some(c@),
                None => issued(user_id@, now) is None,
            },
    {
        if now < 0 || now > i64::MAX - TOKEN_LIFETIME {
            return None;
        }
        let expiry: i64 = now + TOKEN_LIFETIME;
        if expiry as u64 > usize::MAX as u64 {
            return None;
        }
        Some(Claims { sub: user_id.to_string(), exp: expiry as usize, iat: now as usize })
    }

    /// The JSON object of these claims.
    pub fn to_json(&self) -> (doc: Json)
        ensures
            doc@ == grant_doc(self@),
    {
        let members = vec![
            Member::text("sub", self.sub.as_str()),
            Member { key: "exp".to_string(), value: Json::Number(Some(self.exp as u64)) },
            Member { key: "iat".to_string(), value: Json::Number(Some(self.iat as u64)) },
        ];
        let doc = Json::object(members);
        assert(doc@->Object_0 =~= grant_doc(self@)->Object_0);
        doc
    }

    /// The claims that a token's payload holds, if it holds all three.
    pub fn from_json(doc: &Json) -> (claims: Option<Claims>)
        ensures
            match claims {
                Some(c) => grant_of(doc@) == Some(c@),
                None => grant_of(doc@) is None,
            },
    {
        let sub = match doc.field("sub") {
            Some(value) => match value.as_str() {
                Some(s) => s.to_string(),
                None => return None,
            },
            None => return None,
        };
        let exp = match count_field(doc, "exp") {
            Some(n) => n,
            None => return None,
        };
        let iat = match count_field(doc, "iat") {
            Some(n) => n,
            None => return None,
        };
        Some(Claims { sub, exp, iat })
    }

    /// The token for these claims under `secret`. Signing with a shared
    /// secret does not fail.
    pub fn sign(&self, secret: &str) -> (token: Result<String, TokenError>)
        ensures
            token matches Ok(t) && signed(grant_doc(self@), secret@) == Some(t@),
    {
        let doc = self.to_json();
        proof {
            grant_round_trip(self@);
        }
        match sign_claims(&doc, secret) {
            Ok(t) => Ok(t),
            Err(_) => Err(TokenError::Signing),
        }
    }
}

/// What to make of a checked token: the claims of its payload, or the
/// reason why there are none. `payload` is the payload of a token that the
/// verifier accepted, `None` for a token that it refused.
pub fn claims_of_payload(payload: Option<&Json>) -> (verdict: Result<Claims, VerificationError>)
    ensures
        match payload {
            None => verdict matches Err(VerificationError::Refused),
            Some(doc) => match grant_of(doc@) {
                Some(grant) => verdict matches Ok(c) && c@ == grant,
                None => verdict matches Err(VerificationError::IncompleteClaims),
            },
        },
{
    match payload {
        None => Err(VerificationError::Refused),
        Some(doc) => match Claims::from_json(doc) {
            Some(claims) => Ok(claims),
            None => Err(VerificationError::IncompleteClaims),
        },
    }
}

/// A token as text, or the reason why there is none.
pub open spec fn token_view(token: Result<String, TokenError>) -> Result<Seq<char>, TokenError> {
    match token {
        Ok(t) => Ok(t@),
        Err(e) => Err(e),
    }
}

/// What comes of issuing a token to `user_id` under `secret` at time `now`:
/// the signed token of the grant issued at that time; no token where no
/// grant is issued or the signer refuses.
pub open spec fn minted(user_id: Seq<char>, secret: Seq<char>, now: i64) -> Result<
    Seq<char>,
    TokenError,
> {
    match issued(user_id, now) {
        None => Err(TokenError::Clock),
        Some(grant) => match signed(grant_doc(grant), secret) {
            Some(token) => Ok(token),
            None => Err(TokenError::Signing),
        },
    }
}

/// Issues a token for `user_id` under `secret`, valid for seven days from
/// the time `now`. A token is issued whenever a grant is.
pub fn create_token_at(user_id: &str, secret: &str, now: i64) -> (token: Result<
    String,
    TokenError,
>)
    ensures
        token_view(token) == minted(user_id@, secret@, now),
        token is Ok <==> issued(user_id@, now) is Some,
        token matches Err(e) ==> e == TokenError::Clock,
{
    match Claims::issue(user_id, now) {
        Some(claims) => claims.sign(secret),
        None => Err(TokenError::Clock),
    }
}

/// Issues a token for `user_id` under `secret`, valid for seven days from
/// now: the token that [`create_token_at`] issues for the time that the
/// clock shows, which lies between 1970 and [`CLOCK_LIMIT`]. The only
/// failure is that of a machine which cannot count up to the expiry.
pub fn create_token(user_id: &str, secret: &str) -> (token: Result<String, TokenError>)
    ensures
        exists|now: i64|
            0 <= now < CLOCK_LIMIT && token_view(token) == #[trigger] minted(
                user_id@,
                secret@,
                now,
            ),
        token matches Err(e) ==> e == TokenError::Clock,
        CLOCK_LIMIT + TOKEN_LIFETIME <= usize::MAX ==> token is Ok,
{
    let now = now_unix();
    let token = create_token_at(user_id, secret, now);
    assert(0 <= now < CLOCK_LIMIT && token_view(token) == minted(user_id@, secret@, now));
    token
}

/// Verifies `token` under `secret`: the claims of a token that is well
/// formed, signed with this secret and not expired.
///
/// Whether a token is accepted is for `jsonwebtoken` and the clock to say.
/// Claims that are handed out are those of the payload that the token
/// carries under the secret, and claims are called incomplete only where
/// that payload lacks one of them.
pub fn verify_token(token: &str, secret: &str) -> (verdict: Result<Claims, VerificationError>)
    ensures
        verdict matches Ok(claims) ==> (carried(token@, secret@) matches Some(doc) && grant_of(doc)
            == Some(claims@)),
        verdict matches Err(VerificationError::IncompleteClaims) ==> (carried(
            token@,
            secret@,
        ) matches Some(doc) && grant_of(doc) is None),
{
    match read_token(token, secret) {
        Ok(payload) => claims_of_payload(Some(&payload)),
        Err(_) => claims_of_payload(None),
    }
}

/// The secret under which tokens are signed where none is configured. It is
/// fit for development only.
pub const DEFAULT_SECRET: &'static str = "super_secret_key_change_in_production";

/// The secret of the process: the configured one, and [`DEFAULT_SECRET`]
/// where none is configured.
pub fn secret_or_default(configured: Option<String>) -> (secret: String)
    ensures
        secret@ == match configured {
            Some(s) => s@,
            None => DEFAULT_SECRET@,
        },
{
    match configured {
        Some(s) => s,
        None => DEFAULT_SECRET.to_string(),
    }
}

/// The bearer token of a request: what follows `Bearer ` in its
/// `Authorization` header. A request without the header has none.
pub fn extract_token(authorization: Option<&str>) -> (token: Option<String>)
    ensures
        match authorization {
            None => token is None,
            Some(header) => match token {
                Some(t) => bearer_of(header@) == Some(t@),
                None => bearer_of(header@) is None,
            },
        },
{
    match authorization {
        None => None,
        Some(header) => match after_prefix(header, "Bearer ") {
            Some(rest) => {
                proof {
                    reveal_strlit("Bearer ");
                    assert(header@.skip(7) =~= rest@);
                    assert("Bearer "@.is_prefix_of(header@));
                }
                Some(rest.to_string())
            },
            None => None,
        },
    }
}

} // verus!
