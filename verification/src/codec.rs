//! The token codec: encodes and decodes one signed claim set under one
//! class-specific secret, in the standard three-part JWT layout
//! (`header.payload.signature`, HMAC-SHA-256). The codec checks signature,
//! structure, required fields and expiry; it never compares the token class
//! to a caller expectation — that check belongs to the manager, so both
//! classes share one codec implementation.
use vstd::prelude::*;

use jsonwebtoken::errors::ErrorKind;
use jsonwebtoken::Algorithm;
use jsonwebtoken::DecodingKey;
use jsonwebtoken::EncodingKey;
use jsonwebtoken::Header;
use jsonwebtoken::Validation;
use serde_json::Value;

use crate::claims::Claims;
use crate::claims::ClaimsView;
use crate::errors::AuthError;

verus! {

/// What `jsonwebtoken::encode` produces for one claim set under one secret:
/// with a fixed algorithm and header, and a deterministic payload
/// serialization, the token is a function of the secret and the claim
/// fields alone. Its value is never spelled out here; the decode contract
/// speaks of it.
pub uninterp spec fn jwt_of(secret: Seq<char>, claims: ClaimsView) -> Seq<char>;

/// Mathematical image of the claim fields as they come off the wire.
pub ghost struct RawClaimsView {
    pub uid: Option<Seq<char>>,
    pub email: Option<Seq<char>>,
    pub iat: Option<i64>,
    pub exp: Option<i64>,
    pub token_type: Option<Seq<char>>,
    pub jti: Option<Seq<char>>,
}

/// The claim fields as decoded from a token's payload, before the
/// required-field and expiry checks: each may be absent.
#[derive(Debug, Clone)]
pub struct RawClaims {
    pub uid: Option<String>,
    pub email: Option<String>,
    pub iat: Option<i64>,
    pub exp: Option<i64>,
    pub token_type: Option<String>,
    pub jti: Option<String>,
}

impl View for RawClaims {
    type V = RawClaimsView;

    open spec fn view(&self) -> RawClaimsView {
        RawClaimsView {
            uid: match self.uid {
                Some(u) => Some(u@),
                None => None,
            },
            email: match self.email {
                Some(e) => Some(e@),
                None => None,
            },
            iat: self.iat,
            exp: self.exp,
            token_type: match self.token_type {
                Some(t) => Some(t@),
                None => None,
            },
            jti: match self.jti {
                Some(j) => Some(j@),
                None => None,
            },
        }
    }
}

/// The raw form the payload of `jwt_of(_, c)` decodes to: every field that
/// was encoded is present.
pub open spec fn raw_of(c: ClaimsView) -> RawClaimsView {
    RawClaimsView {
        uid: Some(c.uid),
        email: Some(c.email),
        iat: Some(c.iat),
        exp: Some(c.exp),
        token_type: Some(c.token_type),
        jti: c.jti,
    }
}

/// What decoding answers for one secret and one token string: the raw
/// claim fields on success, or which failure kind. With the expiry check
/// left to the caller, the answer depends on the two strings alone, so
/// repeated decoding is deterministic. Its value is never spelled out
/// here; the wrapper's contract pins the result to it.
pub uninterp spec fn jwt_decode_of(secret: Seq<char>, token: Seq<char>) -> Result<
    RawClaimsView,
    AuthError,
>;

/// A raw decode result, by mathematical image.
pub open spec fn raw_result_view(r: Result<RawClaims, AuthError>) -> Result<
    RawClaimsView,
    AuthError,
> {
    match r {
        Ok(raw) => Ok(raw@),
        Err(e) => Err(e),
    }
}

/// Some claim set is minted into `token` under `secret`.
pub open spec fn minted_under(token: Seq<char>, secret: Seq<char>) -> bool {
    exists|c: ClaimsView| token == #[trigger] jwt_of(secret, c)
}

/// Some claim set is minted into `token` under some secret.
pub open spec fn minted(token: Seq<char>) -> bool {
    exists|s: Seq<char>, c: ClaimsView| token == #[trigger] jwt_of(s, c)
}

/// Whichever claim set was minted into `token`, under whichever secret,
/// its raw form is `raw`: the payload alone determines what decoding
/// recovers.
pub open spec fn raw_agrees(token: Seq<char>, raw: RawClaimsView) -> bool {
    forall|s: Seq<char>, c: ClaimsView| token == #[trigger] jwt_of(s, c) ==> raw == raw_of(c)
}

/// Relies on `jsonwebtoken::encode` with `Algorithm::HS256` and a key from
/// `EncodingKey::from_secret`: the token is the three base64url parts over a
/// deterministic JSON payload of the claim fields, so it is a function of
/// the secret and the claims alone. For an HMAC key and a payload of
/// strings and integers the encoder cannot fail.
#[verifier::external_body]
fn jwt_encode(secret: &str, claims: &Claims) -> (token: String)
    ensures
        token@ == jwt_of(secret@, claims@),
{
    let mut payload = serde_json::Map::new();
    payload.insert("uid".to_owned(), Value::from(claims.uid.clone()));
    payload.insert("email".to_owned(), Value::from(claims.email.clone()));
    payload.insert("iat".to_owned(), Value::from(claims.iat));
    payload.insert("exp".to_owned(), Value::from(claims.exp));
    payload.insert("token_type".to_owned(), Value::from(claims.token_type.clone()));
    if let Some(jti) = &claims.jti {
        payload.insert("jti".to_owned(), Value::from(jti.clone()));
    }
    let key = EncodingKey::from_secret(secret.as_bytes());
    jsonwebtoken::encode(&Header::new(Algorithm::HS256), &Value::Object(payload), &key)
        .expect("HMAC encoding of a string and integer payload cannot fail")
}

/// Relies on `jsonwebtoken::decode` with `Algorithm::HS256`: it splits the
/// three parts, recomputes the HMAC under the given secret, and parses the
/// JSON payload. Expiry is deliberately not checked by the call (the
/// caller checks it against its own clock) and no claim is required by it.
/// Hence, for a token `jsonwebtoken::encode` produced under some secret:
/// under the same secret the call succeeds; any success returns exactly the
/// embedded fields; any failure is a signature mismatch. Every failure is
/// either a signature mismatch or structural.
#[verifier::external_body]
fn jwt_decode(secret: &str, token: &str) -> (r: Result<RawClaims, AuthError>)
    ensures
        raw_result_view(r) == jwt_decode_of(secret@, token@),
        minted_under(token@, secret@) ==> r is Ok,
        r matches Ok(raw) ==> raw_agrees(token@, raw@),
        minted(token@) && r is Err ==> r->Err_0 == AuthError::Signature,
        r is Err ==> (r->Err_0 == AuthError::Signature || r->Err_0 == AuthError::Malformed),
{
    let key = DecodingKey::from_secret(secret.as_bytes());
    let mut validation = Validation::new(Algorithm::HS256);
    validation.validate_exp = false;
    validation.required_spec_claims = std::collections::HashSet::new();
    let data = jsonwebtoken::decode::<Value>(token, &key, &validation).map_err(|e| match e.kind() {
        ErrorKind::InvalidSignature => AuthError::Signature,
        _ => AuthError::Malformed,
    })?;
    let v = data.claims;
    let text = |k: &str| v[k].as_str().map(|x| x.to_owned());
    let num = |k: &str| v[k].as_i64();
    Ok(RawClaims {
        uid: text("uid"), email: text("email"), iat: num("iat"), exp: num("exp"),
        token_type: text("token_type"), jti: text("jti"),
    })
}

/// A full decode result, by mathematical image.
pub open spec fn claims_result_view(r: Result<Claims, AuthError>) -> Result<
    ClaimsView,
    AuthError,
> {
    match r {
        Ok(c) => Ok(c@),
        Err(e) => Err(e),
    }
}

/// The codec's whole decode outcome for one secret, one token string and
/// one clock reading: the wire-level answer, then the required fields
/// (subject, email, issued-at, expires-at, class — absence is a structural
/// defect), then expiry. Exactly this is what [`TokenCodec::decode`]
/// returns, for every input string.
pub open spec fn decode_outcome(secret: Seq<char>, token: Seq<char>, now: i64) -> Result<
    ClaimsView,
    AuthError,
> {
    match jwt_decode_of(secret, token) {
        Err(e) => Err(e),
        Ok(raw) => {
            if raw.uid is None || raw.email is None || raw.iat is None || raw.exp is None
                || raw.token_type is None {
                Err(AuthError::Malformed)
            } else if raw.exp->Some_0 <= now {
                Err(AuthError::Expired)
            } else {
                Ok(
                    ClaimsView {
                        uid: raw.uid->Some_0,
                        email: raw.email->Some_0,
                        iat: raw.iat->Some_0,
                        exp: raw.exp->Some_0,
                        token_type: raw.token_type->Some_0,
                        jti: raw.jti,
                    },
                )
            }
        },
    }
}

/// One token codec: the signing secret for one token class. Both classes
/// run through the same implementation, each with its own secret.
pub struct TokenCodec {
    pub secret: String,
}

impl TokenCodec {
    /// Sign one claim set into a compact three-part token.
    pub fn encode(&self, claims: &Claims) -> (token: String)
        ensures
            token@ == jwt_of(self.secret@, claims@),
    {
        jwt_encode(self.secret.as_str(), claims)
    }

    /// Recover the claim set of a token, rejecting a wrong signature, a
    /// structural defect, an absent required field and a past expiry, in
    /// that order. `now` is the verification time in epoch seconds.
    pub fn decode(&self, token: &str, now: i64) -> (r: Result<Claims, AuthError>)
        ensures
            claims_result_view(r) == decode_outcome(self.secret@, token@, now),
            forall|c: ClaimsView|
                token@ == #[trigger] jwt_of(self.secret@, c) && now < c.exp ==> r is Ok
                    && r->Ok_0@ == c,
            forall|c: ClaimsView|
                token@ == #[trigger] jwt_of(self.secret@, c) && c.exp <= now ==> r == Err::<
                    Claims,
                    AuthError,
                >(AuthError::Expired),
            forall|s: Seq<char>, c: ClaimsView|
                token@ == #[trigger] jwt_of(s, c) && r is Ok ==> r->Ok_0@ == c && now < c.exp,
            forall|s: Seq<char>, c: ClaimsView|
                token@ == #[trigger] jwt_of(s, c) && now < c.exp && r is Err ==> r->Err_0
                    == AuthError::Signature,
            forall|s: Seq<char>, c: ClaimsView|
                token@ == #[trigger] jwt_of(s, c) && r is Err ==> (r->Err_0 == AuthError::Signature
                    || r->Err_0 == AuthError::Expired),
            r is Err ==> (r->Err_0 == AuthError::Signature || r->Err_0 == AuthError::Malformed
                || r->Err_0 == AuthError::Expired),
    {
        let raw = match jwt_decode(self.secret.as_str(), token) {
            Ok(raw) => raw,
            Err(e) => {
                return Err(e);
            },
        };
        let uid = match raw.uid {
            Some(u) => u,
            None => {
                return Err(AuthError::Malformed);
            },
        };
        let email = match raw.email {
            Some(e) => e,
            None => {
                return Err(AuthError::Malformed);
            },
        };
        let iat = match raw.iat {
            Some(i) => i,
            None => {
                return Err(AuthError::Malformed);
            },
        };
        let exp = match raw.exp {
            Some(x) => x,
            None => {
                return Err(AuthError::Malformed);
            },
        };
        let token_type = match raw.token_type {
            Some(t) => t,
            None => {
                return Err(AuthError::Malformed);
            },
        };
        if exp <= now {
            return Err(AuthError::Expired);
        }
        Ok(Claims { uid, email, iat, exp, token_type, jti: raw.jti })
    }
}

} // verus!
