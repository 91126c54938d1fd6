//! The claim sets a signed token carries, and their mathematical images.
use vstd::prelude::*;

verus! {

/// The token class a verification call expects.
#[derive(Clone, Copy, Debug, PartialEq, Eq, Structural)]
pub enum TokenClass {
    Access,
    Refresh,
}

/// The class label an access token declares.
pub open spec fn access_label() -> Seq<char> {
    "access"@
}

/// The class label a refresh token declares.
pub open spec fn refresh_label() -> Seq<char> {
    "refresh"@
}

/// Mathematical image of one claim set: subject id, email, issued-at and
/// expires-at in epoch seconds, the declared class, and, where the token is
/// a refresh token, its rotation id.
pub ghost struct ClaimsView {
    pub uid: Seq<char>,
    pub email: Seq<char>,
    pub iat: i64,
    pub exp: i64,
    pub token_type: Seq<char>,
    pub jti: Option<Seq<char>>,
}

/// One claim set as the codec signs and recovers it. The rotation id is
/// present exactly on refresh tokens.
#[derive(Debug, Clone)]
pub struct Claims {
    pub uid: String,
    pub email: String,
    pub iat: i64,
    pub exp: i64,
    pub token_type: String,
    pub jti: Option<String>,
}

impl View for Claims {
    type V = ClaimsView;

    open spec fn view(&self) -> ClaimsView {
        ClaimsView {
            uid: self.uid@,
            email: self.email@,
            iat: self.iat,
            exp: self.exp,
            token_type: self.token_type@,
            jti: match self.jti {
                Some(j) => Some(j@),
                None => None,
            },
        }
    }
}

/// Mathematical image of a verified access claim set.
pub ghost struct AccessClaimsView {
    pub uid: Seq<char>,
    pub email: Seq<char>,
    pub iat: i64,
    pub exp: i64,
    pub token_type: Seq<char>,
}

/// The claim set a successful access-token verification returns.
#[derive(Debug, Clone)]
pub struct AccessTokenClaims {
    pub uid: String,
    pub email: String,
    pub iat: i64,
    pub exp: i64,
    pub token_type: String,
}

impl View for AccessTokenClaims {
    type V = AccessClaimsView;

    open spec fn view(&self) -> AccessClaimsView {
        AccessClaimsView {
            uid: self.uid@,
            email: self.email@,
            iat: self.iat,
            exp: self.exp,
            token_type: self.token_type@,
        }
    }
}

/// Mathematical image of a verified refresh claim set.
pub ghost struct RefreshClaimsView {
    pub uid: Seq<char>,
    pub email: Seq<char>,
    pub iat: i64,
    pub exp: i64,
    pub token_type: Seq<char>,
    pub jti: Seq<char>,
}

/// The claim set a successful refresh-token verification returns; `jti` is
/// the rotation id, fresh and unique per issuance.
#[derive(Debug, Clone)]
pub struct RefreshTokenClaims {
    pub uid: String,
    pub email: String,
    pub iat: i64,
    pub exp: i64,
    pub token_type: String,
    pub jti: String,
}

impl View for RefreshTokenClaims {
    type V = RefreshClaimsView;

    open spec fn view(&self) -> RefreshClaimsView {
        RefreshClaimsView {
            uid: self.uid@,
            email: self.email@,
            iat: self.iat,
            exp: self.exp,
            token_type: self.token_type@,
            jti: self.jti@,
        }
    }
}

/// The access part of a full claim set: what `verify_access_token` keeps.
pub open spec fn access_of(c: ClaimsView) -> AccessClaimsView {
    AccessClaimsView { uid: c.uid, email: c.email, iat: c.iat, exp: c.exp, token_type: c.token_type }
}

/// The refresh form of a full claim set whose rotation id is present.
pub open spec fn refresh_of(c: ClaimsView) -> RefreshClaimsView
    recommends
        c.jti is Some,
{
    RefreshClaimsView {
        uid: c.uid,
        email: c.email,
        iat: c.iat,
        exp: c.exp,
        token_type: c.token_type,
        jti: c.jti->Some_0,
    }
}

/// The two class labels differ: no claim set declares both classes, so a
/// token minted as one class can never satisfy the success clause of the
/// other class's verification.
pub proof fn lemma_class_labels_differ()
    ensures
        access_label() != refresh_label(),
{
    reveal_strlit("access");
    reveal_strlit("refresh");
    assert(access_label().len() != refresh_label().len());
}

/// The class label of an access token, as a string value.
pub fn access_type_string() -> (s: String)
    ensures
        s@ == access_label(),
{
    "access".to_owned()
}

/// The class label of a refresh token, as a string value.
pub fn refresh_type_string() -> (s: String)
    ensures
        s@ == refresh_label(),
{
    "refresh".to_owned()
}

/// The claim set of a freshly minted access token.
pub open spec fn access_claims(uid: Seq<char>, email: Seq<char>, iat: i64, exp: i64) -> ClaimsView {
    ClaimsView { uid, email, iat, exp, token_type: access_label(), jti: None }
}

/// The claim set of a freshly minted refresh token carrying rotation id `jti`.
pub open spec fn refresh_claims(
    uid: Seq<char>,
    email: Seq<char>,
    iat: i64,
    exp: i64,
    jti: Seq<char>,
) -> ClaimsView {
    ClaimsView { uid, email, iat, exp, token_type: refresh_label(), jti: Some(jti) }
}

} // verus!
