//! The token manager: owns the two class secrets and the two lifetimes,
//! all fixed at construction, and composes the codec to issue, verify and
//! rotate tokens. Verification is side-effect-free; rotation verifies the
//! old refresh token and mints a fresh pair with a new rotation id.
use vstd::prelude::*;

use crate::claims::access_claims;
use crate::claims::access_label;
use crate::claims::access_of;
use crate::claims::access_type_string;
use crate::claims::refresh_claims;
use crate::claims::refresh_label;
use crate::claims::refresh_of;
use crate::claims::refresh_type_string;
use crate::claims::AccessClaimsView;
use crate::claims::AccessTokenClaims;
use crate::claims::Claims;
use crate::claims::ClaimsView;
use crate::claims::RefreshClaimsView;
use crate::claims::RefreshTokenClaims;
use crate::codec::decode_outcome;
use crate::codec::jwt_of;
use crate::codec::TokenCodec;
use crate::errors::AuthError;

verus! {

/// A decimal digit.
pub open spec fn is_digit(c: char) -> bool {
    48 <= c as u32 <= 57
}

/// The value of one decimal digit.
pub open spec fn digit_val(c: char) -> int {
    c as u32 - 48
}

/// Every character of `s` is a decimal digit.
pub open spec fn all_digits(s: Seq<char>) -> bool {
    forall|j: int| 0 <= j < s.len() ==> is_digit(#[trigger] s[j])
}

/// The value of a sequence of decimal digits, most significant first.
pub open spec fn digits_value(s: Seq<char>) -> int
    decreases s.len(),
{
    if s.len() == 0 {
        0
    } else {
        digits_value(s.drop_last()) * 10 + digit_val(s.last())
    }
}

/// `s` is a decimal numeral whose value is positive and fits an `i64`.
pub open spec fn is_positive_numeral(s: Seq<char>) -> bool {
    s.len() > 0 && all_digits(s) && 1 <= digits_value(s) <= i64::MAX
}

/// The digits of a setting: one optional leading `+` sign is accepted, as
/// ordinary integer parsing accepts it.
pub open spec fn numeral_body(s: Seq<char>) -> Seq<char> {
    if s.len() > 0 && s[0] == '+' {
        s.subrange(1, s.len() as int)
    } else {
        s
    }
}

/// `s` denotes a positive value that fits an `i64`: an optional `+` sign,
/// then decimal digits.
pub open spec fn is_positive_setting(s: Seq<char>) -> bool {
    is_positive_numeral(numeral_body(s))
}

proof fn lemma_digits_value_nonneg(s: Seq<char>)
    requires
        all_digits(s),
    ensures
        digits_value(s) >= 0,
    decreases s.len(),
{
    if s.len() > 0 {
        assert forall|j: int| 0 <= j < s.drop_last().len() implies is_digit(
            #[trigger] s.drop_last()[j],
        ) by {
            assert(s.drop_last()[j] == s[j]);
        }
        lemma_digits_value_nonneg(s.drop_last());
        assert(is_digit(s[s.len() - 1]));
    }
}

proof fn lemma_digits_value_prefix_le(s: Seq<char>, k: int)
    requires
        all_digits(s),
        0 <= k <= s.len(),
    ensures
        digits_value(s.subrange(0, k)) <= digits_value(s),
    decreases s.len() - k,
{
    if k == s.len() {
        assert(s.subrange(0, k) =~= s);
    } else {
        let p = s.subrange(0, k);
        let q = s.subrange(0, k + 1);
        assert(q.drop_last() =~= p);
        assert forall|j: int| 0 <= j < p.len() implies is_digit(#[trigger] p[j]) by {
            assert(p[j] == s[j]);
        }
        lemma_digits_value_nonneg(p);
        assert(is_digit(s[k]));
        assert(digits_value(q) == digits_value(p) * 10 + digit_val(q.last()));
        lemma_digits_value_prefix_le(s, k + 1);
    }
}

/// Parse a lifetime setting: an optional `+` sign, then a decimal numeral
/// for a positive value that fits an `i64`. Anything else — empty, a
/// stray character, zero, or a value past `i64::MAX` — is a configuration
/// error.
pub fn parse_positive(s: &str) -> (r: Result<i64, AuthError>)
    ensures
        is_positive_setting(s@) ==> (r matches Ok(v) && v == digits_value(numeral_body(s@))),
        !is_positive_setting(s@) ==> r == Err::<i64, AuthError>(AuthError::Config),
{
    let n = s.unicode_len();
    let start: usize = if n > 0 && s.get_char(0) == '+' {
        1
    } else {
        0
    };
    let ghost body = numeral_body(s@);
    proof {
        assert(body =~= s@.subrange(start as int, n as int));
    }
    let mut acc: i64 = 0;
    let mut i: usize = start;
    while i < n
        invariant
            start <= i <= n,
            start <= 1,
            n == s@.len(),
            body == numeral_body(s@),
            body =~= s@.subrange(start as int, n as int),
            all_digits(body.subrange(0, i as int - start as int)),
            acc == digits_value(body.subrange(0, i as int - start as int)),
            0 <= acc,
        decreases n - i,
    {
        let c = s.get_char(i);
        let code = c as u32;
        proof {
            assert(body[i as int - start as int] == s@[i as int]);
        }
        if code < 48 || code > 57 {
            proof {
                assert(!all_digits(body)) by {
                    assert(!is_digit(body[i as int - start as int]));
                }
            }
            return Err(AuthError::Config);
        }
        let d = (code - 48) as i64;
        let ghost prefix = body.subrange(0, i as int - start as int);
        let ghost extended = body.subrange(0, i as int + 1 - start as int);
        proof {
            assert(extended.drop_last() =~= prefix);
            assert(extended.last() == body[i as int - start as int]);
            assert(digits_value(extended) == acc * 10 + d);
        }
        let widened = match acc.checked_mul(10) {
            Some(m) => m.checked_add(d),
            None => None,
        };
        match widened {
            Some(next) => {
                acc = next;
            },
            None => {
                proof {
                    if all_digits(body) {
                        lemma_digits_value_prefix_le(body, i as int + 1 - start as int);
                    }
                    assert(!is_positive_numeral(body));
                }
                return Err(AuthError::Config);
            },
        }
        i = i + 1;
    }
    proof {
        assert(body.subrange(0, n as int - start as int) =~= body);
    }
    if acc == 0 {
        return Err(AuthError::Config);
    }
    Ok(acc)
}

/// Relies on `chrono::Utc::now().timestamp()`: the wall-clock time in epoch
/// seconds. The reading depends on the environment, so nothing is promised
/// of it; callers state what holds for every reading.
#[verifier::external_body]
pub(crate) fn current_epoch_seconds() -> i64 {
    chrono::Utc::now().timestamp()
}

/// Relies on `uuid::Uuid::new_v4` and its hyphenated rendering: a fresh
/// random version-4 UUID. The value is random, so only its length — 36
/// characters, as the format fixes — is promised.
#[verifier::external_body]
fn fresh_rotation_id() -> (jti: String)
    ensures
        jti@.len() == 36,
{
    uuid::Uuid::new_v4().to_string()
}

/// A secret setting is present and non-empty.
pub open spec fn secret_ok(s: Option<String>) -> bool {
    s matches Some(v) && v@.len() > 0
}

/// A lifetime setting, where present, denotes a positive value; an absent
/// setting falls back to its default.
pub open spec fn lifetime_ok(s: Option<String>) -> bool {
    s matches Some(v) ==> is_positive_setting(v@)
}

/// The lifetime a setting denotes, or the default where it is absent.
pub open spec fn lifetime_value(s: Option<String>, default_value: int) -> int {
    match s {
        Some(v) => digits_value(numeral_body(v@)),
        None => default_value,
    }
}

/// What construction accepts: both secrets present, non-empty and distinct
/// from one another, and each lifetime setting either absent or a positive
/// numeral.
pub open spec fn config_ok(
    access_secret: Option<String>,
    refresh_secret: Option<String>,
    access_exp_hours: Option<String>,
    refresh_exp_days: Option<String>,
) -> bool {
    &&& secret_ok(access_secret)
    &&& secret_ok(refresh_secret)
    &&& access_secret->Some_0@ != refresh_secret->Some_0@
    &&& lifetime_ok(access_exp_hours)
    &&& lifetime_ok(refresh_exp_days)
}

/// An access verification result, by mathematical image.
pub open spec fn access_result_view(r: Result<AccessTokenClaims, AuthError>) -> Result<
    AccessClaimsView,
    AuthError,
> {
    match r {
        Ok(c) => Ok(c@),
        Err(e) => Err(e),
    }
}

/// A refresh verification result, by mathematical image.
pub open spec fn refresh_result_view(r: Result<RefreshTokenClaims, AuthError>) -> Result<
    RefreshClaimsView,
    AuthError,
> {
    match r {
        Ok(c) => Ok(c@),
        Err(e) => Err(e),
    }
}

/// The owner of both secrets and both expiry policies, immutable after
/// construction. Access tokens live `access_exp_hours` hours, refresh
/// tokens `refresh_exp_days` days.
#[derive(Debug)]
pub struct JwtManager {
    pub access_secret: String,
    pub refresh_secret: String,
    pub access_exp_hours: i64,
    pub refresh_exp_days: i64,
}

impl JwtManager {
    /// Well-formedness, established by construction and preserved ever
    /// after: non-empty distinct secrets and positive lifetimes.
    pub open spec fn wf(&self) -> bool {
        &&& self.access_secret@.len() > 0
        &&& self.refresh_secret@.len() > 0
        &&& self.access_secret@ != self.refresh_secret@
        &&& 1 <= self.access_exp_hours
        &&& 1 <= self.refresh_exp_days
    }

    /// The access-token lifetime in seconds.
    pub open spec fn access_lifetime_secs(&self) -> int {
        self.access_exp_hours * 3600
    }

    /// The refresh-token lifetime in seconds.
    pub open spec fn refresh_lifetime_secs(&self) -> int {
        self.refresh_exp_days * 86400
    }

    /// An access expiry computed at `now` stays within `i64` epoch seconds.
    pub open spec fn access_expiry_representable(&self, now: i64) -> bool {
        self.access_lifetime_secs() <= i64::MAX && now + self.access_lifetime_secs() <= i64::MAX
    }

    /// A refresh expiry computed at `now` stays within `i64` epoch seconds.
    pub open spec fn refresh_expiry_representable(&self, now: i64) -> bool {
        self.refresh_lifetime_secs() <= i64::MAX && now + self.refresh_lifetime_secs() <= i64::MAX
    }

    /// The whole outcome of access verification for one token string and
    /// one clock reading: the codec's decode outcome under the access
    /// secret (signature, then required fields, then expiry), and only
    /// then the class check. Exactly this is what
    /// [`Self::verify_access_token_at`] returns, for every input string —
    /// in particular, verification is deterministic, succeeds only on a
    /// structurally valid, correctly signed, unexpired token of the right
    /// class, and `WrongClass` arises only once everything before it
    /// passed.
    pub open spec fn access_verify_outcome(&self, token: Seq<char>, now: i64) -> Result<
        AccessClaimsView,
        AuthError,
    > {
        match decode_outcome(self.access_secret@, token, now) {
            Err(e) => Err(e),
            Ok(c) => if c.token_type == access_label() {
                Ok(access_of(c))
            } else {
                Err(AuthError::WrongClass)
            },
        }
    }

    /// The whole outcome of refresh verification: as the access side, with
    /// the class "refresh" required and then the rotation id required to
    /// be present.
    pub open spec fn refresh_verify_outcome(&self, token: Seq<char>, now: i64) -> Result<
        RefreshClaimsView,
        AuthError,
    > {
        match decode_outcome(self.refresh_secret@, token, now) {
            Err(e) => Err(e),
            Ok(c) => if c.token_type != refresh_label() {
                Err(AuthError::WrongClass)
            } else if c.jti is None {
                Err(AuthError::Malformed)
            } else {
                Ok(refresh_of(c))
            },
        }
    }

    /// What a successful rotation of `old` at instant `now` hands back:
    /// the old token verifies as a refresh token to some claims `c`, the
    /// new access and refresh tokens are fresh mints for `c`'s subject and
    /// email at `now`, and the rotation id is a fresh 36-character value.
    pub open spec fn rotation_mints(
        &self,
        old: Seq<char>,
        now: i64,
        new_access: Seq<char>,
        new_refresh: Seq<char>,
        new_jti: Seq<char>,
    ) -> bool {
        match self.refresh_verify_outcome(old, now) {
            Ok(c) => new_access == jwt_of(
                self.access_secret@,
                access_claims(c.uid, c.email, now, (now + self.access_lifetime_secs()) as i64),
            ) && new_refresh == jwt_of(
                self.refresh_secret@,
                refresh_claims(
                    c.uid,
                    c.email,
                    now,
                    (now + self.refresh_lifetime_secs()) as i64,
                    new_jti,
                ),
            ) && new_jti.len() == 36,
            Err(_) => false,
        }
    }

    /// Construct the manager from the process configuration: the two
    /// secrets, and the two lifetime settings with their defaults of one
    /// hour and thirty days. Exactly the configurations [`config_ok`]
    /// describes are accepted; everything else is the `Config` error.
    pub fn new(
        access_secret: Option<String>,
        refresh_secret: Option<String>,
        access_exp_hours: Option<String>,
        refresh_exp_days: Option<String>,
    ) -> (r: Result<JwtManager, AuthError>)
        ensures
            r is Ok <==> config_ok(
                access_secret,
                refresh_secret,
                access_exp_hours,
                refresh_exp_days,
            ),
            r matches Ok(m) ==> {
                &&& m.wf()
                &&& (access_secret matches Some(s) ==> m.access_secret@ == s@)
                &&& (refresh_secret matches Some(s) ==> m.refresh_secret@ == s@)
                &&& m.access_exp_hours as int == lifetime_value(access_exp_hours, 1)
                &&& m.refresh_exp_days as int == lifetime_value(refresh_exp_days, 30)
            },
            r is Err ==> r->Err_0 == AuthError::Config,
    {
        let access = match access_secret {
            Some(s) => s,
            None => {
                return Err(AuthError::Config);
            },
        };
        let refresh = match refresh_secret {
            Some(s) => s,
            None => {
                return Err(AuthError::Config);
            },
        };
        if access.as_str().is_empty() || refresh.as_str().is_empty() {
            return Err(AuthError::Config);
        }
        if access == refresh {
            return Err(AuthError::Config);
        }
        let hours: i64 = match access_exp_hours {
            Some(h) => match parse_positive(h.as_str()) {
                Ok(v) => v,
                Err(e) => {
                    return Err(e);
                },
            },
            None => 1,
        };
        let days: i64 = match refresh_exp_days {
            Some(d) => match parse_positive(d.as_str()) {
                Ok(v) => v,
                Err(e) => {
                    return Err(e);
                },
            },
            None => 30,
        };
        Ok(
            JwtManager {
                access_secret: access,
                refresh_secret: refresh,
                access_exp_hours: hours,
                refresh_exp_days: days,
            },
        )
    }

    /// Issue an access token at clock reading `now`: issued-at `now`,
    /// expires-at `now` plus the access lifetime, class "access", signed
    /// with the access secret.
    pub fn gen_access_token_at(&self, uid: &str, email: &str, now: i64) -> (r: Result<
        String,
        AuthError,
    >)
        requires
            self.wf(),
        ensures
            self.access_expiry_representable(now) ==> (r matches Ok(t) && t@ == jwt_of(
                self.access_secret@,
                access_claims(uid@, email@, now, (now + self.access_lifetime_secs()) as i64),
            )),
            !self.access_expiry_representable(now) ==> r == Err::<String, AuthError>(
                AuthError::Config,
            ),
    {
        let secs = match self.access_exp_hours.checked_mul(3600) {
            Some(s) => s,
            None => {
                return Err(AuthError::Config);
            },
        };
        let exp = match now.checked_add(secs) {
            Some(e) => e,
            None => {
                return Err(AuthError::Config);
            },
        };
        let claims = Claims {
            uid: uid.to_owned(),
            email: email.to_owned(),
            iat: now,
            exp,
            token_type: access_type_string(),
            jti: None,
        };
        let codec = TokenCodec { secret: self.access_secret.clone() };
        Ok(codec.encode(&claims))
    }

    /// Issue a refresh token at clock reading `now`, together with its
    /// fresh rotation id: issued-at `now`, expires-at `now` plus the
    /// refresh lifetime, class "refresh", signed with the refresh secret.
    pub fn gen_refresh_token_at(&self, uid: &str, email: &str, now: i64) -> (r: Result<
        (String, String),
        AuthError,
    >)
        requires
            self.wf(),
        ensures
            self.refresh_expiry_representable(now) ==> (r matches Ok(p) && p.0@ == jwt_of(
                self.refresh_secret@,
                refresh_claims(
                    uid@,
                    email@,
                    now,
                    (now + self.refresh_lifetime_secs()) as i64,
                    p.1@,
                ),
            ) && p.1@.len() == 36),
            !self.refresh_expiry_representable(now) ==> r == Err::<(String, String), AuthError>(
                AuthError::Config,
            ),
    {
        let secs = match self.refresh_exp_days.checked_mul(86400) {
            Some(s) => s,
            None => {
                return Err(AuthError::Config);
            },
        };
        let exp = match now.checked_add(secs) {
            Some(e) => e,
            None => {
                return Err(AuthError::Config);
            },
        };
        let jti = fresh_rotation_id();
        let claims = Claims {
            uid: uid.to_owned(),
            email: email.to_owned(),
            iat: now,
            exp,
            token_type: refresh_type_string(),
            jti: Some(jti.clone()),
        };
        let codec = TokenCodec { secret: self.refresh_secret.clone() };
        Ok((codec.encode(&claims), jti))
    }

    /// Verify an access token at clock reading `now`: decode under the
    /// access secret, then require the declared class to be "access".
    /// For a token minted under the access secret the outcome is exact:
    /// its claims when unexpired and of the right class, `Expired` when
    /// past expiry, `WrongClass` otherwise. A token carrying any other
    /// class never verifies, whatever secret signed it.
    pub fn verify_access_token_at(&self, token: &str, now: i64) -> (r: Result<
        AccessTokenClaims,
        AuthError,
    >)
        requires
            self.wf(),
        ensures
            access_result_view(r) == self.access_verify_outcome(token@, now),
            forall|c: ClaimsView|
                token@ == #[trigger] jwt_of(self.access_secret@, c) && now < c.exp
                    && c.token_type == access_label() ==> r is Ok && r->Ok_0@ == access_of(c),
            forall|c: ClaimsView|
                token@ == #[trigger] jwt_of(self.access_secret@, c) && c.exp <= now ==> r == Err::<
                    AccessTokenClaims,
                    AuthError,
                >(AuthError::Expired),
            forall|c: ClaimsView|
                token@ == #[trigger] jwt_of(self.access_secret@, c) && now < c.exp
                    && c.token_type != access_label() ==> r == Err::<AccessTokenClaims, AuthError>(
                    AuthError::WrongClass,
                ),
            forall|s: Seq<char>, c: ClaimsView|
                token@ == #[trigger] jwt_of(s, c) && r is Ok ==> r->Ok_0@ == access_of(c) && now
                    < c.exp && c.token_type == access_label(),
            forall|s: Seq<char>, c: ClaimsView|
                token@ == #[trigger] jwt_of(s, c) && now < c.exp && c.token_type != access_label()
                    ==> (r == Err::<AccessTokenClaims, AuthError>(AuthError::Signature) || r
                    == Err::<AccessTokenClaims, AuthError>(AuthError::WrongClass)),
            forall|s: Seq<char>, c: ClaimsView|
                token@ == #[trigger] jwt_of(s, c) && c.exp <= now ==> (r == Err::<
                    AccessTokenClaims,
                    AuthError,
                >(AuthError::Expired) || r == Err::<AccessTokenClaims, AuthError>(
                    AuthError::Signature,
                )),
            r is Err ==> (r->Err_0 == AuthError::Signature || r->Err_0 == AuthError::Malformed
                || r->Err_0 == AuthError::Expired || r->Err_0 == AuthError::WrongClass),
    {
        let codec = TokenCodec { secret: self.access_secret.clone() };
        proof {
            assert(codec.secret@ == self.access_secret@);
        }
        let claims = match codec.decode(token, now) {
            Ok(c) => c,
            Err(e) => {
                return Err(e);
            },
        };
        let expected = access_type_string();
        if claims.token_type == expected {
            Ok(
                AccessTokenClaims {
                    uid: claims.uid,
                    email: claims.email,
                    iat: claims.iat,
                    exp: claims.exp,
                    token_type: claims.token_type,
                },
            )
        } else {
            Err(AuthError::WrongClass)
        }
    }

    /// Verify a refresh token at clock reading `now`: decode under the
    /// refresh secret, require the declared class to be "refresh", then
    /// require the rotation id to be present. For a token minted under the
    /// refresh secret the outcome is exact; a token carrying any other
    /// class never verifies, whatever secret signed it.
    pub fn verify_refresh_token_at(&self, token: &str, now: i64) -> (r: Result<
        RefreshTokenClaims,
        AuthError,
    >)
        requires
            self.wf(),
        ensures
            refresh_result_view(r) == self.refresh_verify_outcome(token@, now),
            forall|c: ClaimsView|
                token@ == #[trigger] jwt_of(self.refresh_secret@, c) && now < c.exp
                    && c.token_type == refresh_label() && c.jti is Some ==> r is Ok && r->Ok_0@
                    == refresh_of(c),
            forall|c: ClaimsView|
                token@ == #[trigger] jwt_of(self.refresh_secret@, c) && now < c.exp
                    && c.token_type == refresh_label() && c.jti is None ==> r == Err::<
                    RefreshTokenClaims,
                    AuthError,
                >(AuthError::Malformed),
            forall|c: ClaimsView|
                token@ == #[trigger] jwt_of(self.refresh_secret@, c) && c.exp <= now ==> r == Err::<
                    RefreshTokenClaims,
                    AuthError,
                >(AuthError::Expired),
            forall|c: ClaimsView|
                token@ == #[trigger] jwt_of(self.refresh_secret@, c) && now < c.exp
                    && c.token_type != refresh_label() ==> r == Err::<
                    RefreshTokenClaims,
                    AuthError,
                >(AuthError::WrongClass),
            forall|s: Seq<char>, c: ClaimsView|
                token@ == #[trigger] jwt_of(s, c) && r is Ok ==> r->Ok_0@ == refresh_of(c) && now
                    < c.exp && c.token_type == refresh_label() && c.jti is Some,
            forall|s: Seq<char>, c: ClaimsView|
                token@ == #[trigger] jwt_of(s, c) && now < c.exp && c.token_type != refresh_label()
                    ==> (r == Err::<RefreshTokenClaims, AuthError>(AuthError::Signature) || r
                    == Err::<RefreshTokenClaims, AuthError>(AuthError::WrongClass)),
            forall|s: Seq<char>, c: ClaimsView|
                token@ == #[trigger] jwt_of(s, c) && c.exp <= now ==> (r == Err::<
                    RefreshTokenClaims,
                    AuthError,
                >(AuthError::Expired) || r == Err::<RefreshTokenClaims, AuthError>(
                    AuthError::Signature,
                )),
            r is Err ==> (r->Err_0 == AuthError::Signature || r->Err_0 == AuthError::Malformed
                || r->Err_0 == AuthError::Expired || r->Err_0 == AuthError::WrongClass),
    {
        let codec = TokenCodec { secret: self.refresh_secret.clone() };
        proof {
            assert(codec.secret@ == self.refresh_secret@);
        }
        let claims = match codec.decode(token, now) {
            Ok(c) => c,
            Err(e) => {
                return Err(e);
            },
        };
        let expected = refresh_type_string();
        if claims.token_type == expected {
            match claims.jti {
                Some(jti) => Ok(
                    RefreshTokenClaims {
                        uid: claims.uid,
                        email: claims.email,
                        iat: claims.iat,
                        exp: claims.exp,
                        token_type: claims.token_type,
                        jti,
                    },
                ),
                None => Err(AuthError::Malformed),
            }
        } else {
            Err(AuthError::WrongClass)
        }
    }

    /// Rotate at clock reading `now`: verify the old refresh token, and on
    /// success mint one new refresh token (with a fresh rotation id) and
    /// one new access token for the same subject and email. A failing
    /// verification fails the whole call with the same error kind and
    /// issues nothing.
    pub fn rotate_refresh_token_at(&self, old_refresh_token: &str, now: i64) -> (r: Result<
        (String, String, String),
        AuthError,
    >)
        requires
            self.wf(),
        ensures
            self.refresh_verify_outcome(old_refresh_token@, now) matches Err(e) ==> r == Err::<
                (String, String, String),
                AuthError,
            >(e),
            r matches Ok(t) ==> self.rotation_mints(old_refresh_token@, now, t.0@, t.1@, t.2@),
            self.refresh_verify_outcome(old_refresh_token@, now) is Ok
                && self.access_expiry_representable(now) && self.refresh_expiry_representable(now)
                ==> r is Ok,
            forall|c: ClaimsView|
                old_refresh_token@ == #[trigger] jwt_of(self.refresh_secret@, c) && c.exp <= now
                    ==> r == Err::<(String, String, String), AuthError>(AuthError::Expired),
            forall|c: ClaimsView|
                old_refresh_token@ == #[trigger] jwt_of(self.refresh_secret@, c) && now < c.exp
                    && c.token_type != refresh_label() ==> r == Err::<
                    (String, String, String),
                    AuthError,
                >(AuthError::WrongClass),
            forall|c: ClaimsView|
                old_refresh_token@ == #[trigger] jwt_of(self.refresh_secret@, c) && now < c.exp
                    && c.token_type == refresh_label() && c.jti is None ==> r == Err::<
                    (String, String, String),
                    AuthError,
                >(AuthError::Malformed),
            forall|s: Seq<char>, c: ClaimsView|
                old_refresh_token@ == #[trigger] jwt_of(s, c) && now < c.exp && c.token_type
                    != refresh_label() ==> (r == Err::<(String, String, String), AuthError>(
                    AuthError::Signature,
                ) || r == Err::<(String, String, String), AuthError>(AuthError::WrongClass)),
            forall|s: Seq<char>, c: ClaimsView|
                old_refresh_token@ == #[trigger] jwt_of(s, c) && c.exp <= now ==> (r == Err::<
                    (String, String, String),
                    AuthError,
                >(AuthError::Expired) || r == Err::<(String, String, String), AuthError>(
                    AuthError::Signature,
                )),
            forall|c: ClaimsView|
                old_refresh_token@ == #[trigger] jwt_of(self.refresh_secret@, c) && now < c.exp
                    && c.token_type == refresh_label() && c.jti is Some
                    && self.access_expiry_representable(now) && self.refresh_expiry_representable(
                    now,
                ) ==> r is Ok,
            forall|s: Seq<char>, c: ClaimsView|
                old_refresh_token@ == #[trigger] jwt_of(s, c) && r is Ok ==> r->Ok_0.0@ == jwt_of(
                    self.access_secret@,
                    access_claims(
                        c.uid,
                        c.email,
                        now,
                        (now + self.access_lifetime_secs()) as i64,
                    ),
                ) && r->Ok_0.1@ == jwt_of(
                    self.refresh_secret@,
                    refresh_claims(
                        c.uid,
                        c.email,
                        now,
                        (now + self.refresh_lifetime_secs()) as i64,
                        r->Ok_0.2@,
                    ),
                ) && r->Ok_0.2@.len() == 36,
            r is Err ==> (r->Err_0 == AuthError::Signature || r->Err_0 == AuthError::Malformed
                || r->Err_0 == AuthError::Expired || r->Err_0 == AuthError::WrongClass || r->Err_0
                == AuthError::Config),
    {
        let old_claims = match self.verify_refresh_token_at(old_refresh_token, now) {
            Ok(c) => c,
            Err(e) => {
                return Err(e);
            },
        };
        let (new_refresh, new_jti) = match self.gen_refresh_token_at(
            old_claims.uid.as_str(),
            old_claims.email.as_str(),
            now,
        ) {
            Ok(p) => p,
            Err(e) => {
                return Err(e);
            },
        };
        let new_access = match self.gen_access_token_at(
            old_claims.uid.as_str(),
            old_claims.email.as_str(),
            now,
        ) {
            Ok(t) => t,
            Err(e) => {
                return Err(e);
            },
        };
        Ok((new_access, new_refresh, new_jti))
    }

    /// Issue an access token at the current wall-clock time. Whatever the
    /// clock read, a returned token is a well-formed access token for this
    /// subject and email with the configured lifetime.
    pub fn gen_access_token(&self, uid: &str, email: &str) -> (r: Result<String, AuthError>)
        requires
            self.wf(),
        ensures
            r matches Ok(t) ==> exists|now: i64|
                t@ == jwt_of(
                    self.access_secret@,
                    #[trigger] access_claims(
                        uid@,
                        email@,
                        now,
                        (now + self.access_lifetime_secs()) as i64,
                    ),
                ) && now + self.access_lifetime_secs() <= i64::MAX,
            r is Err ==> r->Err_0 == AuthError::Config,
    {
        let now = current_epoch_seconds();
        let r = self.gen_access_token_at(uid, email, now);
        proof {
            if r is Ok {
                assert(self.access_expiry_representable(now));
                assert(r->Ok_0@ == jwt_of(
                    self.access_secret@,
                    access_claims(uid@, email@, now, (now + self.access_lifetime_secs()) as i64),
                ));
            }
        }
        r
    }

    /// Issue a refresh token and its rotation id at the current wall-clock
    /// time.
    pub fn gen_refresh_token(&self, uid: &str, email: &str) -> (r: Result<
        (String, String),
        AuthError,
    >)
        requires
            self.wf(),
        ensures
            r matches Ok(p) ==> (exists|now: i64|
                p.0@ == jwt_of(
                    self.refresh_secret@,
                    #[trigger] refresh_claims(
                        uid@,
                        email@,
                        now,
                        (now + self.refresh_lifetime_secs()) as i64,
                        p.1@,
                    ),
                ) && now + self.refresh_lifetime_secs() <= i64::MAX) && p.1@.len() == 36,
            r is Err ==> r->Err_0 == AuthError::Config,
    {
        let now = current_epoch_seconds();
        let r = self.gen_refresh_token_at(uid, email, now);
        proof {
            if r is Ok {
                assert(self.refresh_expiry_representable(now));
                assert(r->Ok_0.0@ == jwt_of(
                    self.refresh_secret@,
                    refresh_claims(
                        uid@,
                        email@,
                        now,
                        (now + self.refresh_lifetime_secs()) as i64,
                        r->Ok_0.1@,
                    ),
                ));
            }
        }
        r
    }

    /// Verify an access token against the current wall-clock time.
    /// Whatever the clock read: a success returns exactly the claims the
    /// token embeds, and those declare class "access".
    pub fn verify_access_token(&self, token: &str) -> (r: Result<AccessTokenClaims, AuthError>)
        requires
            self.wf(),
        ensures
            exists|now: i64| #[trigger] self.access_verify_outcome(token@, now)
                == access_result_view(r),
            forall|s: Seq<char>, c: ClaimsView|
                token@ == #[trigger] jwt_of(s, c) && r is Ok ==> r->Ok_0@ == access_of(c)
                    && c.token_type == access_label(),
            r is Err ==> (r->Err_0 == AuthError::Signature || r->Err_0 == AuthError::Malformed
                || r->Err_0 == AuthError::Expired || r->Err_0 == AuthError::WrongClass),
    {
        let now = current_epoch_seconds();
        self.verify_access_token_at(token, now)
    }

    /// Verify a refresh token against the current wall-clock time.
    /// Whatever the clock read: a success returns exactly the claims the
    /// token embeds, and those declare class "refresh" and carry a
    /// rotation id.
    pub fn verify_refresh_token(&self, token: &str) -> (r: Result<RefreshTokenClaims, AuthError>)
        requires
            self.wf(),
        ensures
            exists|now: i64| #[trigger] self.refresh_verify_outcome(token@, now)
                == refresh_result_view(r),
            forall|s: Seq<char>, c: ClaimsView|
                token@ == #[trigger] jwt_of(s, c) && r is Ok ==> r->Ok_0@ == refresh_of(c)
                    && c.token_type == refresh_label() && c.jti is Some,
            r is Err ==> (r->Err_0 == AuthError::Signature || r->Err_0 == AuthError::Malformed
                || r->Err_0 == AuthError::Expired || r->Err_0 == AuthError::WrongClass),
    {
        let now = current_epoch_seconds();
        self.verify_refresh_token_at(token, now)
    }

    /// Rotate a refresh token at the current wall-clock time: the old
    /// token must verify as a refresh token; the call then returns a new
    /// access token, a new refresh token, and the new rotation id.
    pub fn rotate_refresh_token(&self, old_refresh_token: &str) -> (r: Result<
        (String, String, String),
        AuthError,
    >)
        requires
            self.wf(),
        ensures
            r matches Ok(t) ==> exists|now: i64|
                #[trigger] self.rotation_mints(old_refresh_token@, now, t.0@, t.1@, t.2@),
            r is Err ==> (r->Err_0 == AuthError::Signature || r->Err_0 == AuthError::Malformed
                || r->Err_0 == AuthError::Expired || r->Err_0 == AuthError::WrongClass || r->Err_0
                == AuthError::Config),
    {
        let now = current_epoch_seconds();
        let r = self.rotate_refresh_token_at(old_refresh_token, now);
        proof {
            if r is Ok {
                assert(self.rotation_mints(
                    old_refresh_token@,
                    now,
                    r->Ok_0.0@,
                    r->Ok_0.1@,
                    r->Ok_0.2@,
                ));
            }
        }
        r
    }
}

} // verus!
