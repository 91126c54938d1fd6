//! The auth facade: the one entry surface external callers use — issue a
//! token pair, verify a token of an expected class, rotate a refresh
//! token, hash a password, check a password. Each call maps to one
//! token-manager or credential-hasher operation; the facade adds no
//! invariant of its own, only argument marshaling.
use vstd::prelude::*;

use crate::claims::access_claims;
use crate::claims::access_label;
use crate::claims::refresh_claims;
use crate::claims::refresh_label;
use crate::claims::AccessClaimsView;
use crate::claims::ClaimsView;
use crate::claims::RefreshClaimsView;
use crate::claims::TokenClass;
use crate::codec::jwt_of;
use crate::errors::AuthError;
use crate::hasher;
use crate::manager::JwtManager;

verus! {

/// The pair a successful issuance hands a caller: one access and one
/// refresh token, and the access token's expiry in epoch seconds.
#[derive(Debug, Clone)]
pub struct TokenResponse {
    pub access_token: String,
    pub refresh_token: String,
    pub expiry: i64,
}

/// The identity a verified token establishes.
#[derive(Debug, Clone)]
pub struct AuthContext {
    pub uid: String,
    pub email: String,
}

/// The identity the facade returns agrees with one access verification
/// outcome: the same error, or the subject and email of its claims.
pub open spec fn context_agrees_access(
    r: Result<AuthContext, AuthError>,
    outcome: Result<AccessClaimsView, AuthError>,
) -> bool {
    match (r, outcome) {
        (Ok(a), Ok(c)) => a.uid@ == c.uid && a.email@ == c.email,
        (Err(e), Err(f)) => e == f,
        _ => false,
    }
}

/// As [`context_agrees_access`], for a refresh verification outcome.
pub open spec fn context_agrees_refresh(
    r: Result<AuthContext, AuthError>,
    outcome: Result<RefreshClaimsView, AuthError>,
) -> bool {
    match (r, outcome) {
        (Ok(a), Ok(c)) => a.uid@ == c.uid && a.email@ == c.email,
        (Err(e), Err(f)) => e == f,
        _ => false,
    }
}

/// The facade owns the one process-wide manager instance; password
/// operations are stateless.
pub struct AuthFacade {
    pub manager: JwtManager,
}

impl AuthFacade {
    /// The facade is as well formed as its manager.
    pub open spec fn wf(&self) -> bool {
        self.manager.wf()
    }

    /// Wrap an already-constructed manager.
    pub fn new(manager: JwtManager) -> (r: AuthFacade)
        ensures
            r.manager == manager,
    {
        AuthFacade { manager }
    }

    /// Issue one access and one refresh token for a subject at clock
    /// reading `now`, with the rotation id of the refresh token. The
    /// response's expiry is the access token's.
    pub fn issue_pair_at(&self, uid: &str, email: &str, now: i64) -> (r: Result<
        (TokenResponse, String),
        AuthError,
    >)
        requires
            self.wf(),
        ensures
            self.manager.access_expiry_representable(now)
                && self.manager.refresh_expiry_representable(now) ==> (r matches Ok(p)
                && p.0.access_token@ == jwt_of(
                self.manager.access_secret@,
                access_claims(
                    uid@,
                    email@,
                    now,
                    (now + self.manager.access_lifetime_secs()) as i64,
                ),
            ) && p.0.refresh_token@ == jwt_of(
                self.manager.refresh_secret@,
                refresh_claims(
                    uid@,
                    email@,
                    now,
                    (now + self.manager.refresh_lifetime_secs()) as i64,
                    p.1@,
                ),
            ) && p.0.expiry as int == now + self.manager.access_lifetime_secs() && p.1@.len()
                == 36),
            r matches Ok(p) ==> p.0.access_token@ == jwt_of(
                self.manager.access_secret@,
                access_claims(
                    uid@,
                    email@,
                    now,
                    (now + self.manager.access_lifetime_secs()) as i64,
                ),
            ) && p.0.refresh_token@ == jwt_of(
                self.manager.refresh_secret@,
                refresh_claims(
                    uid@,
                    email@,
                    now,
                    (now + self.manager.refresh_lifetime_secs()) as i64,
                    p.1@,
                ),
            ) && p.0.expiry as int == now + self.manager.access_lifetime_secs() && p.1@.len() == 36
                && self.manager.access_expiry_representable(now)
                && self.manager.refresh_expiry_representable(now),
            r is Err ==> r->Err_0 == AuthError::Config,
    {
        let access_token = match self.manager.gen_access_token_at(uid, email, now) {
            Ok(t) => t,
            Err(e) => {
                return Err(e);
            },
        };
        let (refresh_token, jti) = match self.manager.gen_refresh_token_at(uid, email, now) {
            Ok(p) => p,
            Err(e) => {
                return Err(e);
            },
        };
        let secs = match self.manager.access_exp_hours.checked_mul(3600) {
            Some(s) => s,
            None => {
                return Err(AuthError::Config);
            },
        };
        let expiry = match now.checked_add(secs) {
            Some(e) => e,
            None => {
                return Err(AuthError::Config);
            },
        };
        Ok((TokenResponse { access_token, refresh_token, expiry }, jti))
    }

    /// Issue a pair at the current wall-clock time.
    pub fn issue_pair(&self, uid: &str, email: &str) -> (r: Result<
        (TokenResponse, String),
        AuthError,
    >)
        requires
            self.wf(),
        ensures
            r matches Ok(p) ==> exists|now: i64|
                p.0.access_token@ == jwt_of(
                    self.manager.access_secret@,
                    #[trigger] access_claims(
                        uid@,
                        email@,
                        now,
                        (now + self.manager.access_lifetime_secs()) as i64,
                    ),
                ) && p.0.refresh_token@ == jwt_of(
                    self.manager.refresh_secret@,
                    refresh_claims(
                        uid@,
                        email@,
                        now,
                        (now + self.manager.refresh_lifetime_secs()) as i64,
                        p.1@,
                    ),
                ) && p.0.expiry as int == now + self.manager.access_lifetime_secs() && now
                    + self.manager.access_lifetime_secs() <= i64::MAX && now
                    + self.manager.refresh_lifetime_secs() <= i64::MAX,
            r is Err ==> r->Err_0 == AuthError::Config,
    {
        let now = crate::manager::current_epoch_seconds();
        let r = self.issue_pair_at(uid, email, now);
        proof {
            if r is Ok {
                assert(r->Ok_0.0.access_token@ == jwt_of(
                    self.manager.access_secret@,
                    access_claims(
                        uid@,
                        email@,
                        now,
                        (now + self.manager.access_lifetime_secs()) as i64,
                    ),
                ));
            }
        }
        r
    }

    /// Verify a token of the expected class at clock reading `now`,
    /// returning the identity it establishes. A token minted for the other
    /// class never passes, whatever secret signed it.
    pub fn verify_at(&self, token: &str, expected_class: TokenClass, now: i64) -> (r: Result<
        AuthContext,
        AuthError,
    >)
        requires
            self.wf(),
        ensures
            expected_class is Access ==> context_agrees_access(
                r,
                self.manager.access_verify_outcome(token@, now),
            ),
            expected_class is Refresh ==> context_agrees_refresh(
                r,
                self.manager.refresh_verify_outcome(token@, now),
            ),
            forall|c: ClaimsView|
                token@ == #[trigger] jwt_of(self.class_secret(expected_class), c) && now < c.exp
                    && c.token_type == Self::class_label(expected_class) && (expected_class
                    is Access || c.jti is Some) ==> (r matches Ok(a) && a.uid@ == c.uid && a.email@
                    == c.email),
            forall|c: ClaimsView|
                token@ == #[trigger] jwt_of(self.class_secret(expected_class), c) && c.exp <= now
                    ==> r == Err::<AuthContext, AuthError>(AuthError::Expired),
            forall|c: ClaimsView|
                token@ == #[trigger] jwt_of(self.class_secret(expected_class), c) && now < c.exp
                    && c.token_type != Self::class_label(expected_class) ==> r == Err::<
                    AuthContext,
                    AuthError,
                >(AuthError::WrongClass),
            forall|s: Seq<char>, c: ClaimsView|
                token@ == #[trigger] jwt_of(s, c) && r is Ok ==> r->Ok_0.uid@ == c.uid
                    && r->Ok_0.email@ == c.email && now < c.exp && c.token_type
                    == Self::class_label(expected_class),
            r is Err ==> (r->Err_0 == AuthError::Signature || r->Err_0 == AuthError::Malformed
                || r->Err_0 == AuthError::Expired || r->Err_0 == AuthError::WrongClass),
    {
        match expected_class {
            TokenClass::Access => {
                match self.manager.verify_access_token_at(token, now) {
                    Ok(claims) => Ok(AuthContext { uid: claims.uid, email: claims.email }),
                    Err(e) => Err(e),
                }
            },
            TokenClass::Refresh => {
                match self.manager.verify_refresh_token_at(token, now) {
                    Ok(claims) => Ok(AuthContext { uid: claims.uid, email: claims.email }),
                    Err(e) => Err(e),
                }
            },
        }
    }

    /// The secret that signs the given class.
    pub open spec fn class_secret(&self, class: TokenClass) -> Seq<char> {
        match class {
            TokenClass::Access => self.manager.access_secret@,
            TokenClass::Refresh => self.manager.refresh_secret@,
        }
    }

    /// The class label a token of the given class declares.
    pub open spec fn class_label(class: TokenClass) -> Seq<char> {
        match class {
            TokenClass::Access => access_label(),
            TokenClass::Refresh => refresh_label(),
        }
    }

    /// Verify a token of the expected class at the current wall-clock
    /// time.
    pub fn verify(&self, token: &str, expected_class: TokenClass) -> (r: Result<
        AuthContext,
        AuthError,
    >)
        requires
            self.wf(),
        ensures
            expected_class is Access ==> exists|now: i64|
                context_agrees_access(
                    r,
                    #[trigger] self.manager.access_verify_outcome(token@, now),
                ),
            expected_class is Refresh ==> exists|now: i64|
                context_agrees_refresh(
                    r,
                    #[trigger] self.manager.refresh_verify_outcome(token@, now),
                ),
            forall|s: Seq<char>, c: ClaimsView|
                token@ == #[trigger] jwt_of(s, c) && r is Ok ==> r->Ok_0.uid@ == c.uid
                    && r->Ok_0.email@ == c.email && c.token_type == Self::class_label(
                    expected_class,
                ),
            r is Err ==> (r->Err_0 == AuthError::Signature || r->Err_0 == AuthError::Malformed
                || r->Err_0 == AuthError::Expired || r->Err_0 == AuthError::WrongClass),
    {
        let now = crate::manager::current_epoch_seconds();
        self.verify_at(token, expected_class, now)
    }

    /// Rotate a refresh token at clock reading `now`: the forwarded
    /// outcome of the manager's rotation, marshaled into a token response
    /// and the new rotation id.
    pub fn rotate_at(&self, refresh_token: &str, now: i64) -> (r: Result<
        (TokenResponse, String),
        AuthError,
    >)
        requires
            self.wf(),
        ensures
            self.manager.refresh_verify_outcome(refresh_token@, now) matches Err(e) ==> r == Err::<
                (TokenResponse, String),
                AuthError,
            >(e),
            r matches Ok(p) ==> self.manager.rotation_mints(
                refresh_token@,
                now,
                p.0.access_token@,
                p.0.refresh_token@,
                p.1@,
            ) && p.0.expiry as int == now + self.manager.access_lifetime_secs(),
            self.manager.refresh_verify_outcome(refresh_token@, now) is Ok
                && self.manager.access_expiry_representable(now)
                && self.manager.refresh_expiry_representable(now) ==> r is Ok,
            forall|c: ClaimsView|
                refresh_token@ == #[trigger] jwt_of(self.manager.refresh_secret@, c) && c.exp <= now
                    ==> r == Err::<(TokenResponse, String), AuthError>(AuthError::Expired),
            forall|c: ClaimsView|
                refresh_token@ == #[trigger] jwt_of(self.manager.refresh_secret@, c) && now < c.exp
                    && c.token_type != refresh_label() ==> r == Err::<
                    (TokenResponse, String),
                    AuthError,
                >(AuthError::WrongClass),
            forall|s: Seq<char>, c: ClaimsView|
                refresh_token@ == #[trigger] jwt_of(s, c) && c.exp <= now ==> (r == Err::<
                    (TokenResponse, String),
                    AuthError,
                >(AuthError::Expired) || r == Err::<(TokenResponse, String), AuthError>(
                    AuthError::Signature,
                )),
            forall|c: ClaimsView|
                refresh_token@ == #[trigger] jwt_of(self.manager.refresh_secret@, c) && now < c.exp
                    && c.token_type == refresh_label() && c.jti is Some
                    && self.manager.access_expiry_representable(now)
                    && self.manager.refresh_expiry_representable(now) ==> r is Ok,
            forall|s: Seq<char>, c: ClaimsView|
                refresh_token@ == #[trigger] jwt_of(s, c) && r is Ok ==> r->Ok_0.0.access_token@
                    == jwt_of(
                    self.manager.access_secret@,
                    access_claims(
                        c.uid,
                        c.email,
                        now,
                        (now + self.manager.access_lifetime_secs()) as i64,
                    ),
                ) && r->Ok_0.0.refresh_token@ == jwt_of(
                    self.manager.refresh_secret@,
                    refresh_claims(
                        c.uid,
                        c.email,
                        now,
                        (now + self.manager.refresh_lifetime_secs()) as i64,
                        r->Ok_0.1@,
                    ),
                ) && r->Ok_0.1@.len() == 36,
            r is Err ==> (r->Err_0 == AuthError::Signature || r->Err_0 == AuthError::Malformed
                || r->Err_0 == AuthError::Expired || r->Err_0 == AuthError::WrongClass || r->Err_0
                == AuthError::Config),
    {
        let (new_access, new_refresh, new_jti) = match self.manager.rotate_refresh_token_at(
            refresh_token,
            now,
        ) {
            Ok(t) => t,
            Err(e) => {
                return Err(e);
            },
        };
        let secs = match self.manager.access_exp_hours.checked_mul(3600) {
            Some(s) => s,
            None => {
                return Err(AuthError::Config);
            },
        };
        let expiry = match now.checked_add(secs) {
            Some(e) => e,
            None => {
                return Err(AuthError::Config);
            },
        };
        Ok(
            (
                TokenResponse {
                    access_token: new_access,
                    refresh_token: new_refresh,
                    expiry,
                },
                new_jti,
            ),
        )
    }

    /// Rotate a refresh token at the current wall-clock time. Whatever the
    /// clock read, a success is a fresh mint for the old token's subject
    /// and email at that instant, with the response's expiry set to the
    /// new access token's.
    pub fn rotate(&self, refresh_token: &str) -> (r: Result<(TokenResponse, String), AuthError>)
        requires
            self.wf(),
        ensures
            r matches Ok(p) ==> exists|now: i64|
                #[trigger] self.manager.rotation_mints(
                    refresh_token@,
                    now,
                    p.0.access_token@,
                    p.0.refresh_token@,
                    p.1@,
                ) && p.0.expiry as int == now + self.manager.access_lifetime_secs(),
            r is Err ==> (r->Err_0 == AuthError::Signature || r->Err_0 == AuthError::Malformed
                || r->Err_0 == AuthError::Expired || r->Err_0 == AuthError::WrongClass || r->Err_0
                == AuthError::Config),
    {
        let now = crate::manager::current_epoch_seconds();
        let r = self.rotate_at(refresh_token, now);
        proof {
            if r is Ok {
                assert(self.manager.rotation_mints(
                    refresh_token@,
                    now,
                    r->Ok_0.0.access_token@,
                    r->Ok_0.0.refresh_token@,
                    r->Ok_0.1@,
                ));
            }
        }
        r
    }

    /// Hash a plaintext password; see [`hasher::hash_password`].
    pub fn hash_password(&self, password: &str) -> (r: Result<String, AuthError>)
        ensures
            password@.len() == 0 ==> r == Err::<String, AuthError>(AuthError::Hashing),
            password@.len() > 0 && hasher::password_len_ok(password@) ==> r is Ok,
            r matches Ok(h) ==> password@.len() > 0 && hasher::is_hash_of(password@, h@),
            r is Err ==> r->Err_0 == AuthError::Hashing,
    {
        hasher::hash_password(password)
    }

    /// Check a plaintext against a stored credential; see
    /// [`hasher::check_password`].
    pub fn check_password(&self, password: &str, credential: &str) -> (r: Result<bool, AuthError>)
        ensures
            hasher::is_hash_of(password@, credential@) ==> r == Ok::<bool, AuthError>(true),
            r matches Ok(b) ==> hasher::argon2_verify_of(password@, credential@) == Some(b),
            hasher::phc_parses(credential@) && hasher::argon2_verify_of(password@, credential@)
                is Some ==> r is Ok,
            !hasher::phc_parses(credential@) ==> r == Err::<bool, AuthError>(AuthError::Hashing),
            r is Err ==> r->Err_0 == AuthError::Hashing,
    {
        hasher::check_password(password, credential)
    }
}

} // verus!
