//! The closed set of failure kinds this subsystem reports, so that callers
//! branch on a kind rather than parse a message.
use vstd::prelude::*;

verus! {

/// Every failure a caller can see, by kind. `Config` is construction-time
/// and fatal to startup; the others are ordinary returned failures.
#[derive(Clone, Copy, Debug, PartialEq, Eq, Structural)]
pub enum AuthError {
    /// A secret is absent or empty, the two secrets coincide, a lifetime
    /// setting is not a positive integer, or an expiry would leave the
    /// representable range of epoch seconds.
    Config,
    /// Password hashing failed, the password was empty, or a stored
    /// credential is malformed; distinct from a plain "wrong password".
    Hashing,
    /// A token is structurally invalid or lacks a required claim.
    Malformed,
    /// A token's signature does not match its payload under the expected
    /// secret.
    Signature,
    /// A token is well formed and correctly signed but past its expiry.
    Expired,
    /// A token is well formed and correctly signed but declares the other
    /// token class than the verification call expects.
    WrongClass,
}

} // verus!
