use vstd::prelude::*;
use crate::error::Error;

verus! {

/// The expected name/value pair of the magic-cookie identity check.
///
/// Constructed once from process configuration and never mutated; the
/// comparison against the host-supplied environment is exact and
/// case-sensitive.
#[derive(Debug)]
pub struct MagicCookie {
    /// The name of the environment variable the host must set.
    pub name: String,
    /// The exact value that variable must hold.
    pub value: String,
}

/// Whether the host-supplied environment value matches the configured
/// cookie: it must be present and equal the expected value exactly.
pub open spec fn cookie_matches(cookie: MagicCookie, env_value: Option<Seq<char>>) -> bool {
    env_value == Some(cookie.value@)
}

/// The view of the environment lookup's outcome.
pub open spec fn spec_env_value(env_value: Option<&String>) -> Option<Seq<char>> {
    match env_value {
        Some(v) => Some(v@),
        None => None,
    }
}

/// Checks the magic-cookie identity of the host.
///
/// `env_value` is what the embedding process read from the environment
/// variable named `cookie.name` (`None` when the variable is absent).
/// Succeeds exactly when that value is present and equals
/// `cookie.value`; any other value, or absence, is a permanent mismatch
/// for the process lifetime.
pub fn validate(cookie: &MagicCookie, env_value: Option<&String>) -> (r: Result<(), Error>)
    ensures
        r is Ok <==> cookie_matches(*cookie, spec_env_value(env_value)),
        r matches Err(e) ==> e is GRPCHandshakeMagicCookieValueMismatch,
{
    match env_value {
        Some(v) => {
            if (*v).eq(&cookie.value) {
                Ok(())
            } else {
                Err(Error::GRPCHandshakeMagicCookieValueMismatch)
            }
        },
        None => Err(Error::GRPCHandshakeMagicCookieValueMismatch),
    }
}

} // verus!
