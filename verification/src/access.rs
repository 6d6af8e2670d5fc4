//! Access control: classifying a secret path segment into User or Admin
//! scope by equality against two configured secret tokens.

use vstd::prelude::*;

use crate::text::str_eq;

verus! {

/// The two secret tokens, loaded once at process start and immutable
/// afterwards. They are bearer credentials of weak strength: anyone who
/// learns a token holds its scope.
pub struct Secrets {
    pub user: String,
    pub admin: String,
}

/// The scope granted to a request whose path segment matched a secret.
#[derive(Clone, Copy, Debug, PartialEq, Eq, Structural)]
pub enum SecretKey {
    User,
    Admin,
}

/// The path segment matched neither secret; the request is refused before
/// it reaches any handler.
#[derive(Clone, Copy, Debug, PartialEq, Eq, Structural)]
pub struct InvalidKey;

impl SecretKey {
    /// Classify a path segment: the user secret grants User scope, the
    /// admin secret Admin scope (the user secret wins where the two
    /// secrets coincide), anything else is refused.
    pub fn from_param(param: &str, secrets: &Secrets) -> (r: Result<SecretKey, InvalidKey>)
        ensures
            param@ == secrets.user@ ==> (r matches Ok(k) && k is User),
            param@ != secrets.user@ && param@ == secrets.admin@ ==> (r matches Ok(k) && k is Admin),
            param@ != secrets.user@ && param@ != secrets.admin@ ==> r is Err,
    {
        if str_eq(param, secrets.user.as_str()) {
            Ok(SecretKey::User)
        } else if str_eq(param, secrets.admin.as_str()) {
            Ok(SecretKey::Admin)
        } else {
            Err(InvalidKey)
        }
    }
}

} // verus!
