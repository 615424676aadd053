use vstd::prelude::*;

verus! {

/// A single authenticated credential context. One value is created before
/// any worker starts and is then shared read-only for the whole run; no
/// worker ever mutates it.
pub struct Session {
    /// The user the run is authenticated as.
    pub user: String,
}

impl Session {
    /// Wraps the name of the user a login (or a still-valid stored token)
    /// authenticated.
    pub fn new(user: String) -> (s: Session)
        ensures
            s.user == user,
    {
        Session { user }
    }
}

/// The check the startup path makes on a stored token before trusting it:
/// the token's user must equal the configured user *and* the token must
/// still be valid. Validity alone is never trusted; a token for another
/// user forces a fresh login.
pub fn session_matches(current_user: &String, valid: bool, expected_user: &String) -> (r: bool)
    ensures
        r == (current_user@ == expected_user@ && valid),
{
    let same: bool = *current_user == *expected_user;
    same && valid
}

} // verus!
