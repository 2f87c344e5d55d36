//! The authentication state and its transitions.
//!
//! The state is a single boolean, set only by recording the outcome of a
//! login or logout operation. The transport performs the HTTP calls and
//! hands the observed plain facts (how many session cookies came back;
//! whether the logout call succeeded) to these functions, which decide the
//! new state and the typed result.

use vstd::prelude::*;

use crate::error::WattpadError;

verus! {

/// The client's authentication state: a single flag, read when selections
/// and endpoints are gated, written only by login and logout.
pub struct AuthState {
    /// Whether the client is currently authenticated.
    pub authenticated: bool,
}

impl AuthState {
    /// A fresh, unauthenticated state.
    pub fn new() -> (r: Self)
        ensures
            !r.authenticated,
    {
        AuthState { authenticated: false }
    }

    /// Reads the flag.
    pub fn is_authenticated(&self) -> (r: bool)
        ensures
            r == self.authenticated,
    {
        self.authenticated
    }

    /// Records the outcome of a login call from the number of
    /// session-establishing cookies the response carried: at least one cookie
    /// means success and an authenticated state; none means failure and an
    /// unauthenticated state, whatever the state was before.
    pub fn record_login(&mut self, cookie_count: usize) -> (r: Result<(), WattpadError>)
        ensures
            final(self).authenticated == (cookie_count > 0),
            r is Ok <==> cookie_count > 0,
            r matches Err(e) ==> e is AuthenticationFailed,
    {
        if cookie_count == 0 {
            self.authenticated = false;
            Err(WattpadError::AuthenticationFailed)
        } else {
            self.authenticated = true;
            Ok(())
        }
    }

    /// Records the outcome of a logout call. The state becomes
    /// unauthenticated whether or not the call itself succeeded; a transport
    /// failure is still reported, carrying the transport's message.
    pub fn record_logout(&mut self, transport: Result<(), String>) -> (r: Result<
        (),
        WattpadError,
    >)
        ensures
            !final(self).authenticated,
            r is Ok <==> transport is Ok,
            transport matches Err(m) ==> (r matches Err(e) && e matches WattpadError::RequestError(
                p,
            ) && p@ == m@),
    {
        self.authenticated = false;
        match transport {
            Ok(_) => Ok(()),
            Err(m) => Err(WattpadError::RequestError(m)),
        }
    }
}

} // verus!
