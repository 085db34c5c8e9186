//! Per-browser session state: the CSRF token, the logged-in flag and the
//! read-once flash message.
use vstd::prelude::*;
use crate::text::{decimal, u64_decimal, same_text};

verus! {

/// A flash message delivered to the request that reads it.
pub struct MessageFlashes {
    pub messages: String,
}

/// What a browser's session holds.
pub struct Session {
    /// Issued once, on the first request, and never rotated.
    pub csrf_token: Option<String>,
    pub logged_in: bool,
    /// Set by one request, delivered to the next, then gone.
    pub messages: Option<String>,
}

/// Why a gated request is refused.
#[derive(PartialEq, Eq, Structural)]
pub enum Rejection {
    /// The session is not logged in.
    Unauthorized,
    /// The form's token is not the session's.
    InvalidCsrf,
}

/// Whether `given` is the session's CSRF token.
pub open spec fn token_matches(s: Session, given: Seq<char>) -> bool {
    s.csrf_token is Some && s.csrf_token->0@ == given
}

/// The verdict on a state-changing request.
pub open spec fn mutation_verdict(s: Session, given: Seq<char>) -> Result<(), Rejection> {
    if !s.logged_in {
        Err(Rejection::Unauthorized)
    } else if !token_matches(s, given) {
        Err(Rejection::InvalidCsrf)
    } else {
        Ok(())
    }
}

/// Relies on rand's `OsRng` through `Rng::gen::<u64>`: a number from the
/// operating system's secure source. Nothing is known of its value.
#[verifier::external_body]
fn os_random_u64() -> (r: u64) {
    rand::Rng::gen::<u64>(&mut rand::rngs::OsRng)
}

impl Session {
    /// A fresh, anonymous session.
    pub fn new() -> (r: Session)
        ensures
            r.csrf_token is None,
            !r.logged_in,
            r.messages is None,
    {
        Session { csrf_token: None, logged_in: false, messages: None }
    }

    /// The start of each request: issues the CSRF token, written as the
    /// decimal digits of `seed`, if the session has none, and hands out the
    /// pending flash message, which leaves the session.
    pub fn begin_request_with(&mut self, seed: u64) -> (r: Option<MessageFlashes>)
        ensures
            old(self).csrf_token is Some ==> final(self).csrf_token == old(self).csrf_token,
            old(self).csrf_token is None ==> final(self).csrf_token is Some
                && final(self).csrf_token->0@ == decimal(seed as nat),
            final(self).logged_in == old(self).logged_in,
            final(self).messages is None,
            r is Some <==> old(self).messages is Some,
            r is Some ==> r->0.messages@ == old(self).messages->0@,
    {
        if self.csrf_token.is_none() {
            self.csrf_token = Some(u64_decimal(seed));
        }
        match self.messages.take() {
            Some(m) => Some(MessageFlashes { messages: m }),
            None => None,
        }
    }

    /// The start of each request, with the token, when one is issued, drawn
    /// from the operating system's secure source.
    pub fn begin_request(&mut self) -> (r: Option<MessageFlashes>)
        ensures
            old(self).csrf_token is Some ==> final(self).csrf_token == old(self).csrf_token,
            final(self).csrf_token is Some,
            final(self).logged_in == old(self).logged_in,
            final(self).messages is None,
            r is Some <==> old(self).messages is Some,
            r is Some ==> r->0.messages@ == old(self).messages->0@,
    {
        let seed = if self.csrf_token.is_none() {
            os_random_u64()
        } else {
            0
        };
        self.begin_request_with(seed)
    }

    /// Whether `given` is this session's CSRF token.
    pub fn csrf_valid(&self, given: &str) -> (r: bool)
        ensures
            r == token_matches(*self, given@),
    {
        match &self.csrf_token {
            Some(t) => same_text(given, t),
            None => false,
        }
    }

    /// Admits only a logged-in session.
    pub fn require_login(&self) -> (r: Result<(), Rejection>)
        ensures
            r is Ok <==> self.logged_in,
            r is Err ==> r->Err_0 == Rejection::Unauthorized,
    {
        if self.logged_in {
            Ok(())
        } else {
            Err(Rejection::Unauthorized)
        }
    }

    /// Admits a state-changing request: logged in, and with the session's
    /// own CSRF token.
    pub fn authorize_mutation(&self, given: &str) -> (r: Result<(), Rejection>)
        ensures
            r == mutation_verdict(*self, given@),
    {
        if !self.logged_in {
            Err(Rejection::Unauthorized)
        } else if !self.csrf_valid(given) {
            Err(Rejection::InvalidCsrf)
        } else {
            Ok(())
        }
    }

    /// Leaves the administrative state.
    pub fn logout(&mut self)
        ensures
            !final(self).logged_in,
            final(self).csrf_token == old(self).csrf_token,
            final(self).messages == old(self).messages,
    {
        self.logged_in = false;
    }
}

} // verus!
