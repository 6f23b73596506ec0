//! Authenticating a knock on a hyperlane by a token.
use vstd::prelude::*;
use crate::error::MsgErr;
use crate::point::Point;

verus! {

/// An authenticator that admits knocks carrying one token, for one agent.
pub struct TokenAuthenticator<A> {
    pub token: String,
    pub agent: A,
}

impl<A> TokenAuthenticator<A> {
    pub fn new(agent: A, token: String) -> (r: Self)
        ensures
            r.agent == agent,
            r.token == token,
    {
        Self { agent, token }
    }

    /// The remote point of the hyperway a knock is admitted to, where its authentication is a
    /// token (`given`, `None` where it is something else) equal to this authenticator's; the
    /// hyperway is this authenticator's agent's. A knock with another token, or with no token,
    /// is forbidden; an admitted knock that selects no remote point is refused.
    pub fn auth(&self, given: Option<&str>, remote: Option<Point>) -> (r: Result<Point, MsgErr>)
        ensures
            match given {
                Some(t) if t@ == self.token@ => match remote {
                    Some(p) => r matches Ok(q) && q == p,
                    None => r matches Err(e) && e.is_status(
                        500,
                        "expected a remote entry selection"@,
                    ),
                },
                _ => r matches Err(e) && e.is_status(403, "Forbidden"@),
            },
    {
        match given {
            Some(t) => {
                if crate::text::str_eq(t, self.token.as_str()) {
                    match remote {
                        Some(p) => Ok(p),
                        None => Err(MsgErr::from_500("expected a remote entry selection")),
                    }
                } else {
                    Err(MsgErr::forbidden())
                }
            },
            None => Err(MsgErr::forbidden()),
        }
    }
}

} // verus!
