//! What a session token says of its bearer.

use crate::user::Model;
use vstd::prelude::*;

verus! {

/// For how many seconds a token is good after it was made.
pub const TOKEN_EXPIRATION: u64 = 300;

/// Why a token was not accepted.
#[derive(Clone, Debug, PartialEq, Eq)]
pub enum AuthenticationError {
    /// The token could not be read; the text says why.
    Decoding(String),
    /// The token was good once and is past its time.
    Expired,
}

impl AuthenticationError {
    /// The reason for turning a token down, from what reading it gave: whether
    /// it had merely expired, and the reader's report.
    pub fn of_failure(expired: bool, report: String) -> (error: AuthenticationError)
        ensures
            expired ==> error == AuthenticationError::Expired,
            !expired ==> error == AuthenticationError::Decoding(report),
    {
        if expired {
            AuthenticationError::Expired
        } else {
            AuthenticationError::Decoding(report)
        }
    }
}

/// The claims of a token: who the bearer is, and until when the token is
/// good, in seconds since the epoch.
#[derive(Clone, Debug, PartialEq, Eq)]
pub struct Claims {
    pub name: String,
    pub user: Model,
    pub exp: usize,
}

impl Claims {
    /// The claims for a user, not yet good for any time.
    pub fn from_user(user: &Model) -> (claims: Claims)
        ensures
            claims.name == user.uname,
            claims.user == *user,
            claims.exp == 0,
    {
        Claims {
            name: user.uname.clone(),
            user: Model {
                uno: user.uno,
                uname: user.uname.clone(),
                upass: user.upass.clone(),
                utype: user.utype,
                uemail: user.uemail.clone(),
                uphone: user.uphone.clone(),
            },
            exp: 0,
        }
    }

    /// These claims made good from `now`, in seconds since the epoch, for
    /// the time a token lasts; nothing where the end cannot be written down.
    pub fn expiring(self, now: u64) -> (claims: Option<Claims>)
        ensures
            now + TOKEN_EXPIRATION <= usize::MAX ==> claims == Some(
                Claims { exp: (now + TOKEN_EXPIRATION) as usize, ..self },
            ),
            now + TOKEN_EXPIRATION > usize::MAX ==> claims is None,
    {
        if now > usize::MAX as u64 || usize::MAX as u64 - now < TOKEN_EXPIRATION {
            None
        } else {
            Some(Claims { exp: (now + TOKEN_EXPIRATION) as usize, ..self })
        }
    }
}

} // verus!
