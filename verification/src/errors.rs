//! Failures of the library's operations and the response that reports them.

use vstd::prelude::*;
use vstd::string::StringExecFns;

verus! {

/// Why an operation did not go through.
#[derive(Clone, Debug, PartialEq, Eq)]
pub enum MXFError {
    /// The storage layer failed; the text is its report.
    DatabaseError(String),
    /// A session token could not be made or read; the text is the report.
    JWTError(String),
    /// No user goes by this name.
    UserNotFound(String),
    /// The text names no kind of user.
    InvalidUserType(String),
    WrongPassword,
    /// The name is taken.
    UserAlreadyExists(String),
    /// The acting user does not own what the operation is about.
    NotLandlore(u32),
    NotAdmin,
    /// The listing has a confirmed lease.
    HouseUnavailable(u32),
    CacheError,
    UnknownError(String),
    /// Pages are counted from one.
    InvalidPage(u64),
    /// A filter's bucket index lies past the last choice of its form.
    InvalidBucket(usize),
}

impl MXFError {
    /// The message of this failure, as a sequence of characters.
    pub open spec fn spec_message(self) -> Seq<char> {
        match self {
            MXFError::DatabaseError(_) => "database error"@,
            MXFError::JWTError(_) => "jwt error"@,
            MXFError::UserNotFound(name) => "user not found: "@ + name@,
            MXFError::InvalidUserType(kind) => "invalid user type: "@ + kind@,
            MXFError::WrongPassword => "wrong password"@,
            MXFError::UserAlreadyExists(name) => "user already exists: "@ + name@,
            MXFError::NotLandlore(_) => "user is not authorized to operate"@,
            MXFError::NotAdmin => "user is not admin"@,
            MXFError::HouseUnavailable(_) => "house unavailable"@,
            MXFError::CacheError => "cache error"@,
            MXFError::UnknownError(detail) => "unknown error: "@ + detail@,
            MXFError::InvalidPage(_) => "invalid page number"@,
            MXFError::InvalidBucket(_) => "invalid filter bucket index"@,
        }
    }

    /// The message shown to the user for this failure.
    pub fn message(&self) -> (text: String)
        ensures
            text@ == self.spec_message(),
    {
        match self {
            MXFError::DatabaseError(_) => String::from_str("database error"),
            MXFError::JWTError(_) => String::from_str("jwt error"),
            MXFError::UserNotFound(name) => String::from_str("user not found: ").concat(
                name.as_str(),
            ),
            MXFError::InvalidUserType(kind) => String::from_str("invalid user type: ").concat(
                kind.as_str(),
            ),
            MXFError::WrongPassword => String::from_str("wrong password"),
            MXFError::UserAlreadyExists(name) => String::from_str("user already exists: ").concat(
                name.as_str(),
            ),
            MXFError::NotLandlore(_) => String::from_str("user is not authorized to operate"),
            MXFError::NotAdmin => String::from_str("user is not admin"),
            MXFError::HouseUnavailable(_) => String::from_str("house unavailable"),
            MXFError::CacheError => String::from_str("cache error"),
            MXFError::UnknownError(detail) => String::from_str("unknown error: ").concat(
                detail.as_str(),
            ),
            MXFError::InvalidPage(_) => String::from_str("invalid page number"),
            MXFError::InvalidBucket(_) => String::from_str("invalid filter bucket index"),
        }
    }

    /// The response that reports this failure to the client.
    pub fn to_json(&self) -> (response: JieguoResponse)
        ensures
            !response.jieguo,
            response.reason matches Some(text) && text@ == self.spec_message(),
    {
        JieguoResponse { jieguo: false, reason: Some(self.message()) }
    }
}

/// What the client is told of an operation: whether it went through, and if
/// not, why.
#[derive(Clone, Debug, PartialEq, Eq)]
pub struct JieguoResponse {
    pub jieguo: bool,
    pub reason: Option<String>,
}

impl JieguoResponse {
    /// The response to an operation that went through.
    pub fn success_json() -> (response: JieguoResponse)
        ensures
            response.jieguo,
            response.reason is None,
    {
        JieguoResponse { jieguo: true, reason: None }
    }
}

} // verus!
