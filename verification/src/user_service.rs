//! The rules of logging in and registering.

use crate::errors::MXFError;
use crate::session_data::user_type_named;
use crate::session_data::LoginData;
use crate::session_data::RegisterData;
use crate::user::Model;
use vstd::prelude::*;
use vstd::string::StringExecFns;

verus! {

/// The number for the next user, given the highest number in use: one more,
/// and one for the first user. There is none once the numbers are used up.
pub open spec fn next_user_number(last: Option<u32>) -> Option<u32> {
    match last {
        None => Some(1u32),
        Some(n) => if n < u32::MAX {
            Some((n + 1) as u32)
        } else {
            None
        },
    }
}

pub struct UserService;

impl UserService {
    pub fn init() -> (service: Self) {
        UserService {  }
    }

    /// Lets the user in whom the store found under the name, if the password
    /// fits.
    pub fn login(&self, user: Model, login_data: &LoginData<'_>) -> (r: Result<Model, MXFError>)
        ensures
            login_data.password@ == user.upass@ ==> r == Ok::<Model, MXFError>(user),
            login_data.password@ != user.upass@ ==> r == Err::<Model, MXFError>(
                MXFError::WrongPassword,
            ),
    {
        login_data.validate(user)
    }

    /// Settles whether a name can still be registered, from what looking the
    /// name up gave: a name that has a user is taken, a name without one is
    /// free, and a lookup that failed otherwise fails the registration the
    /// same way.
    pub fn check_name_free(&self, lookup: Result<Model, MXFError>, username: &str) -> (r: Result<
        (),
        MXFError,
    >)
        ensures
            match lookup {
                Ok(_) => r matches Err(MXFError::UserAlreadyExists(name)) && name@ == username@,
                Err(MXFError::UserNotFound(_)) => r == Ok::<(), MXFError>(()),
                Err(e) => r == Err::<(), MXFError>(e),
            },
    {
        match lookup {
            Ok(_) => Err(MXFError::UserAlreadyExists(String::from_str(username))),
            Err(MXFError::UserNotFound(_)) => Ok(()),
            Err(e) => Err(e),
        }
    }

    /// The user to store for a registration under a free name, given the
    /// highest user number in use.
    pub fn register(&self, last_uno: Option<u32>, register_data: &RegisterData<'_>) -> (r: Result<
        Model,
        MXFError,
    >)
        ensures
            match next_user_number(last_uno) {
                Some(uno) => match user_type_named(register_data.usertype@) {
                    Some(utype) => r matches Ok(user) && user.uno == uno && user.uname@
                        == register_data.username@ && user.upass@ == register_data.password@
                        && user.utype == utype && user.uemail@ == register_data.email@
                        && user.uphone@ == register_data.pno@,
                    None => r matches Err(MXFError::InvalidUserType(word)) && word@
                        == register_data.usertype@,
                },
                None => r matches Err(MXFError::UnknownError(text)) && text@
                    == "user numbers are used up"@,
            },
    {
        let uno = match last_uno {
            None => 1,
            Some(n) => {
                if n < u32::MAX {
                    n + 1
                } else {
                    return Err(
                        MXFError::UnknownError(String::from_str("user numbers are used up")),
                    );
                }
            },
        };
        register_data.into_active_model(uno)
    }
}

} // verus!
