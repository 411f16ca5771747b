//! What a user sends to log in or to register.

use crate::errors::MXFError;
use crate::user::Model;
use crate::user::UserType;
use vstd::prelude::*;
use vstd::string::StringExecFns;

verus! {

/// A name and the password that is to open its account.
#[derive(Clone, Copy, Debug)]
pub struct LoginData<'r> {
    pub username: &'r str,
    pub password: &'r str,
}

/// What a new user says of themselves.
#[derive(Clone, Copy, Debug)]
pub struct RegisterData<'r> {
    pub username: &'r str,
    pub password: &'r str,
    pub pno: &'r str,
    pub email: &'r str,
    pub usertype: &'r str,
}

/// The kind of user that a word on the registration form stands for.
pub open spec fn user_type_named(word: Seq<char>) -> Option<UserType> {
    if word == "admin"@ {
        Some(UserType::Admin)
    } else if word == "employee"@ {
        Some(UserType::Employee)
    } else if word == "tenant"@ || word == "resident"@ {
        Some(UserType::User)
    } else {
        None
    }
}

fn same_text(a: &str, b: &str) -> (same: bool)
    ensures
        same == (a@ == b@),
{
    String::from_str(a) == String::from_str(b)
}

impl<'r> LoginData<'r> {
    /// Lets the user in if the password sent is the user's password.
    pub fn validate(&self, user: Model) -> (r: Result<Model, MXFError>)
        ensures
            self.password@ == user.upass@ ==> r == Ok::<Model, MXFError>(user),
            self.password@ != user.upass@ ==> r == Err::<Model, MXFError>(
                MXFError::WrongPassword,
            ),
    {
        if String::from_str(self.password) == user.upass {
            Ok(user)
        } else {
            Err(MXFError::WrongPassword)
        }
    }
}

impl<'r> RegisterData<'r> {
    /// The user to store under the number `uno`, if the form names a kind of
    /// user.
    pub fn into_active_model(&self, uno: u32) -> (r: Result<Model, MXFError>)
        ensures
            match user_type_named(self.usertype@) {
                Some(utype) => r matches Ok(user) && user.uno == uno && user.uname@
                    == self.username@ && user.upass@ == self.password@ && user.utype == utype
                    && user.uemail@ == self.email@ && user.uphone@ == self.pno@,
                None => r matches Err(MXFError::InvalidUserType(word)) && word@
                    == self.usertype@,
            },
    {
        let utype = if same_text(self.usertype, "admin") {
            UserType::Admin
        } else if same_text(self.usertype, "employee") {
            UserType::Employee
        } else if same_text(self.usertype, "tenant") || same_text(self.usertype, "resident") {
            UserType::User
        } else {
            return Err(MXFError::InvalidUserType(String::from_str(self.usertype)));
        };
        Ok(
            Model {
                uno,
                uname: String::from_str(self.username),
                upass: String::from_str(self.password),
                utype,
                uemail: String::from_str(self.email),
                uphone: String::from_str(self.pno),
            },
        )
    }
}

} // verus!
