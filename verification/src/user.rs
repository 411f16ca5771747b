//! Users: tenants, landlords and staff.

use vstd::prelude::*;

verus! {

/// What a user may do.
#[derive(Clone, Copy, Debug, PartialEq, Eq, Structural, PartialOrd, Ord, Hash)]
pub enum UserType {
    Deleted,
    Admin,
    Employee,
    User,
}

/// One user.
#[derive(Clone, Debug, PartialEq, Eq)]
pub struct Model {
    /// Number of the user, unique among users.
    pub uno: u32,
    pub uname: String,
    pub upass: String,
    pub utype: UserType,
    pub uemail: String,
    pub uphone: String,
}

impl Model {
    /// The user that stands for nobody: number zero, ordinary rights and
    /// nothing else filled in.
    pub fn default() -> (user: Model)
        ensures
            user.uno == 0,
            user.uname@ == Seq::<char>::empty(),
            user.upass@ == Seq::<char>::empty(),
            user.utype == UserType::User,
            user.uemail@ == Seq::<char>::empty(),
            user.uphone@ == Seq::<char>::empty(),
    {
        Model {
            uno: 0,
            uname: String::new(),
            upass: String::new(),
            utype: UserType::User,
            uemail: String::new(),
            uphone: String::new(),
        }
    }
}

} // verus!
