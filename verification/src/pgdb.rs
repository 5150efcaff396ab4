//! Rows of the user tables.

use vstd::prelude::*;

verus! {

/// One permission of a user.
#[derive(Debug, Clone)]
pub struct SqlPermissionTokens {
    /// The name of the permission.
    pub token: String,
}

/// What the identity provider tells about a user.
#[derive(Debug, Clone)]
pub struct UserInfo {
    pub email: String,
    pub family_name: Option<String>,
    pub given_name: Option<String>,
    pub name: String,
    pub picture: Option<String>,
}

} // verus!
