//! Identity commands: users and permissions.

use vstd::prelude::*;

verus! {

/// Permission create command.
#[derive(Clone, Debug, Default, PartialEq, Eq)]
pub struct CreatePermissionInput {
    /// Permission name (the GMP command it grants); required.
    pub name: Option<String>,
    /// Optional comment.
    pub comment: Option<String>,
    /// Identifier of the user, group or role it is granted to; required.
    pub subject_id: Option<String>,
    /// Kind of the subject; required.
    pub subject_type: Option<String>,
    /// Optional resource it is limited to.
    pub resource_id: Option<String>,
    /// Type of that resource.
    pub resource_type: Option<String>,
}

/// Permission update command.
#[derive(Clone, Debug, Default, PartialEq, Eq)]
pub struct ModifyPermissionInput {
    /// Optional name.
    pub name: Option<String>,
    /// Optional comment.
    pub comment: Option<String>,
    /// Optional subject identifier.
    pub subject_id: Option<String>,
    /// Optional subject kind.
    pub subject_type: Option<String>,
    /// Optional resource identifier.
    pub resource_id: Option<String>,
    /// Optional resource type.
    pub resource_type: Option<String>,
}

/// User create command.
#[derive(Clone, Debug, Default, PartialEq, Eq)]
pub struct CreateUserInput {
    /// Login name.
    pub name: String,
    /// Optional comment.
    pub comment: Option<String>,
    /// Optional initial password.
    pub password: Option<String>,
    /// Optional hosts the user may scan.
    pub hosts: Option<String>,
    /// Roles granted to the user.
    pub role_ids: Vec<String>,
    /// Optional authentication source.
    pub authentication_type: Option<String>,
}

/// User update command.
#[derive(Clone, Debug, Default, PartialEq, Eq)]
pub struct ModifyUserInput {
    /// Optional new login name.
    pub name: Option<String>,
    /// Optional comment.
    pub comment: Option<String>,
    /// Optional new password.
    pub password: Option<String>,
    /// Optional hosts the user may scan.
    pub hosts: Option<String>,
    /// Optional replacement roles.
    pub role_ids: Option<Vec<String>>,
    /// Optional authentication source.
    pub authentication_type: Option<String>,
}

} // verus!
