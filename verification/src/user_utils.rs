use vstd::prelude::*;
use vstd::string::StringExecFns;
use crate::user::User;
use crate::user::valid_user_view;

verus! {

/// Constructs a user from borrowed text, producing owned fields.
/// Equivalent to [`User::new`]: no validation is performed.
pub fn create_user(id: u32, name: &str, email: &str) -> (user: User)
    ensures
        user.id == id,
        user.name@ == name@,
        user.email@ == email@,
{
    User::new(id, String::from_str(name), String::from_str(email))
}

/// Returns the user's validity. Equivalent to [`User::is_valid`].
pub fn validate_user(user: &User) -> (valid: bool)
    ensures
        valid == valid_user_view(user@),
{
    user.is_valid()
}

} // verus!
