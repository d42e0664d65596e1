use vstd::prelude::*;
use vstd::string::StrSliceExecFns;
use vstd::string::StringExecFns;

verus! {

/// Mathematical model of a user record: the identifier together with the
/// character sequences of the name and the email address.
pub ghost struct UserView {
    pub id: u32,
    pub name: Seq<char>,
    pub email: Seq<char>,
}

/// A user is valid when its name is non-empty and its email is non-empty
/// and contains the character '@'.
pub open spec fn valid_user_view(u: UserView) -> bool {
    u.name.len() > 0 && u.email.len() > 0 && u.email.contains('@')
}

/// A user record: an identifier, a display name and a contact address.
///
/// The identifier is caller-assigned; nothing here checks it for uniqueness.
/// Validity of the fields is advisory: an invalid user can be constructed
/// and queried like any other (see [`User::is_valid`]).
#[derive(Debug)]
pub struct User {
    pub id: u32,
    pub name: String,
    pub email: String,
}

impl View for User {
    type V = UserView;

    open spec fn view(&self) -> UserView {
        UserView { id: self.id, name: self.name@, email: self.email@ }
    }
}

impl Clone for User {
    fn clone(&self) -> (res: Self)
        ensures
            res == *self,
    {
        User { id: self.id, name: self.name.clone(), email: self.email.clone() }
    }
}

impl User {
    /// Constructs a user from its parts. No validation is performed:
    /// construction always succeeds, whatever the fields hold.
    pub fn new(id: u32, name: String, email: String) -> (user: Self)
        ensures
            user.id == id,
            user.name == name,
            user.email == email,
    {
        User { id, name, email }
    }

    /// Returns the user's name and email formatted as `"<name> (<email>)"`.
    pub fn get_info(&self) -> (info: String)
        ensures
            info@ == self.name@ + " ("@ + self.email@ + ")"@,
    {
        let mut info = String::from_str(self.name.as_str());
        info.append(" (");
        info.append(self.email.as_str());
        info.append(")");
        info
    }

    /// Returns true iff the name is non-empty, the email is non-empty,
    /// and the email contains '@'.
    pub fn is_valid(&self) -> (valid: bool)
        ensures
            valid == valid_user_view(self@),
    {
        !self.name.as_str().is_empty() && !self.email.as_str().is_empty()
            && str_contains_char(self.email.as_str(), '@')
    }
}

/// Returns true iff the character `c` occurs in `s`.
fn str_contains_char(s: &str, c: char) -> (found: bool)
    ensures
        found == s@.contains(c),
{
    let n = s.unicode_len();
    let mut i: usize = 0;
    while i < n
        invariant
            n == s@.len(),
            i <= n,
            forall|j: int| 0 <= j < i ==> s@[j] != c,
        decreases n - i,
    {
        if s.get_char(i) == c {
            proof {
                assert(s@[i as int] == c);
            }
            return true;
        }
        i = i + 1;
    }
    false
}

/// Every user whose name is non-empty and whose email is non-empty and
/// contains '@' is valid.
pub proof fn lemma_well_formed_user_is_valid(u: UserView)
    requires
        u.name.len() > 0,
        u.email.len() > 0,
        u.email.contains('@'),
    ensures
        valid_user_view(u),
{
}

/// Every user with an empty name, an empty email, or an email without '@'
/// is invalid.
pub proof fn lemma_malformed_user_is_invalid(u: UserView)
    requires
        u.name.len() == 0 || u.email.len() == 0 || !u.email.contains('@'),
    ensures
        !valid_user_view(u),
{
}

} // verus!
