//! Who is asked for the password.

use vstd::prelude::*;

verus! {

/// Why the user of the session is not known.
#[derive(Debug, Clone, Copy, PartialEq, Eq)]
pub enum LoginError {
    /// The user that runs the process does not exist.
    NoUser,
    /// The name of the user is no valid Unicode.
    NotUnicode,
}

/// The name of the user that runs the process, from
/// `users::get_current_username`. Nothing is stated of the name: it is
/// what the user database of the machine says. `NoUser` stands for the
/// `None` of that function, `NotUnicode` for a name that
/// `OsString::into_string` refuses.
#[verifier::external_body]
fn current_username() -> (name: Result<String, LoginError>) {
    match users::get_current_username() {
        Some(name) => match name.into_string() {
            Ok(name) => Ok(name),
            Err(_) => Err(LoginError::NotUnicode),
        },
        None => Err(LoginError::NoUser),
    }
}

/// The user whose password unlocks the session.
#[derive(Debug, Clone)]
pub struct LockAuth {
    login: String,
}

impl View for LockAuth {
    type V = Seq<char>;

    closed spec fn view(&self) -> Seq<char> {
        self.login@
    }
}

impl LoginError {
    /// The text of the error.
    pub open spec fn spec_message(self) -> Seq<char> {
        match self {
            LoginError::NoUser => "Failed to get current username."@,
            LoginError::NotUnicode => "Failed to parse the current username."@,
        }
    }

    /// The text of the error.
    pub fn message(&self) -> (text: String)
        ensures
            text@ == self.spec_message(),
    {
        match self {
            LoginError::NoUser => "Failed to get current username.".to_owned(),
            LoginError::NotUnicode => "Failed to parse the current username.".to_owned(),
        }
    }
}

impl LockAuth {
    /// The service under which the password is put to the test.
    pub open spec fn spec_service() -> Seq<char> {
        "system-auth"@
    }

    /// Asks the machine who runs the process. Without an answer there is
    /// nobody whose password could unlock the session.
    pub fn new() -> (auth: Result<LockAuth, LoginError>) {
        Self::from_lookup(current_username())
    }

    /// The password of `login` unlocks the session.
    pub fn for_login(login: String) -> (auth: LockAuth)
        ensures
            auth@ == login@,
    {
        LockAuth { login }
    }

    /// What follows from the answer of the machine: the password of the
    /// user that was found unlocks the session; without a user, the error
    /// of the lookup stands.
    pub fn from_lookup(lookup: Result<String, LoginError>) -> (auth: Result<LockAuth, LoginError>)
        ensures
            lookup matches Ok(name) ==> (auth matches Ok(found) && found@ == name@),
            lookup matches Err(error) ==> auth == Err::<LockAuth, LoginError>(error),
    {
        match lookup {
            Ok(login) => Ok(LockAuth::for_login(login)),
            Err(error) => Err(error),
        }
    }

    /// The name of the user.
    pub fn login(&self) -> (login: &str)
        ensures
            login@ == self@,
    {
        self.login.as_str()
    }

    /// The service under which the password is put to the test.
    pub fn service() -> (service: &'static str)
        ensures
            service@ == Self::spec_service(),
    {
        "system-auth"
    }
}

} // verus!
