//! Users and their credentials.
//!
//! Storing users is the database's business and happens outside this
//! library; the decision taken on what the database returned, whether a
//! login succeeds, is made here.

use crate::ids::random_uuid;
use vstd::prelude::*;

verus! {

/// A user's id: a random uuid.
#[derive(Debug, Clone)]
pub struct UserId(String);

/// A user's mail address.
#[derive(Debug, Clone)]
pub struct UserMail(String);

/// A user's (hashed) password.
#[derive(Debug, Clone)]
pub struct UserPass(String);

impl View for UserId {
    type V = Seq<char>;

    closed spec fn view(&self) -> Seq<char> {
        self.0@
    }
}

impl View for UserMail {
    type V = Seq<char>;

    closed spec fn view(&self) -> Seq<char> {
        self.0@
    }
}

impl View for UserPass {
    type V = Seq<char>;

    closed spec fn view(&self) -> Seq<char> {
        self.0@
    }
}

impl UserId {
    pub fn new(user_id: &str) -> (r: UserId)
        ensures
            r@ == user_id@,
    {
        UserId(user_id.to_owned())
    }

    pub fn get_id_txt(&self) -> (r: &str)
        ensures
            r@ == self@,
    {
        self.0.as_str()
    }
}

impl UserMail {
    pub fn new(user_mail: &str) -> (r: UserMail)
        ensures
            r@ == user_mail@,
    {
        UserMail(user_mail.to_owned())
    }

    pub fn get_mail_txt(&self) -> (r: &str)
        ensures
            r@ == self@,
    {
        self.0.as_str()
    }
}

impl UserPass {
    pub fn new(user_pass: &str) -> (r: UserPass)
        ensures
            r@ == user_pass@,
    {
        UserPass(user_pass.to_owned())
    }

    pub fn get_pass_txt(&self) -> (r: &str)
        ensures
            r@ == self@,
    {
        self.0.as_str()
    }

    /// Whether the two passwords are the same text.
    pub fn matches(&self, other: &UserPass) -> (b: bool)
        ensures
            b == (self@ == other@),
    {
        self.0 == other.0
    }
}

/// Mail and password, as a client sends them.
#[derive(Debug, Clone)]
pub struct Credential {
    user_mail: UserMail,
    user_pass: UserPass,
}

impl Credential {
    pub closed spec fn mail(&self) -> Seq<char> {
        self.user_mail@
    }

    pub closed spec fn pass(&self) -> Seq<char> {
        self.user_pass@
    }

    pub fn new(user_mail: UserMail, user_pass: UserPass) -> (c: Credential)
        ensures
            c.mail() == user_mail@,
            c.pass() == user_pass@,
    {
        Credential { user_mail, user_pass }
    }

    pub fn get_user_mail(&self) -> (r: &UserMail)
        ensures
            r@ == self.mail(),
    {
        &self.user_mail
    }

    pub fn get_user_pass(&self) -> (r: &UserPass)
        ensures
            r@ == self.pass(),
    {
        &self.user_pass
    }
}

/// A stored user: id, mail and password.
#[derive(Debug, Clone)]
pub struct UserData {
    user_id: UserId,
    user_mail: UserMail,
    user_pass: UserPass,
}

impl UserData {
    pub closed spec fn id(&self) -> Seq<char> {
        self.user_id@
    }

    pub closed spec fn mail(&self) -> Seq<char> {
        self.user_mail@
    }

    pub closed spec fn pass(&self) -> Seq<char> {
        self.user_pass@
    }

    /// A new user with the given credential and a fresh random id.
    pub fn new(payload: Credential) -> (u: UserData)
        ensures
            u.mail() == payload.mail(),
            u.pass() == payload.pass(),
            u.id().len() == 36,
    {
        UserData {
            user_id: UserId(random_uuid()),
            user_mail: payload.user_mail,
            user_pass: payload.user_pass,
        }
    }

    /// A user as read back from storage.
    pub fn from_parts(user_id: UserId, user_mail: UserMail, user_pass: UserPass) -> (u: UserData)
        ensures
            u.id() == user_id@,
            u.mail() == user_mail@,
            u.pass() == user_pass@,
    {
        UserData { user_id, user_mail, user_pass }
    }

    pub fn get_user_id(&self) -> (r: &UserId)
        ensures
            r@ == self.id(),
    {
        &self.user_id
    }

    pub fn get_user_mail(&self) -> (r: &UserMail)
        ensures
            r@ == self.mail(),
    {
        &self.user_mail
    }

    pub fn get_user_pass(&self) -> (r: &UserPass)
        ensures
            r@ == self.pass(),
    {
        &self.user_pass
    }
}

/// The user database could not be reached.
#[derive(Debug, Clone, Copy, PartialEq, Eq, Structural)]
pub enum DbConnectionError {
    ConectionRefused,
}

/// Why an authentication step failed.
#[derive(Debug, Clone, Copy, PartialEq, Eq, Structural)]
pub enum AuthError {
    /// No user has the given mail address.
    UserNotFound,
    /// The user exists but the password differs.
    DifferentPassword,
    /// The database failed.
    DbError,
}

/// A login: `stored` is the user the database holds under the credential's
/// mail address, if any. The login succeeds with that user exactly when the
/// passwords are the same text.
pub fn verify_password(stored: Option<UserData>, credential: &Credential) -> (r: Result<
    UserData,
    AuthError,
>)
    ensures
        match stored {
            None => r == Err::<UserData, AuthError>(AuthError::UserNotFound),
            Some(user) => if user.pass() == credential.pass() {
                r == Ok::<UserData, AuthError>(user)
            } else {
                r == Err::<UserData, AuthError>(AuthError::DifferentPassword)
            },
        },
{
    match stored {
        Some(user) => {
            if user.user_pass.matches(&credential.user_pass) {
                Ok(user)
            } else {
                Err(AuthError::DifferentPassword)
            }
        },
        None => Err(AuthError::UserNotFound),
    }
}

} // verus!
