//! The display name a client registers, kept in a cookie.

use axum_extra::extract::cookie::{Cookie, CookieJar};
use vstd::prelude::*;

verus! {

#[verifier::external_type_specification]
#[verifier::external_body]
pub struct ExCookieJar(CookieJar);

/// The cookies a jar holds, as seen by a lookup: each cookie's name under
/// its value, removed ones left out.
pub uninterp spec fn jar_cookies(jar: CookieJar) -> Map<Seq<char>, Seq<char>>;

/// Relies on axum-extra's `CookieJar::add` with `Cookie::new(name, value)`:
/// the cookie replaces any cookie of that name.
#[verifier::external_body]
fn jar_add(jar: CookieJar, name: &str, value: String) -> (r: CookieJar)
    ensures
        jar_cookies(r) == jar_cookies(jar).insert(name@, value@),
{
    jar.add(Cookie::new(name.to_owned(), value))
}

/// Relies on axum-extra's `CookieJar::get` and `Cookie::value`: the value of
/// the cookie of that name, unless there is none or it was removed.
#[verifier::external_body]
fn jar_get(jar: &CookieJar, name: &str) -> (r: Option<String>)
    ensures
        match r {
            Some(v) => jar_cookies(*jar).contains_key(name@) && v@ == jar_cookies(*jar)[name@],
            None => !jar_cookies(*jar).contains_key(name@),
        },
{
    match jar.get(name) {
        Some(cookie) => Some(cookie.value().to_owned()),
        None => None,
    }
}

/// Relies on axum-extra's `CookieJar::remove` with a cookie of that name:
/// afterwards no lookup finds the name.
#[verifier::external_body]
fn jar_remove(jar: CookieJar, name: &str) -> (r: CookieJar)
    ensures
        jar_cookies(r) == jar_cookies(jar).remove(name@),
{
    jar.remove(Cookie::from(name.to_owned()))
}

/// The name of the cookie that holds the display name.
pub const COOKIEKEY: &'static str = "user_name";

/// A display name, as a client registers it.
#[derive(Debug, Clone)]
pub struct UserNameForCoockie {
    user_name: String,
}

impl UserNameForCoockie {
    pub closed spec fn name(&self) -> Seq<char> {
        self.user_name@
    }

    pub fn new(user_name: String) -> (u: UserNameForCoockie)
        ensures
            u.name() == user_name@,
    {
        UserNameForCoockie { user_name }
    }

    pub fn get_user_name(&self) -> (r: &str)
        ensures
            r@ == self.name(),
    {
        self.user_name.as_str()
    }
}

/// The jar with the display-name cookie set to `user_name`.
pub fn add_cookie_to_jar(user_name: String, jar: CookieJar) -> (r: CookieJar)
    ensures
        jar_cookies(r) == jar_cookies(jar).insert(COOKIEKEY@, user_name@),
{
    jar_add(jar, COOKIEKEY, user_name)
}

/// The display name the jar holds, if any.
pub fn get_user_name_from_cookie(jar: CookieJar) -> (r: Option<String>)
    ensures
        match r {
            Some(v) => jar_cookies(jar).contains_key(COOKIEKEY@) && v@ == jar_cookies(jar)[COOKIEKEY@],
            None => !jar_cookies(jar).contains_key(COOKIEKEY@),
        },
{
    jar_get(&jar, COOKIEKEY)
}

/// The jar without the display-name cookie.
pub fn delete_cookie_from_jar(jar: CookieJar) -> (r: CookieJar)
    ensures
        jar_cookies(r) == jar_cookies(jar).remove(COOKIEKEY@),
{
    jar_remove(jar, COOKIEKEY)
}

} // verus!
