//! The configuration's values. Every one of them must be set: each function
//! takes what was found under its key and gives the value to use.
use vstd::prelude::*;

verus! {

/// The value of a key that must be set.
fn required(value: Option<String>) -> (r: String)
    requires
        value is Some,
    ensures
        r@ == value->0@,
{
    value.unwrap()
}

/// Whether every value is there: the server's name, the domain, the port,
/// the database's location, the SMTP user, password and host, and the salt.
pub fn complete(
    name: &Option<String>,
    domain: &Option<String>,
    port: &Option<String>,
    database: &Option<String>,
    smtp_username: &Option<String>,
    smtp_password: &Option<String>,
    smtp_host: &Option<String>,
    salt: &Option<String>,
) -> (r: bool)
    ensures
        r == (name is Some && domain is Some && port is Some && database is Some
            && smtp_username is Some && smtp_password is Some && smtp_host is Some
            && salt is Some),
{
    name.is_some() && domain.is_some() && port.is_some() && database.is_some()
        && smtp_username.is_some() && smtp_password.is_some() && smtp_host.is_some()
        && salt.is_some()
}

/// The server's name, which must be set.
pub fn name(value: Option<String>) -> (r: String)
    requires
        value is Some,
    ensures
        r@ == value->0@,
{
    required(value)
}

/// The domain, which must be set.
pub fn domain(value: Option<String>) -> (r: String)
    requires
        value is Some,
    ensures
        r@ == value->0@,
{
    required(value)
}

/// The port, which must be set.
pub fn port(value: Option<String>) -> (r: String)
    requires
        value is Some,
    ensures
        r@ == value->0@,
{
    required(value)
}

/// The database's location, which must be set.
pub fn database(value: Option<String>) -> (r: String)
    requires
        value is Some,
    ensures
        r@ == value->0@,
{
    required(value)
}

/// The SMTP user, which must be set.
pub fn smtp_username(value: Option<String>) -> (r: String)
    requires
        value is Some,
    ensures
        r@ == value->0@,
{
    required(value)
}

/// The SMTP password, which must be set.
pub fn smtp_password(value: Option<String>) -> (r: String)
    requires
        value is Some,
    ensures
        r@ == value->0@,
{
    required(value)
}

/// The SMTP host, which must be set.
pub fn smtp_host(value: Option<String>) -> (r: String)
    requires
        value is Some,
    ensures
        r@ == value->0@,
{
    required(value)
}

/// The salt under which every password is hashed, which must be set.
pub fn salt(value: Option<String>) -> (r: String)
    requires
        value is Some,
    ensures
        r@ == value->0@,
{
    required(value)
}

} // verus!
