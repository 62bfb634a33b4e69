//! The records that the store holds.
use vstd::prelude::*;

verus! {

/// What a `User` stands for: an e-mail address and a password digest.
pub struct UserView {
    pub email: Seq<char>,
    pub password: Seq<char>,
}

/// What a `Confirmation` stands for: a token, the claimed e-mail address and
/// the password digest computed when the registration began.
pub struct ConfirmationView {
    pub uuid: Seq<char>,
    pub email: Seq<char>,
    pub password: Seq<char>,
}

/// A confirmed account. The e-mail address is compared exactly as written,
/// letter case included.
#[derive(Debug)]
pub struct User {
    email: String,
    password: String,
}

impl View for User {
    type V = UserView;

    closed spec fn view(&self) -> UserView {
        UserView { email: self.email@, password: self.password@ }
    }
}

impl Clone for User {
    fn clone(&self) -> (r: Self)
        ensures
            r@ == self@,
    {
        User { email: self.email.clone(), password: self.password.clone() }
    }
}

impl User {
    pub fn new(email: String, password: String) -> (r: Self)
        ensures
            r@.email == email@,
            r@.password == password@,
    {
        User { email, password }
    }

    pub fn email(&self) -> (r: &String)
        ensures
            r@ == self@.email,
    {
        &self.email
    }

    pub fn password(&self) -> (r: &String)
        ensures
            r@ == self@.password,
    {
        &self.password
    }
}

/// A registration that waits for its token to be confirmed.
#[derive(Debug)]
pub struct Confirmation {
    uuid: String,
    email: String,
    password: String,
}

impl View for Confirmation {
    type V = ConfirmationView;

    closed spec fn view(&self) -> ConfirmationView {
        ConfirmationView { uuid: self.uuid@, email: self.email@, password: self.password@ }
    }
}

impl Clone for Confirmation {
    fn clone(&self) -> (r: Self)
        ensures
            r@ == self@,
    {
        Confirmation {
            uuid: self.uuid.clone(),
            email: self.email.clone(),
            password: self.password.clone(),
        }
    }
}

impl Confirmation {
    pub fn new(uuid: String, email: String, password: String) -> (r: Self)
        ensures
            r@.uuid == uuid@,
            r@.email == email@,
            r@.password == password@,
    {
        Confirmation { uuid, email, password }
    }

    pub fn uuid(&self) -> (r: &String)
        ensures
            r@ == self@.uuid,
    {
        &self.uuid
    }

    pub fn email(&self) -> (r: &String)
        ensures
            r@ == self@.email,
    {
        &self.email
    }

    pub fn password(&self) -> (r: &String)
        ensures
            r@ == self@.password,
    {
        &self.password
    }
}

} // verus!
