//! What the home page shows.
use vstd::prelude::*;

verus! {

/// The state of the home page: whose account is shown, and whether anybody
/// is signed in at all.
#[derive(Debug)]
pub struct HomeTemplate {
    email: String,
    password: String,
    valid: bool,
}

/// What a `HomeTemplate` stands for.
pub struct HomeTemplateView {
    pub email: Seq<char>,
    pub password: Seq<char>,
    pub valid: bool,
}

impl View for HomeTemplate {
    type V = HomeTemplateView;

    closed spec fn view(&self) -> HomeTemplateView {
        HomeTemplateView { email: self.email@, password: self.password@, valid: self.valid }
    }
}

impl HomeTemplate {
    /// The page for a visitor who is not signed in.
    pub fn invalid() -> (r: Self)
        ensures
            r@.email == Seq::<char>::empty(),
            r@.password == Seq::<char>::empty(),
            !r@.valid,
    {
        HomeTemplate { email: String::new(), password: String::new(), valid: false }
    }

    /// The page for the signed-in user.
    pub fn valid(email: String, password: String) -> (r: Self)
        ensures
            r@.email == email@,
            r@.password == password@,
            r@.valid,
    {
        HomeTemplate { email, password, valid: true }
    }

    pub fn email(&self) -> (r: &String)
        ensures
            r@ == self@.email,
    {
        &self.email
    }

    pub fn password(&self) -> (r: &String)
        ensures
            r@ == self@.password,
    {
        &self.password
    }

    pub fn is_valid(&self) -> (r: bool)
        ensures
            r == self@.valid,
    {
        self.valid
    }
}

} // verus!
