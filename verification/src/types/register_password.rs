use vstd::prelude::*;

use crate::types::text::{borrowed, owned, str_of, text_of};

verus! {

/// A password registration struct.
#[derive(Debug, Clone, PartialEq)]
pub struct RegisterPasswordRequest {
    /// Name of the password as configured by the user.
    name: String,
    /// Actual password.
    password: String,
    /// Associated e-mail.
    email: Option<String>,
    /// Associated website.
    website: Option<String>,
}

/// What a `RegisterPasswordRequest` holds.
pub ghost struct RegisterPasswordRequestView {
    pub name: Seq<char>,
    pub password: Seq<char>,
    pub email: Option<Seq<char>>,
    pub website: Option<Seq<char>>,
}

impl View for RegisterPasswordRequest {
    type V = RegisterPasswordRequestView;

    closed spec fn view(&self) -> RegisterPasswordRequestView {
        RegisterPasswordRequestView {
            name: self.name@,
            password: self.password@,
            email: text_of(self.email),
            website: text_of(self.website),
        }
    }
}

impl RegisterPasswordRequest {
    /// Construct a new password.
    pub fn new(name: &str, password: &str, email: Option<&str>, website: Option<&str>) -> (request:
        Self)
        ensures
            request@ == (RegisterPasswordRequestView {
                name: name@,
                password: password@,
                email: str_of(email),
                website: str_of(website),
            }),
    {
        Self {
            name: name.to_owned(),
            password: password.to_owned(),
            email: owned(email),
            website: owned(website),
        }
    }

    /// Name of the password as configured by the user.
    pub fn name(&self) -> (name: &str)
        ensures
            name@ == self@.name,
    {
        self.name.as_str()
    }

    /// Actual password.
    pub fn password(&self) -> (password: &str)
        ensures
            password@ == self@.password,
    {
        self.password.as_str()
    }

    /// Associated e-mail.
    pub fn email(&self) -> (email: Option<&str>)
        ensures
            str_of(email) == self@.email,
    {
        borrowed(&self.email)
    }

    /// Associated website.
    pub fn website(&self) -> (website: Option<&str>)
        ensures
            str_of(website) == self@.website,
    {
        borrowed(&self.website)
    }
}

} // verus!
