use vstd::prelude::*;

use crate::types::text::{borrowed, owned, str_of, text_of};

verus! {

/// Password information without the actual password.
#[derive(Debug, Clone, PartialEq)]
pub struct PublicPassword {
    /// Unique identifier.
    id: String,
    /// Name of the password.
    name: String,
    /// Associated e-mail.
    email: Option<String>,
    /// Associated website.
    website: Option<String>,
}

/// What a `PublicPassword` holds.
pub ghost struct PublicPasswordView {
    pub id: Seq<char>,
    pub name: Seq<char>,
    pub email: Option<Seq<char>>,
    pub website: Option<Seq<char>>,
}

impl View for PublicPassword {
    type V = PublicPasswordView;

    closed spec fn view(&self) -> PublicPasswordView {
        PublicPasswordView {
            id: self.id@,
            name: self.name@,
            email: text_of(self.email),
            website: text_of(self.website),
        }
    }
}

impl PublicPassword {
    /// Create a new response.
    ///
    /// Used by the server applications.
    pub fn new(id: &str, name: &str, email: Option<&str>, website: Option<&str>) -> (password:
        Self)
        ensures
            password@ == (PublicPasswordView {
                id: id@,
                name: name@,
                email: str_of(email),
                website: str_of(website),
            }),
    {
        Self {
            id: id.to_owned(),
            name: name.to_owned(),
            email: owned(email),
            website: owned(website),
        }
    }

    /// Unique identifier.
    pub fn id(&self) -> (id: &str)
        ensures
            id@ == self@.id,
    {
        self.id.as_str()
    }

    /// Name of the password.
    pub fn name(&self) -> (name: &str)
        ensures
            name@ == self@.name,
    {
        self.name.as_str()
    }

    /// Associated e-mail.
    pub fn email(&self) -> (email: Option<&str>)
        ensures
            str_of(email) == self@.email,
    {
        borrowed(&self.email)
    }

    /// Associated website.
    pub fn website(&self) -> (website: Option<&str>)
        ensures
            str_of(website) == self@.website,
    {
        borrowed(&self.website)
    }
}

} // verus!
