use vstd::prelude::*;

use crate::types::text::{borrowed, str_of, text_of};

verus! {

/// A password entry.
#[derive(Debug, Clone, PartialEq)]
pub struct PasswordRequest {
    /// Unique identifier.
    pub id: Option<String>,
    /// Name of the password as configured by the user.
    pub name: Option<String>,
    /// Associated e-mail.
    pub email: Option<String>,
    /// Associated website.
    pub website: Option<String>,
}

/// What a `PasswordRequest` asks for: each field that a password must match.
pub ghost struct PasswordRequestView {
    pub id: Option<Seq<char>>,
    pub name: Option<Seq<char>>,
    pub email: Option<Seq<char>>,
    pub website: Option<Seq<char>>,
}

impl PasswordRequestView {
    /// The request that asks for nothing.
    pub open spec fn empty() -> PasswordRequestView {
        PasswordRequestView { id: None, name: None, email: None, website: None }
    }
}

impl View for PasswordRequest {
    type V = PasswordRequestView;

    open spec fn view(&self) -> PasswordRequestView {
        PasswordRequestView {
            id: text_of(self.id),
            name: text_of(self.name),
            email: text_of(self.email),
            website: text_of(self.website),
        }
    }
}

impl Default for PasswordRequest {
    fn default() -> (request: Self)
        ensures
            request@ == PasswordRequestView::empty(),
    {
        Self { id: None, name: None, email: None, website: None }
    }
}

impl PasswordRequest {
    /// Create an request that must match the ID.
    pub fn from_id(id: &str) -> (request: Self)
        ensures
            request@ == (PasswordRequestView { id: Some(id@), ..PasswordRequestView::empty() }),
    {
        Self { id: Some(id.to_owned()), name: None, email: None, website: None }
    }

    /// Create an request that must match the name.
    pub fn from_name(name: &str) -> (request: Self)
        ensures
            request@ == (PasswordRequestView { name: Some(name@), ..PasswordRequestView::empty() }),
    {
        Self { id: None, name: Some(name.to_owned()), email: None, website: None }
    }

    /// Create an request that must match the email.
    pub fn from_email(email: &str) -> (request: Self)
        ensures
            request@ == (PasswordRequestView {
                email: Some(email@),
                ..PasswordRequestView::empty()
            }),
    {
        Self { id: None, name: None, email: Some(email.to_owned()), website: None }
    }

    /// Create an request that must match the website.
    pub fn from_website(website: &str) -> (request: Self)
        ensures
            request@ == (PasswordRequestView {
                website: Some(website@),
                ..PasswordRequestView::empty()
            }),
    {
        Self { id: None, name: None, email: None, website: Some(website.to_owned()) }
    }

    /// Unique identifier.
    pub fn id(&self) -> (id: Option<&str>)
        ensures
            str_of(id) == self@.id,
    {
        borrowed(&self.id)
    }

    /// Name of the password as configured by the user.
    pub fn name(&self) -> (name: Option<&str>)
        ensures
            str_of(name) == self@.name,
    {
        borrowed(&self.name)
    }

    /// Associated e-mail.
    pub fn email(&self) -> (email: Option<&str>)
        ensures
            str_of(email) == self@.email,
    {
        borrowed(&self.email)
    }

    /// Associated website.
    pub fn website(&self) -> (website: Option<&str>)
        ensures
            str_of(website) == self@.website,
    {
        borrowed(&self.website)
    }
}

/// A password response.
#[derive(Debug, Clone, PartialEq)]
pub struct PasswordResponse {
    /// The password.
    password: String,
}

impl View for PasswordResponse {
    type V = Seq<char>;

    closed spec fn view(&self) -> Seq<char> {
        self.password@
    }
}

impl Default for PasswordResponse {
    fn default() -> (response: Self)
        ensures
            response@ == Seq::<char>::empty(),
    {
        Self { password: String::new() }
    }
}

impl PasswordResponse {
    /// Create a new response.
    ///
    /// Used by the server applications.
    pub fn new(password: &str) -> (response: Self)
        ensures
            response@ == password@,
    {
        Self { password: password.to_owned() }
    }

    /// Password.
    pub fn password(&self) -> (password: &str)
        ensures
            password@ == self@,
    {
        self.password.as_str()
    }
}

} // verus!
