//! Credentials and tokens for the authentication transition.

use vstd::prelude::*;

verus! {

/// The mathematical value of a credential pair.
pub ghost struct CredentialsModel {
    pub username: Seq<char>,
    pub password: Seq<char>,
}

/// A username/password pair handed to the login endpoint.
#[derive(Debug, Clone)]
pub struct Credentials {
    username: String,
    password: String,
}

impl View for Credentials {
    type V = CredentialsModel;

    closed spec fn view(&self) -> CredentialsModel {
        CredentialsModel { username: self.username@, password: self.password@ }
    }
}

impl Credentials {
    pub fn new(username: String, password: String) -> (r: Self)
        ensures
            r@.username == username@,
            r@.password == password@,
    {
        Credentials { username, password }
    }

    /// The username, read back for serialization by the transport layer.
    pub fn username(&self) -> (r: &str)
        ensures
            r@ == self@.username,
    {
        self.username.as_str()
    }

    /// The password, read back for serialization by the transport layer.
    pub fn password(&self) -> (r: &str)
        ensures
            r@ == self@.password,
    {
        self.password.as_str()
    }
}

/// A bearer token, issued by login or supplied by the caller.
#[derive(Debug, Clone)]
pub struct Token {
    pub token: String,
}

impl View for Token {
    type V = Seq<char>;

    open spec fn view(&self) -> Seq<char> {
        self.token@
    }
}

} // verus!
