//! Secrets that stay out of logs and debug output.

use secrecy::ExposeSecret;
use secrecy::Secret;
use vstd::prelude::*;

verus! {

/// A secret string, kept in a `secrecy::Secret<String>`: wiped from memory when
/// dropped, never printed, and read only through [`SecretString::expose_secret`].
///
/// Verus does not look inside; what the secret holds is [`secret_text`].
#[derive(Debug)]
#[verifier::external_body]
pub struct SecretString {
    inner: Secret<String>,
}

/// The characters that a secret holds.
pub uninterp spec fn secret_text(secret: SecretString) -> Seq<char>;

impl View for SecretString {
    type V = Seq<char>;

    open spec fn view(&self) -> Seq<char> {
        secret_text(*self)
    }
}

/// `secrecy::Secret::new`: moves the string into a secret, unchanged.
#[verifier::external_body]
fn conceal(text: String) -> (secret: SecretString)
    ensures
        secret_text(secret) == text@,
{
    SecretString { inner: Secret::new(text) }
}

/// `secrecy::ExposeSecret::expose_secret`: a reference to the string inside
/// the secret.
#[verifier::external_body]
fn expose(secret: &SecretString) -> (text: &String)
    ensures
        text@ == secret_text(*secret),
{
    secret.inner.expose_secret()
}

impl SecretString {
    /// Wraps `text`; from here on only `expose_secret` reads it.
    pub fn new(text: String) -> (secret: Self)
        ensures
            secret@ == text@,
    {
        conceal(text)
    }

    /// The one accessor of the secret: call it where the secret is used, and
    /// keep the result out of logs and error messages.
    pub fn expose_secret(&self) -> (text: &str)
        ensures
            text@ == self@,
    {
        expose(self).as_str()
    }
}

} // verus!
