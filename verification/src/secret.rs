//! A string wrapper for secret material.
//!
//! The wrapper has no stringification of its own; the raw value leaves it
//! only through the single `expose_secret` accessor, which must never appear
//! at a logging call site.

use vstd::prelude::*;

verus! {

/// A string holding secret material (a password, a password digest).
pub struct SecretString {
    inner: String,
}

impl View for SecretString {
    type V = Seq<char>;

    closed spec fn view(&self) -> Seq<char> {
        self.inner@
    }
}

impl SecretString {
    /// Wraps a string as secret material.
    pub fn new(s: String) -> (r: SecretString)
        ensures
            r@ == s@,
    {
        SecretString { inner: s }
    }

    /// The one accessor that yields the raw value.
    pub fn expose_secret(&self) -> (r: &str)
        ensures
            r@ == self@,
    {
        self.inner.as_str()
    }
}

impl Clone for SecretString {
    /// Clones the secret, keeping its characters.
    fn clone(&self) -> (r: Self)
        ensures
            r@ == self@,
    {
        SecretString { inner: self.inner.clone() }
    }
}

} // verus!
