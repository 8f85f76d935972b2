//! Credentials, kept behind `secrecy::Secret` so that they are wiped from
//! memory when dropped and never printed by accident.
use vstd::prelude::*;
use secrecy::{ExposeSecret, Secret};

verus! {

/// A credential: a text that is handed on to the remote service and shown
/// nowhere else.
///
/// It is kept in a `secrecy::Secret<String>`, which the verifier does not
/// look into: what a credential holds is known only through `seal` and
/// `expose`.
#[verifier::external_body]
pub struct Credential {
    inner: Secret<String>,
}

/// The text that a credential holds.
pub uninterp spec fn secret_text(credential: Credential) -> Seq<char>;

/// Calls `secrecy::Secret::new`, which takes ownership of the text and keeps
/// it as the secret's inner value: the credential holds the text that went
/// in.
#[verifier::external_body]
pub(crate) fn seal(text: String) -> (r: Credential)
    ensures
        secret_text(r) == text@,
{
    Credential { inner: Secret::new(text) }
}

/// Calls `secrecy::ExposeSecret::expose_secret`, which hands out a reference
/// to the secret's inner value: the text comes out as the credential holds
/// it.
#[verifier::external_body]
pub(crate) fn expose(credential: &Credential) -> (r: &String)
    ensures
        r@ == secret_text(*credential),
{
    credential.inner.expose_secret()
}

} // verus!
