//! The certificates and keys that servers and clients are known by.

use pem::Pem;
use vstd::prelude::*;

verus! {

/// The outside type of a PEM section.
#[verifier::external_type_specification]
#[verifier::external_body]
pub struct ExPem(pem::Pem);

/// The bytes that a PEM section holds.
pub uninterp spec fn pem_contents(pem: pem::Pem) -> Seq<u8>;

/// The text of a PEM section.
pub uninterp spec fn pem_text(pem: pem::Pem) -> Seq<char>;

/// `pem::Pem::clone`: a copy of the section.
pub assume_specification[ <pem::Pem as Clone>::clone ](section: &pem::Pem) -> (r: pem::Pem)
    ensures
        r == *section,
;

/// `pem::Pem::contents`: the bytes that the section holds.
pub assume_specification[ pem::Pem::contents ](section: &pem::Pem) -> (r: &[u8])
    ensures
        r@ == pem_contents(*section),
;

/// `pem::Pem::to_string`: the section as text, with its tag, its headers and its contents in
/// base64. The text follows from the section alone; how its lines are laid out has only a
/// name here.
#[verifier::external_body]
pub(crate) fn pem_to_string(pem: &Pem) -> (r: String)
    ensures
        r@ == pem_text(*pem),
{
    pem.to_string()
}

/// This is used to identify and verify a server.
#[derive(Debug, Clone, PartialEq)]
pub struct ServerIdentifier(Pem);

impl ServerIdentifier {
    /// The certificate behind the identifier.
    pub closed spec fn section(&self) -> Pem {
        self.0
    }

    pub fn from_pem(pem: Pem) -> (r: Self)
        ensures
            r.section() == pem,
    {
        ServerIdentifier(pem)
    }

    pub fn to_pem(&self) -> (r: Pem)
        ensures
            r == self.section(),
    {
        self.0.clone()
    }
}

/// This is used to identify and verify a client.
#[derive(Debug, Clone, PartialEq)]
pub struct ClientIdentifier(Pem);

impl ClientIdentifier {
    /// The certificate behind the identifier.
    pub closed spec fn section(&self) -> Pem {
        self.0
    }

    pub fn from_pem(pem: Pem) -> (r: Self)
        ensures
            r.section() == pem,
    {
        ClientIdentifier(pem)
    }

    pub fn to_pem(&self) -> (r: Pem)
        ensures
            r == self.section(),
    {
        self.0.clone()
    }
}

/// The secret of the client.
/// This MUST NOT be shared and MUST be kept secret.
#[derive(Clone, PartialEq)]
pub struct ClientSecret(Pem);

impl ClientSecret {
    /// The private key behind the secret.
    pub closed spec fn section(&self) -> Pem {
        self.0
    }

    pub fn from_pem(pem: Pem) -> (r: Self)
        ensures
            r.section() == pem,
    {
        ClientSecret(pem)
    }

    pub fn to_pem(&self) -> (r: Pem)
        ensures
            r == self.section(),
    {
        self.0.clone()
    }

    /// What logs show of the secret: nothing of the key.
    pub fn debug_text(&self) -> (r: &'static str)
        ensures
            r@ == "[ClientSecret]"@,
    {
        "[ClientSecret]"
    }
}

} // verus!
