//! DER-encoded key material.

use vstd::prelude::*;

verus! {

/// One DER-encoded X.509 certificate.
#[derive(Debug, PartialEq, Eq)]
pub struct Certificate(pub Vec<u8>);

impl View for Certificate {
    type V = Seq<u8>;

    open spec fn view(&self) -> Seq<u8> {
        self.0@
    }
}

impl Clone for Certificate {
    fn clone(&self) -> (copy: Certificate)
        ensures
            copy@ == self@,
    {
        Certificate(self.0.clone())
    }
}

/// One DER-encoded private key.
#[derive(Debug, PartialEq, Eq)]
pub struct PrivateKey(pub Vec<u8>);

impl View for PrivateKey {
    type V = Seq<u8>;

    open spec fn view(&self) -> Seq<u8> {
        self.0@
    }
}

impl Clone for PrivateKey {
    fn clone(&self) -> (copy: PrivateKey)
        ensures
            copy@ == self@,
    {
        PrivateKey(self.0.clone())
    }
}

/// The bytes of each certificate of a chain, in order.
pub open spec fn chain_view(chain: Seq<Certificate>) -> Seq<Seq<u8>> {
    Seq::new(chain.len(), |i: int| chain[i]@)
}

/// A copy of a certificate chain.
pub(crate) fn clone_chain(chain: &Vec<Certificate>) -> (copy: Vec<Certificate>)
    ensures
        chain_view(copy@) == chain_view(chain@),
{
    let mut copy: Vec<Certificate> = Vec::new();
    let mut i: usize = 0;
    while i < chain.len()
        invariant
            i <= chain@.len(),
            copy@.len() == i,
            forall|j: int| 0 <= j < i ==> copy@[j]@ == chain@[j]@,
        decreases chain@.len() - i,
    {
        copy.push(chain[i].clone());
        i += 1;
    }
    copy
}

/// A copy of an optional byte string.
pub(crate) fn clone_optional_bytes(bytes: &Option<Vec<u8>>) -> (copy: Option<Vec<u8>>)
    ensures
        optional_bytes_view(copy) == optional_bytes_view(*bytes),
{
    match bytes {
        Some(b) => Some(b.clone()),
        None => None,
    }
}

/// The bytes of an optional byte string.
pub open spec fn optional_bytes_view(bytes: Option<Vec<u8>>) -> Option<Seq<u8>> {
    match bytes {
        Some(b) => Some(b@),
        None => None,
    }
}

} // verus!
