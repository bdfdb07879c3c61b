//! Signing keys, and certificate chains paired with them.

use std::sync::Arc;
use vstd::prelude::*;
use crate::dns_name::{valid_dns_name, DnsName};
use crate::error::TLSError;
use crate::key::{
    chain_view, clone_chain, clone_optional_bytes, optional_bytes_view, Certificate, PrivateKey,
};

verus! {

/// ring's RSA key pair. Nothing inside it is visible to the proofs.
#[verifier::external_type_specification]
#[verifier::external_body]
pub struct ExRsaKeyPair(ring::rsa::KeyPair);

/// ring's reason for rejecting a key. Nothing inside it is visible to the
/// proofs.
#[verifier::external_type_specification]
#[verifier::external_body]
pub struct ExKeyRejected(ring::error::KeyRejected);

/// Whether ring accepts `der` as a bare DER-encoded `RSAPrivateKey`.
pub uninterp spec fn rsa_der_key_accepted(der: Seq<u8>) -> bool;

/// Whether ring accepts `der` as a PKCS#8-wrapped RSA private key.
pub uninterp spec fn rsa_pkcs8_key_accepted(der: Seq<u8>) -> bool;

/// `ring::rsa::KeyPair::from_der` parses and validates a bare `RSAPrivateKey`.
/// Whether it succeeds depends on the bytes alone.
pub assume_specification[ ring::rsa::KeyPair::from_der ](input: &[u8]) -> (r: Result<
    ring::rsa::KeyPair,
    ring::error::KeyRejected,
>)
    ensures
        r.is_ok() == rsa_der_key_accepted(input@),
;

/// `ring::rsa::KeyPair::from_pkcs8` parses and validates a PKCS#8-wrapped RSA
/// key. Whether it succeeds depends on the bytes alone.
pub assume_specification[ ring::rsa::KeyPair::from_pkcs8 ](pkcs8: &[u8]) -> (r: Result<
    ring::rsa::KeyPair,
    ring::error::KeyRejected,
>)
    ensures
        r.is_ok() == rsa_pkcs8_key_accepted(pkcs8@),
;

/// Whether `der` holds an RSA private key in one of the two accepted
/// encodings.
pub open spec fn is_rsa_private_key(der: Seq<u8>) -> bool {
    rsa_der_key_accepted(der) || rsa_pkcs8_key_accepted(der)
}

/// An RSA key that can sign, together with the encoding it was read from.
pub struct RSASigningKey {
    key: ring::rsa::KeyPair,
    source: Ghost<Seq<u8>>,
}

impl RSASigningKey {
    #[verifier::type_invariant]
    spec fn from_accepted_encoding(self) -> bool {
        is_rsa_private_key(self.source@)
    }

    /// The encoding that the key was read from.
    pub closed spec fn encoding(&self) -> Seq<u8> {
        self.source@
    }

    /// The key pair held.
    pub closed spec fn pair(&self) -> ring::rsa::KeyPair {
        self.key
    }

    /// Reads a signing key from its DER encoding, bare or wrapped in PKCS#8.
    pub fn new(der: &PrivateKey) -> (made: Option<RSASigningKey>)
        ensures
            made.is_some() == is_rsa_private_key(der@),
            made matches Some(k) ==> k.encoding() == der@,
    {
        match ring::rsa::KeyPair::from_der(der.0.as_slice()) {
            Ok(key) => Some(RSASigningKey { key, source: Ghost(der@) }),
            Err(_) => match ring::rsa::KeyPair::from_pkcs8(der.0.as_slice()) {
                Ok(key) => Some(RSASigningKey { key, source: Ghost(der@) }),
                Err(_) => None,
            },
        }
    }

    /// The key pair, for the code that signs.
    pub fn key_pair(&self) -> (pair: &ring::rsa::KeyPair)
        ensures
            *pair == self.pair(),
            is_rsa_private_key(self.encoding()),
    {
        proof {
            use_type_invariant(self);
        }
        &self.key
    }
}

/// Another handle to the same signing key, by `Arc::clone`.
#[verifier::external_body]
fn share_key(key: &Arc<RSASigningKey>) -> (shared: Arc<RSASigningKey>)
    ensures
        *shared == **key,
{
    Arc::clone(key)
}

/// Whether webpki can parse `der` as an end-entity certificate.
pub uninterp spec fn end_entity_cert_parses(der: Seq<u8>) -> bool;

/// Whether webpki finds the certificate `der` valid for the DNS name `name`.
pub uninterp spec fn cert_valid_for_dns_name(der: Seq<u8>, name: Seq<char>) -> bool;

/// Asks `webpki::EndEntityCert::try_from` whether `der` parses as an
/// end-entity certificate. The answer depends on the bytes alone.
#[verifier::external_body]
fn parses_as_end_entity_cert(der: &[u8]) -> (ok: bool)
    ensures
        ok == end_entity_cert_parses(der@),
{
    webpki::EndEntityCert::try_from(der).is_ok()
}

/// Asks `webpki::EndEntityCert::verify_is_valid_for_dns_name` whether the
/// certificate `der` names the host `name`. The certificate and the name are
/// handed over as webpki parses them, which `requires` says it does. The
/// answer depends on the bytes and the text alone.
#[verifier::external_body]
fn names_host(der: &[u8], name: &str) -> (ok: bool)
    requires
        end_entity_cert_parses(der@),
        valid_dns_name(name@),
    ensures
        ok == cert_valid_for_dns_name(der@, name@),
{
    match (webpki::EndEntityCert::try_from(der), webpki::DnsNameRef::try_from_ascii_str(name)) {
        (Ok(cert), Ok(host)) => cert.verify_is_valid_for_dns_name(host).is_ok(),
        _ => false,
    }
}

/// What checking the end-entity certificate of `chain` against `name` gives:
/// the chain must not be empty, its first certificate must parse, and where
/// a name is given the certificate must be valid for it.
pub open spec fn cross_check(chain: Seq<Seq<u8>>, name: Option<Seq<char>>) -> Result<
    (),
    TLSError,
> {
    if chain.len() == 0 {
        Err(TLSError::NoEndEntityCert)
    } else if !end_entity_cert_parses(chain[0]) {
        Err(TLSError::BadEndEntityCert)
    } else {
        match name {
            Some(n) if !cert_valid_for_dns_name(chain[0], n) => Err(TLSError::CertNotValidForName),
            _ => Ok(()),
        }
    }
}

/// A certificate chain, end-entity certificate first, with the key that signs
/// for it and what may be stapled to it.
pub struct CertifiedKey {
    /// The chain, end-entity certificate first.
    pub cert: Vec<Certificate>,
    /// The key of the end-entity certificate.
    pub key: Arc<RSASigningKey>,
    /// An OCSP response for the end-entity certificate.
    pub ocsp: Option<Vec<u8>>,
    /// A list of signed certificate timestamps for the end-entity certificate.
    pub sct_list: Option<Vec<u8>>,
}

/// What a `CertifiedKey` holds.
pub struct CertifiedKeyView {
    pub cert: Seq<Seq<u8>>,
    pub key: RSASigningKey,
    pub ocsp: Option<Seq<u8>>,
    pub sct_list: Option<Seq<u8>>,
}

impl View for CertifiedKey {
    type V = CertifiedKeyView;

    open spec fn view(&self) -> CertifiedKeyView {
        CertifiedKeyView {
            cert: chain_view(self.cert@),
            key: *self.key,
            ocsp: optional_bytes_view(self.ocsp),
            sct_list: optional_bytes_view(self.sct_list),
        }
    }
}

impl Clone for CertifiedKey {
    fn clone(&self) -> (copy: CertifiedKey)
        ensures
            copy@ == self@,
    {
        CertifiedKey {
            cert: clone_chain(&self.cert),
            key: share_key(&self.key),
            ocsp: clone_optional_bytes(&self.ocsp),
            sct_list: clone_optional_bytes(&self.sct_list),
        }
    }
}

impl CertifiedKey {
    /// The chain `cert` with the key `key`, and nothing stapled.
    pub fn new(cert: Vec<Certificate>, key: Arc<RSASigningKey>) -> (ck: CertifiedKey)
        ensures
            ck@ == (CertifiedKeyView {
                cert: chain_view(cert@),
                key: *key,
                ocsp: None,
                sct_list: None,
            }),
    {
        CertifiedKey { cert, key, ocsp: None, sct_list: None }
    }

    /// The end-entity certificate: the first of the chain.
    pub fn end_entity_cert(&self) -> (first: Option<&Certificate>)
        ensures
            match first {
                Some(c) => self@.cert.len() > 0 && c@ == self@.cert[0],
                None => self@.cert.len() == 0,
            },
    {
        if self.cert.len() == 0 {
            None
        } else {
            Some(&self.cert[0])
        }
    }

    /// Checks that the end-entity certificate is there and parses, and, where
    /// a name is given, that it is valid for that name. This does not show
    /// that the certificate is valid, only that the name is one it is for.
    pub fn cross_check_end_entity_cert(&self, name: Option<&DnsName>) -> (checked: Result<
        (),
        TLSError,
    >)
        ensures
            checked == cross_check(
                self@.cert,
                match name {
                    Some(n) => Some(n@),
                    None => None,
                },
            ),
    {
        let end_entity = match self.end_entity_cert() {
            Some(c) => c,
            None => {
                return Err(TLSError::NoEndEntityCert);
            },
        };
        if !parses_as_end_entity_cert(end_entity.0.as_slice()) {
            return Err(TLSError::BadEndEntityCert);
        }
        match name {
            Some(n) => {
                if names_host(end_entity.0.as_slice(), n.as_str()) {
                    Ok(())
                } else {
                    Err(TLSError::CertNotValidForName)
                }
            },
            None => Ok(()),
        }
    }
}

} // verus!
