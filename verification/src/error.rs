//! Errors of configuration.

use vstd::prelude::*;

verus! {

/// Why a piece of server configuration was refused.
#[derive(Debug, Clone, Copy, PartialEq, Eq)]
pub enum TLSError {
    /// The server name is not a syntactically valid DNS name.
    BadDnsName,
    /// The certificate chain is empty.
    NoEndEntityCert,
    /// The end-entity certificate cannot be parsed.
    BadEndEntityCert,
    /// The end-entity certificate is not valid for the server name.
    CertNotValidForName,
    /// The private key is not a usable RSA key.
    InvalidRsaKey,
}

/// The text that describes each error.
pub open spec fn message_of(e: TLSError) -> Seq<char> {
    match e {
        TLSError::BadDnsName => "Bad DNS name"@,
        TLSError::NoEndEntityCert => "No end-entity certificate in certificate chain"@,
        TLSError::BadEndEntityCert =>
            "End-entity certificate in certificate chain is syntactically invalid"@,
        TLSError::CertNotValidForName => "The server certificate is not valid for the given name"@,
        TLSError::InvalidRsaKey => "Invalid RSA private key"@,
    }
}

impl TLSError {
    /// A description of the error for people to read.
    pub fn message(&self) -> (text: String)
        ensures
            text@ == message_of(*self),
    {
        match self {
            TLSError::BadDnsName => "Bad DNS name".to_owned(),
            TLSError::NoEndEntityCert => "No end-entity certificate in certificate chain".to_owned(),
            TLSError::BadEndEntityCert =>
                "End-entity certificate in certificate chain is syntactically invalid".to_owned(),
            TLSError::CertNotValidForName =>
                "The server certificate is not valid for the given name".to_owned(),
            TLSError::InvalidRsaKey => "Invalid RSA private key".to_owned(),
        }
    }
}

} // verus!
