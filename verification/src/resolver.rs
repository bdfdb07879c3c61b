//! Resolvers: from the server name a client asks for to the certified key to
//! answer with.

use std::sync::Arc;
use vstd::prelude::*;
use crate::assoc::{as_map, distinct_keys, lemma_lookup_is_map_get, lemma_store_as_map};
use crate::dns_name::{has_dns_name_shape, valid_dns_name, DnsName};
use crate::error::TLSError;
use crate::key::{chain_view, Certificate, PrivateKey};
use crate::sign::{
    cross_check, is_rsa_private_key, CertifiedKey, CertifiedKeyView, RSASigningKey,
};
use crate::vec_map::VecMap;

verus! {

/// The signature schemes that a client may offer.
#[allow(non_camel_case_types)]
#[derive(Debug, Clone, Copy, PartialEq, Eq)]
pub enum SignatureScheme {
    RSA_PKCS1_SHA1,
    ECDSA_SHA1_Legacy,
    RSA_PKCS1_SHA256,
    ECDSA_NISTP256_SHA256,
    RSA_PKCS1_SHA384,
    ECDSA_NISTP384_SHA384,
    RSA_PKCS1_SHA512,
    ECDSA_NISTP521_SHA512,
    RSA_PSS_SHA256,
    RSA_PSS_SHA384,
    RSA_PSS_SHA512,
    ED25519,
    ED448,
    Unknown(u16),
}

/// What a handshake needs to choose the identity it presents.
pub trait ResolvesServerCert {
    /// The certified key to present to a client that asked for `server_name`
    /// and offered `sigschemes`, or `None` if there is none to present.
    fn resolve(&self, server_name: Option<&DnsName>, sigschemes: &[SignatureScheme]) -> Option<
        CertifiedKey,
    >;
}

/// A resolver that never finds a certified key.
pub struct FailResolveChain {}

impl ResolvesServerCert for FailResolveChain {
    fn resolve(&self, _server_name: Option<&DnsName>, _sigschemes: &[SignatureScheme]) -> (found:
        Option<CertifiedKey>)
        ensures
            found is None,
    {
        None
    }
}

/// A resolver that always answers with the same certified key.
pub struct AlwaysResolvesChain(CertifiedKey);

/// What is stapled for the bytes `extra`: the bytes themselves, or nothing if
/// there are none.
pub open spec fn stapled(extra: Seq<u8>) -> Option<Seq<u8>> {
    if extra.len() == 0 {
        None
    } else {
        Some(extra)
    }
}

impl View for AlwaysResolvesChain {
    type V = CertifiedKeyView;

    closed spec fn view(&self) -> CertifiedKeyView {
        self.0@
    }
}

impl AlwaysResolvesChain {
    /// A resolver for the chain `chain` and the RSA private key `priv_key`.
    /// It is refused if the key is not a usable RSA private key.
    pub fn new_rsa(chain: Vec<Certificate>, priv_key: &PrivateKey) -> (made: Result<
        AlwaysResolvesChain,
        TLSError,
    >)
        ensures
            match made {
                Ok(r) => {
                    &&& is_rsa_private_key(priv_key@)
                    &&& r@.cert == chain_view(chain@)
                    &&& r@.key.encoding() == priv_key@
                    &&& r@.ocsp is None
                    &&& r@.sct_list is None
                },
                Err(e) => !is_rsa_private_key(priv_key@) && e == TLSError::InvalidRsaKey,
            },
    {
        match RSASigningKey::new(priv_key) {
            Some(key) => Ok(AlwaysResolvesChain(CertifiedKey::new(chain, Arc::new(key)))),
            None => Err(TLSError::InvalidRsaKey),
        }
    }

    /// As `new_rsa`, with an OCSP response and a list of signed certificate
    /// timestamps to staple. An empty one is left out.
    pub fn new_rsa_with_extras(
        chain: Vec<Certificate>,
        priv_key: &PrivateKey,
        ocsp: Vec<u8>,
        scts: Vec<u8>,
    ) -> (made: Result<AlwaysResolvesChain, TLSError>)
        ensures
            match made {
                Ok(r) => {
                    &&& is_rsa_private_key(priv_key@)
                    &&& r@.cert == chain_view(chain@)
                    &&& r@.key.encoding() == priv_key@
                    &&& r@.ocsp == stapled(ocsp@)
                    &&& r@.sct_list == stapled(scts@)
                },
                Err(e) => !is_rsa_private_key(priv_key@) && e == TLSError::InvalidRsaKey,
            },
    {
        let mut r = match AlwaysResolvesChain::new_rsa(chain, priv_key) {
            Ok(r) => r,
            Err(e) => {
                return Err(e);
            },
        };
        if !ocsp.is_empty() {
            r.0.ocsp = Some(ocsp);
        }
        if !scts.is_empty() {
            r.0.sct_list = Some(scts);
        }
        Ok(r)
    }
}

impl ResolvesServerCert for AlwaysResolvesChain {
    fn resolve(&self, _server_name: Option<&DnsName>, _sigschemes: &[SignatureScheme]) -> (found:
        Option<CertifiedKey>)
        ensures
            found matches Some(ck) && ck@ == self@,
    {
        Some(self.0.clone())
    }
}

/// The entries of a table of certified keys by server name.
pub type NamedKeys = Seq<(Seq<char>, CertifiedKeyView)>;

/// What offering `ck` for `name` comes to: the name must be a valid DNS name,
/// and the end-entity certificate of `ck` must be there, parse and be valid
/// for the name.
pub open spec fn add_outcome(name: Seq<char>, ck: CertifiedKeyView) -> Result<(), TLSError> {
    if !valid_dns_name(name) {
        Err(TLSError::BadDnsName)
    } else {
        cross_check(ck.cert, Some(name))
    }
}

/// The table after `ck` was offered for `name`: with the entry stored if the
/// offer was accepted, and as it was otherwise.
pub open spec fn table_after_add(
    table: Map<Seq<char>, CertifiedKeyView>,
    name: Seq<char>,
    ck: CertifiedKeyView,
) -> Map<Seq<char>, CertifiedKeyView> {
    if add_outcome(name, ck) is Ok {
        table.insert(name, ck)
    } else {
        table
    }
}

/// What `table` holds for the name a client sent, if it sent one.
pub open spec fn resolved(
    table: Map<Seq<char>, CertifiedKeyView>,
    server_name: Option<Seq<char>>,
) -> Option<CertifiedKeyView> {
    match server_name {
        Some(name) if table.contains_key(name) => Some(table[name]),
        _ => None,
    }
}

/// A client that sends no server name gets no certified key, whatever the
/// table holds.
pub proof fn lemma_no_name_resolves_nothing(table: Map<Seq<char>, CertifiedKeyView>)
    ensures
        resolved(table, None) is None,
{
}

/// A certified key that was added is the one resolved for its name.
pub proof fn lemma_add_then_resolve(
    table: Map<Seq<char>, CertifiedKeyView>,
    name: Seq<char>,
    ck: CertifiedKeyView,
)
    requires
        add_outcome(name, ck) is Ok,
    ensures
        resolved(table_after_add(table, name, ck), Some(name)) == Some(ck),
{
}

/// Adding for one name changes what is resolved for no other name.
pub proof fn lemma_add_keeps_other_names(
    table: Map<Seq<char>, CertifiedKeyView>,
    name: Seq<char>,
    ck: CertifiedKeyView,
    other: Seq<char>,
)
    requires
        other != name,
    ensures
        resolved(table_after_add(table, name, ck), Some(other)) == resolved(table, Some(other)),
{
}

/// An add that is refused changes what is resolved for no name.
pub proof fn lemma_refused_add_changes_nothing(
    table: Map<Seq<char>, CertifiedKeyView>,
    name: Seq<char>,
    ck: CertifiedKeyView,
    asked: Option<Seq<char>>,
)
    requires
        add_outcome(name, ck) is Err,
    ensures
        resolved(table_after_add(table, name, ck), asked) == resolved(table, asked),
{
}

/// A resolver that answers by the server name the client sent. A client
/// that sends none gets no certified key.
pub struct ResolvesServerCertUsingSNI {
    by_name: VecMap<String, CertifiedKey>,
}

impl View for ResolvesServerCertUsingSNI {
    type V = Map<Seq<char>, CertifiedKeyView>;

    closed spec fn view(&self) -> Map<Seq<char>, CertifiedKeyView> {
        as_map(self.entries())
    }
}

impl ResolvesServerCertUsingSNI {
    spec fn entries(&self) -> NamedKeys {
        self.by_name@
    }

    #[verifier::type_invariant]
    spec fn every_entry_checked(self) -> bool {
        &&& distinct_keys(self.entries())
        &&& forall|i: int|
            0 <= i < self.entries().len() ==> add_outcome(
                (#[trigger] self.entries()[i]).0,
                self.entries()[i].1,
            ) is Ok
    }

    /// A resolver that knows no certified key.
    pub fn new() -> (empty: ResolvesServerCertUsingSNI)
        ensures
            empty@ == Map::<Seq<char>, CertifiedKeyView>::empty(),
    {
        ResolvesServerCertUsingSNI { by_name: VecMap::new() }
    }

    /// Adds `ck` as the certified key for the server name `name`, in place of
    /// the one that was there, if `name` is a valid DNS name and the
    /// end-entity certificate of `ck` is valid for it. Otherwise the resolver
    /// stays as it was.
    pub fn add(&mut self, name: &str, ck: CertifiedKey) -> (added: Result<(), TLSError>)
        ensures
            added == add_outcome(name@, ck@),
            final(self)@ == table_after_add(old(self)@, name@, ck@),
            !has_dns_name_shape(name@) ==> added == Err::<(), TLSError>(TLSError::BadDnsName),
    {
        let checked_name = match DnsName::try_from_ascii_str(name) {
            Some(n) => n,
            None => {
                return Err(TLSError::BadDnsName);
            },
        };
        match ck.cross_check_end_entity_cert(Some(&checked_name)) {
            Ok(()) => {},
            Err(e) => {
                return Err(e);
            },
        }
        proof {
            use_type_invariant(&*self);
            lemma_store_as_map(self.entries(), name@, ck@);
        }
        let mut by_name: VecMap<String, CertifiedKey> = VecMap::new();
        std::mem::swap(&mut by_name, &mut self.by_name);
        by_name.insert(name.to_owned(), ck);
        self.by_name = by_name;
        Ok(())
    }
}

impl ResolvesServerCert for ResolvesServerCertUsingSNI {
    fn resolve(&self, server_name: Option<&DnsName>, _sigschemes: &[SignatureScheme]) -> (found:
        Option<CertifiedKey>)
        ensures
            (match found {
                Some(ck) => Some(ck@),
                None => None,
            }) == resolved(
                self@,
                match server_name {
                    Some(n) => Some(n@),
                    None => None,
                },
            ),
            found matches Some(ck) ==> server_name matches Some(n) && add_outcome(n@, ck@) is Ok,
    {
        proof {
            use_type_invariant(self);
        }
        match server_name {
            Some(name) => {
                proof {
                    lemma_lookup_is_map_get(self.entries(), name@);
                }
                match self.by_name.get(name.as_str()) {
                    Some(ck) => Some(ck.clone()),
                    None => None,
                }
            },
            None => None,
        }
    }
}

} // verus!
