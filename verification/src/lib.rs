//! Server-side building blocks that a TLS handshake consults: session stores,
//! ticket producers and certificate resolvers.
//!
//! Each comes as a trait with the implementations that need no further
//! machinery: a store that never stores and one bounded in memory, a producer
//! that issues no tickets, and resolvers that find no certified key, always
//! the same one, or the one added for the server name asked for.

pub mod assoc;
pub mod compare;
pub mod dns_name;
pub mod error;
pub mod key;
mod rand;
pub mod resolver;
pub mod session_id;
pub mod session_store;
pub mod sign;
pub mod tickets;
pub mod vec_map;

pub use dns_name::DnsName;
pub use error::TLSError;
pub use key::{Certificate, PrivateKey};
pub use resolver::{
    AlwaysResolvesChain, FailResolveChain, ResolvesServerCert, ResolvesServerCertUsingSNI,
    SignatureScheme,
};
pub use session_id::SessionID;
pub use session_store::{NoServerSessionStorage, ServerSessionMemoryCache, StoresServerSessions};
pub use sign::{CertifiedKey, RSASigningKey};
pub use tickets::{NeverProducesTickets, ProducesTickets};
