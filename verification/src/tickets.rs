//! Producers of session tickets.

use vstd::prelude::*;

verus! {

/// What a handshake needs from a producer of session tickets.
///
/// A producer that opens tickets answers `None` for every ticket it does not
/// accept, whatever the reason, and gives no other sign of the reason.
pub trait ProducesTickets {
    /// Whether tickets are issued at all.
    fn enabled(&self) -> bool;

    /// The lifetime of a ticket in seconds.
    fn get_lifetime(&self) -> u32;

    /// Seals `plain` into a ticket.
    fn encrypt(&self, plain: &[u8]) -> Option<Vec<u8>>;

    /// Opens the ticket `cipher`.
    fn decrypt(&self, cipher: &[u8]) -> Option<Vec<u8>>;
}

/// A producer that issues no tickets and accepts none.
pub struct NeverProducesTickets {}

impl ProducesTickets for NeverProducesTickets {
    fn enabled(&self) -> (on: bool)
        ensures
            !on,
    {
        false
    }

    fn get_lifetime(&self) -> (seconds: u32)
        ensures
            seconds == 0,
    {
        0
    }

    fn encrypt(&self, _plain: &[u8]) -> (ticket: Option<Vec<u8>>)
        ensures
            ticket is None,
    {
        None
    }

    fn decrypt(&self, _cipher: &[u8]) -> (plain: Option<Vec<u8>>)
        ensures
            plain is None,
    {
        None
    }
}

} // verus!
