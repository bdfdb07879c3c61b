use tls_handy::{NeverProducesTickets, ProducesTickets};

#[test]
fn never_produces_tickets_is_disabled() {
    let t = NeverProducesTickets {};
    assert_eq!(t.enabled(), false);
    assert_eq!(t.get_lifetime(), 0);
}

#[test]
fn never_produces_tickets_seals_nothing() {
    let t = NeverProducesTickets {};
    assert_eq!(t.encrypt(&[]), None);
    assert_eq!(t.encrypt(&[1, 2, 3]), None);
    assert_eq!(t.encrypt(&[0u8; 300]), None);
}

#[test]
fn never_produces_tickets_opens_nothing() {
    let t = NeverProducesTickets {};
    assert_eq!(t.decrypt(&[]), None);
    assert_eq!(t.decrypt(&[1, 2, 3]), None);
    assert_eq!(t.decrypt(&[0xffu8; 300]), None);
}
