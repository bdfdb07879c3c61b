use tls_handy::SessionID;

#[test]
fn session_id_holds_its_bytes() {
    let id = SessionID::new(&[1, 2, 3]);
    assert_eq!(id.len(), 3);
    assert!(!id.is_empty());
    assert_eq!(id.to_vec(), vec![1u8, 2, 3]);
}

#[test]
fn empty_session_id_has_no_bytes() {
    let id = SessionID::empty();
    assert_eq!(id.len(), 0);
    assert!(id.is_empty());
    assert_eq!(id.to_vec(), Vec::<u8>::new());
    assert_eq!(id, SessionID::new(&[]));
}

#[test]
fn session_id_takes_up_to_32_bytes() {
    let bytes: Vec<u8> = (0u8..32).collect();
    let id = SessionID::new(&bytes);
    assert_eq!(id.len(), 32);
    assert_eq!(id.to_vec(), bytes);
}

#[test]
fn session_ids_compare_by_their_bytes() {
    assert_eq!(SessionID::new(&[1, 2, 3]), SessionID::new(&[1, 2, 3]));
    assert_ne!(SessionID::new(&[1, 2, 3]), SessionID::new(&[1, 2, 4]));
    assert_ne!(SessionID::new(&[1, 2, 3]), SessionID::new(&[1, 2]));
    assert_ne!(SessionID::new(&[0]), SessionID::empty());
    let copy = SessionID::new(&[9, 9]);
    let other = copy;
    assert_eq!(copy, other);
}
