use tls_handy::vec_map::{MapKey, VecMap};

#[test]
fn vec_map_starts_empty() {
    let m: VecMap<Vec<u8>, Vec<u8>> = VecMap::new();
    assert_eq!(m.len(), 0);
    assert_eq!(m.get(&[]), None);
    assert_eq!(m.get(&[1]), None);
}

#[test]
fn vec_map_finds_what_was_inserted() {
    let mut m: VecMap<Vec<u8>, Vec<u8>> = VecMap::new();
    m.insert(vec![1], vec![10]);
    m.insert(vec![2], vec![20]);
    m.insert(vec![], vec![0]);
    assert_eq!(m.len(), 3);
    assert_eq!(m.get(&[1]), Some(&vec![10]));
    assert_eq!(m.get(&[2]), Some(&vec![20]));
    assert_eq!(m.get(&[]), Some(&vec![0]));
    assert_eq!(m.get(&[3]), None);
    assert_eq!(m.get(&[1, 2]), None);
}

#[test]
fn vec_map_insert_replaces_in_place() {
    let mut m: VecMap<Vec<u8>, Vec<u8>> = VecMap::new();
    m.insert(vec![1], vec![10]);
    m.insert(vec![2], vec![20]);
    m.insert(vec![1], vec![11]);
    assert_eq!(m.len(), 2);
    assert_eq!(m.get(&[1]), Some(&vec![11]));
    m.remove_oldest();
    assert_eq!(m.len(), 1);
    assert_eq!(m.get(&[1]), None);
    assert_eq!(m.get(&[2]), Some(&vec![20]));
}

#[test]
fn vec_map_drops_the_oldest_first() {
    let mut m: VecMap<Vec<u8>, Vec<u8>> = VecMap::new();
    for i in 0u8..5 {
        m.insert(vec![i], vec![i, i]);
    }
    m.remove_oldest();
    m.remove_oldest();
    assert_eq!(m.len(), 3);
    assert_eq!(m.get(&[0]), None);
    assert_eq!(m.get(&[1]), None);
    assert_eq!(m.get(&[2]), Some(&vec![2, 2]));
    assert_eq!(m.get(&[4]), Some(&vec![4, 4]));
}

#[test]
fn vec_map_remove_oldest_of_nothing_does_nothing() {
    let mut m: VecMap<Vec<u8>, Vec<u8>> = VecMap::new();
    m.remove_oldest();
    assert_eq!(m.len(), 0);
    m.insert(vec![7], vec![8]);
    m.remove_oldest();
    m.remove_oldest();
    assert_eq!(m.len(), 0);
    assert_eq!(m.get(&[7]), None);
}

#[test]
fn vec_map_takes_texts_for_keys() {
    let mut m: VecMap<String, Vec<u8>> = VecMap::new();
    m.insert("example.com".to_string(), vec![1]);
    m.insert("other.com".to_string(), vec![2]);
    m.insert("example.com".to_string(), vec![3]);
    assert_eq!(m.len(), 2);
    assert_eq!(m.get("example.com"), Some(&vec![3]));
    assert_eq!(m.get("other.com"), Some(&vec![2]));
    assert_eq!(m.get("Example.com"), None);
    assert_eq!(m.get(""), None);
}

#[test]
fn map_keys_compare_by_what_they_hold() {
    let k = vec![1u8, 2, 3];
    assert!(k.same_as(&[1, 2, 3]));
    assert!(!k.same_as(&[1, 2]));
    assert_eq!(k.as_asked(), &[1u8, 2, 3][..]);
    let t = "abc".to_string();
    assert!(t.same_as("abc"));
    assert!(!t.same_as("abd"));
    assert_eq!(t.as_asked(), "abc");
}
