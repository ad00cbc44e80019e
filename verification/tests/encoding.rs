use rootsync::content_id::ContentId;
use rootsync::manifest::Manifest;

fn len_le(n: u64) -> Vec<u8> {
    let mut out = Vec::new();
    let mut x = n;
    for _ in 0..8 {
        out.push((x % 256) as u8);
        x /= 256;
    }
    out
}

#[test]
fn empty_manifest_encodes_to_count_and_absent_link() {
    let m = Manifest::new();
    let mut expected = len_le(0);
    expected.push(0);
    assert_eq!(m.encode(), expected);
}

#[test]
fn manifest_encoding_is_exact() {
    let mut m = Manifest::new();
    m.add_entry(b"a".to_vec(), ContentId::from_bytes(b"xy".to_vec()));
    m.set_previous_root(ContentId::from_bytes(b"R0".to_vec()));

    let mut expected = len_le(1);
    expected.extend_from_slice(&len_le(1));
    expected.extend_from_slice(b"a");
    expected.extend_from_slice(&len_le(2));
    expected.extend_from_slice(b"xy");
    expected.push(1);
    expected.extend_from_slice(&len_le(2));
    expected.extend_from_slice(b"R0");
    assert_eq!(m.encode(), expected);
}

#[test]
fn encoding_is_deterministic_and_injective_on_changed_state() {
    let mut a = Manifest::new();
    a.add_entry(b"a.txt".to_vec(), ContentId::from_bytes(b"c1".to_vec()));
    let b = a.clone();
    assert_eq!(a.encode(), b.encode());

    let mut c = a.clone();
    c.set_previous_root(ContentId::from_bytes(b"R0".to_vec()));
    assert_ne!(a.encode(), c.encode());
}

#[test]
fn clone_preserves_entries_and_link() {
    let mut m = Manifest::new();
    m.add_entry(b"p".to_vec(), ContentId::from_bytes(b"c".to_vec()));
    m.set_previous_root(ContentId::from_bytes(b"r".to_vec()));
    let copy = m.clone();
    assert_eq!(copy.entries.len(), 1);
    assert_eq!(copy.entries[0].path, b"p".to_vec());
    assert!(copy.entries[0].cid.same_as(&ContentId::from_bytes(b"c".to_vec())));
    assert!(copy.previous_root.unwrap().same_as(&ContentId::from_bytes(b"r".to_vec())));
}

#[test]
fn content_id_equality_is_byte_equality() {
    let a = ContentId::from_bytes(b"abc".to_vec());
    let b = ContentId::from_bytes(b"abc".to_vec());
    let c = ContentId::from_bytes(b"abd".to_vec());
    assert!(a.same_as(&b));
    assert!(!a.same_as(&c));
    assert_eq!(a.as_bytes(), &b"abc".to_vec());
    assert_eq!(a.clone().as_bytes(), a.as_bytes());
}
