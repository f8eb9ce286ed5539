use fobnail::store::MetadataStore;

#[test]
fn store_then_have() {
    let mut s = MetadataStore::new();
    let h = [0x12u8; 32];
    assert!(!s.have_metadata_hash(&h));
    s.store_metadata_hash(&h);
    assert!(s.have_metadata_hash(&h));
    assert_eq!(s.len(), 1);
}

#[test]
fn storing_twice_leaves_one_entry() {
    let mut s = MetadataStore::new();
    let h = [0xabu8; 32];
    s.store_metadata_hash(&h);
    s.store_metadata_hash(&h);
    assert_eq!(s.len(), 1);
    assert!(s.have_metadata_hash(&h));
}

#[test]
fn distinct_hashes_are_kept_apart() {
    let mut s = MetadataStore::new();
    let h1 = [0x01u8; 32];
    let h2 = [0x02u8; 32];
    s.store_metadata_hash(&h1);
    assert!(!s.have_metadata_hash(&h2));
    s.store_metadata_hash(&h2);
    assert_eq!(s.len(), 2);
    assert!(s.have_metadata_hash(&h1));
    assert!(s.have_metadata_hash(&h2));
}

#[test]
fn format_hash_is_lowercase_hex() {
    let hex = MetadataStore::format_hash(&[0x00, 0x01, 0x9f, 0xab, 0xff]);
    assert_eq!(hex, "00019fabff");
}

#[test]
fn hash_path_uses_meta_prefix() {
    let path = MetadataStore::hash_path(&[0x87, 0x84, 0x06, 0x0a]);
    assert_eq!(path, "/meta/8784060a");
}
