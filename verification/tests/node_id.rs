use samaritan_core::node_id::{new_node_id, node_id_from_bytes, node_id_from_uuid};

#[test]
fn an_identity_is_a_uuid_twice() {
    let uuid: [u8; 16] = [1, 2, 3, 4, 5, 6, 7, 8, 9, 10, 11, 12, 13, 14, 15, 16];
    let id = node_id_from_uuid(uuid);
    assert_eq!(&id[..16], &uuid);
    assert_eq!(&id[16..], &uuid);
}

#[test]
fn stored_bytes_need_the_right_size() {
    let bytes: Vec<u8> = (0..32).collect();
    let id = node_id_from_bytes(&bytes).unwrap();
    assert_eq!(id.to_vec(), bytes);
    assert_eq!(node_id_from_bytes(&bytes[..31].to_vec()), None);
    assert_eq!(node_id_from_bytes(&[bytes.clone(), vec![0]].concat()), None);
    assert_eq!(node_id_from_bytes(&Vec::new()), None);
}

#[test]
fn new_identities_are_random_uuids_twice() {
    let first = new_node_id();
    let second = new_node_id();
    for id in [first, second] {
        assert_eq!(&id[..16], &id[16..]);
        assert_eq!(id[6] >> 4, 4);
        assert_eq!(id[8] >> 6, 2);
    }
    assert_ne!(first, second);
}
