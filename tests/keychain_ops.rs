use keychain::{
    CoreResources, CoreResourcesI, Error, InMemoryKeychain, KeyMaterial, KeyName, Keychain,
    KeychainImpl,
};

fn key32(seed: u8) -> KeyMaterial<32> {
    let mut bytes = [0u8; 32];
    for (i, b) in bytes.iter_mut().enumerate() {
        *b = seed.wrapping_mul(31).wrapping_add((i as u8).wrapping_mul(7));
    }
    KeyMaterial::from_bytes(bytes)
}

#[test]
fn error_on_duplicate_item() {
    let mut keychain = Keychain::new();
    let key_one: KeyMaterial<32> = key32(1);
    let key_two: KeyMaterial<32> = key32(2);
    keychain
        .put_local(KeyName::SkKeyEncryptionKey, key_one)
        .unwrap();
    let res = keychain.put_local(KeyName::SkKeyEncryptionKey, key_two);
    assert!(res.is_err());
}

#[test]
fn duplicate_put_keeps_first_key() {
    let mut keychain = Keychain::new();
    let first = key32(10);
    let expected = *first.as_bytes();
    assert_eq!(keychain.put_local(KeyName::SkKeyEncryptionKey, first), Ok(()));
    assert_eq!(
        keychain.put_local(KeyName::SkKeyEncryptionKey, key32(11)),
        Err(Error::AlreadyExists)
    );
    let got = keychain.get::<32>(KeyName::SkKeyEncryptionKey).unwrap();
    assert_eq!(got.as_bytes(), &expected);
}

#[test]
fn delete_absent_name_succeeds() {
    let mut keychain = Keychain::new();
    assert_eq!(keychain.delete(KeyName::SkKeyEncryptionKey), Ok(()));
    assert!(matches!(
        keychain.get::<32>(KeyName::SkKeyEncryptionKey),
        Err(Error::NotFound)
    ));
}

#[test]
fn delete_twice_succeeds() {
    let mut keychain = Keychain::new();
    keychain.put_local(KeyName::SkKeyEncryptionKey, key32(3)).unwrap();
    assert_eq!(keychain.delete(KeyName::SkKeyEncryptionKey), Ok(()));
    assert_eq!(keychain.delete(KeyName::SkKeyEncryptionKey), Ok(()));
    assert!(matches!(
        keychain.get::<32>(KeyName::SkKeyEncryptionKey),
        Err(Error::NotFound)
    ));
}

#[test]
fn put_then_get_round_trips() {
    let mut keychain = Keychain::new();
    let key = KeyMaterial::from_bytes([9u8, 8, 7, 6, 5]);
    keychain.put_local(KeyName::SkKeyEncryptionKey, key).unwrap();
    let got = keychain.get::<5>(KeyName::SkKeyEncryptionKey).unwrap();
    assert_eq!(got.into_bytes(), [9u8, 8, 7, 6, 5]);
}

#[test]
fn get_with_other_length_is_mismatch() {
    let mut keychain = Keychain::new();
    keychain.put_local(KeyName::SkKeyEncryptionKey, key32(4)).unwrap();
    assert!(matches!(
        keychain.get::<16>(KeyName::SkKeyEncryptionKey),
        Err(Error::LengthOrFormatMismatch)
    ));
    assert!(keychain.get::<32>(KeyName::SkKeyEncryptionKey).is_ok());
}

#[test]
fn put_delete_put_replaces_key() {
    let mut keychain = Keychain::new();
    keychain.put_local(KeyName::SkKeyEncryptionKey, key32(5)).unwrap();
    keychain.delete(KeyName::SkKeyEncryptionKey).unwrap();
    let replacement = key32(6);
    let expected = replacement.to_vec();
    assert_eq!(keychain.put_local(KeyName::SkKeyEncryptionKey, replacement), Ok(()));
    let got = keychain.get::<32>(KeyName::SkKeyEncryptionKey).unwrap();
    assert_eq!(got.to_vec(), expected);
}

#[test]
fn only_first_of_many_puts_wins() {
    let mut keychain = Keychain::new();
    let mut outcomes = Vec::new();
    for seed in 20u8..28 {
        outcomes.push(keychain.put_local(KeyName::SkKeyEncryptionKey, key32(seed)));
    }
    assert_eq!(outcomes[0], Ok(()));
    for r in &outcomes[1..] {
        assert_eq!(*r, Err(Error::AlreadyExists));
    }
    let got = keychain.get::<32>(KeyName::SkKeyEncryptionKey).unwrap();
    assert_eq!(got.as_bytes(), key32(20).as_bytes());
}

#[test]
fn scenario_put_duplicate_delete_get() {
    let mut keychain = Keychain::default();
    assert_eq!(KeyName::SkKeyEncryptionKey.as_str(), "sk-key-encryption-key");
    assert_eq!(keychain.put_local(KeyName::SkKeyEncryptionKey, key32(40)), Ok(()));
    assert_eq!(
        keychain.put_local(KeyName::SkKeyEncryptionKey, key32(41)),
        Err(Error::AlreadyExists)
    );
    assert_eq!(keychain.delete(KeyName::SkKeyEncryptionKey), Ok(()));
    assert!(matches!(
        keychain.get::<32>(KeyName::SkKeyEncryptionKey),
        Err(Error::NotFound)
    ));
}

#[test]
fn in_memory_store_meets_store_contract() {
    let mut store = InMemoryKeychain::new();
    assert!(matches!(
        store.get::<3>(KeyName::SkKeyEncryptionKey),
        Err(Error::NotFound)
    ));
    assert_eq!(store.put_local(KeyName::SkKeyEncryptionKey, KeyMaterial::from_bytes([1u8, 2, 3])), Ok(()));
    assert_eq!(
        store.put_local(KeyName::SkKeyEncryptionKey, KeyMaterial::from_bytes([4u8, 5, 6])),
        Err(Error::AlreadyExists)
    );
    assert_eq!(
        store.get::<3>(KeyName::SkKeyEncryptionKey).unwrap().into_bytes(),
        [1u8, 2, 3]
    );
    assert_eq!(store.delete_local(KeyName::SkKeyEncryptionKey), Ok(()));
    assert_eq!(store.delete_local(KeyName::SkKeyEncryptionKey), Ok(()));
}

#[test]
fn key_material_from_slice_copies_bytes() {
    let src = vec![0xAAu8, 0xBB, 0xCC, 0xDD];
    let key: KeyMaterial<4> = KeyMaterial::from_slice(&src);
    assert_eq!(key.as_bytes(), &[0xAAu8, 0xBB, 0xCC, 0xDD]);
    assert_eq!(key.to_vec(), src);
}

#[test]
fn zero_length_key_round_trips() {
    let mut keychain = Keychain::new();
    keychain.put_local(KeyName::SkKeyEncryptionKey, KeyMaterial::<0>::from_bytes([])).unwrap();
    assert!(keychain.get::<0>(KeyName::SkKeyEncryptionKey).is_ok());
    assert!(matches!(
        keychain.get::<1>(KeyName::SkKeyEncryptionKey),
        Err(Error::LengthOrFormatMismatch)
    ));
}

#[test]
fn resources_hand_out_their_keychain() {
    let mut resources = CoreResources::new(Keychain::new());
    resources
        .keychain_mut()
        .put_local(KeyName::SkKeyEncryptionKey, key32(50))
        .unwrap();
    let got = resources.keychain().get::<32>(KeyName::SkKeyEncryptionKey).unwrap();
    assert_eq!(got.as_bytes(), key32(50).as_bytes());
}

#[test]
fn slot_index_is_within_table() {
    assert!(KeyName::SkKeyEncryptionKey.slot_index() < keychain::KEY_NAME_COUNT);
}
