use radix_engine::addresses::{
    AddressError, ComponentAddress, EntityType, PublicKey, ResourceAddress,
};

#[test]
fn entity_ids_round_trip() {
    let all = [
        EntityType::Package,
        EntityType::Resource,
        EntityType::NormalComponent,
        EntityType::AccountComponent,
        EntityType::EcdsaSecp256k1VirtualAccountComponent,
        EntityType::EddsaEd25519VirtualAccountComponent,
        EntityType::IdentityComponent,
        EntityType::EcdsaSecp256k1VirtualIdentityComponent,
        EntityType::EddsaEd25519VirtualIdentityComponent,
        EntityType::EpochManager,
        EntityType::Validator,
        EntityType::Clock,
        EntityType::AccessControllerComponent,
    ];
    for entity in all {
        assert_eq!(EntityType::try_from_id(entity.id()), Some(entity));
    }
    assert_eq!(EntityType::try_from_id(200), None);
}

#[test]
fn component_address_hex_round_trips() {
    let address = ComponentAddress::Account(vec![0xAB; 26]);
    let hex = address.to_hex();
    assert_eq!(hex.len(), 54);
    assert!(hex.starts_with("03abab"));
    let back = ComponentAddress::try_from_hex(&hex).unwrap();
    assert_eq!(back.to_vec(), address.to_vec());
}

#[test]
fn component_address_rejects_bad_input() {
    assert!(matches!(
        ComponentAddress::try_from(&[0u8; 5]),
        Err(AddressError::InvalidLength(5))
    ));
    // Tag 1 is the resource entity: not a component.
    let mut bytes = vec![1u8];
    bytes.extend(vec![0u8; 26]);
    assert!(matches!(
        ComponentAddress::try_from(&bytes),
        Err(AddressError::InvalidEntityTypeId(1))
    ));
    assert!(matches!(
        ComponentAddress::try_from_hex("zz"),
        Err(AddressError::HexDecodingError)
    ));
}

#[test]
fn resource_address_hex_round_trips() {
    let address = ResourceAddress::Normal(vec![0x11; 26]);
    let hex = address.to_hex();
    let back = ResourceAddress::try_from_hex(&hex).unwrap();
    assert_eq!(back.to_vec(), address.to_vec());
    assert_eq!(address.raw(), vec![0x11; 26]);
}

#[test]
fn virtual_addresses_come_from_the_key_digest() {
    let key = PublicKey::EcdsaSecp256k1(vec![2u8; 33]);
    let a1 = ComponentAddress::virtual_account_from_public_key(&key);
    let a2 = ComponentAddress::virtual_account_from_public_key(&key);
    // The digest depends on the key alone.
    assert_eq!(a1.to_vec(), a2.to_vec());
    assert_eq!(a1.to_array_without_entity_id().len(), 26);
    assert!(matches!(a1, ComponentAddress::EcdsaSecp256k1VirtualAccount(_)));

    // A different key gives a different suffix.
    let other = PublicKey::EcdsaSecp256k1(vec![3u8; 33]);
    let a3 = ComponentAddress::virtual_account_from_public_key(&other);
    assert_ne!(a1.to_array_without_entity_id(), a3.to_array_without_entity_id());

    // An identity from the same key shares the suffix under another entity.
    let i1 = ComponentAddress::virtual_identity_from_public_key(&key);
    assert!(matches!(i1, ComponentAddress::EcdsaSecp256k1VirtualIdentity(_)));
    assert_eq!(
        a1.to_array_without_entity_id(),
        i1.to_array_without_entity_id()
    );

    let ed = PublicKey::EddsaEd25519(vec![4u8; 32]);
    assert!(matches!(
        ComponentAddress::virtual_account_from_public_key(&ed),
        ComponentAddress::EddsaEd25519VirtualAccount(_)
    ));
}
