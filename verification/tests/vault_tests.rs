use decentpaste::errors::{DecentPasteError, VaultError};
use decentpaste::peers::PairedPeer;
use decentpaste::vault::{
    derive_key, open_vault, salt_from_bytes, seal_vault, validate_pin, VaultManager, VaultStatus,
    SALT_SIZE,
};

#[test]
fn test_salt_size() {
    assert_eq!(SALT_SIZE, 16);
}

#[test]
fn test_vault_error_to_decent_paste_error() {
    let vault_err = VaultError::InvalidPin;
    let app_err: DecentPasteError = vault_err.into();
    assert!(matches!(app_err, DecentPasteError::InvalidPin));
}

#[test]
fn test_vault_error_codes() {
    assert_eq!(VaultError::InvalidPin.code(), "INVALID_PIN");
    assert_eq!(VaultError::NotSetup.code(), "NOT_SETUP");
    assert_eq!(VaultError::Locked.code(), "LOCKED");
    assert_eq!(DecentPasteError::VaultLocked.code(), "VAULT_LOCKED");
    assert_eq!(DecentPasteError::InvalidInput(String::from("x")).code(), "INVALID_INPUT");
    assert_eq!(DecentPasteError::PairingTimeout.code(), "PAIRING_TIMEOUT");
}

#[test]
fn test_salt_from_bytes_checks_length() {
    assert!(salt_from_bytes(&[0u8; 16]).is_ok());
    assert!(matches!(salt_from_bytes(&[0u8; 15]), Err(VaultError::Salt(_))));
    assert!(matches!(salt_from_bytes(&[0u8; 17]), Err(VaultError::Salt(_))));
}

#[test]
fn test_vault_file_round_trip() {
    let salt = [5u8; 16];
    let key = derive_key("1234", &salt).unwrap();
    let payload = b"vault record bytes".to_vec();

    let blob = seal_vault(&payload, &key).unwrap();
    assert_eq!(blob.len(), payload.len() + 28);

    let key_again = derive_key("1234", &salt).unwrap();
    let plain = open_vault(&blob, &key_again).unwrap();
    assert_eq!(plain, payload);

    let wrong = derive_key("9999", &salt).unwrap();
    assert!(matches!(open_vault(&blob, &wrong), Err(VaultError::InvalidPin)));

    assert!(matches!(open_vault(&blob[..4], &key_again), Err(VaultError::Corrupted(_))));
}

fn sample_peer() -> PairedPeer {
    PairedPeer {
        peer_id: String::from("peer-one"),
        device_name: String::from("Laptop"),
        shared_secret: vec![3u8; 32],
        paired_at: 1000,
        last_seen: Some(1000),
        last_known_addresses: vec![String::from("/ip4/192.0.2.1/tcp/4001")],
    }
}

#[test]
fn test_vault_manager_round_trip_and_wrong_pin() {
    let salt = [5u8; 16];
    let mut vm = VaultManager::new();
    assert!(!vm.is_open());
    assert!(matches!(vm.status(false), VaultStatus::NotSetup));

    vm.create("1234", &salt).unwrap();
    assert!(vm.is_open());
    assert!(matches!(vm.status(true), VaultStatus::Unlocked));

    vm.set_paired_peers(vec![sample_peer()]).unwrap();
    let read_back = vm.get_paired_peers().unwrap();
    assert_eq!(read_back.len(), 1);
    assert_eq!(read_back[0].peer_id, "peer-one");
    assert_eq!(read_back[0].shared_secret, vec![3u8; 32]);
    assert_eq!(read_back[0].last_known_addresses, vec![String::from("/ip4/192.0.2.1/tcp/4001")]);

    // Persist an encoded record, lock, reopen with the right PIN.
    let payload = b"[peer-one]".to_vec();
    let blob = vm.seal_payload(&payload).unwrap();

    vm.lock();
    assert!(!vm.is_open());
    assert!(matches!(vm.status(true), VaultStatus::Locked));
    assert!(matches!(vm.get_paired_peers(), Err(VaultError::Locked)));
    assert!(matches!(vm.set_paired_peers(vec![sample_peer()]), Err(VaultError::Locked)));
    assert!(matches!(vm.seal_payload(&payload), Err(VaultError::Locked)));

    let recovered = vm.open("1234", &salt, &blob).unwrap();
    assert_eq!(recovered, payload);
    assert!(vm.is_open());

    // A wrong PIN must fail uniformly as InvalidPin and leave it closed.
    let mut vm2 = VaultManager::new();
    assert!(matches!(vm2.open("9999", &salt, &blob), Err(VaultError::InvalidPin)));
    assert!(!vm2.is_open());
}

#[test]
fn test_vault_identity_and_keypair_slots() {
    let salt = [6u8; 16];
    let mut vm = VaultManager::new();
    vm.create("4321", &salt).unwrap();

    assert!(vm.get_device_identity().unwrap().is_none());
    let identity = decentpaste::identity::generate_device_identity("Desk", 7);
    vm.set_device_identity(identity).unwrap();
    assert!(vm.get_device_identity().unwrap().is_some());

    assert!(vm.get_overlay_keypair().unwrap().is_none());
    vm.set_overlay_keypair(vec![9u8; 68]).unwrap();
    assert_eq!(vm.get_overlay_keypair().unwrap().unwrap(), vec![9u8; 68]);

    vm.lock();
    assert!(matches!(vm.get_device_identity(), Err(VaultError::Locked)));
    assert!(matches!(vm.get_overlay_keypair(), Err(VaultError::Locked)));
}

#[test]
fn test_validate_pin_rule() {
    assert!(validate_pin("1234"));
    assert!(validate_pin("12345678"));
    assert!(!validate_pin("123"));
    assert!(!validate_pin("123456789"));
    assert!(!validate_pin("12a4"));
    assert!(!validate_pin(""));
}
