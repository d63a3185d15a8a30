use restaking_core::account_type::AccountType;
use restaking_core::config::Config;
use restaking_core::error::RestakingError;
use restaking_core::operator::Operator;
use restaking_core::processor::{process_initialize_config, process_operator_add_vault};
use restaking_core::pubkey::Pubkey;
use restaking_core::region::AccountRegion;
use restaking_core::sanitization::SanitizedSystemProgram;
use restaking_core::ticket::EdgeTicket;

fn key(n: u8) -> Pubkey {
    Pubkey::from_array([n; 32])
}

fn region(key: &Pubkey, owner: &Pubkey, signer: bool, writable: bool, data: Vec<u8>) -> AccountRegion {
    AccountRegion {
        key: key.clone(),
        owner: owner.clone(),
        is_signer: signer,
        is_writable: writable,
        data,
    }
}

fn signer_region(key: &Pubkey) -> AccountRegion {
    let system = Pubkey::zeroed();
    region(key, &system, true, false, vec![])
}

fn initialized_config(program_id: &Pubkey, admin: &Pubkey) -> AccountRegion {
    let system = Pubkey::zeroed();
    let (config_key, _, _) = Config::try_find_program_address(program_id).unwrap();
    let mut config_region = region(&config_key, &system, false, true, vec![]);
    process_initialize_config(program_id, &mut config_region, &signer_region(admin), &key(200))
        .unwrap();
    config_region
}

#[test]
fn test_wrong_address_fails() {
    let bad_key = key(77);
    let owner = key(78);
    let account_info = region(&bad_key, &owner, false, false, vec![0]);
    let err = SanitizedSystemProgram::sanitize(&account_info).unwrap_err();
    assert!(matches!(err, RestakingError::AddressMismatch));
}

#[test]
fn test_correct_address_ok() {
    let system_program = Pubkey::zeroed();
    let owner = key(78);
    let account_info = region(&system_program, &owner, false, false, vec![0]);
    SanitizedSystemProgram::sanitize(&account_info).unwrap();
}

#[test]
fn test_derive_is_pure() {
    // Two derivations with identical inputs yield identical results.
    let program_id = key(9);
    let a = Config::try_find_program_address(&program_id).unwrap();
    let b = Config::try_find_program_address(&program_id).unwrap();
    assert_eq!(a.0, b.0);
    assert_eq!(a.1, b.1);

    let base = key(3);
    let c = Operator::try_find_program_address(&program_id, &base).unwrap();
    let d = Operator::try_find_program_address(&program_id, &base).unwrap();
    assert_eq!(c.0, d.0);
    assert_eq!(c.1, d.1);

    // The derived address is a genuine digest, not an input handed back.
    assert_ne!(c.0, base);
    assert_ne!(c.0, program_id);
    assert_ne!(a.0, c.0);
}

#[test]
fn test_validate_rejects_uninitialized() {
    let program_id = key(9);
    let (config_key, _, _) = Config::try_find_program_address(&program_id).unwrap();
    let empty = region(&config_key, &program_id, false, false, vec![]);
    let err = Config::deserialize_checked(&program_id, &empty).unwrap_err();
    assert_eq!(err, RestakingError::UninitializedRecord);
}

#[test]
fn test_validate_rejects_foreign_owner() {
    let program_id = key(9);
    let admin = key(1);
    let mut config_region = initialized_config(&program_id, &admin);
    config_region.owner = key(66);
    let err = Config::deserialize_checked(&program_id, &config_region).unwrap_err();
    assert_eq!(err, RestakingError::OwnershipMismatch);
}

#[test]
fn test_validate_rejects_wrong_shape() {
    let program_id = key(9);
    let (config_key, _, _) = Config::try_find_program_address(&program_id).unwrap();
    // A region of the wrong width is refused as mistyped.
    let bad = region(&config_key, &program_id, false, false, vec![0u8; 5]);
    let err = Config::deserialize_checked(&program_id, &bad).unwrap_err();
    assert_eq!(err, RestakingError::TypeMismatch);
}

#[test]
fn test_validate_rejects_wrong_tag() {
    let program_id = key(9);
    let admin = key(1);
    let mut config_region = initialized_config(&program_id, &admin);
    // Flip the stored tag to the operator tag: same width, wrong kind.
    config_region.data[0] = 2;
    let err = Config::deserialize_checked(&program_id, &config_region).unwrap_err();
    assert_eq!(err, RestakingError::TypeMismatch);
}

#[test]
fn test_validate_round_trip_after_initialize() {
    let program_id = key(9);
    let admin = key(1);
    let config_region = initialized_config(&program_id, &admin);
    let config = Config::deserialize_checked(&program_id, &config_region).unwrap();
    assert_eq!(config.admin(), admin);
    assert_eq!(config.restaking_program_signer(), key(200));
    assert_eq!(config.vaults_count(), 0);
    assert!(config.is_struct_valid());
}

#[test]
fn test_initialize_config_twice_fails() {
    let program_id = key(9);
    let admin = key(1);
    let mut config_region = initialized_config(&program_id, &admin);
    let err = process_initialize_config(
        &program_id,
        &mut config_region,
        &signer_region(&admin),
        &key(200),
    )
    .unwrap_err();
    assert_eq!(err, RestakingError::AlreadyExists);
}

#[test]
fn test_altered_seed_byte_fails_with_address_mismatch() {
    // A ticket whose stored parent endpoint is tampered with, while the
    // stored disambiguation byte stays, no longer re-derives its own
    // address.
    let program_id = key(9);
    let parent = key(11);
    let vault = key(12);
    let zero = Pubkey::zeroed();
    let (ticket_key, bump, _) = EdgeTicket::try_find_program_address(
        AccountType::OperatorVaultTicket,
        &program_id,
        &parent,
        &vault,
        &zero,
    )
    .unwrap();
    let ticket = EdgeTicket::new(
        AccountType::OperatorVaultTicket,
        parent.clone(),
        vault.clone(),
        zero.clone(),
        0,
        0,
        1,
        bump,
    );
    let mut ticket_region = region(&ticket_key, &program_id, false, true, ticket.to_bytes());
    // Intact, the region validates.
    EdgeTicket::deserialize_checked(&program_id, &ticket_region, AccountType::OperatorVaultTicket)
        .unwrap();
    // Alter one byte of the stored parent seed; the bump byte stays.
    ticket_region.data[1] ^= 1;
    let err = EdgeTicket::deserialize_checked(
        &program_id,
        &ticket_region,
        AccountType::OperatorVaultTicket,
    )
    .unwrap_err();
    assert_eq!(err, RestakingError::AddressMismatch);
}

#[test]
fn test_counter_overflow_is_reported() {
    // An operator record crafted with a saturated vault counter: adding
    // one more vault edge reports the counter overflow.
    let program_id = key(9);
    let admin = key(1);
    let config_region = initialized_config(&program_id, &admin);

    let base = key(4);
    let operator_admin = key(5);
    let (operator_key, bump, _) =
        Operator::try_find_program_address(&program_id, &base).unwrap();
    // tag, admin, base, voter, vault_count, avs_count, reserved, bump
    let mut data: Vec<u8> = Vec::new();
    data.push(2);
    data.extend_from_slice(&operator_admin.to_vec());
    data.extend_from_slice(&base.to_vec());
    data.extend_from_slice(&operator_admin.to_vec());
    data.extend_from_slice(&u64::MAX.to_le_bytes());
    data.extend_from_slice(&0u64.to_le_bytes());
    data.extend_from_slice(&[0u8; 64]);
    data.push(bump);
    let mut operator_region = region(&operator_key, &program_id, false, true, data);

    let operator = Operator::deserialize_checked(&program_id, &operator_region).unwrap();
    assert_eq!(operator.vault_count(), u64::MAX);

    let vault = key(6);
    let (ticket_key, _, _) = EdgeTicket::try_find_program_address(
        AccountType::OperatorVaultTicket,
        &program_id,
        &operator_key,
        &vault,
        &Pubkey::zeroed(),
    )
    .unwrap();
    let mut ticket_region = region(&ticket_key, &Pubkey::zeroed(), false, true, vec![]);
    let err = process_operator_add_vault(
        &program_id,
        &config_region,
        &mut operator_region,
        &mut ticket_region,
        &signer_region(&operator_admin),
        &vault,
        1,
    )
    .unwrap_err();
    assert_eq!(err, RestakingError::CounterOverflow);
    assert!(ticket_region.data.is_empty());
}

#[test]
fn test_increment_vaults_saturates_with_none() {
    let program_id = key(9);
    let admin = key(1);
    let config_region = initialized_config(&program_id, &admin);
    let mut config = Config::deserialize_checked(&program_id, &config_region).unwrap();
    assert_eq!(config.increment_vaults(), Some(1));
    assert_eq!(config.increment_vaults(), Some(2));
    assert_eq!(config.vaults_count(), 2);

    // A crafted configuration at the counter's ceiling reports nothing.
    let (config_key, bump, _) = Config::try_find_program_address(&program_id).unwrap();
    let mut data: Vec<u8> = Vec::new();
    data.push(0);
    data.extend_from_slice(&admin.to_vec());
    data.extend_from_slice(&key(200).to_vec());
    data.extend_from_slice(&u64::MAX.to_le_bytes());
    data.extend_from_slice(&[0u8; 1024]);
    data.push(bump);
    let full_region = region(&config_key, &program_id, false, false, data);
    let mut full = Config::deserialize_checked(&program_id, &full_region).unwrap();
    assert_eq!(full.increment_vaults(), None);
    assert_eq!(full.vaults_count(), u64::MAX);
}

#[test]
fn test_sanitized_config_mutate_and_save() {
    let program_id = key(9);
    let admin = key(1);
    let mut config_region = initialized_config(&program_id, &admin);

    // A writable handle may mutate the in-memory copy; nothing persists
    // until save is called.
    let mut handle =
        restaking_core::config::SanitizedConfig::sanitize(&program_id, &config_region, true)
            .unwrap();
    assert_eq!(handle.account(), &config_region.key);
    assert_eq!(handle.config().vaults_count(), 0);
    assert_eq!(handle.config_mut().increment_vaults(), Some(1));
    let unchanged = Config::deserialize_checked(&program_id, &config_region).unwrap();
    assert_eq!(unchanged.vaults_count(), 0);

    handle.save(&mut config_region).unwrap();
    let persisted = Config::deserialize_checked(&program_id, &config_region).unwrap();
    assert_eq!(persisted.vaults_count(), 1);

    // A read-only region refuses a writable handle.
    config_region.is_writable = false;
    let err =
        restaking_core::config::SanitizedConfig::sanitize(&program_id, &config_region, true)
            .unwrap_err();
    assert_eq!(err, RestakingError::AuthorizationFailure);
}

#[test]
fn test_error_messages_name_each_kind() {
    let kinds = [
        RestakingError::UninitializedRecord,
        RestakingError::OwnershipMismatch,
        RestakingError::TypeMismatch,
        RestakingError::AddressMismatch,
        RestakingError::AuthorizationFailure,
        RestakingError::InvalidStateTransition,
        RestakingError::CounterOverflow,
        RestakingError::AlreadyExists,
    ];
    for kind in kinds.iter() {
        assert!(!kind.message().is_empty());
    }
    assert_ne!(
        RestakingError::UninitializedRecord.message(),
        RestakingError::AlreadyExists.message()
    );
}

#[test]
fn test_record_bytes_round_trip() {
    let config = Config::new(key(1), key(2), 7);
    let bytes = config.to_bytes();
    assert_eq!(bytes.len(), 1098);
    let back = Config::parse(&bytes).unwrap();
    assert_eq!(back.admin(), key(1));
    assert_eq!(back.restaking_program_signer(), key(2));
    assert_eq!(back.vaults_count(), 0);
    assert_eq!(back.bump(), 7);

    let ticket = EdgeTicket::new(
        AccountType::AvsVaultSlasherTicket,
        key(3),
        key(4),
        key(5),
        10_000,
        2,
        9,
        255,
    );
    let bytes = ticket.to_bytes();
    assert_eq!(bytes.len(), 194);
    let back = EdgeTicket::parse(&bytes).unwrap();
    assert_eq!(back.parent(), key(3));
    assert_eq!(back.child(), key(4));
    assert_eq!(back.third(), key(5));
    assert_eq!(back.max_slash_amount(), 10_000);
    assert_eq!(back.index(), 2);
    assert_eq!(back.state().slot_added(), 9);
    assert!(back.state().is_active());
}

#[test]
fn test_over_allocated_region_is_accepted_and_tail_kept() {
    // A record stored in a region wider than the record still validates:
    // the leading record is read and the tail is ignored — and a save
    // leaves the tail exactly as it was.
    let program_id = key(9);
    let admin = key(1);
    let mut config_region = initialized_config(&program_id, &admin);
    config_region.data.extend_from_slice(&[7u8, 8u8, 9u8]);
    let original_len = config_region.data.len();

    let config = Config::deserialize_checked(&program_id, &config_region).unwrap();
    assert_eq!(config.admin(), admin);
    assert_eq!(config.vaults_count(), 0);

    let mut handle =
        restaking_core::config::SanitizedConfig::sanitize(&program_id, &config_region, true)
            .unwrap();
    assert_eq!(handle.config_mut().increment_vaults(), Some(1));
    handle.save(&mut config_region).unwrap();
    assert_eq!(config_region.data.len(), original_len);
    assert_eq!(&config_region.data[original_len - 3..], &[7u8, 8u8, 9u8]);
    let persisted = Config::deserialize_checked(&program_id, &config_region).unwrap();
    assert_eq!(persisted.vaults_count(), 1);
}
