use restaking_core::account_type::AccountType;
use restaking_core::avs::Avs;
use restaking_core::config::Config;
use restaking_core::operator::Operator;
use restaking_core::processor::{
    process_initialize_avs, process_initialize_config, process_initialize_operator,
    process_operator_add_vault,
};
use restaking_core::pubkey::Pubkey;
use restaking_core::region::AccountRegion;
use restaking_core::ticket::EdgeTicket;

fn key(n: u8) -> Pubkey {
    Pubkey::from_array([n; 32])
}

fn region(key: &Pubkey, owner: &Pubkey, signer: bool, writable: bool, data: Vec<u8>) -> AccountRegion {
    AccountRegion {
        key: key.clone(),
        owner: owner.clone(),
        is_signer: signer,
        is_writable: writable,
        data,
    }
}

fn signer_region(key: &Pubkey) -> AccountRegion {
    let system = Pubkey::zeroed();
    region(key, &system, true, false, vec![])
}

struct Fixture {
    program_id: Pubkey,
    config_region: AccountRegion,
}

fn setup_config(program_id: &Pubkey, config_admin: &Pubkey) -> Fixture {
    let system = Pubkey::zeroed();
    let (config_key, _, _) = Config::try_find_program_address(program_id).unwrap();
    let mut config_region = region(&config_key, &system, false, true, vec![]);
    let admin_region = signer_region(config_admin);
    let restaking_program_signer = key(200);
    process_initialize_config(
        program_id,
        &mut config_region,
        &admin_region,
        &restaking_program_signer,
    )
    .unwrap();
    Fixture {
        program_id: program_id.clone(),
        config_region,
    }
}

fn setup_operator(fixture: &Fixture, base: &Pubkey, admin: &Pubkey) -> AccountRegion {
    let system = Pubkey::zeroed();
    let (operator_key, _, _) =
        Operator::try_find_program_address(&fixture.program_id, base).unwrap();
    let mut operator_region = region(&operator_key, &system, false, true, vec![]);
    process_initialize_operator(
        &fixture.program_id,
        &fixture.config_region,
        &mut operator_region,
        &signer_region(admin),
        &signer_region(base),
        admin,
    )
    .unwrap();
    operator_region
}

#[test]
fn test_operator_add_vault_ok() {
    let program_id = key(9);
    let system = Pubkey::zeroed();

    // Initialize config
    let config_admin = key(1);
    let fixture = setup_config(&program_id, &config_admin);

    // Initialize AVS
    let avs_admin = key(2);
    let avs_base = key(3);
    let (avs_pubkey, _, _) = Avs::try_find_program_address(&program_id, &avs_base).unwrap();
    let mut avs_region = region(&avs_pubkey, &system, false, true, vec![]);
    process_initialize_avs(
        &program_id,
        &fixture.config_region,
        &mut avs_region,
        &signer_region(&avs_admin),
        &signer_region(&avs_base),
    )
    .unwrap();

    // Initialize operator
    let base = key(4);
    let operator_admin = key(5);
    let mut operator_region = setup_operator(&fixture, &base, &operator_admin);
    let operator_pubkey = operator_region.key.clone();

    let vault_pubkey = key(6);

    // Operator adds vault
    let (operator_vault_ticket, _, _) = EdgeTicket::try_find_program_address(
        AccountType::OperatorVaultTicket,
        &program_id,
        &operator_pubkey,
        &vault_pubkey,
        &Pubkey::zeroed(),
    )
    .unwrap();
    let mut ticket_region = region(&operator_vault_ticket, &system, false, true, vec![]);
    process_operator_add_vault(
        &program_id,
        &fixture.config_region,
        &mut operator_region,
        &mut ticket_region,
        &signer_region(&operator_admin),
        &vault_pubkey,
        1,
    )
    .unwrap();

    // Verify operator state
    let operator = Operator::deserialize_checked(&program_id, &operator_region).unwrap();
    assert_eq!(operator.vault_count(), 1);

    // Verify operator vault ticket
    let ticket = EdgeTicket::deserialize_checked(
        &program_id,
        &ticket_region,
        AccountType::OperatorVaultTicket,
    )
    .unwrap();
    assert_eq!(ticket.parent(), operator_pubkey);
    assert_eq!(ticket.child(), vault_pubkey);
    assert_eq!(ticket.index(), 0);
    assert_eq!(ticket.state().slot_added(), 1);
}

#[test]
fn test_operator_add_vault_scenario() {
    // Initialize config; initialize operator (counts zero); add a vault:
    // count becomes one, the ticket takes index zero and is active at the
    // current slot; repeating the add without a removal fails.
    let program_id = key(10);
    let system = Pubkey::zeroed();
    let fixture = setup_config(&program_id, &key(1));

    let base = key(4);
    let operator_admin = key(5);
    let mut operator_region = setup_operator(&fixture, &base, &operator_admin);
    let operator_pubkey = operator_region.key.clone();

    let operator = Operator::deserialize_checked(&program_id, &operator_region).unwrap();
    assert_eq!(operator.vault_count(), 0);
    assert_eq!(operator.avs_count(), 0);

    let vault_pubkey = key(6);
    let (ticket_key, _, _) = EdgeTicket::try_find_program_address(
        AccountType::OperatorVaultTicket,
        &program_id,
        &operator_pubkey,
        &vault_pubkey,
        &Pubkey::zeroed(),
    )
    .unwrap();
    let mut ticket_region = region(&ticket_key, &system, false, true, vec![]);
    let slot = 42u64;
    process_operator_add_vault(
        &program_id,
        &fixture.config_region,
        &mut operator_region,
        &mut ticket_region,
        &signer_region(&operator_admin),
        &vault_pubkey,
        slot,
    )
    .unwrap();

    let operator = Operator::deserialize_checked(&program_id, &operator_region).unwrap();
    assert_eq!(operator.vault_count(), 1);
    let ticket = EdgeTicket::deserialize_checked(
        &program_id,
        &ticket_region,
        AccountType::OperatorVaultTicket,
    )
    .unwrap();
    assert_eq!(ticket.index(), 0);
    assert!(ticket.state().is_active());
    assert_eq!(ticket.state().slot_added(), slot);

    // Repeating the add without a removal fails.
    let err = process_operator_add_vault(
        &program_id,
        &fixture.config_region,
        &mut operator_region,
        &mut ticket_region,
        &signer_region(&operator_admin),
        &vault_pubkey,
        slot + 1,
    )
    .unwrap_err();
    assert_eq!(
        err,
        restaking_core::error::RestakingError::InvalidStateTransition
    );
}
