use restaking_core::account_type::AccountType;
use restaking_core::avs::Avs;
use restaking_core::config::Config;
use restaking_core::error::RestakingError;
use restaking_core::operator::Operator;
use restaking_core::operator_remove_vault::process_operator_remove_vault;
use restaking_core::processor::{
    process_avs_add_operator, process_avs_add_vault, process_avs_add_vault_slasher,
    process_avs_remove_operator, process_avs_remove_vault, process_avs_remove_vault_slasher,
    process_initialize_avs, process_initialize_config, process_initialize_operator,
    process_operator_add_avs, process_operator_add_vault, process_operator_remove_avs,
};
use restaking_core::pubkey::Pubkey;
use restaking_core::region::AccountRegion;
use restaking_core::ticket::EdgeTicket;

fn key(n: u8) -> Pubkey {
    Pubkey::from_array([n; 32])
}

fn region(key: &Pubkey, owner: &Pubkey, signer: bool, writable: bool, data: Vec<u8>) -> AccountRegion {
    AccountRegion {
        key: key.clone(),
        owner: owner.clone(),
        is_signer: signer,
        is_writable: writable,
        data,
    }
}

fn signer_region(key: &Pubkey) -> AccountRegion {
    let system = Pubkey::zeroed();
    region(key, &system, true, false, vec![])
}

fn empty_writable(key: &Pubkey) -> AccountRegion {
    let system = Pubkey::zeroed();
    region(key, &system, false, true, vec![])
}

struct World {
    program_id: Pubkey,
    config_region: AccountRegion,
}

fn world(pid_byte: u8) -> World {
    let program_id = key(pid_byte);
    let (config_key, _, _) = Config::try_find_program_address(&program_id).unwrap();
    let mut config_region = empty_writable(&config_key);
    process_initialize_config(
        &program_id,
        &mut config_region,
        &signer_region(&key(1)),
        &key(200),
    )
    .unwrap();
    World { program_id, config_region }
}

fn make_operator(w: &World, base: &Pubkey, admin: &Pubkey) -> AccountRegion {
    let (operator_key, _, _) = Operator::try_find_program_address(&w.program_id, base).unwrap();
    let mut operator_region = empty_writable(&operator_key);
    process_initialize_operator(
        &w.program_id,
        &w.config_region,
        &mut operator_region,
        &signer_region(admin),
        &signer_region(base),
        admin,
    )
    .unwrap();
    operator_region
}

fn make_avs(w: &World, base: &Pubkey, admin: &Pubkey) -> AccountRegion {
    let (avs_key, _, _) = Avs::try_find_program_address(&w.program_id, base).unwrap();
    let mut avs_region = empty_writable(&avs_key);
    process_initialize_avs(
        &w.program_id,
        &w.config_region,
        &mut avs_region,
        &signer_region(admin),
        &signer_region(base),
    )
    .unwrap();
    avs_region
}

fn ticket_region_for(
    w: &World,
    kind: AccountType,
    parent: &Pubkey,
    child: &Pubkey,
    third: &Pubkey,
) -> AccountRegion {
    let (ticket_key, _, _) =
        EdgeTicket::try_find_program_address(kind, &w.program_id, parent, child, third).unwrap();
    empty_writable(&ticket_key)
}

fn read_ticket(w: &World, kind: AccountType, r: &AccountRegion) -> EdgeTicket {
    EdgeTicket::deserialize_checked(&w.program_id, r, kind).unwrap()
}

#[test]
fn test_add_remove_add_keeps_index() {
    let w = world(21);
    let base = key(4);
    let admin = key(5);
    let mut operator_region = make_operator(&w, &base, &admin);
    let operator_key = operator_region.key.clone();
    let vault = key(6);
    let zero = Pubkey::zeroed();
    let mut ticket_region =
        ticket_region_for(&w, AccountType::OperatorVaultTicket, &operator_key, &vault, &zero);

    // First add at slot 10: index 0, active at 10.
    process_operator_add_vault(
        &w.program_id,
        &w.config_region,
        &mut operator_region,
        &mut ticket_region,
        &signer_region(&admin),
        &vault,
        10,
    )
    .unwrap();
    let t = read_ticket(&w, AccountType::OperatorVaultTicket, &ticket_region);
    assert_eq!(t.index(), 0);
    assert!(t.state().is_active());
    assert_eq!(t.state().slot_added(), 10);

    // Remove at slot 15 >= 10: removed as (10, 15), index untouched.
    let vault_region = region(&vault, &Pubkey::zeroed(), false, false, vec![]);
    process_operator_remove_vault(
        &w.program_id,
        &w.config_region,
        &operator_region,
        &mut ticket_region,
        &signer_region(&admin),
        &vault_region,
        15,
    )
    .unwrap();
    let t = read_ticket(&w, AccountType::OperatorVaultTicket, &ticket_region);
    assert_eq!(t.index(), 0);
    assert!(!t.state().is_active());
    assert_eq!(t.state().slot_added(), 10);
    assert_eq!(t.state().slot_removed(), 15);

    // Second add at slot 20 >= 15: index still 0, active at 20, and the
    // parent's counter does not advance again.
    process_operator_add_vault(
        &w.program_id,
        &w.config_region,
        &mut operator_region,
        &mut ticket_region,
        &signer_region(&admin),
        &vault,
        20,
    )
    .unwrap();
    let t = read_ticket(&w, AccountType::OperatorVaultTicket, &ticket_region);
    assert_eq!(t.index(), 0);
    assert!(t.state().is_active());
    assert_eq!(t.state().slot_added(), 20);
    let operator = Operator::deserialize_checked(&w.program_id, &operator_region).unwrap();
    assert_eq!(operator.vault_count(), 1);
}

#[test]
fn test_double_add_fails() {
    let w = world(22);
    let base = key(4);
    let admin = key(5);
    let mut avs_region = make_avs(&w, &base, &admin);
    let avs_key = avs_region.key.clone();
    let vault = key(6);
    let zero = Pubkey::zeroed();
    let mut ticket_region =
        ticket_region_for(&w, AccountType::AvsVaultTicket, &avs_key, &vault, &zero);

    process_avs_add_vault(
        &w.program_id,
        &w.config_region,
        &mut avs_region,
        &mut ticket_region,
        &signer_region(&admin),
        &vault,
        3,
    )
    .unwrap();
    let before = ticket_region.data.clone();
    let err = process_avs_add_vault(
        &w.program_id,
        &w.config_region,
        &mut avs_region,
        &mut ticket_region,
        &signer_region(&admin),
        &vault,
        4,
    )
    .unwrap_err();
    assert_eq!(err, RestakingError::InvalidStateTransition);
    assert_eq!(ticket_region.data, before);
}

#[test]
fn test_remove_never_added_fails() {
    let w = world(23);
    let base = key(4);
    let admin = key(5);
    let operator_region = make_operator(&w, &base, &admin);
    let operator_key = operator_region.key.clone();
    let vault = key(6);
    let zero = Pubkey::zeroed();
    let mut ticket_region =
        ticket_region_for(&w, AccountType::OperatorVaultTicket, &operator_key, &vault, &zero);
    let vault_region = region(&vault, &Pubkey::zeroed(), false, false, vec![]);
    let err = process_operator_remove_vault(
        &w.program_id,
        &w.config_region,
        &operator_region,
        &mut ticket_region,
        &signer_region(&admin),
        &vault_region,
        5,
    )
    .unwrap_err();
    assert_eq!(err, RestakingError::UninitializedRecord);
}

#[test]
fn test_remove_removed_fails() {
    let w = world(24);
    let base = key(4);
    let admin = key(5);
    let mut operator_region = make_operator(&w, &base, &admin);
    let operator_key = operator_region.key.clone();
    let vault = key(6);
    let zero = Pubkey::zeroed();
    let mut ticket_region =
        ticket_region_for(&w, AccountType::OperatorVaultTicket, &operator_key, &vault, &zero);
    process_operator_add_vault(
        &w.program_id,
        &w.config_region,
        &mut operator_region,
        &mut ticket_region,
        &signer_region(&admin),
        &vault,
        1,
    )
    .unwrap();
    let vault_region = region(&vault, &Pubkey::zeroed(), false, false, vec![]);
    process_operator_remove_vault(
        &w.program_id,
        &w.config_region,
        &operator_region,
        &mut ticket_region,
        &signer_region(&admin),
        &vault_region,
        2,
    )
    .unwrap();
    let err = process_operator_remove_vault(
        &w.program_id,
        &w.config_region,
        &operator_region,
        &mut ticket_region,
        &signer_region(&admin),
        &vault_region,
        3,
    )
    .unwrap_err();
    assert_eq!(err, RestakingError::InvalidStateTransition);
}

#[test]
fn test_indices_are_dense_per_parent() {
    // Edges of one parent take indices 0, 1, 2 in creation order, however
    // the adds interleave with another parent's edges.
    let w = world(25);
    let admin = key(5);
    let mut avs_region = make_avs(&w, &key(4), &admin);
    let avs_key = avs_region.key.clone();
    let other_admin = key(15);
    let mut other_avs_region = make_avs(&w, &key(14), &other_admin);
    let other_avs_key = other_avs_region.key.clone();
    let zero = Pubkey::zeroed();

    let vaults = [key(31), key(32), key(33)];
    let mut slot = 1u64;
    for (i, vault) in vaults.iter().enumerate() {
        let mut ticket_region =
            ticket_region_for(&w, AccountType::AvsVaultTicket, &avs_key, vault, &zero);
        process_avs_add_vault(
            &w.program_id,
            &w.config_region,
            &mut avs_region,
            &mut ticket_region,
            &signer_region(&admin),
            vault,
            slot,
        )
        .unwrap();
        let t = read_ticket(&w, AccountType::AvsVaultTicket, &ticket_region);
        assert_eq!(t.index(), i as u64);
        slot += 1;

        // Interleave: the other parent also adds an edge to this vault.
        let mut other_ticket =
            ticket_region_for(&w, AccountType::AvsVaultTicket, &other_avs_key, vault, &zero);
        process_avs_add_vault(
            &w.program_id,
            &w.config_region,
            &mut other_avs_region,
            &mut other_ticket,
            &signer_region(&other_admin),
            vault,
            slot,
        )
        .unwrap();
        slot += 1;
    }
    let avs = Avs::deserialize_checked(&w.program_id, &avs_region).unwrap();
    assert_eq!(avs.vault_count(), 3);
    let other = Avs::deserialize_checked(&w.program_id, &other_avs_region).unwrap();
    assert_eq!(other.vault_count(), 3);
}

#[test]
fn test_unauthorized_mutation_fails_and_changes_nothing() {
    let w = world(26);
    let base = key(4);
    let admin = key(5);
    let mut avs_region = make_avs(&w, &base, &admin);
    let avs_key = avs_region.key.clone();
    let vault = key(6);
    let zero = Pubkey::zeroed();
    let mut ticket_region =
        ticket_region_for(&w, AccountType::AvsVaultTicket, &avs_key, &vault, &zero);

    let avs_before = avs_region.data.clone();

    // A signer other than the stored admin.
    let intruder = key(99);
    let err = process_avs_add_vault(
        &w.program_id,
        &w.config_region,
        &mut avs_region,
        &mut ticket_region,
        &signer_region(&intruder),
        &vault,
        1,
    )
    .unwrap_err();
    assert_eq!(err, RestakingError::AuthorizationFailure);
    assert_eq!(avs_region.data, avs_before);
    assert!(ticket_region.data.is_empty());

    // The right admin, but without a signature.
    let unsigned = region(&admin, &Pubkey::zeroed(), false, false, vec![]);
    let err = process_avs_add_vault(
        &w.program_id,
        &w.config_region,
        &mut avs_region,
        &mut ticket_region,
        &unsigned,
        &vault,
        1,
    )
    .unwrap_err();
    assert_eq!(err, RestakingError::AuthorizationFailure);
    assert_eq!(avs_region.data, avs_before);
    assert!(ticket_region.data.is_empty());
}

#[test]
fn test_avs_edge_kinds_use_their_own_counters() {
    let w = world(27);
    let admin = key(5);
    let mut avs_region = make_avs(&w, &key(4), &admin);
    let avs_key = avs_region.key.clone();
    let zero = Pubkey::zeroed();

    // One operator edge.
    let operator = key(41);
    let mut t1 = ticket_region_for(&w, AccountType::AvsOperatorTicket, &avs_key, &operator, &zero);
    process_avs_add_operator(
        &w.program_id,
        &w.config_region,
        &mut avs_region,
        &mut t1,
        &signer_region(&admin),
        &operator,
        1,
    )
    .unwrap();

    // One vault-slasher edge carrying its slash bound.
    let vault = key(42);
    let slasher = key(43);
    let mut t2 = ticket_region_for(
        &w,
        AccountType::AvsVaultSlasherTicket,
        &avs_key,
        &vault,
        &slasher,
    );
    process_avs_add_vault_slasher(
        &w.program_id,
        &w.config_region,
        &mut avs_region,
        &mut t2,
        &signer_region(&admin),
        &vault,
        &slasher,
        50_000,
        2,
    )
    .unwrap();

    let avs = Avs::deserialize_checked(&w.program_id, &avs_region).unwrap();
    assert_eq!(avs.operator_count(), 1);
    assert_eq!(avs.slasher_count(), 1);
    assert_eq!(avs.vault_count(), 0);

    let slasher_ticket = read_ticket(&w, AccountType::AvsVaultSlasherTicket, &t2);
    assert_eq!(slasher_ticket.max_slash_amount(), 50_000);
    assert_eq!(slasher_ticket.third(), slasher);
    assert_eq!(slasher_ticket.index(), 0);
}

#[test]
fn test_operator_add_avs_and_avs_remove_vault() {
    let w = world(28);
    let admin = key(5);
    let mut operator_region = make_operator(&w, &key(4), &admin);
    let operator_key = operator_region.key.clone();
    let avs_identity = key(44);
    let zero = Pubkey::zeroed();
    let mut t1 =
        ticket_region_for(&w, AccountType::OperatorAvsTicket, &operator_key, &avs_identity, &zero);
    process_operator_add_avs(
        &w.program_id,
        &w.config_region,
        &mut operator_region,
        &mut t1,
        &signer_region(&admin),
        &avs_identity,
        1,
    )
    .unwrap();
    let operator = Operator::deserialize_checked(&w.program_id, &operator_region).unwrap();
    assert_eq!(operator.avs_count(), 1);

    // A service entity adds a vault edge and removes it again.
    let avs_admin = key(7);
    let mut avs_region = make_avs(&w, &key(8), &avs_admin);
    let avs_key = avs_region.key.clone();
    let vault = key(45);
    let mut t2 = ticket_region_for(&w, AccountType::AvsVaultTicket, &avs_key, &vault, &zero);
    process_avs_add_vault(
        &w.program_id,
        &w.config_region,
        &mut avs_region,
        &mut t2,
        &signer_region(&avs_admin),
        &vault,
        2,
    )
    .unwrap();
    process_avs_remove_vault(
        &w.program_id,
        &w.config_region,
        &avs_region,
        &mut t2,
        &signer_region(&avs_admin),
        &vault,
        3,
    )
    .unwrap();
    let t = read_ticket(&w, AccountType::AvsVaultTicket, &t2);
    assert!(!t.state().is_active());
    assert_eq!(t.state().slot_added(), 2);
    assert_eq!(t.state().slot_removed(), 3);
}

#[test]
fn test_remove_operator_and_slasher_edges() {
    let w = world(29);
    let admin = key(5);
    let mut avs_region = make_avs(&w, &key(4), &admin);
    let avs_key = avs_region.key.clone();
    let zero = Pubkey::zeroed();

    let operator = key(41);
    let mut t1 = ticket_region_for(&w, AccountType::AvsOperatorTicket, &avs_key, &operator, &zero);
    process_avs_add_operator(
        &w.program_id,
        &w.config_region,
        &mut avs_region,
        &mut t1,
        &signer_region(&admin),
        &operator,
        1,
    )
    .unwrap();
    process_avs_remove_operator(
        &w.program_id,
        &w.config_region,
        &avs_region,
        &mut t1,
        &signer_region(&admin),
        &operator,
        2,
    )
    .unwrap();
    let t = read_ticket(&w, AccountType::AvsOperatorTicket, &t1);
    assert!(!t.state().is_active());
    assert_eq!(t.state().slot_removed(), 2);

    let vault = key(42);
    let slasher = key(43);
    let mut t2 = ticket_region_for(
        &w,
        AccountType::AvsVaultSlasherTicket,
        &avs_key,
        &vault,
        &slasher,
    );
    process_avs_add_vault_slasher(
        &w.program_id,
        &w.config_region,
        &mut avs_region,
        &mut t2,
        &signer_region(&admin),
        &vault,
        &slasher,
        9,
        3,
    )
    .unwrap();
    process_avs_remove_vault_slasher(
        &w.program_id,
        &w.config_region,
        &avs_region,
        &mut t2,
        &signer_region(&admin),
        &vault,
        &slasher,
        4,
    )
    .unwrap();
    let t = read_ticket(&w, AccountType::AvsVaultSlasherTicket, &t2);
    assert!(!t.state().is_active());
    assert_eq!(t.max_slash_amount(), 9);

    // Counters count every edge ever created and never go back down.
    let avs = Avs::deserialize_checked(&w.program_id, &avs_region).unwrap();
    assert_eq!(avs.operator_count(), 1);
    assert_eq!(avs.slasher_count(), 1);
}

#[test]
fn test_operator_remove_avs_edge() {
    let w = world(30);
    let admin = key(5);
    let mut operator_region = make_operator(&w, &key(4), &admin);
    let operator_key = operator_region.key.clone();
    let avs_identity = key(44);
    let zero = Pubkey::zeroed();
    let mut t1 =
        ticket_region_for(&w, AccountType::OperatorAvsTicket, &operator_key, &avs_identity, &zero);
    process_operator_add_avs(
        &w.program_id,
        &w.config_region,
        &mut operator_region,
        &mut t1,
        &signer_region(&admin),
        &avs_identity,
        1,
    )
    .unwrap();
    process_operator_remove_avs(
        &w.program_id,
        &w.config_region,
        &operator_region,
        &mut t1,
        &signer_region(&admin),
        &avs_identity,
        2,
    )
    .unwrap();
    let t = read_ticket(&w, AccountType::OperatorAvsTicket, &t1);
    assert!(!t.state().is_active());
    let operator = Operator::deserialize_checked(&w.program_id, &operator_region).unwrap();
    assert_eq!(operator.avs_count(), 1);
    assert_eq!(operator.admin(), admin);
    assert_eq!(operator.base(), key(4));
    assert_eq!(operator.voter(), admin);
}

#[test]
fn test_ticket_for_other_endpoints_is_refused() {
    // A valid ticket of the right kind, but for a different vault, cannot
    // stand in for the named edge: the region sits at the wrong address
    // for the requested endpoints.
    let w = world(31);
    let admin = key(5);
    let mut avs_region = make_avs(&w, &key(4), &admin);
    let avs_key = avs_region.key.clone();
    let zero = Pubkey::zeroed();

    let vault_a = key(51);
    let mut ticket_a = ticket_region_for(&w, AccountType::AvsVaultTicket, &avs_key, &vault_a, &zero);
    process_avs_add_vault(
        &w.program_id,
        &w.config_region,
        &mut avs_region,
        &mut ticket_a,
        &signer_region(&admin),
        &vault_a,
        1,
    )
    .unwrap();

    // Hand the edge-a ticket region to a remove naming vault b.
    let vault_b = key(52);
    let err = process_avs_remove_vault(
        &w.program_id,
        &w.config_region,
        &avs_region,
        &mut ticket_a,
        &signer_region(&admin),
        &vault_b,
        2,
    )
    .unwrap_err();
    assert_eq!(err, RestakingError::AddressMismatch);
    let t = read_ticket(&w, AccountType::AvsVaultTicket, &ticket_a);
    assert!(t.state().is_active());
}

#[test]
fn test_foreign_ticket_refused_before_signer_check() {
    // A request naming a valid ticket of a different operator fails with
    // the address error even when the signer is not the admin either:
    // the record is pinned to the named endpoints before the signer is
    // looked at.
    let w = world(32);
    let admin_a = key(5);
    let mut operator_a = make_operator(&w, &key(4), &admin_a);
    let operator_a_key = operator_a.key.clone();
    let admin_b = key(15);
    let operator_b = make_operator(&w, &key(14), &admin_b);
    let vault = key(6);
    let zero = Pubkey::zeroed();

    // Operator A creates the edge; its ticket is then offered to a
    // remove that names operator B.
    let mut ticket_a =
        ticket_region_for(&w, AccountType::OperatorVaultTicket, &operator_a_key, &vault, &zero);
    process_operator_add_vault(
        &w.program_id,
        &w.config_region,
        &mut operator_a,
        &mut ticket_a,
        &signer_region(&admin_a),
        &vault,
        1,
    )
    .unwrap();
    let vault_region = region(&vault, &Pubkey::zeroed(), false, false, vec![]);
    let intruder = key(99);
    let err = process_operator_remove_vault(
        &w.program_id,
        &w.config_region,
        &operator_b,
        &mut ticket_a,
        &signer_region(&intruder),
        &vault_region,
        2,
    )
    .unwrap_err();
    assert_eq!(err, RestakingError::AddressMismatch);
    let t = read_ticket(&w, AccountType::OperatorVaultTicket, &ticket_a);
    assert!(t.state().is_active());
}
