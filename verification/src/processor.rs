use vstd::prelude::*;

use crate::account_type::AccountType;
use crate::avs::{
    spec_avs_bytes, spec_checked_avs, spec_sanitize_avs, Avs, AvsV, SanitizedAvs,
    AVS_RECORD_LEN, ENTITY_RESERVED_LEN,
};
use crate::codec::zero_bytes;
use crate::config::{
    spec_checked_config, spec_config_bytes, spec_sanitize_config, Config, ConfigV, SanitizedConfig,
    CONFIG_RESERVED_LEN,
};
use crate::engine::{
    add_edge_ticket, remove_edge_ticket, spec_add_edge_ticket, spec_remove_edge_ticket,
};
use crate::error::RestakingError;
use crate::pda::pda_of;
use crate::pubkey::{zero_key, Pubkey};
use crate::region::{AccountRegion, RegionV};
use crate::sanitization::SanitizedSignerAccount;
use crate::seeds::{spec_avs_seeds, spec_config_seeds, spec_operator_seeds};
use crate::operator::{
    spec_checked_operator, spec_operator_bytes, spec_sanitize_operator, Operator, OperatorV,
    SanitizedOperator, OPERATOR_RECORD_LEN,
};
use crate::ticket::{spec_checked_ticket, NOT_REMOVED};

verus! {

/// The create-the-singleton operation: the configuration region must sit
/// at its canonical address, be empty, be writable, and the admin must
/// have signed. The fresh record names the signer as admin and carries
/// the derived disambiguation byte.
pub open spec fn spec_process_initialize_config(
    pid: Seq<u8>,
    config: RegionV,
    admin: RegionV,
    restaking_program_signer: Seq<u8>,
) -> Result<RegionV, RestakingError> {
    match pda_of(spec_config_seeds(), pid) {
        None => Err(RestakingError::AddressMismatch),
        Some(found) => {
            if config.key != found.0 {
                Err(RestakingError::AddressMismatch)
            } else if config.data.len() != 0 {
                Err(RestakingError::AlreadyExists)
            } else if !admin.is_signer {
                Err(RestakingError::AuthorizationFailure)
            } else if !config.is_writable {
                Err(RestakingError::AuthorizationFailure)
            } else {
                let c = ConfigV {
                    account_type: AccountType::Config,
                    admin: admin.key,
                    restaking_program_signer: restaking_program_signer,
                    num_vaults: 0u64,
                    reserved: zero_bytes(CONFIG_RESERVED_LEN as nat),
                    bump: found.1,
                };
                Ok(RegionV { owner: pid, data: spec_config_bytes(c), ..config })
            }
        },
    }
}

/// Creates the configuration singleton. On success the region holds the
/// fresh record and validates under the checked-access protocol.
pub fn process_initialize_config(
    program_id: &Pubkey,
    config_region: &mut AccountRegion,
    admin_region: &AccountRegion,
    restaking_program_signer: &Pubkey,
) -> (r: Result<(), RestakingError>)
    requires
        program_id.wf(),
        old(config_region).wf(),
        admin_region.wf(),
        restaking_program_signer.wf(),
    ensures
        final(config_region).wf(),
        match r {
            Ok(()) => spec_process_initialize_config(
                program_id@,
                old(config_region)@,
                admin_region@,
                restaking_program_signer@,
            ) == Ok::<RegionV, RestakingError>(final(config_region)@) && spec_checked_config(
                program_id@,
                final(config_region)@,
            ) is Ok,
            Err(e) => spec_process_initialize_config(
                program_id@,
                old(config_region)@,
                admin_region@,
                restaking_program_signer@,
            ) == Err::<RegionV, RestakingError>(e) && final(config_region)@ == old(config_region)@,
        },
{
    let found = match Config::try_find_program_address(program_id) {
        Some(f) => f,
        None => {
            return Err(RestakingError::AddressMismatch);
        },
    };
    if !found.0.key_eq(&config_region.key) {
        return Err(RestakingError::AddressMismatch);
    }
    if config_region.data.len() != 0 {
        return Err(RestakingError::AlreadyExists);
    }
    let _admin = SanitizedSignerAccount::sanitize(admin_region, false)?;
    if !config_region.is_writable {
        return Err(RestakingError::AuthorizationFailure);
    }
    let config = Config::new(
        admin_region.key.clone(),
        restaking_program_signer.clone(),
        found.1,
    );
    config_region.owner = program_id.clone();
    config_region.data = config.to_bytes();
    proof {
        crate::config::lemma_config_roundtrip(config@);
    }
    Ok(())
}

/// The create-a-service-entity operation: the configuration must
/// validate, the entity region must sit at the address derived from the
/// caller's base identity, be empty and writable, and both the admin and
/// the base identity must have signed.
pub open spec fn spec_process_initialize_avs(
    pid: Seq<u8>,
    config: RegionV,
    avs: RegionV,
    admin: RegionV,
    base: RegionV,
) -> Result<RegionV, RestakingError> {
    match spec_sanitize_config(pid, config, false) {
        Err(e) => Err(e),
        Ok(_) => match pda_of(spec_avs_seeds(base.key), pid) {
            None => Err(RestakingError::AddressMismatch),
            Some(found) => {
                if avs.key != found.0 {
                    Err(RestakingError::AddressMismatch)
                } else if avs.data.len() != 0 {
                    Err(RestakingError::AlreadyExists)
                } else if !admin.is_signer {
                    Err(RestakingError::AuthorizationFailure)
                } else if !base.is_signer {
                    Err(RestakingError::AuthorizationFailure)
                } else if !avs.is_writable {
                    Err(RestakingError::AuthorizationFailure)
                } else {
                    let c = AvsV {
                        account_type: AccountType::Avs,
                        admin: admin.key,
                        base: base.key,
                        vault_count: 0u64,
                        operator_count: 0u64,
                        slasher_count: 0u64,
                        reserved: zero_bytes(ENTITY_RESERVED_LEN as nat),
                        bump: found.1,
                    };
                    Ok(RegionV { owner: pid, data: spec_avs_bytes(c), ..avs })
                }
            },
        },
    }
}

/// Creates a service entity with all edge counters at zero. On success
/// the region holds the fresh record and validates under the
/// checked-access protocol.
pub fn process_initialize_avs(
    program_id: &Pubkey,
    config_region: &AccountRegion,
    avs_region: &mut AccountRegion,
    admin_region: &AccountRegion,
    base_region: &AccountRegion,
) -> (r: Result<(), RestakingError>)
    requires
        program_id.wf(),
        config_region.wf(),
        old(avs_region).wf(),
        admin_region.wf(),
        base_region.wf(),
    ensures
        final(avs_region).wf(),
        match r {
            Ok(()) => spec_process_initialize_avs(
                program_id@,
                config_region@,
                old(avs_region)@,
                admin_region@,
                base_region@,
            ) == Ok::<RegionV, RestakingError>(final(avs_region)@) && spec_checked_avs(
                program_id@,
                final(avs_region)@,
            ) is Ok,
            Err(e) => spec_process_initialize_avs(
                program_id@,
                config_region@,
                old(avs_region)@,
                admin_region@,
                base_region@,
            ) == Err::<RegionV, RestakingError>(e) && final(avs_region)@ == old(avs_region)@,
        },
{
    let _config = SanitizedConfig::sanitize(program_id, config_region, false)?;
    let found = match Avs::try_find_program_address(program_id, &base_region.key) {
        Some(f) => f,
        None => {
            return Err(RestakingError::AddressMismatch);
        },
    };
    if !found.0.key_eq(&avs_region.key) {
        return Err(RestakingError::AddressMismatch);
    }
    if avs_region.data.len() != 0 {
        return Err(RestakingError::AlreadyExists);
    }
    let _admin = SanitizedSignerAccount::sanitize(admin_region, false)?;
    let _base = SanitizedSignerAccount::sanitize(base_region, false)?;
    if !avs_region.is_writable {
        return Err(RestakingError::AuthorizationFailure);
    }
    let avs = Avs::new(admin_region.key.clone(), base_region.key.clone(), found.1);
    avs_region.owner = program_id.clone();
    avs_region.data = avs.to_bytes();
    proof {
        crate::avs::lemma_avs_roundtrip(avs@);
    }
    Ok(())
}

/// The create-an-operator-entity operation, the shape of
/// `spec_process_initialize_avs` with the operator's voter identity as an
/// extra field of the fresh record.
pub open spec fn spec_process_initialize_operator(
    pid: Seq<u8>,
    config: RegionV,
    operator: RegionV,
    admin: RegionV,
    base: RegionV,
    voter: Seq<u8>,
) -> Result<RegionV, RestakingError> {
    match spec_sanitize_config(pid, config, false) {
        Err(e) => Err(e),
        Ok(_) => match pda_of(spec_operator_seeds(base.key), pid) {
            None => Err(RestakingError::AddressMismatch),
            Some(found) => {
                if operator.key != found.0 {
                    Err(RestakingError::AddressMismatch)
                } else if operator.data.len() != 0 {
                    Err(RestakingError::AlreadyExists)
                } else if !admin.is_signer {
                    Err(RestakingError::AuthorizationFailure)
                } else if !base.is_signer {
                    Err(RestakingError::AuthorizationFailure)
                } else if !operator.is_writable {
                    Err(RestakingError::AuthorizationFailure)
                } else {
                    let c = OperatorV {
                        account_type: AccountType::Operator,
                        admin: admin.key,
                        base: base.key,
                        voter: voter,
                        vault_count: 0u64,
                        avs_count: 0u64,
                        reserved: zero_bytes(ENTITY_RESERVED_LEN as nat),
                        bump: found.1,
                    };
                    Ok(RegionV { owner: pid, data: spec_operator_bytes(c), ..operator })
                }
            },
        },
    }
}

/// Creates an operator entity with all edge counters at zero. On success
/// the region holds the fresh record and validates under the
/// checked-access protocol.
pub fn process_initialize_operator(
    program_id: &Pubkey,
    config_region: &AccountRegion,
    operator_region: &mut AccountRegion,
    admin_region: &AccountRegion,
    base_region: &AccountRegion,
    voter: &Pubkey,
) -> (r: Result<(), RestakingError>)
    requires
        program_id.wf(),
        config_region.wf(),
        old(operator_region).wf(),
        admin_region.wf(),
        base_region.wf(),
        voter.wf(),
    ensures
        final(operator_region).wf(),
        match r {
            Ok(()) => spec_process_initialize_operator(
                program_id@,
                config_region@,
                old(operator_region)@,
                admin_region@,
                base_region@,
                voter@,
            ) == Ok::<RegionV, RestakingError>(final(operator_region)@) && spec_checked_operator(
                program_id@,
                final(operator_region)@,
            ) is Ok,
            Err(e) => spec_process_initialize_operator(
                program_id@,
                config_region@,
                old(operator_region)@,
                admin_region@,
                base_region@,
                voter@,
            ) == Err::<RegionV, RestakingError>(e) && final(operator_region)@ == old(
                operator_region,
            )@,
        },
{
    let _config = SanitizedConfig::sanitize(program_id, config_region, false)?;
    let found = match Operator::try_find_program_address(program_id, &base_region.key) {
        Some(f) => f,
        None => {
            return Err(RestakingError::AddressMismatch);
        },
    };
    if !found.0.key_eq(&operator_region.key) {
        return Err(RestakingError::AddressMismatch);
    }
    if operator_region.data.len() != 0 {
        return Err(RestakingError::AlreadyExists);
    }
    let _admin = SanitizedSignerAccount::sanitize(admin_region, false)?;
    let _base = SanitizedSignerAccount::sanitize(base_region, false)?;
    if !operator_region.is_writable {
        return Err(RestakingError::AuthorizationFailure);
    }
    let operator = Operator::new(
        admin_region.key.clone(),
        base_region.key.clone(),
        voter.clone(),
        found.1,
    );
    operator_region.owner = program_id.clone();
    operator_region.data = operator.to_bytes();
    proof {
        crate::operator::lemma_operator_roundtrip(operator@);
    }
    Ok(())
}

/// The service-opts-into-a-vault operation: the configuration and the
/// service entity must validate, the entity region must be writable, the
/// signer must be the entity's stored admin, and the ticket then takes
/// the shared add transition. A created ticket receives the entity's
/// current vault counter as its ordinal index, and the counter advances
/// by one; a re-activated ticket leaves both untouched.
pub open spec fn spec_process_avs_add_vault(
    pid: Seq<u8>,
    config: RegionV,
    avs: RegionV,
    ticket: RegionV,
    admin: RegionV,
    vault: Seq<u8>,
    slot: u64,
) -> Result<(RegionV, RegionV), RestakingError> {
    match spec_sanitize_config(pid, config, false) {
        Err(e) => Err(e),
        Ok(_) => match spec_sanitize_avs(pid, avs, true) {
            Err(e) => Err(e),
            Ok(a) => {
                if !admin.is_signer {
                    Err(RestakingError::AuthorizationFailure)
                } else if admin.key != a.admin {
                    Err(RestakingError::AuthorizationFailure)
                } else {
                    match spec_add_edge_ticket(
                        pid,
                        AccountType::AvsVaultTicket,
                        avs.key,
                        vault,
                        zero_key(),
                        0u64,
                        a.vault_count,
                        ticket,
                        slot,
                    ) {
                        Err(e) => Err(e),
                        Ok(pair) => Ok(
                            (
                                RegionV {
                                    data: spec_avs_bytes(AvsV { vault_count: pair.1, ..a })
                                        + avs.data.skip(AVS_RECORD_LEN as int),
                                    ..avs
                                },
                                pair.0,
                            ),
                        ),
                    }
                }
            },
        },
    }
}

/// Opts a service entity into a vault.
pub fn process_avs_add_vault(
    program_id: &Pubkey,
    config_region: &AccountRegion,
    avs_region: &mut AccountRegion,
    ticket_region: &mut AccountRegion,
    admin_region: &AccountRegion,
    vault: &Pubkey,
    slot: u64,
) -> (r: Result<(), RestakingError>)
    requires
        program_id.wf(),
        config_region.wf(),
        old(avs_region).wf(),
        old(ticket_region).wf(),
        admin_region.wf(),
        vault.wf(),
        slot < NOT_REMOVED,
    ensures
        final(avs_region).wf(),
        final(ticket_region).wf(),
        match r {
            Ok(()) => spec_process_avs_add_vault(
                program_id@,
                config_region@,
                old(avs_region)@,
                old(ticket_region)@,
                admin_region@,
                vault@,
                slot,
            ) == Ok::<(RegionV, RegionV), RestakingError>(
                (final(avs_region)@, final(ticket_region)@),
            ),
            Err(e) => spec_process_avs_add_vault(
                program_id@,
                config_region@,
                old(avs_region)@,
                old(ticket_region)@,
                admin_region@,
                vault@,
                slot,
            ) == Err::<(RegionV, RegionV), RestakingError>(e) && final(avs_region)@ == old(
                avs_region,
            )@ && final(ticket_region)@ == old(ticket_region)@,
        },
{
    let _config = SanitizedConfig::sanitize(program_id, config_region, false)?;
    let mut avs_h = SanitizedAvs::sanitize(program_id, avs_region, true)?;
    let admin_s = SanitizedSignerAccount::sanitize(admin_region, false)?;
    avs_h.avs().check_admin(admin_s.account())?;
    let parent = avs_h.account().clone();
    let count = avs_h.avs().vault_count();
    let zero = Pubkey::zeroed();
    let new_count = add_edge_ticket(
        program_id,
        AccountType::AvsVaultTicket,
        &parent,
        vault,
        &zero,
        0,
        count,
        ticket_region,
        slot,
    )?;
    if new_count > count {
        let avs_mut = avs_h.avs_mut();
        let _ = avs_mut.increment_vault_count();
    }
    avs_h.save(avs_region)?;
    Ok(())
}

/// The service-opts-into-an-operator operation, the shape of
/// `spec_process_avs_add_vault` on the entity's operator counter.
pub open spec fn spec_process_avs_add_operator(
    pid: Seq<u8>,
    config: RegionV,
    avs: RegionV,
    ticket: RegionV,
    admin: RegionV,
    operator: Seq<u8>,
    slot: u64,
) -> Result<(RegionV, RegionV), RestakingError> {
    match spec_sanitize_config(pid, config, false) {
        Err(e) => Err(e),
        Ok(_) => match spec_sanitize_avs(pid, avs, true) {
            Err(e) => Err(e),
            Ok(a) => {
                if !admin.is_signer {
                    Err(RestakingError::AuthorizationFailure)
                } else if admin.key != a.admin {
                    Err(RestakingError::AuthorizationFailure)
                } else {
                    match spec_add_edge_ticket(
                        pid,
                        AccountType::AvsOperatorTicket,
                        avs.key,
                        operator,
                        zero_key(),
                        0u64,
                        a.operator_count,
                        ticket,
                        slot,
                    ) {
                        Err(e) => Err(e),
                        Ok(pair) => Ok(
                            (
                                RegionV {
                                    data: spec_avs_bytes(AvsV { operator_count: pair.1, ..a })
                                        + avs.data.skip(AVS_RECORD_LEN as int),
                                    ..avs
                                },
                                pair.0,
                            ),
                        ),
                    }
                }
            },
        },
    }
}

/// Opts a service entity into an operator.
pub fn process_avs_add_operator(
    program_id: &Pubkey,
    config_region: &AccountRegion,
    avs_region: &mut AccountRegion,
    ticket_region: &mut AccountRegion,
    admin_region: &AccountRegion,
    operator: &Pubkey,
    slot: u64,
) -> (r: Result<(), RestakingError>)
    requires
        program_id.wf(),
        config_region.wf(),
        old(avs_region).wf(),
        old(ticket_region).wf(),
        admin_region.wf(),
        operator.wf(),
        slot < NOT_REMOVED,
    ensures
        final(avs_region).wf(),
        final(ticket_region).wf(),
        match r {
            Ok(()) => spec_process_avs_add_operator(
                program_id@,
                config_region@,
                old(avs_region)@,
                old(ticket_region)@,
                admin_region@,
                operator@,
                slot,
            ) == Ok::<(RegionV, RegionV), RestakingError>(
                (final(avs_region)@, final(ticket_region)@),
            ),
            Err(e) => spec_process_avs_add_operator(
                program_id@,
                config_region@,
                old(avs_region)@,
                old(ticket_region)@,
                admin_region@,
                operator@,
                slot,
            ) == Err::<(RegionV, RegionV), RestakingError>(e) && final(avs_region)@ == old(
                avs_region,
            )@ && final(ticket_region)@ == old(ticket_region)@,
        },
{
    let _config = SanitizedConfig::sanitize(program_id, config_region, false)?;
    let mut parent_h = SanitizedAvs::sanitize(program_id, avs_region, true)?;
    let admin_s = SanitizedSignerAccount::sanitize(admin_region, false)?;
    parent_h.avs().check_admin(admin_s.account())?;
    let parent = parent_h.account().clone();
    let count = parent_h.avs().operator_count();
    let zero = Pubkey::zeroed();
    let new_count = add_edge_ticket(
        program_id,
        AccountType::AvsOperatorTicket,
        &parent,
        operator,
        &zero,
        0,
        count,
        ticket_region,
        slot,
    )?;
    if new_count > count {
        let parent_mut = parent_h.avs_mut();
        let _ = parent_mut.increment_operator_count();
    }
    parent_h.save(avs_region)?;
    Ok(())
}

/// The service-accepts-a-slasher-for-a-vault operation, the shape of
/// `spec_process_avs_add_vault` on the entity's slasher counter, with the
/// slasher as third endpoint and the slash bound as ticket payload.
pub open spec fn spec_process_avs_add_vault_slasher(
    pid: Seq<u8>,
    config: RegionV,
    avs: RegionV,
    ticket: RegionV,
    admin: RegionV,
    vault: Seq<u8>,
    slasher: Seq<u8>,
    max_slash_amount: u64,
    slot: u64,
) -> Result<(RegionV, RegionV), RestakingError> {
    match spec_sanitize_config(pid, config, false) {
        Err(e) => Err(e),
        Ok(_) => match spec_sanitize_avs(pid, avs, true) {
            Err(e) => Err(e),
            Ok(a) => {
                if !admin.is_signer {
                    Err(RestakingError::AuthorizationFailure)
                } else if admin.key != a.admin {
                    Err(RestakingError::AuthorizationFailure)
                } else {
                    match spec_add_edge_ticket(
                        pid,
                        AccountType::AvsVaultSlasherTicket,
                        avs.key,
                        vault,
                        slasher,
                        max_slash_amount,
                        a.slasher_count,
                        ticket,
                        slot,
                    ) {
                        Err(e) => Err(e),
                        Ok(pair) => Ok(
                            (
                                RegionV {
                                    data: spec_avs_bytes(AvsV { slasher_count: pair.1, ..a })
                                        + avs.data.skip(AVS_RECORD_LEN as int),
                                    ..avs
                                },
                                pair.0,
                            ),
                        ),
                    }
                }
            },
        },
    }
}

/// Opts a service entity into a slasher for one of its vaults.
pub fn process_avs_add_vault_slasher(
    program_id: &Pubkey,
    config_region: &AccountRegion,
    avs_region: &mut AccountRegion,
    ticket_region: &mut AccountRegion,
    admin_region: &AccountRegion,
    vault: &Pubkey,
    slasher: &Pubkey,
    max_slash_amount: u64,
    slot: u64,
) -> (r: Result<(), RestakingError>)
    requires
        program_id.wf(),
        config_region.wf(),
        old(avs_region).wf(),
        old(ticket_region).wf(),
        admin_region.wf(),
        vault.wf(),
        slasher.wf(),
        slot < NOT_REMOVED,
    ensures
        final(avs_region).wf(),
        final(ticket_region).wf(),
        match r {
            Ok(()) => spec_process_avs_add_vault_slasher(
                program_id@,
                config_region@,
                old(avs_region)@,
                old(ticket_region)@,
                admin_region@,
                vault@,
                slasher@,
                max_slash_amount,
                slot,
            ) == Ok::<(RegionV, RegionV), RestakingError>(
                (final(avs_region)@, final(ticket_region)@),
            ),
            Err(e) => spec_process_avs_add_vault_slasher(
                program_id@,
                config_region@,
                old(avs_region)@,
                old(ticket_region)@,
                admin_region@,
                vault@,
                slasher@,
                max_slash_amount,
                slot,
            ) == Err::<(RegionV, RegionV), RestakingError>(e) && final(avs_region)@ == old(
                avs_region,
            )@ && final(ticket_region)@ == old(ticket_region)@,
        },
{
    let _config = SanitizedConfig::sanitize(program_id, config_region, false)?;
    let mut parent_h = SanitizedAvs::sanitize(program_id, avs_region, true)?;
    let admin_s = SanitizedSignerAccount::sanitize(admin_region, false)?;
    parent_h.avs().check_admin(admin_s.account())?;
    let parent = parent_h.account().clone();
    let count = parent_h.avs().slasher_count();

    let new_count = add_edge_ticket(
        program_id,
        AccountType::AvsVaultSlasherTicket,
        &parent,
        vault,
        slasher,
        max_slash_amount,
        count,
        ticket_region,
        slot,
    )?;
    if new_count > count {
        let parent_mut = parent_h.avs_mut();
        let _ = parent_mut.increment_slasher_count();
    }
    parent_h.save(avs_region)?;
    Ok(())
}

/// The operator-opts-into-a-vault operation, the shape of
/// `spec_process_avs_add_vault` with the operator entity as parent.
pub open spec fn spec_process_operator_add_vault(
    pid: Seq<u8>,
    config: RegionV,
    operator: RegionV,
    ticket: RegionV,
    admin: RegionV,
    vault: Seq<u8>,
    slot: u64,
) -> Result<(RegionV, RegionV), RestakingError> {
    match spec_sanitize_config(pid, config, false) {
        Err(e) => Err(e),
        Ok(_) => match spec_sanitize_operator(pid, operator, true) {
            Err(e) => Err(e),
            Ok(a) => {
                if !admin.is_signer {
                    Err(RestakingError::AuthorizationFailure)
                } else if admin.key != a.admin {
                    Err(RestakingError::AuthorizationFailure)
                } else {
                    match spec_add_edge_ticket(
                        pid,
                        AccountType::OperatorVaultTicket,
                        operator.key,
                        vault,
                        zero_key(),
                        0u64,
                        a.vault_count,
                        ticket,
                        slot,
                    ) {
                        Err(e) => Err(e),
                        Ok(pair) => Ok(
                            (
                                RegionV {
                                    data: spec_operator_bytes(OperatorV { vault_count: pair.1, ..a })
                                        + operator.data.skip(OPERATOR_RECORD_LEN as int),
                                    ..operator
                                },
                                pair.0,
                            ),
                        ),
                    }
                }
            },
        },
    }
}

/// Opts an operator entity into a vault.
pub fn process_operator_add_vault(
    program_id: &Pubkey,
    config_region: &AccountRegion,
    operator_region: &mut AccountRegion,
    ticket_region: &mut AccountRegion,
    admin_region: &AccountRegion,
    vault: &Pubkey,
    slot: u64,
) -> (r: Result<(), RestakingError>)
    requires
        program_id.wf(),
        config_region.wf(),
        old(operator_region).wf(),
        old(ticket_region).wf(),
        admin_region.wf(),
        vault.wf(),
        slot < NOT_REMOVED,
    ensures
        final(operator_region).wf(),
        final(ticket_region).wf(),
        match r {
            Ok(()) => spec_process_operator_add_vault(
                program_id@,
                config_region@,
                old(operator_region)@,
                old(ticket_region)@,
                admin_region@,
                vault@,
                slot,
            ) == Ok::<(RegionV, RegionV), RestakingError>(
                (final(operator_region)@, final(ticket_region)@),
            ),
            Err(e) => spec_process_operator_add_vault(
                program_id@,
                config_region@,
                old(operator_region)@,
                old(ticket_region)@,
                admin_region@,
                vault@,
                slot,
            ) == Err::<(RegionV, RegionV), RestakingError>(e) && final(operator_region)@ == old(
                operator_region,
            )@ && final(ticket_region)@ == old(ticket_region)@,
        },
{
    let _config = SanitizedConfig::sanitize(program_id, config_region, false)?;
    let mut parent_h = SanitizedOperator::sanitize(program_id, operator_region, true)?;
    let admin_s = SanitizedSignerAccount::sanitize(admin_region, false)?;
    parent_h.operator().check_admin(admin_s.account())?;
    let parent = parent_h.account().clone();
    let count = parent_h.operator().vault_count();
    let zero = Pubkey::zeroed();
    let new_count = add_edge_ticket(
        program_id,
        AccountType::OperatorVaultTicket,
        &parent,
        vault,
        &zero,
        0,
        count,
        ticket_region,
        slot,
    )?;
    if new_count > count {
        let parent_mut = parent_h.operator_mut();
        let _ = parent_mut.increment_vault_count();
    }
    parent_h.save(operator_region)?;
    Ok(())
}

/// The operator-opts-into-a-service operation, the shape of
/// `spec_process_avs_add_vault` with the operator entity as parent.
pub open spec fn spec_process_operator_add_avs(
    pid: Seq<u8>,
    config: RegionV,
    operator: RegionV,
    ticket: RegionV,
    admin: RegionV,
    avs: Seq<u8>,
    slot: u64,
) -> Result<(RegionV, RegionV), RestakingError> {
    match spec_sanitize_config(pid, config, false) {
        Err(e) => Err(e),
        Ok(_) => match spec_sanitize_operator(pid, operator, true) {
            Err(e) => Err(e),
            Ok(a) => {
                if !admin.is_signer {
                    Err(RestakingError::AuthorizationFailure)
                } else if admin.key != a.admin {
                    Err(RestakingError::AuthorizationFailure)
                } else {
                    match spec_add_edge_ticket(
                        pid,
                        AccountType::OperatorAvsTicket,
                        operator.key,
                        avs,
                        zero_key(),
                        0u64,
                        a.avs_count,
                        ticket,
                        slot,
                    ) {
                        Err(e) => Err(e),
                        Ok(pair) => Ok(
                            (
                                RegionV {
                                    data: spec_operator_bytes(OperatorV { avs_count: pair.1, ..a })
                                        + operator.data.skip(OPERATOR_RECORD_LEN as int),
                                    ..operator
                                },
                                pair.0,
                            ),
                        ),
                    }
                }
            },
        },
    }
}

/// Opts an operator entity into a service entity.
pub fn process_operator_add_avs(
    program_id: &Pubkey,
    config_region: &AccountRegion,
    operator_region: &mut AccountRegion,
    ticket_region: &mut AccountRegion,
    admin_region: &AccountRegion,
    avs: &Pubkey,
    slot: u64,
) -> (r: Result<(), RestakingError>)
    requires
        program_id.wf(),
        config_region.wf(),
        old(operator_region).wf(),
        old(ticket_region).wf(),
        admin_region.wf(),
        avs.wf(),
        slot < NOT_REMOVED,
    ensures
        final(operator_region).wf(),
        final(ticket_region).wf(),
        match r {
            Ok(()) => spec_process_operator_add_avs(
                program_id@,
                config_region@,
                old(operator_region)@,
                old(ticket_region)@,
                admin_region@,
                avs@,
                slot,
            ) == Ok::<(RegionV, RegionV), RestakingError>(
                (final(operator_region)@, final(ticket_region)@),
            ),
            Err(e) => spec_process_operator_add_avs(
                program_id@,
                config_region@,
                old(operator_region)@,
                old(ticket_region)@,
                admin_region@,
                avs@,
                slot,
            ) == Err::<(RegionV, RegionV), RestakingError>(e) && final(operator_region)@ == old(
                operator_region,
            )@ && final(ticket_region)@ == old(ticket_region)@,
        },
{
    let _config = SanitizedConfig::sanitize(program_id, config_region, false)?;
    let mut parent_h = SanitizedOperator::sanitize(program_id, operator_region, true)?;
    let admin_s = SanitizedSignerAccount::sanitize(admin_region, false)?;
    parent_h.operator().check_admin(admin_s.account())?;
    let parent = parent_h.account().clone();
    let count = parent_h.operator().avs_count();
    let zero = Pubkey::zeroed();
    let new_count = add_edge_ticket(
        program_id,
        AccountType::OperatorAvsTicket,
        &parent,
        avs,
        &zero,
        0,
        count,
        ticket_region,
        slot,
    )?;
    if new_count > count {
        let parent_mut = parent_h.operator_mut();
        let _ = parent_mut.increment_avs_count();
    }
    parent_h.save(operator_region)?;
    Ok(())
}

/// The service-drops-a-vault operation: the configuration and the
/// service entity must validate, the signer must be the entity's stored
/// admin, and the ticket then takes the shared remove transition; the
/// entity's counter is untouched.
pub open spec fn spec_process_avs_remove_vault(
    pid: Seq<u8>,
    config: RegionV,
    avs: RegionV,
    ticket: RegionV,
    admin: RegionV,
    vault: Seq<u8>,
    slot: u64,
) -> Result<RegionV, RestakingError> {
    match spec_sanitize_config(pid, config, false) {
        Err(e) => Err(e),
        Ok(_) => match spec_sanitize_avs(pid, avs, false) {
            Err(e) => Err(e),
            Ok(a) => {
                if !admin.is_signer {
                    Err(RestakingError::AuthorizationFailure)
                } else if admin.key != a.admin {
                    Err(RestakingError::AuthorizationFailure)
                } else {
                    spec_remove_edge_ticket(
                        pid,
                        AccountType::AvsVaultTicket,
                        avs.key,
                        vault,
                        zero_key(),
                        ticket,
                        slot,
                    )
                }
            },
        },
    }
}

/// Removes a vault edge of a service entity.
pub fn process_avs_remove_vault(
    program_id: &Pubkey,
    config_region: &AccountRegion,
    avs_region: &AccountRegion,
    ticket_region: &mut AccountRegion,
    admin_region: &AccountRegion,
    vault: &Pubkey,
    slot: u64,
) -> (r: Result<(), RestakingError>)
    requires
        program_id.wf(),
        config_region.wf(),
        avs_region.wf(),
        old(ticket_region).wf(),
        admin_region.wf(),
        vault.wf(),
        slot < NOT_REMOVED,
    ensures
        final(ticket_region).wf(),
        match r {
            Ok(()) => spec_process_avs_remove_vault(
                program_id@,
                config_region@,
                avs_region@,
                old(ticket_region)@,
                admin_region@,
                vault@,
                slot,
            ) == Ok::<RegionV, RestakingError>(final(ticket_region)@),
            Err(e) => spec_process_avs_remove_vault(
                program_id@,
                config_region@,
                avs_region@,
                old(ticket_region)@,
                admin_region@,
                vault@,
                slot,
            ) == Err::<RegionV, RestakingError>(e) && final(ticket_region)@ == old(ticket_region)@,
        },
{
    let _config = SanitizedConfig::sanitize(program_id, config_region, false)?;
    let parent_h = SanitizedAvs::sanitize(program_id, avs_region, false)?;
    let admin_s = SanitizedSignerAccount::sanitize(admin_region, false)?;
    parent_h.avs().check_admin(admin_s.account())?;
    let parent = parent_h.account().clone();
    let zero = Pubkey::zeroed();
    remove_edge_ticket(
        program_id,
        AccountType::AvsVaultTicket,
        &parent,
        vault,
        &zero,
        ticket_region,
        slot,
    )?;
    Ok(())
}

/// The service-drops-an-operator operation, the shape of
/// `spec_process_avs_remove_vault`.
pub open spec fn spec_process_avs_remove_operator(
    pid: Seq<u8>,
    config: RegionV,
    avs: RegionV,
    ticket: RegionV,
    admin: RegionV,
    operator: Seq<u8>,
    slot: u64,
) -> Result<RegionV, RestakingError> {
    match spec_sanitize_config(pid, config, false) {
        Err(e) => Err(e),
        Ok(_) => match spec_sanitize_avs(pid, avs, false) {
            Err(e) => Err(e),
            Ok(a) => {
                if !admin.is_signer {
                    Err(RestakingError::AuthorizationFailure)
                } else if admin.key != a.admin {
                    Err(RestakingError::AuthorizationFailure)
                } else {
                    spec_remove_edge_ticket(
                        pid,
                        AccountType::AvsOperatorTicket,
                        avs.key,
                        operator,
                        zero_key(),
                        ticket,
                        slot,
                    )
                }
            },
        },
    }
}

/// Removes an operator edge of a service entity.
pub fn process_avs_remove_operator(
    program_id: &Pubkey,
    config_region: &AccountRegion,
    avs_region: &AccountRegion,
    ticket_region: &mut AccountRegion,
    admin_region: &AccountRegion,
    operator: &Pubkey,
    slot: u64,
) -> (r: Result<(), RestakingError>)
    requires
        program_id.wf(),
        config_region.wf(),
        avs_region.wf(),
        old(ticket_region).wf(),
        admin_region.wf(),
        operator.wf(),
        slot < NOT_REMOVED,
    ensures
        final(ticket_region).wf(),
        match r {
            Ok(()) => spec_process_avs_remove_operator(
                program_id@,
                config_region@,
                avs_region@,
                old(ticket_region)@,
                admin_region@,
                operator@,
                slot,
            ) == Ok::<RegionV, RestakingError>(final(ticket_region)@),
            Err(e) => spec_process_avs_remove_operator(
                program_id@,
                config_region@,
                avs_region@,
                old(ticket_region)@,
                admin_region@,
                operator@,
                slot,
            ) == Err::<RegionV, RestakingError>(e) && final(ticket_region)@ == old(ticket_region)@,
        },
{
    let _config = SanitizedConfig::sanitize(program_id, config_region, false)?;
    let parent_h = SanitizedAvs::sanitize(program_id, avs_region, false)?;
    let admin_s = SanitizedSignerAccount::sanitize(admin_region, false)?;
    parent_h.avs().check_admin(admin_s.account())?;
    let parent = parent_h.account().clone();
    let zero = Pubkey::zeroed();
    remove_edge_ticket(
        program_id,
        AccountType::AvsOperatorTicket,
        &parent,
        operator,
        &zero,
        ticket_region,
        slot,
    )?;
    Ok(())
}

/// The service-drops-a-slasher operation, the shape of
/// `spec_process_avs_remove_vault` with the slasher as third endpoint.
pub open spec fn spec_process_avs_remove_vault_slasher(
    pid: Seq<u8>,
    config: RegionV,
    avs: RegionV,
    ticket: RegionV,
    admin: RegionV,
    vault: Seq<u8>,
    slasher: Seq<u8>,
    slot: u64,
) -> Result<RegionV, RestakingError> {
    match spec_sanitize_config(pid, config, false) {
        Err(e) => Err(e),
        Ok(_) => match spec_sanitize_avs(pid, avs, false) {
            Err(e) => Err(e),
            Ok(a) => {
                if !admin.is_signer {
                    Err(RestakingError::AuthorizationFailure)
                } else if admin.key != a.admin {
                    Err(RestakingError::AuthorizationFailure)
                } else {
                    spec_remove_edge_ticket(
                        pid,
                        AccountType::AvsVaultSlasherTicket,
                        avs.key,
                        vault,
                        slasher,
                        ticket,
                        slot,
                    )
                }
            },
        },
    }
}

/// Removes a vault-slasher edge of a service entity.
pub fn process_avs_remove_vault_slasher(
    program_id: &Pubkey,
    config_region: &AccountRegion,
    avs_region: &AccountRegion,
    ticket_region: &mut AccountRegion,
    admin_region: &AccountRegion,
    vault: &Pubkey,
    slasher: &Pubkey,
    slot: u64,
) -> (r: Result<(), RestakingError>)
    requires
        program_id.wf(),
        config_region.wf(),
        avs_region.wf(),
        old(ticket_region).wf(),
        admin_region.wf(),
        vault.wf(),
        slasher.wf(),
        slot < NOT_REMOVED,
    ensures
        final(ticket_region).wf(),
        match r {
            Ok(()) => spec_process_avs_remove_vault_slasher(
                program_id@,
                config_region@,
                avs_region@,
                old(ticket_region)@,
                admin_region@,
                vault@,
                slasher@,
                slot,
            ) == Ok::<RegionV, RestakingError>(final(ticket_region)@),
            Err(e) => spec_process_avs_remove_vault_slasher(
                program_id@,
                config_region@,
                avs_region@,
                old(ticket_region)@,
                admin_region@,
                vault@,
                slasher@,
                slot,
            ) == Err::<RegionV, RestakingError>(e) && final(ticket_region)@ == old(ticket_region)@,
        },
{
    let _config = SanitizedConfig::sanitize(program_id, config_region, false)?;
    let parent_h = SanitizedAvs::sanitize(program_id, avs_region, false)?;
    let admin_s = SanitizedSignerAccount::sanitize(admin_region, false)?;
    parent_h.avs().check_admin(admin_s.account())?;
    let parent = parent_h.account().clone();

    remove_edge_ticket(
        program_id,
        AccountType::AvsVaultSlasherTicket,
        &parent,
        vault,
        slasher,
        ticket_region,
        slot,
    )?;
    Ok(())
}

/// The operator-drops-a-service operation, the shape of
/// `spec_process_avs_remove_vault` with the operator entity as parent.
pub open spec fn spec_process_operator_remove_avs(
    pid: Seq<u8>,
    config: RegionV,
    operator: RegionV,
    ticket: RegionV,
    admin: RegionV,
    avs: Seq<u8>,
    slot: u64,
) -> Result<RegionV, RestakingError> {
    match spec_sanitize_config(pid, config, false) {
        Err(e) => Err(e),
        Ok(_) => match spec_sanitize_operator(pid, operator, false) {
            Err(e) => Err(e),
            Ok(a) => {
                if !admin.is_signer {
                    Err(RestakingError::AuthorizationFailure)
                } else if admin.key != a.admin {
                    Err(RestakingError::AuthorizationFailure)
                } else {
                    spec_remove_edge_ticket(
                        pid,
                        AccountType::OperatorAvsTicket,
                        operator.key,
                        avs,
                        zero_key(),
                        ticket,
                        slot,
                    )
                }
            },
        },
    }
}

/// Removes a service edge of an operator entity.
pub fn process_operator_remove_avs(
    program_id: &Pubkey,
    config_region: &AccountRegion,
    operator_region: &AccountRegion,
    ticket_region: &mut AccountRegion,
    admin_region: &AccountRegion,
    avs: &Pubkey,
    slot: u64,
) -> (r: Result<(), RestakingError>)
    requires
        program_id.wf(),
        config_region.wf(),
        operator_region.wf(),
        old(ticket_region).wf(),
        admin_region.wf(),
        avs.wf(),
        slot < NOT_REMOVED,
    ensures
        final(ticket_region).wf(),
        match r {
            Ok(()) => spec_process_operator_remove_avs(
                program_id@,
                config_region@,
                operator_region@,
                old(ticket_region)@,
                admin_region@,
                avs@,
                slot,
            ) == Ok::<RegionV, RestakingError>(final(ticket_region)@),
            Err(e) => spec_process_operator_remove_avs(
                program_id@,
                config_region@,
                operator_region@,
                old(ticket_region)@,
                admin_region@,
                avs@,
                slot,
            ) == Err::<RegionV, RestakingError>(e) && final(ticket_region)@ == old(ticket_region)@,
        },
{
    let _config = SanitizedConfig::sanitize(program_id, config_region, false)?;
    let parent_h = SanitizedOperator::sanitize(program_id, operator_region, false)?;
    let admin_s = SanitizedSignerAccount::sanitize(admin_region, false)?;
    parent_h.operator().check_admin(admin_s.account())?;
    let parent = parent_h.account().clone();
    let zero = Pubkey::zeroed();
    remove_edge_ticket(
        program_id,
        AccountType::OperatorAvsTicket,
        &parent,
        avs,
        &zero,
        ticket_region,
        slot,
    )?;
    Ok(())
}

} // verus!
