use vstd::prelude::*;

use crate::account_type::AccountType;
use crate::config::{spec_sanitize_config, SanitizedConfig};
use crate::error::RestakingError;
use crate::operator::{spec_sanitize_operator, OperatorV, SanitizedOperator};
use crate::pubkey::{zero_key, Pubkey};
use crate::region::{AccountRegion, RegionV};
use crate::sanitization::SanitizedSignerAccount;
use crate::ticket::{
    spec_deactivate, spec_sanitize_ticket, spec_ticket_bytes, EdgeTicket, TicketV, NOT_REMOVED,
};

verus! {

/// The account validation of the operator-drops-a-vault operation: the
/// configuration, the operator entity and the operator-vault ticket must
/// all validate, the ticket writable and really the edge between the
/// named operator and the named vault — a validly-stored ticket of a
/// different operator or vault is refused here, before the signer is
/// looked at — and the admin must have signed.
pub open spec fn spec_sanitize_accounts(
    pid: Seq<u8>,
    config: RegionV,
    operator: RegionV,
    ticket: RegionV,
    admin: RegionV,
    vault: Seq<u8>,
) -> Result<(OperatorV, TicketV), RestakingError> {
    match spec_sanitize_config(pid, config, false) {
        Err(e) => Err(e),
        Ok(_) => match spec_sanitize_operator(pid, operator, false) {
            Err(e) => Err(e),
            Ok(op) => match spec_sanitize_ticket(
                pid,
                AccountType::OperatorVaultTicket,
                ticket,
                true,
            ) {
                Err(e) => Err(e),
                Ok(t) => {
                    if t.parent != operator.key || t.child != vault || t.third != zero_key() {
                        Err(RestakingError::AddressMismatch)
                    } else if !admin.is_signer {
                        Err(RestakingError::AuthorizationFailure)
                    } else {
                        Ok((op, t))
                    }
                },
            },
        },
    }
}

/// The operator-drops-a-vault operation: after the account validation of
/// `spec_sanitize_accounts` — which already pinned the ticket to the
/// named operator and vault — the signer must be the operator's stored
/// admin; the edge then takes the remove transition at `slot`, its
/// ordinal index untouched. Only the ticket region changes.
pub open spec fn spec_process_operator_remove_vault(
    pid: Seq<u8>,
    config: RegionV,
    operator: RegionV,
    ticket: RegionV,
    admin: RegionV,
    vault: Seq<u8>,
    slot: u64,
) -> Result<RegionV, RestakingError> {
    match spec_sanitize_accounts(pid, config, operator, ticket, admin, vault) {
        Err(e) => Err(e),
        Ok(pair) => {
            if admin.key != pair.0.admin {
                Err(RestakingError::AuthorizationFailure)
            } else {
                match spec_deactivate(pair.1.state, slot) {
                    Err(e) => Err(e),
                    Ok(s) => Ok(
                        RegionV {
                            data: spec_ticket_bytes(TicketV { state: s, ..pair.1 })
                                + ticket.data.skip(crate::ticket::TICKET_RECORD_LEN as int),
                            ..ticket
                        },
                    ),
                }
            }
        },
    }
}

/// The validated accounts of the operator-drops-a-vault operation.
pub struct SanitizedAccounts {
    operator: SanitizedOperator,
    ticket: EdgeTicket,
    admin: SanitizedSignerAccount,
    vault: Pubkey,
}

impl SanitizedAccounts {
    /// The validated operator record.
    pub closed spec fn spec_operator(&self) -> OperatorV {
        self.operator.spec_operator()
    }

    /// The address the operator record was validated at.
    pub closed spec fn spec_operator_account(&self) -> Seq<u8> {
        self.operator.spec_account()
    }

    /// The validated ticket record.
    pub closed spec fn spec_ticket(&self) -> TicketV {
        self.ticket@
    }

    /// The validated signer identity.
    pub closed spec fn spec_admin(&self) -> Seq<u8> {
        self.admin.spec_account()
    }

    /// The named vault address.
    pub closed spec fn spec_vault(&self) -> Seq<u8> {
        self.vault@
    }

    /// Validates the accounts of the operator-drops-a-vault operation:
    /// the configuration and the operator entity read-only, the ticket
    /// writable and pinned to the named operator and vault, the admin as
    /// signer; the vault region is taken by its address alone.
    pub fn sanitize(
        program_id: &Pubkey,
        config_region: &AccountRegion,
        operator_region: &AccountRegion,
        ticket_region: &AccountRegion,
        admin_region: &AccountRegion,
        vault_region: &AccountRegion,
    ) -> (r: Result<SanitizedAccounts, RestakingError>)
        requires
            program_id.wf(),
            config_region.wf(),
            operator_region.wf(),
            ticket_region.wf(),
            admin_region.wf(),
            vault_region.wf(),
        ensures
            match r {
                Ok(s) => {
                    &&& spec_sanitize_accounts(
                        program_id@,
                        config_region@,
                        operator_region@,
                        ticket_region@,
                        admin_region@,
                        vault_region@.key,
                    ) == Ok::<(OperatorV, TicketV), RestakingError>(
                        (s.spec_operator(), s.spec_ticket()),
                    )
                    &&& s.spec_operator_account() == operator_region@.key
                    &&& s.spec_operator().wf()
                    &&& s.spec_ticket().wf()
                    &&& s.spec_admin() == admin_region@.key
                    &&& s.spec_vault() == vault_region@.key
                },
                Err(e) => spec_sanitize_accounts(
                    program_id@,
                    config_region@,
                    operator_region@,
                    ticket_region@,
                    admin_region@,
                    vault_region@.key,
                ) == Err::<(OperatorV, TicketV), RestakingError>(e),
            },
    {
        let _config = SanitizedConfig::sanitize(program_id, config_region, false)?;
        let operator = SanitizedOperator::sanitize(program_id, operator_region, false)?;
        let ticket = EdgeTicket::deserialize_checked(
            program_id,
            ticket_region,
            AccountType::OperatorVaultTicket,
        )?;
        if !ticket_region.is_writable {
            return Err(RestakingError::AuthorizationFailure);
        }
        let stored_parent = ticket.parent();
        let stored_child = ticket.child();
        let stored_third = ticket.third();
        let zero = Pubkey::zeroed();
        if !stored_parent.key_eq(&operator_region.key) || !stored_child.key_eq(&vault_region.key)
            || !stored_third.key_eq(&zero) {
            return Err(RestakingError::AddressMismatch);
        }
        let admin = SanitizedSignerAccount::sanitize(admin_region, false)?;
        let vault = vault_region.key.clone();
        Ok(SanitizedAccounts { operator, ticket, admin, vault })
    }
}

/// Removes a vault edge of an operator entity: validates every named
/// account, checks the admin, runs the remove transition on the ticket,
/// and persists the ticket alone.
pub fn process_operator_remove_vault(
    program_id: &Pubkey,
    config_region: &AccountRegion,
    operator_region: &AccountRegion,
    ticket_region: &mut AccountRegion,
    admin_region: &AccountRegion,
    vault_region: &AccountRegion,
    slot: u64,
) -> (r: Result<(), RestakingError>)
    requires
        program_id.wf(),
        config_region.wf(),
        operator_region.wf(),
        old(ticket_region).wf(),
        admin_region.wf(),
        vault_region.wf(),
        slot < NOT_REMOVED,
    ensures
        final(ticket_region).wf(),
        match r {
            Ok(()) => spec_process_operator_remove_vault(
                program_id@,
                config_region@,
                operator_region@,
                old(ticket_region)@,
                admin_region@,
                vault_region@.key,
                slot,
            ) == Ok::<RegionV, RestakingError>(final(ticket_region)@),
            Err(e) => spec_process_operator_remove_vault(
                program_id@,
                config_region@,
                operator_region@,
                old(ticket_region)@,
                admin_region@,
                vault_region@.key,
                slot,
            ) == Err::<RegionV, RestakingError>(e) && final(ticket_region)@ == old(ticket_region)@,
        },
{
    let accounts = SanitizedAccounts::sanitize(
        program_id,
        config_region,
        operator_region,
        ticket_region,
        admin_region,
        vault_region,
    )?;
    let SanitizedAccounts { operator, mut ticket, admin, vault: _vault } = accounts;
    operator.operator().check_admin(admin.account())?;
    ticket.deactivate(slot)?;
    let new_data = crate::codec::splice_record(&ticket_region.data, ticket.to_bytes());
    ticket_region.data = new_data;
    Ok(())
}

} // verus!
