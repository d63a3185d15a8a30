use vstd::prelude::*;

use crate::account_type::AccountType;
use crate::codec::zero_bytes;
use crate::error::RestakingError;
use crate::pda::{pda_of, solana_try_find_program_address};
use crate::pubkey::Pubkey;
use crate::region::{AccountRegion, RegionV};
use crate::seeds::{spec_is_ticket_type, spec_ticket_seeds, ticket_seeds};
use crate::ticket::{
    spec_activate, spec_deactivate, spec_new_active, spec_sanitize_ticket, spec_ticket_bytes,
    EdgeTicket, TicketV, NOT_REMOVED, TICKET_RECORD_LEN, TICKET_RESERVED_LEN,
};

verus! {

/// The shared add transition of all five edge kinds, on the ticket side.
///
/// An empty region means the edge was never created: the region must sit
/// at the canonical ticket address, be writable, and the parent's counter
/// must still be representable; the ticket is then created active at
/// `slot`, its ordinal index is the counter's old value, and the counter
/// advances by exactly one. An occupied region must validate as this very
/// ticket; the edge is then re-activated, its index, the counter and any
/// over-allocated tail of the region untouched.
pub open spec fn spec_add_edge_ticket(
    pid: Seq<u8>,
    t: AccountType,
    parent: Seq<u8>,
    child: Seq<u8>,
    third: Seq<u8>,
    max_slash_amount: u64,
    counter: u64,
    ticket: RegionV,
    slot: u64,
) -> Result<(RegionV, u64), RestakingError> {
    if ticket.data.len() == 0 {
        match pda_of(spec_ticket_seeds(t, parent, child, third), pid) {
            None => Err(RestakingError::AddressMismatch),
            Some(found) => {
                if ticket.key != found.0 {
                    Err(RestakingError::AddressMismatch)
                } else if !ticket.is_writable {
                    Err(RestakingError::AuthorizationFailure)
                } else if counter == u64::MAX {
                    Err(RestakingError::CounterOverflow)
                } else {
                    let c = TicketV {
                        account_type: t,
                        parent: parent,
                        child: child,
                        third: third,
                        max_slash_amount: max_slash_amount,
                        index: counter,
                        state: spec_new_active(slot),
                        reserved: zero_bytes(TICKET_RESERVED_LEN as nat),
                        bump: found.1,
                    };
                    Ok(
                        (
                            RegionV { owner: pid, data: spec_ticket_bytes(c), ..ticket },
                            (counter + 1) as u64,
                        ),
                    )
                }
            },
        }
    } else {
        match spec_sanitize_ticket(pid, t, ticket, true) {
            Err(e) => Err(e),
            Ok(c) => {
                if c.parent != parent || c.child != child || c.third != third {
                    Err(RestakingError::AddressMismatch)
                } else {
                    match spec_activate(c.state, slot) {
                        Err(e) => Err(e),
                        Ok(s) => Ok(
                            (
                                RegionV {
                                    data: spec_ticket_bytes(TicketV { state: s, ..c })
                                        + ticket.data.skip(TICKET_RECORD_LEN as int),
                                    ..ticket
                                },
                                counter,
                            ),
                        ),
                    }
                }
            },
        }
    }
}

/// The shared remove transition of all five edge kinds, on the ticket
/// side: the region must validate as this very ticket and be writable;
/// the edge is then removed at `slot`, its index untouched.
pub open spec fn spec_remove_edge_ticket(
    pid: Seq<u8>,
    t: AccountType,
    parent: Seq<u8>,
    child: Seq<u8>,
    third: Seq<u8>,
    ticket: RegionV,
    slot: u64,
) -> Result<RegionV, RestakingError> {
    match spec_sanitize_ticket(pid, t, ticket, true) {
        Err(e) => Err(e),
        Ok(c) => {
            if c.parent != parent || c.child != child || c.third != third {
                Err(RestakingError::AddressMismatch)
            } else {
                match spec_deactivate(c.state, slot) {
                    Err(e) => Err(e),
                    Ok(s) => Ok(
                        RegionV {
                            data: spec_ticket_bytes(TicketV { state: s, ..c }) + ticket.data.skip(
                                TICKET_RECORD_LEN as int,
                            ),
                            ..ticket
                        },
                    ),
                }
            }
        },
    }
}

/// Runs the shared add transition on a ticket region. Hands back the
/// parent's new edge counter; the caller persists it in the parent record.
pub fn add_edge_ticket(
    program_id: &Pubkey,
    t: AccountType,
    parent: &Pubkey,
    child: &Pubkey,
    third: &Pubkey,
    max_slash_amount: u64,
    counter: u64,
    ticket_region: &mut AccountRegion,
    slot: u64,
) -> (r: Result<u64, RestakingError>)
    requires
        program_id.wf(),
        parent.wf(),
        child.wf(),
        third.wf(),
        old(ticket_region).wf(),
        spec_is_ticket_type(t),
        slot < NOT_REMOVED,
    ensures
        final(ticket_region).wf(),
        match r {
            Ok(c2) => spec_add_edge_ticket(
                program_id@,
                t,
                parent@,
                child@,
                third@,
                max_slash_amount,
                counter,
                old(ticket_region)@,
                slot,
            ) == Ok::<(RegionV, u64), RestakingError>((final(ticket_region)@, c2)),
            Err(e) => spec_add_edge_ticket(
                program_id@,
                t,
                parent@,
                child@,
                third@,
                max_slash_amount,
                counter,
                old(ticket_region)@,
                slot,
            ) == Err::<(RegionV, u64), RestakingError>(e) && final(ticket_region)@ == old(
                ticket_region,
            )@,
        },
{
    if ticket_region.data.len() == 0 {
        let seeds = ticket_seeds(t, parent, child, third);
        let found = match solana_try_find_program_address(&seeds, program_id) {
            Some(pair) => pair,
            None => {
                return Err(RestakingError::AddressMismatch);
            },
        };
        if !found.0.key_eq(&ticket_region.key) {
            return Err(RestakingError::AddressMismatch);
        }
        if !ticket_region.is_writable {
            return Err(RestakingError::AuthorizationFailure);
        }
        if counter == u64::MAX {
            return Err(RestakingError::CounterOverflow);
        }
        let ticket = EdgeTicket::new(
            t,
            parent.clone(),
            child.clone(),
            third.clone(),
            max_slash_amount,
            counter,
            slot,
            found.1,
        );
        ticket_region.owner = program_id.clone();
        ticket_region.data = ticket.to_bytes();
        Ok(counter + 1)
    } else {
        let mut ticket = EdgeTicket::deserialize_checked(program_id, ticket_region, t)?;
        if !ticket_region.is_writable {
            return Err(RestakingError::AuthorizationFailure);
        }
        let stored_parent = ticket.parent();
        let stored_child = ticket.child();
        let stored_third = ticket.third();
        if !stored_parent.key_eq(parent) || !stored_child.key_eq(child) || !stored_third.key_eq(
            third,
        ) {
            return Err(RestakingError::AddressMismatch);
        }
        ticket.activate(slot)?;
        let new_data = crate::codec::splice_record(&ticket_region.data, ticket.to_bytes());
        ticket_region.data = new_data;
        Ok(counter)
    }
}

/// Runs the shared remove transition on a ticket region.
pub fn remove_edge_ticket(
    program_id: &Pubkey,
    t: AccountType,
    parent: &Pubkey,
    child: &Pubkey,
    third: &Pubkey,
    ticket_region: &mut AccountRegion,
    slot: u64,
) -> (r: Result<(), RestakingError>)
    requires
        program_id.wf(),
        parent.wf(),
        child.wf(),
        third.wf(),
        old(ticket_region).wf(),
        spec_is_ticket_type(t),
        slot < NOT_REMOVED,
    ensures
        final(ticket_region).wf(),
        match r {
            Ok(()) => spec_remove_edge_ticket(
                program_id@,
                t,
                parent@,
                child@,
                third@,
                old(ticket_region)@,
                slot,
            ) == Ok::<RegionV, RestakingError>(final(ticket_region)@),
            Err(e) => spec_remove_edge_ticket(
                program_id@,
                t,
                parent@,
                child@,
                third@,
                old(ticket_region)@,
                slot,
            ) == Err::<RegionV, RestakingError>(e) && final(ticket_region)@ == old(ticket_region)@,
        },
{
    let mut ticket = EdgeTicket::deserialize_checked(program_id, ticket_region, t)?;
    if !ticket_region.is_writable {
        return Err(RestakingError::AuthorizationFailure);
    }
    let stored_parent = ticket.parent();
    let stored_child = ticket.child();
    let stored_third = ticket.third();
    if !stored_parent.key_eq(parent) || !stored_child.key_eq(child) || !stored_third.key_eq(third)
    {
        return Err(RestakingError::AddressMismatch);
    }
    ticket.deactivate(slot)?;
    let new_data = crate::codec::splice_record(&ticket_region.data, ticket.to_bytes());
    ticket_region.data = new_data;
    Ok(())
}

} // verus!
