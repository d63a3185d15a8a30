use vstd::prelude::*;

use vstd::bytes::{spec_u64_from_le_bytes, spec_u64_to_le_bytes};

use crate::account_type::{spec_tag_of, spec_type_of_tag, AccountType};
use crate::codec::{
    lemma_u64_le_roundtrip, push_bytes, push_key, push_u64_le, push_zero_bytes, read_u64_le,
    read_vec_at, zero_bytes,
};
use crate::error::RestakingError;
use crate::pda::{ca_of, pda_of, solana_create_program_address, solana_try_find_program_address};
use crate::pubkey::Pubkey;
use crate::region::{AccountRegion, RegionV};
use crate::seeds::{push_bump_seed, spec_is_ticket_type, spec_ticket_seeds, ticket_seeds};

verus! {

/// The sentinel stored in the removal slot of an edge that is currently
/// active. A transition slot therefore has to stay below it.
pub const NOT_REMOVED: u64 = u64::MAX;

/// Width of the reserved block of an edge-ticket record.
pub const TICKET_RESERVED_LEN: usize = 64;

/// Persisted width of an edge-ticket record: tag, three endpoints, the
/// slash bound, the ordinal index, the two state slots, reserved block,
/// disambiguation byte.
pub const TICKET_RECORD_LEN: usize = 194;

/// The mathematical value of an edge's activation state.
pub ghost struct TicketStateV {
    /// The slot at which the edge last became active.
    pub slot_added: u64,
    /// The slot at which the edge was removed, or `NOT_REMOVED` while it
    /// is active.
    pub slot_removed: u64,
}

/// Whether an activation state is currently active.
pub open spec fn spec_is_active(s: TicketStateV) -> bool {
    s.slot_removed == NOT_REMOVED
}

/// The activation state of an edge that just became active at `slot`.
pub open spec fn spec_new_active(slot: u64) -> TicketStateV {
    TicketStateV { slot_added: slot, slot_removed: NOT_REMOVED }
}

/// The re-activation transition: allowed only on a removed edge, no
/// earlier than its removal; the edge then becomes active at `slot`.
pub open spec fn spec_activate(s: TicketStateV, slot: u64) -> Result<
    TicketStateV,
    RestakingError,
> {
    if spec_is_active(s) {
        Err(RestakingError::InvalidStateTransition)
    } else if slot < s.slot_removed {
        Err(RestakingError::InvalidStateTransition)
    } else {
        Ok(spec_new_active(slot))
    }
}

/// The removal transition: allowed only on an active edge, no earlier
/// than its activation; the edge then records `slot` as its removal.
pub open spec fn spec_deactivate(s: TicketStateV, slot: u64) -> Result<
    TicketStateV,
    RestakingError,
> {
    if !spec_is_active(s) {
        Err(RestakingError::InvalidStateTransition)
    } else if slot < s.slot_added {
        Err(RestakingError::InvalidStateTransition)
    } else {
        Ok(TicketStateV { slot_added: s.slot_added, slot_removed: slot })
    }
}

/// An edge's activation state: the slot it was added at, and the slot it
/// was removed at, the latter holding `NOT_REMOVED` while the edge is
/// active.
#[derive(Clone, Copy, Debug, PartialEq, Eq)]
pub struct TicketState {
    slot_added: u64,
    slot_removed: u64,
}

impl View for TicketState {
    type V = TicketStateV;

    closed spec fn view(&self) -> TicketStateV {
        TicketStateV { slot_added: self.slot_added, slot_removed: self.slot_removed }
    }
}

impl TicketState {
    /// The state of an edge that just became active at `slot`.
    pub fn new_active(slot: u64) -> (r: TicketState)
        requires
            slot < NOT_REMOVED,
        ensures
            r@ == spec_new_active(slot),
    {
        TicketState { slot_added: slot, slot_removed: NOT_REMOVED }
    }

    /// The slot at which the edge last became active.
    pub fn slot_added(&self) -> (r: u64)
        ensures
            r == self@.slot_added,
    {
        self.slot_added
    }

    /// The slot at which the edge was removed, or `NOT_REMOVED`.
    pub fn slot_removed(&self) -> (r: u64)
        ensures
            r == self@.slot_removed,
    {
        self.slot_removed
    }

    /// Whether the edge is currently active.
    pub fn is_active(&self) -> (r: bool)
        ensures
            r == spec_is_active(self@),
    {
        self.slot_removed == NOT_REMOVED
    }

    /// Runs the re-activation transition at `slot`.
    pub fn activate(&mut self, slot: u64) -> (r: Result<(), RestakingError>)
        requires
            slot < NOT_REMOVED,
        ensures
            match r {
                Ok(()) => spec_activate(old(self)@, slot) == Ok::<TicketStateV, RestakingError>(
                    final(self)@,
                ),
                Err(e) => spec_activate(old(self)@, slot) == Err::<TicketStateV, RestakingError>(e)
                    && final(self)@ == old(self)@,
            },
    {
        if self.slot_removed == NOT_REMOVED {
            return Err(RestakingError::InvalidStateTransition);
        }
        if slot < self.slot_removed {
            return Err(RestakingError::InvalidStateTransition);
        }
        self.slot_added = slot;
        self.slot_removed = NOT_REMOVED;
        Ok(())
    }

    /// Runs the removal transition at `slot`.
    pub fn deactivate(&mut self, slot: u64) -> (r: Result<(), RestakingError>)
        requires
            slot < NOT_REMOVED,
        ensures
            match r {
                Ok(()) => spec_deactivate(old(self)@, slot) == Ok::<TicketStateV, RestakingError>(
                    final(self)@,
                ),
                Err(e) => spec_deactivate(old(self)@, slot) == Err::<TicketStateV, RestakingError>(
                    e,
                ) && final(self)@ == old(self)@,
            },
    {
        if self.slot_removed != NOT_REMOVED {
            return Err(RestakingError::InvalidStateTransition);
        }
        if slot < self.slot_added {
            return Err(RestakingError::InvalidStateTransition);
        }
        self.slot_removed = slot;
        Ok(())
    }
}

/// The mathematical value of an edge-ticket record.
pub ghost struct TicketV {
    /// The stored type tag: one of the five edge-ticket kinds.
    pub account_type: AccountType,
    /// The parent endpoint: the entity whose counter named this edge.
    pub parent: Seq<u8>,
    /// The child endpoint the parent opted into.
    pub child: Seq<u8>,
    /// The third endpoint of the slasher kind, all zero otherwise.
    pub third: Seq<u8>,
    /// The slasher kind's payload: the most that may be slashed. Zero for
    /// the other kinds.
    pub max_slash_amount: u64,
    /// The ordinal index: this edge was the `index`-th ever created by its
    /// parent, counted from zero, and keeps that index forever.
    pub index: u64,
    /// The activation state.
    pub state: TicketStateV,
    /// The reserved block kept for forward compatibility.
    pub reserved: Seq<u8>,
    /// The disambiguation byte of the record's address derivation.
    pub bump: u8,
}

impl TicketV {
    /// Shape of a well-formed edge-ticket value.
    pub open spec fn wf(&self) -> bool {
        &&& spec_is_ticket_type(self.account_type)
        &&& self.parent.len() == 32
        &&& self.child.len() == 32
        &&& self.third.len() == 32
        &&& self.reserved.len() == TICKET_RESERVED_LEN
    }
}

/// The exact persisted bytes of an edge-ticket value.
pub open spec fn spec_ticket_bytes(c: TicketV) -> Seq<u8> {
    seq![spec_tag_of(c.account_type)] + c.parent + c.child + c.third + spec_u64_to_le_bytes(
        c.max_slash_amount,
    ) + spec_u64_to_le_bytes(c.index) + spec_u64_to_le_bytes(c.state.slot_added)
        + spec_u64_to_le_bytes(c.state.slot_removed) + c.reserved + seq![c.bump]
}

/// Reads an edge-ticket value back from persisted bytes: the leading
/// record of a region at least the record's width; any over-allocated
/// tail is ignored.
pub open spec fn spec_parse_ticket(data: Seq<u8>) -> Option<TicketV> {
    if data.len() >= TICKET_RECORD_LEN && spec_type_of_tag(data[0]) is Some {
        Some(
            TicketV {
                account_type: spec_type_of_tag(data[0]).unwrap(),
                parent: data.subrange(1, 33),
                child: data.subrange(33, 65),
                third: data.subrange(65, 97),
                max_slash_amount: spec_u64_from_le_bytes(data.subrange(97, 105)),
                index: spec_u64_from_le_bytes(data.subrange(105, 113)),
                state: TicketStateV {
                    slot_added: spec_u64_from_le_bytes(data.subrange(113, 121)),
                    slot_removed: spec_u64_from_le_bytes(data.subrange(121, 129)),
                },
                reserved: data.subrange(129, 193),
                bump: data[193],
            },
        )
    } else {
        None
    }
}

/// Serialization round trip for edge-ticket records.
pub proof fn lemma_ticket_roundtrip(c: TicketV)
    requires
        c.wf(),
    ensures
        spec_ticket_bytes(c).len() == TICKET_RECORD_LEN,
        spec_parse_ticket(spec_ticket_bytes(c)) == Some(c),
{
    lemma_u64_le_roundtrip(c.max_slash_amount);
    lemma_u64_le_roundtrip(c.index);
    lemma_u64_le_roundtrip(c.state.slot_added);
    lemma_u64_le_roundtrip(c.state.slot_removed);
    let b = spec_ticket_bytes(c);
    assert(b.len() == TICKET_RECORD_LEN);
    assert(b[0] == spec_tag_of(c.account_type));
    crate::account_type::lemma_tag_roundtrip(c.account_type);
    assert(b.subrange(1, 33) =~= c.parent);
    assert(b.subrange(33, 65) =~= c.child);
    assert(b.subrange(65, 97) =~= c.third);
    assert(b.subrange(97, 105) =~= spec_u64_to_le_bytes(c.max_slash_amount));
    assert(b.subrange(105, 113) =~= spec_u64_to_le_bytes(c.index));
    assert(b.subrange(113, 121) =~= spec_u64_to_le_bytes(c.state.slot_added));
    assert(b.subrange(121, 129) =~= spec_u64_to_le_bytes(c.state.slot_removed));
    assert(b.subrange(129, 193) =~= c.reserved);
    assert(b[193] == c.bump);
}

/// The round trip holds in any region wide enough: the record's bytes
/// followed by an arbitrary tail still parse back to the record.
pub proof fn lemma_ticket_prefix_roundtrip(c: TicketV, tail: Seq<u8>)
    requires
        c.wf(),
    ensures
        spec_parse_ticket(spec_ticket_bytes(c) + tail) == Some(c),
{
    lemma_ticket_roundtrip(c);
    let b = spec_ticket_bytes(c);
    let d = b + tail;
    assert(d[0] == b[0]);
    assert(d.subrange(1, 33) =~= b.subrange(1, 33));
    assert(d.subrange(33, 65) =~= b.subrange(33, 65));
    assert(d.subrange(65, 97) =~= b.subrange(65, 97));
    assert(d.subrange(97, 105) =~= b.subrange(97, 105));
    assert(d.subrange(105, 113) =~= b.subrange(105, 113));
    assert(d.subrange(113, 121) =~= b.subrange(113, 121));
    assert(d.subrange(121, 129) =~= b.subrange(121, 129));
    assert(d.subrange(129, 193) =~= b.subrange(129, 193));
    assert(d[193] == b[193]);
}

/// The checked-access protocol applied to an edge-ticket region, for the
/// expected ticket kind: the seeds are taken from the record's own stored
/// endpoint fields.
pub open spec fn spec_checked_ticket(pid: Seq<u8>, expected: AccountType, r: RegionV) -> Result<
    TicketV,
    RestakingError,
> {
    if r.data.len() == 0 {
        Err(RestakingError::UninitializedRecord)
    } else if r.owner != pid {
        Err(RestakingError::OwnershipMismatch)
    } else if spec_parse_ticket(r.data) is None {
        Err(RestakingError::TypeMismatch)
    } else {
        let c = spec_parse_ticket(r.data).unwrap();
        if c.account_type != expected {
            Err(RestakingError::TypeMismatch)
        } else if ca_of(
            spec_ticket_seeds(c.account_type, c.parent, c.child, c.third).push(seq![c.bump]),
            pid,
        ) != Some(r.key) {
            Err(RestakingError::AddressMismatch)
        } else {
            Ok(c)
        }
    }
}

/// The checked-access protocol of an edge-ticket region together with the
/// caller's writable requirement.
pub open spec fn spec_sanitize_ticket(
    pid: Seq<u8>,
    expected: AccountType,
    r: RegionV,
    expect_writable: bool,
) -> Result<TicketV, RestakingError> {
    match spec_checked_ticket(pid, expected, r) {
        Ok(c) => {
            if expect_writable && !r.is_writable {
                Err(RestakingError::AuthorizationFailure)
            } else {
                Ok(c)
            }
        },
        Err(e) => Err(e),
    }
}

/// One edge ticket: the record of a directed relationship between a
/// parent entity and one (or two) other entities, with its activation
/// history and its parent-assigned ordinal index.
#[derive(Debug)]
pub struct EdgeTicket {
    account_type: AccountType,
    parent: Pubkey,
    child: Pubkey,
    third: Pubkey,
    max_slash_amount: u64,
    index: u64,
    state: TicketState,
    reserved: Vec<u8>,
    bump: u8,
}

impl View for EdgeTicket {
    type V = TicketV;

    closed spec fn view(&self) -> TicketV {
        TicketV {
            account_type: self.account_type,
            parent: self.parent@,
            child: self.child@,
            third: self.third@,
            max_slash_amount: self.max_slash_amount,
            index: self.index,
            state: self.state@,
            reserved: self.reserved@,
            bump: self.bump,
        }
    }
}

impl EdgeTicket {
    /// A fresh edge ticket of kind `account_type`, active from `slot`,
    /// carrying the ordinal index its parent assigned.
    pub fn new(
        account_type: AccountType,
        parent: Pubkey,
        child: Pubkey,
        third: Pubkey,
        max_slash_amount: u64,
        index: u64,
        slot: u64,
        bump: u8,
    ) -> (r: EdgeTicket)
        requires
            spec_is_ticket_type(account_type),
            parent.wf(),
            child.wf(),
            third.wf(),
            slot < NOT_REMOVED,
        ensures
            r@.wf(),
            r@ == (TicketV {
                account_type: account_type,
                parent: parent@,
                child: child@,
                third: third@,
                max_slash_amount: max_slash_amount,
                index: index,
                state: spec_new_active(slot),
                reserved: zero_bytes(TICKET_RESERVED_LEN as nat),
                bump: bump,
            }),
    {
        let mut reserved: Vec<u8> = Vec::new();
        push_zero_bytes(&mut reserved, TICKET_RESERVED_LEN);
        EdgeTicket {
            account_type,
            parent,
            child,
            third,
            max_slash_amount,
            index,
            state: TicketState::new_active(slot),
            reserved,
            bump,
        }
    }

    /// The stored kind of this ticket.
    pub fn account_type(&self) -> (r: AccountType)
        ensures
            r == self@.account_type,
    {
        self.account_type
    }

    /// The parent endpoint: the entity whose counter named this edge.
    pub fn parent(&self) -> (r: Pubkey)
        ensures
            r@ == self@.parent,
    {
        self.parent.clone()
    }

    /// The child endpoint the parent opted into.
    pub fn child(&self) -> (r: Pubkey)
        ensures
            r@ == self@.child,
    {
        self.child.clone()
    }

    /// The third endpoint of the slasher kind, all zero otherwise.
    pub fn third(&self) -> (r: Pubkey)
        ensures
            r@ == self@.third,
    {
        self.third.clone()
    }

    /// The slasher kind's payload: the most that may be slashed.
    pub fn max_slash_amount(&self) -> (r: u64)
        ensures
            r == self@.max_slash_amount,
    {
        self.max_slash_amount
    }

    /// The ordinal index assigned at creation; never reassigned.
    pub fn index(&self) -> (r: u64)
        ensures
            r == self@.index,
    {
        self.index
    }

    /// The current activation state.
    pub fn state(&self) -> (r: TicketState)
        ensures
            r@ == self@.state,
    {
        self.state
    }

    /// The stored disambiguation byte.
    pub fn bump(&self) -> (r: u8)
        ensures
            r == self@.bump,
    {
        self.bump
    }

    /// Re-activates the edge at `slot`; the ordinal index and the
    /// endpoints stay untouched whatever the outcome.
    pub fn activate(&mut self, slot: u64) -> (r: Result<(), RestakingError>)
        requires
            slot < NOT_REMOVED,
        ensures
            match r {
                Ok(()) => spec_activate(old(self)@.state, slot) matches Ok(s) && final(self)@ == (
                TicketV { state: s, ..old(self)@ }),
                Err(e) => spec_activate(old(self)@.state, slot) == Err::<
                    TicketStateV,
                    RestakingError,
                >(e) && final(self)@ == old(self)@,
            },
    {
        match self.state.activate(slot) {
            Ok(()) => Ok(()),
            Err(e) => Err(e),
        }
    }

    /// Removes the edge at `slot`; the ordinal index and the endpoints
    /// stay untouched whatever the outcome.
    pub fn deactivate(&mut self, slot: u64) -> (r: Result<(), RestakingError>)
        requires
            slot < NOT_REMOVED,
        ensures
            match r {
                Ok(()) => spec_deactivate(old(self)@.state, slot) matches Ok(s) && final(self)@
                    == (TicketV { state: s, ..old(self)@ }),
                Err(e) => spec_deactivate(old(self)@.state, slot) == Err::<
                    TicketStateV,
                    RestakingError,
                >(e) && final(self)@ == old(self)@,
            },
    {
        match self.state.deactivate(slot) {
            Ok(()) => Ok(()),
            Err(e) => Err(e),
        }
    }

    /// The canonical address of the ticket of kind `t` between the given
    /// endpoints.
    pub fn find_program_address(
        t: AccountType,
        program_id: &Pubkey,
        parent: &Pubkey,
        child: &Pubkey,
        third: &Pubkey,
    ) -> (r: (Pubkey, u8, Vec<Vec<u8>>))
        requires
            program_id.wf(),
            parent.wf(),
            child.wf(),
            third.wf(),
            pda_of(spec_ticket_seeds(t, parent@, child@, third@), program_id@) is Some,
        ensures
            pda_of(spec_ticket_seeds(t, parent@, child@, third@), program_id@) == Some(
                (r.0@, r.1),
            ),
            r.0.wf(),
            ca_of(
                spec_ticket_seeds(t, parent@, child@, third@).push(seq![r.1]),
                program_id@,
            ) == Some(r.0@),
            forall|b: u8|
                b > r.1 ==> ca_of(
                    spec_ticket_seeds(t, parent@, child@, third@).push(seq![b]),
                    program_id@,
                ) is None,
            r.2.deep_view() == spec_ticket_seeds(t, parent@, child@, third@),
    {
        let seeds = ticket_seeds(t, parent, child, third);
        let found = solana_try_find_program_address(&seeds, program_id);
        match found {
            Some(pair) => (pair.0, pair.1, seeds),
            None => {
                proof {
                    assert(false);
                }
                (Pubkey::zeroed(), 0, seeds)
            },
        }
    }

    /// The canonical address of the ticket of kind `t` between the given
    /// endpoints, or nothing in the statistically improbable event that no
    /// disambiguation byte yields an address.
    pub fn try_find_program_address(
        t: AccountType,
        program_id: &Pubkey,
        parent: &Pubkey,
        child: &Pubkey,
        third: &Pubkey,
    ) -> (r: Option<(Pubkey, u8, Vec<Vec<u8>>)>)
        requires
            program_id.wf(),
            parent.wf(),
            child.wf(),
            third.wf(),
        ensures
            match r {
                Some(found) => {
                    &&& pda_of(spec_ticket_seeds(t, parent@, child@, third@), program_id@) == Some(
                        (found.0@, found.1),
                    )
                    &&& found.0.wf()
                    &&& ca_of(
                        spec_ticket_seeds(t, parent@, child@, third@).push(seq![found.1]),
                        program_id@,
                    ) == Some(found.0@)
                    &&& forall|b: u8|
                        b > found.1 ==> ca_of(
                            spec_ticket_seeds(t, parent@, child@, third@).push(seq![b]),
                            program_id@,
                        ) is None
                    &&& found.2.deep_view() == spec_ticket_seeds(t, parent@, child@, third@)
                },
                None => pda_of(spec_ticket_seeds(t, parent@, child@, third@), program_id@) is None,
            },
    {
        let seeds = ticket_seeds(t, parent, child, third);
        let probe = solana_try_find_program_address(&seeds, program_id);
        match probe {
            Some(_) => Some(EdgeTicket::find_program_address(t, program_id, parent, child, third)),
            None => None,
        }
    }

    /// The exact persisted bytes of this record.
    pub fn to_bytes(&self) -> (r: Vec<u8>)
        requires
            self@.wf(),
        ensures
            r@ == spec_ticket_bytes(self@),
            r@.len() == TICKET_RECORD_LEN,
    {
        let mut out: Vec<u8> = Vec::new();
        out.push(self.account_type.tag());
        push_key(&mut out, &self.parent);
        push_key(&mut out, &self.child);
        push_key(&mut out, &self.third);
        push_u64_le(&mut out, self.max_slash_amount);
        push_u64_le(&mut out, self.index);
        push_u64_le(&mut out, self.state.slot_added());
        push_u64_le(&mut out, self.state.slot_removed());
        push_bytes(&mut out, &self.reserved);
        out.push(self.bump);
        proof {
            assert(out@ =~= spec_ticket_bytes(self@));
            lemma_ticket_roundtrip(self@);
        }
        out
    }

    /// Reads an edge-ticket record back from persisted bytes.
    pub fn parse(data: &Vec<u8>) -> (r: Option<EdgeTicket>)
        ensures
            match r {
                Some(c) => spec_parse_ticket(data@) == Some(c@) && c@.parent.len() == 32
                    && c@.child.len() == 32 && c@.third.len() == 32 && c@.reserved.len()
                    == TICKET_RESERVED_LEN,
                None => spec_parse_ticket(data@) is None,
            },
    {
        if data.len() < TICKET_RECORD_LEN {
            return None;
        }
        let account_type = match AccountType::from_tag(data[0]) {
            Some(t) => t,
            None => {
                return None;
            },
        };
        let parent = Pubkey::from_bytes_at(data, 1);
        let child = Pubkey::from_bytes_at(data, 33);
        let third = Pubkey::from_bytes_at(data, 65);
        let max_slash_amount = read_u64_le(data, 97);
        let index = read_u64_le(data, 105);
        let slot_added = read_u64_le(data, 113);
        let slot_removed = read_u64_le(data, 121);
        let reserved = read_vec_at(data, 129, TICKET_RESERVED_LEN);
        let bump = data[193];
        Some(
            EdgeTicket {
                account_type,
                parent,
                child,
                third,
                max_slash_amount,
                index,
                state: TicketState { slot_added, slot_removed },
                reserved,
                bump,
            },
        )
    }

    /// Loads the edge-ticket record of kind `expected` from `account`
    /// under the checked access protocol.
    pub fn deserialize_checked(
        program_id: &Pubkey,
        account: &AccountRegion,
        expected: AccountType,
    ) -> (r: Result<EdgeTicket, RestakingError>)
        requires
            program_id.wf(),
            account.wf(),
            spec_is_ticket_type(expected),
        ensures
            match r {
                Ok(c) => spec_checked_ticket(program_id@, expected, account@) == Ok::<
                    TicketV,
                    RestakingError,
                >(c@) && c@.wf(),
                Err(e) => spec_checked_ticket(program_id@, expected, account@) == Err::<
                    TicketV,
                    RestakingError,
                >(e),
            },
    {
        if account.data.len() == 0 {
            return Err(RestakingError::UninitializedRecord);
        }
        if !account.owner.key_eq(program_id) {
            return Err(RestakingError::OwnershipMismatch);
        }
        let ticket = match EdgeTicket::parse(&account.data) {
            Some(c) => c,
            None => {
                return Err(RestakingError::TypeMismatch);
            },
        };
        if ticket.account_type != expected {
            return Err(RestakingError::TypeMismatch);
        }
        let mut seeds = ticket_seeds(
            ticket.account_type,
            &ticket.parent,
            &ticket.child,
            &ticket.third,
        );
        push_bump_seed(&mut seeds, ticket.bump);
        let derived = solana_create_program_address(&seeds, program_id);
        match derived {
            Some(address) => {
                if !address.key_eq(&account.key) {
                    return Err(RestakingError::AddressMismatch);
                }
            },
            None => {
                return Err(RestakingError::AddressMismatch);
            },
        }
        Ok(ticket)
    }
}

} // verus!
