use vstd::prelude::*;

use crate::account_type::AccountType;
use crate::avs::spec_sanitize_avs;
use crate::config::spec_sanitize_config;
use crate::engine::{spec_add_edge_ticket, spec_remove_edge_ticket};
use crate::error::RestakingError;
use crate::pda::{ca_of, pda_of};
use crate::operator::{spec_parse_operator, spec_sanitize_operator, OperatorV};
use crate::processor::{spec_process_avs_add_vault, spec_process_operator_add_vault};
use crate::pubkey::zero_key;
use crate::region::RegionV;
use crate::seeds::{spec_is_ticket_type, spec_ticket_seeds};
use crate::ticket::{
    lemma_ticket_roundtrip, spec_checked_ticket, spec_is_active, spec_new_active,
    spec_parse_ticket, spec_sanitize_ticket, TicketStateV, TicketV, NOT_REMOVED,
    TICKET_RECORD_LEN,
};

verus! {

/// Law: address derivation is a pure function. Any two derivations from
/// the same seed list under the same program identity pin the same
/// address and disambiguation byte, since every derivation's contract
/// equates its result with `pda_of` of its inputs alone.
pub proof fn lemma_derive_pure(
    seeds: Seq<Seq<u8>>,
    pid: Seq<u8>,
    r1: Option<(Seq<u8>, u8)>,
    r2: Option<(Seq<u8>, u8)>,
)
    requires
        r1 == pda_of(seeds, pid),
        r2 == pda_of(seeds, pid),
    ensures
        r1 == r2,
{
}

/// Law: tampering with a stored seed is caught. Take a ticket region that
/// validates, and a second region at the same address with the same
/// owner, whose record differs only in its seed fields (endpoints) while
/// the stored disambiguation byte is unchanged. Whenever the tampered
/// seeds derive anything other than what the intact seeds derive — the
/// derivation being collision-resistant, any single-byte change does —
/// validation of the second region fails with `AddressMismatch`.
pub proof fn lemma_altered_seed_fails_validation(
    pid: Seq<u8>,
    expected: AccountType,
    r: RegionV,
    r2: RegionV,
)
    requires
        spec_checked_ticket(pid, expected, r) is Ok,
        r2.key == r.key,
        r2.owner == r.owner,
        spec_parse_ticket(r2.data) is Some,
        ({
            let c = spec_checked_ticket(pid, expected, r).unwrap();
            let c2 = spec_parse_ticket(r2.data).unwrap();
            &&& c2.account_type == c.account_type
            &&& c2.bump == c.bump
            &&& !(c2.parent == c.parent && c2.child == c.child && c2.third == c.third)
            &&& ca_of(
                spec_ticket_seeds(c2.account_type, c2.parent, c2.child, c2.third).push(
                    seq![c2.bump],
                ),
                pid,
            ) != ca_of(
                spec_ticket_seeds(c.account_type, c.parent, c.child, c.third).push(seq![c.bump]),
                pid,
            )
        }),
    ensures
        spec_checked_ticket(pid, expected, r2) == Err::<TicketV, RestakingError>(
            RestakingError::AddressMismatch,
        ),
{
    assert(r2.data.len() >= TICKET_RECORD_LEN);
}

/// The derivation pairing every derivation wrapper guarantees at its call
/// sites: when the bump search succeeds, appending the found bump to the
/// seeds and re-deriving yields exactly the found address.
pub open spec fn spec_derivation_linked(seeds: Seq<Seq<u8>>, pid: Seq<u8>) -> bool {
    pda_of(seeds, pid) matches Some(found) ==> ca_of(seeds.push(seq![found.1]), pid) == Some(
        found.0,
    )
}

/// After a successful add transition the ticket region validates as this
/// very edge, active from the transition's slot, and the ordinal index is
/// the parent's counter for a created edge and the stored index for a
/// re-activated one. The counter advances exactly on creation.
///
/// For a created edge the claim rests on the derivation pairing
/// (`spec_derivation_linked`), which the derivation wrapper guarantees
/// wherever the add ran.
pub proof fn lemma_add_validates(
    pid: Seq<u8>,
    t: AccountType,
    parent: Seq<u8>,
    child: Seq<u8>,
    third: Seq<u8>,
    msa: u64,
    counter: u64,
    region: RegionV,
    slot: u64,
)
    requires
        spec_is_ticket_type(t),
        parent.len() == 32,
        child.len() == 32,
        third.len() == 32,
        spec_add_edge_ticket(pid, t, parent, child, third, msa, counter, region, slot) is Ok,
        region.data.len() == 0 ==> spec_derivation_linked(
            spec_ticket_seeds(t, parent, child, third),
            pid,
        ),
    ensures
        ({
            let (r1, c1) = spec_add_edge_ticket(
                pid,
                t,
                parent,
                child,
                third,
                msa,
                counter,
                region,
                slot,
            ).unwrap();
            &&& spec_checked_ticket(pid, t, r1) is Ok
            &&& spec_checked_ticket(pid, t, r1).unwrap().parent == parent
            &&& spec_checked_ticket(pid, t, r1).unwrap().child == child
            &&& spec_checked_ticket(pid, t, r1).unwrap().third == third
            &&& spec_checked_ticket(pid, t, r1).unwrap().state == spec_new_active(slot)
            &&& spec_checked_ticket(pid, t, r1).unwrap().index == (if region.data.len() == 0 {
                counter
            } else {
                spec_parse_ticket(region.data).unwrap().index
            })
            &&& spec_checked_ticket(pid, t, r1).unwrap().wf()
            &&& c1 == (if region.data.len() == 0 {
                (counter + 1) as u64
            } else {
                counter
            })
            &&& r1.is_writable == region.is_writable
            &&& region.is_writable
            &&& r1.key == region.key
            &&& r1.owner == pid
        }),
{
    let (r1, c1) = spec_add_edge_ticket(pid, t, parent, child, third, msa, counter, region, slot)
        .unwrap();
    if region.data.len() == 0 {
        let found = pda_of(spec_ticket_seeds(t, parent, child, third), pid).unwrap();
        let c = TicketV {
            account_type: t,
            parent: parent,
            child: child,
            third: third,
            max_slash_amount: msa,
            index: counter,
            state: spec_new_active(slot),
            reserved: crate::codec::zero_bytes(crate::ticket::TICKET_RESERVED_LEN as nat),
            bump: found.1,
        };
        lemma_ticket_roundtrip(c);
        assert(spec_checked_ticket(pid, t, r1) == Ok::<TicketV, RestakingError>(c));
    } else {
        let c0 = spec_checked_ticket(pid, t, region).unwrap();
        let c = TicketV { state: spec_new_active(slot), ..c0 };
        crate::ticket::lemma_ticket_prefix_roundtrip(c, region.data.skip(TICKET_RECORD_LEN as int));
        assert(spec_checked_ticket(pid, t, r1) == Ok::<TicketV, RestakingError>(c));
    }
}

/// Law: add, then remove, then add again on the same edge. The first add
/// creates the ticket with ordinal index equal to the parent's counter
/// (`counter`), active from `s0`, and advances the counter by one. The
/// remove at `s1 >= s0` yields the removed state `(s0, s1)` with the
/// index untouched; removing again at `s2` fails with an invalid state
/// transition. The second add at `s2 >= s1` re-activates the edge at
/// `s2`, and the ordinal index is still the index assigned at creation;
/// the counter does not move again.
pub proof fn lemma_add_remove_add(
    pid: Seq<u8>,
    t: AccountType,
    parent: Seq<u8>,
    child: Seq<u8>,
    third: Seq<u8>,
    msa: u64,
    counter: u64,
    region0: RegionV,
    s0: u64,
    s1: u64,
    s2: u64,
)
    requires
        spec_is_ticket_type(t),
        parent.len() == 32,
        child.len() == 32,
        third.len() == 32,
        region0.data.len() == 0,
        spec_add_edge_ticket(pid, t, parent, child, third, msa, counter, region0, s0) is Ok,
        spec_derivation_linked(spec_ticket_seeds(t, parent, child, third), pid),
        s0 <= s1,
        s1 <= s2,
        s1 < NOT_REMOVED,
        s2 < NOT_REMOVED,
    ensures
        ({
            let (r1, c1) = spec_add_edge_ticket(
                pid,
                t,
                parent,
                child,
                third,
                msa,
                counter,
                region0,
                s0,
            ).unwrap();
            &&& c1 == counter + 1
            &&& spec_checked_ticket(pid, t, r1).unwrap().index == counter
            &&& spec_checked_ticket(pid, t, r1).unwrap().state == spec_new_active(s0)
            &&& spec_remove_edge_ticket(pid, t, parent, child, third, r1, s1) is Ok
            &&& ({
                let r2 = spec_remove_edge_ticket(pid, t, parent, child, third, r1, s1).unwrap();
                &&& spec_checked_ticket(pid, t, r2).unwrap().index == counter
                &&& spec_checked_ticket(pid, t, r2).unwrap().state == (TicketStateV {
                    slot_added: s0,
                    slot_removed: s1,
                })
                &&& spec_remove_edge_ticket(pid, t, parent, child, third, r2, s2) == Err::<
                    RegionV,
                    RestakingError,
                >(RestakingError::InvalidStateTransition)
                &&& spec_add_edge_ticket(pid, t, parent, child, third, msa, c1, r2, s2) is Ok
                &&& ({
                    let (r3, c3) = spec_add_edge_ticket(
                        pid,
                        t,
                        parent,
                        child,
                        third,
                        msa,
                        c1,
                        r2,
                        s2,
                    ).unwrap();
                    &&& c3 == c1
                    &&& spec_checked_ticket(pid, t, r3).unwrap().index == counter
                    &&& spec_checked_ticket(pid, t, r3).unwrap().state == spec_new_active(s2)
                })
            })
        }),
{
    lemma_add_validates(pid, t, parent, child, third, msa, counter, region0, s0);
    let (r1, c1) = spec_add_edge_ticket(pid, t, parent, child, third, msa, counter, region0, s0)
        .unwrap();
    let ct1 = spec_checked_ticket(pid, t, r1).unwrap();
    let ct2 = TicketV {
        state: TicketStateV { slot_added: s0, slot_removed: s1 },
        ..ct1
    };
    crate::ticket::lemma_ticket_prefix_roundtrip(ct2, r1.data.skip(TICKET_RECORD_LEN as int));
    let r2 = spec_remove_edge_ticket(pid, t, parent, child, third, r1, s1).unwrap();
    assert(spec_checked_ticket(pid, t, r2) == Ok::<TicketV, RestakingError>(ct2));
    assert(r2.data.len() >= TICKET_RECORD_LEN);
    lemma_add_validates(pid, t, parent, child, third, msa, c1, r2, s2);
}

/// Law: adding the same edge twice without an intervening remove fails.
/// After any successful add the edge is active, so a second add, at any
/// slot and whatever counter the parent has by then, fails with an
/// invalid state transition and nothing else.
pub proof fn lemma_double_add_fails(
    pid: Seq<u8>,
    t: AccountType,
    parent: Seq<u8>,
    child: Seq<u8>,
    third: Seq<u8>,
    msa: u64,
    msa2: u64,
    counter: u64,
    counter2: u64,
    region: RegionV,
    slot: u64,
    slot2: u64,
)
    requires
        spec_is_ticket_type(t),
        parent.len() == 32,
        child.len() == 32,
        third.len() == 32,
        spec_add_edge_ticket(pid, t, parent, child, third, msa, counter, region, slot) is Ok,
        region.data.len() == 0 ==> spec_derivation_linked(
            spec_ticket_seeds(t, parent, child, third),
            pid,
        ),
    ensures
        ({
            let (r1, c1) = spec_add_edge_ticket(
                pid,
                t,
                parent,
                child,
                third,
                msa,
                counter,
                region,
                slot,
            ).unwrap();
            spec_add_edge_ticket(pid, t, parent, child, third, msa2, counter2, r1, slot2) == Err::<
                (RegionV, u64),
                RestakingError,
            >(RestakingError::InvalidStateTransition)
        }),
{
    lemma_add_validates(pid, t, parent, child, third, msa, counter, region, slot);
    let (r1, c1) = spec_add_edge_ticket(pid, t, parent, child, third, msa, counter, region, slot)
        .unwrap();
    assert(r1.data.len() >= TICKET_RECORD_LEN);
}

/// Law: removing an edge that was never added fails with an
/// uninitialized-record error, whatever the other arguments.
pub proof fn lemma_remove_never_added_fails(
    pid: Seq<u8>,
    t: AccountType,
    parent: Seq<u8>,
    child: Seq<u8>,
    third: Seq<u8>,
    region: RegionV,
    slot: u64,
)
    requires
        region.data.len() == 0,
    ensures
        spec_remove_edge_ticket(pid, t, parent, child, third, region, slot) == Err::<
            RegionV,
            RestakingError,
        >(RestakingError::UninitializedRecord),
{
}

/// A gapless creation run on one parent: the counter starts at zero,
/// each creation's assigned index is the counter's value at that point,
/// and the counter then advances by exactly one — precisely what the add
/// transition's contract pins for every successful creation.
pub open spec fn spec_gapless_run(counters: Seq<u64>, indices: Seq<u64>) -> bool {
    &&& counters.len() == indices.len() + 1
    &&& counters[0] == 0
    &&& forall|j: int| #![trigger indices[j]]
        0 <= j < indices.len() ==> indices[j] == counters[j] && counters[j + 1] == counters[j]
            + 1
}

/// Law: parent counters are gapless. For any run of creations on one
/// parent starting from a fresh entity — `counters` the counter before
/// each creation and after the last, `indices` the assigned ordinal
/// indices — the `k`-th creation (counted from one) receives index
/// `k - 1`, with no gaps, however the run interleaves with other
/// parents' edges.
pub proof fn lemma_counters_gapless(counters: Seq<u64>, indices: Seq<u64>)
    requires
        spec_gapless_run(counters, indices),
    ensures
        forall|k: int| 0 <= k < indices.len() ==> indices[k] == k,
{
    assert forall|k: int| 0 <= k < indices.len() implies indices[k] == k by {
        lemma_counter_reads_position(counters, indices, k);
    }
}

/// The counter before the `k`-th creation of a gapless run reads `k`.
proof fn lemma_counter_reads_position(counters: Seq<u64>, indices: Seq<u64>, k: int)
    requires
        spec_gapless_run(counters, indices),
        0 <= k < indices.len(),
    ensures
        counters[k] == k,
        indices[k] == k,
    decreases k,
{
    if k > 0 {
        lemma_counter_reads_position(counters, indices, k - 1);
    }
}

/// Law: an add issued by a signer other than the parent entity's stored
/// admin — or by one who did not sign at all — fails with an
/// authorization failure (and, by the processors' contracts, leaves every
/// region unchanged). Stated for the service-into-vault add; every other
/// add and remove operation has the same two authorization gates in its
/// specification.
pub proof fn lemma_unauthorized_add_fails(
    pid: Seq<u8>,
    config: RegionV,
    avs: RegionV,
    ticket: RegionV,
    admin: RegionV,
    vault: Seq<u8>,
    slot: u64,
)
    requires
        spec_sanitize_config(pid, config, false) is Ok,
        spec_sanitize_avs(pid, avs, true) is Ok,
        !admin.is_signer || admin.key != spec_sanitize_avs(pid, avs, true).unwrap().admin,
    ensures
        spec_process_avs_add_vault(pid, config, avs, ticket, admin, vault, slot) == Err::<
            (RegionV, RegionV),
            RestakingError,
        >(RestakingError::AuthorizationFailure),
{
}

} // verus!
