use vstd::prelude::*;

use vstd::bytes::{spec_u64_from_le_bytes, spec_u64_to_le_bytes};

use crate::account_type::{spec_tag_of, spec_type_of_tag, AccountType};
use crate::avs::ENTITY_RESERVED_LEN;
use crate::codec::{
    lemma_u64_le_roundtrip, push_bytes, push_key, push_u64_le, push_zero_bytes, read_u64_le,
    read_vec_at, zero_bytes,
};
use crate::error::RestakingError;
use crate::pda::{ca_of, pda_of, solana_create_program_address, solana_try_find_program_address};
use crate::pubkey::Pubkey;
use crate::region::{AccountRegion, RegionV};
use crate::seeds::{operator_seeds, push_bump_seed, spec_operator_seeds};

verus! {

/// Persisted width of an operator-entity record: tag, admin, base, voter,
/// two edge counters, reserved block, disambiguation byte.
pub const OPERATOR_RECORD_LEN: usize = 178;

/// The mathematical value of an operator-entity record.
pub ghost struct OperatorV {
    /// The stored type tag.
    pub account_type: AccountType,
    /// The identity allowed to administer this entity and its edges.
    pub admin: Seq<u8>,
    /// The unique base identity this entity's address is derived from.
    pub base: Seq<u8>,
    /// The identity this operator votes with.
    pub voter: Seq<u8>,
    /// How many vault edges this entity has ever created.
    pub vault_count: u64,
    /// How many service edges this entity has ever created.
    pub avs_count: u64,
    /// The reserved block kept for forward compatibility.
    pub reserved: Seq<u8>,
    /// The disambiguation byte of the record's address derivation.
    pub bump: u8,
}

impl OperatorV {
    /// Shape of a well-formed operator-entity value.
    pub open spec fn wf(&self) -> bool {
        &&& self.admin.len() == 32
        &&& self.base.len() == 32
        &&& self.voter.len() == 32
        &&& self.reserved.len() == ENTITY_RESERVED_LEN
    }
}

/// The exact persisted bytes of an operator-entity value.
pub open spec fn spec_operator_bytes(c: OperatorV) -> Seq<u8> {
    seq![spec_tag_of(c.account_type)] + c.admin + c.base + c.voter + spec_u64_to_le_bytes(
        c.vault_count,
    ) + spec_u64_to_le_bytes(c.avs_count) + c.reserved + seq![c.bump]
}

/// Reads an operator-entity value back from persisted bytes: the leading
/// record of a region at least the record's width; any over-allocated
/// tail is ignored.
pub open spec fn spec_parse_operator(data: Seq<u8>) -> Option<OperatorV> {
    if data.len() >= OPERATOR_RECORD_LEN && spec_type_of_tag(data[0]) is Some {
        Some(
            OperatorV {
                account_type: spec_type_of_tag(data[0]).unwrap(),
                admin: data.subrange(1, 33),
                base: data.subrange(33, 65),
                voter: data.subrange(65, 97),
                vault_count: spec_u64_from_le_bytes(data.subrange(97, 105)),
                avs_count: spec_u64_from_le_bytes(data.subrange(105, 113)),
                reserved: data.subrange(113, 177),
                bump: data[177],
            },
        )
    } else {
        None
    }
}

/// Serialization round trip for operator-entity records.
pub proof fn lemma_operator_roundtrip(c: OperatorV)
    requires
        c.wf(),
    ensures
        spec_operator_bytes(c).len() == OPERATOR_RECORD_LEN,
        spec_parse_operator(spec_operator_bytes(c)) == Some(c),
{
    lemma_u64_le_roundtrip(c.vault_count);
    lemma_u64_le_roundtrip(c.avs_count);
    let b = spec_operator_bytes(c);
    assert(b.len() == OPERATOR_RECORD_LEN);
    assert(b[0] == spec_tag_of(c.account_type));
    crate::account_type::lemma_tag_roundtrip(c.account_type);
    assert(b.subrange(1, 33) =~= c.admin);
    assert(b.subrange(33, 65) =~= c.base);
    assert(b.subrange(65, 97) =~= c.voter);
    assert(b.subrange(97, 105) =~= spec_u64_to_le_bytes(c.vault_count));
    assert(b.subrange(105, 113) =~= spec_u64_to_le_bytes(c.avs_count));
    assert(b.subrange(113, 177) =~= c.reserved);
    assert(b[177] == c.bump);
}

/// The round trip holds in any region wide enough: the record's bytes
/// followed by an arbitrary tail still parse back to the record.
pub proof fn lemma_operator_prefix_roundtrip(c: OperatorV, tail: Seq<u8>)
    requires
        c.wf(),
    ensures
        spec_parse_operator(spec_operator_bytes(c) + tail) == Some(c),
{
    lemma_operator_roundtrip(c);
    let b = spec_operator_bytes(c);
    let d = b + tail;
    assert(d[0] == b[0]);
    assert(d.subrange(1, 33) =~= b.subrange(1, 33));
    assert(d.subrange(33, 65) =~= b.subrange(33, 65));
    assert(d.subrange(65, 97) =~= b.subrange(65, 97));
    assert(d.subrange(97, 105) =~= b.subrange(97, 105));
    assert(d.subrange(105, 113) =~= b.subrange(105, 113));
    assert(d.subrange(113, 177) =~= b.subrange(113, 177));
    assert(d[177] == b[177]);
}

/// The checked-access protocol applied to an operator-entity region.
pub open spec fn spec_checked_operator(pid: Seq<u8>, r: RegionV) -> Result<
    OperatorV,
    RestakingError,
> {
    if r.data.len() == 0 {
        Err(RestakingError::UninitializedRecord)
    } else if r.owner != pid {
        Err(RestakingError::OwnershipMismatch)
    } else if spec_parse_operator(r.data) is None {
        Err(RestakingError::TypeMismatch)
    } else {
        let c = spec_parse_operator(r.data).unwrap();
        if c.account_type != AccountType::Operator {
            Err(RestakingError::TypeMismatch)
        } else if ca_of(spec_operator_seeds(c.base).push(seq![c.bump]), pid) != Some(r.key) {
            Err(RestakingError::AddressMismatch)
        } else {
            Ok(c)
        }
    }
}

/// An operator entity: its admin, the base identity its address derives
/// from, its voter identity, and the counters of every edge kind it has
/// ever created.
#[derive(Debug)]
pub struct Operator {
    account_type: AccountType,
    admin: Pubkey,
    base: Pubkey,
    voter: Pubkey,
    vault_count: u64,
    avs_count: u64,
    reserved: Vec<u8>,
    bump: u8,
}

impl View for Operator {
    type V = OperatorV;

    closed spec fn view(&self) -> OperatorV {
        OperatorV {
            account_type: self.account_type,
            admin: self.admin@,
            base: self.base@,
            voter: self.voter@,
            vault_count: self.vault_count,
            avs_count: self.avs_count,
            reserved: self.reserved@,
            bump: self.bump,
        }
    }
}

impl Operator {
    /// A fresh operator entity: all edge counters at zero.
    pub fn new(admin: Pubkey, base: Pubkey, voter: Pubkey, bump: u8) -> (r: Operator)
        requires
            admin.wf(),
            base.wf(),
            voter.wf(),
        ensures
            r@.wf(),
            r@ == (OperatorV {
                account_type: AccountType::Operator,
                admin: admin@,
                base: base@,
                voter: voter@,
                vault_count: 0u64,
                avs_count: 0u64,
                reserved: zero_bytes(ENTITY_RESERVED_LEN as nat),
                bump: bump,
            }),
    {
        let mut reserved: Vec<u8> = Vec::new();
        push_zero_bytes(&mut reserved, ENTITY_RESERVED_LEN);
        Operator {
            account_type: AccountType::Operator,
            admin,
            base,
            voter,
            vault_count: 0,
            avs_count: 0,
            reserved,
            bump,
        }
    }

    /// The admin identity stored in the record.
    pub fn admin(&self) -> (r: Pubkey)
        ensures
            r@ == self@.admin,
    {
        self.admin.clone()
    }

    /// The base identity this entity's address derives from.
    pub fn base(&self) -> (r: Pubkey)
        ensures
            r@ == self@.base,
    {
        self.base.clone()
    }

    /// The identity this operator votes with.
    pub fn voter(&self) -> (r: Pubkey)
        ensures
            r@ == self@.voter,
    {
        self.voter.clone()
    }

    /// How many vault edges this entity has ever created.
    pub fn vault_count(&self) -> (r: u64)
        ensures
            r == self@.vault_count,
    {
        self.vault_count
    }

    /// How many service edges this entity has ever created.
    pub fn avs_count(&self) -> (r: u64)
        ensures
            r == self@.avs_count,
    {
        self.avs_count
    }

    /// The stored disambiguation byte.
    pub fn bump(&self) -> (r: u8)
        ensures
            r == self@.bump,
    {
        self.bump
    }

    /// Whether the stored type tag is the operator-entity tag.
    pub fn is_struct_valid(&self) -> (r: bool)
        ensures
            r == (self@.account_type == AccountType::Operator),
    {
        match self.account_type {
            AccountType::Operator => true,
            _ => false,
        }
    }

    /// Succeeds exactly when `key` is this entity's stored admin.
    pub fn check_admin(&self, key: &Pubkey) -> (r: Result<(), RestakingError>)
        requires
            self@.wf(),
            key.wf(),
        ensures
            key@ == self@.admin ==> r is Ok,
            key@ != self@.admin ==> r == Err::<(), RestakingError>(
                RestakingError::AuthorizationFailure,
            ),
    {
        if self.admin.key_eq(key) {
            Ok(())
        } else {
            Err(RestakingError::AuthorizationFailure)
        }
    }

    /// Counts one more vault edge. Nothing changes when the counter would
    /// leave the representable range.
    pub fn increment_vault_count(&mut self) -> (r: Option<u64>)
        ensures
            old(self)@.vault_count < u64::MAX ==> {
                &&& r == Some((old(self)@.vault_count + 1) as u64)
                &&& final(self)@ == (OperatorV {
                    vault_count: (old(self)@.vault_count + 1) as u64,
                    ..old(self)@
                })
            },
            old(self)@.vault_count == u64::MAX ==> r is None && final(self)@ == old(self)@,
    {
        if self.vault_count < u64::MAX {
            self.vault_count = self.vault_count + 1;
            Some(self.vault_count)
        } else {
            None
        }
    }

    /// Counts one more service edge.
    pub fn increment_avs_count(&mut self) -> (r: Option<u64>)
        ensures
            old(self)@.avs_count < u64::MAX ==> {
                &&& r == Some((old(self)@.avs_count + 1) as u64)
                &&& final(self)@ == (OperatorV {
                    avs_count: (old(self)@.avs_count + 1) as u64,
                    ..old(self)@
                })
            },
            old(self)@.avs_count == u64::MAX ==> r is None && final(self)@ == old(self)@,
    {
        if self.avs_count < u64::MAX {
            self.avs_count = self.avs_count + 1;
            Some(self.avs_count)
        } else {
            None
        }
    }

    /// The canonical address of the operator entity derived from `base`.
    pub fn find_program_address(program_id: &Pubkey, base: &Pubkey) -> (r: (Pubkey, u8, Vec<
        Vec<u8>,
    >))
        requires
            program_id.wf(),
            base.wf(),
            pda_of(spec_operator_seeds(base@), program_id@) is Some,
        ensures
            pda_of(spec_operator_seeds(base@), program_id@) == Some((r.0@, r.1)),
            r.0.wf(),
            ca_of(spec_operator_seeds(base@).push(seq![r.1]), program_id@) == Some(r.0@),
            forall|b: u8|
                b > r.1 ==> ca_of(spec_operator_seeds(base@).push(seq![b]), program_id@) is None,
            r.2.deep_view() == spec_operator_seeds(base@),
    {
        let seeds = operator_seeds(base);
        let found = solana_try_find_program_address(&seeds, program_id);
        match found {
            Some(pair) => (pair.0, pair.1, seeds),
            None => {
                proof {
                    assert(false);
                }
                (Pubkey::zeroed(), 0, seeds)
            },
        }
    }

    /// The canonical address of the operator entity derived from `base`,
    /// or nothing in the statistically improbable event that no
    /// disambiguation byte yields an address.
    pub fn try_find_program_address(program_id: &Pubkey, base: &Pubkey) -> (r: Option<
        (Pubkey, u8, Vec<Vec<u8>>),
    >)
        requires
            program_id.wf(),
            base.wf(),
        ensures
            match r {
                Some(found) => {
                    &&& pda_of(spec_operator_seeds(base@), program_id@) == Some((found.0@, found.1))
                    &&& found.0.wf()
                    &&& ca_of(spec_operator_seeds(base@).push(seq![found.1]), program_id@) == Some(
                        found.0@,
                    )
                    &&& forall|b: u8|
                        b > found.1 ==> ca_of(spec_operator_seeds(base@).push(seq![b]), program_id@) is None
                    &&& found.2.deep_view() == spec_operator_seeds(base@)
                },
                None => pda_of(spec_operator_seeds(base@), program_id@) is None,
            },
    {
        let seeds = operator_seeds(base);
        let probe = solana_try_find_program_address(&seeds, program_id);
        match probe {
            Some(_) => Some(Operator::find_program_address(program_id, base)),
            None => None,
        }
    }

    /// The exact persisted bytes of this record.
    pub fn to_bytes(&self) -> (r: Vec<u8>)
        requires
            self@.wf(),
        ensures
            r@ == spec_operator_bytes(self@),
            r@.len() == OPERATOR_RECORD_LEN,
    {
        let mut out: Vec<u8> = Vec::new();
        out.push(self.account_type.tag());
        push_key(&mut out, &self.admin);
        push_key(&mut out, &self.base);
        push_key(&mut out, &self.voter);
        push_u64_le(&mut out, self.vault_count);
        push_u64_le(&mut out, self.avs_count);
        push_bytes(&mut out, &self.reserved);
        out.push(self.bump);
        proof {
            assert(out@ =~= spec_operator_bytes(self@));
            lemma_operator_roundtrip(self@);
        }
        out
    }

    /// Reads an operator-entity record back from persisted bytes.
    pub fn parse(data: &Vec<u8>) -> (r: Option<Operator>)
        ensures
            match r {
                Some(c) => spec_parse_operator(data@) == Some(c@) && c@.wf(),
                None => spec_parse_operator(data@) is None,
            },
    {
        if data.len() < OPERATOR_RECORD_LEN {
            return None;
        }
        let account_type = match AccountType::from_tag(data[0]) {
            Some(t) => t,
            None => {
                return None;
            },
        };
        let admin = Pubkey::from_bytes_at(data, 1);
        let base = Pubkey::from_bytes_at(data, 33);
        let voter = Pubkey::from_bytes_at(data, 65);
        let vault_count = read_u64_le(data, 97);
        let avs_count = read_u64_le(data, 105);
        let reserved = read_vec_at(data, 113, ENTITY_RESERVED_LEN);
        let bump = data[177];
        Some(
            Operator {
                account_type,
                admin,
                base,
                voter,
                vault_count,
                avs_count,
                reserved,
                bump,
            },
        )
    }

    /// Loads the operator-entity record from `account` under the checked
    /// access protocol.
    pub fn deserialize_checked(program_id: &Pubkey, account: &AccountRegion) -> (r: Result<
        Operator,
        RestakingError,
    >)
        requires
            program_id.wf(),
            account.wf(),
        ensures
            match r {
                Ok(c) => spec_checked_operator(program_id@, account@) == Ok::<
                    OperatorV,
                    RestakingError,
                >(c@) && c@.wf(),
                Err(e) => spec_checked_operator(program_id@, account@) == Err::<
                    OperatorV,
                    RestakingError,
                >(e),
            },
    {
        if account.data.len() == 0 {
            return Err(RestakingError::UninitializedRecord);
        }
        if !account.owner.key_eq(program_id) {
            return Err(RestakingError::OwnershipMismatch);
        }
        let operator = match Operator::parse(&account.data) {
            Some(c) => c,
            None => {
                return Err(RestakingError::TypeMismatch);
            },
        };
        if !operator.is_struct_valid() {
            return Err(RestakingError::TypeMismatch);
        }
        let mut seeds = operator_seeds(&operator.base);
        push_bump_seed(&mut seeds, operator.bump);
        let derived = solana_create_program_address(&seeds, program_id);
        match derived {
            Some(address) => {
                if !address.key_eq(&account.key) {
                    return Err(RestakingError::AddressMismatch);
                }
            },
            None => {
                return Err(RestakingError::AddressMismatch);
            },
        }
        Ok(operator)
    }
}

/// The checked-access protocol of an operator-entity region together with
/// the caller's writable requirement.
pub open spec fn spec_sanitize_operator(pid: Seq<u8>, r: RegionV, expect_writable: bool) -> Result<
    OperatorV,
    RestakingError,
> {
    match spec_checked_operator(pid, r) {
        Ok(c) => {
            if expect_writable && !r.is_writable {
                Err(RestakingError::AuthorizationFailure)
            } else {
                Ok(c)
            }
        },
        Err(e) => Err(e),
    }
}

/// A validated, typed handle on an operator-entity record.
#[derive(Debug)]
pub struct SanitizedOperator {
    account: Pubkey,
    operator: Operator,
}

impl SanitizedOperator {
    /// The address this handle was validated at.
    pub closed spec fn spec_account(&self) -> Seq<u8> {
        self.account@
    }

    /// The record held by this handle.
    pub closed spec fn spec_operator(&self) -> OperatorV {
        self.operator@
    }

    /// Well-formedness of the handle.
    pub open spec fn wf(&self) -> bool {
        &&& self.spec_account().len() == 32
        &&& self.spec_operator().wf()
    }

    /// Validates `account` as an operator-entity record.
    pub fn sanitize(program_id: &Pubkey, account: &AccountRegion, expect_writable: bool) -> (r:
        Result<SanitizedOperator, RestakingError>)
        requires
            program_id.wf(),
            account.wf(),
        ensures
            match r {
                Ok(s) => spec_sanitize_operator(program_id@, account@, expect_writable) == Ok::<
                    OperatorV,
                    RestakingError,
                >(s.spec_operator()) && s.spec_account() == account@.key && s.wf(),
                Err(e) => spec_sanitize_operator(program_id@, account@, expect_writable) == Err::<
                    OperatorV,
                    RestakingError,
                >(e),
            },
    {
        let operator = Operator::deserialize_checked(program_id, account)?;
        if expect_writable && !account.is_writable {
            return Err(RestakingError::AuthorizationFailure);
        }
        Ok(SanitizedOperator { account: account.key.clone(), operator })
    }

    /// The address this handle was validated at.
    pub fn account(&self) -> (r: &Pubkey)
        ensures
            r@ == self.spec_account(),
    {
        &self.account
    }

    /// Read access to the validated record.
    pub fn operator(&self) -> (r: &Operator)
        ensures
            r@ == self.spec_operator(),
    {
        &self.operator
    }

    /// Write access to the in-memory copy; nothing persists until `save`.
    pub fn operator_mut(&mut self) -> (r: &mut Operator)
        ensures
            (*r)@ == old(self).spec_operator(),
            final(self).spec_operator() == (*final(r))@,
            final(self).spec_account() == old(self).spec_account(),
    {
        &mut self.operator
    }

    /// Writes the record back into the region it was validated from,
    /// which therefore holds at least the record's width; an
    /// over-allocated tail stays untouched.
    pub fn save(&self, region: &mut AccountRegion) -> (r: Result<(), RestakingError>)
        requires
            self.wf(),
            old(region)@.key == self.spec_account(),
            old(region)@.is_writable,
            old(region)@.data.len() >= OPERATOR_RECORD_LEN,
        ensures
            r is Ok,
            final(region)@ == (RegionV {
                data: spec_operator_bytes(self.spec_operator()) + old(region)@.data.skip(
                    OPERATOR_RECORD_LEN as int,
                ),
                ..old(region)@
            }),
    {
        let bytes = self.operator.to_bytes();
        let new_data = crate::codec::splice_record(&region.data, bytes);
        region.data = new_data;
        Ok(())
    }
}

} // verus!
