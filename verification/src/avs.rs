use vstd::prelude::*;

use vstd::bytes::{spec_u64_from_le_bytes, spec_u64_to_le_bytes};

use crate::account_type::{spec_tag_of, spec_type_of_tag, AccountType};
use crate::codec::{
    lemma_u64_le_roundtrip, push_bytes, push_key, push_u64_le, push_zero_bytes, read_u64_le,
    read_vec_at, zero_bytes,
};
use crate::error::RestakingError;
use crate::pda::{ca_of, pda_of, solana_create_program_address, solana_try_find_program_address};
use crate::pubkey::Pubkey;
use crate::region::{AccountRegion, RegionV};
use crate::seeds::{avs_seeds, push_bump_seed, spec_avs_seeds};

verus! {

/// Width of the reserved block of an entity record.
pub const ENTITY_RESERVED_LEN: usize = 64;

/// Persisted width of a service-entity record: tag, admin, base, three edge
/// counters, reserved block, disambiguation byte.
pub const AVS_RECORD_LEN: usize = 154;

/// The mathematical value of a service-entity record.
pub ghost struct AvsV {
    /// The stored type tag.
    pub account_type: AccountType,
    /// The identity allowed to administer this entity and its edges.
    pub admin: Seq<u8>,
    /// The unique base identity this entity's address is derived from.
    pub base: Seq<u8>,
    /// How many vault edges this entity has ever created.
    pub vault_count: u64,
    /// How many operator edges this entity has ever created.
    pub operator_count: u64,
    /// How many vault-slasher edges this entity has ever created.
    pub slasher_count: u64,
    /// The reserved block kept for forward compatibility.
    pub reserved: Seq<u8>,
    /// The disambiguation byte of the record's address derivation.
    pub bump: u8,
}

impl AvsV {
    /// Shape of a well-formed service-entity value.
    pub open spec fn wf(&self) -> bool {
        &&& self.admin.len() == 32
        &&& self.base.len() == 32
        &&& self.reserved.len() == ENTITY_RESERVED_LEN
    }
}

/// The exact persisted bytes of a service-entity value.
pub open spec fn spec_avs_bytes(c: AvsV) -> Seq<u8> {
    seq![spec_tag_of(c.account_type)] + c.admin + c.base + spec_u64_to_le_bytes(c.vault_count)
        + spec_u64_to_le_bytes(c.operator_count) + spec_u64_to_le_bytes(c.slasher_count)
        + c.reserved + seq![c.bump]
}

/// Reads a service-entity value back from persisted bytes: the leading
/// record of a region at least the record's width; any over-allocated
/// tail is ignored.
pub open spec fn spec_parse_avs(data: Seq<u8>) -> Option<AvsV> {
    if data.len() >= AVS_RECORD_LEN && spec_type_of_tag(data[0]) is Some {
        Some(
            AvsV {
                account_type: spec_type_of_tag(data[0]).unwrap(),
                admin: data.subrange(1, 33),
                base: data.subrange(33, 65),
                vault_count: spec_u64_from_le_bytes(data.subrange(65, 73)),
                operator_count: spec_u64_from_le_bytes(data.subrange(73, 81)),
                slasher_count: spec_u64_from_le_bytes(data.subrange(81, 89)),
                reserved: data.subrange(89, 153),
                bump: data[153],
            },
        )
    } else {
        None
    }
}

/// Serialization round trip for service-entity records.
pub proof fn lemma_avs_roundtrip(c: AvsV)
    requires
        c.wf(),
    ensures
        spec_avs_bytes(c).len() == AVS_RECORD_LEN,
        spec_parse_avs(spec_avs_bytes(c)) == Some(c),
{
    lemma_u64_le_roundtrip(c.vault_count);
    lemma_u64_le_roundtrip(c.operator_count);
    lemma_u64_le_roundtrip(c.slasher_count);
    let b = spec_avs_bytes(c);
    assert(b.len() == AVS_RECORD_LEN);
    assert(b[0] == spec_tag_of(c.account_type));
    crate::account_type::lemma_tag_roundtrip(c.account_type);
    assert(b.subrange(1, 33) =~= c.admin);
    assert(b.subrange(33, 65) =~= c.base);
    assert(b.subrange(65, 73) =~= spec_u64_to_le_bytes(c.vault_count));
    assert(b.subrange(73, 81) =~= spec_u64_to_le_bytes(c.operator_count));
    assert(b.subrange(81, 89) =~= spec_u64_to_le_bytes(c.slasher_count));
    assert(b.subrange(89, 153) =~= c.reserved);
    assert(b[153] == c.bump);
}

/// The round trip holds in any region wide enough: the record's bytes
/// followed by an arbitrary tail still parse back to the record.
pub proof fn lemma_avs_prefix_roundtrip(c: AvsV, tail: Seq<u8>)
    requires
        c.wf(),
    ensures
        spec_parse_avs(spec_avs_bytes(c) + tail) == Some(c),
{
    lemma_avs_roundtrip(c);
    let b = spec_avs_bytes(c);
    let d = b + tail;
    assert(d[0] == b[0]);
    assert(d.subrange(1, 33) =~= b.subrange(1, 33));
    assert(d.subrange(33, 65) =~= b.subrange(33, 65));
    assert(d.subrange(65, 73) =~= b.subrange(65, 73));
    assert(d.subrange(73, 81) =~= b.subrange(73, 81));
    assert(d.subrange(81, 89) =~= b.subrange(81, 89));
    assert(d.subrange(89, 153) =~= b.subrange(89, 153));
    assert(d[153] == b[153]);
}

/// The checked-access protocol applied to a service-entity region.
pub open spec fn spec_checked_avs(pid: Seq<u8>, r: RegionV) -> Result<AvsV, RestakingError> {
    if r.data.len() == 0 {
        Err(RestakingError::UninitializedRecord)
    } else if r.owner != pid {
        Err(RestakingError::OwnershipMismatch)
    } else if spec_parse_avs(r.data) is None {
        Err(RestakingError::TypeMismatch)
    } else {
        let c = spec_parse_avs(r.data).unwrap();
        if c.account_type != AccountType::Avs {
            Err(RestakingError::TypeMismatch)
        } else if ca_of(spec_avs_seeds(c.base).push(seq![c.bump]), pid) != Some(r.key) {
            Err(RestakingError::AddressMismatch)
        } else {
            Ok(c)
        }
    }
}

/// A service entity: its admin, the base identity its address derives
/// from, and the counters of every edge kind it has ever created.
#[derive(Debug)]
pub struct Avs {
    account_type: AccountType,
    admin: Pubkey,
    base: Pubkey,
    vault_count: u64,
    operator_count: u64,
    slasher_count: u64,
    reserved: Vec<u8>,
    bump: u8,
}

impl View for Avs {
    type V = AvsV;

    closed spec fn view(&self) -> AvsV {
        AvsV {
            account_type: self.account_type,
            admin: self.admin@,
            base: self.base@,
            vault_count: self.vault_count,
            operator_count: self.operator_count,
            slasher_count: self.slasher_count,
            reserved: self.reserved@,
            bump: self.bump,
        }
    }
}

impl Avs {
    /// A fresh service entity: all edge counters at zero.
    pub fn new(admin: Pubkey, base: Pubkey, bump: u8) -> (r: Avs)
        requires
            admin.wf(),
            base.wf(),
        ensures
            r@.wf(),
            r@ == (AvsV {
                account_type: AccountType::Avs,
                admin: admin@,
                base: base@,
                vault_count: 0u64,
                operator_count: 0u64,
                slasher_count: 0u64,
                reserved: zero_bytes(ENTITY_RESERVED_LEN as nat),
                bump: bump,
            }),
    {
        let mut reserved: Vec<u8> = Vec::new();
        push_zero_bytes(&mut reserved, ENTITY_RESERVED_LEN);
        Avs {
            account_type: AccountType::Avs,
            admin,
            base,
            vault_count: 0,
            operator_count: 0,
            slasher_count: 0,
            reserved,
            bump,
        }
    }

    /// The admin identity stored in the record.
    pub fn admin(&self) -> (r: Pubkey)
        ensures
            r@ == self@.admin,
    {
        self.admin.clone()
    }

    /// The base identity this entity's address derives from.
    pub fn base(&self) -> (r: Pubkey)
        ensures
            r@ == self@.base,
    {
        self.base.clone()
    }

    /// How many vault edges this entity has ever created.
    pub fn vault_count(&self) -> (r: u64)
        ensures
            r == self@.vault_count,
    {
        self.vault_count
    }

    /// How many operator edges this entity has ever created.
    pub fn operator_count(&self) -> (r: u64)
        ensures
            r == self@.operator_count,
    {
        self.operator_count
    }

    /// How many vault-slasher edges this entity has ever created.
    pub fn slasher_count(&self) -> (r: u64)
        ensures
            r == self@.slasher_count,
    {
        self.slasher_count
    }

    /// The stored disambiguation byte.
    pub fn bump(&self) -> (r: u8)
        ensures
            r == self@.bump,
    {
        self.bump
    }

    /// Whether the stored type tag is the service-entity tag.
    pub fn is_struct_valid(&self) -> (r: bool)
        ensures
            r == (self@.account_type == AccountType::Avs),
    {
        match self.account_type {
            AccountType::Avs => true,
            _ => false,
        }
    }

    /// Succeeds exactly when `key` is this entity's stored admin.
    pub fn check_admin(&self, key: &Pubkey) -> (r: Result<(), RestakingError>)
        requires
            self@.wf(),
            key.wf(),
        ensures
            key@ == self@.admin ==> r is Ok,
            key@ != self@.admin ==> r == Err::<(), RestakingError>(
                RestakingError::AuthorizationFailure,
            ),
    {
        if self.admin.key_eq(key) {
            Ok(())
        } else {
            Err(RestakingError::AuthorizationFailure)
        }
    }

    /// Counts one more vault edge. Nothing changes when the counter would
    /// leave the representable range.
    pub fn increment_vault_count(&mut self) -> (r: Option<u64>)
        ensures
            old(self)@.vault_count < u64::MAX ==> {
                &&& r == Some((old(self)@.vault_count + 1) as u64)
                &&& final(self)@ == (AvsV {
                    vault_count: (old(self)@.vault_count + 1) as u64,
                    ..old(self)@
                })
            },
            old(self)@.vault_count == u64::MAX ==> r is None && final(self)@ == old(self)@,
    {
        if self.vault_count < u64::MAX {
            self.vault_count = self.vault_count + 1;
            Some(self.vault_count)
        } else {
            None
        }
    }

    /// Counts one more operator edge.
    pub fn increment_operator_count(&mut self) -> (r: Option<u64>)
        ensures
            old(self)@.operator_count < u64::MAX ==> {
                &&& r == Some((old(self)@.operator_count + 1) as u64)
                &&& final(self)@ == (AvsV {
                    operator_count: (old(self)@.operator_count + 1) as u64,
                    ..old(self)@
                })
            },
            old(self)@.operator_count == u64::MAX ==> r is None && final(self)@ == old(self)@,
    {
        if self.operator_count < u64::MAX {
            self.operator_count = self.operator_count + 1;
            Some(self.operator_count)
        } else {
            None
        }
    }

    /// Counts one more vault-slasher edge.
    pub fn increment_slasher_count(&mut self) -> (r: Option<u64>)
        ensures
            old(self)@.slasher_count < u64::MAX ==> {
                &&& r == Some((old(self)@.slasher_count + 1) as u64)
                &&& final(self)@ == (AvsV {
                    slasher_count: (old(self)@.slasher_count + 1) as u64,
                    ..old(self)@
                })
            },
            old(self)@.slasher_count == u64::MAX ==> r is None && final(self)@ == old(self)@,
    {
        if self.slasher_count < u64::MAX {
            self.slasher_count = self.slasher_count + 1;
            Some(self.slasher_count)
        } else {
            None
        }
    }

    /// The canonical address of the service entity derived from `base`.
    pub fn find_program_address(program_id: &Pubkey, base: &Pubkey) -> (r: (Pubkey, u8, Vec<
        Vec<u8>,
    >))
        requires
            program_id.wf(),
            base.wf(),
            pda_of(spec_avs_seeds(base@), program_id@) is Some,
        ensures
            pda_of(spec_avs_seeds(base@), program_id@) == Some((r.0@, r.1)),
            r.0.wf(),
            ca_of(spec_avs_seeds(base@).push(seq![r.1]), program_id@) == Some(r.0@),
            forall|b: u8|
                b > r.1 ==> ca_of(spec_avs_seeds(base@).push(seq![b]), program_id@) is None,
            r.2.deep_view() == spec_avs_seeds(base@),
    {
        let seeds = avs_seeds(base);
        let found = solana_try_find_program_address(&seeds, program_id);
        match found {
            Some(pair) => (pair.0, pair.1, seeds),
            None => {
                proof {
                    assert(false);
                }
                (Pubkey::zeroed(), 0, seeds)
            },
        }
    }

    /// The canonical address of the service entity derived from `base`, or
    /// nothing in the statistically improbable event that no disambiguation
    /// byte yields an address.
    pub fn try_find_program_address(program_id: &Pubkey, base: &Pubkey) -> (r: Option<
        (Pubkey, u8, Vec<Vec<u8>>),
    >)
        requires
            program_id.wf(),
            base.wf(),
        ensures
            match r {
                Some(found) => {
                    &&& pda_of(spec_avs_seeds(base@), program_id@) == Some((found.0@, found.1))
                    &&& found.0.wf()
                    &&& ca_of(spec_avs_seeds(base@).push(seq![found.1]), program_id@) == Some(
                        found.0@,
                    )
                    &&& forall|b: u8|
                        b > found.1 ==> ca_of(spec_avs_seeds(base@).push(seq![b]), program_id@) is None
                    &&& found.2.deep_view() == spec_avs_seeds(base@)
                },
                None => pda_of(spec_avs_seeds(base@), program_id@) is None,
            },
    {
        let seeds = avs_seeds(base);
        let probe = solana_try_find_program_address(&seeds, program_id);
        match probe {
            Some(_) => Some(Avs::find_program_address(program_id, base)),
            None => None,
        }
    }

    /// The exact persisted bytes of this record.
    pub fn to_bytes(&self) -> (r: Vec<u8>)
        requires
            self@.wf(),
        ensures
            r@ == spec_avs_bytes(self@),
            r@.len() == AVS_RECORD_LEN,
    {
        let mut out: Vec<u8> = Vec::new();
        out.push(self.account_type.tag());
        push_key(&mut out, &self.admin);
        push_key(&mut out, &self.base);
        push_u64_le(&mut out, self.vault_count);
        push_u64_le(&mut out, self.operator_count);
        push_u64_le(&mut out, self.slasher_count);
        push_bytes(&mut out, &self.reserved);
        out.push(self.bump);
        proof {
            assert(out@ =~= spec_avs_bytes(self@));
            lemma_avs_roundtrip(self@);
        }
        out
    }

    /// Reads a service-entity record back from persisted bytes.
    pub fn parse(data: &Vec<u8>) -> (r: Option<Avs>)
        ensures
            match r {
                Some(c) => spec_parse_avs(data@) == Some(c@) && c@.wf(),
                None => spec_parse_avs(data@) is None,
            },
    {
        if data.len() < AVS_RECORD_LEN {
            return None;
        }
        let account_type = match AccountType::from_tag(data[0]) {
            Some(t) => t,
            None => {
                return None;
            },
        };
        let admin = Pubkey::from_bytes_at(data, 1);
        let base = Pubkey::from_bytes_at(data, 33);
        let vault_count = read_u64_le(data, 65);
        let operator_count = read_u64_le(data, 73);
        let slasher_count = read_u64_le(data, 81);
        let reserved = read_vec_at(data, 89, ENTITY_RESERVED_LEN);
        let bump = data[153];
        Some(
            Avs {
                account_type,
                admin,
                base,
                vault_count,
                operator_count,
                slasher_count,
                reserved,
                bump,
            },
        )
    }

    /// Loads the service-entity record from `account` under the checked
    /// access protocol.
    pub fn deserialize_checked(program_id: &Pubkey, account: &AccountRegion) -> (r: Result<
        Avs,
        RestakingError,
    >)
        requires
            program_id.wf(),
            account.wf(),
        ensures
            match r {
                Ok(c) => spec_checked_avs(program_id@, account@) == Ok::<AvsV, RestakingError>(c@)
                    && c@.wf(),
                Err(e) => spec_checked_avs(program_id@, account@) == Err::<AvsV, RestakingError>(e),
            },
    {
        if account.data.len() == 0 {
            return Err(RestakingError::UninitializedRecord);
        }
        if !account.owner.key_eq(program_id) {
            return Err(RestakingError::OwnershipMismatch);
        }
        let avs = match Avs::parse(&account.data) {
            Some(c) => c,
            None => {
                return Err(RestakingError::TypeMismatch);
            },
        };
        if !avs.is_struct_valid() {
            return Err(RestakingError::TypeMismatch);
        }
        let mut seeds = avs_seeds(&avs.base);
        push_bump_seed(&mut seeds, avs.bump);
        let derived = solana_create_program_address(&seeds, program_id);
        match derived {
            Some(address) => {
                if !address.key_eq(&account.key) {
                    return Err(RestakingError::AddressMismatch);
                }
            },
            None => {
                return Err(RestakingError::AddressMismatch);
            },
        }
        Ok(avs)
    }
}

/// The checked-access protocol of a service-entity region together with
/// the caller's writable requirement.
pub open spec fn spec_sanitize_avs(pid: Seq<u8>, r: RegionV, expect_writable: bool) -> Result<
    AvsV,
    RestakingError,
> {
    match spec_checked_avs(pid, r) {
        Ok(c) => {
            if expect_writable && !r.is_writable {
                Err(RestakingError::AuthorizationFailure)
            } else {
                Ok(c)
            }
        },
        Err(e) => Err(e),
    }
}

/// A validated, typed handle on a service-entity record.
#[derive(Debug)]
pub struct SanitizedAvs {
    account: Pubkey,
    avs: Avs,
}

impl SanitizedAvs {
    /// The address this handle was validated at.
    pub closed spec fn spec_account(&self) -> Seq<u8> {
        self.account@
    }

    /// The record held by this handle.
    pub closed spec fn spec_avs(&self) -> AvsV {
        self.avs@
    }

    /// Well-formedness of the handle.
    pub open spec fn wf(&self) -> bool {
        &&& self.spec_account().len() == 32
        &&& self.spec_avs().wf()
    }

    /// Validates `account` as a service-entity record.
    pub fn sanitize(program_id: &Pubkey, account: &AccountRegion, expect_writable: bool) -> (r:
        Result<SanitizedAvs, RestakingError>)
        requires
            program_id.wf(),
            account.wf(),
        ensures
            match r {
                Ok(s) => spec_sanitize_avs(program_id@, account@, expect_writable) == Ok::<
                    AvsV,
                    RestakingError,
                >(s.spec_avs()) && s.spec_account() == account@.key && s.wf(),
                Err(e) => spec_sanitize_avs(program_id@, account@, expect_writable) == Err::<
                    AvsV,
                    RestakingError,
                >(e),
            },
    {
        let avs = Avs::deserialize_checked(program_id, account)?;
        if expect_writable && !account.is_writable {
            return Err(RestakingError::AuthorizationFailure);
        }
        Ok(SanitizedAvs { account: account.key.clone(), avs })
    }

    /// The address this handle was validated at.
    pub fn account(&self) -> (r: &Pubkey)
        ensures
            r@ == self.spec_account(),
    {
        &self.account
    }

    /// Read access to the validated record.
    pub fn avs(&self) -> (r: &Avs)
        ensures
            r@ == self.spec_avs(),
    {
        &self.avs
    }

    /// Write access to the in-memory copy; nothing persists until `save`.
    pub fn avs_mut(&mut self) -> (r: &mut Avs)
        ensures
            (*r)@ == old(self).spec_avs(),
            final(self).spec_avs() == (*final(r))@,
            final(self).spec_account() == old(self).spec_account(),
    {
        &mut self.avs
    }

    /// Writes the record back into the region it was validated from,
    /// which therefore holds at least the record's width; an
    /// over-allocated tail stays untouched.
    pub fn save(&self, region: &mut AccountRegion) -> (r: Result<(), RestakingError>)
        requires
            self.wf(),
            old(region)@.key == self.spec_account(),
            old(region)@.is_writable,
            old(region)@.data.len() >= AVS_RECORD_LEN,
        ensures
            r is Ok,
            final(region)@ == (RegionV {
                data: spec_avs_bytes(self.spec_avs()) + old(region)@.data.skip(
                    AVS_RECORD_LEN as int,
                ),
                ..old(region)@
            }),
    {
        let bytes = self.avs.to_bytes();
        let new_data = crate::codec::splice_record(&region.data, bytes);
        region.data = new_data;
        Ok(())
    }
}

} // verus!
