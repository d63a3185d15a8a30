use vstd::prelude::*;

use vstd::bytes::{spec_u64_from_le_bytes, spec_u64_to_le_bytes};

use crate::account_type::{spec_tag_of, spec_type_of_tag, AccountType};
use crate::codec::{
    lemma_u64_le_roundtrip, push_bytes, push_key, push_u64_le, read_u64_le, read_vec_at,
    zero_bytes,
};
use crate::error::RestakingError;
use crate::pda::{ca_of, pda_of, solana_create_program_address, solana_try_find_program_address};
use crate::pubkey::Pubkey;
use crate::region::{AccountRegion, RegionV};
use crate::seeds::{config_seeds, push_bump_seed, spec_config_seeds};

verus! {

/// Width of the reserved block of the configuration record.
pub const CONFIG_RESERVED_LEN: usize = 1024;

/// Persisted width of the configuration record: tag, admin, program signer,
/// vault counter, reserved block, disambiguation byte.
pub const CONFIG_RECORD_LEN: usize = 1098;

/// The mathematical value of a configuration record.
pub ghost struct ConfigV {
    /// The stored type tag.
    pub account_type: AccountType,
    /// The identity allowed to administer the configuration.
    pub admin: Seq<u8>,
    /// The signer authority delegated to the companion restaking program.
    pub restaking_program_signer: Seq<u8>,
    /// How many vaults have been registered with the program.
    pub num_vaults: u64,
    /// The reserved block kept for forward compatibility.
    pub reserved: Seq<u8>,
    /// The disambiguation byte of the record's address derivation.
    pub bump: u8,
}

impl ConfigV {
    /// Shape of a well-formed configuration value.
    pub open spec fn wf(&self) -> bool {
        &&& self.admin.len() == 32
        &&& self.restaking_program_signer.len() == 32
        &&& self.reserved.len() == CONFIG_RESERVED_LEN
    }
}

/// The exact persisted bytes of a configuration value.
pub open spec fn spec_config_bytes(c: ConfigV) -> Seq<u8> {
    seq![spec_tag_of(c.account_type)] + c.admin + c.restaking_program_signer
        + spec_u64_to_le_bytes(c.num_vaults) + c.reserved + seq![c.bump]
}

/// Reads a configuration value back from persisted bytes: the leading
/// record of a region at least the record's width, with a known tag
/// byte; any over-allocated tail is ignored.
pub open spec fn spec_parse_config(data: Seq<u8>) -> Option<ConfigV> {
    if data.len() >= CONFIG_RECORD_LEN && spec_type_of_tag(data[0]) is Some {
        Some(
            ConfigV {
                account_type: spec_type_of_tag(data[0]).unwrap(),
                admin: data.subrange(1, 33),
                restaking_program_signer: data.subrange(33, 65),
                num_vaults: spec_u64_from_le_bytes(data.subrange(65, 73)),
                reserved: data.subrange(73, 1097),
                bump: data[1097],
            },
        )
    } else {
        None
    }
}

/// Serialization round trip: the persisted bytes of a well-formed
/// configuration value parse back to that value.
pub proof fn lemma_config_roundtrip(c: ConfigV)
    requires
        c.wf(),
    ensures
        spec_config_bytes(c).len() == CONFIG_RECORD_LEN,
        spec_parse_config(spec_config_bytes(c)) == Some(c),
{
    lemma_u64_le_roundtrip(c.num_vaults);
    let b = spec_config_bytes(c);
    assert(b.len() == CONFIG_RECORD_LEN);
    assert(b[0] == spec_tag_of(c.account_type));
    crate::account_type::lemma_tag_roundtrip(c.account_type);
    assert(b.subrange(1, 33) =~= c.admin);
    assert(b.subrange(33, 65) =~= c.restaking_program_signer);
    assert(b.subrange(65, 73) =~= spec_u64_to_le_bytes(c.num_vaults));
    assert(b.subrange(73, 1097) =~= c.reserved);
    assert(b[1097] == c.bump);
}

/// The round trip holds in any region wide enough: the record's bytes
/// followed by an arbitrary tail still parse back to the record.
pub proof fn lemma_config_prefix_roundtrip(c: ConfigV, tail: Seq<u8>)
    requires
        c.wf(),
    ensures
        spec_parse_config(spec_config_bytes(c) + tail) == Some(c),
{
    lemma_config_roundtrip(c);
    let b = spec_config_bytes(c);
    let d = b + tail;
    assert(d[0] == b[0]);
    assert(d.subrange(1, 33) =~= b.subrange(1, 33));
    assert(d.subrange(33, 65) =~= b.subrange(33, 65));
    assert(d.subrange(65, 73) =~= b.subrange(65, 73));
    assert(d.subrange(73, 1097) =~= b.subrange(73, 1097));
    assert(d[1097] == b[1097]);
}

/// The checked-access protocol applied to a configuration region: the
/// region must be initialized, owned by this program, hold a record whose
/// tag is the configuration tag, and sit at the address its stored seeds
/// re-derive. The first failed step names the error.
pub open spec fn spec_checked_config(pid: Seq<u8>, r: RegionV) -> Result<ConfigV, RestakingError> {
    if r.data.len() == 0 {
        Err(RestakingError::UninitializedRecord)
    } else if r.owner != pid {
        Err(RestakingError::OwnershipMismatch)
    } else if spec_parse_config(r.data) is None {
        Err(RestakingError::TypeMismatch)
    } else {
        let c = spec_parse_config(r.data).unwrap();
        if c.account_type != AccountType::Config {
            Err(RestakingError::TypeMismatch)
        } else if ca_of(spec_config_seeds().push(seq![c.bump]), pid) != Some(r.key) {
            Err(RestakingError::AddressMismatch)
        } else {
            Ok(c)
        }
    }
}

/// The configuration singleton: the admin identity, the signer authority
/// delegated to the companion restaking program, and the count of vaults
/// registered so far.
#[derive(Debug)]
pub struct Config {
    account_type: AccountType,
    admin: Pubkey,
    restaking_program_signer: Pubkey,
    num_vaults: u64,
    reserved: Vec<u8>,
    bump: u8,
}

impl View for Config {
    type V = ConfigV;

    closed spec fn view(&self) -> ConfigV {
        ConfigV {
            account_type: self.account_type,
            admin: self.admin@,
            restaking_program_signer: self.restaking_program_signer@,
            num_vaults: self.num_vaults,
            reserved: self.reserved@,
            bump: self.bump,
        }
    }
}

impl Config {
    /// A fresh configuration record: no vaults yet, reserved block zeroed.
    pub fn new(admin: Pubkey, restaking_program_signer: Pubkey, bump: u8) -> (r: Config)
        requires
            admin.wf(),
            restaking_program_signer.wf(),
        ensures
            r@.wf(),
            r@.account_type == AccountType::Config,
            r@.admin == admin@,
            r@.restaking_program_signer == restaking_program_signer@,
            r@.num_vaults == 0,
            r@.reserved == zero_bytes(CONFIG_RESERVED_LEN as nat),
            r@.bump == bump,
    {
        let mut reserved: Vec<u8> = Vec::new();
        crate::codec::push_zero_bytes(&mut reserved, CONFIG_RESERVED_LEN);
        Config {
            account_type: AccountType::Config,
            admin,
            restaking_program_signer,
            num_vaults: 0,
            reserved,
            bump,
        }
    }

    /// The admin identity stored in the record.
    pub fn admin(&self) -> (r: Pubkey)
        ensures
            r@ == self@.admin,
    {
        self.admin.clone()
    }

    /// Counts one more registered vault. Nothing changes when the counter
    /// would leave the representable range.
    pub fn increment_vaults(&mut self) -> (r: Option<u64>)
        ensures
            old(self)@.num_vaults < u64::MAX ==> {
                &&& r == Some((old(self)@.num_vaults + 1) as u64)
                &&& final(self)@ == (ConfigV {
                    num_vaults: (old(self)@.num_vaults + 1) as u64,
                    ..old(self)@
                })
            },
            old(self)@.num_vaults == u64::MAX ==> r is None && final(self)@ == old(self)@,
    {
        if self.num_vaults < u64::MAX {
            self.num_vaults = self.num_vaults + 1;
            Some(self.num_vaults)
        } else {
            None
        }
    }

    /// How many vaults have been registered.
    pub fn vaults_count(&self) -> (r: u64)
        ensures
            r == self@.num_vaults,
    {
        self.num_vaults
    }

    /// The stored disambiguation byte.
    pub fn bump(&self) -> (r: u8)
        ensures
            r == self@.bump,
    {
        self.bump
    }

    /// Whether the stored type tag is the configuration tag.
    pub fn is_struct_valid(&self) -> (r: bool)
        ensures
            r == (self@.account_type == AccountType::Config),
    {
        match self.account_type {
            AccountType::Config => true,
            _ => false,
        }
    }

    /// The seed list the configuration address is derived from.
    pub fn seeds() -> (r: Vec<Vec<u8>>)
        ensures
            r.deep_view() == spec_config_seeds(),
    {
        config_seeds()
    }

    /// The stored signer authority of the companion restaking program.
    pub fn restaking_program_signer(&self) -> (r: Pubkey)
        ensures
            r@ == self@.restaking_program_signer,
    {
        self.restaking_program_signer.clone()
    }

    /// The canonical address of the configuration singleton under
    /// `program_id`, its disambiguation byte, and the seeds used.
    pub fn find_program_address(program_id: &Pubkey) -> (r: (Pubkey, u8, Vec<Vec<u8>>))
        requires
            program_id.wf(),
            pda_of(spec_config_seeds(), program_id@) is Some,
        ensures
            pda_of(spec_config_seeds(), program_id@) == Some((r.0@, r.1)),
            r.0.wf(),
            ca_of(spec_config_seeds().push(seq![r.1]), program_id@) == Some(r.0@),
            forall|b: u8|
                b > r.1 ==> ca_of(spec_config_seeds().push(seq![b]), program_id@) is None,
            r.2.deep_view() == spec_config_seeds(),
    {
        let seeds = config_seeds();
        let found = solana_try_find_program_address(&seeds, program_id);
        match found {
            Some(pair) => (pair.0, pair.1, seeds),
            None => {
                proof {
                    assert(false);
                }
                (Pubkey::zeroed(), 0, seeds)
            },
        }
    }

    /// The canonical address of the configuration singleton, or nothing in
    /// the statistically improbable event that no disambiguation byte
    /// yields an address.
    pub fn try_find_program_address(program_id: &Pubkey) -> (r: Option<(Pubkey, u8, Vec<Vec<u8>>)>)
        requires
            program_id.wf(),
        ensures
            match r {
                Some(found) => {
                    &&& pda_of(spec_config_seeds(), program_id@) == Some((found.0@, found.1))
                    &&& found.0.wf()
                    &&& ca_of(spec_config_seeds().push(seq![found.1]), program_id@) == Some(
                        found.0@,
                    )
                    &&& forall|b: u8|
                        b > found.1 ==> ca_of(spec_config_seeds().push(seq![b]), program_id@) is None
                    &&& found.2.deep_view() == spec_config_seeds()
                },
                None => pda_of(spec_config_seeds(), program_id@) is None,
            },
    {
        let seeds = config_seeds();
        let probe = solana_try_find_program_address(&seeds, program_id);
        match probe {
            Some(_) => Some(Config::find_program_address(program_id)),
            None => None,
        }
    }

    /// The exact persisted bytes of this record.
    pub fn to_bytes(&self) -> (r: Vec<u8>)
        requires
            self@.wf(),
        ensures
            r@ == spec_config_bytes(self@),
            r@.len() == CONFIG_RECORD_LEN,
    {
        let mut out: Vec<u8> = Vec::new();
        out.push(self.account_type.tag());
        push_key(&mut out, &self.admin);
        push_key(&mut out, &self.restaking_program_signer);
        push_u64_le(&mut out, self.num_vaults);
        push_bytes(&mut out, &self.reserved);
        out.push(self.bump);
        proof {
            assert(out@ =~= spec_config_bytes(self@));
            lemma_config_roundtrip(self@);
        }
        out
    }

    /// Reads a configuration record back from persisted bytes.
    pub fn parse(data: &Vec<u8>) -> (r: Option<Config>)
        ensures
            match r {
                Some(c) => spec_parse_config(data@) == Some(c@) && c@.wf(),
                None => spec_parse_config(data@) is None,
            },
    {
        if data.len() < CONFIG_RECORD_LEN {
            return None;
        }
        let account_type = match AccountType::from_tag(data[0]) {
            Some(t) => t,
            None => {
                return None;
            },
        };
        let admin = Pubkey::from_bytes_at(data, 1);
        let restaking_program_signer = Pubkey::from_bytes_at(data, 33);
        let num_vaults = read_u64_le(data, 65);
        let reserved = read_vec_at(data, 73, CONFIG_RESERVED_LEN);
        let bump = data[1097];
        Some(
            Config {
                account_type,
                admin,
                restaking_program_signer,
                num_vaults,
                reserved,
                bump,
            },
        )
    }

    /// Loads the configuration record from `account`, refusing a region
    /// that is empty, foreign-owned, mistyped, or stored at an address its
    /// own seeds do not re-derive.
    pub fn deserialize_checked(program_id: &Pubkey, account: &AccountRegion) -> (r: Result<
        Config,
        RestakingError,
    >)
        requires
            program_id.wf(),
            account.wf(),
        ensures
            match r {
                Ok(c) => spec_checked_config(program_id@, account@) == Ok::<
                    ConfigV,
                    RestakingError,
                >(c@) && c@.wf(),
                Err(e) => spec_checked_config(program_id@, account@) == Err::<
                    ConfigV,
                    RestakingError,
                >(e),
            },
    {
        if account.data.len() == 0 {
            return Err(RestakingError::UninitializedRecord);
        }
        if !account.owner.key_eq(program_id) {
            return Err(RestakingError::OwnershipMismatch);
        }
        let config = match Config::parse(&account.data) {
            Some(c) => c,
            None => {
                return Err(RestakingError::TypeMismatch);
            },
        };
        if !config.is_struct_valid() {
            return Err(RestakingError::TypeMismatch);
        }
        let mut seeds = config_seeds();
        push_bump_seed(&mut seeds, config.bump());
        let derived = solana_create_program_address(&seeds, program_id);
        match derived {
            Some(address) => {
                if !address.key_eq(&account.key) {
                    return Err(RestakingError::AddressMismatch);
                }
            },
            None => {
                return Err(RestakingError::AddressMismatch);
            },
        }
        Ok(config)
    }
}

/// The checked-access protocol of `spec_checked_config`, extended with the
/// writable requirement a caller may impose: a region that must be written
/// has to be marked writable by the request.
pub open spec fn spec_sanitize_config(pid: Seq<u8>, r: RegionV, expect_writable: bool) -> Result<
    ConfigV,
    RestakingError,
> {
    match spec_checked_config(pid, r) {
        Ok(c) => {
            if expect_writable && !r.is_writable {
                Err(RestakingError::AuthorizationFailure)
            } else {
                Ok(c)
            }
        },
        Err(e) => Err(e),
    }
}

/// A validated, typed handle on the configuration record: the record as
/// read, and the address it was read from. Mutation of the in-memory copy
/// has no effect on persisted state until `save` is called.
#[derive(Debug)]
pub struct SanitizedConfig {
    account: Pubkey,
    config: Config,
}

impl SanitizedConfig {
    /// The address this handle was validated at.
    pub closed spec fn spec_account(&self) -> Seq<u8> {
        self.account@
    }

    /// The record held by this handle.
    pub closed spec fn spec_config(&self) -> ConfigV {
        self.config@
    }

    /// A handle is well formed when its address is a 32-byte key and its
    /// record is well shaped.
    pub open spec fn wf(&self) -> bool {
        &&& self.spec_account().len() == 32
        &&& self.spec_config().wf()
    }

    /// Validates `account` as the configuration record and hands back a
    /// typed handle on it.
    pub fn sanitize(program_id: &Pubkey, account: &AccountRegion, expect_writable: bool) -> (r:
        Result<SanitizedConfig, RestakingError>)
        requires
            program_id.wf(),
            account.wf(),
        ensures
            match r {
                Ok(s) => spec_sanitize_config(program_id@, account@, expect_writable) == Ok::<
                    ConfigV,
                    RestakingError,
                >(s.spec_config()) && s.spec_account() == account@.key && s.wf(),
                Err(e) => spec_sanitize_config(program_id@, account@, expect_writable) == Err::<
                    ConfigV,
                    RestakingError,
                >(e),
            },
    {
        let config = Config::deserialize_checked(program_id, account)?;
        if expect_writable && !account.is_writable {
            return Err(RestakingError::AuthorizationFailure);
        }
        Ok(SanitizedConfig { account: account.key.clone(), config })
    }

    /// The address this handle was validated at.
    pub fn account(&self) -> (r: &Pubkey)
        ensures
            r@ == self.spec_account(),
    {
        &self.account
    }

    /// Read access to the validated record.
    pub fn config(&self) -> (r: &Config)
        ensures
            r@ == self.spec_config(),
    {
        &self.config
    }

    /// Write access to the in-memory copy of the record; nothing persists
    /// until `save`.
    pub fn config_mut(&mut self) -> (r: &mut Config)
        ensures
            (*r)@ == old(self).spec_config(),
            final(self).spec_config() == (*final(r))@,
            final(self).spec_account() == old(self).spec_account(),
    {
        &mut self.config
    }

    /// Writes the record back into the region it was validated from,
    /// which therefore holds at least the record's width; an
    /// over-allocated tail stays untouched.
    pub fn save(&self, region: &mut AccountRegion) -> (r: Result<(), RestakingError>)
        requires
            self.wf(),
            old(region)@.key == self.spec_account(),
            old(region)@.is_writable,
            old(region)@.data.len() >= CONFIG_RECORD_LEN,
        ensures
            r is Ok,
            final(region)@ == (RegionV {
                data: spec_config_bytes(self.spec_config()) + old(region)@.data.skip(
                    CONFIG_RECORD_LEN as int,
                ),
                ..old(region)@
            }),
    {
        let bytes = self.config.to_bytes();
        let new_data = crate::codec::splice_record(&region.data, bytes);
        region.data = new_data;
        Ok(())
    }
}

} // verus!
