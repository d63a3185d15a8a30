use vstd::prelude::*;

use crate::error::RestakingError;
use crate::pubkey::{zero_key, Pubkey};
use crate::region::AccountRegion;

verus! {

/// The well-known address of the hosting environment's system program:
/// thirty-two zero bytes.
pub fn system_program_id() -> (r: Pubkey)
    ensures
        r.wf(),
        r@ == zero_key(),
{
    Pubkey::zeroed()
}

/// A handle on the system-program region, validated to really be the
/// system program and not an imposter.
#[derive(Debug)]
pub struct SanitizedSystemProgram {
    account: Pubkey,
}

impl SanitizedSystemProgram {
    /// The validated address.
    pub closed spec fn spec_account(&self) -> Seq<u8> {
        self.account@
    }

    /// Validates that `account` is the system program's well-known
    /// address; a region at any other address is refused with an address
    /// failure.
    pub fn sanitize(account: &AccountRegion) -> (r: Result<SanitizedSystemProgram, RestakingError>)
        requires
            account.wf(),
        ensures
            match r {
                Ok(s) => account@.key == zero_key() && s.spec_account() == account@.key,
                Err(e) => account@.key != zero_key() && e == RestakingError::AddressMismatch,
            },
    {
        let id = system_program_id();
        if !account.key.key_eq(&id) {
            return Err(RestakingError::AddressMismatch);
        }
        Ok(SanitizedSystemProgram { account: account.key.clone() })
    }

    /// The validated address.
    pub fn account(&self) -> (r: &Pubkey)
        ensures
            r@ == self.spec_account(),
    {
        &self.account
    }
}

/// Whether a region passes the signer sanitizer: it must have signed the
/// request, and be writable where the caller will write it.
pub open spec fn spec_signer_ok(r: crate::region::RegionV, expect_writable: bool) -> bool {
    r.is_signer && (!expect_writable || r.is_writable)
}

/// A handle on a signer region, validated to have signed the request.
pub struct SanitizedSignerAccount {
    account: Pubkey,
}

impl SanitizedSignerAccount {
    /// The validated signer identity.
    pub closed spec fn spec_account(&self) -> Seq<u8> {
        self.account@
    }

    /// Validates that `account` signed the request, and is writable where
    /// the caller demands it.
    pub fn sanitize(account: &AccountRegion, expect_writable: bool) -> (r: Result<
        SanitizedSignerAccount,
        RestakingError,
    >)
        requires
            account.wf(),
        ensures
            match r {
                Ok(s) => spec_signer_ok(account@, expect_writable) && s.spec_account()
                    == account@.key,
                Err(e) => !spec_signer_ok(account@, expect_writable) && e
                    == RestakingError::AuthorizationFailure,
            },
    {
        if !account.is_signer {
            return Err(RestakingError::AuthorizationFailure);
        }
        if expect_writable && !account.is_writable {
            return Err(RestakingError::AuthorizationFailure);
        }
        Ok(SanitizedSignerAccount { account: account.key.clone() })
    }

    /// The validated signer identity.
    pub fn account(&self) -> (r: &Pubkey)
        ensures
            r@ == self.spec_account(),
    {
        &self.account
    }
}

} // verus!
