use vstd::prelude::*;

use crate::pubkey::Pubkey;

verus! {

/// The mathematical value of a storage region: what the contracts speak of.
pub ghost struct RegionV {
    /// The region's physical address.
    pub key: Seq<u8>,
    /// The program that owns the region.
    pub owner: Seq<u8>,
    /// Whether the holder of this region signed the request.
    pub is_signer: bool,
    /// Whether the request marked the region writable.
    pub is_writable: bool,
    /// The persisted bytes; empty while no record has been created here.
    pub data: Seq<u8>,
}

/// One raw storage region as a request hands it to a processor: an address,
/// an owning program, the signer and writable flags of the invocation, and
/// the persisted bytes. A region with no record yet has empty data.
pub struct AccountRegion {
    /// The region's physical address.
    pub key: Pubkey,
    /// The program that owns the region.
    pub owner: Pubkey,
    /// Whether the holder of this region signed the request.
    pub is_signer: bool,
    /// Whether the request marked the region writable.
    pub is_writable: bool,
    /// The persisted bytes.
    pub data: Vec<u8>,
}

impl View for AccountRegion {
    type V = RegionV;

    open spec fn view(&self) -> RegionV {
        RegionV {
            key: self.key@,
            owner: self.owner@,
            is_signer: self.is_signer,
            is_writable: self.is_writable,
            data: self.data@,
        }
    }
}

impl AccountRegion {
    /// A region is well formed when its address and owner are 32-byte keys.
    pub open spec fn wf(&self) -> bool {
        &&& self.key.wf()
        &&& self.owner.wf()
    }
}

} // verus!
