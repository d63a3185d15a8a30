use vstd::prelude::*;

verus! {

/// Number of bytes in an identity key or record address.
pub const KEY_LEN: usize = 32;

/// A 32-byte identity: the address of a record or the public identity of a
/// signer. This is the only shape of identity the library works with.
#[derive(Debug, PartialEq, Eq)]
pub struct Pubkey {
    bytes: Vec<u8>,
}

impl View for Pubkey {
    type V = Seq<u8>;

    closed spec fn view(&self) -> Seq<u8> {
        self.bytes@
    }
}

impl Pubkey {
    /// A key is well formed when it holds exactly `KEY_LEN` bytes.
    pub open spec fn wf(&self) -> bool {
        self@.len() == KEY_LEN
    }

    /// Builds a key from a fixed 32-byte array.
    pub fn from_array(a: [u8; 32]) -> (r: Pubkey)
        ensures
            r.wf(),
            r@ == a@,
    {
        let mut bytes: Vec<u8> = Vec::new();
        let mut i: usize = 0;
        while i < 32
            invariant
                i <= 32,
                bytes@.len() == i,
                forall|j: int| 0 <= j < i ==> bytes@[j] == a@[j],
            decreases 32 - i,
        {
            bytes.push(a[i]);
            i = i + 1;
        }
        proof {
            assert(bytes@ =~= a@);
        }
        Pubkey { bytes }
    }

    /// Builds a key from the 32 bytes of `data` that start at `off`.
    pub fn from_bytes_at(data: &Vec<u8>, off: usize) -> (r: Pubkey)
        requires
            off + KEY_LEN <= data@.len(),
        ensures
            r.wf(),
            r@ == data@.subrange(off as int, off + KEY_LEN),
    {
        let n: usize = data.len();
        let mut bytes: Vec<u8> = Vec::new();
        let mut i: usize = 0;
        while i < KEY_LEN
            invariant
                i <= KEY_LEN,
                off + KEY_LEN <= n,
                n == data@.len(),
                bytes@.len() == i,
                forall|j: int| 0 <= j < i ==> bytes@[j] == data@[off + j],
            decreases KEY_LEN - i,
        {
            bytes.push(data[off + i]);
            i = i + 1;
        }
        proof {
            assert(bytes@ =~= data@.subrange(off as int, off + KEY_LEN));
        }
        Pubkey { bytes }
    }

    /// The all-zero key.
    pub fn zeroed() -> (r: Pubkey)
        ensures
            r.wf(),
            r@ == zero_key(),
    {
        let mut bytes: Vec<u8> = Vec::new();
        let mut i: usize = 0;
        while i < KEY_LEN
            invariant
                i <= KEY_LEN,
                bytes@.len() == i,
                forall|j: int| 0 <= j < i ==> bytes@[j] == 0u8,
            decreases KEY_LEN - i,
        {
            bytes.push(0u8);
            i = i + 1;
        }
        proof {
            assert(bytes@ =~= zero_key());
        }
        Pubkey { bytes }
    }

    /// Byte-wise equality of two keys.
    pub fn key_eq(&self, other: &Pubkey) -> (r: bool)
        requires
            self.wf(),
            other.wf(),
        ensures
            r == (self@ == other@),
    {
        let mut i: usize = 0;
        while i < KEY_LEN
            invariant
                i <= KEY_LEN,
                self.wf(),
                other.wf(),
                forall|j: int| 0 <= j < i ==> self@[j] == other@[j],
            decreases KEY_LEN - i,
        {
            if self.bytes[i] != other.bytes[i] {
                return false;
            }
            i = i + 1;
        }
        proof {
            assert(self@ =~= other@);
        }
        true
    }

    /// The key's bytes, for building seed lists.
    pub fn to_vec(&self) -> (r: Vec<u8>)
        ensures
            r@ == self@,
    {
        let mut bytes: Vec<u8> = Vec::new();
        let mut i: usize = 0;
        while i < self.bytes.len()
            invariant
                i <= self.bytes@.len(),
                bytes@.len() == i,
                forall|j: int| 0 <= j < i ==> bytes@[j] == self@[j],
            decreases self.bytes@.len() - i,
        {
            bytes.push(self.bytes[i]);
            i = i + 1;
        }
        proof {
            assert(bytes@ =~= self@);
        }
        bytes
    }
}

impl Clone for Pubkey {
    fn clone(&self) -> (r: Pubkey)
        ensures
            r@ == self@,
    {
        Pubkey { bytes: self.to_vec() }
    }
}

/// The all-zero 32-byte sequence, used where an endpoint slot of a record is
/// not meaningful for its kind.
pub open spec fn zero_key() -> Seq<u8> {
    Seq::new(KEY_LEN as nat, |i: int| 0u8)
}

} // verus!
