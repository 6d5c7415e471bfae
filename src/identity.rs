//! Identities of the parties and of the programs that the ledger knows.
use vstd::prelude::*;

verus! {

/// Width in bytes of an identity.
pub const IDENTITY_LEN: usize = 32;

/// A 32-byte account address: a sponsor, a worker, or a program.
#[derive(Clone, Copy, Debug)]
pub struct Identity {
    pub bytes: [u8; 32],
}

/// The all-zero address, which the ledger assigns to its system program.
pub open spec fn zero_bytes() -> Seq<u8> {
    Seq::new(32, |i: int| 0u8)
}

/// Relies on anchor_lang::system_program::ID, the system program's address
/// `11111111111111111111111111111111` in base58, that is thirty-two zero bytes.
#[verifier::external_body]
fn system_program_bytes() -> (r: [u8; 32])
    ensures
        r@ == zero_bytes(),
{
    anchor_lang::system_program::ID.to_bytes()
}

impl Identity {
    pub open spec fn view(&self) -> Seq<u8> {
        self.bytes@
    }

    pub fn new(bytes: [u8; 32]) -> (r: Identity)
        ensures
            r@ == bytes@,
    {
        Identity { bytes }
    }

    /// The system program's address. A bounty with no worker yet records it as its
    /// worker, and a bounty paid in the native currency records it as its asset.
    pub fn system_program() -> (r: Identity)
        ensures
            r@ == zero_bytes(),
    {
        Identity { bytes: system_program_bytes() }
    }

    /// Whether two identities are the same address.
    pub fn same_as(&self, other: &Identity) -> (r: bool)
        ensures
            r == (self@ == other@),
    {
        let mut i: usize = 0;
        while i < IDENTITY_LEN
            invariant
                i <= IDENTITY_LEN,
                self@.len() == 32,
                other@.len() == 32,
                forall|j: int| 0 <= j < i ==> self@[j] == other@[j],
            decreases IDENTITY_LEN - i,
        {
            if self.bytes[i] != other.bytes[i] {
                return false;
            }
            i = i + 1;
        }
        proof {
            assert(self@ =~= other@);
        }
        true
    }
}

} // verus!
