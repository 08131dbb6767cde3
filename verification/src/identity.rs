//! The fixed-length identity value: the cryptographic address that owns an
//! asset record or an account slot.

use vstd::prelude::*;

verus! {

/// Number of bytes in an identity value.
pub const KEY_LEN: usize = 32;

/// A fixed-length (32-byte) identity value.
#[derive(Debug)]
pub struct Pubkey {
    pub bytes: Vec<u8>,
}

impl View for Pubkey {
    type V = Seq<u8>;

    open spec fn view(&self) -> Seq<u8> {
        self.bytes@
    }
}

impl Pubkey {
    /// A well-formed identity holds exactly `KEY_LEN` bytes.
    pub open spec fn wf(&self) -> bool {
        self@.len() == KEY_LEN
    }

    /// Builds an identity from its raw bytes.
    pub fn new(bytes: Vec<u8>) -> (r: Pubkey)
        requires
            bytes@.len() == KEY_LEN,
        ensures
            r.wf(),
            r@ == bytes@,
    {
        Pubkey { bytes }
    }

    /// Identity equality: the byte sequences coincide.
    pub fn eq_key(&self, other: &Pubkey) -> (r: bool)
        ensures
            r == (self@ == other@),
    {
        let r = self.bytes == other.bytes;
        proof {
            if r {
                assert(self@ =~= other@);
            }
        }
        r
    }
}

} // verus!
