//! Account addresses: 32-byte identities of accounts and programs.

use vstd::prelude::*;

verus! {

/// The identity of an account or of a program on the ledger.
#[derive(Clone, Copy, Debug)]
pub struct Address {
    pub bytes: [u8; 32],
}

impl View for Address {
    type V = Seq<u8>;

    open spec fn view(&self) -> Seq<u8> {
        self.bytes@
    }
}

impl PartialEq for Address {
    fn eq(&self, other: &Address) -> (r: bool) {
        let mut i: usize = 0;
        while i < 32
            invariant
                i <= 32,
                forall|j: int| 0 <= j < i ==> self.bytes[j] == other.bytes[j],
            decreases 32 - i,
        {
            if self.bytes[i] != other.bytes[i] {
                return false;
            }
            i += 1;
        }
        assert(self.bytes =~= other.bytes);
        true
    }
}

impl Eq for Address {

}

impl vstd::std_specs::cmp::PartialEqSpecImpl for Address {
    open spec fn obeys_eq_spec() -> bool {
        true
    }

    open spec fn eq_spec(&self, other: &Address) -> bool {
        *self == *other
    }
}

impl Address {
    /// The address made of the given bytes.
    pub fn new(bytes: [u8; 32]) -> (a: Address)
        ensures
            a.bytes == bytes,
    {
        Address { bytes }
    }

    /// The address whose bytes are the first thirty-two of `s`.
    pub open spec fn spec_from_seq(s: Seq<u8>) -> Address {
        Address {
            bytes: [
                s[0], s[1], s[2], s[3],
                s[4], s[5], s[6], s[7],
                s[8], s[9], s[10], s[11],
                s[12], s[13], s[14], s[15],
                s[16], s[17], s[18], s[19],
                s[20], s[21], s[22], s[23],
                s[24], s[25], s[26], s[27],
                s[28], s[29], s[30], s[31],
            ],
        }
    }

    /// Reads the address that starts at `offset` in `src`.
    pub fn read(src: &[u8], offset: usize) -> (a: Address)
        requires
            offset + 32 <= src@.len(),
        ensures
            a == Self::spec_from_seq(src@.subrange(offset as int, offset + 32)),
            a@ == src@.subrange(offset as int, offset + 32),
    {
        let mut bytes = [0u8; 32];
        let mut i: usize = 0;
        while i < 32
            invariant
                i <= 32,
                offset + 32 <= src.len() == src@.len(),
                forall|j: int| 0 <= j < i ==> bytes[j] == src@[offset + j],
            decreases 32 - i,
        {
            bytes[i] = src[offset + i];
            i += 1;
        }
        let a = Address { bytes };
        assert(a@ =~= src@.subrange(offset as int, offset + 32));
        assert(a.bytes =~= Self::spec_from_seq(src@.subrange(offset as int, offset + 32)).bytes);
        a
    }

    /// Writes the thirty-two bytes of the address into `dst` from `offset` on, and leaves the
    /// rest of `dst` as it was.
    pub fn write(&self, dst: &mut [u8], offset: usize)
        requires
            offset + 32 <= old(dst)@.len(),
        ensures
            final(dst)@.len() == old(dst)@.len(),
            final(dst)@.subrange(offset as int, offset + 32) == self@,
            forall|j: int|
                0 <= j < old(dst)@.len() && !(offset <= j < offset + 32) ==> final(dst)@[j] == old(
                    dst,
                )@[j],
    {
        let mut i: usize = 0;
        while i < 32
            invariant
                i <= 32,
                offset + 32 <= dst.len() == dst@.len() == old(dst)@.len(),
                forall|j: int| 0 <= j < i ==> dst@[offset + j] == self.bytes[j],
                forall|j: int|
                    0 <= j < dst@.len() && !(offset <= j < offset + 32) ==> dst@[j] == old(
                        dst,
                    )@[j],
            decreases 32 - i,
        {
            dst[offset + i] = self.bytes[i];
            i += 1;
        }
        assert(dst@.subrange(offset as int, offset + 32) =~= self@);
    }

    /// An address is found again from its bytes.
    pub proof fn lemma_from_seq_of_view(a: Address)
        ensures
            Self::spec_from_seq(a@) == a,
    {
        assert(Self::spec_from_seq(a@).bytes =~= a.bytes);
    }

    /// Thirty-two bytes are found again from the address made of them.
    pub proof fn lemma_view_of_from_seq(s: Seq<u8>)
        requires
            s.len() == 32,
        ensures
            Self::spec_from_seq(s)@ == s,
    {
        assert(Self::spec_from_seq(s)@ =~= s);
    }
}

/// The address of the system program, which owns plain accounts and moves native currency:
/// thirty-two zero bytes.
pub open spec fn spec_system_program_id() -> Address {
    Address {
        bytes: [
            0u8, 0, 0, 0, 0, 0, 0, 0, 0, 0, 0, 0, 0, 0, 0, 0,
            0, 0, 0, 0, 0, 0, 0, 0, 0, 0, 0, 0, 0, 0, 0, 0,
        ],
    }
}

/// The address of the token program: the one that `spl_token` declares as its own.
pub open spec fn spec_token_program_id() -> Address {
    Address {
        bytes: [
            6u8, 221, 246, 225, 215, 101, 161, 147, 217, 203, 225, 70, 206, 235, 121, 172,
            28, 180, 133, 237, 95, 91, 55, 145, 58, 140, 245, 133, 126, 255, 0, 169,
        ],
    }
}

/// The address of the system program.
#[verifier::when_used_as_spec(spec_system_program_id)]
pub fn system_program_id() -> (a: Address)
    ensures
        a == spec_system_program_id(),
{
    Address {
        bytes: [
            0u8, 0, 0, 0, 0, 0, 0, 0, 0, 0, 0, 0, 0, 0, 0, 0,
            0, 0, 0, 0, 0, 0, 0, 0, 0, 0, 0, 0, 0, 0, 0, 0,
        ],
    }
}

/// The address of the token program.
#[verifier::when_used_as_spec(spec_token_program_id)]
pub fn token_program_id() -> (a: Address)
    ensures
        a == spec_token_program_id(),
{
    Address {
        bytes: [
            6u8, 221, 246, 225, 215, 101, 161, 147, 217, 203, 225, 70, 206, 235, 121, 172,
            28, 180, 133, 237, 95, 91, 55, 145, 58, 140, 245, 133, 126, 255, 0, 169,
        ],
    }
}

} // verus!
