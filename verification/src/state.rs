//! The persisted record of one exchange, and its fixed byte layout.
//!
//! The record is stored in one hundred and five bytes: the initialization flag (one byte, `0` or
//! `1`), the administrator, the token mint and the token reserve account (thirty-two bytes
//! each), and the rate (eight bytes, least significant first).

use crate::address::Address;
use crate::error::Failure;
use vstd::bytes::{spec_u64_from_le_bytes, spec_u64_to_le_bytes};
use vstd::prelude::*;

verus! {

/// The configuration of one exchange.
#[derive(Clone, Copy, Debug, PartialEq, Eq)]
pub struct ExchangeState {
    /// False until the exchange has been initialized.
    pub is_initialized: bool,
    /// The identity that may change the rate.
    pub admin: Address,
    /// The definition of the token that the exchange trades.
    pub token_mint: Address,
    /// The account that holds the exchange's token reserve.
    pub token_account: Address,
    /// Units of token per unit of native currency.
    pub rate: u64,
}

impl ExchangeState {
    /// The length of the encoded record.
    pub const LEN: usize = 105;

    /// A record that the handlers may write: an initialized one has a nonzero rate.
    pub open spec fn well_formed(self) -> bool {
        self.is_initialized ==> self.rate > 0
    }

    /// The encoding of the record.
    pub open spec fn spec_packed(self) -> Seq<u8> {
        seq![if self.is_initialized { 1u8 } else { 0u8 }] + self.admin@ + self.token_mint@
            + self.token_account@ + spec_u64_to_le_bytes(self.rate)
    }

    /// The record that the first one hundred and five bytes of `src` encode.  Bytes that follow are
    /// not read.  There is none where `src` is shorter or the flag is neither `0` nor `1`.
    pub open spec fn spec_unpack_from_slice(src: Seq<u8>) -> Result<ExchangeState, Failure> {
        if src.len() < 105 || src[0] > 1 {
            Err(Failure::InvalidAccountData)
        } else {
            Ok(
                ExchangeState {
                    is_initialized: src[0] == 1,
                    admin: Address::spec_from_seq(src.subrange(1, 33)),
                    token_mint: Address::spec_from_seq(src.subrange(33, 65)),
                    token_account: Address::spec_from_seq(src.subrange(65, 97)),
                    rate: spec_u64_from_le_bytes(src.subrange(97, 105)),
                },
            )
        }
    }

    /// As [`Self::spec_unpack_from_slice`], for an input of exactly the record's length.
    pub open spec fn spec_unpack_unchecked(input: Seq<u8>) -> Result<ExchangeState, Failure> {
        if input.len() != 105 {
            Err(Failure::InvalidAccountData)
        } else {
            Self::spec_unpack_from_slice(input)
        }
    }

    /// As [`Self::spec_unpack_unchecked`], for a record that has been initialized.
    pub open spec fn spec_unpack(input: Seq<u8>) -> Result<ExchangeState, Failure> {
        match Self::spec_unpack_unchecked(input) {
            Ok(state) => if state.is_initialized {
                Ok(state)
            } else {
                Err(Failure::UninitializedAccount)
            },
            Err(e) => Err(e),
        }
    }

    /// Whether the exchange has been initialized.
    pub fn is_initialized(&self) -> (b: bool)
        ensures
            b == self.is_initialized,
    {
        self.is_initialized
    }

    /// Decodes the record at the start of `src`.
    pub fn unpack_from_slice(src: &[u8]) -> (r: Result<ExchangeState, Failure>)
        ensures
            r == Self::spec_unpack_from_slice(src@),
    {
        if src.len() < 105 || src[0] > 1 {
            return Err(Failure::InvalidAccountData);
        }
        Ok(
            ExchangeState {
                is_initialized: src[0] == 1,
                admin: Address::read(src, 1),
                token_mint: Address::read(src, 33),
                token_account: Address::read(src, 65),
                rate: vstd::bytes::u64_from_le_bytes(vstd::slice::slice_subrange(src, 97, 105)),
            },
        )
    }

    /// Encodes the record into the start of `dst`, and leaves what follows as it was.
    pub fn pack_into_slice(&self, dst: &mut [u8])
        requires
            old(dst)@.len() >= 105,
        ensures
            final(dst)@ == self.spec_packed() + old(dst)@.subrange(105, old(dst)@.len() as int),
    {
        let rate = vstd::bytes::u64_to_le_bytes(self.rate);
        dst[0] = if self.is_initialized { 1 } else { 0 };
        self.admin.write(dst, 1);
        self.token_mint.write(dst, 33);
        self.token_account.write(dst, 65);
        let mut i: usize = 0;
        while i < 8
            invariant
                i <= 8,
                rate@ == spec_u64_to_le_bytes(self.rate),
                rate@.len() == 8,
                dst@.len() == old(dst)@.len() >= 105,
                dst@[0] == (if self.is_initialized { 1u8 } else { 0u8 }),
                dst@.subrange(1, 33) == self.admin@,
                dst@.subrange(33, 65) == self.token_mint@,
                dst@.subrange(65, 97) == self.token_account@,
                forall|j: int| 0 <= j < i ==> dst@[97 + j] == rate@[j],
                forall|j: int| 105 <= j < dst@.len() ==> dst@[j] == old(dst)@[j],
            decreases 8 - i,
        {
            let ghost before = dst@;
            dst[97 + i] = rate[i];
            assert(dst@.subrange(1, 33) =~= before.subrange(1, 33));
            assert(dst@.subrange(33, 65) =~= before.subrange(33, 65));
            assert(dst@.subrange(65, 97) =~= before.subrange(65, 97));
            i += 1;
        }
        proof {
            let want = self.spec_packed() + old(dst)@.subrange(105, old(dst)@.len() as int);
            assert(dst@.len() == want.len());
            assert forall|j: int| 0 <= j < dst@.len() implies dst@[j] == want[j] by {
                if 1 <= j < 33 {
                    assert(dst@.subrange(1, 33)[j - 1] == dst@[j]);
                } else if 33 <= j < 65 {
                    assert(dst@.subrange(33, 65)[j - 33] == dst@[j]);
                } else if 65 <= j < 97 {
                    assert(dst@.subrange(65, 97)[j - 65] == dst@[j]);
                }
            }
            assert(dst@ =~= want);
        }
    }

    /// Decodes a record from an input of exactly the record's length.
    pub fn unpack_unchecked(input: &[u8]) -> (r: Result<ExchangeState, Failure>)
        ensures
            r == Self::spec_unpack_unchecked(input@),
    {
        if input.len() != Self::LEN {
            return Err(Failure::InvalidAccountData);
        }
        Self::unpack_from_slice(input)
    }

    /// Decodes an initialized record from an input of exactly the record's length.
    pub fn unpack(input: &[u8]) -> (r: Result<ExchangeState, Failure>)
        ensures
            r == Self::spec_unpack(input@),
    {
        match Self::unpack_unchecked(input) {
            Ok(state) => if state.is_initialized() {
                Ok(state)
            } else {
                Err(Failure::UninitializedAccount)
            },
            Err(e) => Err(e),
        }
    }

    /// Encodes `src` into `dst`, which must have exactly the record's length; otherwise `dst`
    /// is left as it was.
    pub fn pack(src: ExchangeState, dst: &mut [u8]) -> (r: Result<(), Failure>)
        ensures
            old(dst)@.len() == 105 ==> r == Ok::<(), Failure>(()) && final(dst)@
                == src.spec_packed(),
            old(dst)@.len() != 105 ==> r == Err::<(), Failure>(
                Failure::InvalidAccountData,
            ) && final(dst)@ == old(dst)@,
    {
        if dst.len() != Self::LEN {
            return Err(Failure::InvalidAccountData);
        }
        src.pack_into_slice(dst);
        assert(old(dst)@.subrange(105, 105) =~= Seq::<u8>::empty());
        Ok(())
    }

    /// The encoding has the record's length.
    pub proof fn lemma_packed_len(self)
        ensures
            self.spec_packed().len() == 105,
    {
        vstd::bytes::lemma_auto_spec_u64_to_from_le_bytes();
    }

    /// Decoding an encoded record gives the record back, whatever follows the encoding.
    pub proof fn law_unpack_packed(self, rest: Seq<u8>)
        ensures
            Self::spec_unpack_from_slice(self.spec_packed() + rest) == Ok::<
                ExchangeState,
                Failure,
            >(self),
            Self::spec_unpack_unchecked(self.spec_packed()) == Ok::<ExchangeState, Failure>(
                self,
            ),
    {
        vstd::bytes::lemma_auto_spec_u64_to_from_le_bytes();
        let bytes = self.spec_packed() + rest;
        assert(bytes.subrange(1, 33) =~= self.admin@);
        assert(bytes.subrange(33, 65) =~= self.token_mint@);
        assert(bytes.subrange(65, 97) =~= self.token_account@);
        assert(bytes.subrange(97, 105) =~= spec_u64_to_le_bytes(self.rate));
        Address::lemma_from_seq_of_view(self.admin);
        Address::lemma_from_seq_of_view(self.token_mint);
        Address::lemma_from_seq_of_view(self.token_account);
        let exact = self.spec_packed();
        assert(exact.subrange(1, 33) =~= self.admin@);
        assert(exact.subrange(33, 65) =~= self.token_mint@);
        assert(exact.subrange(65, 97) =~= self.token_account@);
        assert(exact.subrange(97, 105) =~= spec_u64_to_le_bytes(self.rate));
    }

    /// Encoding a decoded record gives back the bytes it was decoded from.
    pub proof fn law_packed_unpack(src: Seq<u8>)
        requires
            Self::spec_unpack_from_slice(src) is Ok,
        ensures
            Self::spec_unpack_from_slice(src)->Ok_0.spec_packed() == src.subrange(0, 105),
    {
        vstd::bytes::lemma_auto_spec_u64_to_from_le_bytes();
        let state = Self::spec_unpack_from_slice(src)->Ok_0;
        Address::lemma_view_of_from_seq(src.subrange(1, 33));
        Address::lemma_view_of_from_seq(src.subrange(33, 65));
        Address::lemma_view_of_from_seq(src.subrange(65, 97));
        assert(state.spec_packed() =~= src.subrange(0, 105));
    }
}

} // verus!
