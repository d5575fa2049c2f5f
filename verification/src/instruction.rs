//! The instructions of the exchange and their payload encoding.
//!
//! A payload is nine bytes: a tag that selects the instruction, then its one field, a
//! 64-bit number with the least significant byte first.

use crate::error::ExchangeError;
use vstd::bytes::{spec_u64_from_le_bytes, spec_u64_to_le_bytes};
use vstd::prelude::*;

verus! {

/// One request to the exchange.
#[derive(Clone, Copy, Debug, PartialEq, Eq, Structural)]
pub enum ExchangeInstruction {
    /// Sets up the exchange.
    ///
    /// Accounts, in order: the administrator (signer), the state account (writable, new),
    /// the token mint, the token reserve account (writable), the token program, the system
    /// program, the rent account.
    Initialize {
        /// Units of token per unit of native currency.
        rate: u64,
    },
    /// Changes the rate.
    ///
    /// Accounts, in order: the administrator (signer), the state account (writable).
    UpdateRate {
        /// The rate from now on.
        new_rate: u64,
    },
    /// Converts native currency into tokens.
    ///
    /// Accounts, in order: the user (signer), the state account, the token reserve account
    /// (writable), the user's token account (writable), the token program.
    ExchangeSolToToken {
        /// The native currency offered, in lamports.
        amount: u64,
    },
    /// Converts tokens into native currency.
    ///
    /// Accounts, in order: the user (signer), the state account, the token reserve account
    /// (writable), the user's token account (writable), the token program.
    ExchangeTokenToSol {
        /// The tokens offered.
        amount: u64,
    },
}

impl ExchangeInstruction {
    /// The tag that selects this instruction.
    pub open spec fn spec_tag(self) -> u8 {
        match self {
            ExchangeInstruction::Initialize { .. } => 0,
            ExchangeInstruction::UpdateRate { .. } => 1,
            ExchangeInstruction::ExchangeSolToToken { .. } => 2,
            ExchangeInstruction::ExchangeTokenToSol { .. } => 3,
        }
    }

    /// The one field of this instruction.
    pub open spec fn spec_field(self) -> u64 {
        match self {
            ExchangeInstruction::Initialize { rate } => rate,
            ExchangeInstruction::UpdateRate { new_rate } => new_rate,
            ExchangeInstruction::ExchangeSolToToken { amount } => amount,
            ExchangeInstruction::ExchangeTokenToSol { amount } => amount,
        }
    }

    /// The payload of this instruction.
    pub open spec fn spec_to_vec(self) -> Seq<u8> {
        seq![self.spec_tag()] + spec_u64_to_le_bytes(self.spec_field())
    }

    /// The instruction that a payload stands for.  A payload of another length than nine
    /// bytes, or with a tag above three, stands for none.
    pub open spec fn spec_try_from_slice(data: Seq<u8>) -> Result<
        ExchangeInstruction,
        ExchangeError,
    > {
        if data.len() != 9 || data[0] > 3 {
            Err(ExchangeError::InvalidInstruction)
        } else {
            let field = spec_u64_from_le_bytes(data.subrange(1, 9));
            if data[0] == 0 {
                Ok(ExchangeInstruction::Initialize { rate: field })
            } else if data[0] == 1 {
                Ok(ExchangeInstruction::UpdateRate { new_rate: field })
            } else if data[0] == 2 {
                Ok(ExchangeInstruction::ExchangeSolToToken { amount: field })
            } else {
                Ok(ExchangeInstruction::ExchangeTokenToSol { amount: field })
            }
        }
    }

    /// Decodes a payload.
    pub fn try_from_slice(data: &[u8]) -> (r: Result<ExchangeInstruction, ExchangeError>)
        ensures
            r == Self::spec_try_from_slice(data@),
    {
        if data.len() != 9 || data[0] > 3 {
            return Err(ExchangeError::InvalidInstruction);
        }
        let field: u64 = vstd::bytes::u64_from_le_bytes(vstd::slice::slice_subrange(data, 1, 9));
        let tag: u8 = data[0];
        if tag == 0 {
            Ok(ExchangeInstruction::Initialize { rate: field })
        } else if tag == 1 {
            Ok(ExchangeInstruction::UpdateRate { new_rate: field })
        } else if tag == 2 {
            Ok(ExchangeInstruction::ExchangeSolToToken { amount: field })
        } else {
            Ok(ExchangeInstruction::ExchangeTokenToSol { amount: field })
        }
    }

    /// Encodes the instruction.
    pub fn to_vec(&self) -> (data: Vec<u8>)
        ensures
            data@ == self.spec_to_vec(),
    {
        let (tag, field): (u8, u64) = match self {
            ExchangeInstruction::Initialize { rate } => (0, *rate),
            ExchangeInstruction::UpdateRate { new_rate } => (1, *new_rate),
            ExchangeInstruction::ExchangeSolToToken { amount } => (2, *amount),
            ExchangeInstruction::ExchangeTokenToSol { amount } => (3, *amount),
        };
        let mut data: Vec<u8> = Vec::new();
        data.push(tag);
        let mut bytes = vstd::bytes::u64_to_le_bytes(field);
        data.append(&mut bytes);
        assert(data@ =~= self.spec_to_vec());
        data
    }

    /// Decoding the payload of an instruction gives the instruction back.
    pub proof fn law_decode_encoded(self)
        ensures
            Self::spec_try_from_slice(self.spec_to_vec()) == Ok::<
                ExchangeInstruction,
                ExchangeError,
            >(self),
    {
        vstd::bytes::lemma_auto_spec_u64_to_from_le_bytes();
        assert(self.spec_to_vec().subrange(1, 9) =~= spec_u64_to_le_bytes(self.spec_field()));
    }

    /// Encoding a decoded payload gives the payload back: no two payloads stand for the same
    /// instruction.
    pub proof fn law_encode_decoded(data: Seq<u8>)
        requires
            Self::spec_try_from_slice(data) is Ok,
        ensures
            Self::spec_try_from_slice(data)->Ok_0.spec_to_vec() == data,
    {
        vstd::bytes::lemma_auto_spec_u64_to_from_le_bytes();
        let decoded = Self::spec_try_from_slice(data)->Ok_0;
        assert(spec_u64_to_le_bytes(spec_u64_from_le_bytes(data.subrange(1, 9))) == data.subrange(
            1,
            9,
        ));
        assert(decoded.spec_to_vec() =~= data);
    }
}

} // verus!
