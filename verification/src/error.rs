//! Failures of the exchange program.
//!
//! [`ExchangeError`] lists the failures that belong to the exchange itself.  [`Failure`]
//! is what an invocation reports to the host: either one of the host's own conditions or an
//! exchange failure under its numeric code.

use vstd::prelude::*;

verus! {

/// A failure of the exchange's own rules.
#[derive(Clone, Copy, Debug, PartialEq, Eq, Structural)]
pub enum ExchangeError {
    /// The instruction payload does not decode into a known instruction.
    InvalidInstruction,
    /// The caller of an administrator-only instruction is not the recorded administrator.
    NotAdmin,
    /// The supplied exchange rate is zero.
    InvalidExchangeRate,
    /// The exchange holds too little native currency to pay out a conversion.
    InsufficientSolBalance,
    /// The user holds too few tokens for the transfer asked of the token program.
    InsufficientTokenBalance,
    /// An amount computed from the rate does not fit in 64 bits, or there is none because
    /// the stored rate is zero.
    ArithmeticOverflow,
}

/// The failure of an invocation, as reported to the host.
#[derive(Clone, Copy, Debug, PartialEq, Eq, Structural)]
pub enum Failure {
    /// A failure of the program's own, identified by its code.
    Custom(u32),
    /// An account's data is not what the instruction expects.
    InvalidAccountData,
    /// An account is not owned by the expected program, or a program address is not the
    /// expected one.
    IncorrectProgramId,
    /// An account that had to sign the invocation did not.
    MissingRequiredSignature,
    /// The state record has not been initialized.
    UninitializedAccount,
    /// The instruction was given fewer accounts than it reads.
    NotEnoughAccountKeys,
}

impl ExchangeError {
    /// The number under which the host reports this failure: the position of the variant in
    /// the declaration, from zero.
    pub open spec fn spec_code(self) -> u32 {
        match self {
            ExchangeError::InvalidInstruction => 0,
            ExchangeError::NotAdmin => 1,
            ExchangeError::InvalidExchangeRate => 2,
            ExchangeError::InsufficientSolBalance => 3,
            ExchangeError::InsufficientTokenBalance => 4,
            ExchangeError::ArithmeticOverflow => 5,
        }
    }

    /// The number under which the host reports this failure.
    #[verifier::when_used_as_spec(spec_code)]
    pub fn code(self) -> (c: u32)
        ensures
            c == self.spec_code(),
    {
        match self {
            ExchangeError::InvalidInstruction => 0,
            ExchangeError::NotAdmin => 1,
            ExchangeError::InvalidExchangeRate => 2,
            ExchangeError::InsufficientSolBalance => 3,
            ExchangeError::InsufficientTokenBalance => 4,
            ExchangeError::ArithmeticOverflow => 5,
        }
    }

    /// The text that describes this failure to a reader.
    pub open spec fn spec_message(self) -> Seq<char> {
        match self {
            ExchangeError::InvalidInstruction => "无效的指令"@,
            ExchangeError::NotAdmin => "非管理员账户"@,
            ExchangeError::InvalidExchangeRate => "兑换比例必须大于零"@,
            ExchangeError::InsufficientSolBalance => "SOL 余额不足"@,
            ExchangeError::InsufficientTokenBalance => "Token 余额不足"@,
            ExchangeError::ArithmeticOverflow => "算术运算溢出"@,
        }
    }

    /// The text that describes this failure to a reader.
    pub fn message(&self) -> (s: String)
        ensures
            s@ == self.spec_message(),
    {
        match self {
            ExchangeError::InvalidInstruction => "无效的指令".to_owned(),
            ExchangeError::NotAdmin => "非管理员账户".to_owned(),
            ExchangeError::InvalidExchangeRate => "兑换比例必须大于零".to_owned(),
            ExchangeError::InsufficientSolBalance => "SOL 余额不足".to_owned(),
            ExchangeError::InsufficientTokenBalance => "Token 余额不足".to_owned(),
            ExchangeError::ArithmeticOverflow => "算术运算溢出".to_owned(),
        }
    }

    /// The name under which the host's log decodes codes of this type.
    pub fn type_of() -> (name: &'static str)
        ensures
            name@ == "ExchangeError"@,
    {
        "ExchangeError"
    }
}

impl From<ExchangeError> for Failure {
    fn from(e: ExchangeError) -> (r: Failure) {
        Failure::Custom(e.code())
    }
}

impl vstd::std_specs::convert::FromSpecImpl<ExchangeError> for Failure {
    open spec fn obeys_from_spec() -> bool {
        true
    }

    open spec fn from_spec(e: ExchangeError) -> Failure {
        Failure::Custom(e.spec_code())
    }
}

} // verus!
