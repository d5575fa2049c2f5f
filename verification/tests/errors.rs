use token_exchange::error::{ExchangeError, Failure};

#[test]
fn codes_follow_the_declaration() {
    assert_eq!(ExchangeError::InvalidInstruction.code(), 0);
    assert_eq!(ExchangeError::NotAdmin.code(), 1);
    assert_eq!(ExchangeError::InvalidExchangeRate.code(), 2);
    assert_eq!(ExchangeError::InsufficientSolBalance.code(), 3);
    assert_eq!(ExchangeError::InsufficientTokenBalance.code(), 4);
    assert_eq!(ExchangeError::ArithmeticOverflow.code(), 5);
}

#[test]
fn exchange_errors_become_custom_program_errors() {
    assert_eq!(Failure::from(ExchangeError::InvalidInstruction), Failure::Custom(0));
    assert_eq!(Failure::from(ExchangeError::NotAdmin), Failure::Custom(1));
    assert_eq!(Failure::from(ExchangeError::InvalidExchangeRate), Failure::Custom(2));
    assert_eq!(Failure::from(ExchangeError::InsufficientSolBalance), Failure::Custom(3));
    assert_eq!(
        Failure::from(ExchangeError::InsufficientTokenBalance),
        Failure::Custom(4)
    );
    assert_eq!(Failure::from(ExchangeError::ArithmeticOverflow), Failure::Custom(5));
    let into: Failure = ExchangeError::NotAdmin.into();
    assert_eq!(into, Failure::Custom(1));
}

#[test]
fn messages_describe_the_failure() {
    assert_eq!(ExchangeError::InvalidInstruction.message(), "无效的指令");
    assert_eq!(ExchangeError::NotAdmin.message(), "非管理员账户");
    assert_eq!(ExchangeError::InvalidExchangeRate.message(), "兑换比例必须大于零");
    assert_eq!(ExchangeError::InsufficientSolBalance.message(), "SOL 余额不足");
    assert_eq!(ExchangeError::InsufficientTokenBalance.message(), "Token 余额不足");
    assert_eq!(ExchangeError::ArithmeticOverflow.message(), "算术运算溢出");
}

#[test]
fn type_name_is_exchange_error() {
    assert_eq!(ExchangeError::type_of(), "ExchangeError");
}
