use vstd::prelude::*;

verus! {

/// An account or asset as the ledger sees it: an opaque identifier that is
/// only ever compared for equality.
#[derive(Clone, Copy, Debug, PartialEq, Eq, Structural)]
pub struct AccountId {
    pub id: u64,
}

/// The pool's fixed configuration, written by `initialize`.
#[derive(Clone, Copy, Debug, PartialEq, Eq, Structural)]
pub struct PoolConfig {
    pub loan_token: AccountId,
    pub collateral_token: AccountId,
    pub collateral_rate: i128,
    pub interest_rate_ppm: i128,
    pub installments: u32,
}

/// One open loan: the collateral held for `address` and the principal owed.
#[derive(Clone, Copy, Debug, PartialEq, Eq, Structural)]
pub struct Borrower {
    pub address: AccountId,
    pub amount_locked: i128,
    pub debt: i128,
}

/// The names of the pool's persisted slots.
#[derive(Clone, Copy, Debug, PartialEq, Eq, Structural)]
pub enum DataKey {
    CollateralAmount,
    Admin,
    LoanToken,
    CollateralToken,
    InterestRate,
    CollateralRate,
    Lender,
    Borrower,
    Debt,
    Installments,
    TotalSupply,
    Borrowers,
    BorrowersAddresses,
}

/// Why an operation was rejected. A rejected operation changes nothing.
#[derive(Clone, Copy, Debug, PartialEq, Eq, Structural)]
pub enum LoanError {
    /// A zero amount, a negative amount or collateral, or a negative principal
    /// or payment.
    InvalidAmount,
    /// The pool holds less than the loan would draw.
    InsufficientLiquidity,
    /// A repayment differs from the amount due.
    IncorrectPaymentAmount,
    /// The address has no open loan.
    NoActiveLoan,
    /// The pool has not been configured.
    NotInitialized,
    /// A result does not fit in 128 bits.
    Overflow,
}

/// One side of a transfer: the pool's own custody account or another account.
#[derive(Clone, Copy, Debug, PartialEq, Eq, Structural)]
pub enum Party {
    Pool,
    Account(AccountId),
}

/// A movement of `amount` units of the asset `asset` that the host must carry out.
#[derive(Clone, Copy, Debug, PartialEq, Eq, Structural)]
pub struct Transfer {
    pub asset: AccountId,
    pub from: Party,
    pub to: Party,
    pub amount: i128,
}

/// What an accepted operation returns, with the transfers that go with it, in order.
#[derive(Debug)]
pub struct Settlement {
    pub value: i128,
    pub transfers: Vec<Transfer>,
}

} // verus!
