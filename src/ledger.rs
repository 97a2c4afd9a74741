use vstd::prelude::*;
use crate::interest::{amount_due, fits_i128, total_due};
use crate::registry::{find_first, first_index};
use crate::types::{AccountId, Borrower, LoanError, Party, PoolConfig, Settlement, Transfer};

verus! {

/// Interest charged on every loan unless the pool is configured otherwise: 1.5%.
pub const DEFAULT_INTEREST_RATE_PPM: i128 = 15000;

/// Installment count recorded at initialization; no operation reads it.
pub const DEFAULT_INSTALLMENTS: u32 = 3;

/// The ledger's state as mathematics: configuration, liquidity and the
/// borrower registry as two index-aligned sequences.
pub struct PoolView {
    pub admin: Option<AccountId>,
    pub config: Option<PoolConfig>,
    pub total_supply: int,
    pub addresses: Seq<AccountId>,
    pub records: Seq<Borrower>,
}

impl PoolView {
    /// A pool with nothing configured, supplied or lent.
    pub open spec fn empty() -> PoolView {
        PoolView {
            admin: None,
            config: None,
            total_supply: 0,
            addresses: Seq::empty(),
            records: Seq::empty(),
        }
    }

    /// The two registry sequences have one length and agree on each address.
    pub open spec fn aligned(self) -> bool {
        &&& self.addresses.len() == self.records.len()
        &&& forall|i: int|
            0 <= i < self.addresses.len() ==> #[trigger] self.addresses[i]
                == self.records[i].address
    }

    /// The state with the configuration set.
    pub open spec fn configured(self, config: PoolConfig) -> PoolView {
        PoolView { config: Some(config), ..self }
    }

    /// The collateral rate, zero while the pool is not configured.
    pub open spec fn collateral_rate(self) -> int {
        match self.config {
            Some(c) => c.collateral_rate as int,
            None => 0,
        }
    }

    /// Why supplying `amount` is refused, if it is. Only a positive amount
    /// can be moved into the pool.
    pub open spec fn supply_error(self, amount: int) -> Option<LoanError> {
        if amount <= 0 {
            Some(LoanError::InvalidAmount)
        } else if self.config is None {
            Some(LoanError::NotInitialized)
        } else if !fits_i128(self.total_supply + amount) {
            Some(LoanError::Overflow)
        } else {
            None
        }
    }

    /// The state after `amount` is supplied.
    pub open spec fn after_supply(self, amount: int) -> PoolView {
        PoolView { total_supply: self.total_supply + amount, ..self }
    }

    /// The principal of a loan against `amount` of collateral.
    pub open spec fn loan_debt(self, amount: int) -> int {
        amount * self.collateral_rate()
    }

    /// Why a loan against `amount` of collateral is refused, if it is. Once
    /// liquidity covers the principal, neither the collateral nor the
    /// principal may be negative.
    pub open spec fn loan_error(self, amount: int) -> Option<LoanError> {
        if amount == 0 {
            Some(LoanError::InvalidAmount)
        } else if self.config is None {
            Some(LoanError::NotInitialized)
        } else if !fits_i128(self.loan_debt(amount)) {
            Some(LoanError::Overflow)
        } else if self.total_supply < self.loan_debt(amount) {
            Some(LoanError::InsufficientLiquidity)
        } else if amount < 0 || self.loan_debt(amount) < 0 {
            Some(LoanError::InvalidAmount)
        } else if !fits_i128(self.total_supply - self.loan_debt(amount)) {
            Some(LoanError::Overflow)
        } else {
            None
        }
    }

    /// The state after `from` borrows against `amount` of collateral.
    pub open spec fn after_loan(self, from: AccountId, amount: i128) -> PoolView {
        let debt = self.loan_debt(amount as int);
        PoolView {
            total_supply: self.total_supply - debt,
            addresses: self.addresses.push(from),
            records: self.records.push(Borrower { address: from, amount_locked: amount, debt: debt as i128 }),
            ..self
        }
    }

    /// The amount `from` owes on its first open loan, or why there is none.
    pub open spec fn debt_of(self, from: AccountId) -> Result<int, LoanError> {
        let i = first_index(self.addresses, from);
        if i < 0 {
            Err(LoanError::NoActiveLoan)
        } else if self.config is None {
            Err(LoanError::NotInitialized)
        } else {
            let debt = self.records[i].debt as int;
            let rate = self.config->0.interest_rate_ppm as int;
            if fits_i128(debt * rate) && fits_i128(amount_due(debt, rate)) {
                Ok(amount_due(debt, rate))
            } else {
                Err(LoanError::Overflow)
            }
        }
    }

    /// Why a repayment of `amount` by `from` is refused, if it is. Only the
    /// exact amount due is accepted, and never a negative one.
    pub open spec fn repay_error(self, from: AccountId, amount: int) -> Option<LoanError> {
        match self.debt_of(from) {
            Err(e) => Some(e),
            Ok(due) => if amount != due {
                Some(LoanError::IncorrectPaymentAmount)
            } else if due < 0 {
                Some(LoanError::InvalidAmount)
            } else if !fits_i128(self.total_supply + due) {
                Some(LoanError::Overflow)
            } else {
                None
            },
        }
    }

    /// The state after `from` repays its first open loan in full.
    pub open spec fn after_repay(self, from: AccountId) -> PoolView {
        let i = first_index(self.addresses, from);
        PoolView {
            total_supply: self.total_supply + self.debt_of(from)->Ok_0,
            addresses: self.addresses.remove(i),
            records: self.records.remove(i),
            ..self
        }
    }
}

/// A single-asset collateralized lending pool: lenders supply the loan asset,
/// borrowers lock collateral and draw `collateral * collateral_rate`, and repay
/// principal plus interest to get their collateral back.
///
/// Operations do not move assets themselves: each accepted operation returns
/// the transfers that the host must perform with it.
pub struct CollateralizedLoanContract {
    admin: Option<AccountId>,
    config: Option<PoolConfig>,
    total_supply: i128,
    borrowers: Vec<Borrower>,
    borrowers_addresses: Vec<AccountId>,
}

impl View for CollateralizedLoanContract {
    type V = PoolView;

    closed spec fn view(&self) -> PoolView {
        PoolView {
            admin: self.admin,
            config: self.config,
            total_supply: self.total_supply as int,
            addresses: self.borrowers_addresses@,
            records: self.borrowers@,
        }
    }
}

impl CollateralizedLoanContract {
    /// The ledger's invariant: the registry sequences are index-aligned.
    pub open spec fn wf(&self) -> bool {
        self@.aligned()
    }

    /// An empty, unconfigured pool.
    pub fn new() -> (r: Self)
        ensures
            r@ == PoolView::empty(),
            r.wf(),
    {
        CollateralizedLoanContract {
            admin: None,
            config: None,
            total_supply: 0,
            borrowers: Vec::new(),
            borrowers_addresses: Vec::new(),
        }
    }

    /// Rebuilds a pool from its persisted parts; `None` where the two
    /// registry sequences are not index-aligned.
    pub fn restore(
        admin: Option<AccountId>,
        config: Option<PoolConfig>,
        total_supply: i128,
        borrowers: Vec<Borrower>,
        borrowers_addresses: Vec<AccountId>,
    ) -> (r: Option<Self>)
        ensures
            r is Some <==> (PoolView {
                admin,
                config,
                total_supply: total_supply as int,
                addresses: borrowers_addresses@,
                records: borrowers@,
            }).aligned(),
            r matches Some(p) ==> p.wf() && p@ == (PoolView {
                admin,
                config,
                total_supply: total_supply as int,
                addresses: borrowers_addresses@,
                records: borrowers@,
            }),
    {
        if borrowers.len() != borrowers_addresses.len() {
            return None;
        }
        let mut i: usize = 0;
        while i < borrowers.len()
            invariant
                borrowers@.len() == borrowers_addresses@.len(),
                0 <= i <= borrowers@.len(),
                forall|j: int| 0 <= j < i ==> borrowers_addresses@[j] == borrowers@[j].address,
            decreases borrowers@.len() - i,
        {
            if borrowers_addresses[i] != borrowers[i].address {
                return None;
            }
            i = i + 1;
        }
        Some(CollateralizedLoanContract { admin, config, total_supply, borrowers, borrowers_addresses })
    }

    /// Whether an administrator has been recorded.
    pub fn has_administrator(&self) -> (r: bool)
        ensures
            r == (self@.admin is Some),
    {
        self.admin.is_some()
    }

    /// The recorded administrator, if any.
    pub fn read_administrator(&self) -> (r: Option<AccountId>)
        ensures
            r == self@.admin,
    {
        self.admin
    }

    /// Records `id` as administrator; nothing else changes.
    pub fn write_administrator(&mut self, id: AccountId)
        requires
            old(self).wf(),
        ensures
            final(self).wf(),
            final(self)@ == (PoolView { admin: Some(id), ..old(self)@ }),
    {
        self.admin = Some(id);
    }

    /// Configures the pool with an explicit interest rate, replacing any
    /// earlier configuration. Liquidity and the registry are kept.
    pub fn initialize_with_interest_rate(
        &mut self,
        loan_token: AccountId,
        collateral_token: AccountId,
        collateral_rate: i128,
        interest_rate_ppm: i128,
    )
        requires
            old(self).wf(),
        ensures
            final(self).wf(),
            final(self)@ == old(self)@.configured(
                PoolConfig {
                    loan_token,
                    collateral_token,
                    collateral_rate,
                    interest_rate_ppm,
                    installments: DEFAULT_INSTALLMENTS,
                },
            ),
    {
        self.config = Some(
            PoolConfig {
                loan_token,
                collateral_token,
                collateral_rate,
                interest_rate_ppm,
                installments: DEFAULT_INSTALLMENTS,
            },
        );
    }

    /// Configures the pool at the default interest rate of 1.5%, replacing any
    /// earlier configuration. Liquidity and the registry are kept.
    pub fn initialize(
        &mut self,
        loan_token: AccountId,
        collateral_token: AccountId,
        collateral_rate: i128,
    )
        requires
            old(self).wf(),
        ensures
            final(self).wf(),
            final(self)@ == old(self)@.configured(
                PoolConfig {
                    loan_token,
                    collateral_token,
                    collateral_rate,
                    interest_rate_ppm: DEFAULT_INTEREST_RATE_PPM,
                    installments: DEFAULT_INSTALLMENTS,
                },
            ),
    {
        self.initialize_with_interest_rate(
            loan_token,
            collateral_token,
            collateral_rate,
            DEFAULT_INTEREST_RATE_PPM,
        );
    }

    /// Adds `amount` of the loan asset from `from` to the pool.
    /// The transfer returned moves it from `from` into custody.
    pub fn supply_loan_tokens(&mut self, from: AccountId, amount: i128) -> (r: Result<
        Vec<Transfer>,
        LoanError,
    >)
        requires
            old(self).wf(),
        ensures
            final(self).wf(),
            old(self)@.total_supply >= 0 ==> final(self)@.total_supply >= 0,
            match r {
                Ok(transfers) => {
                    &&& old(self)@.supply_error(amount as int) is None
                    &&& final(self)@ == old(self)@.after_supply(amount as int)
                    &&& transfers@ == seq![
                        Transfer {
                            asset: old(self)@.config->0.loan_token,
                            from: Party::Account(from),
                            to: Party::Pool,
                            amount,
                        },
                    ]
                },
                Err(e) => {
                    &&& old(self)@.supply_error(amount as int) == Some(e)
                    &&& final(self)@ == old(self)@
                },
            },
    {
        if amount <= 0 {
            return Err(LoanError::InvalidAmount);
        }
        let config = match self.config {
            Some(c) => c,
            None => return Err(LoanError::NotInitialized),
        };
        let total = match self.total_supply.checked_add(amount) {
            Some(t) => t,
            None => return Err(LoanError::Overflow),
        };
        self.total_supply = total;
        let transfers = vec![
            Transfer {
                asset: config.loan_token,
                from: Party::Account(from),
                to: Party::Pool,
                amount,
            },
        ];
        Ok(transfers)
    }

    /// Opens a loan for `from` against `amount` of collateral. The principal
    /// is `amount * collateral_rate` and must be covered by the pool. Returns
    /// the principal, with the transfers: the collateral from `from` into
    /// custody, then the principal from custody to `from`.
    pub fn request_loan(&mut self, from: AccountId, amount: i128) -> (r: Result<
        Settlement,
        LoanError,
    >)
        requires
            old(self).wf(),
        ensures
            final(self).wf(),
            old(self)@.total_supply >= 0 ==> final(self)@.total_supply >= 0,
            match r {
                Ok(s) => {
                    &&& old(self)@.loan_error(amount as int) is None
                    &&& final(self)@ == old(self)@.after_loan(from, amount)
                    &&& s.value == old(self)@.loan_debt(amount as int)
                    &&& s.transfers@ == seq![
                        Transfer {
                            asset: old(self)@.config->0.collateral_token,
                            from: Party::Account(from),
                            to: Party::Pool,
                            amount,
                        },
                        Transfer {
                            asset: old(self)@.config->0.loan_token,
                            from: Party::Pool,
                            to: Party::Account(from),
                            amount: s.value,
                        },
                    ]
                },
                Err(e) => {
                    &&& old(self)@.loan_error(amount as int) == Some(e)
                    &&& final(self)@ == old(self)@
                },
            },
    {
        if amount == 0 {
            return Err(LoanError::InvalidAmount);
        }
        let config = match self.config {
            Some(c) => c,
            None => return Err(LoanError::NotInitialized),
        };
        let debt = match amount.checked_mul(config.collateral_rate) {
            Some(d) => d,
            None => return Err(LoanError::Overflow),
        };
        if self.total_supply < debt {
            return Err(LoanError::InsufficientLiquidity);
        }
        if amount < 0 || debt < 0 {
            return Err(LoanError::InvalidAmount);
        }
        let total = match self.total_supply.checked_sub(debt) {
            Some(t) => t,
            None => return Err(LoanError::Overflow),
        };
        let ghost pre = self@;
        self.borrowers_addresses.push(from);
        self.borrowers.push(Borrower { address: from, amount_locked: amount, debt });
        self.total_supply = total;
        proof {
            assert(self@.addresses == pre.addresses.push(from));
            assert(self@.records[self@.records.len() - 1].address == from);
            assert(self@.aligned());
        }
        let transfers = vec![
            Transfer {
                asset: config.collateral_token,
                from: Party::Account(from),
                to: Party::Pool,
                amount,
            },
            Transfer {
                asset: config.loan_token,
                from: Party::Pool,
                to: Party::Account(from),
                amount: debt,
            },
        ];
        Ok(Settlement { value: debt, transfers })
    }

    /// The amount `from` must pay to close its first open loan: principal
    /// plus interest rounded toward zero.
    pub fn get_debt(&self, from: AccountId) -> (r: Result<i128, LoanError>)
        requires
            self.wf(),
        ensures
            match r {
                Ok(v) => self@.debt_of(from) == Ok::<int, LoanError>(v as int),
                Err(e) => self@.debt_of(from) == Err::<int, LoanError>(e),
            },
    {
        let index = match find_first(&self.borrowers_addresses, from) {
            Some(i) => i,
            None => return Err(LoanError::NoActiveLoan),
        };
        let config = match self.config {
            Some(c) => c,
            None => return Err(LoanError::NotInitialized),
        };
        let debt = self.borrowers[index].debt;
        match total_due(debt, config.interest_rate_ppm) {
            Some(v) => Ok(v),
            None => Err(LoanError::Overflow),
        }
    }

    /// Closes the first open loan of `from`, where `amount` is exactly the
    /// amount due. Returns 0, with the transfers: the amount due from `from`
    /// into custody, then the locked collateral from custody back to `from`.
    pub fn repay_loan(&mut self, from: AccountId, amount: i128) -> (r: Result<
        Settlement,
        LoanError,
    >)
        requires
            old(self).wf(),
        ensures
            final(self).wf(),
            old(self)@.total_supply >= 0 ==> final(self)@.total_supply >= 0,
            match r {
                Ok(s) => {
                    let i = first_index(old(self)@.addresses, from);
                    &&& old(self)@.repay_error(from, amount as int) is None
                    &&& final(self)@ == old(self)@.after_repay(from)
                    &&& s.value == 0
                    &&& s.transfers@ == seq![
                        Transfer {
                            asset: old(self)@.config->0.loan_token,
                            from: Party::Account(from),
                            to: Party::Pool,
                            amount,
                        },
                        Transfer {
                            asset: old(self)@.config->0.collateral_token,
                            from: Party::Pool,
                            to: Party::Account(from),
                            amount: old(self)@.records[i].amount_locked,
                        },
                    ]
                },
                Err(e) => {
                    &&& old(self)@.repay_error(from, amount as int) == Some(e)
                    &&& final(self)@ == old(self)@
                },
            },
    {
        let index = match find_first(&self.borrowers_addresses, from) {
            Some(i) => i,
            None => return Err(LoanError::NoActiveLoan),
        };
        let config = match self.config {
            Some(c) => c,
            None => return Err(LoanError::NotInitialized),
        };
        let due = match total_due(self.borrowers[index].debt, config.interest_rate_ppm) {
            Some(v) => v,
            None => return Err(LoanError::Overflow),
        };
        if amount != due {
            return Err(LoanError::IncorrectPaymentAmount);
        }
        if due < 0 {
            return Err(LoanError::InvalidAmount);
        }
        let total = match self.total_supply.checked_add(due) {
            Some(t) => t,
            None => return Err(LoanError::Overflow),
        };
        let ghost pre = self@;
        let record = self.borrowers.remove(index);
        self.borrowers_addresses.remove(index);
        self.total_supply = total;
        proof {
            assert forall|k: int| 0 <= k < self@.addresses.len() implies #[trigger] self@.addresses[k]
                == self@.records[k].address by {
                if k < index {
                    assert(self@.addresses[k] == pre.addresses[k]);
                } else {
                    assert(self@.addresses[k] == pre.addresses[k + 1]);
                }
            }
        }
        let transfers = vec![
            Transfer {
                asset: config.loan_token,
                from: Party::Account(from),
                to: Party::Pool,
                amount,
            },
            Transfer {
                asset: config.collateral_token,
                from: Party::Pool,
                to: Party::Account(from),
                amount: record.amount_locked,
            },
        ];
        Ok(Settlement { value: 0, transfers })
    }

    /// The principal that `collateral_amount` would draw:
    /// `collateral_amount * collateral_rate`, with a rate of zero while the
    /// pool is not configured; `None` where the product leaves 128 bits.
    pub fn get_loan_amount(&self, collateral_amount: i128) -> (r: Option<i128>)
        ensures
            match r {
                Some(v) => v == self@.loan_debt(collateral_amount as int),
                None => !fits_i128(self@.loan_debt(collateral_amount as int)),
            },
    {
        let rate: i128 = match self.config {
            Some(c) => c.collateral_rate,
            None => 0,
        };
        collateral_amount.checked_mul(rate)
    }

    /// The loan asset, once configured.
    pub fn get_loan_token(&self) -> (r: Option<AccountId>)
        ensures
            r == (match self@.config {
                Some(c) => Some(c.loan_token),
                None => None,
            }),
    {
        match self.config {
            Some(c) => Some(c.loan_token),
            None => None,
        }
    }

    /// The collateral asset, once configured.
    pub fn get_collateral_token(&self) -> (r: Option<AccountId>)
        ensures
            r == (match self@.config {
                Some(c) => Some(c.collateral_token),
                None => None,
            }),
    {
        match self.config {
            Some(c) => Some(c.collateral_token),
            None => None,
        }
    }

    /// The whole configuration, once set.
    pub fn get_config(&self) -> (r: Option<PoolConfig>)
        ensures
            r == self@.config,
    {
        self.config
    }

    /// The loan asset available to lend.
    pub fn get_total_supply(&self) -> (r: i128)
        ensures
            r as int == self@.total_supply,
    {
        self.total_supply
    }

    /// The open loans, in the order they were made.
    pub fn get_borrowers(&self) -> (r: Vec<Borrower>)
        ensures
            r@ == self@.records,
    {
        self.borrowers.clone()
    }

    /// The addresses of the open loans, index-aligned with `get_borrowers`.
    pub fn get_borrowers_addresses(&self) -> (r: Vec<AccountId>)
        ensures
            r@ == self@.addresses,
    {
        self.borrowers_addresses.clone()
    }
}

} // verus!
