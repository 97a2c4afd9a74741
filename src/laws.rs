use vstd::prelude::*;
use crate::interest::{amount_due, fits_i128};
use crate::ledger::PoolView;
use crate::registry::{first_index, is_first, lemma_first_index, lemma_first_unique};
use crate::types::{AccountId, LoanError, PoolConfig};

verus! {

/// A loan that is opened and then repaid leaves the registry as it was, and
/// the liquidity as it was minus the principal plus the amount repaid.
pub proof fn lemma_liquidity_conservation(s: PoolView, from: AccountId, amount: i128, paid: int)
    requires
        s.aligned(),
        !s.addresses.contains(from),
        s.loan_error(amount as int) is None,
        s.after_loan(from, amount).repay_error(from, paid) is None,
    ensures
        s.after_loan(from, amount).after_repay(from).total_supply == s.total_supply - s.loan_debt(
            amount as int,
        ) + paid,
        s.after_loan(from, amount).after_repay(from).addresses == s.addresses,
        s.after_loan(from, amount).after_repay(from).records == s.records,
{
    let t = s.after_loan(from, amount);
    let n = s.addresses.len() as int;
    assert(is_first(t.addresses, from, n)) by {
        assert forall|j: int| 0 <= j < n implies t.addresses[j] != from by {
            assert(t.addresses[j] == s.addresses[j]);
        }
    }
    lemma_first_index(t.addresses, from);
    lemma_first_unique(t.addresses, from, n, first_index(t.addresses, from));
    assert(t.addresses.remove(n) =~= s.addresses);
    assert(t.records.remove(n) =~= s.records);
}

/// No accepted operation takes the liquidity below zero.
pub proof fn lemma_supply_never_negative(s: PoolView, from: AccountId, amount: i128)
    requires
        s.total_supply >= 0,
    ensures
        s.loan_error(amount as int) is None ==> s.after_loan(from, amount).total_supply >= 0,
        s.supply_error(amount as int) is None ==> s.after_supply(amount as int).total_supply >= 0,
        s.repay_error(from, amount as int) is None ==> s.after_repay(from).total_supply >= 0,
{
}

/// A loan whose principal exceeds the liquidity is refused for that reason,
/// once the pool is configured, the collateral is not zero and the principal
/// fits in 128 bits.
pub proof fn lemma_insufficient_liquidity(s: PoolView, amount: int)
    requires
        s.config is Some,
        amount != 0,
        fits_i128(amount * s.config->0.collateral_rate),
        amount * s.config->0.collateral_rate > s.total_supply,
    ensures
        s.loan_error(amount) == Some(LoanError::InsufficientLiquidity),
{
}

/// Every transition keeps the two registry sequences index-aligned.
pub proof fn lemma_registry_alignment(
    s: PoolView,
    from: AccountId,
    amount: i128,
    config: PoolConfig,
    admin: AccountId,
)
    requires
        s.aligned(),
    ensures
        s.after_loan(from, amount).aligned(),
        s.addresses.contains(from) ==> s.after_repay(from).aligned(),
        s.after_supply(amount as int).aligned(),
        s.configured(config).aligned(),
        (PoolView { admin: Some(admin), ..s }).aligned(),
{
    let t = s.after_loan(from, amount);
    assert forall|k: int| 0 <= k < t.addresses.len() implies #[trigger] t.addresses[k]
        == t.records[k].address by {
        if k < s.addresses.len() {
            assert(t.addresses[k] == s.addresses[k]);
        }
    }
    if s.addresses.contains(from) {
        lemma_first_index(s.addresses, from);
        let i = first_index(s.addresses, from);
        let u = s.after_repay(from);
        assert forall|k: int| 0 <= k < u.addresses.len() implies #[trigger] u.addresses[k]
            == u.records[k].address by {
            if k < i {
                assert(u.addresses[k] == s.addresses[k]);
            } else {
                assert(u.addresses[k] == s.addresses[k + 1]);
            }
        }
    }
}

/// A repayment of anything but the exact amount due is refused.
pub proof fn lemma_exact_repayment_only(s: PoolView, from: AccountId, amount: int)
    requires
        s.debt_of(from) != Ok::<int, LoanError>(amount),
    ensures
        s.repay_error(from, amount) is Some,
        s.debt_of(from) is Ok ==> s.repay_error(from, amount) == Some(
            LoanError::IncorrectPaymentAmount,
        ),
{
}

/// For a borrower with an open loan in a configured pool, any payment other
/// than `debt + debt * interest_rate_ppm / 1_000_000` (rounded toward zero)
/// is refused as incorrect, where that amount fits in 128 bits.
pub proof fn lemma_incorrect_payment(s: PoolView, from: AccountId, amount: int)
    requires
        s.config is Some,
        s.addresses.contains(from),
        fits_i128(
            s.records[first_index(s.addresses, from)].debt * s.config->0.interest_rate_ppm,
        ),
        fits_i128(
            amount_due(
                s.records[first_index(s.addresses, from)].debt as int,
                s.config->0.interest_rate_ppm as int,
            ),
        ),
        amount != amount_due(
            s.records[first_index(s.addresses, from)].debt as int,
            s.config->0.interest_rate_ppm as int,
        ),
    ensures
        s.repay_error(from, amount) == Some(LoanError::IncorrectPaymentAmount),
{
    lemma_first_index(s.addresses, from);
}

/// The principal a collateral amount draws is the amount times the collateral
/// rate, and depends on nothing else in the pool's state.
pub proof fn lemma_loan_sizing(s: PoolView, t: PoolView, collateral: int)
    requires
        s.config == t.config,
        s.config is Some,
    ensures
        s.loan_debt(collateral) == collateral * s.config->0.collateral_rate,
        s.loan_debt(collateral) == t.loan_debt(collateral),
{
}

} // verus!
