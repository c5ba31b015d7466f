//! Positions and tax lots as stored in a holdings snapshot, and the cost basis
//! of a position derived from its lots.
use vstd::prelude::*;

use crate::decimal::{Dec, decimal_checked_add, decimal_checked_mul};

verus! {

/// One tax lot of a position. Amounts are in the position's currency; the
/// lot may carry the FX rates to the account and base currencies that were
/// in force when it was acquired.
pub struct Lot {
    pub id: String,
    pub position_id: String,
    pub acquisition_date: String,
    pub quantity: Dec,
    pub cost_basis: Dec,
    pub acquisition_price: Dec,
    pub acquisition_fees: Dec,
    pub fx_rate_to_position: Option<Dec>,
    pub fx_rate_to_account: Option<Dec>,
    pub account_currency: Option<String>,
    pub fx_rate_to_base: Option<Dec>,
    pub base_currency: Option<String>,
}

/// A position of a holdings snapshot.
pub struct Position {
    pub id: String,
    pub account_id: String,
    pub asset_id: String,
    pub quantity: Dec,
    pub average_cost: Dec,
    pub total_cost_basis: Dec,
    pub currency: String,
    pub inception_date: String,
    pub lots: Vec<Lot>,
    pub created_at: String,
    pub last_updated: String,
    pub cost_basis_account: Option<Dec>,
    pub cost_basis_base: Option<Dec>,
}

/// The acquisition FX rate a lot stored for `target`: the account rate where
/// the lot's account currency is `target`, else the base rate where the lot's
/// base currency is `target`.
pub open spec fn spec_stored_fx_rate_to(lot: Lot, target: Seq<char>) -> Option<Dec> {
    if lot.account_currency is Some && lot.account_currency->0@ == target
        && lot.fx_rate_to_account is Some {
        lot.fx_rate_to_account
    } else if lot.base_currency is Some && lot.base_currency->0@ == target
        && lot.fx_rate_to_base is Some {
        lot.fx_rate_to_base
    } else {
        None
    }
}

/// The offline FX lookup: rate one between equal currencies, nothing
/// otherwise.
pub open spec fn spec_identity_fx_rate(from: Seq<char>, to: Seq<char>) -> Option<Dec> {
    if from == to {
        Some(Dec::spec_one())
    } else {
        None
    }
}

/// The rate that converts a lot's cost basis from the position currency to
/// `target`: the stored acquisition rate, else the offline lookup.
pub open spec fn spec_lot_rate_to(lot: Lot, position_currency: Seq<char>, target: Seq<char>) -> Option<Dec> {
    match spec_stored_fx_rate_to(lot, target) {
        Some(rate) => Some(rate),
        None => spec_identity_fx_rate(position_currency, target),
    }
}

/// The cost basis of `lots` in `target`: the sum, lot by lot in order, of each
/// lot's cost basis times its rate to `target`. `None` where some lot has no
/// rate or the arithmetic overflows.
pub open spec fn spec_cost_basis_from_lots(lots: Seq<Lot>, position_currency: Seq<char>, target: Seq<char>) -> Option<Dec>
    decreases lots.len(),
{
    if lots.len() == 0 {
        Some(Dec::spec_zero())
    } else {
        match spec_cost_basis_from_lots(lots.drop_last(), position_currency, target) {
            None => None,
            Some(acc) => match spec_lot_rate_to(lots.last(), position_currency, target) {
                None => None,
                Some(rate) => match decimal_checked_mul(lots.last().cost_basis, rate) {
                    None => None,
                    Some(value) => decimal_checked_add(acc, value),
                },
            },
        }
    }
}

/// Once a prefix of the lots has no cost basis, neither has any longer
/// prefix.
proof fn lemma_cost_basis_none_extends(lots: Seq<Lot>, i: int, pc: Seq<char>, target: Seq<char>)
    requires
        0 <= i <= lots.len(),
        spec_cost_basis_from_lots(lots.take(i), pc, target) is None,
    ensures
        spec_cost_basis_from_lots(lots, pc, target) is None,
    decreases lots.len() - i,
{
    if i < lots.len() {
        assert(lots.take(i + 1).drop_last() =~= lots.take(i));
        lemma_cost_basis_none_extends(lots, i + 1, pc, target);
    } else {
        assert(lots.take(i) =~= lots);
    }
}

fn currency_eq(a: &String, b: &str) -> (r: bool)
    ensures
        r == (a@ == b@),
{
    str_eq(a.as_str(), b)
}

impl Lot {
    /// The acquisition FX rate this lot stored for `target`, if any.
    pub fn stored_fx_rate_to(&self, target: &str) -> (r: Option<Dec>)
        ensures
            r == spec_stored_fx_rate_to(*self, target@),
    {
        match (&self.account_currency, self.fx_rate_to_account) {
            (Some(c), Some(rate)) => {
                if currency_eq(c, target) {
                    return Some(rate);
                }
            },
            _ => {},
        }
        match (&self.base_currency, self.fx_rate_to_base) {
            (Some(c), Some(rate)) => {
                if currency_eq(c, target) {
                    return Some(rate);
                }
            },
            _ => {},
        }
        None
    }
}

/// The offline FX lookup of the lot-strip backfill: `Some(1)` between equal
/// currencies, `None` otherwise (no market data is consulted).
pub fn identity_fx_rate(from: &str, to: &str) -> (r: Option<Dec>)
    ensures
        r == spec_identity_fx_rate(from@, to@),
{
    if str_eq(from, to) {
        Some(Dec::one())
    } else {
        None
    }
}

fn str_eq(a: &str, b: &str) -> (r: bool)
    ensures
        r == (a@ == b@),
{
    let x = a.to_owned();
    let y = b.to_owned();
    x == y
}

/// The cost basis of `position`'s lots converted to `target_currency`, each
/// lot at its stored acquisition FX rate, or at rate one when the position is
/// already in `target_currency`. `None` where a lot has no usable rate or the
/// decimal arithmetic overflows.
pub fn compute_position_cost_basis_from_lots(position: &Position, target_currency: &str) -> (r: Option<Dec>)
    ensures
        r == spec_cost_basis_from_lots(position.lots@, position.currency@, target_currency@),
{
    let lots = &position.lots;
    let n = lots.len();
    let mut acc = Dec::zero();
    let mut i: usize = 0;
    assert(lots@.take(0) =~= Seq::<Lot>::empty());
    while i < n
        invariant
            n == lots@.len(),
            lots@ == position.lots@,
            0 <= i <= n,
            spec_cost_basis_from_lots(lots@.take(i as int), position.currency@, target_currency@)
                == Some(acc),
        decreases n - i,
    {
        let lot = &lots[i];
        assert(lots@.take(i + 1).drop_last() =~= lots@.take(i as int));
        assert(lots@.take(i + 1).last() == lots@[i as int]);
        let rate = match lot.stored_fx_rate_to(target_currency) {
            Some(rate) => Some(rate),
            None => identity_fx_rate(position.currency.as_str(), target_currency),
        };
        let next = match rate {
            None => None,
            Some(rate) => match lot.cost_basis.checked_mul(&rate) {
                None => None,
                Some(value) => acc.checked_add(&value),
            },
        };
        match next {
            None => {
                proof {
                    lemma_cost_basis_none_extends(lots@, i + 1, position.currency@, target_currency@);
                }
                return None;
            },
            Some(v) => {
                acc = v;
            },
        }
        i = i + 1;
    }
    assert(lots@.take(n as int) =~= lots@);
    Some(acc)
}

/// Whether `lot` stored an acquisition rate for `target`: an account rate with
/// `target` as its account currency, or a base rate with `target` as its base
/// currency.
pub open spec fn spec_lot_stores_rate_for(lot: Lot, target: Seq<char>) -> bool {
    ||| lot.account_currency is Some && lot.account_currency->0@ == target
        && lot.fx_rate_to_account is Some
    ||| lot.base_currency is Some && lot.base_currency->0@ == target && lot.fx_rate_to_base is Some
}

/// A lot converts to `target` at its stored acquisition rate: the account
/// rate where its account currency is `target`, else the base rate where its
/// base currency is `target`; only a lot that stored neither falls back to
/// the offline lookup between the position currency and `target`.
pub proof fn law_lot_rate_is_the_stored_rate(lot: Lot, position_currency: Seq<char>, target: Seq<char>)
    ensures
        (lot.account_currency is Some && lot.account_currency->0@ == target
            && lot.fx_rate_to_account is Some) ==> spec_lot_rate_to(lot, position_currency, target)
            == lot.fx_rate_to_account,
        !(lot.account_currency is Some && lot.account_currency->0@ == target
            && lot.fx_rate_to_account is Some) && (lot.base_currency is Some
            && lot.base_currency->0@ == target && lot.fx_rate_to_base is Some) ==> spec_lot_rate_to(
            lot,
            position_currency,
            target,
        ) == lot.fx_rate_to_base,
        !spec_lot_stores_rate_for(lot, target) ==> spec_lot_rate_to(lot, position_currency, target)
            == spec_identity_fx_rate(position_currency, target),
{
}

/// Appending a lot that stored only a base rate `r` for `target` adds its
/// cost basis times `r` to the cost basis of the lots before it (`None`
/// where either is missing or the arithmetic overflows), whatever the
/// position's currency.
pub proof fn law_base_rate_lot_adds_cost_basis_times_base_rate(
    lots: Seq<Lot>,
    lot: Lot,
    position_currency: Seq<char>,
    target: Seq<char>,
    r: Dec,
)
    requires
        !(lot.account_currency is Some && lot.account_currency->0@ == target
            && lot.fx_rate_to_account is Some),
        lot.base_currency is Some && lot.base_currency->0@ == target,
        lot.fx_rate_to_base == Some(r),
    ensures
        spec_cost_basis_from_lots(lots.push(lot), position_currency, target) == match spec_cost_basis_from_lots(
            lots,
            position_currency,
            target,
        ) {
            None => None,
            Some(acc) => match decimal_checked_mul(lot.cost_basis, r) {
                None => None,
                Some(value) => decimal_checked_add(acc, value),
            },
        },
{
    assert(lots.push(lot).drop_last() =~= lots);
    assert(lots.push(lot).last() == lot);
}

/// Where every lot stored an acquisition rate for `target`, the cost basis in
/// `target` depends on the lots alone, not on the position's currency.
pub proof fn law_stored_rates_make_cost_basis_independent_of_position_currency(
    lots: Seq<Lot>,
    currency_a: Seq<char>,
    currency_b: Seq<char>,
    target: Seq<char>,
)
    requires
        forall|i: int| 0 <= i < lots.len() ==> spec_lot_stores_rate_for(#[trigger] lots[i], target),
    ensures
        spec_cost_basis_from_lots(lots, currency_a, target) == spec_cost_basis_from_lots(
            lots,
            currency_b,
            target,
        ),
    decreases lots.len(),
{
    if lots.len() > 0 {
        let rest = lots.drop_last();
        assert forall|i: int| 0 <= i < rest.len() implies spec_lot_stores_rate_for(#[trigger] rest[i], target) by {
            assert(rest[i] == lots[i]);
        }
        law_stored_rates_make_cost_basis_independent_of_position_currency(rest, currency_a, currency_b, target);
        assert(spec_lot_stores_rate_for(lots[lots.len() - 1], target));
        assert(lots.last() == lots[lots.len() - 1]);
    }
}

} // verus!
