//! The TRANSFER_IN handler: books a cash or asset inflow in the activity's
//! currency and adds it to the account's net contributions.
use vstd::prelude::*;

use crate::decimal::{Dec, decimal_checked_div, decimal_checked_sub};
use crate::transfers::{
    AssetInfo,
    LotSet,
    TransferAction,
    TransferActivity,
    TransferContext,
    TransferError,
    TransferEvent,
    added_lot_indices,
    finish_plus,
    is_cash_transfer,
    spec_added_lot_indices,
    spec_asset_id,
    spec_asset_id_chars,
    spec_group_id_chars,
    spec_finish_plus,
    spec_is_cash_transfer,
};

verus! {

#[derive(Clone, Copy)]
pub enum TransferInPhase {
    Start,
    CashAddCash,
    CashAccount,
    CashBase,
    AwaitPosition,
    AwaitAssetInfo,
    AwaitFallbackInfo,
    AwaitPeek,
    AwaitStageRemoval,
    AwaitTransferredLots,
    AwaitEconomics,
    AwaitPositionConversion,
    AwaitLotValues,
    AwaitFeeCash,
    AwaitAccountAmount,
    AwaitBaseAmount,
    Done,
}

/// The abstract state of a TRANSFER_IN.
#[verifier::ext_equal]
pub struct TransferInState {
    pub phase: TransferInPhase,
    pub activity: TransferActivity,
    pub ctx: TransferContext,
    /// Currency of the position the asset is transferred into.
    pub position_currency: String,
    pub asset_info: AssetInfo,
    /// Cost basis, in the position currency, of the lots added.
    pub cost_basis: Dec,
    /// Indices of the position's lots this activity added.
    pub added: Seq<usize>,
    /// The inflow converted to the account currency.
    pub amount_account: Dec,
}

impl TransferInState {
    /// The asset is booked in a position whose currency is set and differs
    /// from the activity's: its price and fee are converted first.
    pub open spec fn needs_conversion(self) -> bool {
        self.position_currency@.len() > 0 && self.position_currency@ != self.activity.currency@
    }
}

/// The events a TRANSFER_IN accepts in each state.
pub open spec fn spec_transfer_in_accepts(s: TransferInState, e: TransferEvent) -> bool {
    match e {
        TransferEvent::Started => s.phase == TransferInPhase::Start,
        TransferEvent::Done => s.phase == TransferInPhase::CashAddCash || s.phase
            == TransferInPhase::AwaitStageRemoval || s.phase == TransferInPhase::AwaitFeeCash,
        TransferEvent::PositionReady { .. } => s.phase == TransferInPhase::AwaitPosition,
        TransferEvent::AssetInfoFound { info } => s.phase == TransferInPhase::AwaitAssetInfo || (
        s.phase == TransferInPhase::AwaitFallbackInfo && info is Some),
        TransferEvent::TransferLotsPeeked { .. } => s.phase == TransferInPhase::AwaitPeek,
        TransferEvent::LotsAdded { .. } => s.phase == TransferInPhase::AwaitTransferredLots
            || s.phase == TransferInPhase::AwaitLotValues,
        TransferEvent::EconomicsCompiled { .. } => s.phase == TransferInPhase::AwaitEconomics,
        TransferEvent::ConvertedToPosition { .. } => s.phase
            == TransferInPhase::AwaitPositionConversion,
        TransferEvent::Amount { .. } => s.phase == TransferInPhase::CashAccount || s.phase
            == TransferInPhase::AwaitAccountAmount || (s.phase == TransferInPhase::AwaitBaseAmount
            && s.added.len() > 0),
        TransferEvent::FxConverted { .. } => s.phase == TransferInPhase::CashBase || (s.phase
            == TransferInPhase::AwaitBaseAmount && s.added.len() == 0),
        _ => false,
    }
}

/// With the asset info known: try the paired TRANSFER_OUT's cached lots
/// where the activity belongs to a group, else price a new lot.
pub open spec fn spec_after_asset_info(s: TransferInState, new: TransferInState, a: TransferAction) -> bool {
    match s.activity.source_group_id {
        Some(g) => {
            &&& new == TransferInState { phase: TransferInPhase::AwaitPeek, ..s }
            &&& a == TransferAction::PeekTransferLots { group_id: g }
        },
        None => spec_compile_economics(s, new, a),
    }
}

pub open spec fn spec_compile_economics(s: TransferInState, new: TransferInState, a: TransferAction) -> bool {
    &&& new == TransferInState { phase: TransferInPhase::AwaitEconomics, ..s }
    &&& a == TransferAction::CompileEconomics {
        contract_multiplier: s.asset_info.contract_multiplier,
    }
}

/// The unit price of a new lot: the lot's cost-basis value over the
/// quantity, zero for a zero quantity; `None` where the division overflows.
pub open spec fn spec_lot_unit_price(quantity: Dec, lot_cost_basis_value: Dec) -> Option<Dec> {
    if quantity.spec_is_zero() {
        Some(Dec::spec_zero())
    } else {
        decimal_checked_div(lot_cost_basis_value, quantity)
    }
}

/// One step of a TRANSFER_IN: from `s`, on `e`, the handler moves to `new`
/// and asks for `a`.
pub open spec fn spec_transfer_in_step(s: TransferInState, e: TransferEvent, new: TransferInState, a: TransferAction) -> bool {
    match e {
        TransferEvent::Started => if spec_is_cash_transfer(s.activity) {
            match decimal_checked_sub(s.activity.amount, s.activity.fee) {
                None => {
                    &&& new == TransferInState { phase: TransferInPhase::Done, ..s }
                    &&& a == TransferAction::Fail { error: TransferError::Overflow }
                },
                Some(net) => {
                    &&& new == TransferInState { phase: TransferInPhase::CashAddCash, ..s }
                    &&& a == TransferAction::AddCash { currency: s.activity.currency, amount: net }
                },
            }
        } else {
            &&& new == TransferInState { phase: TransferInPhase::AwaitPosition, ..s }
            &&& a == TransferAction::GetOrCreatePosition {
                asset_id: spec_asset_id(s.activity),
                currency: s.activity.currency,
            }
        },
        TransferEvent::Done => if s.phase == TransferInPhase::CashAddCash {
            &&& new == TransferInState { phase: TransferInPhase::CashAccount, ..s }
            &&& a == TransferAction::ConvertToAccountCurrency { amount: s.activity.amount }
        } else if s.phase == TransferInPhase::AwaitStageRemoval {
            &&& new == TransferInState { phase: TransferInPhase::AwaitTransferredLots, ..s }
            &&& a == TransferAction::AddTransferredLots {
                allows_negative_lots: s.asset_info.allows_negative_lots,
            }
        } else {
            &&& new == TransferInState { phase: TransferInPhase::AwaitAccountAmount, ..s }
            &&& if s.added.len() == 0 {
                a == TransferAction::ConvertPositionAmountToAccountCurrency {
                    amount: s.cost_basis,
                    position_currency: s.position_currency,
                }
            } else {
                a matches TransferAction::LotsCostBasisInCurrency { lots, from, to } && lots matches LotSet::AddedByActivity { indices } && indices@ == s.added && from == s.position_currency && to == s.ctx.account_currency
            }
        },
        TransferEvent::PositionReady { currency } => {
            &&& new == TransferInState {
                phase: TransferInPhase::AwaitAssetInfo,
                position_currency: currency,
                ..s
            }
            &&& a matches TransferAction::LookupAssetInfo { asset_id } && asset_id@
                == spec_asset_id_chars(s.activity)
        },
        TransferEvent::AssetInfoFound { info } => match info {
            Some(i) => spec_after_asset_info(TransferInState { asset_info: i, ..s }, new, a),
            None => {
                &&& new == TransferInState { phase: TransferInPhase::AwaitFallbackInfo, ..s }
                &&& a == TransferAction::FallbackAssetInfo { currency: s.activity.currency }
            },
        },
        TransferEvent::TransferLotsPeeked { present } => if present {
            &&& new == TransferInState { phase: TransferInPhase::AwaitStageRemoval, ..s }
            &&& a matches TransferAction::StageTransferCacheRemoval { group_id } && group_id@
                == spec_group_id_chars(s.activity)
        } else {
            spec_compile_economics(s, new, a)
        },
        TransferEvent::EconomicsCompiled { lot_cost_basis_value } => match spec_lot_unit_price(
            s.activity.quantity,
            lot_cost_basis_value,
        ) {
            None => {
                &&& new == TransferInState { phase: TransferInPhase::Done, ..s }
                &&& a == TransferAction::Fail { error: TransferError::Overflow }
            },
            Some(price) => if s.needs_conversion() {
                &&& new == TransferInState { phase: TransferInPhase::AwaitPositionConversion, ..s }
                &&& a == TransferAction::ConvertToPositionCurrency {
                    unit_price: price,
                    fee: s.activity.fee,
                    position_currency: s.position_currency,
                }
            } else {
                &&& new == TransferInState { phase: TransferInPhase::AwaitLotValues, ..s }
                &&& a == TransferAction::AddLotValues {
                    lot_id: s.activity.id,
                    quantity: s.activity.quantity,
                    unit_price: price,
                    fee: s.activity.fee,
                    fx_rate: None,
                    source_activity_id: s.activity.id,
                    book_basis_position_currency: s.position_currency,
                    book_basis_account_currency: s.ctx.account_currency,
                }
            },
        },
        TransferEvent::ConvertedToPosition { unit_price, fee, fx_rate } => {
            &&& new == TransferInState { phase: TransferInPhase::AwaitLotValues, ..s }
            &&& a == TransferAction::AddLotValues {
                lot_id: s.activity.id,
                quantity: s.activity.quantity,
                unit_price,
                fee,
                fx_rate,
                source_activity_id: s.activity.id,
                book_basis_position_currency: s.position_currency,
                book_basis_account_currency: s.ctx.account_currency,
            }
        },
        TransferEvent::LotsAdded { cost_basis, lot_sources } => {
            &&& new == TransferInState {
                phase: TransferInPhase::AwaitFeeCash,
                cost_basis,
                added: spec_added_lot_indices(lot_sources@, s.activity.id@),
                ..s
            }
            &&& a == TransferAction::AddCash {
                currency: s.activity.currency,
                amount: s.activity.fee.spec_neg(),
            }
        },
        TransferEvent::Amount { value } => if s.phase == TransferInPhase::CashAccount {
            &&& new == TransferInState {
                phase: TransferInPhase::CashBase,
                amount_account: value,
                ..s
            }
            &&& a == TransferAction::ConvertCurrencyForDate {
                amount: s.activity.amount,
                from: s.activity.currency,
                to: s.ctx.base_currency,
            }
        } else if s.phase == TransferInPhase::AwaitAccountAmount {
            &&& new == TransferInState {
                phase: TransferInPhase::AwaitBaseAmount,
                amount_account: value,
                ..s
            }
            &&& if s.added.len() == 0 {
                a == TransferAction::ConvertCurrencyForDate {
                    amount: s.cost_basis,
                    from: s.position_currency,
                    to: s.ctx.base_currency,
                }
            } else {
                a matches TransferAction::LotsCostBasisInCurrency { lots, from, to } && lots matches LotSet::AddedByActivity { indices } && indices@ == s.added && from == s.position_currency && to == s.ctx.base_currency
            }
        } else {
            &&& new == TransferInState { phase: TransferInPhase::Done, ..s }
            &&& a == spec_finish_plus(s.ctx, s.amount_account, value)
        },
        TransferEvent::FxConverted { result } => {
            // A failed conversion counts as zero for a cash transfer, and as
            // the unconverted cost basis for an asset transfer.
            let base = match result {
                Some(v) => v,
                None => if s.phase == TransferInPhase::CashBase {
                    Dec::spec_zero()
                } else {
                    s.cost_basis
                },
            };
            &&& new == TransferInState { phase: TransferInPhase::Done, ..s }
            &&& a == spec_finish_plus(s.ctx, s.amount_account, base)
        },
        _ => false,
    }
}

/// A TRANSFER_IN being handled.
pub struct TransferIn {
    phase: TransferInPhase,
    activity: TransferActivity,
    ctx: TransferContext,
    position_currency: String,
    asset_info: AssetInfo,
    cost_basis: Dec,
    added: Vec<usize>,
    amount_account: Dec,
}

impl View for TransferIn {
    type V = TransferInState;

    closed spec fn view(&self) -> TransferInState {
        TransferInState {
            phase: self.phase,
            activity: self.activity,
            ctx: self.ctx,
            position_currency: self.position_currency,
            asset_info: self.asset_info,
            cost_basis: self.cost_basis,
            added: self.added@,
            amount_account: self.amount_account,
        }
    }
}

impl TransferIn {
    /// A TRANSFER_IN of `activity` into an account in `ctx`, not started.
    pub fn new(activity: TransferActivity, ctx: TransferContext) -> (r: TransferIn)
        ensures
            r@.phase == TransferInPhase::Start,
            r@.activity == activity,
            r@.ctx == ctx,
    {
        TransferIn {
            phase: TransferInPhase::Start,
            activity,
            ctx,
            position_currency: String::new(),
            asset_info: AssetInfo { allows_negative_lots: false, contract_multiplier: Dec::one() },
            cost_basis: Dec::zero(),
            added: Vec::new(),
            amount_account: Dec::zero(),
        }
    }

    /// Whether the handler accepts `event` now.
    pub fn accepts(&self, event: &TransferEvent) -> (r: bool)
        ensures
            r == spec_transfer_in_accepts(self@, *event),
    {
        match event {
            TransferEvent::Started => matches!(self.phase, TransferInPhase::Start),
            TransferEvent::Done => matches!(self.phase, TransferInPhase::CashAddCash)
                || matches!(self.phase, TransferInPhase::AwaitStageRemoval) || matches!(self.phase, TransferInPhase::AwaitFeeCash),
            TransferEvent::PositionReady { .. } => matches!(self.phase, TransferInPhase::AwaitPosition),
            TransferEvent::AssetInfoFound { info } => matches!(self.phase, TransferInPhase::AwaitAssetInfo)
                || (matches!(self.phase, TransferInPhase::AwaitFallbackInfo) && info.is_some()),
            TransferEvent::TransferLotsPeeked { .. } => matches!(self.phase, TransferInPhase::AwaitPeek),
            TransferEvent::LotsAdded { .. } => matches!(self.phase, TransferInPhase::AwaitTransferredLots)
                || matches!(self.phase, TransferInPhase::AwaitLotValues),
            TransferEvent::EconomicsCompiled { .. } => matches!(self.phase, TransferInPhase::AwaitEconomics),
            TransferEvent::ConvertedToPosition { .. } => matches!(self.phase, TransferInPhase::AwaitPositionConversion),
            TransferEvent::Amount { .. } => matches!(self.phase, TransferInPhase::CashAccount)
                || matches!(self.phase, TransferInPhase::AwaitAccountAmount)
                || (matches!(self.phase, TransferInPhase::AwaitBaseAmount) && self.added.len() > 0),
            TransferEvent::FxConverted { .. } => matches!(self.phase, TransferInPhase::CashBase)
                || (matches!(self.phase, TransferInPhase::AwaitBaseAmount) && self.added.len() == 0),
            _ => false,
        }
    }

    fn clone_added(&self) -> (r: Vec<usize>)
        ensures
            r@ == self.added@,
    {
        let mut out: Vec<usize> = Vec::new();
        let n = self.added.len();
        let mut i: usize = 0;
        while i < n
            invariant
                n == self.added@.len(),
                0 <= i <= n,
                out@ == self.added@.take(i as int),
            decreases n - i,
        {
            out.push(self.added[i]);
            assert(out@ =~= self.added@.take(i + 1));
            i = i + 1;
        }
        assert(self.added@.take(n as int) =~= self.added@);
        out
    }

    fn compile_economics(&mut self) -> (a: TransferAction)
        ensures
            spec_compile_economics(old(self)@, final(self)@, a),
    {
        self.phase = TransferInPhase::AwaitEconomics;
        TransferAction::CompileEconomics { contract_multiplier: self.asset_info.contract_multiplier }
    }

    fn after_asset_info(&mut self) -> (a: TransferAction)
        ensures
            spec_after_asset_info(old(self)@, final(self)@, a),
    {
        match &self.activity.source_group_id {
            Some(g) => {
                let group_id = g.clone();
                self.phase = TransferInPhase::AwaitPeek;
                TransferAction::PeekTransferLots { group_id }
            },
            None => self.compile_economics(),
        }
    }

    /// Hands a collaborator's answer to the handler and returns the next
    /// call (see [`spec_transfer_in_step`]).
    pub fn step(&mut self, event: TransferEvent) -> (a: TransferAction)
        requires
            spec_transfer_in_accepts(old(self)@, event),
        ensures
            spec_transfer_in_step(old(self)@, event, final(self)@, a),
    {
        match event {
            TransferEvent::Started => {
                if is_cash_transfer(&self.activity) {
                    match self.activity.amount.checked_sub(&self.activity.fee) {
                        None => {
                            self.phase = TransferInPhase::Done;
                            TransferAction::Fail { error: TransferError::Overflow }
                        },
                        Some(net) => {
                            self.phase = TransferInPhase::CashAddCash;
                            TransferAction::AddCash { currency: self.activity.currency.clone(), amount: net }
                        },
                    }
                } else {
                    let asset_id = match &self.activity.asset_id {
                        Some(id) => id.clone(),
                        None => String::new(),
                    };
                    self.phase = TransferInPhase::AwaitPosition;
                    TransferAction::GetOrCreatePosition {
                        asset_id,
                        currency: self.activity.currency.clone(),
                    }
                }
            },
            TransferEvent::Done => {
                match self.phase {
                    TransferInPhase::CashAddCash => {
                        self.phase = TransferInPhase::CashAccount;
                        TransferAction::ConvertToAccountCurrency { amount: self.activity.amount }
                    },
                    TransferInPhase::AwaitStageRemoval => {
                        self.phase = TransferInPhase::AwaitTransferredLots;
                        TransferAction::AddTransferredLots {
                            allows_negative_lots: self.asset_info.allows_negative_lots,
                        }
                    },
                    _ => {
                        self.phase = TransferInPhase::AwaitAccountAmount;
                        if self.added.len() == 0 {
                            TransferAction::ConvertPositionAmountToAccountCurrency {
                                amount: self.cost_basis,
                                position_currency: self.position_currency.clone(),
                            }
                        } else {
                            TransferAction::LotsCostBasisInCurrency {
                                lots: LotSet::AddedByActivity { indices: self.clone_added() },
                                from: self.position_currency.clone(),
                                to: self.ctx.account_currency.clone(),
                            }
                        }
                    },
                }
            },
            TransferEvent::PositionReady { currency } => {
                self.position_currency = currency;
                self.phase = TransferInPhase::AwaitAssetInfo;
                let asset_id = match &self.activity.asset_id {
                    Some(id) => id.clone(),
                    None => String::new(),
                };
                TransferAction::LookupAssetInfo { asset_id }
            },
            TransferEvent::AssetInfoFound { info } => {
                match info {
                    Some(i) => {
                        self.asset_info = i;
                        self.after_asset_info()
                    },
                    None => {
                        self.phase = TransferInPhase::AwaitFallbackInfo;
                        TransferAction::FallbackAssetInfo { currency: self.activity.currency.clone() }
                    },
                }
            },
            TransferEvent::TransferLotsPeeked { present } => {
                if present {
                    let group_id = match &self.activity.source_group_id {
                        Some(g) => g.clone(),
                        None => String::new(),
                    };
                    self.phase = TransferInPhase::AwaitStageRemoval;
                    TransferAction::StageTransferCacheRemoval { group_id }
                } else {
                    self.compile_economics()
                }
            },
            TransferEvent::EconomicsCompiled { lot_cost_basis_value } => {
                let price = if self.activity.quantity.is_zero() {
                    Some(Dec::zero())
                } else {
                    lot_cost_basis_value.checked_div(&self.activity.quantity)
                };
                match price {
                    None => {
                        self.phase = TransferInPhase::Done;
                        TransferAction::Fail { error: TransferError::Overflow }
                    },
                    Some(price) => {
                        let needs_conversion = !self.position_currency.as_str().is_empty()
                            && !(self.position_currency == self.activity.currency);
                        if needs_conversion {
                            self.phase = TransferInPhase::AwaitPositionConversion;
                            TransferAction::ConvertToPositionCurrency {
                                unit_price: price,
                                fee: self.activity.fee,
                                position_currency: self.position_currency.clone(),
                            }
                        } else {
                            self.phase = TransferInPhase::AwaitLotValues;
                            TransferAction::AddLotValues {
                                lot_id: self.activity.id.clone(),
                                quantity: self.activity.quantity,
                                unit_price: price,
                                fee: self.activity.fee,
                                fx_rate: None,
                                source_activity_id: self.activity.id.clone(),
                                book_basis_position_currency: self.position_currency.clone(),
                                book_basis_account_currency: self.ctx.account_currency.clone(),
                            }
                        }
                    },
                }
            },
            TransferEvent::ConvertedToPosition { unit_price, fee, fx_rate } => {
                self.phase = TransferInPhase::AwaitLotValues;
                TransferAction::AddLotValues {
                    lot_id: self.activity.id.clone(),
                    quantity: self.activity.quantity,
                    unit_price,
                    fee,
                    fx_rate,
                    source_activity_id: self.activity.id.clone(),
                    book_basis_position_currency: self.position_currency.clone(),
                    book_basis_account_currency: self.ctx.account_currency.clone(),
                }
            },
            TransferEvent::LotsAdded { cost_basis, lot_sources } => {
                self.cost_basis = cost_basis;
                self.added = added_lot_indices(&lot_sources, &self.activity.id);
                self.phase = TransferInPhase::AwaitFeeCash;
                TransferAction::AddCash {
                    currency: self.activity.currency.clone(),
                    amount: self.activity.fee.neg(),
                }
            },
            TransferEvent::Amount { value } => {
                match self.phase {
                    TransferInPhase::CashAccount => {
                        self.amount_account = value;
                        self.phase = TransferInPhase::CashBase;
                        TransferAction::ConvertCurrencyForDate {
                            amount: self.activity.amount,
                            from: self.activity.currency.clone(),
                            to: self.ctx.base_currency.clone(),
                        }
                    },
                    TransferInPhase::AwaitAccountAmount => {
                        self.amount_account = value;
                        self.phase = TransferInPhase::AwaitBaseAmount;
                        if self.added.len() == 0 {
                            TransferAction::ConvertCurrencyForDate {
                                amount: self.cost_basis,
                                from: self.position_currency.clone(),
                                to: self.ctx.base_currency.clone(),
                            }
                        } else {
                            TransferAction::LotsCostBasisInCurrency {
                                lots: LotSet::AddedByActivity { indices: self.clone_added() },
                                from: self.position_currency.clone(),
                                to: self.ctx.base_currency.clone(),
                            }
                        }
                    },
                    _ => {
                        self.phase = TransferInPhase::Done;
                        finish_plus(&self.ctx, self.amount_account, value)
                    },
                }
            },
            TransferEvent::FxConverted { result } => {
                let base = match result {
                    Some(v) => v,
                    None => if matches!(self.phase, TransferInPhase::CashBase) {
                        Dec::zero()
                    } else {
                        self.cost_basis
                    },
                };
                self.phase = TransferInPhase::Done;
                finish_plus(&self.ctx, self.amount_account, base)
            },
            _ => {
                self.phase = TransferInPhase::Done;
                TransferAction::Fail { error: TransferError::Overflow }
            },
        }
    }
}

/// Without a currency conversion, the new lot is priced per unit: the unit
/// price asked for is the lot's cost-basis value divided by the activity's
/// quantity (zero for a zero quantity), with the activity's quantity and
/// fee and no FX rate; the handler fails only where that division
/// overflows.
pub proof fn law_new_lot_unit_price_is_value_over_quantity(
    s: TransferInState,
    lot_cost_basis_value: Dec,
    new: TransferInState,
    a: TransferAction,
)
    requires
        !s.needs_conversion(),
        spec_transfer_in_step(s, TransferEvent::EconomicsCompiled { lot_cost_basis_value }, new, a),
    ensures
        a is AddLotValues || a == (TransferAction::Fail { error: TransferError::Overflow }),
        a is Fail <==> (!s.activity.quantity.spec_is_zero() && decimal_checked_div(
            lot_cost_basis_value,
            s.activity.quantity,
        ) is None),
        a matches TransferAction::AddLotValues { quantity, unit_price, fee, fx_rate, .. } ==> {
            &&& quantity == s.activity.quantity
            &&& fee == s.activity.fee
            &&& fx_rate is None
            &&& s.activity.quantity.spec_is_zero() ==> unit_price == Dec::spec_zero()
            &&& !s.activity.quantity.spec_is_zero() ==> decimal_checked_div(
                lot_cost_basis_value,
                s.activity.quantity,
            ) == Some(unit_price)
        },
{
}

/// The unit price of a new lot does not depend on whether the position's
/// currency calls for a conversion: the price added directly where none is
/// needed is exactly the price handed to the position-currency conversion
/// where one is, for the same activity and cost-basis value.
pub proof fn law_converted_and_direct_lots_share_the_unit_price(
    s_direct: TransferInState,
    s_converted: TransferInState,
    lot_cost_basis_value: Dec,
    new_direct: TransferInState,
    a_direct: TransferAction,
    new_converted: TransferInState,
    a_converted: TransferAction,
)
    requires
        s_direct.activity == s_converted.activity,
        !s_direct.needs_conversion(),
        s_converted.needs_conversion(),
        spec_transfer_in_step(
            s_direct,
            TransferEvent::EconomicsCompiled { lot_cost_basis_value },
            new_direct,
            a_direct,
        ),
        spec_transfer_in_step(
            s_converted,
            TransferEvent::EconomicsCompiled { lot_cost_basis_value },
            new_converted,
            a_converted,
        ),
    ensures
        a_direct is AddLotValues <==> a_converted is ConvertToPositionCurrency,
        a_direct matches TransferAction::AddLotValues { unit_price: direct_price, .. }
            ==> a_converted matches TransferAction::ConvertToPositionCurrency {
            unit_price: converted_price,
            fee,
            ..
        } && converted_price == direct_price && fee == s_converted.activity.fee,
{
}

} // verus!
