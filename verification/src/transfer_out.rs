//! The TRANSFER_OUT handler: books a cash or asset outflow in the activity's
//! currency, removes the transferred lots, and takes their cost basis off the
//! account's net contributions.
use vstd::prelude::*;

use crate::decimal::{Dec, decimal_checked_sub};
use crate::transfers::{
    LotSet,
    TransferAction,
    TransferActivity,
    TransferContext,
    TransferError,
    TransferEvent,
    finish_plus,
    is_cash_transfer,
    spec_asset_id_chars,
    spec_finish_plus,
    spec_group_id_chars,
    spec_is_cash_transfer,
};

verus! {

#[derive(Clone, Copy)]
pub enum TransferOutPhase {
    Start,
    CashAddCash,
    CashAccount,
    CashBase,
    AwaitFeeCash,
    AwaitPosition,
    AwaitReduction,
    AwaitDisposals,
    AwaitClosure,
    AwaitRemovedAccount,
    AwaitRemovedBase,
    AwaitCacheInsert,
    Done,
}

/// The abstract state of a TRANSFER_OUT.
#[verifier::ext_equal]
pub struct TransferOutState {
    pub phase: TransferOutPhase,
    pub activity: TransferActivity,
    pub ctx: TransferContext,
    /// Currency of the position transferred out of.
    pub position_currency: String,
    /// What the lot reduction removed: cost basis, number of lots removed,
    /// number of lots fully consumed.
    pub cost_basis_removed: Dec,
    pub removed_lots: nat,
    pub fully_consumed_lots: nat,
    /// Index of the next fully consumed lot to record as closed.
    pub next_closure: nat,
    /// The outflow (or the removed cost basis) in the account currency.
    pub amount_account: Dec,
    /// The net contributions to report once the removed lots are staged.
    pub final_net_contribution: Dec,
    pub final_net_contribution_base: Dec,
}

impl TransferOutState {
    /// The states a TRANSFER_OUT can be in: a closure is awaited only for a
    /// fully consumed lot.
    pub open spec fn wf(self) -> bool {
        self.phase == TransferOutPhase::AwaitClosure ==> self.next_closure < self.fully_consumed_lots
    }
}

/// The outflow amount: the activity amount made negative, whatever its sign.
pub open spec fn spec_outflow(activity: TransferActivity) -> Dec {
    activity.amount.spec_abs().spec_neg()
}

/// The events a TRANSFER_OUT accepts in each state.
pub open spec fn spec_transfer_out_accepts(s: TransferOutState, e: TransferEvent) -> bool {
    match e {
        TransferEvent::Started => s.phase == TransferOutPhase::Start,
        TransferEvent::Done => s.phase == TransferOutPhase::CashAddCash || s.phase
            == TransferOutPhase::AwaitFeeCash || s.phase == TransferOutPhase::AwaitDisposals
            || s.phase == TransferOutPhase::AwaitClosure || s.phase
            == TransferOutPhase::AwaitCacheInsert,
        TransferEvent::Amount { .. } => s.phase == TransferOutPhase::CashAccount || s.phase
            == TransferOutPhase::AwaitRemovedAccount || s.phase == TransferOutPhase::AwaitRemovedBase,
        TransferEvent::FxConverted { .. } => s.phase == TransferOutPhase::CashBase,
        TransferEvent::PositionFound { .. } => s.phase == TransferOutPhase::AwaitPosition,
        TransferEvent::LotsReduced { .. } => s.phase == TransferOutPhase::AwaitReduction,
        _ => false,
    }
}

/// After the removed lots' cost basis is taken off (giving `nc` and `ncb`):
/// stage the removed lots for the paired TRANSFER_IN where the activity
/// belongs to a group and lots were removed, then finish.
pub open spec fn spec_stage_or_finish(s: TransferOutState, nc: Dec, ncb: Dec, new: TransferOutState, a: TransferAction) -> bool {
    if s.activity.source_group_id is Some && s.removed_lots > 0 {
        &&& new == TransferOutState {
            phase: TransferOutPhase::AwaitCacheInsert,
            final_net_contribution: nc,
            final_net_contribution_base: ncb,
            ..s
        }
        &&& a matches TransferAction::StageTransferCacheInsert { group_id } && group_id@
            == spec_group_id_chars(s.activity)
    } else {
        &&& new == TransferOutState {
            phase: TransferOutPhase::Done,
            final_net_contribution: nc,
            final_net_contribution_base: ncb,
            ..s
        }
        &&& a == TransferAction::Finish { net_contribution: nc, net_contribution_base: ncb }
    }
}

/// Once the closures are recorded: convert the removed cost basis where the
/// position has a currency and something was removed, else keep the
/// contributions.
pub open spec fn spec_after_closures(s: TransferOutState, new: TransferOutState, a: TransferAction) -> bool {
    if s.position_currency@.len() > 0 && !s.cost_basis_removed.spec_is_zero() {
        &&& new == TransferOutState { phase: TransferOutPhase::AwaitRemovedAccount, ..s }
        &&& a matches TransferAction::LotsCostBasisInCurrency { lots, from, to } && lots is Removed
            && from == s.position_currency && to == s.ctx.account_currency
    } else {
        spec_stage_or_finish(s, s.ctx.net_contribution, s.ctx.net_contribution_base, new, a)
    }
}

/// Record the next fully consumed lot as closed, or move on.
pub open spec fn spec_next_closure(s: TransferOutState, new: TransferOutState, a: TransferAction) -> bool {
    if s.next_closure < s.fully_consumed_lots {
        &&& new == TransferOutState { phase: TransferOutPhase::AwaitClosure, ..s }
        &&& a == TransferAction::RecordLotClosure {
            lot_index: s.next_closure as usize,
            position_currency: s.position_currency,
        }
    } else {
        spec_after_closures(s, new, a)
    }
}

/// One step of a TRANSFER_OUT: from `s`, on `e`, the handler moves to `new`
/// and asks for `a`.
pub open spec fn spec_transfer_out_step(s: TransferOutState, e: TransferEvent, new: TransferOutState, a: TransferAction) -> bool {
    match e {
        TransferEvent::Started => if spec_is_cash_transfer(s.activity) {
            match decimal_checked_sub(spec_outflow(s.activity), s.activity.fee) {
                None => {
                    &&& new == TransferOutState { phase: TransferOutPhase::Done, ..s }
                    &&& a == TransferAction::Fail { error: TransferError::Overflow }
                },
                Some(net) => {
                    &&& new == TransferOutState { phase: TransferOutPhase::CashAddCash, ..s }
                    &&& a == TransferAction::AddCash { currency: s.activity.currency, amount: net }
                },
            }
        } else {
            &&& new == TransferOutState { phase: TransferOutPhase::AwaitFeeCash, ..s }
            &&& a == TransferAction::AddCash {
                currency: s.activity.currency,
                amount: s.activity.fee.spec_neg(),
            }
        },
        TransferEvent::Done => if s.phase == TransferOutPhase::CashAddCash {
            &&& new == TransferOutState { phase: TransferOutPhase::CashAccount, ..s }
            &&& a == TransferAction::ConvertToAccountCurrency { amount: spec_outflow(s.activity) }
        } else if s.phase == TransferOutPhase::AwaitFeeCash {
            &&& new == TransferOutState { phase: TransferOutPhase::AwaitPosition, ..s }
            &&& a matches TransferAction::LookupPosition { asset_id } && asset_id@
                == spec_asset_id_chars(s.activity)
        } else if s.phase == TransferOutPhase::AwaitDisposals {
            spec_next_closure(TransferOutState { next_closure: 0, ..s }, new, a)
        } else if s.phase == TransferOutPhase::AwaitClosure {
            spec_next_closure(TransferOutState { next_closure: s.next_closure + 1, ..s }, new, a)
        } else {
            &&& new == TransferOutState { phase: TransferOutPhase::Done, ..s }
            &&& a == TransferAction::Finish {
                net_contribution: s.final_net_contribution,
                net_contribution_base: s.final_net_contribution_base,
            }
        },
        TransferEvent::Amount { value } => if s.phase == TransferOutPhase::CashAccount {
            &&& new == TransferOutState {
                phase: TransferOutPhase::CashBase,
                amount_account: value,
                ..s
            }
            &&& a == TransferAction::ConvertCurrencyForDate {
                amount: spec_outflow(s.activity),
                from: s.activity.currency,
                to: s.ctx.base_currency,
            }
        } else if s.phase == TransferOutPhase::AwaitRemovedAccount {
            &&& new == TransferOutState {
                phase: TransferOutPhase::AwaitRemovedBase,
                amount_account: value,
                ..s
            }
            &&& a matches TransferAction::LotsCostBasisInCurrency { lots, from, to } && lots is Removed
                && from == s.position_currency && to == s.ctx.base_currency
        } else {
            match decimal_checked_sub(s.ctx.net_contribution, s.amount_account) {
                None => {
                    &&& new == TransferOutState { phase: TransferOutPhase::Done, ..s }
                    &&& a == TransferAction::Fail { error: TransferError::Overflow }
                },
                Some(nc) => match decimal_checked_sub(s.ctx.net_contribution_base, value) {
                    None => {
                        &&& new == TransferOutState { phase: TransferOutPhase::Done, ..s }
                        &&& a == TransferAction::Fail { error: TransferError::Overflow }
                    },
                    Some(ncb) => spec_stage_or_finish(s, nc, ncb, new, a),
                },
            }
        },
        TransferEvent::FxConverted { result } => {
            let base = match result {
                Some(v) => v,
                None => Dec::spec_zero(),
            };
            &&& new == TransferOutState { phase: TransferOutPhase::Done, ..s }
            &&& a == spec_finish_plus(s.ctx, s.amount_account, base)
        },
        TransferEvent::PositionFound { position } => match position {
            None => {
                &&& new == TransferOutState { phase: TransferOutPhase::Done, ..s }
                &&& a == TransferAction::Finish {
                    net_contribution: s.ctx.net_contribution,
                    net_contribution_base: s.ctx.net_contribution_base,
                }
            },
            Some((currency, negative)) => {
                &&& new == TransferOutState {
                    phase: TransferOutPhase::AwaitReduction,
                    position_currency: currency,
                    ..s
                }
                &&& a == TransferAction::ReduceLots {
                    quantity: s.activity.quantity,
                    negative_lots: negative,
                }
            },
        },
        TransferEvent::LotsReduced { cost_basis_removed, removed_lots, fully_consumed_lots } => {
            &&& new == TransferOutState {
                phase: TransferOutPhase::AwaitDisposals,
                cost_basis_removed,
                removed_lots: removed_lots as nat,
                fully_consumed_lots: fully_consumed_lots as nat,
                ..s
            }
            &&& a == TransferAction::RecordLotDisposals {
                cost_basis_removed,
                position_currency: s.position_currency,
            }
        },
        _ => false,
    }
}

/// A TRANSFER_OUT being handled.
pub struct TransferOut {
    phase: TransferOutPhase,
    activity: TransferActivity,
    ctx: TransferContext,
    position_currency: String,
    cost_basis_removed: Dec,
    removed_lots: usize,
    fully_consumed_lots: usize,
    next_closure: usize,
    amount_account: Dec,
    final_net_contribution: Dec,
    final_net_contribution_base: Dec,
}

impl View for TransferOut {
    type V = TransferOutState;

    closed spec fn view(&self) -> TransferOutState {
        TransferOutState {
            phase: self.phase,
            activity: self.activity,
            ctx: self.ctx,
            position_currency: self.position_currency,
            cost_basis_removed: self.cost_basis_removed,
            removed_lots: self.removed_lots as nat,
            fully_consumed_lots: self.fully_consumed_lots as nat,
            next_closure: self.next_closure as nat,
            amount_account: self.amount_account,
            final_net_contribution: self.final_net_contribution,
            final_net_contribution_base: self.final_net_contribution_base,
        }
    }
}

impl TransferOut {
    /// A TRANSFER_OUT of `activity` from an account in `ctx`, not started.
    pub fn new(activity: TransferActivity, ctx: TransferContext) -> (r: TransferOut)
        ensures
            r@.wf(),
            r@.phase == TransferOutPhase::Start,
            r@.activity == activity,
            r@.ctx == ctx,
            r@.next_closure == 0,
            r@.fully_consumed_lots == 0,
    {
        TransferOut {
            phase: TransferOutPhase::Start,
            activity,
            ctx,
            position_currency: String::new(),
            cost_basis_removed: Dec::zero(),
            removed_lots: 0,
            fully_consumed_lots: 0,
            next_closure: 0,
            amount_account: Dec::zero(),
            final_net_contribution: Dec::zero(),
            final_net_contribution_base: Dec::zero(),
        }
    }

    /// Whether the handler accepts `event` now.
    pub fn accepts(&self, event: &TransferEvent) -> (r: bool)
        ensures
            r == spec_transfer_out_accepts(self@, *event),
    {
        match event {
            TransferEvent::Started => matches!(self.phase, TransferOutPhase::Start),
            TransferEvent::Done => matches!(self.phase, TransferOutPhase::CashAddCash)
                || matches!(self.phase, TransferOutPhase::AwaitFeeCash)
                || matches!(self.phase, TransferOutPhase::AwaitDisposals)
                || matches!(self.phase, TransferOutPhase::AwaitClosure)
                || matches!(self.phase, TransferOutPhase::AwaitCacheInsert),
            TransferEvent::Amount { .. } => matches!(self.phase, TransferOutPhase::CashAccount)
                || matches!(self.phase, TransferOutPhase::AwaitRemovedAccount)
                || matches!(self.phase, TransferOutPhase::AwaitRemovedBase),
            TransferEvent::FxConverted { .. } => matches!(self.phase, TransferOutPhase::CashBase),
            TransferEvent::PositionFound { .. } => matches!(self.phase, TransferOutPhase::AwaitPosition),
            TransferEvent::LotsReduced { .. } => matches!(self.phase, TransferOutPhase::AwaitReduction),
            _ => false,
        }
    }

    fn outflow(&self) -> (r: Dec)
        ensures
            r == spec_outflow(self@.activity),
    {
        self.activity.amount.abs().neg()
    }

    fn stage_or_finish(&mut self, nc: Dec, ncb: Dec) -> (a: TransferAction)
        ensures
            spec_stage_or_finish(old(self)@, nc, ncb, final(self)@, a),
    {
        self.final_net_contribution = nc;
        self.final_net_contribution_base = ncb;
        match &self.activity.source_group_id {
            Some(g) => {
                if self.removed_lots > 0 {
                    let group_id = g.clone();
                    self.phase = TransferOutPhase::AwaitCacheInsert;
                    return TransferAction::StageTransferCacheInsert { group_id };
                }
            },
            None => {},
        }
        self.phase = TransferOutPhase::Done;
        TransferAction::Finish { net_contribution: nc, net_contribution_base: ncb }
    }

    fn after_closures(&mut self) -> (a: TransferAction)
        ensures
            spec_after_closures(old(self)@, final(self)@, a),
    {
        if !self.position_currency.as_str().is_empty() && !self.cost_basis_removed.is_zero() {
            self.phase = TransferOutPhase::AwaitRemovedAccount;
            TransferAction::LotsCostBasisInCurrency {
                lots: LotSet::Removed,
                from: self.position_currency.clone(),
                to: self.ctx.account_currency.clone(),
            }
        } else {
            let nc = self.ctx.net_contribution;
            let ncb = self.ctx.net_contribution_base;
            self.stage_or_finish(nc, ncb)
        }
    }

    fn next_closure(&mut self) -> (a: TransferAction)
        ensures
            spec_next_closure(old(self)@, final(self)@, a),
    {
        if self.next_closure < self.fully_consumed_lots {
            self.phase = TransferOutPhase::AwaitClosure;
            TransferAction::RecordLotClosure {
                lot_index: self.next_closure,
                position_currency: self.position_currency.clone(),
            }
        } else {
            self.after_closures()
        }
    }

    /// Hands a collaborator's answer to the handler and returns the next
    /// call (see [`spec_transfer_out_step`]).
    pub fn step(&mut self, event: TransferEvent) -> (a: TransferAction)
        requires
            old(self)@.wf(),
            spec_transfer_out_accepts(old(self)@, event),
        ensures
            final(self)@.wf(),
            spec_transfer_out_step(old(self)@, event, final(self)@, a),
    {
        match event {
            TransferEvent::Started => {
                if is_cash_transfer(&self.activity) {
                    let outflow = self.outflow();
                    match outflow.checked_sub(&self.activity.fee) {
                        None => {
                            self.phase = TransferOutPhase::Done;
                            TransferAction::Fail { error: TransferError::Overflow }
                        },
                        Some(net) => {
                            self.phase = TransferOutPhase::CashAddCash;
                            TransferAction::AddCash { currency: self.activity.currency.clone(), amount: net }
                        },
                    }
                } else {
                    self.phase = TransferOutPhase::AwaitFeeCash;
                    TransferAction::AddCash {
                        currency: self.activity.currency.clone(),
                        amount: self.activity.fee.neg(),
                    }
                }
            },
            TransferEvent::Done => {
                match self.phase {
                    TransferOutPhase::CashAddCash => {
                        self.phase = TransferOutPhase::CashAccount;
                        TransferAction::ConvertToAccountCurrency { amount: self.outflow() }
                    },
                    TransferOutPhase::AwaitFeeCash => {
                        self.phase = TransferOutPhase::AwaitPosition;
                        let asset_id = match &self.activity.asset_id {
                            Some(id) => id.clone(),
                            None => String::new(),
                        };
                        TransferAction::LookupPosition { asset_id }
                    },
                    TransferOutPhase::AwaitDisposals => {
                        self.next_closure = 0;
                        self.next_closure()
                    },
                    TransferOutPhase::AwaitClosure => {
                        self.next_closure = self.next_closure + 1;
                        self.next_closure()
                    },
                    _ => {
                        self.phase = TransferOutPhase::Done;
                        TransferAction::Finish {
                            net_contribution: self.final_net_contribution,
                            net_contribution_base: self.final_net_contribution_base,
                        }
                    },
                }
            },
            TransferEvent::Amount { value } => {
                match self.phase {
                    TransferOutPhase::CashAccount => {
                        self.amount_account = value;
                        self.phase = TransferOutPhase::CashBase;
                        TransferAction::ConvertCurrencyForDate {
                            amount: self.outflow(),
                            from: self.activity.currency.clone(),
                            to: self.ctx.base_currency.clone(),
                        }
                    },
                    TransferOutPhase::AwaitRemovedAccount => {
                        self.amount_account = value;
                        self.phase = TransferOutPhase::AwaitRemovedBase;
                        TransferAction::LotsCostBasisInCurrency {
                            lots: LotSet::Removed,
                            from: self.position_currency.clone(),
                            to: self.ctx.base_currency.clone(),
                        }
                    },
                    _ => {
                        match self.ctx.net_contribution.checked_sub(&self.amount_account) {
                            None => {
                                self.phase = TransferOutPhase::Done;
                                TransferAction::Fail { error: TransferError::Overflow }
                            },
                            Some(nc) => match self.ctx.net_contribution_base.checked_sub(&value) {
                                None => {
                                    self.phase = TransferOutPhase::Done;
                                    TransferAction::Fail { error: TransferError::Overflow }
                                },
                                Some(ncb) => self.stage_or_finish(nc, ncb),
                            },
                        }
                    },
                }
            },
            TransferEvent::FxConverted { result } => {
                let base = match result {
                    Some(v) => v,
                    None => Dec::zero(),
                };
                self.phase = TransferOutPhase::Done;
                finish_plus(&self.ctx, self.amount_account, base)
            },
            TransferEvent::PositionFound { position } => {
                match position {
                    None => {
                        self.phase = TransferOutPhase::Done;
                        TransferAction::Finish {
                            net_contribution: self.ctx.net_contribution,
                            net_contribution_base: self.ctx.net_contribution_base,
                        }
                    },
                    Some((currency, negative)) => {
                        self.position_currency = currency;
                        self.phase = TransferOutPhase::AwaitReduction;
                        TransferAction::ReduceLots { quantity: self.activity.quantity, negative_lots: negative }
                    },
                }
            },
            TransferEvent::LotsReduced { cost_basis_removed, removed_lots, fully_consumed_lots } => {
                self.cost_basis_removed = cost_basis_removed;
                self.removed_lots = removed_lots;
                self.fully_consumed_lots = fully_consumed_lots;
                self.phase = TransferOutPhase::AwaitDisposals;
                TransferAction::RecordLotDisposals {
                    cost_basis_removed,
                    position_currency: self.position_currency.clone(),
                }
            },
            _ => {
                self.phase = TransferOutPhase::Done;
                TransferAction::Fail { error: TransferError::Overflow }
            },
        }
    }
}

/// A TRANSFER_OUT books an outflow whatever the sign of the activity's
/// amount: the booked amount has the sign flag set and the amount's
/// magnitude and scale.
pub proof fn law_outflow_is_negative(activity: TransferActivity)
    ensures
        spec_outflow(activity).sign_negative(),
        spec_outflow(activity).magnitude_of() == activity.amount.magnitude_of(),
        spec_outflow(activity).scale_of() == activity.amount.scale_of(),
{
    activity.amount.lemma_negated_abs();
}

/// `s` with the sign of the activity's amount flipped.
pub open spec fn spec_with_negated_amount(s: TransferOutState) -> TransferOutState {
    TransferOutState {
        activity: TransferActivity { amount: s.activity.amount.spec_neg(), ..s.activity },
        ..s
    }
}

/// A TRANSFER_OUT ignores the sign of the activity's amount: the activity
/// type gives the direction. With the amount negated, the handler accepts
/// the same events, asks for the same calls with the same arguments, and
/// ends with the same net contributions; its states differ in the amount
/// alone.
pub proof fn law_transfer_out_ignores_amount_sign(
    s: TransferOutState,
    e: TransferEvent,
    new: TransferOutState,
    a: TransferAction,
)
    requires
        spec_transfer_out_step(s, e, new, a),
    ensures
        spec_transfer_out_accepts(spec_with_negated_amount(s), e) == spec_transfer_out_accepts(s, e),
        spec_with_negated_amount(s).wf() == s.wf(),
        spec_transfer_out_step(spec_with_negated_amount(s), e, spec_with_negated_amount(new), a),
{
    s.activity.amount.lemma_abs_ignores_sign();
    assert(spec_outflow(spec_with_negated_amount(s).activity) == spec_outflow(s.activity));
}

/// A cash TRANSFER_OUT converts the negative outflow to both currencies:
/// once its cash is booked, the amount handed to the account-currency
/// conversion and, next, the amount handed to the base-currency conversion
/// (from the activity's currency to the base currency) are one and the same,
/// with the sign flag set and the activity amount's magnitude and scale.
pub proof fn law_cash_outflow_is_converted_negative(
    s: TransferOutState,
    mid: TransferOutState,
    a_account: TransferAction,
    value: Dec,
    new: TransferOutState,
    a_base: TransferAction,
)
    requires
        s.phase == TransferOutPhase::CashAddCash,
        spec_transfer_out_step(s, TransferEvent::Done, mid, a_account),
        spec_transfer_out_step(mid, TransferEvent::Amount { value }, new, a_base),
    ensures
        a_account matches TransferAction::ConvertToAccountCurrency { amount: account_amount }
            && a_base matches TransferAction::ConvertCurrencyForDate { amount: base_amount, from, to }
            && base_amount == account_amount && base_amount.sign_negative()
            && base_amount.magnitude_of() == s.activity.amount.magnitude_of()
            && base_amount.scale_of() == s.activity.amount.scale_of() && from == s.activity.currency
            && to == s.ctx.base_currency,
{
    s.activity.amount.lemma_negated_abs();
}

} // verus!
