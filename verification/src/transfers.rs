//! What the TRANSFER_IN and TRANSFER_OUT handlers of the holdings calculator
//! exchange with their collaborators (positions, lots, FX conversions, the
//! projection buffer), and the parts of their logic shared by both.
//!
//! Each handler is a state machine (see `transfer_in` and `transfer_out`):
//! it asks for one collaborator call at a time with a `TransferAction`; the
//! driver performs it on the account state and answers with a
//! `TransferEvent`. A collaborator error aborts the activity in the driver.
use vstd::prelude::*;

use crate::decimal::{Dec, decimal_checked_add};

verus! {

/// The fields of a transfer activity that the handlers read.
pub struct TransferActivity {
    pub id: String,
    pub currency: String,
    /// `activity.amt()`.
    pub amount: Dec,
    /// `activity.fee_amt()`.
    pub fee: Dec,
    /// `activity.qty()`.
    pub quantity: Dec,
    pub asset_id: Option<String>,
    pub source_group_id: Option<String>,
}

/// What the handlers read of the account and the calculator: the account
/// and base currencies, and the running net contributions.
pub struct TransferContext {
    pub account_currency: String,
    pub base_currency: String,
    pub net_contribution: Dec,
    pub net_contribution_base: Dec,
}

/// What the handlers read of an asset's cached position info.
#[derive(Clone, Copy)]
pub struct AssetInfo {
    pub allows_negative_lots: bool,
    pub contract_multiplier: Dec,
}

/// Lots whose cost basis is to be converted.
pub enum LotSet {
    /// The lots of the position, at these indices, that this activity added.
    AddedByActivity { indices: Vec<usize> },
    /// The lots the transfer-out reduction removed.
    Removed,
}

/// Why a handler stopped: a decimal operation overflowed (the calculator
/// panics there).
pub enum TransferError {
    Overflow,
}

/// A collaborator call the handler asks for, or its end.
pub enum TransferAction {
    /// `add_cash(state, currency, amount)`.
    AddCash { currency: String, amount: Dec },
    /// `get_or_create_position_mut_cached(state, asset_id, currency, ..)`.
    GetOrCreatePosition { asset_id: String, currency: String },
    /// `asset_cache.get(asset_id)`.
    LookupAssetInfo { asset_id: String },
    /// `AssetPositionInfo::fallback(currency)`.
    FallbackAssetInfo { currency: String },
    /// Look the paired TRANSFER_OUT's lots up in the run's transfer-lot cache.
    PeekTransferLots { group_id: String },
    /// Stage the removal of the cached lots in the side-effect buffer.
    StageTransferCacheRemoval { group_id: String },
    /// `position.add_transferred_lots(activity.id, cached lots, None, ..)`.
    AddTransferredLots { allows_negative_lots: bool },
    /// Compile the activity's economics with this contract multiplier.
    CompileEconomics { contract_multiplier: Dec },
    /// `convert_to_position_currency(unit_price, fee, activity, position_currency, ..)`.
    ConvertToPositionCurrency { unit_price: Dec, fee: Dec, position_currency: String },
    /// `position.add_lot_values(lot_id, quantity, unit_price, fee, activity date,
    /// fx_rate, Some(source_activity_id), book basis)`.
    ///
    /// The lot is `lot_id`, acquired on the activity's date, with
    /// `source_activity_id` as source; its book basis is
    /// `lot_book_basis_for_activity(activity, book_basis_position_currency,
    /// book_basis_account_currency)`.
    AddLotValues {
        lot_id: String,
        quantity: Dec,
        unit_price: Dec,
        fee: Dec,
        fx_rate: Option<Dec>,
        source_activity_id: String,
        book_basis_position_currency: String,
        book_basis_account_currency: String,
    },
    /// `convert_to_account_currency(amount, activity, account_currency, ..)`.
    ConvertToAccountCurrency { amount: Dec },
    /// `convert_position_amount_to_account_currency(amount, position_currency, ..)`.
    ConvertPositionAmountToAccountCurrency { amount: Dec, position_currency: String },
    /// `fx_service.convert_currency_for_date(amount, from, to, activity date)`.
    ConvertCurrencyForDate { amount: Dec, from: String, to: String },
    /// `lots_cost_basis_in_currency(lots, from, to, activity date, ..)`.
    LotsCostBasisInCurrency { lots: LotSet, from: String, to: String },
    /// `state.positions.get_mut(asset_id)`.
    LookupPosition { asset_id: String },
    /// `reduce_negative_lots_fifo(quantity)` where `negative_lots`, else
    /// `reduce_lots_fifo(quantity)`.
    ReduceLots { quantity: Dec, negative_lots: bool },
    /// `record_lot_disposals(.., removed lots, cost_basis_removed, .., position_currency, ..)`.
    RecordLotDisposals { cost_basis_removed: Dec, position_currency: String },
    /// `record_lot_closure(.., fully consumed lot at lot_index, .., position_currency, ..)`.
    RecordLotClosure { lot_index: usize, position_currency: String },
    /// Stage the removed lots for the paired TRANSFER_IN in the side-effect
    /// buffer.
    StageTransferCacheInsert { group_id: String },
    /// The activity is handled; the account's net contributions are now these.
    Finish { net_contribution: Dec, net_contribution_base: Dec },
    Fail { error: TransferError },
}

/// A collaborator's answer.
pub enum TransferEvent {
    Started,
    /// A call without a result was made.
    Done,
    /// The position exists; this is its currency.
    PositionReady { currency: String },
    /// The asset info found (`None`: not cached).
    AssetInfoFound { info: Option<AssetInfo> },
    TransferLotsPeeked { present: bool },
    /// Lots were added; `lot_sources[j]` is the source activity id of the
    /// position's `j`-th lot afterwards.
    LotsAdded { cost_basis: Dec, lot_sources: Vec<Option<String>> },
    EconomicsCompiled { lot_cost_basis_value: Dec },
    ConvertedToPosition { unit_price: Dec, fee: Dec, fx_rate: Option<Dec> },
    Amount { value: Dec },
    /// The FX conversion's result (`None`: it failed).
    FxConverted { result: Option<Dec> },
    /// The position to transfer out, as its currency and whether its
    /// quantity is negative (`None`: no such position).
    PositionFound { position: Option<(String, bool)> },
    LotsReduced { cost_basis_removed: Dec, removed_lots: usize, fully_consumed_lots: usize },
}

/// Whether the activity names no asset (`asset_id.unwrap_or("")` is empty):
/// a cash transfer.
pub open spec fn spec_is_cash_transfer(activity: TransferActivity) -> bool {
    match activity.asset_id {
        None => true,
        Some(id) => id@.len() == 0,
    }
}

pub fn is_cash_transfer(activity: &TransferActivity) -> (r: bool)
    ensures
        r == spec_is_cash_transfer(*activity),
{
    match &activity.asset_id {
        None => true,
        Some(id) => id.as_str().is_empty(),
    }
}

/// The asset id of an asset transfer.
pub open spec fn spec_asset_id(activity: TransferActivity) -> String {
    activity.asset_id->0
}

/// The asset id as text (`asset_id.unwrap_or("")`).
pub open spec fn spec_asset_id_chars(activity: TransferActivity) -> Seq<char> {
    match activity.asset_id {
        Some(id) => id@,
        None => Seq::empty(),
    }
}

/// The source group id as text, empty where there is none.
pub open spec fn spec_group_id_chars(activity: TransferActivity) -> Seq<char> {
    match activity.source_group_id {
        Some(g) => g@,
        None => Seq::empty(),
    }
}

/// The indices of the lots whose source activity is `activity_id`, in order.
pub open spec fn spec_added_lot_indices(sources: Seq<Option<String>>, activity_id: Seq<char>) -> Seq<usize>
    decreases sources.len(),
{
    if sources.len() == 0 {
        Seq::empty()
    } else {
        let rest = spec_added_lot_indices(sources.drop_last(), activity_id);
        if sources.last() is Some && sources.last()->0@ == activity_id {
            rest.push((sources.len() - 1) as usize)
        } else {
            rest
        }
    }
}

/// The indices of the position's lots that the activity added: those whose
/// source activity id is the activity's id.
pub fn added_lot_indices(sources: &Vec<Option<String>>, activity_id: &String) -> (r: Vec<usize>)
    ensures
        r@ == spec_added_lot_indices(sources@, activity_id@),
{
    let mut out: Vec<usize> = Vec::new();
    let n = sources.len();
    let mut i: usize = 0;
    assert(sources@.take(0) =~= Seq::<Option<String>>::empty());
    while i < n
        invariant
            n == sources@.len(),
            0 <= i <= n,
            out@ == spec_added_lot_indices(sources@.take(i as int), activity_id@),
        decreases n - i,
    {
        assert(sources@.take(i + 1).drop_last() =~= sources@.take(i as int));
        assert(sources@.take(i + 1).last() == sources@[i as int]);
        match &sources[i] {
            Some(id) => {
                if *id == *activity_id {
                    out.push(i);
                }
            },
            None => {},
        }
        i = i + 1;
    }
    assert(sources@.take(n as int) =~= sources@);
    out
}

/// The net contributions after adding `account` and `base` to them; `None`
/// where an addition overflows.
pub open spec fn spec_contributions_plus(ctx: TransferContext, account: Dec, base: Dec) -> Option<(Dec, Dec)> {
    match decimal_checked_add(ctx.net_contribution, account) {
        None => None,
        Some(a) => match decimal_checked_add(ctx.net_contribution_base, base) {
            None => None,
            Some(b) => Some((a, b)),
        },
    }
}

/// The `Finish` (or, on overflow, `Fail`) action after adding `account` and
/// `base` to the net contributions.
pub open spec fn spec_finish_plus(ctx: TransferContext, account: Dec, base: Dec) -> TransferAction {
    match spec_contributions_plus(ctx, account, base) {
        None => TransferAction::Fail { error: TransferError::Overflow },
        Some((a, b)) => TransferAction::Finish { net_contribution: a, net_contribution_base: b },
    }
}

pub fn finish_plus(ctx: &TransferContext, account: Dec, base: Dec) -> (r: TransferAction)
    ensures
        r == spec_finish_plus(*ctx, account, base),
{
    match ctx.net_contribution.checked_add(&account) {
        None => TransferAction::Fail { error: TransferError::Overflow },
        Some(a) => match ctx.net_contribution_base.checked_add(&base) {
            None => TransferAction::Fail { error: TransferError::Overflow },
            Some(b) => TransferAction::Finish { net_contribution: a, net_contribution_base: b },
        },
    }
}

} // verus!
