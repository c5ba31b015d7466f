use rust_decimal::Decimal;
use storage_sqlite::decimal::Dec;
use storage_sqlite::transfer_in::TransferIn;
use storage_sqlite::transfer_out::TransferOut;
use storage_sqlite::transfers::{
    added_lot_indices, AssetInfo, LotSet, TransferAction, TransferActivity, TransferContext, TransferError,
    TransferEvent,
};

fn dec(mantissa: i128, scale: u32) -> Dec {
    Dec::from_mantissa(mantissa, scale).unwrap()
}

fn d(x: &Dec) -> Decimal {
    let mut v = Decimal::from_i128_with_scale(x.magnitude() as i128, x.scale());
    v.set_sign_negative(x.is_negative());
    v
}

fn activity(asset: Option<&str>, group: Option<&str>, amount: i128, fee: i128, qty: i128) -> TransferActivity {
    TransferActivity {
        id: "act1".to_string(),
        currency: "USD".to_string(),
        amount: dec(amount, 0),
        fee: dec(fee, 0),
        quantity: dec(qty, 0),
        asset_id: asset.map(|s| s.to_string()),
        source_group_id: group.map(|s| s.to_string()),
    }
}

fn ctx() -> TransferContext {
    TransferContext {
        account_currency: "CAD".to_string(),
        base_currency: "EUR".to_string(),
        net_contribution: dec(100, 0),
        net_contribution_base: dec(50, 0),
    }
}

fn step_in(t: &mut TransferIn, e: TransferEvent) -> TransferAction {
    assert!(t.accepts(&e));
    t.step(e)
}

fn step_out(t: &mut TransferOut, e: TransferEvent) -> TransferAction {
    assert!(t.accepts(&e));
    t.step(e)
}

fn finish(a: TransferAction) -> (Decimal, Decimal) {
    match a {
        TransferAction::Finish { net_contribution, net_contribution_base } => (d(&net_contribution), d(&net_contribution_base)),
        _ => panic!("expected the handler to finish"),
    }
}

#[test]
fn transfer_in_cash_books_net_inflow_and_contributions() {
    let mut t = TransferIn::new(activity(None, None, 1000, 10, 0), ctx());
    match step_in(&mut t, TransferEvent::Started) {
        TransferAction::AddCash { currency, amount } => {
            assert_eq!(currency, "USD");
            assert_eq!(d(&amount), Decimal::from(990));
        }
        _ => panic!("expected cash to be booked"),
    }
    match step_in(&mut t, TransferEvent::Done) {
        TransferAction::ConvertToAccountCurrency { amount } => assert_eq!(d(&amount), Decimal::from(1000)),
        _ => panic!("expected the account conversion"),
    }
    match step_in(&mut t, TransferEvent::Amount { value: dec(1300, 0) }) {
        TransferAction::ConvertCurrencyForDate { amount, from, to } => {
            assert_eq!(d(&amount), Decimal::from(1000));
            assert_eq!(from, "USD");
            assert_eq!(to, "EUR");
        }
        _ => panic!("expected the base conversion"),
    }
    let (nc, ncb) = finish(step_in(&mut t, TransferEvent::FxConverted { result: Some(dec(900, 0)) }));
    assert_eq!(nc, Decimal::from(1400));
    assert_eq!(ncb, Decimal::from(950));
}

#[test]
fn transfer_in_cash_failed_base_conversion_counts_zero() {
    let mut t = TransferIn::new(activity(Some(""), None, 1000, 0, 0), ctx());
    let _ = step_in(&mut t, TransferEvent::Started);
    let _ = step_in(&mut t, TransferEvent::Done);
    let _ = step_in(&mut t, TransferEvent::Amount { value: dec(1300, 0) });
    let (nc, ncb) = finish(step_in(&mut t, TransferEvent::FxConverted { result: None }));
    assert_eq!(nc, Decimal::from(1400));
    assert_eq!(ncb, Decimal::from(50));
}

#[test]
fn transfer_in_asset_uses_cached_lots_of_the_paired_transfer_out() {
    let mut t = TransferIn::new(activity(Some("AAPL"), Some("g1"), 0, 5, 10), ctx());
    match step_in(&mut t, TransferEvent::Started) {
        TransferAction::GetOrCreatePosition { asset_id, currency } => {
            assert_eq!(asset_id, "AAPL");
            assert_eq!(currency, "USD");
        }
        _ => panic!("expected the position"),
    }
    assert!(matches!(step_in(&mut t, TransferEvent::PositionReady { currency: "USD".to_string() }),
        TransferAction::LookupAssetInfo { .. }));
    let info = AssetInfo { allows_negative_lots: true, contract_multiplier: dec(1, 0) };
    match step_in(&mut t, TransferEvent::AssetInfoFound { info: Some(info) }) {
        TransferAction::PeekTransferLots { group_id } => assert_eq!(group_id, "g1"),
        _ => panic!("expected the cached lots to be looked up"),
    }
    match step_in(&mut t, TransferEvent::TransferLotsPeeked { present: true }) {
        TransferAction::StageTransferCacheRemoval { group_id } => assert_eq!(group_id, "g1"),
        _ => panic!("expected the cache removal to be staged"),
    }
    assert!(matches!(step_in(&mut t, TransferEvent::Done),
        TransferAction::AddTransferredLots { allows_negative_lots: true }));
    let sources = vec![Some("old".to_string()), Some("act1".to_string()), None, Some("act1".to_string())];
    match step_in(&mut t, TransferEvent::LotsAdded { cost_basis: dec(2000, 0), lot_sources: sources }) {
        TransferAction::AddCash { currency, amount } => {
            assert_eq!(currency, "USD");
            assert_eq!(d(&amount), Decimal::from(-5));
        }
        _ => panic!("expected the fee to be booked"),
    }
    match step_in(&mut t, TransferEvent::Done) {
        TransferAction::LotsCostBasisInCurrency { lots: LotSet::AddedByActivity { indices }, from, to } => {
            assert_eq!(indices, vec![1, 3]);
            assert_eq!(from, "USD");
            assert_eq!(to, "CAD");
        }
        _ => panic!("expected the added lots to be converted"),
    }
    match step_in(&mut t, TransferEvent::Amount { value: dec(2600, 0) }) {
        TransferAction::LotsCostBasisInCurrency { lots: LotSet::AddedByActivity { indices }, to, .. } => {
            assert_eq!(indices, vec![1, 3]);
            assert_eq!(to, "EUR");
        }
        _ => panic!("expected the added lots to be converted to base"),
    }
    let (nc, ncb) = finish(step_in(&mut t, TransferEvent::Amount { value: dec(1800, 0) }));
    assert_eq!(nc, Decimal::from(2700));
    assert_eq!(ncb, Decimal::from(1850));
}

#[test]
fn transfer_in_asset_without_cached_lots_prices_a_converted_lot() {
    let mut t = TransferIn::new(activity(Some("SHOP"), None, 0, 3, 4), ctx());
    let _ = step_in(&mut t, TransferEvent::Started);
    let _ = step_in(&mut t, TransferEvent::PositionReady { currency: "CAD".to_string() });
    match step_in(&mut t, TransferEvent::AssetInfoFound { info: None }) {
        TransferAction::FallbackAssetInfo { currency } => assert_eq!(currency, "USD"),
        _ => panic!("expected the fallback info"),
    }
    let info = AssetInfo { allows_negative_lots: false, contract_multiplier: dec(1, 0) };
    assert!(matches!(step_in(&mut t, TransferEvent::AssetInfoFound { info: Some(info) }),
        TransferAction::CompileEconomics { .. }));
    match step_in(&mut t, TransferEvent::EconomicsCompiled { lot_cost_basis_value: dec(100, 0) }) {
        TransferAction::ConvertToPositionCurrency { unit_price, fee, position_currency } => {
            assert_eq!(d(&unit_price), Decimal::from(25));
            assert_eq!(d(&fee), Decimal::from(3));
            assert_eq!(position_currency, "CAD");
        }
        _ => panic!("expected the price to be converted"),
    }
    match step_in(&mut t, TransferEvent::ConvertedToPosition { unit_price: dec(34, 0), fee: dec(4, 0), fx_rate: Some(dec(136, 2)) }) {
        TransferAction::AddLotValues {
            lot_id,
            quantity,
            unit_price,
            fee,
            fx_rate,
            source_activity_id,
            book_basis_position_currency,
            book_basis_account_currency,
        } => {
            assert_eq!(lot_id, "act1");
            assert_eq!(source_activity_id, "act1");
            assert_eq!(book_basis_position_currency, "CAD");
            assert_eq!(book_basis_account_currency, "CAD");
            assert_eq!(d(&quantity), Decimal::from(4));
            assert_eq!(d(&unit_price), Decimal::from(34));
            assert_eq!(d(&fee), Decimal::from(4));
            assert_eq!(d(&fx_rate.unwrap()), Decimal::new(136, 2));
        }
        _ => panic!("expected the lot to be added"),
    }
    // The lot was not tagged with the activity: amounts go through the
    // position-amount conversions, and a failed base conversion keeps the
    // unconverted cost basis.
    let _ = step_in(&mut t, TransferEvent::LotsAdded { cost_basis: dec(140, 0), lot_sources: vec![] });
    match step_in(&mut t, TransferEvent::Done) {
        TransferAction::ConvertPositionAmountToAccountCurrency { amount, position_currency } => {
            assert_eq!(d(&amount), Decimal::from(140));
            assert_eq!(position_currency, "CAD");
        }
        _ => panic!("expected the position amount conversion"),
    }
    assert!(matches!(step_in(&mut t, TransferEvent::Amount { value: dec(140, 0) }),
        TransferAction::ConvertCurrencyForDate { .. }));
    let (nc, ncb) = finish(step_in(&mut t, TransferEvent::FxConverted { result: None }));
    assert_eq!(nc, Decimal::from(240));
    assert_eq!(ncb, Decimal::from(190));
}

#[test]
fn transfer_in_zero_quantity_prices_at_zero() {
    let mut t = TransferIn::new(activity(Some("X"), None, 0, 0, 0), ctx());
    let _ = step_in(&mut t, TransferEvent::Started);
    let _ = step_in(&mut t, TransferEvent::PositionReady { currency: "USD".to_string() });
    let info = AssetInfo { allows_negative_lots: false, contract_multiplier: dec(1, 0) };
    let _ = step_in(&mut t, TransferEvent::AssetInfoFound { info: Some(info) });
    match step_in(&mut t, TransferEvent::EconomicsCompiled { lot_cost_basis_value: dec(100, 0) }) {
        TransferAction::AddLotValues { unit_price, fx_rate, .. } => {
            assert!(unit_price.is_zero());
            assert!(fx_rate.is_none());
        }
        _ => panic!("expected the lot to be added without conversion"),
    }
}

#[test]
fn transfer_in_overflow_fails() {
    let max = Dec::from_parts(true, 0xFFFF_FFFF_FFFF_FFFF_FFFF_FFFF, 0).unwrap();
    let mut a = activity(None, None, 0, 1, 0);
    a.amount = max;
    let mut t = TransferIn::new(a, ctx());
    assert!(matches!(step_in(&mut t, TransferEvent::Started), TransferAction::Fail { error: TransferError::Overflow }));
}

#[test]
fn transfer_out_cash_books_negative_outflow() {
    // Positive or negative amount: the outflow is always negative.
    for amount in [1000i128, -1000] {
        let mut t = TransferOut::new(activity(None, None, amount, 10, 0), ctx());
        match step_out(&mut t, TransferEvent::Started) {
            TransferAction::AddCash { amount, .. } => assert_eq!(d(&amount), Decimal::from(-1010)),
            _ => panic!("expected cash to be booked"),
        }
        match step_out(&mut t, TransferEvent::Done) {
            TransferAction::ConvertToAccountCurrency { amount } => assert_eq!(d(&amount), Decimal::from(-1000)),
            _ => panic!("expected the account conversion"),
        }
        let _ = step_out(&mut t, TransferEvent::Amount { value: dec(-1300, 0) });
        let (nc, ncb) = finish(step_out(&mut t, TransferEvent::FxConverted { result: None }));
        assert_eq!(nc, Decimal::from(-1200));
        assert_eq!(ncb, Decimal::from(50));
    }
}

#[test]
fn transfer_out_asset_removes_cost_basis_and_stages_lots() {
    let mut t = TransferOut::new(activity(Some("AAPL"), Some("g1"), 0, 5, 10), ctx());
    match step_out(&mut t, TransferEvent::Started) {
        TransferAction::AddCash { amount, .. } => assert_eq!(d(&amount), Decimal::from(-5)),
        _ => panic!("expected the fee to be booked"),
    }
    match step_out(&mut t, TransferEvent::Done) {
        TransferAction::LookupPosition { asset_id } => assert_eq!(asset_id, "AAPL"),
        _ => panic!("expected the position lookup"),
    }
    match step_out(&mut t, TransferEvent::PositionFound { position: Some(("USD".to_string(), true)) }) {
        TransferAction::ReduceLots { quantity, negative_lots } => {
            assert_eq!(d(&quantity), Decimal::from(10));
            assert!(negative_lots);
        }
        _ => panic!("expected the lots to be reduced"),
    }
    assert!(matches!(
        step_out(&mut t, TransferEvent::LotsReduced { cost_basis_removed: dec(1500, 0), removed_lots: 2, fully_consumed_lots: 2 }),
        TransferAction::RecordLotDisposals { .. }
    ));
    assert!(matches!(step_out(&mut t, TransferEvent::Done), TransferAction::RecordLotClosure { lot_index: 0, .. }));
    assert!(matches!(step_out(&mut t, TransferEvent::Done), TransferAction::RecordLotClosure { lot_index: 1, .. }));
    match step_out(&mut t, TransferEvent::Done) {
        TransferAction::LotsCostBasisInCurrency { lots: LotSet::Removed, from, to } => {
            assert_eq!(from, "USD");
            assert_eq!(to, "CAD");
        }
        _ => panic!("expected the removed lots to be converted"),
    }
    assert!(matches!(step_out(&mut t, TransferEvent::Amount { value: dec(60, 0) }),
        TransferAction::LotsCostBasisInCurrency { lots: LotSet::Removed, .. }));
    match step_out(&mut t, TransferEvent::Amount { value: dec(20, 0) }) {
        TransferAction::StageTransferCacheInsert { group_id } => assert_eq!(group_id, "g1"),
        _ => panic!("expected the removed lots to be staged"),
    }
    let (nc, ncb) = finish(step_out(&mut t, TransferEvent::Done));
    assert_eq!(nc, Decimal::from(40));
    assert_eq!(ncb, Decimal::from(30));
}

#[test]
fn transfer_out_of_missing_position_applies_the_fee_only() {
    let mut t = TransferOut::new(activity(Some("NOPE"), Some("g1"), 0, 5, 10), ctx());
    let _ = step_out(&mut t, TransferEvent::Started);
    let _ = step_out(&mut t, TransferEvent::Done);
    let (nc, ncb) = finish(step_out(&mut t, TransferEvent::PositionFound { position: None }));
    assert_eq!(nc, Decimal::from(100));
    assert_eq!(ncb, Decimal::from(50));
}

#[test]
fn transfer_out_without_currency_or_removal_keeps_contributions() {
    let mut t = TransferOut::new(activity(Some("AAPL"), None, 0, 0, 1), ctx());
    let _ = step_out(&mut t, TransferEvent::Started);
    let _ = step_out(&mut t, TransferEvent::Done);
    let _ = step_out(&mut t, TransferEvent::PositionFound { position: Some((String::new(), false)) });
    let _ = step_out(&mut t, TransferEvent::LotsReduced { cost_basis_removed: dec(10, 0), removed_lots: 1, fully_consumed_lots: 0 });
    let (nc, ncb) = finish(step_out(&mut t, TransferEvent::Done));
    assert_eq!(nc, Decimal::from(100));
    assert_eq!(ncb, Decimal::from(50));
}

#[test]
fn added_lots_are_those_sourced_by_the_activity() {
    let sources = vec![None, Some("a".to_string()), Some("b".to_string()), Some("a".to_string())];
    assert_eq!(added_lot_indices(&sources, &"a".to_string()), vec![1, 3]);
    assert!(added_lot_indices(&sources, &"c".to_string()).is_empty());
}
