use rust_decimal::Decimal;
use storage_sqlite::currency::{account_currency_or_default, base_currency_or_default, AccountCurrencyCache};
use storage_sqlite::decimal::Dec;
use storage_sqlite::position::{compute_position_cost_basis_from_lots, identity_fx_rate, Lot, Position};
use storage_sqlite::strip::{strip_embedded_lots, PositionBackfill};
use storage_sqlite::writes::{tally_writes, write_statements, SnapshotPlan, WriteStatement};

fn dec(mantissa: i128, scale: u32) -> Dec {
    Dec::from_mantissa(mantissa, scale).unwrap()
}

fn to_decimal(d: &Dec) -> Decimal {
    let mut x = Decimal::from_i128_with_scale(d.magnitude() as i128, d.scale());
    x.set_sign_negative(d.is_negative());
    x
}

fn lot(cost_basis: Dec, account: Option<(&str, Dec)>, base: Option<(&str, Dec)>) -> Lot {
    Lot {
        id: "lot".to_string(),
        position_id: "pos".to_string(),
        acquisition_date: "2025-01-02T12:00:00Z".to_string(),
        quantity: dec(1, 0),
        cost_basis,
        acquisition_price: cost_basis,
        acquisition_fees: dec(0, 0),
        fx_rate_to_position: None,
        fx_rate_to_account: account.map(|a| a.1),
        account_currency: account.map(|a| a.0.to_string()),
        fx_rate_to_base: base.map(|b| b.1),
        base_currency: base.map(|b| b.0.to_string()),
    }
}

fn position(account_id: &str, currency: &str, lots: Vec<Lot>) -> Position {
    Position {
        id: "pos".to_string(),
        account_id: account_id.to_string(),
        asset_id: "AAA".to_string(),
        quantity: dec(1, 0),
        average_cost: dec(1, 0),
        total_cost_basis: dec(1, 0),
        currency: currency.to_string(),
        inception_date: "2025-01-02T12:00:00Z".to_string(),
        lots,
        created_at: "2025-01-02T12:00:00Z".to_string(),
        last_updated: "2025-01-02T12:00:00Z".to_string(),
        cost_basis_account: None,
        cost_basis_base: None,
    }
}

#[test]
fn checked_arithmetic_matches_rust_decimal() {
    let a = dec(11, 1);
    let b = dec(1000, 0);
    let p = a.checked_mul(&b).unwrap();
    assert_eq!(to_decimal(&p), Decimal::new(1100, 0));
    let s = p.checked_add(&dec(650, 0)).unwrap();
    assert_eq!(to_decimal(&s), Decimal::from(1750));
    let d = s.checked_sub(&dec(1750, 0)).unwrap();
    assert!(d.is_zero());
    let q = dec(10, 0).checked_div(&dec(4, 0)).unwrap();
    assert_eq!(to_decimal(&q), Decimal::new(25, 1));
    assert!(dec(1, 0).checked_div(&dec(0, 0)).is_none());
    let max = Dec::from_parts(false, 0xFFFF_FFFF_FFFF_FFFF_FFFF_FFFF, 0).unwrap();
    assert!(max.checked_add(&dec(1, 0)).is_none());
    assert!(max.checked_mul(&dec(2, 0)).is_none());
}

#[test]
fn decimal_parts_are_validated() {
    assert!(Dec::from_parts(false, 1u128 << 96, 0).is_none());
    assert!(Dec::from_parts(false, 1, 29).is_none());
    assert!(Dec::from_mantissa(-5, 28).is_some());
    let n = dec(-25, 1);
    assert!(n.is_negative());
    assert_eq!(n.magnitude(), 25);
    assert_eq!(n.scale(), 1);
    assert!(!n.abs().is_negative());
    assert!(!n.neg().is_negative());
    assert!(n.abs().neg().is_negative());
}

#[test]
fn identity_fx_is_one_between_equal_currencies_only() {
    let one = identity_fx_rate("USD", "USD").unwrap();
    assert_eq!(to_decimal(&one), Decimal::ONE);
    assert!(identity_fx_rate("EUR", "USD").is_none());
}

#[test]
fn stored_rate_prefers_the_account_rate_then_the_base_rate() {
    let l = lot(dec(100, 0), Some(("CAD", dec(13, 1))), Some(("USD", dec(11, 1))));
    assert_eq!(to_decimal(&l.stored_fx_rate_to("CAD").unwrap()), Decimal::new(13, 1));
    assert_eq!(to_decimal(&l.stored_fx_rate_to("USD").unwrap()), Decimal::new(11, 1));
    assert!(l.stored_fx_rate_to("GBP").is_none());
}

#[test]
fn cost_basis_sums_each_lot_at_its_stored_rate() {
    let p = position(
        "acc1",
        "EUR",
        vec![
            lot(dec(1000, 0), Some(("USD", dec(11, 1))), None),
            lot(dec(500, 0), Some(("USD", dec(13, 1))), None),
        ],
    );
    assert_eq!(to_decimal(&compute_position_cost_basis_from_lots(&p, "USD").unwrap()), Decimal::from(1750));
    // Same currency: rate one.
    assert_eq!(to_decimal(&compute_position_cost_basis_from_lots(&p, "EUR").unwrap()), Decimal::from(1500));
    // No stored rate and no identity: not derivable offline.
    assert!(compute_position_cost_basis_from_lots(&p, "GBP").is_none());
    // No lots: zero.
    let empty = position("acc1", "EUR", vec![]);
    assert!(compute_position_cost_basis_from_lots(&empty, "USD").unwrap().is_zero());
}

#[test]
fn strip_fills_account_ids_and_drops_lots_only_where_present() {
    let with_lots = position("", "USD", vec![lot(dec(10, 0), None, None)]);
    let without = position("acc9", "USD", vec![]);
    let (out, backfills) = strip_embedded_lots(
        vec![("A".to_string(), with_lots), ("B".to_string(), without)],
        &"acc1".to_string(),
        "USD",
        "USD",
    );
    assert_eq!(out.len(), 2);
    assert_eq!(out[0].0, "A");
    assert_eq!(out[0].1.account_id, "acc1");
    assert!(out[0].1.lots.is_empty());
    assert_eq!(to_decimal(out[0].1.cost_basis_base.as_ref().unwrap()), Decimal::from(10));
    assert_eq!(out[1].0, "B");
    assert_eq!(out[1].1.account_id, "acc9");
    assert!(out[1].1.cost_basis_base.is_none());
    assert_eq!(backfills.len(), 1);
    assert_eq!(backfills[0].asset_id, "AAA");
}

#[test]
fn statements_and_tally_follow_the_plans() {
    let plans = vec![
        SnapshotPlan {
            id: "s1".to_string(),
            stripped_json: "{}".to_string(),
            backfills: vec![
                PositionBackfill { asset_id: "A".to_string(), cost_basis_account: Some(dec(1, 0)), cost_basis_base: None },
                PositionBackfill { asset_id: "B".to_string(), cost_basis_account: None, cost_basis_base: None },
                PositionBackfill { asset_id: "C".to_string(), cost_basis_account: Some(dec(2, 0)), cost_basis_base: Some(dec(3, 0)) },
            ],
        },
        SnapshotPlan { id: "s2".to_string(), stripped_json: "[]".to_string(), backfills: vec![] },
    ];
    let statements = write_statements(&plans);
    assert_eq!(statements.len(), 5);
    assert!(matches!(&statements[0], WriteStatement::SetCostBasisAccount { asset_id, .. } if asset_id == "A"));
    assert!(matches!(&statements[1], WriteStatement::SetCostBasisAccount { asset_id, .. } if asset_id == "C"));
    assert!(matches!(&statements[2], WriteStatement::SetCostBasisBase { asset_id, .. } if asset_id == "C"));
    assert!(matches!(&statements[3], WriteStatement::SetPositions { snapshot_id, .. } if snapshot_id == "s1"));
    assert!(matches!(&statements[4], WriteStatement::SetPositions { snapshot_id, .. } if snapshot_id == "s2"));
    assert_eq!(tally_writes(&plans, &vec![1, 0, 1, 1, 1]), (2, 2));
    assert_eq!(tally_writes(&plans, &vec![0, 0, 0, 1, 1]), (2, 0));
    assert_eq!(tally_writes(&plans, &vec![0, 2, 0, 1, 1]), (2, 1));
}

#[test]
fn currency_defaults() {
    assert_eq!(base_currency_or_default(None), "USD");
    assert_eq!(base_currency_or_default(Some("CHF".to_string())), "CHF");
    assert_eq!(account_currency_or_default(None), "");
    assert_eq!(account_currency_or_default(Some("EUR".to_string())), "EUR");
}

#[test]
fn currency_cache_reads_back_what_was_stored() {
    let mut c = AccountCurrencyCache::new();
    assert!(c.get(&"acc1".to_string()).is_none());
    c.insert("acc1".to_string(), "EUR".to_string());
    c.insert("acc2".to_string(), "USD".to_string());
    assert_eq!(c.get(&"acc1".to_string()).as_deref(), Some("EUR"));
    assert_eq!(c.get(&"acc2".to_string()).as_deref(), Some("USD"));
    assert!(c.get(&"acc3".to_string()).is_none());
}
