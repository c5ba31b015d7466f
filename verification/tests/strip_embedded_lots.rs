use rust_decimal::Decimal;
use storage_sqlite::decimal::Dec;
use storage_sqlite::migration::{
    MigrationAction, MigrationEvent, SnapshotRow, StripEmbeddedLotsMigration, EMBEDDED_LOTS_LIKE,
};
use storage_sqlite::position::{Lot, Position};
use storage_sqlite::writes::WriteStatement;

fn dec(mantissa: i128, scale: u32) -> Dec {
    Dec::from_mantissa(mantissa, scale).unwrap()
}

fn to_decimal(d: &Dec) -> Decimal {
    let mut x = Decimal::from_i128_with_scale(d.magnitude() as i128, d.scale());
    x.set_sign_negative(d.is_negative());
    x
}

fn lot(id: &str, date: &str, quantity: i128, cost_basis: i128, fx_scaled: i128) -> Lot {
    Lot {
        id: id.to_string(),
        position_id: "POS-EUSTX-acc1".to_string(),
        acquisition_date: date.to_string(),
        quantity: dec(quantity, 0),
        cost_basis: dec(cost_basis, 0),
        acquisition_price: dec(100, 0),
        acquisition_fees: dec(0, 0),
        fx_rate_to_position: None,
        fx_rate_to_account: Some(dec(fx_scaled, 1)),
        account_currency: Some("USD".to_string()),
        fx_rate_to_base: Some(dec(fx_scaled, 1)),
        base_currency: Some("USD".to_string()),
    }
}

/// The old-format EUR position of asset EUSTX with two cross-currency lots
/// carrying different stored acquisition FX rates to USD (1.1 and 1.3).
fn old_position() -> Position {
    Position {
        id: "POS-EUSTX-acc1".to_string(),
        account_id: "acc1".to_string(),
        asset_id: "EUSTX".to_string(),
        quantity: dec(15, 0),
        average_cost: dec(100, 0),
        total_cost_basis: dec(1500, 0),
        currency: "EUR".to_string(),
        inception_date: "2025-01-02T12:00:00Z".to_string(),
        lots: vec![
            lot("buy-1", "2025-01-02T12:00:00Z", 10, 1000, 11),
            lot("buy-2", "2025-03-02T12:00:00Z", 5, 500, 13),
        ],
        created_at: "2025-01-02T12:00:00Z".to_string(),
        last_updated: "2025-03-02T12:00:00Z".to_string(),
        cost_basis_account: None,
        cost_basis_base: None,
    }
}

fn old_row() -> SnapshotRow {
    SnapshotRow {
        id: "snap1".to_string(),
        account_id: "acc1".to_string(),
        positions: "{\"EUSTX\":{\"lots\":[{\"id\":\"buy-1\"}]}}".to_string(),
    }
}

/// The JSON a snapshot's positions are stored as: every field but the lots,
/// which are never written.
fn stored_json(positions: &[(String, Position)]) -> String {
    let mut root = serde_json::Map::new();
    for (key, p) in positions {
        let mut o = serde_json::Map::new();
        let text = |v: &str| serde_json::Value::String(v.to_string());
        let num = |v: &Dec| serde_json::Value::String(to_decimal(v).to_string());
        o.insert("id".to_string(), text(&p.id));
        o.insert("accountId".to_string(), text(&p.account_id));
        o.insert("assetId".to_string(), text(&p.asset_id));
        o.insert("quantity".to_string(), num(&p.quantity));
        o.insert("averageCost".to_string(), num(&p.average_cost));
        o.insert("totalCostBasis".to_string(), num(&p.total_cost_basis));
        o.insert("currency".to_string(), text(&p.currency));
        o.insert("inceptionDate".to_string(), text(&p.inception_date));
        o.insert("createdAt".to_string(), text(&p.created_at));
        o.insert("lastUpdated".to_string(), text(&p.last_updated));
        if let Some(v) = &p.cost_basis_account {
            o.insert("costBasisAccount".to_string(), num(v));
        }
        if let Some(v) = &p.cost_basis_base {
            o.insert("costBasisBase".to_string(), num(v));
        }
        root.insert(key.clone(), serde_json::Value::Object(o));
    }
    serde_json::Value::Object(root).to_string()
}

/// The rows the guard query selects: those whose positions JSON matches
/// `EMBEDDED_LOTS_LIKE`, i.e. contains `"lots":[{`.
fn guard_candidates(rows: &[SnapshotRow]) -> Vec<SnapshotRow> {
    rows.iter()
        .filter(|r| r.positions.contains("\"lots\":[{"))
        .map(|r| SnapshotRow { id: r.id.clone(), account_id: r.account_id.clone(), positions: r.positions.clone() })
        .collect()
}

fn step(m: &mut StripEmbeddedLotsMigration, e: MigrationEvent) -> MigrationAction {
    assert!(m.accepts(&e));
    m.step(e)
}

/// Drives a whole run over the old snapshot; returns the outcome and the
/// stripped positions that were handed to serialization.
fn run_over_old_snapshot() -> (storage_sqlite::migration::StripEmbeddedLotsOutcome, Vec<(String, Position)>, String) {
    let mut m = StripEmbeddedLotsMigration::new();
    assert!(matches!(step(&mut m, MigrationEvent::Started), MigrationAction::QueryCandidates));
    let candidates = guard_candidates(&[old_row()]);
    assert_eq!(candidates.len(), 1);
    let a = step(&mut m, MigrationEvent::CandidatesLoaded { rows: candidates });
    assert!(matches!(a, MigrationAction::CreateBackup));
    let a = step(&mut m, MigrationEvent::BackupCreated { path: "/data/backups/b1.db".to_string() });
    assert!(matches!(a, MigrationAction::FetchBaseCurrency));
    let a = step(&mut m, MigrationEvent::BaseCurrencyLoaded { first_row: Some("USD".to_string()) });
    match a {
        MigrationAction::FetchAccountCurrency { account_id } => assert_eq!(account_id, "acc1"),
        _ => panic!("expected the account currency to be read"),
    }
    let a = step(&mut m, MigrationEvent::AccountCurrencyLoaded { first_row: Some("USD".to_string()) });
    match a {
        MigrationAction::ParsePositions { snapshot_id, json } => {
            assert_eq!(snapshot_id, "snap1");
            assert_eq!(json, old_row().positions);
        }
        _ => panic!("expected the positions to be parsed"),
    }
    let a = step(
        &mut m,
        MigrationEvent::PositionsParsed { positions: Some(vec![("EUSTX".to_string(), old_position())]) },
    );
    let stripped = match a {
        MigrationAction::SerializePositions { snapshot_id, positions } => {
            assert_eq!(snapshot_id, "snap1");
            positions
        }
        _ => panic!("expected the stripped positions to be serialized"),
    };
    let json = stored_json(&stripped);
    let a = step(&mut m, MigrationEvent::PositionsSerialized { result: Ok(json.clone()) });
    let statements = match a {
        MigrationAction::WriteInTransaction { statements } => statements,
        _ => panic!("expected the write transaction"),
    };
    assert_eq!(statements.len(), 3);
    match &statements[0] {
        WriteStatement::SetCostBasisAccount { snapshot_id, asset_id, value } => {
            assert_eq!(snapshot_id, "snap1");
            assert_eq!(asset_id, "EUSTX");
            assert_eq!(to_decimal(value), Decimal::from(1750));
        }
        _ => panic!("expected the account scalar first"),
    }
    match &statements[1] {
        WriteStatement::SetCostBasisBase { snapshot_id, asset_id, value } => {
            assert_eq!(snapshot_id, "snap1");
            assert_eq!(asset_id, "EUSTX");
            assert_eq!(to_decimal(value), Decimal::from(1750));
        }
        _ => panic!("expected the base scalar second"),
    }
    match &statements[2] {
        WriteStatement::SetPositions { snapshot_id, positions_json } => {
            assert_eq!(snapshot_id, "snap1");
            assert_eq!(positions_json, &json);
        }
        _ => panic!("expected the positions rewrite last"),
    }
    let a = step(&mut m, MigrationEvent::Written { affected: vec![1, 1, 1] });
    assert!(matches!(a, MigrationAction::Vacuum));
    let outcome = match step(&mut m, MigrationEvent::Vacuumed) {
        MigrationAction::Finish { outcome } => outcome,
        _ => panic!("expected the run to finish"),
    };
    (outcome, stripped, json)
}

fn run_over_table(table: &[SnapshotRow]) -> (storage_sqlite::migration::StripEmbeddedLotsOutcome, bool) {
    let mut m = StripEmbeddedLotsMigration::new();
    let _ = step(&mut m, MigrationEvent::Started);
    let candidates = guard_candidates(table);
    assert!(candidates.is_empty());
    match step(&mut m, MigrationEvent::CandidatesLoaded { rows: candidates }) {
        MigrationAction::Finish { outcome } => (outcome, m.accepts(&MigrationEvent::BackupCreated { path: "x".to_string() })),
        _ => panic!("a run without candidates must finish at once"),
    }
}

#[test]
fn parity_backfills_cross_currency_without_collapsing() {
    let (outcome, stripped, json) = run_over_old_snapshot();
    assert!(outcome.needed);
    assert_eq!(outcome.snapshots_migrated, 1);
    assert_eq!(outcome.positions_backfilled, 1);
    assert!(outcome.vacuumed);
    assert!(outcome.backup_path.is_some());

    // 1000*1.1 + 500*1.3 = 1750; a valuation-date-FX collapse would give 2250.
    assert_eq!(stripped.len(), 1);
    let (key, pos) = &stripped[0];
    assert_eq!(key, "EUSTX");
    let base = to_decimal(pos.cost_basis_base.as_ref().expect("cost_basis_base backfilled"));
    let account = to_decimal(pos.cost_basis_account.as_ref().expect("cost_basis_account backfilled"));
    assert_eq!(base, Decimal::from(1750));
    assert_eq!(account, Decimal::from(1750));
    assert_ne!(base, Decimal::from(2250));
    assert!(pos.lots.is_empty(), "stripped positions must not embed lots");
    assert!(!json.contains("\"lots\":[{"), "stripped JSON must not embed lots, got: {json}");
    assert!(!json.contains("\"lots\""), "stripped JSON must omit the lots key entirely, got: {json}");
    assert_eq!(pos.id, "POS-EUSTX-acc1");
    assert_eq!(pos.currency, "EUR");
}

#[test]
fn idempotent_second_run_is_a_no_op() {
    let (first, _, json) = run_over_old_snapshot();
    assert!(first.needed);
    assert!(first.vacuumed);

    // The table after the first run: the snapshot holds the stripped JSON,
    // which no longer matches the guard, so the second run finds no
    // candidate.
    let table = vec![SnapshotRow { id: "snap1".to_string(), account_id: "acc1".to_string(), positions: json }];
    let (second, backup_requested) = run_over_table(&table);
    assert!(!second.needed, "second run must find no work");
    assert_eq!(second.snapshots_migrated, 0);
    assert_eq!(second.positions_backfilled, 0);
    assert!(!second.vacuumed, "second run must not vacuum");
    assert!(second.backup_path.is_none(), "second run must not back up");
    assert!(!backup_requested);
}

#[test]
fn noop_on_already_compact_db_skips_backup_and_vacuum() {
    let compact = SnapshotRow {
        id: "snapNew".to_string(),
        account_id: "acc1".to_string(),
        positions: "{\"EUSTX\":{\"id\":\"POS-EUSTX-acc1\",\"accountId\":\"acc1\",\"assetId\":\"EUSTX\",\"quantity\":\"15\",\"costBasisAccount\":\"1750\",\"costBasisBase\":\"1750\"}}".to_string(),
    };
    let (outcome, backup_requested) = run_over_table(&[compact]);
    assert!(!outcome.needed);
    assert!(!outcome.vacuumed);
    assert!(outcome.backup_path.is_none());
    assert!(!backup_requested, "no-op run must not create a backup");
}

#[test]
fn backup_failure_aborts_without_stripping() {
    let mut m = StripEmbeddedLotsMigration::new();
    let _ = step(&mut m, MigrationEvent::Started);
    let a = step(&mut m, MigrationEvent::CandidatesLoaded { rows: vec![old_row()] });
    assert!(matches!(a, MigrationAction::CreateBackup));
    // The backup failed: the driver stops here. Nothing but the backup's
    // success moves the run on; no write can be asked for.
    assert!(!m.accepts(&MigrationEvent::BaseCurrencyLoaded { first_row: None }));
    assert!(!m.accepts(&MigrationEvent::Written { affected: vec![] }));
    assert!(!m.accepts(&MigrationEvent::Vacuumed));
    assert!(!m.accepts(&MigrationEvent::PositionsParsed { positions: None }));
}

#[test]
fn guard_pattern_matches_embedded_lot_objects_only() {
    assert_eq!(EMBEDDED_LOTS_LIKE, "%\"lots\":[{%");
}

#[test]
fn unparseable_snapshot_is_skipped_and_nothing_is_vacuumed() {
    let mut m = StripEmbeddedLotsMigration::new();
    let _ = step(&mut m, MigrationEvent::Started);
    let _ = step(&mut m, MigrationEvent::CandidatesLoaded { rows: vec![old_row()] });
    let _ = step(&mut m, MigrationEvent::BackupCreated { path: "b".to_string() });
    let _ = step(&mut m, MigrationEvent::BaseCurrencyLoaded { first_row: None });
    let _ = step(&mut m, MigrationEvent::AccountCurrencyLoaded { first_row: None });
    let a = step(&mut m, MigrationEvent::PositionsParsed { positions: None });
    match a {
        MigrationAction::WriteInTransaction { statements } => assert!(statements.is_empty()),
        _ => panic!("expected an empty write"),
    }
    match step(&mut m, MigrationEvent::Written { affected: vec![] }) {
        MigrationAction::Finish { outcome } => {
            assert!(outcome.needed);
            assert_eq!(outcome.snapshots_migrated, 0);
            assert_eq!(outcome.positions_backfilled, 0);
            assert!(!outcome.vacuumed);
            assert_eq!(outcome.backup_path.as_deref(), Some("b"));
        }
        _ => panic!("expected the run to finish without vacuum"),
    }
}

#[test]
fn serialization_failure_fails_the_run_before_any_write() {
    let mut m = StripEmbeddedLotsMigration::new();
    let _ = step(&mut m, MigrationEvent::Started);
    let _ = step(&mut m, MigrationEvent::CandidatesLoaded { rows: vec![old_row()] });
    let _ = step(&mut m, MigrationEvent::BackupCreated { path: "b".to_string() });
    let _ = step(&mut m, MigrationEvent::BaseCurrencyLoaded { first_row: Some("USD".to_string()) });
    let _ = step(&mut m, MigrationEvent::AccountCurrencyLoaded { first_row: Some("USD".to_string()) });
    let _ = step(
        &mut m,
        MigrationEvent::PositionsParsed { positions: Some(vec![("EUSTX".to_string(), old_position())]) },
    );
    match step(&mut m, MigrationEvent::PositionsSerialized { result: Err("boom".to_string()) }) {
        MigrationAction::Fail { error: storage_sqlite::migration::MigrationError::Serialize { snapshot_id, message } } => {
            assert_eq!(snapshot_id, "snap1");
            assert_eq!(message, "boom");
        }
        _ => panic!("expected the run to fail"),
    }
    assert!(!m.accepts(&MigrationEvent::Written { affected: vec![] }));
}

#[test]
fn account_currency_is_read_once_per_account() {
    let mut m = StripEmbeddedLotsMigration::new();
    let row2 = SnapshotRow { id: "snap2".to_string(), account_id: "acc1".to_string(), positions: "{}".to_string() };
    let _ = step(&mut m, MigrationEvent::Started);
    let _ = step(&mut m, MigrationEvent::CandidatesLoaded { rows: vec![old_row(), row2] });
    let _ = step(&mut m, MigrationEvent::BackupCreated { path: "b".to_string() });
    let a = step(&mut m, MigrationEvent::BaseCurrencyLoaded { first_row: Some("USD".to_string()) });
    assert!(matches!(a, MigrationAction::FetchAccountCurrency { .. }));
    let _ = step(&mut m, MigrationEvent::AccountCurrencyLoaded { first_row: Some("USD".to_string()) });
    // The first snapshot has no lots: it is skipped, and the second snapshot,
    // of the same account, is parsed without reading the currency again.
    let mut no_lots = old_position();
    no_lots.lots = vec![];
    let a = step(&mut m, MigrationEvent::PositionsParsed { positions: Some(vec![("EUSTX".to_string(), no_lots)]) });
    match a {
        MigrationAction::ParsePositions { snapshot_id, .. } => assert_eq!(snapshot_id, "snap2"),
        _ => panic!("expected the second snapshot to be parsed at once"),
    }
}

#[test]
fn unknown_account_backfills_only_the_base_scalar_of_foreign_lots() {
    let mut m = StripEmbeddedLotsMigration::new();
    let _ = step(&mut m, MigrationEvent::Started);
    let _ = step(&mut m, MigrationEvent::CandidatesLoaded { rows: vec![old_row()] });
    let _ = step(&mut m, MigrationEvent::BackupCreated { path: "b".to_string() });
    let _ = step(&mut m, MigrationEvent::BaseCurrencyLoaded { first_row: Some("USD".to_string()) });
    // Unknown account: empty currency, for which no lot carries a rate.
    let _ = step(&mut m, MigrationEvent::AccountCurrencyLoaded { first_row: None });
    let _ = step(
        &mut m,
        MigrationEvent::PositionsParsed { positions: Some(vec![("EUSTX".to_string(), old_position())]) },
    );
    let a = step(&mut m, MigrationEvent::PositionsSerialized { result: Ok("{}".to_string()) });
    match a {
        MigrationAction::WriteInTransaction { statements } => {
            assert_eq!(statements.len(), 2);
            assert!(matches!(statements[0], WriteStatement::SetCostBasisBase { .. }));
            assert!(matches!(statements[1], WriteStatement::SetPositions { .. }));
        }
        _ => panic!("expected the write transaction"),
    }
    // The base scalar was already set: no row changed, nothing counts as
    // backfilled, but the snapshot was still rewritten.
    let a = step(&mut m, MigrationEvent::Written { affected: vec![0, 1] });
    assert!(matches!(a, MigrationAction::Vacuum));
    match step(&mut m, MigrationEvent::Vacuumed) {
        MigrationAction::Finish { outcome } => {
            assert_eq!(outcome.snapshots_migrated, 1);
            assert_eq!(outcome.positions_backfilled, 0);
            assert!(outcome.vacuumed);
        }
        _ => panic!("expected the run to finish"),
    }
}

#[test]
fn parsed_positions_must_have_distinct_keys() {
    let mut m = StripEmbeddedLotsMigration::new();
    let _ = step(&mut m, MigrationEvent::Started);
    let _ = step(&mut m, MigrationEvent::CandidatesLoaded { rows: vec![old_row()] });
    let _ = step(&mut m, MigrationEvent::BackupCreated { path: "b".to_string() });
    let _ = step(&mut m, MigrationEvent::BaseCurrencyLoaded { first_row: None });
    let _ = step(&mut m, MigrationEvent::AccountCurrencyLoaded { first_row: None });
    let dup = MigrationEvent::PositionsParsed {
        positions: Some(vec![("EUSTX".to_string(), old_position()), ("EUSTX".to_string(), old_position())]),
    };
    assert!(!m.accepts(&dup));
    let ok = MigrationEvent::PositionsParsed {
        positions: Some(vec![("EUSTX".to_string(), old_position()), ("OTHER".to_string(), old_position())]),
    };
    assert!(m.accepts(&ok));
    assert!(storage_sqlite::strip::keys_distinct(&vec![("A".to_string(), old_position()), ("B".to_string(), old_position())]));
}
