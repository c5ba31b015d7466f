//! The one-time startup migration that strips embedded tax lots out of
//! `holdings_snapshots.positions` and backfills the cost-basis scalars of
//! `snapshot_positions`, as a state machine.
//!
//! The machine decides; its driver performs each action (a query, the backup,
//! JSON parsing and serialisation, the write transaction, `VACUUM`) and hands
//! the result back as the next event. Any error of an action aborts the run
//! in the driver, which then never reports it back. The order is: guard (no
//! candidate snapshot: nothing at all happens), backup, backfill and strip
//! planned offline, one write transaction, `VACUUM` only when a snapshot was
//! rewritten.
use vstd::prelude::*;

use crate::currency::{AccountCurrencyCache, base_currency_or_default, account_currency_or_default};
use crate::position::Position;
use crate::strip::{PositionBackfill, keys_distinct, spec_backfills, spec_keys_distinct, spec_stripped, strip_embedded_lots};
use crate::writes::{
    SnapshotPlan,
    WriteStatement,
    spec_plans_statements,
    spec_positions_backfilled,
    spec_total_backfills,
    lemma_positions_backfilled_bound,
    tally_writes,
    write_statements,
};

verus! {

/// LIKE pattern matching a `positions` JSON blob that still embeds at least
/// one lot object (`"lots":[{`). Compact writes omit the `lots` key entirely,
/// and a position with no lots serializes `"lots":[]`; neither matches.
pub const EMBEDDED_LOTS_LIKE: &'static str = "%\"lots\":[{%";

/// A `holdings_snapshots` row whose positions JSON still embeds lots.
pub struct SnapshotRow {
    pub id: String,
    pub account_id: String,
    pub positions: String,
}

/// Outcome of a lot-strip migration run.
#[derive(Debug, Clone)]
pub struct StripEmbeddedLotsOutcome {
    /// Whether the migration found work to do. `false` means a pure no-op run
    /// (no backup, no writes, no vacuum).
    pub needed: bool,
    /// Number of `holdings_snapshots` rows whose `positions` JSON was stripped.
    pub snapshots_migrated: usize,
    /// Number of `snapshot_positions` rows that had at least one cost-basis
    /// scalar backfilled from `NULL`.
    pub positions_backfilled: usize,
    /// Path to the backup created before the destructive write, if any.
    pub backup_path: Option<String>,
    /// Whether `VACUUM` ran (only when at least one snapshot was migrated).
    pub vacuumed: bool,
}

/// The outcome of a run that found nothing to do.
pub open spec fn spec_no_op_outcome() -> StripEmbeddedLotsOutcome {
    StripEmbeddedLotsOutcome {
        needed: false,
        snapshots_migrated: 0,
        positions_backfilled: 0,
        backup_path: None,
        vacuumed: false,
    }
}

impl Default for StripEmbeddedLotsOutcome {
    fn default() -> (r: StripEmbeddedLotsOutcome)
        ensures
            r == spec_no_op_outcome(),
    {
        StripEmbeddedLotsOutcome {
            needed: false,
            snapshots_migrated: 0,
            positions_backfilled: 0,
            backup_path: None,
            vacuumed: false,
        }
    }
}

/// Why a migration run stopped without finishing.
pub enum MigrationError {
    /// The stripped positions of a snapshot could not be serialized again.
    Serialize { snapshot_id: String, message: String },
}

/// What the driver is to do next.
pub enum MigrationAction {
    /// Load the snapshots whose positions JSON matches
    /// [`EMBEDDED_LOTS_LIKE`].
    QueryCandidates,
    /// Back the database up; a failure aborts the run.
    CreateBackup,
    /// Read the `base_currency` setting.
    FetchBaseCurrency,
    /// Read the currency of an account.
    FetchAccountCurrency { account_id: String },
    /// Parse a snapshot's positions JSON into positions keyed by asset.
    ParsePositions { snapshot_id: String, json: String },
    /// Serialize a snapshot's stripped positions.
    SerializePositions { snapshot_id: String, positions: Vec<(String, Position)> },
    /// Run these statements, in order, in one transaction, and report the
    /// affected-row count of each.
    WriteInTransaction { statements: Vec<WriteStatement> },
    /// Run `VACUUM` (outside the transaction).
    Vacuum,
    /// The run is over.
    Finish { outcome: StripEmbeddedLotsOutcome },
    /// The run is over without writing anything.
    Fail { error: MigrationError },
}

/// The result of the last action, handed back to the machine.
pub enum MigrationEvent {
    Started,
    CandidatesLoaded { rows: Vec<SnapshotRow> },
    BackupCreated { path: String },
    /// The value of the first row of the setting query, if there was one.
    BaseCurrencyLoaded { first_row: Option<String> },
    /// The value of the first row of the account query, if there was one.
    AccountCurrencyLoaded { first_row: Option<String> },
    /// The parsed positions, or `None` where the JSON did not parse.
    PositionsParsed { positions: Option<Vec<(String, Position)>> },
    /// The serialized JSON, or the serializer's error message.
    PositionsSerialized { result: Result<String, String> },
    /// The affected-row count of each statement written.
    Written { affected: Vec<usize> },
    Vacuumed,
}

/// Where the machine is.
#[derive(Clone, Copy)]
pub enum MigrationPhase {
    Idle,
    AwaitCandidates,
    AwaitBackup,
    AwaitBaseCurrency,
    AwaitAccountCurrency,
    AwaitParse,
    AwaitSerialize,
    AwaitWrite,
    AwaitVacuum,
    Done,
}

/// The abstract state of a migration run.
#[verifier::ext_equal]
pub struct MigrationState {
    pub phase: MigrationPhase,
    /// The candidate snapshots.
    pub rows: Seq<SnapshotRow>,
    /// Index of the candidate being planned.
    pub next: nat,
    pub backup_path: Option<String>,
    pub base_currency: Seq<char>,
    /// Account currencies read so far.
    pub account_currencies: Map<Seq<char>, Seq<char>>,
    /// Currency of the account of the candidate being planned.
    pub account_currency: Seq<char>,
    /// The plan of the candidate being planned, awaiting its JSON.
    pub pending_plan: Option<SnapshotPlan>,
    /// The plans of the snapshots to rewrite, in candidate order.
    pub plans: Seq<SnapshotPlan>,
    pub statement_count: nat,
    pub snapshots_migrated: nat,
    pub positions_backfilled: nat,
}

pub open spec fn spec_needs_row(phase: MigrationPhase) -> bool {
    phase == MigrationPhase::AwaitAccountCurrency || phase == MigrationPhase::AwaitParse || phase
        == MigrationPhase::AwaitSerialize
}

pub open spec fn spec_after_backup(phase: MigrationPhase) -> bool {
    spec_needs_row(phase) || phase == MigrationPhase::AwaitBaseCurrency || phase
        == MigrationPhase::AwaitWrite || phase == MigrationPhase::AwaitVacuum
}

impl MigrationState {
    /// The states a run can be in.
    pub open spec fn wf(self) -> bool {
        &&& self.next <= self.rows.len()
        &&& spec_needs_row(self.phase) ==> self.next < self.rows.len()
        &&& self.phase == MigrationPhase::AwaitAccountCurrency
            ==> !self.account_currencies.contains_key(self.rows[self.next as int].account_id@)
        &&& spec_after_backup(self.phase) ==> self.backup_path is Some
        &&& (spec_after_backup(self.phase) || self.phase == MigrationPhase::AwaitBackup)
            ==> self.rows.len() > 0
        &&& (self.phase == MigrationPhase::Idle || self.phase == MigrationPhase::AwaitCandidates
            || self.phase == MigrationPhase::AwaitBackup) ==> self.backup_path is None
        &&& (self.phase == MigrationPhase::AwaitSerialize) == (self.pending_plan is Some)
        &&& self.pending_plan matches Some(p) ==> p.backfills@.len() > 0
        &&& spec_plans_embed_lots(self.plans)
        &&& self.plans.len() <= usize::MAX
        &&& self.phase == MigrationPhase::AwaitWrite ==> self.statement_count == spec_plans_statements(
            self.plans,
        ).len()
        &&& self.phase == MigrationPhase::AwaitVacuum ==> {
            &&& self.snapshots_migrated == self.plans.len()
            &&& self.plans.len() > 0
            &&& self.positions_backfilled <= spec_total_backfills(self.plans)
        }
    }

    /// The candidate being planned.
    pub open spec fn row(self) -> SnapshotRow {
        self.rows[self.next as int]
    }
}

/// Every plan rewrites a snapshot that embedded at least one lot.
pub open spec fn spec_plans_embed_lots(plans: Seq<SnapshotPlan>) -> bool {
    forall|i: int| 0 <= i < plans.len() ==> (#[trigger] plans[i]).backfills@.len() > 0
}

/// The outcome of a run that wrote its plans.
pub open spec fn spec_written_outcome(s: MigrationState, snapshots_migrated: nat, positions_backfilled: nat, vacuumed: bool) -> StripEmbeddedLotsOutcome {
    StripEmbeddedLotsOutcome {
        needed: true,
        snapshots_migrated: snapshots_migrated as usize,
        positions_backfilled: positions_backfilled as usize,
        backup_path: s.backup_path,
        vacuumed,
    }
}

/// Moving on to the candidate at `s.next`: read its account's currency
/// unless that was read before, then parse its positions; after the last
/// candidate, write the plans.
pub open spec fn spec_advance(s: MigrationState, new: MigrationState, action: MigrationAction) -> bool {
    if s.next < s.rows.len() {
        let row = s.rows[s.next as int];
        if s.account_currencies.contains_key(row.account_id@) {
            &&& new == MigrationState {
                phase: MigrationPhase::AwaitParse,
                account_currency: s.account_currencies[row.account_id@],
                ..s
            }
            &&& action matches MigrationAction::ParsePositions { snapshot_id, json } && snapshot_id
                == row.id && json == row.positions
        } else {
            &&& new == MigrationState { phase: MigrationPhase::AwaitAccountCurrency, ..s }
            &&& action matches MigrationAction::FetchAccountCurrency { account_id } && account_id
                == row.account_id
        }
    } else {
        &&& new == MigrationState {
            phase: MigrationPhase::AwaitWrite,
            statement_count: spec_plans_statements(s.plans).len(),
            ..s
        }
        &&& action matches MigrationAction::WriteInTransaction { statements } && statements@
            == spec_plans_statements(s.plans)
    }
}

/// The state of a run that has not started: idle, with no candidate, no
/// backup, no currency read, nothing planned and nothing counted.
pub open spec fn spec_initial_state() -> MigrationState {
    MigrationState {
        phase: MigrationPhase::Idle,
        rows: Seq::empty(),
        next: 0,
        backup_path: None,
        base_currency: Seq::empty(),
        account_currencies: Map::empty(),
        account_currency: Seq::empty(),
        pending_plan: None,
        plans: Seq::empty(),
        statement_count: 0,
        snapshots_migrated: 0,
        positions_backfilled: 0,
    }
}

/// The events the machine accepts in each state.
pub open spec fn spec_accepts(s: MigrationState, event: MigrationEvent) -> bool {
    match event {
        MigrationEvent::Started => s.phase == MigrationPhase::Idle,
        MigrationEvent::CandidatesLoaded { .. } => s.phase == MigrationPhase::AwaitCandidates,
        MigrationEvent::BackupCreated { .. } => s.phase == MigrationPhase::AwaitBackup,
        MigrationEvent::BaseCurrencyLoaded { .. } => s.phase == MigrationPhase::AwaitBaseCurrency,
        MigrationEvent::AccountCurrencyLoaded { .. } => s.phase
            == MigrationPhase::AwaitAccountCurrency,
        MigrationEvent::PositionsParsed { positions } => s.phase == MigrationPhase::AwaitParse && (
        positions matches Some(ps) ==> spec_keys_distinct(ps@)),
        MigrationEvent::PositionsSerialized { .. } => s.phase == MigrationPhase::AwaitSerialize,
        MigrationEvent::Written { affected } => s.phase == MigrationPhase::AwaitWrite
            && affected@.len() == s.statement_count,
        MigrationEvent::Vacuumed => s.phase == MigrationPhase::AwaitVacuum,
    }
}

/// One step of the migration: from `old`, on `event`, the machine moves to
/// `new` and asks for `action`.
pub open spec fn spec_step(old: MigrationState, event: MigrationEvent, new: MigrationState, action: MigrationAction) -> bool {
    match event {
        MigrationEvent::Started => {
            &&& new == MigrationState { phase: MigrationPhase::AwaitCandidates, ..old }
            &&& action is QueryCandidates
        },
        MigrationEvent::CandidatesLoaded { rows } => if rows@.len() == 0 {
            &&& new == MigrationState { phase: MigrationPhase::Done, ..old }
            &&& action == (MigrationAction::Finish { outcome: spec_no_op_outcome() })
        } else {
            &&& new == MigrationState {
                phase: MigrationPhase::AwaitBackup,
                rows: rows@,
                next: 0,
                ..old
            }
            &&& action is CreateBackup
        },
        MigrationEvent::BackupCreated { path } => {
            &&& new == MigrationState {
                phase: MigrationPhase::AwaitBaseCurrency,
                backup_path: Some(path),
                ..old
            }
            &&& action is FetchBaseCurrency
        },
        MigrationEvent::BaseCurrencyLoaded { first_row } => {
            let base = match first_row {
                Some(v) => v@,
                None => "USD"@,
            };
            spec_advance(MigrationState { base_currency: base, next: 0, ..old }, new, action)
        },
        MigrationEvent::AccountCurrencyLoaded { first_row } => {
            let currency = match first_row {
                Some(v) => v@,
                None => Seq::empty(),
            };
            let row = old.row();
            &&& new == MigrationState {
                phase: MigrationPhase::AwaitParse,
                account_currencies: old.account_currencies.insert(row.account_id@, currency),
                account_currency: currency,
                ..old
            }
            &&& action matches MigrationAction::ParsePositions { snapshot_id, json } && snapshot_id
                == row.id && json == row.positions
        },
        MigrationEvent::PositionsParsed { positions } => {
            let row = old.row();
            match positions {
                None => spec_advance(MigrationState { next: old.next + 1, ..old }, new, action),
                Some(ps) => {
                    let backfills = spec_backfills(ps@, old.account_currency, old.base_currency);
                    if backfills.len() == 0 {
                        spec_advance(MigrationState { next: old.next + 1, ..old }, new, action)
                    } else {
                        &&& new == MigrationState {
                            phase: MigrationPhase::AwaitSerialize,
                            pending_plan: new.pending_plan,
                            ..old
                        }
                        &&& new.pending_plan matches Some(p) && p.id == row.id
                            && p.stripped_json@.len() == 0 && p.backfills@ == backfills
                        &&& action matches MigrationAction::SerializePositions {
                            snapshot_id,
                            positions: out,
                        } && snapshot_id == row.id && spec_keys_distinct(out@) && out@.len() == ps@.len() && forall|j: int|
                            0 <= j < ps@.len() ==> {
                                &&& (#[trigger] out@[j]).0 == ps@[j].0
                                &&& spec_stripped(
                                    ps@[j].1,
                                    out@[j].1,
                                    row.account_id@,
                                    old.account_currency,
                                    old.base_currency,
                                )
                            }
                    }
                },
            }
        },
        MigrationEvent::PositionsSerialized { result } => {
            let row = old.row();
            match result {
                Err(message) => {
                    &&& new == MigrationState {
                        phase: MigrationPhase::Done,
                        pending_plan: None,
                        ..old
                    }
                    &&& action matches MigrationAction::Fail {
                        error: MigrationError::Serialize { snapshot_id, message: m },
                    } && snapshot_id == row.id && m == message
                },
                Ok(json) => {
                    let plan = SnapshotPlan { stripped_json: json, ..old.pending_plan->0 };
                    spec_advance(
                        MigrationState {
                            plans: old.plans.push(plan),
                            next: old.next + 1,
                            pending_plan: None,
                            ..old
                        },
                        new,
                        action,
                    )
                },
            }
        },
        MigrationEvent::Written { affected } => {
            let migrated = old.plans.len();
            let backfilled = spec_positions_backfilled(old.plans, affected@);
            if migrated > 0 {
                &&& new == MigrationState {
                    phase: MigrationPhase::AwaitVacuum,
                    snapshots_migrated: migrated,
                    positions_backfilled: backfilled,
                    ..old
                }
                &&& action is Vacuum
            } else {
                &&& new == MigrationState {
                    phase: MigrationPhase::Done,
                    snapshots_migrated: migrated,
                    positions_backfilled: backfilled,
                    ..old
                }
                &&& action == (MigrationAction::Finish {
                    outcome: spec_written_outcome(old, migrated, backfilled, false),
                })
            }
        },
        MigrationEvent::Vacuumed => {
            &&& new == MigrationState { phase: MigrationPhase::Done, ..old }
            &&& action == (MigrationAction::Finish {
                outcome: spec_written_outcome(
                    old,
                    old.snapshots_migrated,
                    old.positions_backfilled,
                    true,
                ),
            })
        },
    }
}

/// A run of the lot-strip migration.
pub struct StripEmbeddedLotsMigration {
    phase: MigrationPhase,
    rows: Vec<SnapshotRow>,
    next: usize,
    backup_path: Option<String>,
    base_currency: String,
    cache: AccountCurrencyCache,
    account_currency: String,
    pending_plan: Option<SnapshotPlan>,
    plans: Vec<SnapshotPlan>,
    statement_count: usize,
    snapshots_migrated: usize,
    positions_backfilled: usize,
}

impl View for StripEmbeddedLotsMigration {
    type V = MigrationState;

    closed spec fn view(&self) -> MigrationState {
        MigrationState {
            phase: self.phase,
            rows: self.rows@,
            next: self.next as nat,
            backup_path: self.backup_path,
            base_currency: self.base_currency@,
            account_currencies: self.cache.view(),
            account_currency: self.account_currency@,
            pending_plan: self.pending_plan,
            plans: self.plans@,
            statement_count: self.statement_count as nat,
            snapshots_migrated: self.snapshots_migrated as nat,
            positions_backfilled: self.positions_backfilled as nat,
        }
    }
}

fn clone_backup_path(p: &Option<String>) -> (r: Option<String>)
    ensures
        r == *p,
{
    match p {
        Some(s) => Some(s.clone()),
        None => None,
    }
}

impl StripEmbeddedLotsMigration {
    /// A run that has not started.
    pub fn new() -> (r: StripEmbeddedLotsMigration)
        ensures
            r@.wf(),
            r@ == spec_initial_state(),
    {
        let r = StripEmbeddedLotsMigration {
            phase: MigrationPhase::Idle,
            rows: Vec::new(),
            next: 0,
            backup_path: None,
            base_currency: String::new(),
            cache: AccountCurrencyCache::new(),
            account_currency: String::new(),
            pending_plan: None,
            plans: Vec::new(),
            statement_count: 0,
            snapshots_migrated: 0,
            positions_backfilled: 0,
        };
        assert(r@ =~= spec_initial_state());
        r
    }

    /// Whether the machine accepts `event` now.
    pub fn accepts(&self, event: &MigrationEvent) -> (r: bool)
        ensures
            r == spec_accepts(self@, *event),
    {
        match event {
            MigrationEvent::Started => matches!(self.phase, MigrationPhase::Idle),
            MigrationEvent::CandidatesLoaded { .. } => matches!(self.phase, MigrationPhase::AwaitCandidates),
            MigrationEvent::BackupCreated { .. } => matches!(self.phase, MigrationPhase::AwaitBackup),
            MigrationEvent::BaseCurrencyLoaded { .. } => matches!(self.phase, MigrationPhase::AwaitBaseCurrency),
            MigrationEvent::AccountCurrencyLoaded { .. } => matches!(self.phase, MigrationPhase::AwaitAccountCurrency),
            MigrationEvent::PositionsParsed { positions } => matches!(self.phase, MigrationPhase::AwaitParse)
                && match positions {
                Some(ps) => keys_distinct(ps),
                None => true,
            },
            MigrationEvent::PositionsSerialized { .. } => matches!(self.phase, MigrationPhase::AwaitSerialize),
            MigrationEvent::Written { affected } => matches!(self.phase, MigrationPhase::AwaitWrite)
                && affected.len() == self.statement_count,
            MigrationEvent::Vacuumed => matches!(self.phase, MigrationPhase::AwaitVacuum),
        }
    }

    /// Moves on to the candidate at `self.next` (see [`spec_advance`]).
    fn advance(&mut self) -> (action: MigrationAction)
        requires
            old(self)@.next <= old(self)@.rows.len(),
            old(self)@.pending_plan is None,
        ensures
            spec_advance(old(self)@, final(self)@, action),
    {
        if self.next < self.rows.len() {
            let cached = self.cache.get(&self.rows[self.next].account_id);
            match cached {
                Some(currency) => {
                    self.account_currency = currency;
                    self.phase = MigrationPhase::AwaitParse;
                    let row = &self.rows[self.next];
                    MigrationAction::ParsePositions {
                        snapshot_id: row.id.clone(),
                        json: row.positions.clone(),
                    }
                },
                None => {
                    self.phase = MigrationPhase::AwaitAccountCurrency;
                    MigrationAction::FetchAccountCurrency {
                        account_id: self.rows[self.next].account_id.clone(),
                    }
                },
            }
        } else {
            let statements = write_statements(&self.plans);
            self.statement_count = statements.len();
            self.phase = MigrationPhase::AwaitWrite;
            MigrationAction::WriteInTransaction { statements }
        }
    }

    /// Hands the result of the last action to the machine and returns the
    /// next action (see [`spec_step`]).
    pub fn step(&mut self, event: MigrationEvent) -> (action: MigrationAction)
        requires
            old(self)@.wf(),
            spec_accepts(old(self)@, event),
        ensures
            final(self)@.wf(),
            spec_step(old(self)@, event, final(self)@, action),
    {
        match event {
            MigrationEvent::Started => {
                self.phase = MigrationPhase::AwaitCandidates;
                MigrationAction::QueryCandidates
            },
            MigrationEvent::CandidatesLoaded { rows } => {
                if rows.len() == 0 {
                    self.phase = MigrationPhase::Done;
                    MigrationAction::Finish { outcome: StripEmbeddedLotsOutcome::default() }
                } else {
                    self.rows = rows;
                    self.next = 0;
                    self.phase = MigrationPhase::AwaitBackup;
                    MigrationAction::CreateBackup
                }
            },
            MigrationEvent::BackupCreated { path } => {
                self.backup_path = Some(path);
                self.phase = MigrationPhase::AwaitBaseCurrency;
                MigrationAction::FetchBaseCurrency
            },
            MigrationEvent::BaseCurrencyLoaded { first_row } => {
                self.base_currency = base_currency_or_default(first_row);
                self.next = 0;
                self.advance()
            },
            MigrationEvent::AccountCurrencyLoaded { first_row } => {
                let currency = account_currency_or_default(first_row);
                let account_id = self.rows[self.next].account_id.clone();
                self.cache.insert(account_id, currency.clone());
                self.account_currency = currency;
                self.phase = MigrationPhase::AwaitParse;
                let row = &self.rows[self.next];
                MigrationAction::ParsePositions {
                    snapshot_id: row.id.clone(),
                    json: row.positions.clone(),
                }
            },
            MigrationEvent::PositionsParsed { positions } => {
                match positions {
                    None => {
                        assert(self.next < self.rows.len());
                        self.next = self.next + 1;
                        self.advance()
                    },
                    Some(ps) => {
                        let (stripped, backfills) = strip_embedded_lots(
                            ps,
                            &self.rows[self.next].account_id,
                            self.account_currency.as_str(),
                            self.base_currency.as_str(),
                        );
                        if backfills.len() == 0 {
                            assert(self.next < self.rows.len());
                        self.next = self.next + 1;
                            self.advance()
                        } else {
                            let snapshot_id = self.rows[self.next].id.clone();
                            self.pending_plan = Some(
                                SnapshotPlan {
                                    id: self.rows[self.next].id.clone(),
                                    stripped_json: String::new(),
                                    backfills,
                                },
                            );
                            self.phase = MigrationPhase::AwaitSerialize;
                            MigrationAction::SerializePositions { snapshot_id, positions: stripped }
                        }
                    },
                }
            },
            MigrationEvent::PositionsSerialized { result } => {
                let pending = self.pending_plan.take();
                match result {
                    Err(message) => {
                        self.phase = MigrationPhase::Done;
                        MigrationAction::Fail {
                            error: MigrationError::Serialize {
                                snapshot_id: self.rows[self.next].id.clone(),
                                message,
                            },
                        }
                    },
                    Ok(json) => {
                        match pending {
                            Some(mut plan) => {
                                plan.stripped_json = json;
                                let ghost before = self.plans@;
                                self.plans.push(plan);
                                assert forall|i: int| 0 <= i < self.plans@.len() implies (#[trigger] self.plans@[i]).backfills@.len() > 0 by {
                                    if i < before.len() {
                                        assert(self.plans@[i] == before[i]);
                                    }
                                }
                                assert(spec_plans_embed_lots(self.plans@));
                                assert(self.plans@.len() == self.plans.len());
                            },
                            None => {},
                        }
                        assert(self.next < self.rows.len());
                        self.next = self.next + 1;
                        self.advance()
                    },
                }
            },
            MigrationEvent::Written { affected } => {
                let (migrated, backfilled) = tally_writes(&self.plans, &affected);
                self.snapshots_migrated = migrated;
                self.positions_backfilled = backfilled;
                if migrated > 0 {
                    self.phase = MigrationPhase::AwaitVacuum;
                    MigrationAction::Vacuum
                } else {
                    self.phase = MigrationPhase::Done;
                    MigrationAction::Finish {
                        outcome: StripEmbeddedLotsOutcome {
                            needed: true,
                            snapshots_migrated: migrated,
                            positions_backfilled: backfilled,
                            backup_path: clone_backup_path(&self.backup_path),
                            vacuumed: false,
                        },
                    }
                }
            },
            MigrationEvent::Vacuumed => {
                self.phase = MigrationPhase::Done;
                MigrationAction::Finish {
                    outcome: StripEmbeddedLotsOutcome {
                        needed: true,
                        snapshots_migrated: self.snapshots_migrated,
                        positions_backfilled: self.positions_backfilled,
                        backup_path: clone_backup_path(&self.backup_path),
                        vacuumed: true,
                    },
                }
            },
        }
    }
}

/// A run that finds no candidate snapshot is a pure no-op: it finishes at
/// once with the no-op outcome, without a backup, a write or a vacuum.
pub proof fn law_no_candidates_is_a_no_op(
    s: MigrationState,
    rows: Vec<SnapshotRow>,
    new: MigrationState,
    action: MigrationAction,
)
    requires
        s.wf(),
        rows@.len() == 0,
        spec_accepts(s, MigrationEvent::CandidatesLoaded { rows }),
        spec_step(s, MigrationEvent::CandidatesLoaded { rows }, new, action),
    ensures
        action == (MigrationAction::Finish { outcome: spec_no_op_outcome() }),
        new.phase == MigrationPhase::Done,
        new.backup_path is None,
{
}

/// Nothing is written, and no vacuum runs, before the backup was created:
/// whenever the machine asks for the write transaction or for `VACUUM`, it
/// holds the backup's path.
pub proof fn law_writes_follow_the_backup(
    s: MigrationState,
    event: MigrationEvent,
    new: MigrationState,
    action: MigrationAction,
)
    requires
        s.wf(),
        spec_accepts(s, event),
        spec_step(s, event, new, action),
        action is WriteInTransaction || action is Vacuum,
    ensures
        s.backup_path is Some,
        new.backup_path == s.backup_path,
{
}

/// A serialization failure ends the run before the write transaction was
/// asked for, and a finished run accepts no further event.
pub proof fn law_failure_writes_nothing(
    s: MigrationState,
    event: MigrationEvent,
    new: MigrationState,
    action: MigrationAction,
    later: MigrationEvent,
)
    requires
        s.wf(),
        spec_accepts(s, event),
        spec_step(s, event, new, action),
        action is Fail,
    ensures
        s.phase == MigrationPhase::AwaitSerialize,
        new.phase == MigrationPhase::Done,
        !spec_accepts(new, later),
{
}

/// Every outcome is consistent: `VACUUM` ran exactly when a snapshot was
/// migrated; work was needed exactly when a backup was made; a run that
/// needed no work reports nothing else; a run that did reports one migrated
/// snapshot per plan and no more backfilled positions than backfills.
pub proof fn law_outcome_is_consistent(
    s: MigrationState,
    event: MigrationEvent,
    new: MigrationState,
    outcome: StripEmbeddedLotsOutcome,
)
    requires
        s.wf(),
        spec_accepts(s, event),
        spec_step(s, event, new, MigrationAction::Finish { outcome }),
    ensures
        outcome.vacuumed <==> outcome.snapshots_migrated > 0,
        outcome.needed <==> outcome.backup_path is Some,
        !outcome.needed ==> outcome == spec_no_op_outcome(),
        outcome.needed ==> outcome.snapshots_migrated == s.plans.len(),
        outcome.needed ==> outcome.positions_backfilled <= spec_total_backfills(s.plans),
{
    match event {
        MigrationEvent::Written { affected } => {
            lemma_positions_backfilled_bound(s.plans, affected@);
        },
        _ => {},
    }
}

/// `VACUUM` runs once, after the write transaction committed, and only when
/// a snapshot was rewritten: the machine asks for it only on the
/// transaction's result with at least one plan, and then accepts nothing but
/// its completion.
pub proof fn law_vacuum_once_after_commit(
    s: MigrationState,
    event: MigrationEvent,
    new: MigrationState,
    later: MigrationEvent,
)
    requires
        s.wf(),
        spec_accepts(s, event),
        spec_step(s, event, new, MigrationAction::Vacuum),
    ensures
        event is Written,
        s.phase == MigrationPhase::AwaitWrite,
        s.plans.len() > 0,
        new.snapshots_migrated == s.plans.len(),
        spec_accepts(new, later) ==> later is Vacuumed,
{
}

/// The plans only grow, in candidate order: no step drops or changes a plan
/// made before, and each successful serialization appends exactly one plan,
/// the pending plan of the candidate being planned, with the serialized JSON
/// and the backfills found for it. So the write transaction holds the statements of
/// every candidate that embedded lots, not only the last one's.
pub proof fn law_plans_only_grow(
    s: MigrationState,
    event: MigrationEvent,
    new: MigrationState,
    action: MigrationAction,
)
    requires
        s.wf(),
        spec_accepts(s, event),
        spec_step(s, event, new, action),
    ensures
        forall|i: int| 0 <= i < s.plans.len() ==> new.plans[i] == #[trigger] s.plans[i],
        new.plans.len() == s.plans.len() + if event matches MigrationEvent::PositionsSerialized {
            result,
        } && result is Ok {
            1int
        } else {
            0int
        },
        event matches MigrationEvent::PositionsSerialized { result: Ok(json) } ==> {
            let plan = new.plans[s.plans.len() as int];
            &&& plan.id == s.pending_plan->0.id
            &&& plan.stripped_json == json
            &&& plan.backfills == s.pending_plan->0.backfills
        },
{
}

} // verus!
