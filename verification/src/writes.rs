//! The writes of the lot-strip migration: which UPDATE statements the
//! backfill and strip issue, and what their affected-row counts add up to.
use vstd::prelude::*;

use crate::decimal::Dec;
use crate::strip::PositionBackfill;

verus! {

/// Precomputed plan for one snapshot: the stripped positions JSON plus the
/// per-position scalars to persist.
pub struct SnapshotPlan {
    pub id: String,
    pub stripped_json: String,
    pub backfills: Vec<PositionBackfill>,
}

/// One UPDATE of the migration's write transaction.
pub enum WriteStatement {
    /// `UPDATE snapshot_positions SET cost_basis_account = value WHERE
    /// snapshot_id = .. AND asset_id = .. AND cost_basis_account IS NULL`
    SetCostBasisAccount { snapshot_id: String, asset_id: String, value: Dec },
    /// `UPDATE snapshot_positions SET cost_basis_base = value WHERE
    /// snapshot_id = .. AND asset_id = .. AND cost_basis_base IS NULL`
    SetCostBasisBase { snapshot_id: String, asset_id: String, value: Dec },
    /// `UPDATE holdings_snapshots SET positions = json WHERE id = ..`
    SetPositions { snapshot_id: String, positions_json: String },
}

/// The statements of one backfill: a scalar is written only where it could
/// be computed, the account scalar before the base scalar.
pub open spec fn spec_backfill_statements(snapshot_id: String, b: PositionBackfill) -> Seq<WriteStatement> {
    let account = match b.cost_basis_account {
        Some(v) => seq![
            WriteStatement::SetCostBasisAccount { snapshot_id: snapshot_id, asset_id: b.asset_id, value: v },
        ],
        None => Seq::empty(),
    };
    let base = match b.cost_basis_base {
        Some(v) => seq![
            WriteStatement::SetCostBasisBase { snapshot_id: snapshot_id, asset_id: b.asset_id, value: v },
        ],
        None => Seq::empty(),
    };
    account + base
}

pub open spec fn spec_backfills_statements(snapshot_id: String, bs: Seq<PositionBackfill>) -> Seq<WriteStatement>
    decreases bs.len(),
{
    if bs.len() == 0 {
        Seq::empty()
    } else {
        spec_backfills_statements(snapshot_id, bs.drop_last()) + spec_backfill_statements(
            snapshot_id,
            bs.last(),
        )
    }
}

/// The statements of one plan: its backfills, then the rewrite of the
/// snapshot's positions JSON.
pub open spec fn spec_plan_statements(p: SnapshotPlan) -> Seq<WriteStatement> {
    spec_backfills_statements(p.id, p.backfills@).push(
        WriteStatement::SetPositions { snapshot_id: p.id, positions_json: p.stripped_json },
    )
}

/// The statements of all plans, plan by plan.
pub open spec fn spec_plans_statements(ps: Seq<SnapshotPlan>) -> Seq<WriteStatement>
    decreases ps.len(),
{
    if ps.len() == 0 {
        Seq::empty()
    } else {
        spec_plans_statements(ps.drop_last()) + spec_plan_statements(ps.last())
    }
}

/// Number of statements of one backfill.
pub open spec fn spec_backfill_arity(b: PositionBackfill) -> nat {
    (if b.cost_basis_account is Some { 1nat } else { 0nat }) + (if b.cost_basis_base is Some {
        1nat
    } else {
        0nat
    })
}

pub open spec fn spec_backfills_arity(bs: Seq<PositionBackfill>) -> nat
    decreases bs.len(),
{
    if bs.len() == 0 {
        0
    } else {
        spec_backfills_arity(bs.drop_last()) + spec_backfill_arity(bs.last())
    }
}

pub open spec fn spec_plans_arity(ps: Seq<SnapshotPlan>) -> nat
    decreases ps.len(),
{
    if ps.len() == 0 {
        0
    } else {
        spec_plans_arity(ps.drop_last()) + spec_backfills_arity(ps.last().backfills@) + 1
    }
}

/// Whether a backfill updated a row: some of its statements (whose affected
/// counts start `affected`) touched at least one row.
pub open spec fn spec_backfill_updated(b: PositionBackfill, affected: Seq<usize>) -> bool {
    ||| spec_backfill_arity(b) >= 1 && affected[0] > 0
    ||| spec_backfill_arity(b) >= 2 && affected[1] > 0
}

/// Number of backfills that updated a row; the affected counts of their
/// statements start `affected`.
pub open spec fn spec_backfills_updated(bs: Seq<PositionBackfill>, affected: Seq<usize>) -> nat
    decreases bs.len(),
{
    if bs.len() == 0 {
        0
    } else {
        spec_backfills_updated(bs.drop_last(), affected) + if spec_backfill_updated(
            bs.last(),
            affected.skip(spec_backfills_arity(bs.drop_last()) as int),
        ) {
            1nat
        } else {
            0nat
        }
    }
}

/// Number of positions backfilled over all plans, given the affected-row
/// count of each statement of `spec_plans_statements(ps)`.
pub open spec fn spec_positions_backfilled(ps: Seq<SnapshotPlan>, affected: Seq<usize>) -> nat
    decreases ps.len(),
{
    if ps.len() == 0 {
        0
    } else {
        spec_positions_backfilled(ps.drop_last(), affected) + spec_backfills_updated(
            ps.last().backfills@,
            affected.skip(spec_plans_arity(ps.drop_last()) as int),
        )
    }
}

/// Number of backfills over all plans.
pub open spec fn spec_total_backfills(ps: Seq<SnapshotPlan>) -> nat
    decreases ps.len(),
{
    if ps.len() == 0 {
        0
    } else {
        spec_total_backfills(ps.drop_last()) + ps.last().backfills@.len()
    }
}

proof fn lemma_backfills_statements_len(id: String, bs: Seq<PositionBackfill>)
    ensures
        spec_backfills_statements(id, bs).len() == spec_backfills_arity(bs),
    decreases bs.len(),
{
    if bs.len() > 0 {
        lemma_backfills_statements_len(id, bs.drop_last());
    }
}

/// The statements of all plans are as many as their arity says.
pub proof fn lemma_plans_statements_len(ps: Seq<SnapshotPlan>)
    ensures
        spec_plans_statements(ps).len() == spec_plans_arity(ps),
    decreases ps.len(),
{
    if ps.len() > 0 {
        lemma_plans_statements_len(ps.drop_last());
        lemma_backfills_statements_len(ps.last().id, ps.last().backfills@);
    }
}

proof fn lemma_backfills_arity_prefix(bs: Seq<PositionBackfill>, i: int)
    requires
        0 <= i <= bs.len(),
    ensures
        spec_backfills_arity(bs.take(i)) <= spec_backfills_arity(bs),
    decreases bs.len() - i,
{
    if i < bs.len() {
        assert(bs.take(i + 1).drop_last() =~= bs.take(i));
        lemma_backfills_arity_prefix(bs, i + 1);
    } else {
        assert(bs.take(i) =~= bs);
    }
}

proof fn lemma_plans_arity_prefix(ps: Seq<SnapshotPlan>, i: int)
    requires
        0 <= i <= ps.len(),
    ensures
        spec_plans_arity(ps.take(i)) <= spec_plans_arity(ps),
    decreases ps.len() - i,
{
    if i < ps.len() {
        assert(ps.take(i + 1).drop_last() =~= ps.take(i));
        lemma_plans_arity_prefix(ps, i + 1);
    } else {
        assert(ps.take(i) =~= ps);
    }
}

proof fn lemma_backfills_updated_bound(bs: Seq<PositionBackfill>, affected: Seq<usize>)
    ensures
        spec_backfills_updated(bs, affected) <= bs.len(),
    decreases bs.len(),
{
    if bs.len() > 0 {
        lemma_backfills_updated_bound(bs.drop_last(), affected);
    }
}

/// However many rows the statements touch, no more positions are counted as
/// backfilled than there are backfills.
pub proof fn lemma_positions_backfilled_bound(ps: Seq<SnapshotPlan>, affected: Seq<usize>)
    ensures
        spec_positions_backfilled(ps, affected) <= spec_total_backfills(ps),
    decreases ps.len(),
{
    if ps.len() > 0 {
        lemma_positions_backfilled_bound(ps.drop_last(), affected);
        lemma_backfills_updated_bound(ps.last().backfills@, affected.skip(spec_plans_arity(ps.drop_last()) as int));
    }
}

/// Whether statement `st` writes what backfill `b` of snapshot `id` computed.
pub open spec fn spec_statement_from_backfill(st: WriteStatement, id: String, b: PositionBackfill) -> bool {
    match st {
        WriteStatement::SetCostBasisAccount { snapshot_id, asset_id, value } => snapshot_id == id
            && asset_id == b.asset_id && b.cost_basis_account == Some(value),
        WriteStatement::SetCostBasisBase { snapshot_id, asset_id, value } => snapshot_id == id
            && asset_id == b.asset_id && b.cost_basis_base == Some(value),
        WriteStatement::SetPositions { .. } => false,
    }
}

proof fn lemma_backfill_statement_source(id: String, bs: Seq<PositionBackfill>, k: int) -> (j: int)
    requires
        0 <= k < spec_backfills_statements(id, bs).len(),
    ensures
        0 <= j < bs.len(),
        spec_statement_from_backfill(spec_backfills_statements(id, bs)[k], id, bs[j]),
    decreases bs.len(),
{
    let prefix = spec_backfills_statements(id, bs.drop_last());
    if k < prefix.len() {
        let j = lemma_backfill_statement_source(id, bs.drop_last(), k);
        assert(bs.drop_last()[j] == bs[j]);
        j
    } else {
        (bs.len() - 1) as int
    }
}

/// Whether statement `st` writes what plan `p` holds: its stripped JSON, or
/// a scalar that one of its backfills computed.
pub open spec fn spec_statement_from_plan(st: WriteStatement, p: SnapshotPlan) -> bool {
    match st {
        WriteStatement::SetPositions { snapshot_id, positions_json } => snapshot_id == p.id
            && positions_json == p.stripped_json,
        _ => exists|j: int|
            0 <= j < p.backfills@.len() && spec_statement_from_backfill(st, p.id, #[trigger] p.backfills@[j]),
    }
}

/// Scalars are written only where they were computed, and a snapshot's
/// positions only with its stripped JSON: every statement of the write
/// transaction comes from a plan, and every scalar UPDATE writes the value
/// that a backfill of that plan computed for that asset.
pub proof fn law_statements_write_only_computed_values(ps: Seq<SnapshotPlan>, k: int)
    requires
        0 <= k < spec_plans_statements(ps).len(),
    ensures
        exists|i: int| #![trigger ps[i]] 0 <= i < ps.len() && spec_statement_from_plan(spec_plans_statements(ps)[k], ps[i]),
    decreases ps.len(),
{
    let prefix = spec_plans_statements(ps.drop_last());
    let st = spec_plans_statements(ps)[k];
    if k < prefix.len() {
        law_statements_write_only_computed_values(ps.drop_last(), k);
        let i = choose|i: int| #![trigger ps.drop_last()[i]] 0 <= i < ps.drop_last().len() && spec_statement_from_plan(prefix[k], ps.drop_last()[i]);
        assert(ps.drop_last()[i] == ps[i]);
        assert(st == prefix[k]);
        assert(spec_statement_from_plan(st, ps[i]));
    } else {
        let last = ps.last();
        let i = ps.len() - 1;
        assert(ps[i] == last);
        let inner = spec_backfills_statements(last.id, last.backfills@);
        let kk = k - prefix.len();
        assert(st == spec_plan_statements(last)[kk]);
        if kk < inner.len() {
            let j = lemma_backfill_statement_source(last.id, last.backfills@, kk);
            assert(st == inner[kk]);
            assert(spec_statement_from_backfill(st, ps[i].id, ps[i].backfills@[j]));
            assert(spec_statement_from_plan(st, ps[i]));
        } else {
            assert(st == WriteStatement::SetPositions { snapshot_id: last.id, positions_json: last.stripped_json });
            assert(spec_statement_from_plan(st, ps[i]));
        }
    }
}

/// The UPDATE statements that persist `plans`, in order: for each plan, for
/// each backfill the account scalar (if computed) then the base scalar (if
/// computed), then the stripped positions JSON.
pub fn write_statements(plans: &Vec<SnapshotPlan>) -> (r: Vec<WriteStatement>)
    ensures
        r@ == spec_plans_statements(plans@),
{
    let mut out: Vec<WriteStatement> = Vec::new();
    let n = plans.len();
    let mut i: usize = 0;
    assert(plans@.take(0) =~= Seq::<SnapshotPlan>::empty());
    while i < n
        invariant
            n == plans@.len(),
            0 <= i <= n,
            out@ == spec_plans_statements(plans@.take(i as int)),
        decreases n - i,
    {
        let plan = &plans[i];
        let ghost before = out@;
        let m = plan.backfills.len();
        let mut k: usize = 0;
        assert(plan.backfills@.take(0) =~= Seq::<PositionBackfill>::empty());
        assert(before + spec_backfills_statements(plan.id, plan.backfills@.take(0)) =~= before);
        while k < m
            invariant
                m == plan.backfills@.len(),
                0 <= k <= m,
                out@ == before + spec_backfills_statements(plan.id, plan.backfills@.take(k as int)),
            decreases m - k,
        {
            let b = &plan.backfills[k];
            let ghost mid = out@;
            assert(plan.backfills@.take(k + 1).drop_last() =~= plan.backfills@.take(k as int));
            if let Some(v) = b.cost_basis_account {
                out.push(
                    WriteStatement::SetCostBasisAccount {
                        snapshot_id: plan.id.clone(),
                        asset_id: b.asset_id.clone(),
                        value: v,
                    },
                );
            }
            if let Some(v) = b.cost_basis_base {
                out.push(
                    WriteStatement::SetCostBasisBase {
                        snapshot_id: plan.id.clone(),
                        asset_id: b.asset_id.clone(),
                        value: v,
                    },
                );
            }
            assert(out@ =~= mid + spec_backfill_statements(plan.id, *b));
            assert(out@ =~= before + spec_backfills_statements(plan.id, plan.backfills@.take(k + 1)));
            k = k + 1;
        }
        assert(plan.backfills@.take(m as int) =~= plan.backfills@);
        out.push(
            WriteStatement::SetPositions {
                snapshot_id: plan.id.clone(),
                positions_json: plan.stripped_json.clone(),
            },
        );
        assert(plans@.take(i + 1).drop_last() =~= plans@.take(i as int));
        assert(out@ =~= spec_plans_statements(plans@.take(i + 1)));
        i = i + 1;
    }
    assert(plans@.take(n as int) =~= plans@);
    out
}

/// Tallies the write transaction: `snapshots_migrated` is the number of
/// plans; `positions_backfilled` counts the backfills of which at least one
/// scalar UPDATE touched a row. `affected[j]` is the affected-row count of the
/// `j`-th statement of `write_statements(plans)`.
pub fn tally_writes(plans: &Vec<SnapshotPlan>, affected: &Vec<usize>) -> (r: (usize, usize))
    requires
        affected@.len() == spec_plans_statements(plans@).len(),
    ensures
        r.0 == plans@.len(),
        r.1 == spec_positions_backfilled(plans@, affected@),
        r.1 <= spec_total_backfills(plans@),
{
    proof {
        lemma_plans_statements_len(plans@);
    }
    let n = plans.len();
    let total = affected.len();
    let mut i: usize = 0;
    let mut offset: usize = 0;
    let mut count: usize = 0;
    assert(plans@.take(0) =~= Seq::<SnapshotPlan>::empty());
    while i < n
        invariant
            n == plans@.len(),
            0 <= i <= n,
            affected@.len() == spec_plans_arity(plans@),
            total == affected@.len(),
            offset == spec_plans_arity(plans@.take(i as int)),
            count == spec_positions_backfilled(plans@.take(i as int), affected@),
            count <= offset,
        decreases n - i,
    {
        let plan = &plans[i];
        proof {
            assert(plans@.take(i + 1).drop_last() =~= plans@.take(i as int));
            lemma_plans_arity_prefix(plans@, i + 1);
        }
        let ghost base_offset = offset as int;
        let ghost base_count = count as int;
        let ghost aff = affected@.skip(base_offset);
        let m = plan.backfills.len();
        let mut k: usize = 0;
        let mut local: usize = 0;
        assert(plan.backfills@.take(0) =~= Seq::<PositionBackfill>::empty());
        while k < m
            invariant
                m == plan.backfills@.len(),
                0 <= k <= m,
                affected@.len() == spec_plans_arity(plans@),
                total == affected@.len(),
                base_offset + spec_backfills_arity(plan.backfills@) + 1 <= affected@.len(),
                aff == affected@.skip(base_offset),
                offset == base_offset + spec_backfills_arity(plan.backfills@.take(k as int)),
                local == spec_backfills_updated(plan.backfills@.take(k as int), aff),
                base_offset + local <= offset,
                count == base_count,
                base_count <= base_offset,
            decreases m - k,
        {
            let b = &plan.backfills[k];
            let ghost prefix = spec_backfills_arity(plan.backfills@.take(k as int));
            proof {
                assert(plan.backfills@.take(k + 1).drop_last() =~= plan.backfills@.take(k as int));
                assert(plan.backfills@.take(k + 1).last() == *b);
                assert(spec_backfills_arity(plan.backfills@.take(k + 1)) == prefix
                    + spec_backfill_arity(*b));
                lemma_backfills_arity_prefix(plan.backfills@, k + 1);
                assert(offset + spec_backfill_arity(*b) + 1 <= affected@.len());
            }
            let mut updated = false;
            let mut used: usize = 0;
            if b.cost_basis_account.is_some() {
                assert(aff.skip(prefix as int)[0] == affected@[offset as int]);
                if affected[offset] > 0 {
                    updated = true;
                }
                used = 1;
            }
            if b.cost_basis_base.is_some() {
                assert(aff.skip(prefix as int)[used as int] == affected@[offset + used]);
                if affected[offset + used] > 0 {
                    updated = true;
                }
                used = used + 1;
            }
            assert(used == spec_backfill_arity(*b));
            assert(updated == spec_backfill_updated(*b, aff.skip(prefix as int)));
            if updated {
                local = local + 1;
            }
            offset = offset + used;
            k = k + 1;
        }
        assert(plan.backfills@.take(m as int) =~= plan.backfills@);
        offset = offset + 1;
        count = count + local;
        i = i + 1;
    }
    assert(plans@.take(n as int) =~= plans@);
    proof {
        lemma_positions_backfilled_bound(plans@, affected@);
    }
    (n, count)
}

} // verus!
