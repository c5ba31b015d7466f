//! Stripping the embedded tax lots out of one snapshot's positions, and the
//! cost-basis scalars derived from those lots before they go.
use vstd::prelude::*;

use crate::decimal::Dec;
use crate::position::{Position, spec_cost_basis_from_lots, compute_position_cost_basis_from_lots};

verus! {

/// A single position's backfill payload: the cost-basis scalars to persist
/// for `asset_id` in the snapshot's relational rows.
pub struct PositionBackfill {
    pub asset_id: String,
    pub cost_basis_account: Option<Dec>,
    pub cost_basis_base: Option<Dec>,
}

/// No two positions share a key (as in the JSON object they come from).
pub open spec fn spec_keys_distinct(positions: Seq<(String, Position)>) -> bool {
    forall|i: int, j: int|
        0 <= i < positions.len() && 0 <= j < positions.len() && i != j ==> (#[trigger] positions[i]).0@
            != (#[trigger] positions[j]).0@
}

/// Whether no two positions share a key.
pub fn keys_distinct(positions: &Vec<(String, Position)>) -> (r: bool)
    ensures
        r == spec_keys_distinct(positions@),
{
    let n = positions.len();
    let mut i: usize = 0;
    while i < n
        invariant
            n == positions@.len(),
            0 <= i <= n,
            forall|a: int, b: int|
                0 <= a < i && 0 <= b < n && a != b ==> (#[trigger] positions@[a]).0@
                    != (#[trigger] positions@[b]).0@,
        decreases n - i,
    {
        let mut j: usize = 0;
        while j < n
            invariant
                n == positions@.len(),
                0 <= i < n,
                0 <= j <= n,
                forall|a: int, b: int|
                    0 <= a < i && 0 <= b < n && a != b ==> (#[trigger] positions@[a]).0@
                        != (#[trigger] positions@[b]).0@,
                forall|b: int| 0 <= b < j && b != i ==> positions@[i as int].0@ != (#[trigger] positions@[b]).0@,
            decreases n - j,
        {
            if j != i && positions[i].0 == positions[j].0 {
                return false;
            }
            j = j + 1;
        }
        assert forall|a: int, b: int|
            0 <= a < i + 1 && 0 <= b < n && a != b implies (#[trigger] positions@[a]).0@
                != (#[trigger] positions@[b]).0@ by {
            if a == i as int {
            } else if b == i as int {
                assert(positions@[i as int].0@ != positions@[a].0@);
            }
        }
        i = i + 1;
    }
    true
}

/// The backfill derived from a position that still embeds lots.
pub open spec fn spec_backfill_of(p: Position, account_currency: Seq<char>, base_currency: Seq<char>) -> PositionBackfill {
    PositionBackfill {
        asset_id: p.asset_id,
        cost_basis_account: spec_cost_basis_from_lots(p.lots@, p.currency@, account_currency),
        cost_basis_base: spec_cost_basis_from_lots(p.lots@, p.currency@, base_currency),
    }
}

/// The backfills of a snapshot's positions, in order: one for each position
/// that embeds at least one lot.
pub open spec fn spec_backfills(
    positions: Seq<(String, Position)>,
    account_currency: Seq<char>,
    base_currency: Seq<char>,
) -> Seq<PositionBackfill>
    decreases positions.len(),
{
    if positions.len() == 0 {
        Seq::empty()
    } else {
        let rest = spec_backfills(positions.drop_last(), account_currency, base_currency);
        if positions.last().1.lots@.len() > 0 {
            rest.push(spec_backfill_of(positions.last().1, account_currency, base_currency))
        } else {
            rest
        }
    }
}

/// `new` is `old` after the strip: an empty account id is filled in from the
/// snapshot row; a position that embeds lots gets its cost-basis scalars from
/// those lots and loses them; every other field is kept.
pub open spec fn spec_stripped(
    old: Position,
    new: Position,
    row_account_id: Seq<char>,
    account_currency: Seq<char>,
    base_currency: Seq<char>,
) -> bool {
    &&& new.id == old.id
    &&& (if old.account_id@.len() == 0 {
        new.account_id@ == row_account_id
    } else {
        new.account_id == old.account_id
    })
    &&& new.asset_id == old.asset_id
    &&& new.quantity == old.quantity
    &&& new.average_cost == old.average_cost
    &&& new.total_cost_basis == old.total_cost_basis
    &&& new.currency == old.currency
    &&& new.inception_date == old.inception_date
    &&& new.created_at == old.created_at
    &&& new.last_updated == old.last_updated
    &&& if old.lots@.len() == 0 {
        &&& new.lots == old.lots
        &&& new.cost_basis_account == old.cost_basis_account
        &&& new.cost_basis_base == old.cost_basis_base
    } else {
        &&& new.lots@.len() == 0
        &&& new.cost_basis_account == spec_cost_basis_from_lots(
            old.lots@,
            old.currency@,
            account_currency,
        )
        &&& new.cost_basis_base == spec_cost_basis_from_lots(old.lots@, old.currency@, base_currency)
    }
}

/// Strips the embedded lots out of a snapshot's positions (keyed by asset).
///
/// Every position with an empty account id gets `row_account_id`. Every
/// position that embeds lots gets `cost_basis_account` and `cost_basis_base`
/// derived from its lots (in `account_currency` and `base_currency`) and loses
/// its lots; one backfill per such position is returned, in order. The keys
/// and all other fields are kept.
pub fn strip_embedded_lots(
    positions: Vec<(String, Position)>,
    row_account_id: &String,
    account_currency: &str,
    base_currency: &str,
) -> (r: (Vec<(String, Position)>, Vec<PositionBackfill>))
    ensures
        r.0@.len() == positions@.len(),
        forall|j: int|
            0 <= j < positions@.len() ==> {
                &&& (#[trigger] r.0@[j]).0 == positions@[j].0
                &&& spec_stripped(
                    positions@[j].1,
                    r.0@[j].1,
                    row_account_id@,
                    account_currency@,
                    base_currency@,
                )
            },
        forall|j: int| 0 <= j < r.0@.len() ==> (#[trigger] r.0@[j]).1.lots@.len() == 0,
        spec_keys_distinct(positions@) ==> spec_keys_distinct(r.0@),
        r.1@ == spec_backfills(positions@, account_currency@, base_currency@),
{
    let ghost input = positions@;
    let n = positions.len();
    let mut remaining = positions;
    let mut out: Vec<(String, Position)> = Vec::new();
    let mut backfills: Vec<PositionBackfill> = Vec::new();
    let mut i: usize = 0;
    assert(input.take(0) =~= Seq::<(String, Position)>::empty());
    while i < n
        invariant
            n == input.len(),
            0 <= i <= n,
            remaining@ == input.skip(i as int),
            out@.len() == i,
            forall|j: int|
                0 <= j < i ==> {
                    &&& (#[trigger] out@[j]).0 == input[j].0
                    &&& spec_stripped(
                        input[j].1,
                        out@[j].1,
                        row_account_id@,
                        account_currency@,
                        base_currency@,
                    )
                },
            backfills@ == spec_backfills(input.take(i as int), account_currency@, base_currency@),
        decreases n - i,
    {
        let (key, mut pos) = remaining.remove(0);
        assert(input.take(i + 1).drop_last() =~= input.take(i as int));
        assert(input.skip(i as int).drop_first() =~= input.skip(i + 1));
        let ghost old_pos = pos;
        if pos.account_id.as_str().is_empty() {
            pos.account_id = row_account_id.clone();
        }
        if pos.lots.len() > 0 {
            let cost_basis_account = compute_position_cost_basis_from_lots(&pos, account_currency);
            let cost_basis_base = compute_position_cost_basis_from_lots(&pos, base_currency);
            pos.cost_basis_account = cost_basis_account;
            pos.cost_basis_base = cost_basis_base;
            pos.lots = Vec::new();
            backfills.push(
                PositionBackfill {
                    asset_id: pos.asset_id.clone(),
                    cost_basis_account,
                    cost_basis_base,
                },
            );
        }
        out.push((key, pos));
        i = i + 1;
    }
    assert(input.take(n as int) =~= input);
    assert(spec_keys_distinct(input) ==> spec_keys_distinct(out@)) by {
        if spec_keys_distinct(input) {
            assert forall|i: int, j: int|
                0 <= i < out@.len() && 0 <= j < out@.len() && i != j implies (#[trigger] out@[i]).0@
                    != (#[trigger] out@[j]).0@ by {
                assert(out@[i].0 == input[i].0);
                assert(out@[j].0 == input[j].0);
            }
        }
    }
    (out, backfills)
}

/// Stripping is idempotent: positions that embed no lots (such as the output
/// of a strip) yield no backfill, so a snapshot of them is never rewritten.
pub proof fn law_stripped_positions_need_no_second_strip(
    positions: Seq<(String, Position)>,
    account_currency: Seq<char>,
    base_currency: Seq<char>,
)
    requires
        forall|j: int| 0 <= j < positions.len() ==> (#[trigger] positions[j]).1.lots@.len() == 0,
    ensures
        spec_backfills(positions, account_currency, base_currency).len() == 0,
    decreases positions.len(),
{
    if positions.len() > 0 {
        let rest = positions.drop_last();
        assert forall|j: int| 0 <= j < rest.len() implies (#[trigger] rest[j]).1.lots@.len() == 0 by {
            assert(rest[j] == positions[j]);
        }
        law_stripped_positions_need_no_second_strip(rest, account_currency, base_currency);
        assert(positions.last() == positions[positions.len() - 1]);
    }
}

/// The backfills of `positions` hold, at some index, the backfill of every
/// position that embeds lots.
proof fn lemma_backfill_of_position(
    positions: Seq<(String, Position)>,
    account_currency: Seq<char>,
    base_currency: Seq<char>,
    j: int,
) -> (k: int)
    requires
        0 <= j < positions.len(),
        positions[j].1.lots@.len() > 0,
    ensures
        0 <= k < spec_backfills(positions, account_currency, base_currency).len(),
        spec_backfills(positions, account_currency, base_currency)[k] == spec_backfill_of(
            positions[j].1,
            account_currency,
            base_currency,
        ),
    decreases positions.len(),
{
    let rest = positions.drop_last();
    let before = spec_backfills(rest, account_currency, base_currency);
    if j == positions.len() - 1 {
        assert(positions.last() == positions[j]);
        before.len() as int
    } else {
        assert(rest[j] == positions[j]);
        let k = lemma_backfill_of_position(rest, account_currency, base_currency, j);
        k
    }
}

/// A stripped position carries as `cost_basis_account` the cost basis of its
/// lots in the account currency and as `cost_basis_base` that in the base
/// currency: the very values of the backfill emitted for its asset, which
/// the snapshot's relational row receives.
pub proof fn law_stripped_scalars_match_backfill(
    positions: Seq<(String, Position)>,
    out: Seq<(String, Position)>,
    row_account_id: Seq<char>,
    account_currency: Seq<char>,
    base_currency: Seq<char>,
    j: int,
)
    requires
        out.len() == positions.len(),
        forall|i: int|
            0 <= i < positions.len() ==> spec_stripped(
                #[trigger] positions[i].1,
                out[i].1,
                row_account_id,
                account_currency,
                base_currency,
            ),
        0 <= j < positions.len(),
        positions[j].1.lots@.len() > 0,
    ensures
        out[j].1.cost_basis_account == spec_cost_basis_from_lots(
            positions[j].1.lots@,
            positions[j].1.currency@,
            account_currency,
        ),
        out[j].1.cost_basis_base == spec_cost_basis_from_lots(
            positions[j].1.lots@,
            positions[j].1.currency@,
            base_currency,
        ),
        exists|k: int|
            0 <= k < spec_backfills(positions, account_currency, base_currency).len() && {
                let b = #[trigger] spec_backfills(positions, account_currency, base_currency)[k];
                &&& b.asset_id == out[j].1.asset_id
                &&& b.cost_basis_account == out[j].1.cost_basis_account
                &&& b.cost_basis_base == out[j].1.cost_basis_base
            },
{
    assert(spec_stripped(positions[j].1, out[j].1, row_account_id, account_currency, base_currency));
    let k = lemma_backfill_of_position(positions, account_currency, base_currency, j);
    assert(spec_backfills(positions, account_currency, base_currency)[k].asset_id == out[j].1.asset_id);
}

/// The account scalar of a stripped position depends on the account
/// currency alone and the base scalar on the base currency alone: changing
/// the base currency leaves `cost_basis_account` as it is, and changing the
/// account currency leaves `cost_basis_base` as it is.
pub proof fn law_each_scalar_follows_its_own_currency(
    old: Position,
    new_a: Position,
    new_b: Position,
    row_account_id: Seq<char>,
    account_a: Seq<char>,
    base_a: Seq<char>,
    account_b: Seq<char>,
    base_b: Seq<char>,
)
    requires
        spec_stripped(old, new_a, row_account_id, account_a, base_a),
        spec_stripped(old, new_b, row_account_id, account_b, base_b),
    ensures
        account_a == account_b ==> new_a.cost_basis_account == new_b.cost_basis_account,
        base_a == base_b ==> new_a.cost_basis_base == new_b.cost_basis_base,
{
}

} // verus!
