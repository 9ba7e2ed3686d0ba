//! Changes to the ledger one after the other, and what holds after any
//! number of them.

use crate::database::{all_nonnegative, budgets_follow_ledger, lemma_spent_total_nonnegative};
use crate::ledger::create::{budgets_after_create, lemma_create_keeps_consistency};
use crate::ledger::delete::{budgets_after_delete, lemma_delete_keeps_consistency};
use crate::ledger::update::{
    budgets_after_update, can_update_budgets, lemma_update_keeps_consistency,
};
use crate::models::budget::{can_adjust_all, Adjustment, Budget};
use crate::models::transaksi::Transaksi;
use vstd::prelude::*;

verus! {

/// One change to the ledger, with the time at which it is made: an entry
/// is added, the entry at a place is replaced by another of the same
/// user, or the entry at a place is taken out.
pub ghost enum Step {
    Create { entry: Transaksi, now: i64 },
    Update { at: int, new: Transaksi, now: i64 },
    Delete { at: int, now: i64 },
}

/// Whether the change can be made: a new entry has an amount above zero,
/// a changed one an amount that is not below zero, the place exists, and
/// the running totals can be stored afterwards.
pub open spec fn step_applies(budgets: Seq<Budget>, entries: Seq<Transaksi>, step: Step) -> bool {
    match step {
        Step::Create { entry, now } => entry.jumlah > 0 && can_adjust_all(
            budgets,
            entry.user_id,
            entry.kategori_id,
            Adjustment::Tambah(entry.jumlah as i64),
        ),
        Step::Update { at, new, now } => 0 <= at < entries.len() && new.user_id
            == entries[at].user_id && new.jumlah >= 0 && can_update_budgets(
            budgets,
            new.user_id,
            entries[at].kategori_id,
            entries[at].jumlah,
            new.kategori_id,
            new.jumlah,
        ),
        Step::Delete { at, now } => 0 <= at < entries.len(),
    }
}

/// The budgets after the change.
pub open spec fn budgets_after(budgets: Seq<Budget>, entries: Seq<Transaksi>, step: Step) -> Seq<
    Budget,
> {
    match step {
        Step::Create { entry, now } => budgets_after_create(budgets, entry, now),
        Step::Update { at, new, now } => budgets_after_update(budgets, entries[at], new, now),
        Step::Delete { at, now } => budgets_after_delete(budgets, entries[at], now),
    }
}

/// The ledger after the change.
pub open spec fn entries_after(entries: Seq<Transaksi>, step: Step) -> Seq<Transaksi> {
    match step {
        Step::Create { entry, now } => entries.push(entry),
        Step::Update { at, new, now } => entries.update(at, new),
        Step::Delete { at, now } => entries.remove(at),
    }
}

/// Whether the changes can be made one after the other.
pub open spec fn steps_apply(budgets: Seq<Budget>, entries: Seq<Transaksi>, steps: Seq<Step>) -> bool
    decreases steps.len(),
{
    steps.len() == 0 || (step_applies(budgets, entries, steps.first()) && steps_apply(
        budgets_after(budgets, entries, steps.first()),
        entries_after(entries, steps.first()),
        steps.drop_first(),
    ))
}

/// The budgets and the ledger after the changes were made one after the
/// other.
pub open spec fn after_steps(budgets: Seq<Budget>, entries: Seq<Transaksi>, steps: Seq<Step>) -> (
    Seq<Budget>,
    Seq<Transaksi>,
)
    decreases steps.len(),
{
    if steps.len() == 0 {
        (budgets, entries)
    } else {
        after_steps(
            budgets_after(budgets, entries, steps.first()),
            entries_after(entries, steps.first()),
            steps.drop_first(),
        )
    }
}

/// Where every budget's running total is the total of its ledger entries
/// and no entry has an amount below zero, this still holds after any
/// changes to the ledger, however many: after each
/// of them, every running total is the sum of the amounts of the entries
/// that are left of its user in its category, which is never below zero.
pub proof fn lemma_steps_keep_consistency(
    budgets: Seq<Budget>,
    entries: Seq<Transaksi>,
    steps: Seq<Step>,
)
    requires
        budgets_follow_ledger(budgets, entries),
        all_nonnegative(entries),
        steps_apply(budgets, entries, steps),
    ensures
        budgets_follow_ledger(
            after_steps(budgets, entries, steps).0,
            after_steps(budgets, entries, steps).1,
        ),
        all_nonnegative(after_steps(budgets, entries, steps).1),
        forall|i: int|
            0 <= i < after_steps(budgets, entries, steps).0.len() ==> (#[trigger] after_steps(
                budgets,
                entries,
                steps,
            ).0[i]).spec_spent_or_zero() >= 0,
    decreases steps.len(),
{
    if steps.len() == 0 {
        assert forall|i: int| 0 <= i < budgets.len() implies (
        #[trigger] budgets[i]).spec_spent_or_zero() >= 0 by {
            lemma_spent_total_nonnegative(entries, budgets[i].user_id, budgets[i].kategori_id);
        }
    } else {
        let step = steps.first();
        let next_entries = entries_after(entries, step);
        match step {
            Step::Create { entry, now } => {
                lemma_create_keeps_consistency(budgets, entries, entry, now);
                assert forall|i: int| 0 <= i < next_entries.len() implies (
                #[trigger] next_entries[i]).jumlah >= 0 by {
                    if i < entries.len() {
                        assert(next_entries[i] == entries[i]);
                    }
                }
            },
            Step::Update { at, new, now } => {
                lemma_update_keeps_consistency(budgets, entries, at, new, now);
                assert forall|i: int| 0 <= i < next_entries.len() implies (
                #[trigger] next_entries[i]).jumlah >= 0 by {
                    if i != at {
                        assert(next_entries[i] == entries[i]);
                    }
                }
            },
            Step::Delete { at, now } => {
                lemma_delete_keeps_consistency(budgets, entries, at, now);
                assert forall|i: int| 0 <= i < next_entries.len() implies (
                #[trigger] next_entries[i]).jumlah >= 0 by {
                    if i < at {
                        assert(next_entries[i] == entries[i]);
                    } else {
                        assert(next_entries[i] == entries[i + 1]);
                    }
                }
            },
        }
        lemma_steps_keep_consistency(
            budgets_after(budgets, entries, step),
            next_entries,
            steps.drop_first(),
        );
    }
}

} // verus!
