//! Budgets: a spending limit per user and category, with the running total
//! of what was spent.

use vstd::prelude::*;

verus! {

/// The budget of one user for one category. `spent` follows the ledger;
/// a missing value counts as zero.
#[derive(Clone, Copy, Debug, PartialEq, Eq, Structural)]
pub struct Budget {
    pub id: i32,
    pub user_id: u128,
    pub kategori_id: i32,
    pub amount: i32,
    pub spent: Option<i32>,
    pub created_at: Option<i64>,
    pub updated_at: Option<i64>,
}

impl Budget {
    /// What was spent, with a missing value read as zero.
    pub open spec fn spec_spent_or_zero(&self) -> int {
        match self.spent {
            Some(s) => s as int,
            None => 0,
        }
    }

    /// What was spent, with a missing value read as zero.
    pub fn spent_or_zero(&self) -> (r: i32)
        ensures
            r == self.spec_spent_or_zero(),
    {
        match self.spent {
            Some(s) => s,
            None => 0,
        }
    }

    /// Whether this is the budget of `user_id` for `kategori_id`.
    pub open spec fn spec_is_for(&self, user_id: u128, kategori_id: i32) -> bool {
        self.user_id == user_id && self.kategori_id == kategori_id
    }

    /// Whether this is the budget of `user_id` for `kategori_id`.
    pub fn is_for(&self, user_id: u128, kategori_id: i32) -> (r: bool)
        ensures
            r == self.spec_is_for(user_id, kategori_id),
    {
        self.user_id == user_id && self.kategori_id == kategori_id
    }
}

/// A change to the running total of a budget.
#[derive(Clone, Copy, Debug, PartialEq, Eq, Structural)]
pub enum Adjustment {
    /// Add an amount.
    Tambah(i64),
    /// Take an amount away, and stop at zero.
    Kurang(i64),
}

impl Adjustment {
    /// The total that the change makes of `spent`, a missing value read as
    /// zero.
    pub open spec fn spec_apply(&self, spent: Option<i32>) -> int {
        let before: int = match spent {
            Some(s) => s as int,
            None => 0,
        };
        match *self {
            Adjustment::Tambah(delta) => before + delta,
            Adjustment::Kurang(amount) => if before - amount >= 0 {
                before - amount
            } else {
                0
            },
        }
    }

    /// Whether the change leaves a total that is not below zero at zero or
    /// above: it takes an amount away and stops at zero, or it adds an
    /// amount that is not below zero.
    pub open spec fn spec_never_lowers_below_zero(&self) -> bool {
        match *self {
            Adjustment::Tambah(delta) => delta >= 0,
            Adjustment::Kurang(_) => true,
        }
    }

    /// The change that moves a total by `delta` and stops at zero: an
    /// amount added where `delta` is not below zero, else an amount taken
    /// away.
    pub open spec fn spec_moved_by(delta: int) -> Adjustment {
        if delta >= 0 {
            Adjustment::Tambah(delta as i64)
        } else {
            Adjustment::Kurang((-delta) as i64)
        }
    }

    /// The change that moves a total by `delta` and stops at zero.
    pub fn moved_by(delta: i64) -> (r: Adjustment)
        requires
            delta > i64::MIN,
        ensures
            r == Self::spec_moved_by(delta as int),
            r.spec_never_lowers_below_zero(),
    {
        if delta >= 0 {
            Adjustment::Tambah(delta)
        } else {
            Adjustment::Kurang(-delta)
        }
    }

    /// Whether the new total can be stored.
    pub open spec fn spec_fits(&self, spent: Option<i32>) -> bool {
        i32::MIN <= self.spec_apply(spent) <= i32::MAX
    }

    /// The total that the change makes of `spent`, or `None` where it
    /// cannot be stored.
    pub fn apply(&self, spent: Option<i32>) -> (r: Option<i32>)
        ensures
            r is Some <==> self.spec_fits(spent),
            r matches Some(v) ==> v == self.spec_apply(spent),
    {
        let before: i64 = match spent {
            Some(s) => s as i64,
            None => 0,
        };
        let after: i64 = match *self {
            Adjustment::Tambah(delta) => {
                if delta < -0x1_0000_0000i64 || delta > 0x1_0000_0000i64 {
                    return None;
                }
                before + delta
            },
            Adjustment::Kurang(amount) => {
                if amount < -0x1_0000_0000i64 {
                    return None;
                }
                if amount > 0x1_0000_0000i64 {
                    0
                } else {
                    let rest: i64 = before - amount;
                    if rest >= 0 {
                        rest
                    } else {
                        0
                    }
                }
            },
        };
        if after < i32::MIN as i64 || after > i32::MAX as i64 {
            None
        } else {
            Some(after as i32)
        }
    }
}

/// A budget after a change to its running total at the time `now`.
pub open spec fn adjusted(budget: Budget, adjustment: Adjustment, now: i64) -> Budget {
    Budget {
        spent: Some(adjustment.spec_apply(budget.spent) as i32),
        updated_at: Some(now),
        ..budget
    }
}

/// The budgets after a change to the running total of those of `user_id`
/// for `kategori_id`; the others stay as they are.
pub open spec fn adjust_all(
    budgets: Seq<Budget>,
    user_id: u128,
    kategori_id: i32,
    adjustment: Adjustment,
    now: i64,
) -> Seq<Budget> {
    Seq::new(
        budgets.len(),
        |i: int|
            if budgets[i].spec_is_for(user_id, kategori_id) {
                adjusted(budgets[i], adjustment, now)
            } else {
                budgets[i]
            },
    )
}

/// Whether the change can be stored in every budget of `user_id` for
/// `kategori_id`.
pub open spec fn can_adjust_all(
    budgets: Seq<Budget>,
    user_id: u128,
    kategori_id: i32,
    adjustment: Adjustment,
) -> bool {
    forall|i: int|
        0 <= i < budgets.len() && (#[trigger] budgets[i]).spec_is_for(user_id, kategori_id)
            ==> adjustment.spec_fits(budgets[i].spent)
}

/// Taking an amount that is not negative away from a running total never
/// fails: the new total lies between zero and the old one, or is zero.
pub proof fn lemma_kurang_fits(budgets: Seq<Budget>, user_id: u128, kategori_id: i32, amount: i64)
    requires
        amount >= 0,
    ensures
        can_adjust_all(budgets, user_id, kategori_id, Adjustment::Kurang(amount)),
{
}

/// Changes the running total of the budgets of `user_id` for
/// `kategori_id`. Returns the budgets after the change, or `None` where a
/// new total cannot be stored.
pub fn adjust_budgets(
    budgets: &Vec<Budget>,
    user_id: u128,
    kategori_id: i32,
    adjustment: Adjustment,
    now: i64,
) -> (r: Option<Vec<Budget>>)
    ensures
        r is Some <==> can_adjust_all(budgets@, user_id, kategori_id, adjustment),
        r matches Some(v) ==> v@ == adjust_all(budgets@, user_id, kategori_id, adjustment, now),
{
    let mut out: Vec<Budget> = Vec::new();
    let mut i: usize = 0;
    while i < budgets.len()
        invariant
            i <= budgets@.len(),
            out@.len() == i,
            forall|k: int|
                0 <= k < i && (#[trigger] budgets@[k]).spec_is_for(user_id, kategori_id)
                    ==> adjustment.spec_fits(budgets@[k].spent),
            forall|k: int|
                0 <= k < i ==> #[trigger] out@[k] == adjust_all(
                    budgets@,
                    user_id,
                    kategori_id,
                    adjustment,
                    now,
                )[k],
        decreases budgets@.len() - i,
    {
        let b = budgets[i];
        if b.is_for(user_id, kategori_id) {
            match adjustment.apply(b.spent) {
                Some(v) => {
                    out.push(Budget { spent: Some(v), updated_at: Some(now), ..b });
                },
                None => {
                    return None;
                },
            }
        } else {
            out.push(b);
        }
        i += 1;
    }
    assert(out@ =~= adjust_all(budgets@, user_id, kategori_id, adjustment, now));
    Some(out)
}

/// A budget together with the name of its category, the user identifier
/// in its text form and `spent` with a missing value read as zero.
#[derive(Debug)]
pub struct BudgetWithCategory {
    pub id: i32,
    pub user_id: String,
    pub kategori_id: i32,
    pub kategori_nama: String,
    pub amount: i32,
    pub spent: i32,
}

/// The fields of a new budget.
#[derive(Clone, Copy, Debug)]
pub struct CreateBudgetRequest {
    pub kategori_id: i32,
    pub amount: i32,
}

/// The fields of a budget to change; a field that is `None` keeps its
/// value.
#[derive(Clone, Copy, Debug)]
pub struct UpdateBudgetRequest {
    pub amount: Option<i32>,
    pub spent: Option<i32>,
}

} // verus!
