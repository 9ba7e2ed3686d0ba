//! Sums, counts and extremes of the entries of a user within a window, and
//! shares in hundredths of a percent.

use crate::analytics::window::Window;
use crate::models::transaksi::Transaksi;
use vstd::prelude::*;

verus! {

/// Whether an entry counts: it is an entry of `user_id`, its date lies in
/// the window, and it belongs to the category where one is given.
pub open spec fn selects(
    entry: Transaksi,
    user_id: u128,
    window: Window,
    kategori_id: Option<i32>,
) -> bool {
    &&& entry.user_id == user_id
    &&& window.start.day_number() <= entry.tanggal.day_number() <= window.end.day_number()
    &&& kategori_id is Some ==> entry.kategori_id == kategori_id->0
}

/// Whether an entry counts.
pub fn is_selected(entry: &Transaksi, user_id: u128, window: &Window, kategori_id: Option<i32>) -> (r:
    bool)
    ensures
        r == selects(*entry, user_id, *window, kategori_id),
{
    entry.user_id == user_id && window.start.le(&entry.tanggal) && entry.tanggal.le(&window.end)
        && match kategori_id {
        Some(k) => entry.kategori_id == k,
        None => true,
    }
}

/// The sum of the amounts of the entries that count.
pub open spec fn total_of(
    entries: Seq<Transaksi>,
    user_id: u128,
    window: Window,
    kategori_id: Option<i32>,
) -> int
    decreases entries.len(),
{
    if entries.len() == 0 {
        0
    } else {
        total_of(entries.drop_last(), user_id, window, kategori_id) + if selects(
            entries.last(),
            user_id,
            window,
            kategori_id,
        ) {
            entries.last().jumlah as int
        } else {
            0
        }
    }
}

/// The number of the entries that count.
pub open spec fn count_of(
    entries: Seq<Transaksi>,
    user_id: u128,
    window: Window,
    kategori_id: Option<i32>,
) -> int
    decreases entries.len(),
{
    if entries.len() == 0 {
        0
    } else {
        count_of(entries.drop_last(), user_id, window, kategori_id) + if selects(
            entries.last(),
            user_id,
            window,
            kategori_id,
        ) {
            1int
        } else {
            0
        }
    }
}

/// The sum of the amounts of the entries that count, or `None` where it
/// does not fit into 64 bits.
pub fn window_total(
    entries: &Vec<Transaksi>,
    user_id: u128,
    window: &Window,
    kategori_id: Option<i32>,
) -> (r: Option<i64>)
    ensures
        r is Some <==> i64::MIN <= total_of(entries@, user_id, *window, kategori_id) <= i64::MAX,
        r matches Some(v) ==> v == total_of(entries@, user_id, *window, kategori_id),
{
    let mut sum: i128 = 0;
    let mut i: usize = 0;
    while i < entries.len()
        invariant
            i <= entries@.len(),
            sum == total_of(entries@.take(i as int), user_id, *window, kategori_id),
            -(i as int) * 0x8000_0000 <= sum <= (i as int) * 0x8000_0000,
        decreases entries@.len() - i,
    {
        proof {
            assert(entries@.take(i as int + 1).drop_last() =~= entries@.take(i as int));
        }
        if is_selected(&entries[i], user_id, window, kategori_id) {
            sum = sum + entries[i].jumlah as i128;
        }
        i += 1;
    }
    proof {
        assert(entries@.take(i as int) =~= entries@);
    }
    if sum < i64::MIN as i128 || sum > i64::MAX as i128 {
        None
    } else {
        Some(sum as i64)
    }
}

/// The number of the entries that count.
pub fn window_count(
    entries: &Vec<Transaksi>,
    user_id: u128,
    window: &Window,
    kategori_id: Option<i32>,
) -> (r: usize)
    ensures
        r == count_of(entries@, user_id, *window, kategori_id),
{
    let mut count: usize = 0;
    let mut i: usize = 0;
    while i < entries.len()
        invariant
            i <= entries@.len(),
            count == count_of(entries@.take(i as int), user_id, *window, kategori_id),
            count <= i,
        decreases entries@.len() - i,
    {
        proof {
            assert(entries@.take(i as int + 1).drop_last() =~= entries@.take(i as int));
        }
        if is_selected(&entries[i], user_id, window, kategori_id) {
            count = count + 1;
        }
        i += 1;
    }
    proof {
        assert(entries@.take(i as int) =~= entries@);
    }
    count
}

/// Whether `value` is the highest amount among the entries that count:
/// one of them has it and none has more. `None` stands for no entry.
pub open spec fn is_highest(
    value: Option<i32>,
    entries: Seq<Transaksi>,
    user_id: u128,
    window: Window,
) -> bool {
    match value {
        Some(v) => {
            &&& exists|i: int|
                0 <= i < entries.len() && selects(#[trigger] entries[i], user_id, window, None)
                    && entries[i].jumlah == v
            &&& forall|i: int|
                0 <= i < entries.len() && selects(#[trigger] entries[i], user_id, window, None)
                    ==> entries[i].jumlah <= v
        },
        None => forall|i: int|
            0 <= i < entries.len() ==> !selects(#[trigger] entries[i], user_id, window, None),
    }
}

/// Whether `value` is the lowest amount above zero among the entries that
/// count: one of them has it and none has a lower one above zero. `None`
/// stands for no entry with an amount above zero.
pub open spec fn is_lowest_positive(
    value: Option<i32>,
    entries: Seq<Transaksi>,
    user_id: u128,
    window: Window,
) -> bool {
    match value {
        Some(v) => {
            &&& v > 0
            &&& exists|i: int|
                0 <= i < entries.len() && selects(#[trigger] entries[i], user_id, window, None)
                    && entries[i].jumlah == v
            &&& forall|i: int|
                0 <= i < entries.len() && selects(#[trigger] entries[i], user_id, window, None)
                    && entries[i].jumlah > 0 ==> entries[i].jumlah >= v
        },
        None => forall|i: int|
            0 <= i < entries.len() && selects(#[trigger] entries[i], user_id, window, None)
                ==> entries[i].jumlah <= 0,
    }
}

/// The highest amount among the entries of the user in the window, or
/// `None` where there is none.
pub fn window_highest(entries: &Vec<Transaksi>, user_id: u128, window: &Window) -> (r: Option<i32>)
    ensures
        is_highest(r, entries@, user_id, *window),
{
    let mut best: Option<i32> = None;
    let mut i: usize = 0;
    while i < entries.len()
        invariant
            i <= entries@.len(),
            is_highest(best, entries@.take(i as int), user_id, *window),
        decreases entries@.len() - i,
    {
        let ghost before = entries@.take(i as int);
        let ghost after = entries@.take(i as int + 1);
        let ghost previous = best;
        if is_selected(&entries[i], user_id, window, None) {
            let amount = entries[i].jumlah;
            match best {
                Some(v) => {
                    if amount > v {
                        best = Some(amount);
                    }
                },
                None => {
                    best = Some(amount);
                },
            }
        }
        proof {
            assert forall|k: int| 0 <= k < i implies #[trigger] after[k] == before[k] by {}
            assert(after[i as int] == entries@[i as int]);
            if best is Some {
                if previous is Some && best == previous {
                    let w = choose|k: int|
                        0 <= k < before.len() && selects(
                            #[trigger] before[k],
                            user_id,
                            *window,
                            None,
                        ) && before[k].jumlah == previous->0;
                    assert(after[w] == before[w]);
                } else {
                    assert(selects(after[i as int], user_id, *window, None));
                }
                assert forall|k: int|
                    0 <= k < after.len() && selects(
                        #[trigger] after[k],
                        user_id,
                        *window,
                        None,
                    ) implies after[k].jumlah <= best->0 by {
                    if k < i {
                        assert(after[k] == before[k]);
                    }
                }
            } else {
                assert forall|k: int| 0 <= k < after.len() implies !selects(
                    #[trigger] after[k],
                    user_id,
                    *window,
                    None,
                ) by {
                    if k < i {
                        assert(after[k] == before[k]);
                    }
                }
            }
        }
        i += 1;
    }
    proof {
        assert(entries@.take(i as int) =~= entries@);
    }
    best
}

/// The lowest amount above zero among the entries of the user in the
/// window, or `None` where none has an amount above zero.
pub fn window_lowest_positive(entries: &Vec<Transaksi>, user_id: u128, window: &Window) -> (r:
    Option<i32>)
    ensures
        is_lowest_positive(r, entries@, user_id, *window),
{
    let mut best: Option<i32> = None;
    let mut i: usize = 0;
    while i < entries.len()
        invariant
            i <= entries@.len(),
            is_lowest_positive(best, entries@.take(i as int), user_id, *window),
        decreases entries@.len() - i,
    {
        let ghost before = entries@.take(i as int);
        let ghost after = entries@.take(i as int + 1);
        let ghost previous = best;
        if is_selected(&entries[i], user_id, window, None) && entries[i].jumlah > 0 {
            let amount = entries[i].jumlah;
            match best {
                Some(v) => {
                    if amount < v {
                        best = Some(amount);
                    }
                },
                None => {
                    best = Some(amount);
                },
            }
        }
        proof {
            assert forall|k: int| 0 <= k < i implies #[trigger] after[k] == before[k] by {}
            assert(after[i as int] == entries@[i as int]);
            if best is Some {
                if previous is Some && best == previous {
                    let w = choose|k: int|
                        0 <= k < before.len() && selects(
                            #[trigger] before[k],
                            user_id,
                            *window,
                            None,
                        ) && before[k].jumlah == previous->0;
                    assert(after[w] == before[w]);
                } else {
                    assert(selects(after[i as int], user_id, *window, None));
                }
                assert forall|k: int|
                    0 <= k < after.len() && selects(
                        #[trigger] after[k],
                        user_id,
                        *window,
                        None,
                    ) && after[k].jumlah > 0 implies after[k].jumlah >= best->0 by {
                    if k < i {
                        assert(after[k] == before[k]);
                    }
                }
            } else {
                assert forall|k: int|
                    0 <= k < after.len() && selects(
                        #[trigger] after[k],
                        user_id,
                        *window,
                        None,
                    ) implies after[k].jumlah <= 0 by {
                    if k < i {
                        assert(after[k] == before[k]);
                    }
                }
            }
        }
        i += 1;
    }
    proof {
        assert(entries@.take(i as int) =~= entries@);
    }
    best
}

/// The quotient of `n` by `d`, for `d` above zero, rounded to the nearest
/// whole number, a half away from zero.
pub open spec fn round_half_away(n: int, d: int) -> int {
    if n >= 0 {
        (2 * n + d) / (2 * d)
    } else {
        -((-2 * n + d) / (2 * d))
    }
}

/// The share of `part` in `total` in hundredths of a percent, rounded to
/// the nearest, a half away from zero; zero where `total` is not above
/// zero.
pub open spec fn spec_percentage_basis_points(part: int, total: int) -> int {
    if total > 0 {
        round_half_away(part * 10000, total)
    } else {
        0
    }
}

/// The share of `part` in `total` in hundredths of a percent, or `None`
/// where it does not fit into 64 bits.
pub fn percentage_basis_points(part: i64, total: i64) -> (r: Option<i64>)
    ensures
        r is Some <==> i64::MIN <= spec_percentage_basis_points(part as int, total as int)
            <= i64::MAX,
        r matches Some(v) ==> v == spec_percentage_basis_points(part as int, total as int),
        total <= 0 ==> r == Some(0i64),
{
    if total <= 0 {
        return Some(0);
    }
    let n: i128 = part as i128 * 10000;
    let d: i128 = total as i128;
    assert(-0x8000_0000_0000_0000 * 10000 <= n <= 0x8000_0000_0000_0000 * 10000);
    let q: i128 = if n >= 0 {
        (2 * n + d) / (2 * d)
    } else {
        let twice: i128 = 2 * n;
        let above: i128 = d - twice;
        assert(above == -2 * n + d);
        let twice_total: i128 = 2 * d;
        assert(0 <= (above as int) / (twice_total as int) <= above) by (nonlinear_arith)
            requires
                above >= 0,
                twice_total > 0,
        ;
        -(above / twice_total)
    };
    if q < i64::MIN as i128 || q > i64::MAX as i128 {
        None
    } else {
        Some(q as i64)
    }
}

/// Where nothing was spent in all, the share of every part is zero.
pub proof fn lemma_percentage_of_nothing(part: int, total: int)
    requires
        total <= 0,
    ensures
        spec_percentage_basis_points(part, total) == 0,
{
}

} // verus!
