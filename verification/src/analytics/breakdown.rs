//! The spending per category within a window.

use crate::analytics::totals::{
    percentage_basis_points, spec_percentage_basis_points, total_of, window_total,
};
use crate::analytics::window::Window;
use crate::models::kategori::Kategori;
use crate::models::statistik::{PengeluaranKategori, PengeluaranKategoriView};
use crate::models::transaksi::Transaksi;
use crate::teks::{lemma_lex_le_total, lemma_lex_le_transitive, lex_le, str_le};
use vstd::prelude::*;

verus! {

/// The row of one category in the breakdown of a window: its name, what
/// the user spent in it within the window, and the share of that in what
/// the user spent within the window in all.
pub open spec fn breakdown_row(
    kategori: Kategori,
    entries: Seq<Transaksi>,
    user_id: u128,
    window: Window,
) -> PengeluaranKategoriView {
    let spent = total_of(entries, user_id, window, Some(kategori.id));
    PengeluaranKategoriView {
        kategori_nama: kategori.nama@,
        total_pengeluaran: spent,
        persentase_basis_poin: spec_percentage_basis_points(
            spent,
            total_of(entries, user_id, window, None),
        ),
    }
}

/// The rows of all categories, in the order of the categories. A category
/// in which nothing was spent has a row as well.
pub open spec fn breakdown_rows(
    kategori: Seq<Kategori>,
    entries: Seq<Transaksi>,
    user_id: u128,
    window: Window,
) -> Seq<PengeluaranKategoriView> {
    Seq::new(kategori.len(), |i: int| breakdown_row(kategori[i], entries, user_id, window))
}

/// Whether the row `a` may stand before the row `b`: it has the higher
/// spending, or the same and a name that does not come later.
pub open spec fn row_before(a: PengeluaranKategoriView, b: PengeluaranKategoriView) -> bool {
    a.total_pengeluaran > b.total_pengeluaran || (a.total_pengeluaran == b.total_pengeluaran
        && lex_le(a.kategori_nama, b.kategori_nama))
}

/// Whether the rows are ordered by falling spending, and by rising name
/// where the spending is the same.
pub open spec fn rows_sorted(rows: Seq<PengeluaranKategoriView>) -> bool {
    forall|i: int, j: int| 0 <= i < j < rows.len() ==> row_before(rows[i], rows[j])
}

/// The rows that a breakdown holds, as plain values.
pub open spec fn rows_of(rows: Seq<PengeluaranKategori>) -> Seq<PengeluaranKategoriView> {
    Seq::new(rows.len(), |i: int| rows[i]@)
}

/// Whether every number of the breakdown fits into 64 bits.
pub open spec fn breakdown_fits(
    kategori: Seq<Kategori>,
    entries: Seq<Transaksi>,
    user_id: u128,
    window: Window,
) -> bool {
    &&& i64::MIN <= total_of(entries, user_id, window, None) <= i64::MAX
    &&& forall|i: int|
        0 <= i < kategori.len() ==> {
            let row = #[trigger] breakdown_row(kategori[i], entries, user_id, window);
            &&& i64::MIN <= row.total_pengeluaran <= i64::MAX
            &&& i64::MIN <= row.persentase_basis_poin <= i64::MAX
        }
}

/// Whether the row `a` may stand before the row `b`.
fn is_row_before(a: &PengeluaranKategori, b: &PengeluaranKategori) -> (r: bool)
    ensures
        r == row_before(a@, b@),
{
    a.total_pengeluaran > b.total_pengeluaran || (a.total_pengeluaran == b.total_pengeluaran
        && str_le(a.kategori_nama.as_str(), b.kategori_nama.as_str()))
}

/// Of two rows, one may stand before the other.
pub proof fn lemma_row_before_total(a: PengeluaranKategoriView, b: PengeluaranKategoriView)
    ensures
        row_before(a, b) || row_before(b, a),
{
    lemma_lex_le_total(a.kategori_nama, b.kategori_nama);
}

/// The order of the rows is transitive.
pub proof fn lemma_row_before_transitive(
    a: PengeluaranKategoriView,
    b: PengeluaranKategoriView,
    c: PengeluaranKategoriView,
)
    requires
        row_before(a, b),
        row_before(b, c),
    ensures
        row_before(a, c),
{
    if a.total_pengeluaran == b.total_pengeluaran && b.total_pengeluaran == c.total_pengeluaran {
        lemma_lex_le_transitive(a.kategori_nama, b.kategori_nama, c.kategori_nama);
    }
}

/// Puts `row` into the ordered rows `out` at its place.
fn insert_row(out: &mut Vec<PengeluaranKategori>, row: PengeluaranKategori)
    requires
        rows_sorted(rows_of(old(out)@)),
    ensures
        rows_sorted(rows_of(final(out)@)),
        rows_of(final(out)@).to_multiset() == rows_of(old(out)@).to_multiset().insert(row@),
{
    let ghost before = rows_of(out@);
    let mut at: usize = 0;
    while at < out.len() && is_row_before(&out[at], &row)
        invariant
            at <= out@.len(),
            out@ == old(out)@,
            before == rows_of(out@),
            forall|k: int| 0 <= k < at ==> row_before(#[trigger] before[k], row@),
        decreases out@.len() - at,
    {
        assert(before[at as int] == out@[at as int]@);
        at += 1;
    }
    proof {
        if at < out@.len() {
            lemma_row_before_total(before[at as int], row@);
            assert forall|k: int| at <= k < before.len() implies row_before(
                row@,
                #[trigger] before[k],
            ) by {
                if k > at {
                    lemma_row_before_transitive(row@, before[at as int], before[k]);
                }
            }
        }
    }
    let ghost inserted = row@;
    out.insert(at, row);
    proof {
        let after = rows_of(out@);
        assert(after =~= before.insert(at as int, inserted));
        vstd::seq_lib::to_multiset_insert(before, at as int, inserted);
        assert forall|i: int, j: int| 0 <= i < j < after.len() implies row_before(
            after[i],
            after[j],
        ) by {
            if j < at {
                assert(after[i] == before[i] && after[j] == before[j]);
            } else if j == at {
                assert(after[i] == before[i]);
            } else if i < at {
                assert(after[i] == before[i] && after[j] == before[j - 1]);
            } else if i == at {
                assert(after[j] == before[j - 1]);
            } else {
                assert(after[i] == before[i - 1] && after[j] == before[j - 1]);
            }
        }
    }
}

/// The spending of the user per category within the window: one row for
/// each category, those without spending too, ordered by falling spending
/// and then by rising name. Returns `None` where a number does not fit
/// into 64 bits.
pub fn category_breakdown(
    kategori: &Vec<Kategori>,
    entries: &Vec<Transaksi>,
    user_id: u128,
    window: &Window,
) -> (r: Option<Vec<PengeluaranKategori>>)
    ensures
        r is Some <==> breakdown_fits(kategori@, entries@, user_id, *window),
        r matches Some(rows) ==> {
            &&& rows_sorted(rows_of(rows@))
            &&& rows_of(rows@).to_multiset() == breakdown_rows(
                kategori@,
                entries@,
                user_id,
                *window,
            ).to_multiset()
            &&& rows@.len() == kategori@.len()
            &&& total_of(entries@, user_id, *window, None) <= 0 ==> forall|k: int|
                0 <= k < rows@.len() ==> (#[trigger] rows@[k]).persentase_basis_poin == 0
        },
{
    let total = match window_total(entries, user_id, window, None) {
        Some(t) => t,
        None => {
            return None;
        },
    };
    let ghost all = breakdown_rows(kategori@, entries@, user_id, *window);
    let mut out: Vec<PengeluaranKategori> = Vec::new();
    let mut i: usize = 0;
    proof {
        assert(rows_of(out@) =~= all.take(0));
    }
    while i < kategori.len()
        invariant
            i <= kategori@.len(),
            all == breakdown_rows(kategori@, entries@, user_id, *window),
            total == total_of(entries@, user_id, *window, None),
            rows_sorted(rows_of(out@)),
            rows_of(out@).to_multiset() == all.take(i as int).to_multiset(),
            forall|k: int|
                0 <= k < i ==> {
                    let row = #[trigger] breakdown_row(kategori@[k], entries@, user_id, *window);
                    &&& i64::MIN <= row.total_pengeluaran <= i64::MAX
                    &&& i64::MIN <= row.persentase_basis_poin <= i64::MAX
                },
        decreases kategori@.len() - i,
    {
        let ghost expected = breakdown_row(kategori@[i as int], entries@, user_id, *window);
        let spent = match window_total(entries, user_id, window, Some(kategori[i].id)) {
            Some(t) => t,
            None => {
                return None;
            },
        };
        let share = match percentage_basis_points(spent, total) {
            Some(p) => p,
            None => {
                return None;
            },
        };
        let row = PengeluaranKategori {
            kategori_nama: kategori[i].nama.clone(),
            total_pengeluaran: spent,
            persentase_basis_poin: share,
        };
        proof {
            assert(row@ == expected);
            assert(all.take(i as int + 1) =~= all.take(i as int).push(all[i as int]));
            vstd::seq_lib::to_multiset_build(all.take(i as int), all[i as int]);
        }
        insert_row(&mut out, row);
        i += 1;
    }
    proof {
        assert(all.take(i as int) =~= all);
        vstd::seq_lib::to_multiset_len(rows_of(out@));
        vstd::seq_lib::to_multiset_len(all);
        if total <= 0 {
            assert forall|k: int| 0 <= k < out@.len() implies (
            #[trigger] out@[k]).persentase_basis_poin == 0 by {
                let row = rows_of(out@)[k];
                assert(rows_of(out@).contains(row));
                vstd::seq_lib::to_multiset_contains(rows_of(out@), row);
                vstd::seq_lib::to_multiset_contains(all, row);
                let j = choose|j: int| 0 <= j < all.len() && all[j] == row;
                lemma_breakdown_of_nothing(kategori@, entries@, user_id, *window, j);
            }
        }
    }
    Some(out)
}

/// Where the user spent nothing within the window in all, the share of
/// every category is zero.
pub proof fn lemma_breakdown_of_nothing(
    kategori: Seq<Kategori>,
    entries: Seq<Transaksi>,
    user_id: u128,
    window: Window,
    i: int,
)
    requires
        0 <= i < kategori.len(),
        total_of(entries, user_id, window, None) <= 0,
    ensures
        breakdown_rows(kategori, entries, user_id, window)[i].persentase_basis_poin == 0,
{
}

} // verus!
