//! Listings of ledger entries, the most recent first.

use crate::database::{has_kategori, has_kategori_id, kategori_name, spec_kategori_name};
use crate::models::kategori::Kategori;
use crate::models::statistik::TransaksiTerakhir;
use crate::models::transaksi::Transaksi;
use crate::tanggal::{formatted_ymd, Tanggal};
use vstd::prelude::*;

verus! {

/// Whether the entry `a` may be listed before the entry `b` among the
/// most recent: it has the later date, or the same date and was created
/// no earlier. An entry without a time of creation counts as created
/// last.
pub open spec fn recent_before(a: Transaksi, b: Transaksi) -> bool {
    a.tanggal.day_number() > b.tanggal.day_number() || (a.tanggal.day_number()
        == b.tanggal.day_number() && (a.created_at is None || (b.created_at is Some
        && a.created_at->0 >= b.created_at->0)))
}

/// Whether the entry `a` may be listed before the entry `b`.
fn is_recent_before(a: &Transaksi, b: &Transaksi) -> (r: bool)
    ensures
        r == recent_before(*a, *b),
{
    b.tanggal.lt(&a.tanggal) || (a.tanggal.same_day(&b.tanggal) && match a.created_at {
        None => true,
        Some(x) => match b.created_at {
            None => false,
            Some(y) => x >= y,
        },
    })
}

/// Which entries of the ledger a listing holds: those of one user, and
/// of them only those of one category, from a first day on, up to a last
/// day, and with a category that exists, as far as each is asked for.
#[derive(Clone, Copy, Debug, PartialEq, Eq, Structural)]
pub struct Selection {
    pub user_id: u128,
    pub kategori_id: Option<i32>,
    pub start: Option<Tanggal>,
    pub end: Option<Tanggal>,
    pub known_kategori: bool,
}

impl Selection {
    /// Every entry of the user.
    pub open spec fn spec_of_user(user_id: u128) -> Selection {
        Selection { user_id, kategori_id: None, start: None, end: None, known_kategori: false }
    }

    /// Every entry of the user.
    pub fn of_user(user_id: u128) -> (r: Selection)
        ensures
            r == Self::spec_of_user(user_id),
    {
        Selection { user_id, kategori_id: None, start: None, end: None, known_kategori: false }
    }

    /// Whether the listing holds the entry.
    pub open spec fn keeps(&self, entry: Transaksi, kategori: Seq<Kategori>) -> bool {
        &&& entry.user_id == self.user_id
        &&& self.kategori_id is Some ==> entry.kategori_id == self.kategori_id->0
        &&& self.start is Some ==> self.start->0.day_number() <= entry.tanggal.day_number()
        &&& self.end is Some ==> entry.tanggal.day_number() <= self.end->0.day_number()
        &&& self.known_kategori ==> has_kategori(kategori, entry.kategori_id)
    }

    /// Whether the listing holds the entry.
    pub fn is_kept(&self, entry: &Transaksi, kategori: &Vec<Kategori>) -> (r: bool)
        ensures
            r == self.keeps(*entry, kategori@),
    {
        entry.user_id == self.user_id && (match self.kategori_id {
            Some(k) => entry.kategori_id == k,
            None => true,
        }) && (match &self.start {
            Some(d) => d.le(&entry.tanggal),
            None => true,
        }) && (match &self.end {
            Some(d) => entry.tanggal.le(d),
            None => true,
        }) && (!self.known_kategori || has_kategori_id(kategori, entry.kategori_id))
    }
}

/// Whether `order` lists the places of those of the first `upto` entries
/// of the ledger that the selection keeps, each once, the most recent
/// first.
pub open spec fn is_recent_order(
    order: Seq<usize>,
    entries: Seq<Transaksi>,
    kategori: Seq<Kategori>,
    selection: Selection,
    upto: int,
) -> bool {
    &&& forall|k: int|
        0 <= k < order.len() ==> (#[trigger] order[k]) < upto && selection.keeps(
            entries[order[k] as int],
            kategori,
        )
    &&& forall|a: int, b: int| 0 <= a < b < order.len() ==> order[a] != order[b]
    &&& forall|i: int|
        0 <= i < upto && selection.keeps(#[trigger] entries[i], kategori) ==> order.contains(
            i as usize,
        )
    &&& forall|a: int, b: int|
        0 <= a < b < order.len() ==> recent_before(
            entries[order[a] as int],
            entries[order[b] as int],
        )
}

/// Puts the place `index` into the ordered places `order`.
fn insert_recent(
    order: &mut Vec<usize>,
    entries: &Vec<Transaksi>,
    kategori: Ghost<Seq<Kategori>>,
    selection: Ghost<Selection>,
    index: usize,
)
    requires
        index < entries@.len(),
        selection@.keeps(entries@[index as int], kategori@),
        is_recent_order(old(order)@, entries@, kategori@, selection@, index as int),
    ensures
        is_recent_order(final(order)@, entries@, kategori@, selection@, index as int + 1),
        final(order)@.len() == old(order)@.len() + 1,
{
    let ghost before = order@;
    let mut at: usize = 0;
    while at < order.len() && is_recent_before(&entries[order[at]], &entries[index])
        invariant
            at <= order@.len(),
            order@ == before,
            index < entries@.len(),
            is_recent_order(before, entries@, kategori@, selection@, index as int),
            forall|k: int|
                0 <= k < at ==> recent_before(
                    entries@[(#[trigger] before[k]) as int],
                    entries@[index as int],
                ),
        decreases order@.len() - at,
    {
        at += 1;
    }
    order.insert(at, index);
    proof {
        let after = order@;
        let new = entries@[index as int];
        assert(after =~= before.insert(at as int, index));
        assert forall|k: int| at <= k < before.len() implies recent_before(
            new,
            entries@[(#[trigger] before[k]) as int],
        ) by {
            assert(!recent_before(entries@[before[at as int] as int], new));
            if k > at {
                assert(recent_before(
                    entries@[before[at as int] as int],
                    entries@[before[k] as int],
                ));
            }
        }
        assert forall|k: int| 0 <= k < after.len() implies (#[trigger] after[k]) < index + 1
            && selection@.keeps(entries@[after[k] as int], kategori@) by {
            if k < at {
                assert(after[k] == before[k]);
            } else if k > at {
                assert(after[k] == before[k - 1]);
            }
        }
        assert forall|a: int, b: int| 0 <= a < b < after.len() implies after[a] != after[b]
            && recent_before(entries@[after[a] as int], entries@[after[b] as int]) by {
            let pa = if a < at { a } else { a - 1 };
            let pb = if b < at { b } else { b - 1 };
            if a != at {
                assert(after[a] == before[pa]);
            }
            if b != at {
                assert(after[b] == before[pb]);
            }
        }
        assert forall|i: int|
            0 <= i < index + 1 && selection@.keeps(
                #[trigger] entries@[i],
                kategori@,
            ) implies after.contains(i as usize) by {
            if i == index {
                assert(after[at as int] == index);
            } else {
                assert(before.contains(i as usize));
                let k = choose|k: int| 0 <= k < before.len() && before[k] == i as usize;
                if k < at {
                    assert(after[k] == before[k]);
                } else {
                    assert(after[k + 1] == before[k]);
                }
            }
        }
    }
}

/// The places of the entries that the selection keeps, the most recent
/// first.
pub fn recent_order(entries: &Vec<Transaksi>, kategori: &Vec<Kategori>, selection: &Selection) -> (order:
    Vec<usize>)
    ensures
        is_recent_order(order@, entries@, kategori@, *selection, entries@.len() as int),
{
    let mut order: Vec<usize> = Vec::new();
    let mut i: usize = 0;
    while i < entries.len()
        invariant
            i <= entries@.len(),
            is_recent_order(order@, entries@, kategori@, *selection, i as int),
        decreases entries@.len() - i,
    {
        if selection.is_kept(&entries[i], kategori) {
            insert_recent(&mut order, entries, Ghost(kategori@), Ghost(*selection), i);
        } else {
            assert forall|k: int|
                0 <= k < i + 1 && selection.keeps(
                    #[trigger] entries@[k],
                    kategori@,
                ) implies order@.contains(k as usize) by {}
        }
        i += 1;
    }
    order
}

/// Whether `row` shows `entry` as the dashboard lists it: its
/// identifier, description and amount, its date written `YYYY-MM-DD`, and
/// the name of its category.
pub open spec fn shows(row: TransaksiTerakhir, entry: Transaksi, kategori: Seq<Kategori>) -> bool {
    &&& row.id == entry.id
    &&& row.deskripsi@ == entry.deskripsi@
    &&& row.jumlah == entry.jumlah
    &&& row.tanggal@ == formatted_ymd(
        entry.tanggal.spec_year(),
        entry.tanggal.spec_month(),
        entry.tanggal.spec_day(),
    )
    &&& row.kategori_nama@ == spec_kategori_name(kategori, entry.kategori_id)
}

/// Whether `rows` are the `limit` most recent entries of the user, the
/// most recent first, or all of them where there are fewer.
pub open spec fn is_recent_list(
    rows: Seq<TransaksiTerakhir>,
    entries: Seq<Transaksi>,
    kategori: Seq<Kategori>,
    user_id: u128,
    limit: int,
) -> bool {
    exists|order: Seq<usize>|
        {
            &&& #[trigger] is_recent_order(
                order,
                entries,
                kategori,
                Selection::spec_of_user(user_id),
                entries.len() as int,
            )
            &&& rows.len() == if order.len() < limit {
                order.len() as int
            } else {
                limit
            }
            &&& forall|k: int|
                0 <= k < rows.len() ==> shows(#[trigger] rows[k], entries[order[k] as int], kategori)
        }
}

/// The `limit` most recent entries of the user, the most recent first.
pub fn recent_transaksi(
    entries: &Vec<Transaksi>,
    kategori: &Vec<Kategori>,
    user_id: u128,
    limit: usize,
) -> (rows: Vec<TransaksiTerakhir>)
    ensures
        is_recent_list(rows@, entries@, kategori@, user_id, limit as int),
{
    let selection = Selection::of_user(user_id);
    let order = recent_order(entries, kategori, &selection);
    let mut rows: Vec<TransaksiTerakhir> = Vec::new();
    let mut k: usize = 0;
    while k < order.len() && k < limit
        invariant
            k <= order@.len(),
            k <= limit,
            rows@.len() == k,
            is_recent_order(order@, entries@, kategori@, selection, entries@.len() as int),
            forall|j: int|
                0 <= j < k ==> shows(#[trigger] rows@[j], entries@[order@[j] as int], kategori@),
        decreases order@.len() - k,
    {
        let entry = &entries[order[k]];
        rows.push(
            TransaksiTerakhir {
                id: entry.id,
                deskripsi: entry.deskripsi.clone(),
                jumlah: entry.jumlah,
                tanggal: entry.tanggal.format(),
                kategori_nama: kategori_name(kategori, entry.kategori_id),
            },
        );
        k += 1;
    }
    rows
}

} // verus!
