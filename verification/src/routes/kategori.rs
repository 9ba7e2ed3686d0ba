//! Categories: creating, renaming, deleting and listing them. No two
//! categories share a name.

use crate::database::{has_kategori, kategori_distinct, Database};
use crate::error::ApiError;
use crate::models::kategori::{CreateKategoriRequest, Kategori, UpdateKategoriRequest};
use crate::teks::{str_trim, trimmed};
use vstd::prelude::*;

verus! {

/// Whether a category has the name `nama`.
pub open spec fn has_name(kategori: Seq<Kategori>, nama: Seq<char>) -> bool {
    exists|i: int| 0 <= i < kategori.len() && (#[trigger] kategori[i]).nama@ == nama
}

/// Whether a category other than `id` has the name `nama`.
pub open spec fn other_has_name(kategori: Seq<Kategori>, nama: Seq<char>, id: i32) -> bool {
    exists|i: int|
        0 <= i < kategori.len() && (#[trigger] kategori[i]).nama@ == nama && kategori[i].id != id
}

/// Whether a category other than `except` has the name `nama`; with
/// `None`, whether any category has it.
fn name_taken(kategori: &Vec<Kategori>, nama: &String, except: Option<i32>) -> (r: bool)
    ensures
        r == if except is Some {
            other_has_name(kategori@, nama@, except->0)
        } else {
            has_name(kategori@, nama@)
        },
{
    let mut i: usize = 0;
    while i < kategori.len()
        invariant
            i <= kategori@.len(),
            forall|k: int|
                0 <= k < i ==> !((#[trigger] kategori@[k]).nama@ == nama@ && (except is Some
                    ==> kategori@[k].id != except->0)),
        decreases kategori@.len() - i,
    {
        let other = match except {
            Some(id) => kategori[i].id != id,
            None => true,
        };
        if other && kategori[i].nama == *nama {
            return true;
        }
        i += 1;
    }
    false
}

/// The place of the category `id`.
pub open spec fn kategori_position(kategori: Seq<Kategori>, id: i32) -> int {
    choose|i: int| 0 <= i < kategori.len() && (#[trigger] kategori[i]).id == id
}

/// The place of the category `id`, if there is one.
pub fn find_kategori(kategori: &Vec<Kategori>, id: i32) -> (r: Option<usize>)
    ensures
        r is Some <==> has_kategori(kategori@, id),
        r matches Some(i) ==> i < kategori@.len() && kategori@[i as int].id == id,
{
    let mut i: usize = 0;
    while i < kategori.len()
        invariant
            i <= kategori@.len(),
            forall|k: int| 0 <= k < i ==> (#[trigger] kategori@[k]).id != id,
        decreases kategori@.len() - i,
    {
        if kategori[i].id == id {
            return Some(i);
        }
        i += 1;
    }
    None
}

/// Where identifiers are unique, the place of a category is the one place
/// that holds its identifier.
pub proof fn lemma_kategori_position(kategori: Seq<Kategori>, last: i32, at: int)
    requires
        kategori_distinct(kategori, last),
        0 <= at < kategori.len(),
    ensures
        kategori_position(kategori, kategori[at].id) == at,
{
    let p = kategori_position(kategori, kategori[at].id);
    if p < at {
        assert(kategori[p].id != kategori[at].id);
    }
    if at < p {
        assert(kategori[at].id != kategori[p].id);
    }
}

/// Why creating a category fails, if it does: the name is empty, a
/// category has the name already, or no identifier is left.
pub open spec fn create_kategori_failure(db: Database, nama: Seq<char>) -> Option<ApiError> {
    if nama.len() == 0 {
        Some(ApiError::NamaKategoriKosong)
    } else if has_name(db.kategori@, nama) {
        Some(ApiError::KategoriSudahAda)
    } else if db.last_kategori_id == i32::MAX {
        Some(ApiError::GagalMembuatKategori)
    } else {
        None
    }
}

/// Whether `r` and the store `after` are what creating a category with
/// the name `nama` makes of the store `before` at the time `now`. On
/// failure the store is as it was. On success the category has the next
/// identifier and the name, and stands after the other categories.
pub open spec fn create_kategori_outcome(
    before: Database,
    after: Database,
    r: Result<Kategori, ApiError>,
    nama: Seq<char>,
    now: i64,
) -> bool {
    match r {
        Ok(k) => {
            &&& create_kategori_failure(before, nama) is None
            &&& k.id == before.last_kategori_id + 1
            &&& k.nama@ == nama
            &&& k.created_at == Some(now)
            &&& k.updated_at == Some(now)
            &&& after.kategori@ == before.kategori@.push(k)
            &&& after.last_kategori_id == k.id
            &&& after.budgets == before.budgets
            &&& after.users == before.users
            &&& after.transaksi == before.transaksi
            &&& after.last_budget_id == before.last_budget_id
            &&& after.last_transaksi_id == before.last_transaksi_id
        },
        Err(e) => create_kategori_failure(before, nama) == Some(e) && after == before,
    }
}

/// Adds a category with the name `nama`. On failure the store is left as
/// it was.
pub fn create_kategori_named(db: &mut Database, nama: String, now: i64) -> (r: Result<
    Kategori,
    ApiError,
>)
    requires
        old(db).wf(),
    ensures
        final(db).wf(),
        old(db).consistent() ==> final(db).consistent(),
        create_kategori_outcome(*old(db), *final(db), r, nama@, now),
{
    if nama.as_str().is_empty() {
        return Err(ApiError::NamaKategoriKosong);
    }
    if name_taken(&db.kategori, &nama, None) {
        return Err(ApiError::KategoriSudahAda);
    }
    if db.last_kategori_id == i32::MAX {
        return Err(ApiError::GagalMembuatKategori);
    }
    let id: i32 = db.last_kategori_id + 1;
    let kategori = Kategori { id, nama, created_at: Some(now), updated_at: Some(now) };
    let stored = kategori.clone();
    proof {
        let before = db.kategori@;
        let after = before.push(stored);
        assert forall|i: int| 0 <= i < after.len() implies (#[trigger] after[i]).id <= id by {
            if i < before.len() {
                assert(after[i] == before[i]);
            }
        }
        assert forall|i: int, j: int| 0 <= i < j < after.len() implies (#[trigger] after[i]).id
            != (#[trigger] after[j]).id && after[i].nama@ != after[j].nama@ by {
            assert(after[i] == before[i]);
            if j < before.len() {
                assert(after[j] == before[j]);
            }
        }
    }
    db.kategori.push(stored);
    db.last_kategori_id = id;
    Ok(kategori)
}

/// Why renaming a category fails, if it does: the name is empty, there
/// is no such category, or another category has the name already.
pub open spec fn update_kategori_failure(db: Database, id: i32, nama: Seq<char>) -> Option<
    ApiError,
> {
    if nama.len() == 0 {
        Some(ApiError::NamaKategoriKosong)
    } else if !has_kategori(db.kategori@, id) {
        Some(ApiError::KategoriTidakDitemukan)
    } else if other_has_name(db.kategori@, nama, id) {
        Some(ApiError::KategoriSudahAda)
    } else {
        None
    }
}

/// Whether `r` and the store `after` are what giving the category `id`
/// the name `nama` makes of the store `before` at the time `now`. On
/// failure the store is as it was. On success the category has the name
/// and stands at its old place.
pub open spec fn update_kategori_outcome(
    before: Database,
    after: Database,
    r: Result<Kategori, ApiError>,
    id: i32,
    nama: Seq<char>,
    now: i64,
) -> bool {
    match r {
        Ok(k) => {
            let at = kategori_position(before.kategori@, id);
            &&& update_kategori_failure(before, id, nama) is None
            &&& 0 <= at < before.kategori@.len()
            &&& k.id == id
            &&& k.nama@ == nama
            &&& k.created_at == before.kategori@[at].created_at
            &&& k.updated_at == Some(now)
            &&& after.kategori@ == before.kategori@.update(at, k)
            &&& after.last_kategori_id == before.last_kategori_id
            &&& after.budgets == before.budgets
            &&& after.users == before.users
            &&& after.transaksi == before.transaksi
            &&& after.last_budget_id == before.last_budget_id
            &&& after.last_transaksi_id == before.last_transaksi_id
        },
        Err(e) => update_kategori_failure(before, id, nama) == Some(e) && after == before,
    }
}

/// Gives the category `kategori_id` the name `nama`. On failure the store
/// is left as it was.
pub fn update_kategori_named(db: &mut Database, kategori_id: i32, nama: String, now: i64) -> (r:
    Result<Kategori, ApiError>)
    requires
        old(db).wf(),
    ensures
        final(db).wf(),
        old(db).consistent() ==> final(db).consistent(),
        update_kategori_outcome(*old(db), *final(db), r, kategori_id, nama@, now),
{
    if nama.as_str().is_empty() {
        return Err(ApiError::NamaKategoriKosong);
    }
    let at = match find_kategori(&db.kategori, kategori_id) {
        Some(i) => i,
        None => {
            return Err(ApiError::KategoriTidakDitemukan);
        },
    };
    if name_taken(&db.kategori, &nama, Some(kategori_id)) {
        return Err(ApiError::KategoriSudahAda);
    }
    let kategori = Kategori {
        id: kategori_id,
        nama,
        created_at: db.kategori[at].created_at,
        updated_at: Some(now),
    };
    let stored = kategori.clone();
    proof {
        let before = db.kategori@;
        let after = before.update(at as int, stored);
        lemma_kategori_position(before, db.last_kategori_id, at as int);
        assert forall|i: int| 0 <= i < after.len() implies (#[trigger] after[i]).id
            == before[i].id by {}
        assert forall|i: int| 0 <= i < after.len() implies (#[trigger] after[i]).id
            <= db.last_kategori_id by {
            assert(before[i].id <= db.last_kategori_id);
        }
        assert forall|i: int, j: int| 0 <= i < j < after.len() implies (#[trigger] after[i]).id
            != (#[trigger] after[j]).id && after[i].nama@ != after[j].nama@ by {
            assert(before[i].id != before[j].id);
            assert(before[i].nama@ != before[j].nama@);
            if i != at {
                assert(after[i] == before[i]);
            }
            if j != at {
                assert(after[j] == before[j]);
            }
        }
    }
    db.kategori.set(at, stored);
    Ok(kategori)
}

/// Adds a category with the name given, trimmed. On failure the store is
/// left as it was.
pub fn create_kategori(db: &mut Database, payload: &CreateKategoriRequest, now: i64) -> (r: Result<
    Kategori,
    ApiError,
>)
    requires
        old(db).wf(),
    ensures
        final(db).wf(),
        old(db).consistent() ==> final(db).consistent(),
        create_kategori_outcome(*old(db), *final(db), r, trimmed(payload.nama@), now),
{
    create_kategori_named(db, str_trim(payload.nama.as_str()).to_owned(), now)
}

/// Gives the category `kategori_id` the name given, trimmed. On failure
/// the store is left as it was.
pub fn update_kategori(
    db: &mut Database,
    kategori_id: i32,
    payload: &UpdateKategoriRequest,
    now: i64,
) -> (r: Result<Kategori, ApiError>)
    requires
        old(db).wf(),
    ensures
        final(db).wf(),
        old(db).consistent() ==> final(db).consistent(),
        update_kategori_outcome(*old(db), *final(db), r, kategori_id, trimmed(payload.nama@), now),
{
    update_kategori_named(db, kategori_id, str_trim(payload.nama.as_str()).to_owned(), now)
}

/// Deletes the category `kategori_id` and returns it. Budgets and ledger
/// entries stay as they are. Fails with
/// [`ApiError::KategoriTidakDitemukan`] where there is no such category,
/// and then leaves the store as it was.
pub fn delete_kategori(db: &mut Database, kategori_id: i32) -> (r: Result<Kategori, ApiError>)
    requires
        old(db).wf(),
    ensures
        final(db).wf(),
        old(db).consistent() ==> final(db).consistent(),
        match r {
            Ok(k) => {
                let at = kategori_position(old(db).kategori@, kategori_id);
                &&& has_kategori(old(db).kategori@, kategori_id)
                &&& 0 <= at < old(db).kategori@.len()
                &&& k == old(db).kategori@[at]
                &&& final(db).kategori@ == old(db).kategori@.remove(at)
                &&& final(db).last_kategori_id == old(db).last_kategori_id
                &&& final(db).budgets == old(db).budgets
                &&& final(db).users == old(db).users
                &&& final(db).transaksi == old(db).transaksi
                &&& final(db).last_budget_id == old(db).last_budget_id
                &&& final(db).last_transaksi_id == old(db).last_transaksi_id
            },
            Err(e) => !has_kategori(old(db).kategori@, kategori_id) && e
                == ApiError::KategoriTidakDitemukan && *final(db) == *old(db),
        },
{
    let at = match find_kategori(&db.kategori, kategori_id) {
        Some(i) => i,
        None => {
            return Err(ApiError::KategoriTidakDitemukan);
        },
    };
    proof {
        let before = db.kategori@;
        let after = before.remove(at as int);
        lemma_kategori_position(before, db.last_kategori_id, at as int);
        assert forall|i: int| 0 <= i < after.len() implies (#[trigger] after[i]).id
            <= db.last_kategori_id by {
            let a = if i < at { i } else { i + 1 };
            assert(after[i] == before[a]);
            assert(before[a].id <= db.last_kategori_id);
        }
        assert forall|i: int, j: int| 0 <= i < j < after.len() implies (#[trigger] after[i]).id
            != (#[trigger] after[j]).id && after[i].nama@ != after[j].nama@ by {
            let a = if i < at { i } else { i + 1 };
            let b = if j < at { j } else { j + 1 };
            assert(after[i] == before[a] && after[j] == before[b]);
            assert(before[a].id != before[b].id);
            assert(before[a].nama@ != before[b].nama@);
        }
    }
    let kategori = db.kategori.remove(at);
    Ok(kategori)
}

/// The category `kategori_id`. Fails with
/// [`ApiError::KategoriTidakDitemukan`] where there is no such category.
pub fn get_kategori_by_id(db: &Database, kategori_id: i32) -> (r: Result<Kategori, ApiError>)
    ensures
        match r {
            Ok(k) => exists|i: int|
                0 <= i < db.kategori@.len() && #[trigger] db.kategori@[i] == k && k.id
                    == kategori_id,
            Err(e) => !has_kategori(db.kategori@, kategori_id) && e
                == ApiError::KategoriTidakDitemukan,
        },
{
    match find_kategori(&db.kategori, kategori_id) {
        Some(i) => Ok(db.kategori[i].clone()),
        None => Err(ApiError::KategoriTidakDitemukan),
    }
}

/// Whether the category `a` may be listed before the category `b`: it was
/// created no earlier. A category without a time of creation counts as
/// created last.
pub open spec fn kategori_before(a: Kategori, b: Kategori) -> bool {
    a.created_at is None || (b.created_at is Some && a.created_at->0 >= b.created_at->0)
}

/// Whether the category `a` may be listed before the category `b`.
fn is_kategori_before(a: &Kategori, b: &Kategori) -> (r: bool)
    ensures
        r == kategori_before(*a, *b),
{
    match a.created_at {
        None => true,
        Some(x) => match b.created_at {
            None => false,
            Some(y) => x >= y,
        },
    }
}

/// Whether the categories are listed with the one created last first.
pub open spec fn kategori_sorted(list: Seq<Kategori>) -> bool {
    forall|i: int, j: int| 0 <= i < j < list.len() ==> kategori_before(list[i], list[j])
}

/// Puts `kategori` into the ordered list `out` at its place.
fn insert_kategori(out: &mut Vec<Kategori>, kategori: Kategori)
    requires
        kategori_sorted(old(out)@),
    ensures
        kategori_sorted(final(out)@),
        final(out)@.to_multiset() == old(out)@.to_multiset().insert(kategori),
{
    let ghost before = out@;
    let mut at: usize = 0;
    while at < out.len() && is_kategori_before(&out[at], &kategori)
        invariant
            at <= out@.len(),
            out@ == before,
            forall|k: int| 0 <= k < at ==> kategori_before(#[trigger] before[k], kategori),
        decreases out@.len() - at,
    {
        at += 1;
    }
    out.insert(at, kategori);
    proof {
        let after = out@;
        assert(after =~= before.insert(at as int, kategori));
        vstd::seq_lib::to_multiset_insert(before, at as int, kategori);
        assert forall|i: int, j: int| 0 <= i < j < after.len() implies kategori_before(
            after[i],
            after[j],
        ) by {
            let a = if i < at { i } else { i - 1 };
            let b = if j < at { j } else { j - 1 };
            if i != at {
                assert(after[i] == before[a]);
            }
            if j != at {
                assert(after[j] == before[b]);
            }
            if i == at {
                assert(!kategori_before(before[at as int], kategori));
                if b > at {
                    assert(kategori_before(before[at as int], before[b]));
                }
            }
        }
    }
}

/// All categories, the one created last first.
pub fn get_all_kategori(db: &Database) -> (list: Vec<Kategori>)
    ensures
        kategori_sorted(list@),
        list@.to_multiset() == db.kategori@.to_multiset(),
{
    let mut list: Vec<Kategori> = Vec::new();
    let mut i: usize = 0;
    proof {
        assert(db.kategori@.take(0) =~= list@);
    }
    while i < db.kategori.len()
        invariant
            i <= db.kategori@.len(),
            kategori_sorted(list@),
            list@.to_multiset() == db.kategori@.take(i as int).to_multiset(),
        decreases db.kategori@.len() - i,
    {
        proof {
            assert(db.kategori@.take(i as int + 1) =~= db.kategori@.take(i as int).push(
                db.kategori@[i as int],
            ));
            vstd::seq_lib::to_multiset_build(db.kategori@.take(i as int), db.kategori@[i as int]);
        }
        insert_kategori(&mut list, db.kategori[i].clone());
        i += 1;
    }
    proof {
        assert(db.kategori@.take(i as int) =~= db.kategori@);
    }
    list
}

} // verus!
