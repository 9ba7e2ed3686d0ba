//! Ledger entries as requests name them: the user by the text of an
//! identifier, dates by their texts.

use crate::database::{transaksi_ids_distinct, Database};
use crate::error::ApiError;
use crate::ledger::create::{
    check_create, create_outcome, create_transaksi_for_user, is_checked_create, CreateParsed,
    CreateParsedView, TransaksiBaru,
};
use crate::ledger::delete::{delete_outcome, delete_transaksi_for_user};
use crate::ledger::listing::{
    get_transaksi_for_user, get_transaksi_of_user, listing_outcome, show_outcome, ListParsed,
};
use crate::ledger::update::{
    check_update, is_checked, update_outcome, update_rejection, update_transaksi_for_user,
    Perubahan, UpdateParsed, UpdateParsedView,
};
use crate::models::transaksi::{
    CreateTransaksiRequest, Transaksi, TransaksiQuery, TransaksiWithCategory,
    UpdateTransaksiRequest,
};
use crate::tanggal::Tanggal;
use crate::teks::{parse_user_id, parsed_uuid, str_trim, trimmed};
use vstd::prelude::*;

verus! {

/// The fields of a new ledger entry as they are read from a request: the
/// description trimmed and the date read.
pub open spec fn spec_read_create(payload: CreateTransaksiRequest) -> CreateParsedView {
    CreateParsedView {
        kategori_id: payload.kategori_id,
        jumlah: payload.jumlah,
        deskripsi: trimmed(payload.deskripsi@),
        tanggal: Tanggal::spec_parse(payload.tanggal@),
    }
}

/// Reads the fields of a new ledger entry from a request.
pub fn read_create(payload: &CreateTransaksiRequest) -> (r: CreateParsed)
    ensures
        r@ == spec_read_create(*payload),
{
    CreateParsed {
        kategori_id: payload.kategori_id,
        jumlah: payload.jumlah,
        deskripsi: str_trim(payload.deskripsi.as_str()).to_owned(),
        tanggal: Tanggal::parse_from_str(payload.tanggal.as_str()),
    }
}

/// Checks the fields of a new ledger entry: the user identifier must be
/// readable, and the fields must pass [`check_create`].
pub fn validate_create(user_id: &str, payload: &CreateTransaksiRequest) -> (r: Result<
    TransaksiBaru,
    ApiError,
>)
    ensures
        match parsed_uuid(user_id@) {
            Some(user) => is_checked_create(r, user, spec_read_create(*payload)),
            None => r matches Err(e) && e == ApiError::InvalidUserId,
        },
{
    match parse_user_id(user_id) {
        Ok(user) => check_create(user, read_create(payload)),
        Err(e) => Err(e),
    }
}

/// Adds an entry to the ledger and its amount to the running total of
/// the budget of the user for the category, if there is one. Fails with
/// [`ApiError::InvalidUserId`] where the user identifier is unreadable,
/// and else as [`create_transaksi_for_user`] does. On failure the store
/// is left as it was.
pub fn create_transaksi(
    db: &mut Database,
    user_id: &str,
    payload: &CreateTransaksiRequest,
    now: i64,
) -> (r: Result<Transaksi, ApiError>)
    requires
        old(db).wf(),
    ensures
        final(db).wf(),
        old(db).amounts_nonnegative() ==> final(db).amounts_nonnegative(),
        old(db).budgets_valid() ==> final(db).budgets_valid(),
        old(db).consistent() ==> final(db).consistent(),
        match parsed_uuid(user_id@) {
            Some(user) => create_outcome(
                *old(db),
                *final(db),
                r,
                user,
                spec_read_create(*payload),
                now,
            ),
            None => r matches Err(e) && e == ApiError::InvalidUserId && *final(db) == *old(db),
        },
{
    match parse_user_id(user_id) {
        Ok(user) => create_transaksi_for_user(db, user, read_create(payload), now),
        Err(e) => Err(e),
    }
}

/// The fields of a change to a ledger entry as they are read from a
/// request: the description trimmed and the date read.
pub open spec fn spec_read_update(payload: UpdateTransaksiRequest) -> UpdateParsedView {
    UpdateParsedView {
        kategori_id: payload.kategori_id,
        jumlah: payload.jumlah,
        deskripsi: if payload.deskripsi is Some {
            Some(trimmed(payload.deskripsi->0@))
        } else {
            None
        },
        tanggal: if payload.tanggal is Some {
            Some(Tanggal::spec_parse(payload.tanggal->0@))
        } else {
            None
        },
    }
}

/// Reads the fields of a change to a ledger entry from a request.
pub fn read_update(payload: &UpdateTransaksiRequest) -> (r: UpdateParsed)
    ensures
        r@ == spec_read_update(*payload),
{
    UpdateParsed {
        kategori_id: payload.kategori_id,
        jumlah: payload.jumlah,
        deskripsi: match &payload.deskripsi {
            Some(text) => Some(str_trim(text.as_str()).to_owned()),
            None => None,
        },
        tanggal: match &payload.tanggal {
            Some(text) => Some(Tanggal::parse_from_str(text.as_str())),
            None => None,
        },
    }
}

/// Checks the fields of a change to a ledger entry.
pub fn validate_update(payload: &UpdateTransaksiRequest) -> (r: Result<Perubahan, ApiError>)
    ensures
        match r {
            Ok(changes) => update_rejection(spec_read_update(*payload)) is None && is_checked(
                changes,
                spec_read_update(*payload),
            ),
            Err(e) => update_rejection(spec_read_update(*payload)) == Some(e),
        },
{
    check_update(read_update(payload))
}

/// Changes the entry `transaksi_id` of the user: the fields that
/// `payload` gives take the place of its own, and the running totals
/// follow. Fails with [`ApiError::InvalidUserId`] where the user
/// identifier is unreadable, and else as [`update_transaksi_for_user`]
/// does. On failure the store is left as it was.
pub fn update_transaksi(
    db: &mut Database,
    user_id: &str,
    transaksi_id: i32,
    payload: &UpdateTransaksiRequest,
    now: i64,
) -> (r: Result<Transaksi, ApiError>)
    requires
        transaksi_ids_distinct(old(db).transaksi@, old(db).last_transaksi_id),
    ensures
        transaksi_ids_distinct(final(db).transaksi@, final(db).last_transaksi_id),
        old(db).wf() ==> final(db).wf(),
        old(db).amounts_nonnegative() ==> final(db).amounts_nonnegative(),
        old(db).budgets_valid() ==> final(db).budgets_valid(),
        old(db).consistent() && old(db).amounts_nonnegative() ==> final(db).consistent(),
        match parsed_uuid(user_id@) {
            Some(user) => update_outcome(
                *old(db),
                *final(db),
                r,
                user,
                transaksi_id,
                spec_read_update(*payload),
                now,
            ),
            None => r matches Err(e) && e == ApiError::InvalidUserId && *final(db) == *old(db),
        },
{
    match parse_user_id(user_id) {
        Ok(user) => update_transaksi_for_user(db, user, transaksi_id, read_update(payload), now),
        Err(e) => Err(e),
    }
}

/// Takes the entry `transaksi_id` of the user out of the ledger and its
/// amount out of the running total of the budget of the user for its
/// category, which stops at zero. Fails with [`ApiError::InvalidUserId`]
/// where the user identifier is unreadable, and else as
/// [`delete_transaksi_for_user`] does. On failure the store is left as
/// it was.
pub fn delete_transaksi(db: &mut Database, user_id: &str, transaksi_id: i32, now: i64) -> (r:
    Result<Transaksi, ApiError>)
    requires
        transaksi_ids_distinct(old(db).transaksi@, old(db).last_transaksi_id),
    ensures
        transaksi_ids_distinct(final(db).transaksi@, final(db).last_transaksi_id),
        old(db).wf() ==> final(db).wf(),
        old(db).amounts_nonnegative() ==> final(db).amounts_nonnegative(),
        old(db).budgets_valid() ==> final(db).budgets_valid(),
        old(db).consistent() && old(db).amounts_nonnegative() ==> final(db).consistent(),
        match parsed_uuid(user_id@) {
            Some(user) => delete_outcome(*old(db), *final(db), r, user, transaksi_id, now),
            None => r matches Err(e) && e == ApiError::InvalidUserId && *final(db) == *old(db),
        },
{
    match parse_user_id(user_id) {
        Ok(user) => delete_transaksi_for_user(db, user, transaksi_id, now),
        Err(e) => Err(e),
    }
}

/// The filters and the page of a listing as they are read from a query.
pub open spec fn spec_read_list(query: TransaksiQuery) -> ListParsed {
    ListParsed {
        limit: query.limit,
        offset: query.offset,
        kategori_id: query.kategori_id,
        start: if query.start_date is Some {
            Some(Tanggal::spec_parse(query.start_date->0@))
        } else {
            None
        },
        end: if query.end_date is Some {
            Some(Tanggal::spec_parse(query.end_date->0@))
        } else {
            None
        },
    }
}

/// Reads the filters and the page of a listing from a query.
pub fn read_list(query: &TransaksiQuery) -> (r: ListParsed)
    ensures
        r == spec_read_list(*query),
{
    ListParsed {
        limit: query.limit,
        offset: query.offset,
        kategori_id: query.kategori_id,
        start: match &query.start_date {
            Some(text) => Some(Tanggal::parse_from_str(text.as_str())),
            None => None,
        },
        end: match &query.end_date {
            Some(text) => Some(Tanggal::parse_from_str(text.as_str())),
            None => None,
        },
    }
}

/// A page of the entries of the user, the most recent first. Fails with
/// [`ApiError::InvalidUserId`] where the user identifier is unreadable,
/// and else as [`get_transaksi_for_user`] does.
pub fn get_user_transaksi(db: &Database, user_id: &str, query: &TransaksiQuery) -> (r: Result<
    Vec<TransaksiWithCategory>,
    ApiError,
>)
    ensures
        match parsed_uuid(user_id@) {
            Some(user) => listing_outcome(*db, r, user, spec_read_list(*query)),
            None => r matches Err(e) && e == ApiError::InvalidUserId,
        },
{
    match parse_user_id(user_id) {
        Ok(user) => {
            let parsed = read_list(query);
            get_transaksi_for_user(db, user, &parsed)
        },
        Err(e) => Err(e),
    }
}

/// The entry `transaksi_id` of the user with the name of its category.
/// Fails with [`ApiError::InvalidUserId`] where the user identifier is
/// unreadable, and with [`ApiError::TransaksiTidakDitemukan`] where the
/// user has no such entry with a category that exists.
pub fn get_transaksi_by_id(db: &Database, user_id: &str, transaksi_id: i32) -> (r: Result<
    TransaksiWithCategory,
    ApiError,
>)
    requires
        transaksi_ids_distinct(db.transaksi@, db.last_transaksi_id),
    ensures
        match parsed_uuid(user_id@) {
            Some(user) => show_outcome(*db, r, user, transaksi_id),
            None => r matches Err(e) && e == ApiError::InvalidUserId,
        },
{
    match parse_user_id(user_id) {
        Ok(user) => get_transaksi_of_user(db, user, transaksi_id),
        Err(e) => Err(e),
    }
}

} // verus!
