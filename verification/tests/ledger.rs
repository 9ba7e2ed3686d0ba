use finance_tracker::database::Database;
use finance_tracker::error::{ApiError, ErrorKind};
use finance_tracker::models::budget::{Adjustment, CreateBudgetRequest, UpdateBudgetRequest};
use finance_tracker::models::kategori::CreateKategoriRequest;
use finance_tracker::models::transaksi::{
    CreateTransaksiRequest, TransaksiQuery, UpdateTransaksiRequest,
};
use finance_tracker::routes::budget::{create_budget, update_budget};
use finance_tracker::routes::kategori::create_kategori;
use finance_tracker::ledger::create::{check_create, create_transaksi_for_user, CreateParsed};
use finance_tracker::ledger::delete::delete_transaksi_for_user;
use finance_tracker::ledger::listing::{get_transaksi_for_user, get_transaksi_of_user, ListParsed};
use finance_tracker::ledger::update::{
    check_update, merge, update_adjustments, update_transaksi_for_user, UpdateParsed,
};
use finance_tracker::routes::transaksi::{
    create_transaksi, delete_transaksi, get_transaksi_by_id, get_user_transaksi, read_create,
    read_list, read_update, update_transaksi, validate_create, validate_update,
};
use finance_tracker::tanggal::Tanggal;

const USER: &str = "8787368b-3437-4440-9d99-0675386f1626";
const OTHER: &str = "00000000-0000-0000-0000-000000000001";

fn store() -> Database {
    let mut db = Database::new();
    for nama in ["Makan", "Transport", "Hiburan"] {
        create_kategori(&mut db, &CreateKategoriRequest { nama: nama.to_string() }, 1).unwrap();
    }
    db
}

fn entry(kategori_id: i32, jumlah: i32, tanggal: &str) -> CreateTransaksiRequest {
    CreateTransaksiRequest {
        kategori_id,
        jumlah,
        deskripsi: "  makan siang ".to_string(),
        tanggal: tanggal.to_string(),
    }
}

fn budget(db: &mut Database, user: &str, kategori_id: i32, amount: i32) -> i32 {
    create_budget(db, user, &CreateBudgetRequest { kategori_id, amount }, 5).unwrap().id
}

fn spent(db: &Database, budget_id: i32) -> Option<i32> {
    db.budgets.iter().find(|b| b.id == budget_id).unwrap().spent
}

fn no_change() -> UpdateTransaksiRequest {
    UpdateTransaksiRequest { kategori_id: None, jumlah: None, deskripsi: None, tanggal: None }
}

#[test]
fn budget_follows_create_and_delete() {
    let mut db = store();
    let b = budget(&mut db, USER, 1, 10000);
    assert_eq!(spent(&db, b), Some(0));
    let first = create_transaksi(&mut db, USER, &entry(1, 3000, "2024-03-01"), 11).unwrap();
    assert_eq!(spent(&db, b), Some(3000));
    create_transaksi(&mut db, USER, &entry(1, 5000, "2024-03-01"), 12).unwrap();
    assert_eq!(spent(&db, b), Some(8000));
    delete_transaksi(&mut db, USER, first.id, 13).unwrap();
    assert_eq!(spent(&db, b), Some(5000));
    assert_eq!(db.transaksi.len(), 1);
}

#[test]
fn create_stores_the_entry_trimmed_and_dated() {
    let mut db = store();
    let t = create_transaksi(&mut db, USER, &entry(2, 1, "2024-03-01"), 42).unwrap();
    assert_eq!(t.id, 1);
    assert_eq!(t.user_id, 0x8787368b_3437_4440_9d99_0675386f1626u128);
    assert_eq!(t.kategori_id, 2);
    assert_eq!(t.jumlah, 1);
    assert_eq!(t.deskripsi, "makan siang");
    assert_eq!(t.tanggal, Tanggal::from_ymd_opt(2024, 3, 1).unwrap());
    assert_eq!(t.created_at, Some(42));
    assert_eq!(t.updated_at, Some(42));
    assert_eq!(db.transaksi.len(), 1);
    assert_eq!(db.transaksi[0].deskripsi, "makan siang");
    let next = create_transaksi(&mut db, USER, &entry(2, 7, "2024-03-02"), 43).unwrap();
    assert_eq!(next.id, 2);
}

#[test]
fn create_rejects_amounts_that_are_not_positive() {
    let mut db = store();
    assert_eq!(
        create_transaksi(&mut db, USER, &entry(1, 0, "2024-03-01"), 1).unwrap_err(),
        ApiError::JumlahTidakValid
    );
    assert_eq!(
        create_transaksi(&mut db, USER, &entry(1, -5, "2024-03-01"), 1).unwrap_err(),
        ApiError::JumlahTidakValid
    );
    assert!(db.transaksi.is_empty());
    assert!(create_transaksi(&mut db, USER, &entry(1, 1, "2024-03-01"), 1).is_ok());
}

#[test]
fn create_rejects_in_the_order_of_its_checks() {
    let mut db = store();
    let mut bad = entry(99, 0, "not a date");
    bad.deskripsi = "   ".to_string();
    assert_eq!(create_transaksi(&mut db, "nobody", &bad, 1).unwrap_err(), ApiError::InvalidUserId);
    assert_eq!(create_transaksi(&mut db, USER, &bad, 1).unwrap_err(), ApiError::JumlahTidakValid);
    bad.jumlah = 10;
    assert_eq!(create_transaksi(&mut db, USER, &bad, 1).unwrap_err(), ApiError::DeskripsiKosong);
    bad.deskripsi = "kopi".to_string();
    assert_eq!(
        create_transaksi(&mut db, USER, &bad, 1).unwrap_err(),
        ApiError::FormatTanggalTidakValid
    );
    bad.tanggal = "2024-02-30".to_string();
    assert_eq!(
        create_transaksi(&mut db, USER, &bad, 1).unwrap_err(),
        ApiError::FormatTanggalTidakValid
    );
    bad.tanggal = "2024-02-29".to_string();
    assert_eq!(
        create_transaksi(&mut db, USER, &bad, 1).unwrap_err(),
        ApiError::KategoriTidakDikenal
    );
    assert!(db.transaksi.is_empty());
    assert_eq!(db.last_transaksi_id, 0);
}

#[test]
fn create_without_a_budget_changes_no_budget() {
    let mut db = store();
    let b = budget(&mut db, USER, 1, 500);
    let other = budget(&mut db, OTHER, 2, 500);
    create_transaksi(&mut db, USER, &entry(2, 40, "2024-03-01"), 9).unwrap();
    assert_eq!(spent(&db, b), Some(0));
    assert_eq!(spent(&db, other), Some(0));
}

#[test]
fn create_fails_whole_when_the_total_cannot_be_stored() {
    let mut db = store();
    let b = budget(&mut db, USER, 1, 500);
    update_budget(
        &mut db,
        USER,
        b,
        &UpdateBudgetRequest { amount: None, spent: Some(i32::MAX - 1) },
        6,
    )
    .unwrap();
    let err = create_transaksi(&mut db, USER, &entry(1, 2, "2024-03-01"), 7).unwrap_err();
    assert_eq!(err, ApiError::GagalMengupdateBudget);
    assert_eq!(err.kind(), ErrorKind::Persistence);
    assert!(db.transaksi.is_empty());
    assert_eq!(db.last_transaksi_id, 0);
    assert_eq!(spent(&db, b), Some(i32::MAX - 1));
    assert!(create_transaksi(&mut db, USER, &entry(1, 1, "2024-03-01"), 7).is_ok());
    assert_eq!(spent(&db, b), Some(i32::MAX));
}

#[test]
fn create_fails_when_no_identifier_is_left() {
    let mut db = store();
    db.last_transaksi_id = i32::MAX;
    assert_eq!(
        create_transaksi(&mut db, USER, &entry(1, 2, "2024-03-01"), 7).unwrap_err(),
        ApiError::GagalMembuatTransaksi
    );
}

#[test]
fn update_of_the_description_alone_keeps_spent() {
    let mut db = store();
    let b = budget(&mut db, USER, 1, 10000);
    let t = create_transaksi(&mut db, USER, &entry(1, 3000, "2024-03-01"), 11).unwrap();
    let mut change = no_change();
    change.deskripsi = Some("  makan malam  ".to_string());
    let u = update_transaksi(&mut db, USER, t.id, &change, 20).unwrap();
    assert_eq!(u.deskripsi, "makan malam");
    assert_eq!(u.jumlah, 3000);
    assert_eq!(u.kategori_id, 1);
    assert_eq!(u.tanggal, t.tanggal);
    assert_eq!(u.created_at, Some(11));
    assert_eq!(u.updated_at, Some(20));
    assert_eq!(spent(&db, b), Some(3000));
    assert_eq!(db.transaksi[0].deskripsi, "makan malam");
}

#[test]
fn update_of_the_amount_moves_spent_by_the_difference() {
    let mut db = store();
    let b = budget(&mut db, USER, 1, 10000);
    let t = create_transaksi(&mut db, USER, &entry(1, 3000, "2024-03-01"), 11).unwrap();
    let mut change = no_change();
    change.jumlah = Some(1200);
    update_transaksi(&mut db, USER, t.id, &change, 20).unwrap();
    assert_eq!(spent(&db, b), Some(1200));
    change.jumlah = Some(4000);
    change.kategori_id = Some(1);
    update_transaksi(&mut db, USER, t.id, &change, 21).unwrap();
    assert_eq!(spent(&db, b), Some(4000));
}

#[test]
fn update_in_the_same_category_stops_at_zero() {
    let mut db = store();
    let b = budget(&mut db, USER, 1, 10000);
    let t = create_transaksi(&mut db, USER, &entry(1, 3000, "2024-03-01"), 11).unwrap();
    update_budget(&mut db, USER, b, &UpdateBudgetRequest { amount: None, spent: Some(100) }, 12)
        .unwrap();
    let mut change = no_change();
    change.jumlah = Some(1000);
    update_transaksi(&mut db, USER, t.id, &change, 20).unwrap();
    assert_eq!(spent(&db, b), Some(0));
    change.jumlah = Some(1400);
    update_transaksi(&mut db, USER, t.id, &change, 21).unwrap();
    assert_eq!(spent(&db, b), Some(400));
    change.jumlah = Some(1100);
    update_transaksi(&mut db, USER, t.id, &change, 22).unwrap();
    assert_eq!(spent(&db, b), Some(100));
}

#[test]
fn update_of_five_spent_from_ten_to_three_leaves_zero() {
    let mut db = store();
    let b = budget(&mut db, USER, 1, 10000);
    let t = create_transaksi(&mut db, USER, &entry(1, 10, "2024-03-01"), 11).unwrap();
    update_budget(&mut db, USER, b, &UpdateBudgetRequest { amount: None, spent: Some(5) }, 12)
        .unwrap();
    let mut change = no_change();
    change.jumlah = Some(3);
    update_transaksi(&mut db, USER, t.id, &change, 20).unwrap();
    assert_eq!(spent(&db, b), Some(0));
    assert!(db.budgets.iter().all(|b| b.spent_or_zero() >= 0 && b.amount > 0));
}

#[test]
fn entries_with_an_amount_of_zero_are_shown_changed_and_deleted() {
    let mut db = store();
    let b = budget(&mut db, USER, 1, 10000);
    let kept = create_transaksi(&mut db, USER, &entry(1, 40, "2024-03-01"), 11).unwrap();
    let mut zero = kept.clone();
    zero.id = 2;
    zero.jumlah = 0;
    db.transaksi.push(zero);
    db.last_transaksi_id = 2;
    assert!(db.is_wf());
    assert_eq!(get_transaksi_by_id(&db, USER, 2).unwrap().jumlah, 0);
    let mut change = no_change();
    change.deskripsi = Some("nol".to_string());
    let u = update_transaksi(&mut db, USER, 2, &change, 20).unwrap();
    assert_eq!((u.jumlah, u.deskripsi.as_str()), (0, "nol"));
    assert_eq!(spent(&db, b), Some(40));
    assert_eq!(delete_transaksi(&mut db, USER, 2, 21).unwrap().jumlah, 0);
    assert_eq!(spent(&db, b), Some(40));
    assert_eq!(db.transaksi.len(), 1);
}

#[test]
fn update_that_moves_an_entry_moves_its_amount() {
    let mut db = store();
    let x = budget(&mut db, USER, 1, 10000);
    let y = budget(&mut db, USER, 2, 10000);
    let t = create_transaksi(&mut db, USER, &entry(1, 3000, "2024-03-01"), 11).unwrap();
    create_transaksi(&mut db, USER, &entry(2, 500, "2024-03-01"), 12).unwrap();
    let mut change = no_change();
    change.kategori_id = Some(2);
    let u = update_transaksi(&mut db, USER, t.id, &change, 20).unwrap();
    assert_eq!(u.kategori_id, 2);
    assert_eq!(spent(&db, x), Some(0));
    assert_eq!(spent(&db, y), Some(3500));
}

#[test]
fn update_that_moves_and_changes_the_amount() {
    let mut db = store();
    let x = budget(&mut db, USER, 1, 10000);
    let y = budget(&mut db, USER, 2, 10000);
    let t = create_transaksi(&mut db, USER, &entry(1, 3000, "2024-03-01"), 11).unwrap();
    update_budget(&mut db, USER, x, &UpdateBudgetRequest { amount: None, spent: Some(1000) }, 12)
        .unwrap();
    let mut change = no_change();
    change.kategori_id = Some(2);
    change.jumlah = Some(700);
    change.tanggal = Some("2024-04-05".to_string());
    let u = update_transaksi(&mut db, USER, t.id, &change, 20).unwrap();
    assert_eq!(u.tanggal, Tanggal::from_ymd_opt(2024, 4, 5).unwrap());
    assert_eq!(spent(&db, x), Some(0));
    assert_eq!(spent(&db, y), Some(700));
}

#[test]
fn update_rejects_in_the_order_of_its_checks() {
    let mut db = store();
    let t = create_transaksi(&mut db, USER, &entry(1, 3000, "2024-03-01"), 11).unwrap();
    let bad = UpdateTransaksiRequest {
        kategori_id: Some(99),
        jumlah: Some(0),
        deskripsi: None,
        tanggal: Some("01/03/2024".to_string()),
    };
    assert_eq!(
        update_transaksi(&mut db, "x", t.id, &bad, 1).unwrap_err(),
        ApiError::InvalidUserId
    );
    assert_eq!(
        update_transaksi(&mut db, USER, 77, &bad, 1).unwrap_err(),
        ApiError::TransaksiTidakDitemukan
    );
    assert_eq!(
        update_transaksi(&mut db, OTHER, t.id, &bad, 1).unwrap_err(),
        ApiError::TransaksiTidakDitemukan
    );
    assert_eq!(
        update_transaksi(&mut db, USER, t.id, &bad, 1).unwrap_err(),
        ApiError::JumlahTidakValid
    );
    let bad = UpdateTransaksiRequest { jumlah: Some(5), deskripsi: Some(" \t ".to_string()), ..bad };
    assert_eq!(
        update_transaksi(&mut db, USER, t.id, &bad, 1).unwrap_err(),
        ApiError::DeskripsiKosong
    );
    let bad = UpdateTransaksiRequest { deskripsi: Some(" x ".to_string()), ..bad };
    assert_eq!(
        update_transaksi(&mut db, USER, t.id, &bad, 1).unwrap_err(),
        ApiError::FormatTanggalTidakValid
    );
    let bad = UpdateTransaksiRequest { tanggal: None, ..bad };
    assert_eq!(
        update_transaksi(&mut db, USER, t.id, &bad, 1).unwrap_err(),
        ApiError::KategoriTidakDikenal
    );
    assert_eq!(db.transaksi[0].deskripsi, "makan siang");
    assert_eq!(db.transaksi[0].jumlah, 3000);
    assert_eq!(db.transaksi[0].updated_at, Some(11));
}

#[test]
fn update_fails_whole_when_the_total_cannot_be_stored() {
    let mut db = store();
    let x = budget(&mut db, USER, 1, 10000);
    let y = budget(&mut db, USER, 2, 10000);
    let t = create_transaksi(&mut db, USER, &entry(1, 3000, "2024-03-01"), 11).unwrap();
    update_budget(&mut db, USER, y, &UpdateBudgetRequest { amount: None, spent: Some(i32::MAX) }, 12)
        .unwrap();
    let mut change = no_change();
    change.kategori_id = Some(2);
    assert_eq!(
        update_transaksi(&mut db, USER, t.id, &change, 20).unwrap_err(),
        ApiError::GagalMengupdateBudget
    );
    assert_eq!(spent(&db, x), Some(3000));
    assert_eq!(spent(&db, y), Some(i32::MAX));
    assert_eq!(db.transaksi[0].kategori_id, 1);
}

#[test]
fn delete_stops_at_zero() {
    let mut db = store();
    let b = budget(&mut db, USER, 1, 10000);
    let t = create_transaksi(&mut db, USER, &entry(1, 10, "2024-03-01"), 11).unwrap();
    update_budget(&mut db, USER, b, &UpdateBudgetRequest { amount: None, spent: Some(5) }, 12)
        .unwrap();
    let gone = delete_transaksi(&mut db, USER, t.id, 13).unwrap();
    assert_eq!(gone.id, t.id);
    assert_eq!(spent(&db, b), Some(0));
    assert!(db.transaksi.is_empty());
}

#[test]
fn delete_of_an_entry_older_than_its_budget_stops_at_zero() {
    let mut db = store();
    let t = create_transaksi(&mut db, USER, &entry(1, 10, "2024-03-01"), 11).unwrap();
    let b = budget(&mut db, USER, 1, 10000);
    delete_transaksi(&mut db, USER, t.id, 13).unwrap();
    assert_eq!(spent(&db, b), Some(0));
}

#[test]
fn delete_rejects_unknown_entries_and_users() {
    let mut db = store();
    let t = create_transaksi(&mut db, USER, &entry(1, 10, "2024-03-01"), 11).unwrap();
    assert_eq!(delete_transaksi(&mut db, "?", t.id, 1).unwrap_err(), ApiError::InvalidUserId);
    assert_eq!(
        delete_transaksi(&mut db, OTHER, t.id, 1).unwrap_err(),
        ApiError::TransaksiTidakDitemukan
    );
    assert_eq!(
        delete_transaksi(&mut db, USER, t.id + 1, 1).unwrap_err(),
        ApiError::TransaksiTidakDitemukan
    );
    assert_eq!(db.transaksi.len(), 1);
}

#[test]
fn spent_is_the_sum_of_the_entries_after_each_step() {
    let mut db = store();
    let b = budget(&mut db, USER, 1, 10000);
    let c = budget(&mut db, USER, 2, 10000);
    let sum = |db: &Database, k: i32| -> i32 {
        db.transaksi.iter().filter(|t| t.kategori_id == k).map(|t| t.jumlah).sum()
    };
    let mut ids = Vec::new();
    for (i, amount) in [100, 250, 40, 999, 1].iter().enumerate() {
        let k = 1 + (i as i32 % 2);
        ids.push(create_transaksi(&mut db, USER, &entry(k, *amount, "2024-03-01"), 1).unwrap().id);
        assert_eq!(spent(&db, b), Some(sum(&db, 1)));
        assert_eq!(spent(&db, c), Some(sum(&db, 2)));
    }
    let mut change = no_change();
    change.jumlah = Some(7);
    update_transaksi(&mut db, USER, ids[0], &change, 2).unwrap();
    assert_eq!(spent(&db, b), Some(sum(&db, 1)));
    change.kategori_id = Some(2);
    change.jumlah = None;
    update_transaksi(&mut db, USER, ids[2], &change, 3).unwrap();
    assert_eq!(spent(&db, b), Some(sum(&db, 1)));
    assert_eq!(spent(&db, c), Some(sum(&db, 2)));
    for id in ids {
        delete_transaksi(&mut db, USER, id, 4).unwrap();
        assert_eq!(spent(&db, b), Some(sum(&db, 1)));
        assert_eq!(spent(&db, c), Some(sum(&db, 2)));
    }
    assert_eq!(spent(&db, b), Some(0));
}

#[test]
fn adjustments_add_and_floor() {
    assert_eq!(Adjustment::Tambah(3000).apply(None), Some(3000));
    assert_eq!(Adjustment::Tambah(-7).apply(Some(5)), Some(-2));
    assert_eq!(Adjustment::Kurang(10).apply(Some(5)), Some(0));
    assert_eq!(Adjustment::Kurang(3).apply(Some(5)), Some(2));
    assert_eq!(Adjustment::Kurang(3).apply(None), Some(0));
    assert_eq!(Adjustment::Tambah(1).apply(Some(i32::MAX)), None);
    assert_eq!(Adjustment::Tambah(-1).apply(Some(i32::MIN)), None);
    assert_eq!(Adjustment::Tambah(i64::MAX).apply(Some(-1)), None);
    assert_eq!(Adjustment::Kurang(i64::MAX).apply(Some(1)), Some(0));
    assert_eq!(Adjustment::Kurang(i64::MIN).apply(Some(1)), None);
    assert_eq!(Adjustment::Kurang(-1).apply(Some(i32::MAX)), None);
}

#[test]
fn update_adjustments_name_one_or_two_budgets() {
    let same = update_adjustments(4, 100, 4, 30);
    assert_eq!(same.len(), 1);
    assert_eq!(same[0].kategori_id, 4);
    assert_eq!(same[0].adjustment, Adjustment::Kurang(70));
    let grown = update_adjustments(4, 30, 4, 100);
    assert_eq!(grown.len(), 1);
    assert_eq!(grown[0].adjustment, Adjustment::Tambah(70));
    assert_eq!(update_adjustments(4, 30, 4, 30)[0].adjustment, Adjustment::Tambah(0));
    assert_eq!(Adjustment::moved_by(-3), Adjustment::Kurang(3));
    assert_eq!(Adjustment::moved_by(3), Adjustment::Tambah(3));
    let moved = update_adjustments(4, 100, 5, 30);
    assert_eq!(moved.len(), 2);
    assert_eq!(moved[0].kategori_id, 4);
    assert_eq!(moved[0].adjustment, Adjustment::Kurang(100));
    assert_eq!(moved[1].kategori_id, 5);
    assert_eq!(moved[1].adjustment, Adjustment::Tambah(30));
    let wide = update_adjustments(1, i32::MIN, 1, i32::MAX);
    assert_eq!(wide[0].adjustment, Adjustment::Tambah(i32::MAX as i64 - i32::MIN as i64));
}

#[test]
fn validate_create_reads_the_fields() {
    let v = validate_create(USER, &entry(3, 25, "2023-12-31")).unwrap();
    assert_eq!(v.kategori_id, 3);
    assert_eq!(v.jumlah, 25);
    assert_eq!(v.deskripsi, "makan siang");
    assert_eq!(v.tanggal, Tanggal::from_ymd_opt(2023, 12, 31).unwrap());
    assert_eq!(v.user_id, 0x8787368b_3437_4440_9d99_0675386f1626u128);
}

#[test]
fn validate_update_and_merge_keep_what_is_not_given() {
    let mut db = store();
    let t = create_transaksi(&mut db, USER, &entry(1, 10, "2024-03-01"), 11).unwrap();
    let changes = validate_update(&no_change()).unwrap();
    assert!(changes.kategori_id.is_none() && changes.jumlah.is_none());
    assert!(changes.deskripsi.is_none() && changes.tanggal.is_none());
    let same = merge(&t, changes, 99);
    assert_eq!(same.id, t.id);
    assert_eq!(same.jumlah, 10);
    assert_eq!(same.deskripsi, "makan siang");
    assert_eq!(same.tanggal, t.tanggal);
    assert_eq!(same.updated_at, Some(99));
    let mut change = no_change();
    change.deskripsi = Some("   ".to_string());
    assert_eq!(validate_update(&change).unwrap_err(), ApiError::DeskripsiKosong);
    change.deskripsi = Some(" teh ".to_string());
    assert_eq!(merge(&t, validate_update(&change).unwrap(), 100).deskripsi, "teh");
}

#[test]
fn listing_filters_orders_and_pages() {
    let mut db = store();
    let dates = ["2024-03-01", "2024-03-05", "2024-03-03", "2024-03-05", "2024-02-28"];
    for (i, date) in dates.iter().enumerate() {
        create_transaksi(&mut db, USER, &entry(1 + (i as i32 % 2), 10 + i as i32, date), i as i64)
            .unwrap();
    }
    create_transaksi(&mut db, OTHER, &entry(1, 500, "2024-03-04"), 50).unwrap();
    let all = TransaksiQuery {
        limit: None,
        offset: None,
        kategori_id: None,
        start_date: None,
        end_date: None,
    };
    let rows = get_user_transaksi(&db, USER, &all).unwrap();
    let ids: Vec<i32> = rows.iter().map(|r| r.id).collect();
    assert_eq!(ids, vec![4, 2, 3, 1, 5]);
    assert_eq!(rows[0].kategori_nama, "Transport");
    assert_eq!(rows[1].kategori_nama, "Transport");
    assert_eq!(rows[2].kategori_nama, "Makan");
    assert_eq!(rows[0].user_id, USER);
    assert_eq!(rows[0].deskripsi, "makan siang");
    let page = TransaksiQuery { limit: Some(2), offset: Some(1), ..all };
    let ids: Vec<i32> = get_user_transaksi(&db, USER, &page).unwrap().iter().map(|r| r.id).collect();
    assert_eq!(ids, vec![2, 3]);
    let late = TransaksiQuery { limit: Some(10), offset: Some(5), ..page };
    assert!(get_user_transaksi(&db, USER, &late).unwrap().is_empty());
    let none = TransaksiQuery { limit: Some(0), offset: Some(0), ..late };
    assert!(get_user_transaksi(&db, USER, &none).unwrap().is_empty());
    let window = TransaksiQuery {
        limit: None,
        offset: None,
        kategori_id: Some(1),
        start_date: Some("2024-03-01".to_string()),
        end_date: Some("2024-03-04".to_string()),
    };
    let ids: Vec<i32> =
        get_user_transaksi(&db, USER, &window).unwrap().iter().map(|r| r.id).collect();
    assert_eq!(ids, vec![3, 1]);
}

#[test]
fn listing_rejects_bad_bounds_and_pages() {
    let db = store();
    let q = |limit, offset, start: Option<&str>, end: Option<&str>| TransaksiQuery {
        limit,
        offset,
        kategori_id: None,
        start_date: start.map(|s| s.to_string()),
        end_date: end.map(|s| s.to_string()),
    };
    assert_eq!(
        get_user_transaksi(&db, "me", &q(None, None, None, None)).unwrap_err(),
        ApiError::InvalidUserId
    );
    assert_eq!(
        get_user_transaksi(&db, USER, &q(Some(-1), None, Some("soon"), None)).unwrap_err(),
        ApiError::FormatTanggalTidakValid
    );
    assert_eq!(
        get_user_transaksi(&db, USER, &q(None, None, None, Some("2024-13-01"))).unwrap_err(),
        ApiError::FormatTanggalTidakValid
    );
    assert_eq!(
        get_user_transaksi(&db, USER, &q(Some(-1), None, None, None)).unwrap_err(),
        ApiError::KesalahanServer
    );
    assert_eq!(
        get_user_transaksi(&db, USER, &q(None, Some(-1), None, None)).unwrap_err(),
        ApiError::KesalahanServer
    );
}

#[test]
fn lookup_of_one_entry() {
    let mut db = store();
    let t = create_transaksi(&mut db, USER, &entry(3, 10, "2024-03-01"), 11).unwrap();
    let row = get_transaksi_by_id(&db, USER, t.id).unwrap();
    assert_eq!(row.id, t.id);
    assert_eq!(row.kategori_nama, "Hiburan");
    assert_eq!(row.user_id, USER);
    assert_eq!(row.jumlah, 10);
    assert_eq!(
        get_transaksi_by_id(&db, OTHER, t.id).unwrap_err(),
        ApiError::TransaksiTidakDitemukan
    );
    assert_eq!(get_transaksi_by_id(&db, "zz", t.id).unwrap_err(), ApiError::InvalidUserId);
}

#[test]
fn requests_are_read_into_plain_values() {
    let read = read_create(&entry(2, 5, "2024-03-01"));
    assert_eq!((read.kategori_id, read.jumlah), (2, 5));
    assert_eq!(read.deskripsi, "makan siang");
    assert_eq!(read.tanggal, Tanggal::from_ymd_opt(2024, 3, 1));
    assert_eq!(read_create(&entry(2, 5, "kemarin")).tanggal, None);
    let read = read_update(&UpdateTransaksiRequest {
        kategori_id: Some(3),
        jumlah: None,
        deskripsi: Some(" kopi ".to_string()),
        tanggal: Some("2024-02-30".to_string()),
    });
    assert_eq!((read.kategori_id, read.jumlah), (Some(3), None));
    assert_eq!(read.deskripsi.as_deref(), Some("kopi"));
    assert_eq!(read.tanggal, Some(None));
    assert_eq!(read_update(&no_change()).tanggal, None);
    let read = read_list(&TransaksiQuery {
        limit: Some(3),
        offset: None,
        kategori_id: Some(1),
        start_date: Some("2024-03-01".to_string()),
        end_date: Some("".to_string()),
    });
    assert_eq!(
        read,
        ListParsed {
            limit: Some(3),
            offset: None,
            kategori_id: Some(1),
            start: Some(Tanggal::from_ymd_opt(2024, 3, 1)),
            end: Some(None),
        }
    );
}

#[test]
fn entries_are_created_changed_and_deleted_from_plain_values() {
    let mut db = store();
    let user = 42u128;
    let date = Tanggal::from_ymd_opt(2024, 3, 1);
    let fields = |jumlah, deskripsi: &str, tanggal| CreateParsed {
        kategori_id: 1,
        jumlah,
        deskripsi: deskripsi.to_string(),
        tanggal,
    };
    assert_eq!(check_create(user, fields(0, "a", date)).unwrap_err(), ApiError::JumlahTidakValid);
    assert_eq!(check_create(user, fields(1, "", date)).unwrap_err(), ApiError::DeskripsiKosong);
    assert_eq!(
        check_create(user, fields(1, "a", None)).unwrap_err(),
        ApiError::FormatTanggalTidakValid
    );
    assert_eq!(check_create(user, fields(1, " a ", date)).unwrap().deskripsi, " a ");
    let t = create_transaksi_for_user(&mut db, user, fields(70, "a", date), 5).unwrap();
    assert_eq!((t.id, t.user_id, t.jumlah), (1, 42, 70));
    let change = UpdateParsed {
        kategori_id: Some(2),
        jumlah: Some(30),
        deskripsi: None,
        tanggal: Some(Tanggal::from_ymd_opt(2024, 3, 2)),
    };
    let u = update_transaksi_for_user(&mut db, user, t.id, change, 6).unwrap();
    assert_eq!((u.kategori_id, u.jumlah, u.deskripsi.as_str()), (2, 30, "a"));
    assert_eq!(Some(u.tanggal), Tanggal::from_ymd_opt(2024, 3, 2));
    let bad = UpdateParsed { kategori_id: None, jumlah: None, deskripsi: None, tanggal: Some(None) };
    assert_eq!(check_update(bad).unwrap_err(), ApiError::FormatTanggalTidakValid);
    let bad = UpdateParsed {
        kategori_id: None,
        jumlah: None,
        deskripsi: Some(String::new()),
        tanggal: Some(None),
    };
    assert_eq!(check_update(bad).unwrap_err(), ApiError::DeskripsiKosong);
    let bad = UpdateParsed { kategori_id: None, jumlah: Some(-1), deskripsi: None, tanggal: None };
    assert_eq!(
        update_transaksi_for_user(&mut db, user, t.id, bad, 7).unwrap_err(),
        ApiError::JumlahTidakValid
    );
    let all = ListParsed { limit: None, offset: None, kategori_id: None, start: None, end: None };
    assert_eq!(get_transaksi_for_user(&db, user, &all).unwrap().len(), 1);
    assert!(get_transaksi_for_user(&db, 43, &all).unwrap().is_empty());
    let bad = ListParsed { start: Some(None), ..all };
    assert_eq!(
        get_transaksi_for_user(&db, user, &bad).unwrap_err(),
        ApiError::FormatTanggalTidakValid
    );
    assert_eq!(get_transaksi_of_user(&db, user, t.id).unwrap().kategori_nama, "Transport");
    assert_eq!(
        delete_transaksi_for_user(&mut db, 43, t.id, 8).unwrap_err(),
        ApiError::TransaksiTidakDitemukan
    );
    assert_eq!(delete_transaksi_for_user(&mut db, user, t.id, 8).unwrap().id, t.id);
    assert!(db.transaksi.is_empty());
}
