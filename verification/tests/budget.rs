use finance_tracker::database::Database;
use finance_tracker::error::{ApiError, ErrorKind};
use finance_tracker::models::budget::{
    adjust_budgets, Adjustment, Budget, CreateBudgetRequest, UpdateBudgetRequest,
};
use finance_tracker::models::kategori::CreateKategoriRequest;
use finance_tracker::budgets::{
    budget_exists_for, create_budget_for_user, delete_budget_for_user, find_budget,
    get_budget_of_user, get_budgets_for_user, update_budget_for_user,
};
use finance_tracker::routes::budget::{
    create_budget, delete_budget, get_budget_by_id, get_user_budgets, update_budget,
};
use finance_tracker::routes::kategori::{create_kategori, delete_kategori};

const USER: &str = "8787368b-3437-4440-9d99-0675386f1626";
const UID: u128 = 0x8787368b_3437_4440_9d99_0675386f1626;
const OTHER: &str = "00000000-0000-0000-0000-000000000001";

fn store() -> Database {
    let mut db = Database::new();
    for nama in ["Makan", "Transport", "Hiburan"] {
        create_kategori(&mut db, &CreateKategoriRequest { nama: nama.to_string() }, 1).unwrap();
    }
    db
}

fn new_budget(kategori_id: i32, amount: i32) -> CreateBudgetRequest {
    CreateBudgetRequest { kategori_id, amount }
}

#[test]
fn a_budget_starts_with_nothing_spent() {
    let mut db = store();
    let b = create_budget(&mut db, USER, &new_budget(2, 10000), 77).unwrap();
    assert_eq!(
        b,
        Budget {
            id: 1,
            user_id: UID,
            kategori_id: 2,
            amount: 10000,
            spent: Some(0),
            created_at: Some(77),
            updated_at: Some(77),
        }
    );
    assert_eq!(db.budgets, vec![b]);
    assert_eq!(b.spent_or_zero(), 0);
    assert!(b.is_for(UID, 2) && !b.is_for(UID, 1) && !b.is_for(1, 2));
}

#[test]
fn a_user_has_one_budget_for_a_category() {
    let mut db = store();
    create_budget(&mut db, USER, &new_budget(1, 10000), 1).unwrap();
    let err = create_budget(&mut db, USER, &new_budget(1, 500), 2).unwrap_err();
    assert_eq!(err, ApiError::BudgetSudahAda);
    assert_eq!(err.kind(), ErrorKind::Conflict);
    assert_eq!(err.status_code(), 409);
    assert_eq!(db.budgets.len(), 1);
    assert!(create_budget(&mut db, USER, &new_budget(2, 500), 3).is_ok());
    assert!(create_budget(&mut db, OTHER, &new_budget(1, 500), 4).is_ok());
    assert_eq!(db.budgets.len(), 3);
    assert!(budget_exists_for(&db.budgets, UID, 2));
    assert!(!budget_exists_for(&db.budgets, UID, 3));
}

#[test]
fn creating_a_budget_rejects_in_the_order_of_its_checks() {
    let mut db = store();
    assert_eq!(
        create_budget(&mut db, "x", &new_budget(9, 0), 1).unwrap_err(),
        ApiError::InvalidUserId
    );
    assert_eq!(
        create_budget(&mut db, USER, &new_budget(9, 0), 1).unwrap_err(),
        ApiError::AmountTidakValid
    );
    assert_eq!(
        create_budget(&mut db, USER, &new_budget(9, -1), 1).unwrap_err(),
        ApiError::AmountTidakValid
    );
    let err = create_budget(&mut db, USER, &new_budget(9, 1), 1).unwrap_err();
    assert_eq!(err, ApiError::KategoriTidakDikenal);
    assert_eq!(err.kind(), ErrorKind::NotFound);
    assert_eq!(err.status_code(), 400);
    db.last_budget_id = i32::MAX;
    assert_eq!(
        create_budget(&mut db, USER, &new_budget(1, 1), 1).unwrap_err(),
        ApiError::GagalMembuatBudget
    );
    assert!(db.budgets.is_empty());
}

#[test]
fn a_budget_is_changed_field_by_field() {
    let mut db = store();
    let b = create_budget(&mut db, USER, &new_budget(1, 10000), 1).unwrap();
    let u = update_budget(&mut db, USER, b.id, &UpdateBudgetRequest { amount: Some(500), spent: None }, 9)
        .unwrap();
    assert_eq!((u.amount, u.spent, u.updated_at, u.created_at), (500, Some(0), Some(9), Some(1)));
    let u = update_budget(&mut db, USER, b.id, &UpdateBudgetRequest { amount: None, spent: Some(42) }, 10)
        .unwrap();
    assert_eq!((u.amount, u.spent, u.updated_at), (500, Some(42), Some(10)));
    assert_eq!(db.budgets[0], u);
    let u = update_budget(&mut db, USER, b.id, &UpdateBudgetRequest { amount: None, spent: None }, 11)
        .unwrap();
    assert_eq!((u.amount, u.spent, u.updated_at), (500, Some(42), Some(11)));
    assert_eq!(
        update_budget(&mut db, OTHER, b.id, &UpdateBudgetRequest { amount: Some(1), spent: None }, 12)
            .unwrap_err(),
        ApiError::BudgetTidakDitemukan
    );
    assert_eq!(
        update_budget(&mut db, "?", b.id, &UpdateBudgetRequest { amount: Some(1), spent: None }, 12)
            .unwrap_err(),
        ApiError::InvalidUserId
    );
    assert_eq!(db.budgets[0].amount, 500);
}

#[test]
fn a_budget_keeps_a_limit_above_zero_and_a_total_at_zero_or_above() {
    let mut db = store();
    let b = create_budget(&mut db, USER, &new_budget(1, 10000), 1).unwrap();
    let change = |amount, spent| UpdateBudgetRequest { amount, spent };
    assert_eq!(
        update_budget(&mut db, USER, b.id, &change(Some(0), Some(-1)), 2).unwrap_err(),
        ApiError::AmountTidakValid
    );
    assert_eq!(
        update_budget(&mut db, USER, b.id, &change(Some(-5), None), 2).unwrap_err(),
        ApiError::AmountTidakValid
    );
    let err = update_budget(&mut db, USER, b.id, &change(Some(1), Some(-1)), 2).unwrap_err();
    assert_eq!(err, ApiError::SpentTidakValid);
    assert_eq!(err.kind(), ErrorKind::Validation);
    assert_eq!(
        update_budget(&mut db, USER, b.id + 1, &change(Some(0), None), 2).unwrap_err(),
        ApiError::BudgetTidakDitemukan
    );
    assert_eq!(db.budgets, vec![b]);
    let u = update_budget(&mut db, USER, b.id, &change(Some(1), Some(0)), 3).unwrap();
    assert_eq!((u.amount, u.spent), (1, Some(0)));
}

#[test]
fn a_budget_is_deleted() {
    let mut db = store();
    let a = create_budget(&mut db, USER, &new_budget(1, 100), 1).unwrap();
    let b = create_budget(&mut db, USER, &new_budget(2, 200), 2).unwrap();
    assert_eq!(delete_budget(&mut db, OTHER, a.id).unwrap_err(), ApiError::BudgetTidakDitemukan);
    assert_eq!(delete_budget(&mut db, USER, 99).unwrap_err(), ApiError::BudgetTidakDitemukan);
    assert_eq!(delete_budget(&mut db, USER, a.id).unwrap(), a);
    assert_eq!(db.budgets, vec![b]);
    assert_eq!(find_budget(&db.budgets, b.id, UID), Some(0));
    assert_eq!(find_budget(&db.budgets, a.id, UID), None);
    let c = create_budget(&mut db, USER, &new_budget(1, 100), 3).unwrap();
    assert_eq!(c.id, 3);
}

#[test]
fn budgets_are_listed_with_the_last_created_first() {
    let mut db = store();
    create_budget(&mut db, USER, &new_budget(1, 100), 10).unwrap();
    create_budget(&mut db, OTHER, &new_budget(1, 999), 15).unwrap();
    create_budget(&mut db, USER, &new_budget(3, 300), 30).unwrap();
    create_budget(&mut db, USER, &new_budget(2, 200), 20).unwrap();
    db.budgets[0].spent = None;
    let rows = get_user_budgets(&db, USER).unwrap();
    let shown: Vec<(i32, &str, i32, i32)> =
        rows.iter().map(|r| (r.id, r.kategori_nama.as_str(), r.amount, r.spent)).collect();
    assert_eq!(shown, vec![(3, "Hiburan", 300, 0), (4, "Transport", 200, 0), (1, "Makan", 100, 0)]);
    assert_eq!(rows[0].user_id, USER);
    delete_kategori(&mut db, 2).unwrap();
    let ids: Vec<i32> = get_user_budgets(&db, USER).unwrap().iter().map(|r| r.id).collect();
    assert_eq!(ids, vec![3, 1]);
    assert_eq!(get_user_budgets(&db, "no").unwrap_err(), ApiError::InvalidUserId);
    assert!(get_user_budgets(&db, "00000000-0000-0000-0000-000000000002").unwrap().is_empty());
}

#[test]
fn one_budget_is_shown_with_its_category() {
    let mut db = store();
    let b = create_budget(&mut db, USER, &new_budget(2, 100), 10).unwrap();
    let row = get_budget_by_id(&db, USER, b.id).unwrap();
    assert_eq!((row.id, row.kategori_id, row.amount, row.spent), (1, 2, 100, 0));
    assert_eq!(row.kategori_nama, "Transport");
    assert_eq!(row.user_id, USER);
    assert_eq!(get_budget_by_id(&db, OTHER, b.id).unwrap_err(), ApiError::BudgetTidakDitemukan);
    assert_eq!(get_budget_by_id(&db, "-", b.id).unwrap_err(), ApiError::InvalidUserId);
    delete_kategori(&mut db, 2).unwrap();
    assert_eq!(get_budget_by_id(&db, USER, b.id).unwrap_err(), ApiError::BudgetTidakDitemukan);
}

#[test]
fn running_totals_change_for_one_user_and_category() {
    let b = |id, user_id, kategori_id, spent| Budget {
        id,
        user_id,
        kategori_id,
        amount: 1,
        spent,
        created_at: None,
        updated_at: None,
    };
    let budgets = vec![b(1, 5, 1, Some(10)), b(2, 5, 2, None), b(3, 6, 1, Some(i32::MAX))];
    let after = adjust_budgets(&budgets, 5, 1, Adjustment::Tambah(7), 99).unwrap();
    assert_eq!(after[0].spent, Some(17));
    assert_eq!(after[0].updated_at, Some(99));
    assert_eq!(after[1], budgets[1]);
    assert_eq!(after[2], budgets[2]);
    let after = adjust_budgets(&budgets, 5, 2, Adjustment::Kurang(7), 99).unwrap();
    assert_eq!(after[1].spent, Some(0));
    assert!(adjust_budgets(&budgets, 6, 1, Adjustment::Tambah(1), 99).is_none());
    assert_eq!(adjust_budgets(&budgets, 9, 9, Adjustment::Tambah(1), 99).unwrap(), budgets);
}

#[test]
fn budgets_are_kept_for_a_user_given_by_number() {
    let mut db = store();
    let b = create_budget_for_user(&mut db, 9, &new_budget(1, 100), 1).unwrap();
    assert_eq!((b.id, b.user_id, b.spent), (1, 9, Some(0)));
    assert_eq!(
        create_budget_for_user(&mut db, 9, &new_budget(1, 100), 2).unwrap_err(),
        ApiError::BudgetSudahAda
    );
    let u = update_budget_for_user(&mut db, 9, 1, &UpdateBudgetRequest { amount: Some(7), spent: None }, 3)
        .unwrap();
    assert_eq!((u.amount, u.updated_at), (7, Some(3)));
    assert_eq!(get_budgets_for_user(&db, 9).len(), 1);
    assert!(get_budgets_for_user(&db, 8).is_empty());
    assert_eq!(get_budget_of_user(&db, 9, 1).unwrap().kategori_nama, "Makan");
    assert_eq!(get_budget_of_user(&db, 8, 1).unwrap_err(), ApiError::BudgetTidakDitemukan);
    assert_eq!(delete_budget_for_user(&mut db, 8, 1).unwrap_err(), ApiError::BudgetTidakDitemukan);
    assert_eq!(delete_budget_for_user(&mut db, 9, 1).unwrap(), u);
}
