//! Spending categories.

use vstd::prelude::*;

verus! {

/// A category that ledger entries and budgets refer to.
#[derive(Debug)]
pub struct Kategori {
    pub id: i32,
    pub nama: String,
    pub created_at: Option<i64>,
    pub updated_at: Option<i64>,
}

impl Clone for Kategori {
    fn clone(&self) -> (r: Self)
        ensures
            r == *self,
    {
        Kategori {
            id: self.id,
            nama: self.nama.clone(),
            created_at: self.created_at,
            updated_at: self.updated_at,
        }
    }
}

/// The name of a new category.
#[derive(Debug)]
pub struct CreateKategoriRequest {
    pub nama: String,
}

/// The new name of a category.
#[derive(Debug)]
pub struct UpdateKategoriRequest {
    pub nama: String,
}

} // verus!
