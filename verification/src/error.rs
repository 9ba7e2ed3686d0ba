//! The ways in which an operation on the ledger can fail.

use vstd::prelude::*;

verus! {

/// The classes of failure.
#[derive(Clone, Copy, Debug, PartialEq, Eq, Structural)]
pub enum ErrorKind {
    /// A field of the request is malformed. Nothing was written.
    Validation,
    /// A record that the request refers to is absent, or belongs to
    /// another user. Nothing was written.
    NotFound,
    /// The request would create a record that exists already.
    Conflict,
    /// The store could not carry out the unit of work. Nothing of it
    /// stays written.
    Persistence,
    /// The credentials do not match.
    Unauthorized,
}

/// The failure of an operation.
#[derive(Clone, Copy, Debug, PartialEq, Eq, Structural)]
pub enum ApiError {
    /// The user identifier is not a UUID.
    InvalidUserId,
    /// The amount of a ledger entry is zero or negative.
    JumlahTidakValid,
    /// The description of a ledger entry is empty once trimmed.
    DeskripsiKosong,
    /// A date is not written `YYYY-MM-DD`.
    FormatTanggalTidakValid,
    /// The request names a category that does not exist.
    KategoriTidakDikenal,
    /// No ledger entry with that identifier belongs to the user.
    TransaksiTidakDitemukan,
    /// No budget with that identifier belongs to the user.
    BudgetTidakDitemukan,
    /// No category has that identifier.
    KategoriTidakDitemukan,
    /// The limit of a budget is zero or negative.
    AmountTidakValid,
    /// The running total given for a budget is below zero.
    SpentTidakValid,
    /// The user has a budget for the category already.
    BudgetSudahAda,
    /// The name of a category is empty once trimmed.
    NamaKategoriKosong,
    /// Another category has that name already.
    KategoriSudahAda,
    /// The ledger entry could not be stored.
    GagalMembuatTransaksi,
    /// The budget could not be stored.
    GagalMembuatBudget,
    /// The category could not be stored.
    GagalMembuatKategori,
    /// The running total of a budget could not be brought up to date.
    GagalMengupdateBudget,
    /// The store failed while it was read.
    KesalahanServer,
    /// The address or the password of an account request is empty.
    EmailPasswordKosong,
    /// An account with that address exists already.
    EmailSudahTerdaftar,
    /// No account has that address, or the password is not its password.
    KredensialSalah,
    /// The new password and its repetition differ.
    PasswordTidakCocok,
    /// The new password has fewer than six bytes.
    PasswordTerlaluPendek,
    /// No account has that address.
    EmailTidakDitemukan,
    /// No account has that identifier.
    UserTidakDitemukan,
    /// The request names no field to change.
    TidakAdaData,
    /// The password is not the password of the account.
    PasswordSalah,
    /// Another account has that address already.
    EmailSudahDigunakan,
    /// The current or the new password is empty.
    PasswordLamaBaruKosong,
    /// The new password has fewer than six bytes.
    PasswordBaruTerlaluPendek,
    /// The current password is not the password of the account.
    PasswordLamaSalah,
    /// The account could not be stored.
    GagalMembuatAkun,
}

impl ApiError {
    /// The class of the failure.
    pub open spec fn spec_kind(&self) -> ErrorKind {
        match self {
            ApiError::InvalidUserId
            | ApiError::JumlahTidakValid
            | ApiError::DeskripsiKosong
            | ApiError::FormatTanggalTidakValid
            | ApiError::AmountTidakValid
            | ApiError::SpentTidakValid
            | ApiError::NamaKategoriKosong
            | ApiError::EmailPasswordKosong
            | ApiError::PasswordTidakCocok
            | ApiError::PasswordTerlaluPendek
            | ApiError::TidakAdaData
            | ApiError::PasswordLamaBaruKosong
            | ApiError::PasswordBaruTerlaluPendek => ErrorKind::Validation,
            ApiError::KategoriTidakDikenal
            | ApiError::TransaksiTidakDitemukan
            | ApiError::BudgetTidakDitemukan
            | ApiError::KategoriTidakDitemukan
            | ApiError::EmailTidakDitemukan
            | ApiError::UserTidakDitemukan => ErrorKind::NotFound,
            ApiError::BudgetSudahAda
            | ApiError::KategoriSudahAda
            | ApiError::EmailSudahTerdaftar
            | ApiError::EmailSudahDigunakan => ErrorKind::Conflict,
            ApiError::GagalMembuatTransaksi
            | ApiError::GagalMembuatBudget
            | ApiError::GagalMembuatKategori
            | ApiError::GagalMengupdateBudget
            | ApiError::GagalMembuatAkun
            | ApiError::KesalahanServer => ErrorKind::Persistence,
            ApiError::KredensialSalah
            | ApiError::PasswordSalah
            | ApiError::PasswordLamaSalah => ErrorKind::Unauthorized,
        }
    }

    /// The class of the failure.
    pub fn kind(&self) -> (k: ErrorKind)
        ensures
            k == self.spec_kind(),
    {
        match self {
            ApiError::InvalidUserId
            | ApiError::JumlahTidakValid
            | ApiError::DeskripsiKosong
            | ApiError::FormatTanggalTidakValid
            | ApiError::AmountTidakValid
            | ApiError::SpentTidakValid
            | ApiError::NamaKategoriKosong
            | ApiError::EmailPasswordKosong
            | ApiError::PasswordTidakCocok
            | ApiError::PasswordTerlaluPendek
            | ApiError::TidakAdaData
            | ApiError::PasswordLamaBaruKosong
            | ApiError::PasswordBaruTerlaluPendek => ErrorKind::Validation,
            ApiError::KategoriTidakDikenal
            | ApiError::TransaksiTidakDitemukan
            | ApiError::BudgetTidakDitemukan
            | ApiError::KategoriTidakDitemukan
            | ApiError::EmailTidakDitemukan
            | ApiError::UserTidakDitemukan => ErrorKind::NotFound,
            ApiError::BudgetSudahAda
            | ApiError::KategoriSudahAda
            | ApiError::EmailSudahTerdaftar
            | ApiError::EmailSudahDigunakan => ErrorKind::Conflict,
            ApiError::GagalMembuatTransaksi
            | ApiError::GagalMembuatBudget
            | ApiError::GagalMembuatKategori
            | ApiError::GagalMengupdateBudget
            | ApiError::GagalMembuatAkun
            | ApiError::KesalahanServer => ErrorKind::Persistence,
            ApiError::KredensialSalah
            | ApiError::PasswordSalah
            | ApiError::PasswordLamaSalah => ErrorKind::Unauthorized,
        }
    }

    /// The HTTP status that reports the failure.
    pub open spec fn spec_status_code(&self) -> u16 {
        match self {
            ApiError::KategoriTidakDikenal => 400,
            _ => match self.spec_kind() {
                ErrorKind::Validation => 400,
                ErrorKind::NotFound => 404,
                ErrorKind::Conflict => 409,
                ErrorKind::Persistence => 500,
                ErrorKind::Unauthorized => 401,
            },
        }
    }

    /// The HTTP status that reports the failure. A request that names an
    /// unknown category is answered as a malformed request.
    pub fn status_code(&self) -> (code: u16)
        ensures
            code == self.spec_status_code(),
    {
        match self {
            ApiError::KategoriTidakDikenal => 400,
            _ => match self.kind() {
                ErrorKind::Validation => 400,
                ErrorKind::NotFound => 404,
                ErrorKind::Conflict => 409,
                ErrorKind::Persistence => 500,
                ErrorKind::Unauthorized => 401,
            },
        }
    }

    /// The message that a client is shown.
    pub open spec fn spec_message(&self) -> Seq<char> {
        match self {
            ApiError::InvalidUserId => "Invalid user ID format."@,
            ApiError::JumlahTidakValid => "Jumlah harus lebih dari 0."@,
            ApiError::DeskripsiKosong => "Deskripsi tidak boleh kosong."@,
            ApiError::FormatTanggalTidakValid =>
                "Format tanggal tidak valid. Gunakan format YYYY-MM-DD."@,
            ApiError::KategoriTidakDikenal => "Kategori tidak ditemukan."@,
            ApiError::TransaksiTidakDitemukan => "Transaksi tidak ditemukan."@,
            ApiError::BudgetTidakDitemukan => "Budget tidak ditemukan."@,
            ApiError::KategoriTidakDitemukan => "Kategori tidak ditemukan."@,
            ApiError::AmountTidakValid => "Amount harus lebih dari 0."@,
            ApiError::SpentTidakValid => "Spent tidak boleh kurang dari 0."@,
            ApiError::BudgetSudahAda => "Budget untuk kategori ini sudah ada."@,
            ApiError::NamaKategoriKosong => "Nama kategori wajib diisi."@,
            ApiError::KategoriSudahAda => "Kategori dengan nama tersebut sudah ada."@,
            ApiError::GagalMembuatTransaksi => "Gagal membuat transaksi."@,
            ApiError::GagalMembuatBudget => "Gagal membuat budget."@,
            ApiError::GagalMembuatKategori => "Gagal membuat kategori."@,
            ApiError::GagalMengupdateBudget => "Gagal mengupdate budget."@,
            ApiError::KesalahanServer => "Terjadi kesalahan pada server."@,
            ApiError::EmailPasswordKosong => "Email dan password wajib diisi."@,
            ApiError::EmailSudahTerdaftar => "Email sudah terdaftar."@,
            ApiError::KredensialSalah => "Email atau password salah."@,
            ApiError::PasswordTidakCocok => "Password tidak cocok."@,
            ApiError::PasswordTerlaluPendek => "Password minimal 6 karakter."@,
            ApiError::EmailTidakDitemukan => "Email tidak ditemukan."@,
            ApiError::UserTidakDitemukan => "User tidak ditemukan."@,
            ApiError::TidakAdaData => "Tidak ada data yang diupdate."@,
            ApiError::PasswordSalah => "Password salah."@,
            ApiError::EmailSudahDigunakan => "Email sudah digunakan oleh user lain."@,
            ApiError::PasswordLamaBaruKosong => "Password lama dan baru wajib diisi."@,
            ApiError::PasswordBaruTerlaluPendek => "Password baru minimal 6 karakter."@,
            ApiError::PasswordLamaSalah => "Password lama salah."@,
            ApiError::GagalMembuatAkun => "Gagal membuat akun."@,
        }
    }

    /// The message that a client is shown.
    pub fn message(&self) -> (text: &'static str)
        ensures
            text@ == self.spec_message(),
    {
        match self {
            ApiError::InvalidUserId => "Invalid user ID format.",
            ApiError::JumlahTidakValid => "Jumlah harus lebih dari 0.",
            ApiError::DeskripsiKosong => "Deskripsi tidak boleh kosong.",
            ApiError::FormatTanggalTidakValid =>
                "Format tanggal tidak valid. Gunakan format YYYY-MM-DD.",
            ApiError::KategoriTidakDikenal => "Kategori tidak ditemukan.",
            ApiError::TransaksiTidakDitemukan => "Transaksi tidak ditemukan.",
            ApiError::BudgetTidakDitemukan => "Budget tidak ditemukan.",
            ApiError::KategoriTidakDitemukan => "Kategori tidak ditemukan.",
            ApiError::AmountTidakValid => "Amount harus lebih dari 0.",
            ApiError::SpentTidakValid => "Spent tidak boleh kurang dari 0.",
            ApiError::BudgetSudahAda => "Budget untuk kategori ini sudah ada.",
            ApiError::NamaKategoriKosong => "Nama kategori wajib diisi.",
            ApiError::KategoriSudahAda => "Kategori dengan nama tersebut sudah ada.",
            ApiError::GagalMembuatTransaksi => "Gagal membuat transaksi.",
            ApiError::GagalMembuatBudget => "Gagal membuat budget.",
            ApiError::GagalMembuatKategori => "Gagal membuat kategori.",
            ApiError::GagalMengupdateBudget => "Gagal mengupdate budget.",
            ApiError::KesalahanServer => "Terjadi kesalahan pada server.",
            ApiError::EmailPasswordKosong => "Email dan password wajib diisi.",
            ApiError::EmailSudahTerdaftar => "Email sudah terdaftar.",
            ApiError::KredensialSalah => "Email atau password salah.",
            ApiError::PasswordTidakCocok => "Password tidak cocok.",
            ApiError::PasswordTerlaluPendek => "Password minimal 6 karakter.",
            ApiError::EmailTidakDitemukan => "Email tidak ditemukan.",
            ApiError::UserTidakDitemukan => "User tidak ditemukan.",
            ApiError::TidakAdaData => "Tidak ada data yang diupdate.",
            ApiError::PasswordSalah => "Password salah.",
            ApiError::EmailSudahDigunakan => "Email sudah digunakan oleh user lain.",
            ApiError::PasswordLamaBaruKosong => "Password lama dan baru wajib diisi.",
            ApiError::PasswordBaruTerlaluPendek => "Password baru minimal 6 karakter.",
            ApiError::PasswordLamaSalah => "Password lama salah.",
            ApiError::GagalMembuatAkun => "Gagal membuat akun.",
        }
    }
}

} // verus!
