//! The rules by which saved holdings are kept. Reading and writing the file
//! is left to the caller: these functions say what is to be written, and
//! what a missing file means.

use crate::config::AppConfig;
use crate::error::{ErrorKind, StockCalcError};
use crate::models::{
    distinct_codes, has_code, holds_at, StockData, StockDataView, StockDatabase,
};
use vstd::prelude::*;
use vstd::string::StringExecFns;

verus! {

/// What is known of the stored database.
#[derive(Debug)]
pub struct DatabaseInfo {
    pub total_stocks: usize,
    pub file_size: u64,
    pub data_path: String,
}

/// The keeper of the saved holdings.
pub struct Storage {
    pub config: AppConfig,
}

/// The detail of the error for a restore without a backup.
pub open spec fn missing_backup_text() -> Seq<char> {
    "备份文件不存在"@
}

impl Storage {
    /// A keeper that follows `config`.
    pub fn new(config: AppConfig) -> (storage: Storage)
        ensures
            storage.config == config,
    {
        Storage { config }
    }

    /// The database that a stored file stands for: `stored` is what was read
    /// from the file, or `None` if there is no file, which stands for a
    /// database without holdings.
    pub fn load_database(&self, stored: Option<StockDatabase>) -> (database: StockDatabase)
        ensures
            match stored {
                Some(db) => database == db,
                None => database@ == Seq::<StockDataView>::empty(),
            },
    {
        match stored {
            Some(db) => db,
            None => StockDatabase::new(),
        }
    }

    /// The database to write after `stock` has been saved to `database`.
    pub fn add_stock(&self, database: StockDatabase, stock: StockData) -> (saved: StockDatabase)
        ensures
            distinct_codes(saved@),
            forall|i: int|
                holds_at(database@, stock.code@, i) ==> saved@ == database@.update(i, stock@),
            !has_code(database@, stock.code@) ==> saved@ == database@.push(stock@),
    {
        let mut database = database;
        database.add_stock(stock);
        database
    }

    /// The database to write after `stock` has taken the place of the
    /// holding with its code in `database`, or has been added to it.
    pub fn update_stock(&self, database: StockDatabase, stock: StockData) -> (saved: StockDatabase)
        ensures
            distinct_codes(saved@),
            forall|i: int|
                holds_at(database@, stock.code@, i) ==> saved@ == database@.update(i, stock@),
            !has_code(database@, stock.code@) ==> saved@ == database@.push(stock@),
    {
        self.add_stock(database, stock)
    }

    /// Takes the holding for `code` out of `database`. The result holds the
    /// holding that was taken out, if there was one, and tells whether the
    /// database has to be written: only if something was taken out.
    pub fn remove_stock(&self, database: &mut StockDatabase, code: &str) -> (r: (
        Option<StockData>,
        bool,
    ))
        ensures
            r.1 == r.0 is Some,
            distinct_codes(final(database)@),
            match r.0 {
                Some(stock) => exists|i: int|
                    {
                        &&& #[trigger] holds_at(old(database)@, code@, i)
                        &&& stock@ == old(database)@[i]
                        &&& final(database)@ == old(database)@.remove(i)
                    },
                None => !has_code(old(database)@, code@) && final(database)@ == old(database)@,
            },
    {
        let removed = database.remove_stock(code);
        let write = removed.is_some();
        (removed, write)
    }

    /// A copy of the holding for `code` in `database`, if there is one.
    pub fn get_stock(&self, database: &StockDatabase, code: &str) -> (r: Option<StockData>)
        ensures
            match r {
                Some(stock) => exists|i: int| #[trigger]
                    holds_at(database@, code@, i) && stock@ == database@[i],
                None => !has_code(database@, code@),
            },
    {
        match database.get_stock(code) {
            Some(stock) => Some(stock.duplicate()),
            None => None,
        }
    }

    /// Copies of all holdings in `database`.
    pub fn list_stocks(&self, database: &StockDatabase) -> (list: Vec<StockData>)
        ensures
            list@.len() == database@.len(),
            forall|i: int| 0 <= i < list@.len() ==> (#[trigger] list@[i])@ == database@[i],
            distinct_codes(database@),
    {
        let stocks = database.list_stocks();
        let mut list: Vec<StockData> = Vec::new();
        let mut i: usize = 0;
        while i < stocks.len()
            invariant
                i <= stocks.len(),
                stocks@.len() == database@.len(),
                forall|k: int| 0 <= k < stocks@.len() ==> (#[trigger] stocks@[k])@ == database@[k],
                list@.len() == i,
                forall|k: int| 0 <= k < i ==> (#[trigger] list@[k])@ == database@[k],
            decreases stocks.len() - i,
        {
            list.push(stocks[i].duplicate());
            i += 1;
        }
        list
    }

    /// Whether a backup can be restored: only if there is one.
    pub fn restore_database(&self, backup_exists: bool) -> (r: Result<(), StockCalcError>)
        ensures
            match r {
                Ok(_) => backup_exists,
                Err(e) => !backup_exists && e@ == (ErrorKind::Storage, missing_backup_text()),
            },
    {
        if backup_exists {
            Ok(())
        } else {
            Err(StockCalcError::StorageError(String::from_str("备份文件不存在")))
        }
    }

    /// The database to write when all holdings are given up: one without
    /// holdings.
    pub fn clear_database(&self) -> (database: StockDatabase)
        ensures
            database@ == Seq::<StockDataView>::empty(),
    {
        StockDatabase::new()
    }

    /// What is known of the stored database: how many holdings `database`
    /// has, the size of its file (`None` if there is no file, which counts as
    /// size 0) and where the file is.
    pub fn get_database_info(
        &self,
        database: &StockDatabase,
        file_size: Option<u64>,
        data_path: String,
    ) -> (info: DatabaseInfo)
        ensures
            info.total_stocks == database@.len(),
            info.file_size == (match file_size {
                Some(size) => size,
                None => 0,
            }),
            info.data_path == data_path,
    {
        let size: u64 = match file_size {
            Some(size) => size,
            None => 0,
        };
        DatabaseInfo { total_stocks: database.len(), file_size: size, data_path }
    }
}

} // verus!
