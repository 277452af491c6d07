//! Tables keyed by identifiers whose values may be of any type, named anew
//! at each call. Such a table cannot be walked: nothing would say what type
//! a row is to be read as.

use vstd::prelude::*;
use crate::{RkyvSer, RkyvVal, to_bytes, validated, settled};
use crate::error::{Error, lift, lifted};
use crate::index::Index;
use crate::index_table::{appended, stored, following};
use crate::lmdb;
use crate::lmdb::{
    DbFlagSet, DbFlags, Request, Reply, del_done, drop_done, get_done, last_seen,
    u64_rows, ne_bytes, cursor_sound, keys_are_u64, u64_to_ne_bytes,
};
use crate::transaction::{Transaction, RwTxn};
use crate::Table;

verus! {

/// A table of values of any type keyed by identifiers, seen through one
/// transaction.
pub struct IndexPolyTable<'tx, TX> {
    pub tx: &'tx TX,
    pub dbi: u32,
}

impl<'tx, 'b, 'env: 'tx, E> IndexPolyTable<'tx, RwTxn<'b, E>>
    where E: for <'a> Fn(Request<'a>) -> Reply<'env>,
{
    /// Encodes `t` and stores it under `index`, replacing the row that was
    /// there.
    pub fn put<T>(&self, index: Index<T>, t: &T) -> (r: Result<(), Error>)
        where T: rkyv::Archive + for <'a> rkyv::Serialize<RkyvSer<'a>>,
        requires
            self.tx.wf(),
        ensures
            stored(self.tx, self.dbi, ne_bytes(index@), r),
    {
        let index_bytes = u64_to_ne_bytes(index.value());
        match to_bytes(t) {
            Ok(value_bytes) => lift(
                lmdb::put(self.tx, self.dbi, index_bytes.as_slice(), value_bytes.as_slice()),
            ),
            Err(e) => Err(Error::Rkyv(e)),
        }
    }

    /// Encodes `t` and stores it under the identifier that follows the
    /// greatest one in use, which it returns. Once the greatest one in use is
    /// the largest number there is, the table counts as full.
    pub fn put_last<T>(&self, t: &T) -> (r: Result<Index<T>, Error>)
        where T: rkyv::Archive + for <'a> rkyv::Serialize<RkyvSer<'a>>,
        requires
            self.tx.wf(),
            cursor_sound(self.tx),
            keys_are_u64(self.tx, self.dbi),
        ensures
            appended(
                self.tx,
                self.dbi,
                match r {
                    Ok(id) => Ok(id@),
                    Err(e) => Err(e),
                },
            ),
    {
        let last_key = match self.last_numeric_index() {
            Ok(last) => last,
            Err(e) => {
                return Err(e);
            },
        };
        let index = match following(last_key) {
            Some(n) => Index::new(n),
            None => {
                return Err(Error::Lmdb(lmdb::Error::MapFull));
            },
        };
        match self.put(index, t) {
            Ok(_) => Ok(index),
            Err(e) => Err(e),
        }
    }

    /// Removes the row under `index` and says whether there was one.
    pub fn delete_index<T>(&self, index: Index<T>) -> (r: Result<bool, Error>)
        requires
            self.tx.wf(),
        ensures
            exists|d: Result<bool, lmdb::Error>| #[trigger]
                del_done(self.tx, self.dbi, ne_bytes(index@), d) && r == lifted(d),
    {
        let index_bytes = u64_to_ne_bytes(index.value());
        lift(lmdb::del(self.tx, self.dbi, index_bytes.as_slice()))
    }

    /// Removes all rows.
    pub fn clear(&self) -> (r: Result<(), Error>)
        requires
            self.tx.wf(),
        ensures
            exists|d: Result<(), lmdb::Error>| #[trigger] drop_done(self.tx, self.dbi, d) && r
                == lifted(d),
    {
        lift(lmdb::drop(self.tx, self.dbi))
    }
}

impl<'tx, 'env: 'tx, TX> IndexPolyTable<'tx, TX>
    where TX: Transaction<'env>,
{
    /// The table `dbi` as seen through `tx`.
    pub fn build(tx: &'tx TX, dbi: u32) -> (r: Self)
        ensures
            r.tx == tx,
            r.dbi == dbi,
    {
        IndexPolyTable { tx, dbi }
    }

    /// The bytes stored under `index`, where there is a row and its bytes are
    /// a valid value of type `T`.
    pub fn get<T>(&self, index: Index<T>) -> (r: Result<Option<&'tx [u8]>, Error>)
        where
            T: rkyv::Archive,
            rkyv::Archived<T>: for <'a> rkyv::bytecheck::CheckBytes<RkyvVal<'a>>,
        requires
            self.tx.wf(),
        ensures
            exists|
                found: Result<Option<&'env [u8]>, lmdb::Error>,
                verdict: Result<(), rkyv::rancor::BoxedError>,
            |
                get_done(self.tx, self.dbi, ne_bytes(index@), found) && r == #[trigger] settled(
                    found,
                    verdict,
                ),
    {
        let index_bytes = u64_to_ne_bytes(index.value());
        validated::<T>(lmdb::get(self.tx, self.dbi, index_bytes.as_slice()))
    }

    /// The greatest identifier in use, where the table has a row.
    fn last_numeric_index(&self) -> (r: Result<Option<u64>, Error>)
        requires
            self.tx.wf(),
            cursor_sound(self.tx),
            keys_are_u64(self.tx, self.dbi),
        ensures
            exists|rows: Result<Option<(&'env [u8], &'env [u8])>, lmdb::Error>| #[trigger]
                last_seen(self.tx, self.dbi, rows) && r == lifted(
                    match u64_rows(rows) {
                        Ok(row) => Ok(crate::index_table::key_of(row)),
                        Err(e) => Err(e),
                    },
                ),
    {
        match lmdb::last_u64_row(self.tx, self.dbi) {
            Ok(Some((key, _))) => Ok(Some(key)),
            Ok(None) => Ok(None),
            Err(e) => Err(Error::Lmdb(e)),
        }
    }
}

impl<'tx, 'env: 'tx, TX: Transaction<'env>> Table<'env, TX> for IndexPolyTable<'tx, TX> {
    open spec fn handle(&self) -> u32 {
        self.dbi
    }

    open spec fn through(&self) -> &TX {
        self.tx
    }

    open spec fn kind_flags() -> DbFlagSet {
        DbFlagSet::none().plus(DbFlags::IntegerKey)
    }

    fn dbi(&self) -> (r: u32) {
        self.dbi
    }

    fn txn(&self) -> (r: &TX) {
        self.tx
    }

    fn flags() -> (r: DbFlagSet) {
        DbFlagSet::empty().with(DbFlags::IntegerKey)
    }
}

} // verus!
