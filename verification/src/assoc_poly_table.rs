//! Tables keyed by encoded values of one type whose values may be of any
//! type, named anew at each call.

use vstd::prelude::*;
use std::marker::PhantomData;
use crate::{RkyvSer, RkyvVal, RkyvDe, to_bytes, validated, unrkyv_from_bytes};
use crate::assoc_table::{stored_any, deleted_any, fetched_any};
use crate::error::{Error, lift, lifted};
use crate::lmdb;
use crate::lmdb::{DbFlagSet, Request, Reply, drop_done};
use crate::transaction::{Transaction, RwTxn};
use crate::Table;

verus! {

/// A table of values of any type keyed by `K` values, seen through one
/// transaction.
pub struct AssocPolyTable<'tx, TX, K> {
    pub tx: &'tx TX,
    pub dbi: u32,
    pub _pd: PhantomData<K>,
}

// Through a read-write transaction only: everything here changes the table.
impl<'tx, 'b, 'env: 'tx, E, K> AssocPolyTable<'tx, RwTxn<'b, E>, K>
    where
        E: for <'a> Fn(Request<'a>) -> Reply<'env>,
        K: rkyv::Archive + for <'a> rkyv::Serialize<RkyvSer<'a>>,
{
    /// Encodes `key` and `value` and stores the one under the other,
    /// replacing the row that was there.
    pub fn put<V>(&self, key: &K, value: &V) -> (r: Result<(), Error>)
        where V: rkyv::Archive + for <'a> rkyv::Serialize<RkyvSer<'a>>,
        requires
            self.tx.wf(),
        ensures
            stored_any(self.tx, self.dbi, r),
    {
        let key_bytes = match to_bytes(key) {
            Ok(b) => b,
            Err(e) => {
                return Err(Error::Rkyv(e));
            },
        };
        let value_bytes = match to_bytes(value) {
            Ok(b) => b,
            Err(e) => {
                return Err(Error::Rkyv(e));
            },
        };
        lift(lmdb::put(self.tx, self.dbi, key_bytes.as_slice(), value_bytes.as_slice()))
    }

    /// Encodes `key`, removes the row under it and says whether there was
    /// one.
    pub fn delete(&self, key: &K) -> (r: Result<bool, Error>)
        requires
            self.tx.wf(),
        ensures
            deleted_any(self.tx, self.dbi, r),
    {
        match to_bytes(key) {
            Ok(key_bytes) => lift(lmdb::del(self.tx, self.dbi, key_bytes.as_slice())),
            Err(e) => Err(Error::Rkyv(e)),
        }
    }

    /// Removes all rows.
    pub fn clear(&self) -> (r: Result<(), Error>)
        requires
            self.tx.wf(),
        ensures
            exists|d: Result<(), lmdb::Error>| #[trigger] drop_done(self.tx, self.dbi, d) && r
                == lifted(d),
    {
        lift(lmdb::drop(self.tx, self.dbi))
    }
}

// Through either kind of transaction: everything here only reads.
impl<'tx, 'env: 'tx, TX, K> AssocPolyTable<'tx, TX, K>
    where
        TX: Transaction<'env>,
        K: rkyv::Archive + for <'a> rkyv::Serialize<RkyvSer<'a>>,
        rkyv::Archived<K>: for <'a> rkyv::bytecheck::CheckBytes<RkyvVal<'a>>,
{
    /// The table `dbi` as seen through `tx`.
    pub fn build(tx: &'tx TX, dbi: u32) -> (r: Self)
        ensures
            r.tx == tx,
            r.dbi == dbi,
    {
        AssocPolyTable { tx, dbi, _pd: PhantomData }
    }

    /// Encodes `key` and gives the bytes stored under it, where there is a
    /// row and its bytes are a valid value of type `V`.
    pub fn get<V>(&self, key: &K) -> (r: Result<Option<&'tx [u8]>, Error>)
        where
            V: rkyv::Archive,
            rkyv::Archived<V>: for <'a> rkyv::bytecheck::CheckBytes<RkyvVal<'a>> + rkyv::Deserialize<
                V,
                RkyvDe,
            >,
        requires
            self.tx.wf(),
        ensures
            fetched_any(self.tx, self.dbi, r),
    {
        match to_bytes(key) {
            Ok(key_bytes) => validated::<V>(lmdb::get(self.tx, self.dbi, key_bytes.as_slice())),
            Err(e) => Err(Error::Rkyv(e)),
        }
    }

    /// Encodes `key` and gives the value of type `V` stored under it,
    /// decoded.
    pub fn get_unrkyv<V>(&self, key: &K) -> (r: Result<Option<V>, Error>)
        where
            V: rkyv::Archive,
            rkyv::Archived<V>: for <'a> rkyv::bytecheck::CheckBytes<RkyvVal<'a>> + rkyv::Deserialize<
                V,
                RkyvDe,
            >,
        requires
            self.tx.wf(),
        ensures
            r is Err || exists|found: Result<Option<&'env [u8]>, Error>| #[trigger]
                fetched_any(self.tx, self.dbi, found) && found is Ok && (found->Ok_0 is Some
                    <==> r->Ok_0 is Some),
            r matches Err(Error::Lmdb(e)) ==> fetched_any(
                self.tx,
                self.dbi,
                Err(Error::Lmdb(e)),
            ),
    {
        match self.get::<V>(key) {
            Ok(Some(bytes)) => match unrkyv_from_bytes::<V>(bytes) {
                Ok(v) => Ok(Some(v)),
                Err(e) => Err(Error::Rkyv(e)),
            },
            Ok(None) => Ok(None),
            Err(e) => Err(e),
        }
    }
}

impl<'tx, 'env: 'tx, TX: Transaction<'env>, K> Table<'env, TX> for AssocPolyTable<'tx, TX, K> {
    open spec fn handle(&self) -> u32 {
        self.dbi
    }

    open spec fn through(&self) -> &TX {
        self.tx
    }

    open spec fn kind_flags() -> DbFlagSet {
        DbFlagSet::none()
    }

    fn dbi(&self) -> (r: u32) {
        self.dbi
    }

    fn txn(&self) -> (r: &TX) {
        self.tx
    }

    fn flags() -> (r: DbFlagSet) {
        DbFlagSet::empty()
    }
}

} // verus!
