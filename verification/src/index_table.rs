//! Tables keyed by identifiers, with values of one type.

use vstd::prelude::*;
use std::marker::PhantomData;
use crate::{RkyvSer, RkyvVal, to_bytes, validated, settled, is_valid, keep_valid};
use crate::error::{Error, lift, lifted};
use crate::index::Index;
use crate::lmdb;
use crate::lmdb::{
    Cursor, CursorOpFlags, DbFlagSet, DbFlags, put_done, del_done, drop_done, get_done, last_seen,
    u64_rows, u64_row, moved, ne_bytes, ne_value, cursor_sound, keys_are_u64, u64_keyed,
    u64_to_ne_bytes,
    lemma_ne_bytes_round_trip,
};
use crate::transaction::{Transaction, RwTxn};
use crate::Table;
use crate::lmdb::{Request, Reply};

verus! {

/// A table of `T` values keyed by `Index<T>`, seen through one transaction.
pub struct IndexTable<'tx, TX, T> {
    pub tx: &'tx TX,
    pub dbi: u32,
    pub _pd: PhantomData<T>,
}

/// The identifier that follows the greatest one in use: zero in an empty
/// table, the successor otherwise, and none once the greatest is the largest
/// number there is.
pub open spec fn next_id(last: Option<u64>) -> Option<u64> {
    match last {
        None => Some(0),
        Some(k) => if k < u64::MAX {
            Some((k + 1) as u64)
        } else {
            None
        },
    }
}

/// The key of a row, where there is one.
pub open spec fn key_of<V>(row: Option<(u64, V)>) -> Option<u64> {
    match row {
        Some((k, _)) => Some(k),
        None => None,
    }
}

/// Computes the identifier that follows the greatest one in use.
pub fn following(last: Option<u64>) -> (r: Option<u64>)
    ensures
        r == next_id(last),
{
    match last {
        None => Some(0),
        Some(k) => if k < u64::MAX {
            Some(k + 1)
        } else {
            None
        },
    }
}

/// `r` is what storing some encoded value under `key` came to: the engine's
/// answer to the put, or the codec's complaint.
pub open spec fn stored<'env, TX: Transaction<'env>>(
    tx: &TX,
    dbi: u32,
    key: Seq<u8>,
    r: Result<(), Error>,
) -> bool {
    r matches Err(Error::Rkyv(_)) || exists|v: Seq<u8>, p: Result<(), lmdb::Error>| #[trigger]
        put_done(tx, dbi, key, v, p) && r == lifted(p)
}

/// The identifier under which a value was stored, or why it was not.
pub open spec fn with_id(p: Result<(), Error>, id: u64) -> Result<u64, Error> {
    match p {
        Ok(_) => Ok(id),
        Err(e) => Err(e),
    }
}

/// `r` is what appending some encoded value came to. On success the new
/// identifier follows the key of the last row that the engine reported, and
/// the value was stored under it.
pub open spec fn appended<'env, TX: Transaction<'env>>(
    tx: &TX,
    dbi: u32,
    r: Result<u64, Error>,
) -> bool {
    exists|rows: Result<Option<(&'env [u8], &'env [u8])>, lmdb::Error>| #[trigger]
        last_seen(tx, dbi, rows) && (match u64_rows(rows) {
            Err(e) => r == Err::<u64, Error>(Error::Lmdb(e)),
            Ok(row) => r matches Err(Error::Rkyv(_)) || (match next_id(key_of(row)) {
                Some(id) => exists|p: Result<(), Error>| #[trigger]
                    stored(tx, dbi, ne_bytes(id), p) && r == with_id(p, id),
                None => r == Err::<u64, Error>(Error::Lmdb(lmdb::Error::MapFull)),
            }),
        })
}

/// The row of a typed table that a raw row with an integer key stands for.
pub open spec fn index_row<'a, T>(row: Option<(Index<T>, &'a [u8])>) -> Option<(u64, &'a [u8])> {
    match row {
        Some((id, v)) => Some((id@, v)),
        None => None,
    }
}

impl<'tx, 'b, 'env: 'tx, E, T> IndexTable<'tx, RwTxn<'b, E>, T>
    where
        E: for <'a> Fn(Request<'a>) -> Reply<'env>,
        T: rkyv::Archive + for <'a> rkyv::Serialize<RkyvSer<'a>>,
        rkyv::Archived<T>: for <'a> rkyv::bytecheck::CheckBytes<RkyvVal<'a>>,
{
    /// Stores the bytes `value` under `index`, replacing the row that was
    /// there.
    pub fn put_bytes(&self, index: Index<T>, value: &[u8]) -> (r: Result<(), lmdb::Error>)
        requires
            self.tx.wf(),
        ensures
            put_done(self.tx, self.dbi, ne_bytes(index@), value@, r),
    {
        let index_bytes = u64_to_ne_bytes(index.value());
        lmdb::put(self.tx, self.dbi, index_bytes.as_slice(), value)
    }

    /// Encodes `t` and stores it under `index`, replacing the row that was
    /// there.
    pub fn put(&self, index: Index<T>, t: &T) -> (r: Result<(), Error>)
        requires
            self.tx.wf(),
        ensures
            stored(self.tx, self.dbi, ne_bytes(index@), r),
    {
        match to_bytes(t) {
            Ok(value_bytes) => lift(self.put_bytes(index, value_bytes.as_slice())),
            Err(e) => Err(Error::Rkyv(e)),
        }
    }

    /// Encodes `t` and stores it under the identifier that follows the
    /// greatest one in use, which it returns. Once the greatest one in use is
    /// the largest number there is, the table counts as full.
    pub fn put_last(&self, t: &T) -> (r: Result<Index<T>, Error>)
        requires
            self.tx.wf(),
            cursor_sound(self.tx),
            keys_are_u64(self.tx, self.dbi),
        ensures
            appended(
                self.tx,
                self.dbi,
                match r {
                    Ok(id) => Ok(id@),
                    Err(e) => Err(e),
                },
            ),
    {
        let last = match self.last() {
            Ok(last) => last,
            Err(e) => {
                return Err(e);
            },
        };
        let last_key = match last {
            Some((id, _)) => Some(id.value()),
            None => None,
        };
        let index = match following(last_key) {
            Some(n) => Index::new(n),
            None => {
                return Err(Error::Lmdb(lmdb::Error::MapFull));
            },
        };
        match self.put(index, t) {
            Ok(_) => Ok(index),
            Err(e) => Err(e),
        }
    }

    /// Removes the row under `index` and says whether there was one.
    pub fn delete_index(&self, index: Index<T>) -> (r: Result<bool, Error>)
        requires
            self.tx.wf(),
        ensures
            exists|d: Result<bool, lmdb::Error>| #[trigger]
                del_done(self.tx, self.dbi, ne_bytes(index@), d) && r == lifted(d),
    {
        let index_bytes = u64_to_ne_bytes(index.value());
        lift(lmdb::del(self.tx, self.dbi, index_bytes.as_slice()))
    }

    /// Removes all rows.
    pub fn clear(&self) -> (r: Result<(), Error>)
        requires
            self.tx.wf(),
        ensures
            exists|d: Result<(), lmdb::Error>| #[trigger] drop_done(self.tx, self.dbi, d) && r
                == lifted(d),
    {
        lift(lmdb::drop(self.tx, self.dbi))
    }
}

impl<'tx, 'env: 'tx, TX, T> IndexTable<'tx, TX, T>
    where
        TX: Transaction<'env>,
        T: rkyv::Archive,
        rkyv::Archived<T>: for <'a> rkyv::bytecheck::CheckBytes<RkyvVal<'a>>,
{
    /// The table `dbi` as seen through `tx`.
    pub fn build(tx: &'tx TX, dbi: u32) -> (r: Self)
        ensures
            r.tx == tx,
            r.dbi == dbi,
    {
        IndexTable { tx, dbi, _pd: PhantomData }
    }

    /// The bytes stored under `index`, where there is a row and its bytes are
    /// a valid value.
    pub fn get(&self, index: Index<T>) -> (r: Result<Option<&'tx [u8]>, Error>)
        requires
            self.tx.wf(),
        ensures
            exists|
                found: Result<Option<&'env [u8]>, lmdb::Error>,
                verdict: Result<(), rkyv::rancor::BoxedError>,
            |
                get_done(self.tx, self.dbi, ne_bytes(index@), found) && r == #[trigger] settled(
                    found,
                    verdict,
                ),
    {
        let index_bytes = u64_to_ne_bytes(index.value());
        validated::<T>(lmdb::get(self.tx, self.dbi, index_bytes.as_slice()))
    }

    /// The row with the greatest identifier, where the table has a row and
    /// its bytes are a valid value.
    pub fn last(&self) -> (r: Result<Option<(Index<T>, &'tx [u8])>, Error>)
        requires
            self.tx.wf(),
            cursor_sound(self.tx),
            keys_are_u64(self.tx, self.dbi),
        ensures
            exists|rows: Result<Option<(&'env [u8], &'env [u8])>, lmdb::Error>| #[trigger]
                last_seen(self.tx, self.dbi, rows) && (match u64_rows(rows) {
                    Err(e) => r == Err::<Option<(Index<T>, &'tx [u8])>, Error>(Error::Lmdb(e)),
                    Ok(None) => r == Ok::<Option<(Index<T>, &'tx [u8])>, Error>(None),
                    Ok(Some(row)) => match r {
                        Ok(found) => index_row(found) == Some(row),
                        Err(e) => e is Rkyv,
                    },
                }),
    {
        match lmdb::last_u64_row(self.tx, self.dbi) {
            Err(e) => Err(Error::Lmdb(e)),
            Ok(None) => Ok(None),
            Ok(Some((key, value_bytes))) => match crate::check::<T>(value_bytes) {
                Ok(_) => Ok(Some((Index::new(key), value_bytes))),
                Err(e) => Err(Error::Rkyv(e)),
            },
        }
    }

    /// A cursor that walks the table in ascending order of its identifiers.
    pub fn iter(&self) -> (r: Result<IndexCursor<'tx, TX, T>, Error>)
        requires
            self.tx.wf(),
        ensures
            exists|c: Result<Cursor<'tx, TX>, lmdb::Error>| #[trigger]
                lmdb::opened(self.tx, self.dbi, c) && (match c {
                    Ok(cursor) => r is Ok && r->Ok_0.cursor == cursor,
                    Err(e) => r matches Err(Error::Lmdb(x)) && x == e,
                }),
    {
        match Cursor::open(self.tx, self.dbi) {
            Ok(cursor) => Ok(IndexCursor { cursor, _pd: PhantomData }),
            Err(e) => Err(Error::Lmdb(e)),
        }
    }
}

/// A walk through a table keyed by identifiers.
pub struct IndexCursor<'tx, TX, T> {
    pub cursor: Cursor<'tx, TX>,
    pub _pd: PhantomData<T>,
}

impl<'tx, 'env: 'tx, TX, T> IndexCursor<'tx, TX, T>
    where
        TX: Transaction<'env>,
        T: rkyv::Archive,
        rkyv::Archived<T>: for <'a> rkyv::bytecheck::CheckBytes<RkyvVal<'a>>,
{
    /// Steps to the next row and gives it. The walk ends at the end of the
    /// table, and also at a row whose bytes are not a valid value.
    pub fn next(&mut self) -> (r: Option<(Index<T>, &'tx [u8])>)
        requires
            old(self).cursor.tx.wf(),
            cursor_sound(old(self).cursor.tx),
            u64_keyed(old(self).cursor.tx, old(self).cursor.raw),
        ensures
            final(self).cursor == old(self).cursor,
            exists|row: Option<(&'env [u8], &'env [u8])>| #[trigger]
                moved(
                    old(self).cursor.tx,
                    old(self).cursor.raw,
                    CursorOpFlags::Next,
                    Seq::empty(),
                    row,
                ) && (r is None || index_row(r) == u64_row(row)),
    {
        let got = self.cursor.get_with_u64_key(CursorOpFlags::Next);
        match got {
            Some((key, value_bytes)) => {
                let data_ok = is_valid::<T>(value_bytes);
                keep_valid(Some((Index::new(key), value_bytes)), true, data_ok)
            },
            None => None,
        }
    }

    /// Ends the walk.
    pub fn close(self)
        requires
            self.cursor.tx.wf(),
        ensures
            lmdb::closed(self.cursor),
    {
        self.cursor.close()
    }
}

/// From an empty table, `n` appends give the identifiers `0` to `n - 1` in
/// turn: each is the successor of the one before, which is then the greatest
/// in use.
pub open spec fn appended_ids(n: nat) -> Seq<u64>
    decreases n,
{
    if n == 0 {
        Seq::empty()
    } else {
        let before = appended_ids((n - 1) as nat);
        let last = if before.len() == 0 {
            None
        } else {
            Some(before.last())
        };
        match next_id(last) {
            Some(id) => before.push(id),
            None => before,
        }
    }
}

/// In one write transaction, `n` appends to an empty table yield the
/// identifiers `0, 1, .., n - 1`: strictly increasing and without gaps.
pub proof fn lemma_appended_ids_count_up(n: nat)
    requires
        n <= u64::MAX,
    ensures
        appended_ids(n).len() == n,
        forall|i: int| 0 <= i < n ==> appended_ids(n)[i] == i,
    decreases n,
{
    if n > 0 {
        lemma_appended_ids_count_up((n - 1) as nat);
    }
}

/// Different identifiers are stored under different keys, and the key of an
/// identifier reads back as that identifier: a lookup reaches the row that a
/// put under the same identifier wrote, and no other.
pub proof fn lemma_keys_tell_identifiers_apart(a: u64, b: u64)
    ensures
        ne_bytes(a).len() == 8,
        ne_value(ne_bytes(a)) == a,
        ne_bytes(a) == ne_bytes(b) <==> a == b,
{
    lemma_ne_bytes_round_trip(a);
    lemma_ne_bytes_round_trip(b);
}

impl<'tx, 'env: 'tx, TX: Transaction<'env>, T> Table<'env, TX> for IndexTable<'tx, TX, T> {
    open spec fn handle(&self) -> u32 {
        self.dbi
    }

    open spec fn through(&self) -> &TX {
        self.tx
    }

    open spec fn kind_flags() -> DbFlagSet {
        DbFlagSet::none().plus(DbFlags::IntegerKey)
    }

    fn dbi(&self) -> (r: u32) {
        self.dbi
    }

    fn txn(&self) -> (r: &TX) {
        self.tx
    }

    fn flags() -> (r: DbFlagSet) {
        DbFlagSet::empty().with(DbFlags::IntegerKey)
    }
}

} // verus!
