//! Tables keyed by encoded values of one type, with values of another.

use vstd::prelude::*;
use std::marker::PhantomData;
use crate::{
    RkyvSer, RkyvVal, RkyvDe, to_bytes, validated, settled, is_valid, keep_valid, row_if_valid,
    unrkyv_from_bytes,
};
use crate::error::{Error, lift, lifted};
use crate::lmdb;
use crate::lmdb::{
    Cursor, CursorOpFlags, DbFlagSet, Request, Reply, put_done, del_done, drop_done,
    get_done, last_seen, moved, opened, cursor_sound,
};
use crate::transaction::{Transaction, RwTxn};
use crate::Table;

verus! {

/// A table of `V` values keyed by `K` values, seen through one transaction.
pub struct AssocTable<'tx, TX, K, V> {
    pub tx: &'tx TX,
    pub dbi: u32,
    pub _pd: PhantomData<(K, V)>,
}

/// `r` is what storing an encoded value under an encoded key came to: the
/// engine's answer to the put, or the codec's complaint.
pub open spec fn stored_any<'env, TX: Transaction<'env>>(
    tx: &TX,
    dbi: u32,
    r: Result<(), Error>,
) -> bool {
    r matches Err(Error::Rkyv(_)) || exists|k: Seq<u8>, v: Seq<u8>, p: Result<(), lmdb::Error>| #[trigger]
        put_done(tx, dbi, k, v, p) && r == lifted(p)
}

/// `r` is what removing the row under an encoded key came to.
pub open spec fn deleted_any<'env, TX: Transaction<'env>>(
    tx: &TX,
    dbi: u32,
    r: Result<bool, Error>,
) -> bool {
    r matches Err(Error::Rkyv(_)) || exists|k: Seq<u8>, d: Result<bool, lmdb::Error>| #[trigger]
        del_done(tx, dbi, k, d) && r == lifted(d)
}

/// `r` is what looking up an encoded key and judging the bytes found came to.
pub open spec fn fetched_any<'env, TX: Transaction<'env>>(
    tx: &TX,
    dbi: u32,
    r: Result<Option<&'env [u8]>, Error>,
) -> bool {
    r matches Err(Error::Rkyv(_)) || exists|
        k: Seq<u8>,
        found: Result<Option<&'env [u8]>, lmdb::Error>,
        verdict: Result<(), rkyv::rancor::BoxedError>,
    |
        #![trigger get_done(tx, dbi, k, found), settled(found, verdict)]
        get_done(tx, dbi, k, found) && r == settled(found, verdict)
}

/// Judges the key and the data of a row that a cursor reported, and keeps the
/// row where both are valid values. A row that is not ends the walk, as the
/// end of the table does.
pub fn archived_from_cursor_get<'tx, K, V>(get: Option<(&'tx [u8], &'tx [u8])>) -> (r: Option<
    (&'tx [u8], &'tx [u8]),
>)
    where
        K: rkyv::Archive,
        V: rkyv::Archive,
        rkyv::Archived<K>: for <'a> rkyv::bytecheck::CheckBytes<RkyvVal<'a>>,
        rkyv::Archived<V>: for <'a> rkyv::bytecheck::CheckBytes<RkyvVal<'a>>,
    ensures
        exists|key_ok: bool, data_ok: bool| r == #[trigger] row_if_valid(get, key_ok, data_ok),
{
    match get {
        Some((key_bytes, value_bytes)) => {
            let key_ok = is_valid::<K>(key_bytes);
            let data_ok = is_valid::<V>(value_bytes);
            keep_valid(get, key_ok, data_ok)
        },
        None => keep_valid(get, true, true),
    }
}

/// A walk through a table in one direction, after an optional first row.
pub struct AssocCursor<'tx, TX, K, V> {
    pub cursor: Cursor<'tx, TX>,
    pub op: CursorOpFlags,
    pub first: Option<(&'tx [u8], &'tx [u8])>,
    pub _pd: PhantomData<(K, V)>,
}

impl<'tx, 'env: 'tx, TX, K, V> AssocCursor<'tx, TX, K, V>
    where
        TX: Transaction<'env>,
        K: rkyv::Archive,
        V: rkyv::Archive,
        rkyv::Archived<K>: for <'a> rkyv::bytecheck::CheckBytes<RkyvVal<'a>>,
        rkyv::Archived<V>: for <'a> rkyv::bytecheck::CheckBytes<RkyvVal<'a>>,
{
    /// Gives the first row where one is still waiting; otherwise steps in the
    /// walk's direction and gives the row reached. The walk ends at the end
    /// of the table, and also at a row that is not a pair of valid values.
    pub fn next(&mut self) -> (r: Option<(&'tx [u8], &'tx [u8])>)
        requires
            old(self).cursor.tx.wf(),
            cursor_sound(old(self).cursor.tx),
        ensures
            final(self).cursor == old(self).cursor,
            final(self).op == old(self).op,
            final(self).first is None,
            match old(self).first {
                Some(row) => r == Some(row),
                None => exists|row: Option<(&'env [u8], &'env [u8])>, key_ok: bool, data_ok: bool|
                    moved(
                        old(self).cursor.tx,
                        old(self).cursor.raw,
                        old(self).op,
                        Seq::empty(),
                        row,
                    ) && r == #[trigger] row_if_valid(row, key_ok, data_ok),
            },
    {
        match self.first {
            Some(row) => {
                self.first = None;
                Some(row)
            },
            None => {
                let got = self.cursor.get(self.op);
                archived_from_cursor_get::<K, V>(got)
            },
        }
    }

    /// Ends the walk.
    pub fn close(self)
        requires
            self.cursor.tx.wf(),
        ensures
            lmdb::closed(self.cursor),
    {
        self.cursor.close()
    }
}

/// `c` is a walk in the direction `op` that an attempt to open a cursor on
/// the table came to, with nothing waiting as its first row.
pub open spec fn walk_opened<'tx, 'env, TX: Transaction<'env>, K, V>(
    tx: &'tx TX,
    dbi: u32,
    op: CursorOpFlags,
    c: Result<AssocCursor<'tx, TX, K, V>, Error>,
) -> bool {
    exists|o: Result<Cursor<'tx, TX>, lmdb::Error>| #[trigger]
        opened(tx, dbi, o) && (match o {
            Ok(cursor) => c is Ok && c->Ok_0.cursor == cursor && c->Ok_0.op == op
                && c->Ok_0.first is None,
            Err(e) => c matches Err(Error::Lmdb(x)) && x == e,
        })
}

/// `c` is a walk in the direction `op` that an attempt to open a cursor on
/// the table and to place it at the first key not below `key` came to; the
/// row found there waits as the walk's first row where `keep` says so and it
/// is a pair of valid values.
pub open spec fn walk_placed<'tx, 'env, TX: Transaction<'env>, K, V>(
    tx: &'tx TX,
    dbi: u32,
    key: Seq<u8>,
    op: CursorOpFlags,
    keep: bool,
    c: Result<AssocCursor<'tx, TX, K, V>, lmdb::Error>,
) -> bool {
    exists|o: Result<Cursor<'tx, TX>, lmdb::Error>| #[trigger]
        opened(tx, dbi, o) && (match o {
            Ok(cursor) => c is Ok && c->Ok_0.cursor == cursor && c->Ok_0.op == op && exists|
                row: Option<(&'env [u8], &'env [u8])>,
                key_ok: bool,
                data_ok: bool,
            |
                moved(tx, cursor.raw, CursorOpFlags::SetRange, key, row) && c->Ok_0.first == (
                if keep {
                    #[trigger] row_if_valid(row, key_ok, data_ok)
                } else {
                    None
                }),
            Err(e) => c == Err::<AssocCursor<'tx, TX, K, V>, lmdb::Error>(e),
        })
}

// Through a read-write transaction only: everything here changes the table.
impl<'tx, 'b, 'env: 'tx, E, K, V> AssocTable<'tx, RwTxn<'b, E>, K, V>
    where
        E: for <'a> Fn(Request<'a>) -> Reply<'env>,
        K: rkyv::Archive + for <'a> rkyv::Serialize<RkyvSer<'a>>,
        V: rkyv::Archive + for <'a> rkyv::Serialize<RkyvSer<'a>>,
{
    /// Encodes `key` and `value` and stores the one under the other,
    /// replacing the row that was there.
    pub fn put(&self, key: &K, value: &V) -> (r: Result<(), Error>)
        requires
            self.tx.wf(),
        ensures
            stored_any(self.tx, self.dbi, r),
    {
        let key_bytes = match to_bytes(key) {
            Ok(b) => b,
            Err(e) => {
                return Err(Error::Rkyv(e));
            },
        };
        let value_bytes = match to_bytes(value) {
            Ok(b) => b,
            Err(e) => {
                return Err(Error::Rkyv(e));
            },
        };
        lift(lmdb::put(self.tx, self.dbi, key_bytes.as_slice(), value_bytes.as_slice()))
    }

    /// Encodes `key`, removes the row under it and says whether there was
    /// one.
    pub fn delete(&self, key: &K) -> (r: Result<bool, Error>)
        requires
            self.tx.wf(),
        ensures
            deleted_any(self.tx, self.dbi, r),
    {
        match to_bytes(key) {
            Ok(key_bytes) => lift(lmdb::del(self.tx, self.dbi, key_bytes.as_slice())),
            Err(e) => Err(Error::Rkyv(e)),
        }
    }

    /// Removes all rows.
    pub fn clear(&self) -> (r: Result<(), Error>)
        requires
            self.tx.wf(),
        ensures
            exists|d: Result<(), lmdb::Error>| #[trigger] drop_done(self.tx, self.dbi, d) && r
                == lifted(d),
    {
        lift(lmdb::drop(self.tx, self.dbi))
    }
}

// Through either kind of transaction: everything here only reads.
impl<'tx, 'env: 'tx, TX, K, V> AssocTable<'tx, TX, K, V>
    where
        TX: Transaction<'env>,
        K: rkyv::Archive + for <'a> rkyv::Serialize<RkyvSer<'a>>,
        V: rkyv::Archive,
        rkyv::Archived<K>: for <'a> rkyv::bytecheck::CheckBytes<RkyvVal<'a>>,
        rkyv::Archived<V>: for <'a> rkyv::bytecheck::CheckBytes<RkyvVal<'a>> + rkyv::Deserialize<
            V,
            RkyvDe,
        >,
{
    /// The table `dbi` as seen through `tx`.
    pub fn build(tx: &'tx TX, dbi: u32) -> (r: Self)
        ensures
            r.tx == tx,
            r.dbi == dbi,
    {
        AssocTable { tx, dbi, _pd: PhantomData }
    }

    /// Encodes `key` and gives the bytes stored under it, where there is a
    /// row and its bytes are a valid value.
    pub fn get(&self, key: &K) -> (r: Result<Option<&'tx [u8]>, Error>)
        requires
            self.tx.wf(),
        ensures
            fetched_any(self.tx, self.dbi, r),
    {
        match to_bytes(key) {
            Ok(key_bytes) => validated::<V>(lmdb::get(self.tx, self.dbi, key_bytes.as_slice())),
            Err(e) => Err(Error::Rkyv(e)),
        }
    }

    /// Encodes `key` and gives the value stored under it, decoded.
    pub fn get_unrkyv(&self, key: &K) -> (r: Result<Option<V>, Error>)
        requires
            self.tx.wf(),
        ensures
            r is Err || exists|found: Result<Option<&'env [u8]>, Error>| #[trigger]
                fetched_any(self.tx, self.dbi, found) && found is Ok && (found->Ok_0 is Some
                    <==> r->Ok_0 is Some),
            r matches Err(Error::Lmdb(e)) ==> fetched_any(
                self.tx,
                self.dbi,
                Err(Error::Lmdb(e)),
            ),
    {
        match self.get(key) {
            Ok(Some(bytes)) => match unrkyv_from_bytes::<V>(bytes) {
                Ok(v) => Ok(Some(v)),
                Err(e) => Err(Error::Rkyv(e)),
            },
            Ok(None) => Ok(None),
            Err(e) => Err(e),
        }
    }

    /// The row with the greatest key, where the table has a row and it is a
    /// pair of valid values.
    pub fn last(&self) -> (r: Result<Option<(&'tx [u8], &'tx [u8])>, Error>)
        requires
            self.tx.wf(),
            cursor_sound(self.tx),
        ensures
            exists|rows: Result<Option<(&'env [u8], &'env [u8])>, lmdb::Error>| #[trigger]
                last_seen(self.tx, self.dbi, rows) && (match rows {
                    Err(e) => r == Err::<Option<(&'tx [u8], &'tx [u8])>, Error>(Error::Lmdb(e)),
                    Ok(None) => r == Ok::<Option<(&'tx [u8], &'tx [u8])>, Error>(None),
                    Ok(Some(row)) => match r {
                        Ok(found) => found == Some(row),
                        Err(e) => e is Rkyv,
                    },
                }),
    {
        match lmdb::last_row(self.tx, self.dbi) {
            Err(e) => Err(Error::Lmdb(e)),
            Ok(None) => Ok(None),
            Ok(Some((key_bytes, value_bytes))) => {
                match crate::check::<K>(key_bytes) {
                    Ok(_) => match crate::check::<V>(value_bytes) {
                        Ok(_) => Ok(Some((key_bytes, value_bytes))),
                        Err(e) => Err(Error::Rkyv(e)),
                    },
                    Err(e) => Err(Error::Rkyv(e)),
                }
            },
        }
    }

    /// A walk through the table in ascending order of the encoded keys.
    pub fn iter(&self) -> (r: Result<AssocCursor<'tx, TX, K, V>, Error>)
        requires
            self.tx.wf(),
        ensures
            walk_opened(self.tx, self.dbi, CursorOpFlags::Next, r),
    {
        match Cursor::open(self.tx, self.dbi) {
            Ok(cursor) => Ok(
                AssocCursor { cursor, op: CursorOpFlags::Next, first: None, _pd: PhantomData },
            ),
            Err(e) => Err(Error::Lmdb(e)),
        }
    }

    /// A walk through the table in descending order of the encoded keys.
    pub fn iter_rev(&self) -> (r: Result<AssocCursor<'tx, TX, K, V>, Error>)
        requires
            self.tx.wf(),
        ensures
            walk_opened(self.tx, self.dbi, CursorOpFlags::Prev, r),
    {
        match Cursor::open(self.tx, self.dbi) {
            Ok(cursor) => Ok(
                AssocCursor { cursor, op: CursorOpFlags::Prev, first: None, _pd: PhantomData },
            ),
            Err(e) => Err(Error::Lmdb(e)),
        }
    }

    /// An ascending walk that starts at the first row whose key is not below
    /// the encoded key `key`.
    pub fn iter_from_bytes(&self, key: &[u8]) -> (r: Result<
        AssocCursor<'tx, TX, K, V>,
        lmdb::Error,
    >)
        requires
            self.tx.wf(),
            cursor_sound(self.tx),
        ensures
            walk_placed(self.tx, self.dbi, key@, CursorOpFlags::Next, true, r),
    {
        match Cursor::open(self.tx, self.dbi) {
            Ok(mut cursor) => {
                let got = cursor.get_with_key(key, CursorOpFlags::SetRange);
                let first = archived_from_cursor_get::<K, V>(got);
                Ok(AssocCursor { cursor, op: CursorOpFlags::Next, first, _pd: PhantomData })
            },
            Err(e) => Err(e),
        }
    }

    /// A descending walk that starts below the first row whose key is not
    /// below the encoded key `key`.
    pub fn iter_rev_from_bytes(&self, key: &[u8]) -> (r: Result<
        AssocCursor<'tx, TX, K, V>,
        lmdb::Error,
    >)
        requires
            self.tx.wf(),
            cursor_sound(self.tx),
        ensures
            walk_placed(self.tx, self.dbi, key@, CursorOpFlags::Prev, false, r),
    {
        match Cursor::open(self.tx, self.dbi) {
            Ok(mut cursor) => {
                let got = cursor.get_with_key(key, CursorOpFlags::SetRange);
                proof {
                    assert(got == row_if_valid(got, true, true));
                }
                Ok(AssocCursor { cursor, op: CursorOpFlags::Prev, first: None, _pd: PhantomData })
            },
            Err(e) => Err(e),
        }
    }

    /// Encodes `key` and starts an ascending walk at the first row whose key
    /// is not below it.
    pub fn iter_from(&self, key: &K) -> (r: Result<AssocCursor<'tx, TX, K, V>, Error>)
        requires
            self.tx.wf(),
            cursor_sound(self.tx),
        ensures
            r matches Err(Error::Rkyv(_)) || exists|
                k: Seq<u8>,
                c: Result<AssocCursor<'tx, TX, K, V>, lmdb::Error>,
            | #[trigger]
                walk_placed(self.tx, self.dbi, k, CursorOpFlags::Next, true, c) && r == lifted(c),
    {
        match to_bytes(key) {
            Ok(key_bytes) => lift(self.iter_from_bytes(key_bytes.as_slice())),
            Err(e) => Err(Error::Rkyv(e)),
        }
    }

    /// Encodes `key` and starts a descending walk below the first row whose
    /// key is not below it.
    pub fn iter_rev_from(&self, key: &K) -> (r: Result<AssocCursor<'tx, TX, K, V>, Error>)
        requires
            self.tx.wf(),
            cursor_sound(self.tx),
        ensures
            r matches Err(Error::Rkyv(_)) || exists|
                k: Seq<u8>,
                c: Result<AssocCursor<'tx, TX, K, V>, lmdb::Error>,
            | #[trigger]
                walk_placed(self.tx, self.dbi, k, CursorOpFlags::Prev, false, c) && r == lifted(c),
    {
        match to_bytes(key) {
            Ok(key_bytes) => lift(self.iter_rev_from_bytes(key_bytes.as_slice())),
            Err(e) => Err(Error::Rkyv(e)),
        }
    }
}

impl<'tx, 'env: 'tx, TX: Transaction<'env>, K, V> Table<'env, TX> for AssocTable<'tx, TX, K, V> {
    open spec fn handle(&self) -> u32 {
        self.dbi
    }

    open spec fn through(&self) -> &TX {
        self.tx
    }

    open spec fn kind_flags() -> DbFlagSet {
        DbFlagSet::none()
    }

    fn dbi(&self) -> (r: u32) {
        self.dbi
    }

    fn txn(&self) -> (r: &TX) {
        self.tx
    }

    fn flags() -> (r: DbFlagSet) {
        DbFlagSet::empty()
    }
}

} // verus!
