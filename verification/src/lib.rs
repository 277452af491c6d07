//! A typed access layer in front of an embedded, single-writer transactional
//! key-value engine.
//!
//! An [`Env`] is an open store with a fixed set of declared tables. A
//! transaction, read-only or read-write, is begun from it, and a table is a
//! view of one declared table through one transaction. Tables are keyed by
//! encoded values or by identifiers ([`Index`]); the operations that change a
//! table exist only on tables seen through a read-write transaction.
//!
//! Keys and values are stored as the bytes that the codec makes of them. What
//! a read hands out are the stored bytes themselves, checked as a value of
//! the type asked for and borrowed for no longer than the transaction is:
//! committing or aborting takes the transaction by value, so no such bytes
//! outlive it.
//!
//! The engine is reached through a function from requests to replies (see
//! [`lmdb`]). The contracts say which requests are made and what each result
//! is for every reply that may come back; [`contract`] adds what follows
//! where the engine keeps its word, and [`scheduler`] holds the decisions
//! that order concurrent write jobs.

use vstd::prelude::*;

pub mod assoc_poly_table;
pub mod assoc_table;
pub mod contract;
pub mod env;
pub mod error;
pub mod index;
pub mod index_poly_table;
pub mod index_table;
pub mod lmdb;
pub mod scheduler;
pub mod transaction;

pub use env::Env;
pub use error::Error;
pub use index::Index;
pub use lmdb::{CursorOpFlags, DbFlags};
pub use transaction::{RoTxn, RwTxn, Transaction};

verus! {

pub type RkyvSer<'a> = rkyv::api::high::HighSerializer<
    rkyv::util::AlignedVec,
    rkyv::ser::allocator::ArenaHandle<'a>,
    rkyv::rancor::BoxedError,
>;

pub type RkyvDe = rkyv::api::high::HighDeserializer<rkyv::rancor::BoxedError>;

pub type RkyvVal<'a> = rkyv::api::high::HighValidator<'a, rkyv::rancor::BoxedError>;

/// What every kind of table has: the engine's handle of the table, the
/// transaction through which it is seen, and the flags that tables of its
/// kind are declared with.
pub trait Table<'env, TX: Transaction<'env>> {
    /// The engine's handle of the table.
    spec fn handle(&self) -> u32;

    /// The transaction through which the table is seen.
    spec fn through(&self) -> &TX;

    /// The flags that every table of this kind is declared with.
    spec fn kind_flags() -> lmdb::DbFlagSet;

    /// The engine's handle of the table.
    fn dbi(&self) -> (r: u32)
        ensures
            r == self.handle(),
    ;

    /// The transaction through which the table is seen.
    fn txn(&self) -> (r: &TX)
        ensures
            r == self.through(),
    ;

    /// The flags that every table of this kind is declared with.
    fn flags() -> (r: lmdb::DbFlagSet)
        ensures
            r == Self::kind_flags(),
    ;

    /// The number of rows.
    fn entries(&self) -> (r: Result<usize, Error>)
        requires
            self.through().wf(),
        ensures
            exists|n: Result<usize, lmdb::Error>| #[trigger]
                lmdb::stat_done(self.through(), self.handle(), n) && r == error::lifted(n),
    {
        error::lift(lmdb::stat(self.txn(), self.dbi()))
    }
}

/// Calls `rkyv::to_bytes`. Nothing is claimed of the bytes.
#[verifier::external_body]
pub(crate) fn to_bytes<T>(t: &T) -> (r: Result<Vec<u8>, rkyv::rancor::BoxedError>)
    where T: for <'a> rkyv::Serialize<RkyvSer<'a>>,
{
    match rkyv::to_bytes::<rkyv::rancor::BoxedError>(t) {
        Ok(bytes) => Ok(bytes.into_vec()),
        Err(e) => Err(e),
    }
}

/// Calls `rkyv::access` and drops the view. Nothing is claimed of which bytes
/// pass.
#[verifier::external_body]
pub(crate) fn check<T>(bytes: &[u8]) -> (r: Result<(), rkyv::rancor::BoxedError>)
    where
        T: rkyv::Archive,
        rkyv::Archived<T>: for <'a> rkyv::bytecheck::CheckBytes<RkyvVal<'a>>,
{
    match rkyv::access::<rkyv::Archived<T>, rkyv::rancor::BoxedError>(bytes) {
        Ok(_) => Ok(()),
        Err(e) => Err(e),
    }
}

/// Calls `rkyv::from_bytes`: checks the bytes and builds the value they
/// stand for. Nothing is claimed of the value.
#[verifier::external_body]
pub fn unrkyv_from_bytes<T>(bytes: &[u8]) -> (r: Result<T, rkyv::rancor::BoxedError>)
    where
        T: rkyv::Archive,
        rkyv::Archived<T>: for <'a> rkyv::bytecheck::CheckBytes<RkyvVal<'a>> + rkyv::Deserialize<
            T,
            RkyvDe,
        >,
{
    rkyv::from_bytes::<T, rkyv::rancor::BoxedError>(bytes)
}

/// What a lookup gives once the bytes it found were judged: the engine's
/// error, no row, the row's bytes where they are a valid value, or the
/// codec's complaint.
pub open spec fn settled<'a>(
    found: Result<Option<&'a [u8]>, lmdb::Error>,
    verdict: Result<(), rkyv::rancor::BoxedError>,
) -> Result<Option<&'a [u8]>, Error> {
    match found {
        Err(e) => Err(Error::Lmdb(e)),
        Ok(None) => Ok(None),
        Ok(Some(v)) => match verdict {
            Ok(_) => Ok(Some(v)),
            Err(x) => Err(Error::Rkyv(x)),
        },
    }
}

/// Gives what a lookup comes to once the bytes it found were judged.
pub fn settle<'a>(
    found: Result<Option<&'a [u8]>, lmdb::Error>,
    verdict: Result<(), rkyv::rancor::BoxedError>,
) -> (r: Result<Option<&'a [u8]>, Error>)
    ensures
        r == settled(found, verdict),
{
    match found {
        Err(e) => Err(Error::Lmdb(e)),
        Ok(None) => Ok(None),
        Ok(Some(v)) => match verdict {
            Ok(_) => Ok(Some(v)),
            Err(x) => Err(Error::Rkyv(x)),
        },
    }
}

/// Judges the bytes that a lookup found as a value of type `T`.
pub fn validated<'a, T>(found: Result<Option<&'a [u8]>, lmdb::Error>) -> (r: Result<
    Option<&'a [u8]>,
    Error,
>)
    where
        T: rkyv::Archive,
        rkyv::Archived<T>: for <'b> rkyv::bytecheck::CheckBytes<RkyvVal<'b>>,
    ensures
        exists|verdict: Result<(), rkyv::rancor::BoxedError>| r == #[trigger] settled(found, verdict),
{
    match found {
        Ok(Some(v)) => {
            let verdict = check::<T>(v);
            settle(found, verdict)
        },
        _ => settle(found, Ok(())),
    }
}

/// A row once its key and its data were judged: the row where both are valid
/// values, nothing otherwise.
pub open spec fn row_if_valid<R>(row: Option<R>, key_ok: bool, data_ok: bool) -> Option<R> {
    if key_ok && data_ok {
        row
    } else {
        None
    }
}

/// Keeps a row whose key and data are both valid values.
pub fn keep_valid<R>(row: Option<R>, key_ok: bool, data_ok: bool) -> (r: Option<R>)
    ensures
        r == row_if_valid(row, key_ok, data_ok),
{
    if key_ok && data_ok {
        row
    } else {
        None
    }
}

/// Whether `bytes` are a valid value of type `T`.
pub fn is_valid<T>(bytes: &[u8]) -> (r: bool)
    where
        T: rkyv::Archive,
        rkyv::Archived<T>: for <'b> rkyv::bytecheck::CheckBytes<RkyvVal<'b>>,
{
    check::<T>(bytes).is_ok()
}

} // verus!
