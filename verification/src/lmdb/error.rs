//! Status codes of the storage engine and the closed set of errors they map to.
//!
//! Every engine call ends in a status code. Each kind of call has its own
//! mapping from codes to [`Error`], given here as a spec function and computed
//! by the function of the same call.

use vstd::prelude::*;

verus! {

/// What can go wrong inside the storage engine.
#[derive(Debug, Clone, Copy, PartialEq, Eq, Structural)]
pub enum Error {
    /// The engine library's version differs from the one that created the store.
    VersionMismatch,
    /// The store's file headers are corrupted.
    Corrupted,
    /// The directory given as the store's path does not exist.
    DirDoesntExist,
    /// No permission to access the store's files.
    NoAccess,
    /// The store is locked by another process.
    EnvLocked,
    /// The engine could not create an environment handle.
    CreateError(i32),
    /// An invalid parameter was given.
    InvalidParameter,
    /// A fatal error occurred earlier; the environment must be shut down.
    Panic,
    /// Another process grew the store beyond this environment's map size.
    MapResized,
    /// The reader lock table is full.
    ReadersFull,
    /// No more disk space.
    NoDiskSpace,
    /// The store is full.
    MapFull,
    /// The transaction has too many dirty pages.
    TxnFull,
    /// A write was attempted through a read-only transaction.
    TxnPerm,
    /// A low-level I/O error occurred while writing.
    Io,
    /// Out of memory.
    Oom,
    /// The key already exists and overwriting was not asked for.
    KeyExists,
    /// Unsupported size of a key, a table name or a value.
    BadValSize,
    /// Any other status code.
    Misc(i32),
}

/// The engine's own status codes.
pub struct StatusCodes {
    pub success: i32,
    pub key_exist: i32,
    pub not_found: i32,
    pub panic: i32,
    pub version_mismatch: i32,
    pub invalid: i32,
    pub map_full: i32,
    pub dbs_full: i32,
    pub readers_full: i32,
    pub txn_full: i32,
    pub map_resized: i32,
    pub bad_val_size: i32,
}

/// The operating system's error numbers that the engine hands through, as
/// the target numbers them.
#[derive(Debug, Clone, Copy, PartialEq, Eq, Structural)]
pub struct ErrnoCodes {
    pub no_entry: i32,
    pub no_process: i32,
    pub io: i32,
    pub again: i32,
    pub no_memory: i32,
    pub access: i32,
    pub invalid: i32,
    pub no_space: i32,
}

pub const SUCCESS: i32 = 0;
pub const KEY_EXIST: i32 = -30799;
pub const NOT_FOUND: i32 = -30798;
pub const PANIC: i32 = -30795;
pub const VERSION_MISMATCH: i32 = -30794;
pub const INVALID: i32 = -30793;
pub const MAP_FULL: i32 = -30792;
pub const DBS_FULL: i32 = -30791;
pub const READERS_FULL: i32 = -30790;
pub const TXN_FULL: i32 = -30788;
pub const MAP_RESIZED: i32 = -30785;
pub const BAD_VAL_SIZE: i32 = -30781;

/// Reads the status constants of `lmdb_sys` (`MDB_SUCCESS`, `MDB_KEYEXIST`,
/// `MDB_NOTFOUND`, `MDB_PANIC`, `MDB_VERSION_MISMATCH`, `MDB_INVALID`,
/// `MDB_MAP_FULL`, `MDB_DBS_FULL`, `MDB_READERS_FULL`, `MDB_TXN_FULL`,
/// `MDB_MAP_RESIZED`, `MDB_BAD_VALSIZE`). Trusted: each has the value that
/// the constant of this module with the matching name gives.
#[verifier::external_body]
pub(crate) fn status_codes() -> (r: StatusCodes)
    ensures
        r.success == SUCCESS,
        r.key_exist == KEY_EXIST,
        r.not_found == NOT_FOUND,
        r.panic == PANIC,
        r.version_mismatch == VERSION_MISMATCH,
        r.invalid == INVALID,
        r.map_full == MAP_FULL,
        r.dbs_full == DBS_FULL,
        r.readers_full == READERS_FULL,
        r.txn_full == TXN_FULL,
        r.map_resized == MAP_RESIZED,
        r.bad_val_size == BAD_VAL_SIZE,
{
    StatusCodes {
        success: lmdb_sys::MDB_SUCCESS, key_exist: lmdb_sys::MDB_KEYEXIST,
        not_found: lmdb_sys::MDB_NOTFOUND, panic: lmdb_sys::MDB_PANIC,
        version_mismatch: lmdb_sys::MDB_VERSION_MISMATCH, invalid: lmdb_sys::MDB_INVALID,
        map_full: lmdb_sys::MDB_MAP_FULL, dbs_full: lmdb_sys::MDB_DBS_FULL,
        readers_full: lmdb_sys::MDB_READERS_FULL, txn_full: lmdb_sys::MDB_TXN_FULL,
        map_resized: lmdb_sys::MDB_MAP_RESIZED, bad_val_size: lmdb_sys::MDB_BAD_VALSIZE,
    }
}

/// Reads the error numbers of `libc` (`ENOENT`, `ESRCH`, `EIO`, `EAGAIN`,
/// `ENOMEM`, `EACCES`, `EINVAL`, `ENOSPC`). Their values differ from target
/// to target, so nothing is claimed of them.
#[verifier::external_body]
pub(crate) fn errno_codes() -> (r: ErrnoCodes)
{
    ErrnoCodes {
        no_entry: libc::ENOENT, no_process: libc::ESRCH, io: libc::EIO, again: libc::EAGAIN,
        no_memory: libc::ENOMEM, access: libc::EACCES, invalid: libc::EINVAL,
        no_space: libc::ENOSPC,
    }
}

/// What a delete's status code means: whether a row was there, or the error.
pub open spec fn del_outcome(code: i32, errno: ErrnoCodes) -> Result<bool, Error> {
    if code == SUCCESS {
        Ok(true)
    } else if code == NOT_FOUND {
        Ok(false)
    } else if code == errno.access {
        Err(Error::TxnPerm)
    } else if code == errno.invalid {
        Err(Error::InvalidParameter)
    } else {
        Err(Error::Misc(code))
    }
}

/// What a put's status code means.
pub open spec fn put_outcome(code: i32, errno: ErrnoCodes) -> Result<(), Error> {
    if code == SUCCESS {
        Ok(())
    } else if code == MAP_FULL {
        Err(Error::MapFull)
    } else if code == TXN_FULL {
        Err(Error::TxnFull)
    } else if code == KEY_EXIST {
        Err(Error::KeyExists)
    } else if code == BAD_VAL_SIZE {
        Err(Error::BadValSize)
    } else if code == errno.access {
        Err(Error::TxnPerm)
    } else if code == errno.invalid {
        Err(Error::InvalidParameter)
    } else {
        Err(Error::Misc(code))
    }
}

/// What the status code of emptying a table means.
pub open spec fn drop_outcome(code: i32) -> Result<(), Error> {
    if code == SUCCESS {
        Ok(())
    } else {
        Err(Error::Misc(code))
    }
}

/// What a get's status code means: whether a row was found, or the error.
pub open spec fn get_outcome(code: i32, errno: ErrnoCodes) -> Result<bool, Error> {
    if code == SUCCESS {
        Ok(true)
    } else if code == NOT_FOUND {
        Ok(false)
    } else if code == errno.invalid {
        Err(Error::InvalidParameter)
    } else {
        Err(Error::Misc(code))
    }
}

/// What the status code of opening a cursor, or of reading a table's
/// statistics, means.
pub open spec fn cursor_open_outcome(code: i32, errno: ErrnoCodes) -> Result<(), Error> {
    if code == SUCCESS {
        Ok(())
    } else if code == errno.invalid {
        Err(Error::InvalidParameter)
    } else {
        Err(Error::Misc(code))
    }
}

/// The status codes with which a cursor may answer a positioning call: a row,
/// or the end of the sequence. Any other code is a misuse of the cursor.
pub open spec fn cursor_get_code_ok(code: i32) -> bool {
    code == SUCCESS || code == NOT_FOUND
}

/// What the status code of beginning a transaction means.
pub open spec fn txn_begin_outcome(code: i32, errno: ErrnoCodes) -> Result<(), Error> {
    if code == SUCCESS {
        Ok(())
    } else if code == PANIC {
        Err(Error::Panic)
    } else if code == MAP_RESIZED {
        Err(Error::MapResized)
    } else if code == READERS_FULL {
        Err(Error::ReadersFull)
    } else if code == errno.no_memory {
        Err(Error::Oom)
    } else {
        Err(Error::Misc(code))
    }
}

/// What the status code of a commit means.
pub open spec fn txn_commit_outcome(code: i32, errno: ErrnoCodes) -> Result<(), Error> {
    if code == SUCCESS {
        Ok(())
    } else if code == errno.invalid {
        Err(Error::InvalidParameter)
    } else if code == errno.no_space {
        Err(Error::NoDiskSpace)
    } else if code == errno.io {
        Err(Error::Io)
    } else if code == errno.no_memory {
        Err(Error::Oom)
    } else {
        Err(Error::Misc(code))
    }
}

/// What the status code of creating an environment handle means.
pub open spec fn env_create_outcome(code: i32) -> Result<(), Error> {
    if code == SUCCESS {
        Ok(())
    } else {
        Err(Error::CreateError(code))
    }
}

/// What the status code of setting one of an environment's limits means.
pub open spec fn env_set_outcome(code: i32) -> Result<(), Error> {
    if code == SUCCESS {
        Ok(())
    } else {
        Err(Error::InvalidParameter)
    }
}

/// What the status code of opening the store means.
pub open spec fn env_open_outcome(code: i32, errno: ErrnoCodes) -> Result<(), Error> {
    if code == SUCCESS {
        Ok(())
    } else if code == VERSION_MISMATCH {
        Err(Error::VersionMismatch)
    } else if code == INVALID {
        Err(Error::Corrupted)
    } else if code == errno.no_entry || code == errno.no_process {
        Err(Error::DirDoesntExist)
    } else if code == errno.access {
        Err(Error::NoAccess)
    } else if code == errno.again {
        Err(Error::EnvLocked)
    } else {
        Err(Error::Misc(code))
    }
}

/// Says what the status code of a delete means: whether a row was there, or
/// the error.
pub fn handle_del_code(code: i32, errno: &ErrnoCodes) -> (r: Result<bool, Error>)
    ensures
        r == del_outcome(code, *errno),
{
    let s = status_codes();
    let e = errno;
    if code == s.success {
        Ok(true)
    } else if code == s.not_found {
        Ok(false)
    } else if code == e.access {
        Err(Error::TxnPerm)
    } else if code == e.invalid {
        Err(Error::InvalidParameter)
    } else {
        Err(Error::Misc(code))
    }
}

/// Says what the status code of a put means.
pub fn handle_put_code(code: i32, errno: &ErrnoCodes) -> (r: Result<(), Error>)
    ensures
        r == put_outcome(code, *errno),
{
    let s = status_codes();
    let e = errno;
    if code == s.success {
        Ok(())
    } else if code == s.map_full {
        Err(Error::MapFull)
    } else if code == s.txn_full {
        Err(Error::TxnFull)
    } else if code == s.key_exist {
        Err(Error::KeyExists)
    } else if code == s.bad_val_size {
        Err(Error::BadValSize)
    } else if code == e.access {
        Err(Error::TxnPerm)
    } else if code == e.invalid {
        Err(Error::InvalidParameter)
    } else {
        Err(Error::Misc(code))
    }
}

/// Says what the status code of emptying a table means.
pub fn handle_drop_code(code: i32) -> (r: Result<(), Error>)
    ensures
        r == drop_outcome(code),
{
    if code == status_codes().success {
        Ok(())
    } else {
        Err(Error::Misc(code))
    }
}

/// Says what the status code of a lookup means: whether a row was found, or
/// the error.
pub fn handle_get_code(code: i32, errno: &ErrnoCodes) -> (r: Result<bool, Error>)
    ensures
        r == get_outcome(code, *errno),
{
    let s = status_codes();
    if code == s.success {
        Ok(true)
    } else if code == s.not_found {
        Ok(false)
    } else if code == errno.invalid {
        Err(Error::InvalidParameter)
    } else {
        Err(Error::Misc(code))
    }
}

/// Says what the status code of opening a cursor means.
pub fn handle_cursor_open_code(code: i32, errno: &ErrnoCodes) -> (r: Result<(), Error>)
    ensures
        r == cursor_open_outcome(code, *errno),
{
    if code == status_codes().success {
        Ok(())
    } else if code == errno.invalid {
        Err(Error::InvalidParameter)
    } else {
        Err(Error::Misc(code))
    }
}

/// Whether the cursor stands on a row after a positioning call. A code that
/// is neither success nor end-of-sequence is a misuse and is not accepted.
pub fn handle_cursor_get_code(code: i32) -> (r: bool)
    requires
        cursor_get_code_ok(code),
    ensures
        r == (code == SUCCESS),
{
    code == status_codes().success
}

/// Says what the status code of beginning a transaction means.
pub fn handle_txn_begin_code(code: i32, errno: &ErrnoCodes) -> (r: Result<(), Error>)
    ensures
        r == txn_begin_outcome(code, *errno),
{
    let s = status_codes();
    if code == s.success {
        Ok(())
    } else if code == s.panic {
        Err(Error::Panic)
    } else if code == s.map_resized {
        Err(Error::MapResized)
    } else if code == s.readers_full {
        Err(Error::ReadersFull)
    } else if code == errno.no_memory {
        Err(Error::Oom)
    } else {
        Err(Error::Misc(code))
    }
}

/// Says what the status code of a commit means.
pub fn handle_txn_commit_code(code: i32, errno: &ErrnoCodes) -> (r: Result<(), Error>)
    ensures
        r == txn_commit_outcome(code, *errno),
{
    let e = errno;
    if code == status_codes().success {
        Ok(())
    } else if code == e.invalid {
        Err(Error::InvalidParameter)
    } else if code == e.no_space {
        Err(Error::NoDiskSpace)
    } else if code == e.io {
        Err(Error::Io)
    } else if code == e.no_memory {
        Err(Error::Oom)
    } else {
        Err(Error::Misc(code))
    }
}

/// Says what the status code of creating an environment handle means.
pub fn handle_env_create_code(code: i32) -> (r: Result<(), Error>)
    ensures
        r == env_create_outcome(code),
{
    if code == status_codes().success {
        Ok(())
    } else {
        Err(Error::CreateError(code))
    }
}

/// Says what the status code of setting the number of tables means.
pub fn handle_env_set_maxdbs_code(code: i32) -> (r: Result<(), Error>)
    ensures
        r == env_set_outcome(code),
{
    if code == status_codes().success {
        Ok(())
    } else {
        Err(Error::InvalidParameter)
    }
}

/// Says what the status code of setting the size of the memory map means.
pub fn handle_env_set_mapsize_code(code: i32) -> (r: Result<(), Error>)
    ensures
        r == env_set_outcome(code),
{
    if code == status_codes().success {
        Ok(())
    } else {
        Err(Error::InvalidParameter)
    }
}

/// Says what the status code of setting the number of reader slots means.
pub fn handle_env_set_maxreaders_code(code: i32) -> (r: Result<(), Error>)
    ensures
        r == env_set_outcome(code),
{
    if code == status_codes().success {
        Ok(())
    } else {
        Err(Error::InvalidParameter)
    }
}

/// Says what the status code of opening the store means.
pub fn handle_env_open(code: i32, errno: &ErrnoCodes) -> (r: Result<(), Error>)
    ensures
        r == env_open_outcome(code, *errno),
{
    let s = status_codes();
    let e = errno;
    if code == s.success {
        Ok(())
    } else if code == s.version_mismatch {
        Err(Error::VersionMismatch)
    } else if code == s.invalid {
        Err(Error::Corrupted)
    } else if code == e.no_entry || code == e.no_process {
        Err(Error::DirDoesntExist)
    } else if code == e.access {
        Err(Error::NoAccess)
    } else if code == e.again {
        Err(Error::EnvLocked)
    } else {
        Err(Error::Misc(code))
    }
}

/// Accepts the status code of opening a table. Tables are declared up front,
/// so any code but success is a misuse and is not accepted.
pub fn handle_dbi_open_code(code: i32)
    requires
        code == SUCCESS,
{
}

/// Says what the status code of reading a table's statistics means.
pub fn handle_stat_code(code: i32, errno: &ErrnoCodes) -> (r: Result<(), Error>)
    ensures
        r == cursor_open_outcome(code, *errno),
{
    if code == status_codes().success {
        Ok(())
    } else if code == errno.invalid {
        Err(Error::InvalidParameter)
    } else {
        Err(Error::Misc(code))
    }
}

} // verus!
