//! The storage engine as this library sees it: plain requests and replies.
//!
//! The engine itself is reached through a function from [`Request`] to
//! [`Reply`] that the environment holds. Nothing is assumed of that function:
//! every contract here says which request was handed over and how the result
//! follows from whatever reply came back.

use vstd::prelude::*;
use crate::transaction::{Transaction, RwTxn};
use vstd::endian::{Endian, endianness};
use vstd::bytes::{
    spec_u64_to_le_bytes, spec_u64_from_le_bytes, lemma_auto_spec_u64_to_from_le_bytes,
};
pub use self::error::Error;
use self::error::{
    ErrnoCodes, SUCCESS, put_outcome, del_outcome, drop_outcome, get_outcome, cursor_open_outcome,
    cursor_get_code_ok, txn_begin_outcome, txn_commit_outcome, env_create_outcome,
    env_set_outcome, env_open_outcome, handle_put_code, handle_del_code, handle_drop_code,
    handle_get_code, handle_cursor_open_code, handle_cursor_get_code, handle_stat_code,
    handle_txn_begin_code, handle_txn_commit_code, handle_env_create_code,
    handle_env_set_maxdbs_code, handle_env_set_mapsize_code, handle_env_set_maxreaders_code,
    handle_env_open, handle_dbi_open_code,
};

pub mod error;

verus! {

/// A property of a table, fixed when the table is declared.
#[derive(Debug, Clone, Copy, PartialEq, Eq, Structural)]
pub enum DbFlags {
    /// Keys are compared in reverse order.
    ReverseKey,
    /// Keys are binary integers in native byte order, all of one size.
    IntegerKey,
    /// Create the table if it does not exist.
    Create,
    /// Allow duplicate keys, stored in sorted order.
    DupSort,
    /// All values are of one size.
    DupFixed,
    /// Duplicate data items are binary integers.
    IntegerDup,
    /// Duplicate data items are compared in reverse order.
    ReverseDup,
}

/// A set of [`DbFlags`].
#[derive(Debug, Clone, Copy, PartialEq, Eq, Structural)]
pub struct DbFlagSet {
    pub reverse_key: bool,
    pub integer_key: bool,
    pub create: bool,
    pub dup_sort: bool,
    pub dup_fixed: bool,
    pub integer_dup: bool,
    pub reverse_dup: bool,
}

impl DbFlagSet {
    /// Whether `flag` is in the set.
    pub open spec fn has(self, flag: DbFlags) -> bool {
        match flag {
            DbFlags::ReverseKey => self.reverse_key,
            DbFlags::IntegerKey => self.integer_key,
            DbFlags::Create => self.create,
            DbFlags::DupSort => self.dup_sort,
            DbFlags::DupFixed => self.dup_fixed,
            DbFlags::IntegerDup => self.integer_dup,
            DbFlags::ReverseDup => self.reverse_dup,
        }
    }

    /// The set without any flag.
    pub open spec fn none() -> Self {
        DbFlagSet {
            reverse_key: false,
            integer_key: false,
            create: false,
            dup_sort: false,
            dup_fixed: false,
            integer_dup: false,
            reverse_dup: false,
        }
    }

    /// The set without any flag.
    pub fn empty() -> (r: Self)
        ensures
            r == Self::none(),
            forall|f: DbFlags| !r.has(f),
    {
        DbFlagSet {
            reverse_key: false,
            integer_key: false,
            create: false,
            dup_sort: false,
            dup_fixed: false,
            integer_dup: false,
            reverse_dup: false,
        }
    }

    /// Whether `flag` is in the set.
    pub fn contains(&self, flag: DbFlags) -> (r: bool)
        ensures
            r == self.has(flag),
    {
        match flag {
            DbFlags::ReverseKey => self.reverse_key,
            DbFlags::IntegerKey => self.integer_key,
            DbFlags::Create => self.create,
            DbFlags::DupSort => self.dup_sort,
            DbFlags::DupFixed => self.dup_fixed,
            DbFlags::IntegerDup => self.integer_dup,
            DbFlags::ReverseDup => self.reverse_dup,
        }
    }

    /// The set with `flag` added.
    pub open spec fn plus(self, flag: DbFlags) -> Self {
        match flag {
            DbFlags::ReverseKey => DbFlagSet { reverse_key: true, ..self },
            DbFlags::IntegerKey => DbFlagSet { integer_key: true, ..self },
            DbFlags::Create => DbFlagSet { create: true, ..self },
            DbFlags::DupSort => DbFlagSet { dup_sort: true, ..self },
            DbFlags::DupFixed => DbFlagSet { dup_fixed: true, ..self },
            DbFlags::IntegerDup => DbFlagSet { integer_dup: true, ..self },
            DbFlags::ReverseDup => DbFlagSet { reverse_dup: true, ..self },
        }
    }

    /// The set with `flag` added.
    pub fn with(self, flag: DbFlags) -> (r: Self)
        ensures
            r == self.plus(flag),
            forall|f: DbFlags| r.has(f) == (f == flag || self.has(f)),
    {
        let mut r = self;
        match flag {
            DbFlags::ReverseKey => { r.reverse_key = true; },
            DbFlags::IntegerKey => { r.integer_key = true; },
            DbFlags::Create => { r.create = true; },
            DbFlags::DupSort => { r.dup_sort = true; },
            DbFlags::DupFixed => { r.dup_fixed = true; },
            DbFlags::IntegerDup => { r.integer_dup = true; },
            DbFlags::ReverseDup => { r.reverse_dup = true; },
        }
        r
    }

    /// The flags of either set.
    pub open spec fn either(self, other: Self) -> Self {
        DbFlagSet {
            reverse_key: self.reverse_key || other.reverse_key,
            integer_key: self.integer_key || other.integer_key,
            create: self.create || other.create,
            dup_sort: self.dup_sort || other.dup_sort,
            dup_fixed: self.dup_fixed || other.dup_fixed,
            integer_dup: self.integer_dup || other.integer_dup,
            reverse_dup: self.reverse_dup || other.reverse_dup,
        }
    }

    /// The flags of either set.
    pub fn union(self, other: Self) -> (r: Self)
        ensures
            r == self.either(other),
            forall|f: DbFlags| r.has(f) == (self.has(f) || other.has(f)),
    {
        DbFlagSet {
            reverse_key: self.reverse_key || other.reverse_key,
            integer_key: self.integer_key || other.integer_key,
            create: self.create || other.create,
            dup_sort: self.dup_sort || other.dup_sort,
            dup_fixed: self.dup_fixed || other.dup_fixed,
            integer_dup: self.integer_dup || other.integer_dup,
            reverse_dup: self.reverse_dup || other.reverse_dup,
        }
    }
}

/// Where a cursor is to go before it reports the row it stands on.
#[derive(Debug, Clone, Copy, PartialEq, Eq, Structural)]
pub enum CursorOpFlags {
    /// Stay at the current position.
    GetCurrent,
    /// The first row.
    First,
    /// The last row.
    Last,
    /// The next row.
    Next,
    /// The previous row.
    Prev,
    /// The row with the given key.
    SetExact,
    /// The row with the given key; report key and data.
    SetKey,
    /// The first row whose key is greater than or equal to the given key.
    SetRange,
    /// Up to a page of duplicates from the current position.
    GetMultiple,
    /// Up to a page of duplicates from the next position.
    NextMultiple,
    /// The first data item of the current key.
    FirstDup,
    /// The last data item of the current key.
    LastDup,
    /// The next data item of the current key.
    NextDup,
    /// The first data item of the next key.
    NextNodup,
    /// The previous data item of the current key.
    PrevDup,
    /// The last data item of the previous key.
    PrevNodup,
    /// The given key and data pair.
    GetBoth,
    /// The given key, nearest data.
    GetBothRange,
}

/// One call into the engine, without the bytes it carries.
#[derive(Debug, Clone, Copy, PartialEq, Eq, Structural)]
pub enum Call {
    /// Make an environment handle.
    EnvCreate,
    /// Set the size of the memory map of the environment `handle`.
    EnvSetMapsize { size: usize },
    /// Set the number of reader slots of the environment `handle`.
    EnvSetMaxreaders { readers: u32 },
    /// Set the number of named tables of the environment `handle`.
    EnvSetMaxdbs { dbs: u32 },
    /// Open the store at the path in `key` with the environment `handle`.
    EnvOpen { no_meta_sync: bool, no_tls: bool, no_read_ahead: bool, mode: u32 },
    /// Begin a transaction in the environment `handle`.
    TxnBegin { read_only: bool },
    /// Commit the transaction `handle`.
    TxnCommit,
    /// Abort the transaction `handle`.
    TxnAbort,
    /// Open the table named in `key` within the transaction `handle`.
    DbiOpen { flags: DbFlagSet },
    /// Count the rows of a table.
    Stat { dbi: u32 },
    /// Look up the row under `key`.
    Get { dbi: u32 },
    /// Store `data` under `key`, replacing what was there.
    Put { dbi: u32 },
    /// Remove the row under `key`.
    Del { dbi: u32 },
    /// Remove all rows of a table.
    Drop { dbi: u32 },
    /// Open a cursor on a table within the transaction `handle`.
    CursorOpen { dbi: u32 },
    /// Move the cursor `handle`, from `key` where the move takes one.
    CursorGet { op: CursorOpFlags },
    /// Close the cursor `handle`.
    CursorClose,
}

/// A call into the engine with the handle it is made on and its bytes.
pub struct Request<'a> {
    pub call: Call,
    pub handle: usize,
    pub key: &'a [u8],
    pub data: &'a [u8],
}

/// What a [`Request`] asks, as plain values.
pub struct Asked {
    pub call: Call,
    pub handle: usize,
    pub key: Seq<u8>,
    pub data: Seq<u8>,
}

impl<'a> View for Request<'a> {
    type V = Asked;

    open spec fn view(&self) -> Asked {
        Asked { call: self.call, handle: self.handle, key: self.key@, data: self.data@ }
    }
}

/// The engine's answer: a status code, the handle or count that the call
/// yields, and the key and data bytes of the row it stands on.
pub struct Reply<'e> {
    pub code: i32,
    pub number: usize,
    pub key: &'e [u8],
    pub data: &'e [u8],
}

/// A request without bytes.
pub open spec fn plain(call: Call, handle: usize) -> Asked {
    Asked { call, handle, key: Seq::empty(), data: Seq::empty() }
}

/// A request that carries a key.
pub open spec fn keyed(call: Call, handle: usize, key: Seq<u8>) -> Asked {
    Asked { call, handle, key, data: Seq::empty() }
}

/// The engine accepts every request.
pub open spec fn ready<'env, E>(engine: &E) -> bool
    where E: for <'a> Fn(Request<'a>) -> Reply<'env>,
{
    forall|q: Request| #[trigger] engine.requires((q,))
}

/// The engine answered `a` when asked `q`.
pub open spec fn replied<'env, E>(engine: &E, q: Asked, a: Reply<'env>) -> bool
    where E: for <'a> Fn(Request<'a>) -> Reply<'env>,
{
    exists|r: Request| r@ == q && #[trigger] engine.ensures((r,), a)
}

/// The handle that a call yields when the engine answered with `a` and
/// `outcome` is what its status code means.
pub open spec fn handle_of<'env>(outcome: Result<(), Error>, a: Reply<'env>) -> Result<
    usize,
    Error,
> {
    match outcome {
        Ok(_) => Ok(a.number),
        Err(e) => Err(e),
    }
}

/// Every cursor move within `tx` is answered with a row or with the end of
/// the sequence, never with another status.
pub open spec fn cursor_sound<'env, TX: Transaction<'env>>(tx: &TX) -> bool {
    forall|q: Asked, a: Reply<'env>|
        (q.call is CursorGet && #[trigger] tx.answers(q, a)) ==> cursor_get_code_ok(a.code)
}

/// Every row that the cursor `raw` reports within `tx` has a key of eight
/// bytes.
pub open spec fn u64_keyed<'env, TX: Transaction<'env>>(tx: &TX, raw: usize) -> bool {
    forall|q: Asked, a: Reply<'env>|
        (q.call is CursorGet && q.handle == raw && a.code == SUCCESS && #[trigger] tx.answers(q, a))
            ==> a.key@.len() == 8
}

/// Every cursor that the engine opens on the table `dbi` within `tx` reports
/// keys of eight bytes: the table is keyed by integers.
pub open spec fn keys_are_u64<'env, TX: Transaction<'env>>(tx: &TX, dbi: u32) -> bool {
    forall|o: Reply<'env>|
        (#[trigger] tx.answers(plain(Call::CursorOpen { dbi }, tx.raw_handle()), o)
            && cursor_open_outcome(o.code, tx.errno_table()) is Ok) ==> u64_keyed(tx, o.number)
}

/// `r` is what storing `val` under `key` came to.
pub open spec fn put_done<'env, TX: Transaction<'env>>(
    tx: &TX,
    dbi: u32,
    key: Seq<u8>,
    val: Seq<u8>,
    r: Result<(), Error>,
) -> bool {
    exists|a: Reply<'env>| #[trigger]
        tx.answers(Asked { call: Call::Put { dbi }, handle: tx.raw_handle(), key, data: val }, a)
            && r == put_outcome(a.code, tx.errno_table())
}

/// `r` is what removing the row under `key` came to.
pub open spec fn del_done<'env, TX: Transaction<'env>>(
    tx: &TX,
    dbi: u32,
    key: Seq<u8>,
    r: Result<bool, Error>,
) -> bool {
    exists|a: Reply<'env>| #[trigger]
        tx.answers(keyed(Call::Del { dbi }, tx.raw_handle(), key), a) && r == del_outcome(a.code, tx.errno_table())
}

/// `r` is what emptying the table came to.
pub open spec fn drop_done<'env, TX: Transaction<'env>>(
    tx: &TX,
    dbi: u32,
    r: Result<(), Error>,
) -> bool {
    exists|a: Reply<'env>| #[trigger]
        tx.answers(plain(Call::Drop { dbi }, tx.raw_handle()), a) && r == drop_outcome(a.code)
}

/// The result of a lookup that the engine answered with `a`.
pub open spec fn get_result<'env>(a: Reply<'env>, errno: ErrnoCodes) -> Result<
    Option<&'env [u8]>,
    Error,
> {
    match get_outcome(a.code, errno) {
        Ok(true) => Ok(Some(a.data)),
        Ok(false) => Ok(None),
        Err(e) => Err(e),
    }
}

/// `r` is what looking up `key` came to.
pub open spec fn get_done<'env, TX: Transaction<'env>>(
    tx: &TX,
    dbi: u32,
    key: Seq<u8>,
    r: Result<Option<&'env [u8]>, Error>,
) -> bool {
    exists|a: Reply<'env>| #[trigger]
        tx.answers(keyed(Call::Get { dbi }, tx.raw_handle(), key), a) && r == get_result(a, tx.errno_table())
}

/// `r` is what counting the rows came to.
pub open spec fn stat_done<'env, TX: Transaction<'env>>(
    tx: &TX,
    dbi: u32,
    r: Result<usize, Error>,
) -> bool {
    exists|a: Reply<'env>| #[trigger]
        tx.answers(plain(Call::Stat { dbi }, tx.raw_handle()), a) && r == (match cursor_open_outcome(
            a.code,
            tx.errno_table(),
        ) {
            Ok(_) => Ok(a.number),
            Err(e) => Err(e),
        })
}

/// The bytes of `x` in the byte order of the machine.
pub open spec fn ne_bytes(x: u64) -> Seq<u8> {
    match endianness() {
        Endian::Little => spec_u64_to_le_bytes(x),
        Endian::Big => spec_u64_to_le_bytes(x).reverse(),
    }
}

/// The integer whose bytes in the byte order of the machine are `s`.
pub open spec fn ne_value(s: Seq<u8>) -> u64 {
    match endianness() {
        Endian::Little => spec_u64_from_le_bytes(s),
        Endian::Big => spec_u64_from_le_bytes(s.reverse()),
    }
}

/// Eight bytes in whatever byte order stand for the integer they were made
/// from, and for no other.
pub proof fn lemma_ne_bytes_round_trip(x: u64)
    ensures
        ne_bytes(x).len() == 8,
        ne_value(ne_bytes(x)) == x,
{
    lemma_auto_spec_u64_to_from_le_bytes();
    let s = spec_u64_to_le_bytes(x);
    assert(s.reverse().reverse() =~= s);
}

/// Calls `u64::to_ne_bytes`. Trusted: the result is the eight bytes of `x` in
/// the byte order of the machine.
#[verifier::external_body]
pub(crate) fn u64_to_ne_bytes(x: u64) -> (r: Vec<u8>)
    ensures
        r@ == ne_bytes(x),
{
    x.to_ne_bytes().to_vec()
}

/// Calls `u64::from_ne_bytes`. Trusted: the result is the integer that the
/// eight bytes stand for in the byte order of the machine.
#[verifier::external_body]
pub(crate) fn u64_from_ne_bytes(bytes: &[u8]) -> (r: u64)
    requires
        bytes@.len() == 8,
    ensures
        r == ne_value(bytes@),
{
    u64::from_ne_bytes(bytes.try_into().unwrap())
}

/// A row with its key read as an integer.
pub open spec fn u64_row<'env>(row: Option<(&'env [u8], &'env [u8])>) -> Option<
    (u64, &'env [u8]),
> {
    match row {
        Some((k, v)) => Some((ne_value(k@), v)),
        None => None,
    }
}

/// The row that a cursor move reports when the engine answered with `a`.
pub open spec fn row_of<'env>(a: Reply<'env>) -> Option<(&'env [u8], &'env [u8])> {
    if a.code == SUCCESS {
        Some((a.key, a.data))
    } else {
        None
    }
}

/// `r` is the row that the cursor `raw` reported after the move `op`, which
/// started from `key` where it takes one.
pub open spec fn moved<'env, TX: Transaction<'env>>(
    tx: &TX,
    raw: usize,
    op: CursorOpFlags,
    key: Seq<u8>,
    r: Option<(&'env [u8], &'env [u8])>,
) -> bool {
    exists|a: Reply<'env>| #[trigger]
        tx.answers(keyed(Call::CursorGet { op }, raw, key), a) && r == row_of(a)
}

/// No bytes at all, for a request that carries none.
pub fn no_bytes<'a>() -> (r: &'a [u8])
    ensures
        r@ == Seq::<u8>::empty(),
{
    let r: &'static [u8] = &[];
    assert(r@ =~= Seq::<u8>::empty());
    r
}

/// Stores `val` under `key`, replacing the row that was there.
pub fn put<'b, 'env, E>(tx: &RwTxn<'b, E>, dbi: u32, key: &[u8], val: &[u8]) -> (r: Result<(), Error>)
    where E: for <'a> Fn(Request<'a>) -> Reply<'env>,
    requires
        tx.wf(),
    ensures
        put_done(tx, dbi, key@, val@, r),
{
    let a = tx.ask(Request { call: Call::Put { dbi }, handle: tx.raw(), key, data: val });
    handle_put_code(a.code, &tx.errno())
}

/// Removes the row under `key` and says whether there was one.
pub fn del<'b, 'env, E>(tx: &RwTxn<'b, E>, dbi: u32, key: &[u8]) -> (r: Result<bool, Error>)
    where E: for <'a> Fn(Request<'a>) -> Reply<'env>,
    requires
        tx.wf(),
    ensures
        del_done(tx, dbi, key@, r),
{
    let a = tx.ask(Request { call: Call::Del { dbi }, handle: tx.raw(), key, data: no_bytes() });
    handle_del_code(a.code, &tx.errno())
}

/// Removes all rows of the table.
pub fn drop<'b, 'env, E>(tx: &RwTxn<'b, E>, dbi: u32) -> (r: Result<(), Error>)
    where E: for <'a> Fn(Request<'a>) -> Reply<'env>,
    requires
        tx.wf(),
    ensures
        drop_done(tx, dbi, r),
{
    let a = tx.ask(Request { call: Call::Drop { dbi }, handle: tx.raw(), key: no_bytes(), data: no_bytes() });
    handle_drop_code(a.code)
}

/// Looks up the row under `key`.
pub fn get<'tx, 'env: 'tx, TX: Transaction<'env>>(tx: &'tx TX, dbi: u32, key: &[u8]) -> (r: Result<
    Option<&'tx [u8]>,
    Error,
>)
    requires
        tx.wf(),
    ensures
        get_done(tx, dbi, key@, r),
{
    let a = tx.ask(Request { call: Call::Get { dbi }, handle: tx.raw(), key, data: no_bytes() });
    match handle_get_code(a.code, &tx.errno()) {
        Ok(true) => Ok(Some(a.data)),
        Ok(false) => Ok(None),
        Err(e) => Err(e),
    }
}

/// Counts the rows of the table.
pub fn stat<'env, TX: Transaction<'env>>(tx: &TX, dbi: u32) -> (r: Result<usize, Error>)
    requires
        tx.wf(),
    ensures
        stat_done(tx, dbi, r),
{
    let a = tx.ask(Request { call: Call::Stat { dbi }, handle: tx.raw(), key: no_bytes(), data: no_bytes() });
    match handle_stat_code(a.code, &tx.errno()) {
        Ok(_) => Ok(a.number),
        Err(e) => Err(e),
    }
}

/// Hands `q` to the engine.
pub fn ask<'env, 'a, E>(engine: &E, q: Request<'a>) -> (a: Reply<'env>)
    where E: for <'b> Fn(Request<'b>) -> Reply<'env>,
    requires
        ready(engine),
    ensures
        replied(engine, q@, a),
{
    engine(q)
}

/// Begins a transaction in the environment `env` and gives its handle.
pub fn txn_begin<'env, E>(engine: &E, env: usize, read_only: bool, errno: &ErrnoCodes) -> (r: Result<
    usize,
    Error,
>)
    where E: for <'a> Fn(Request<'a>) -> Reply<'env>,
    requires
        ready(engine),
    ensures
        exists|a: Reply<'env>| #[trigger]
            replied(engine, plain(Call::TxnBegin { read_only }, env), a) && r == handle_of(
                txn_begin_outcome(a.code, *errno),
                a,
            ),
{
    let a = ask(
        engine,
        Request { call: Call::TxnBegin { read_only }, handle: env, key: no_bytes(), data: no_bytes() },
    );
    match handle_txn_begin_code(a.code, errno) {
        Ok(_) => Ok(a.number),
        Err(e) => Err(e),
    }
}

/// Commits the transaction `txn`.
pub fn txn_commit<'env, E>(engine: &E, txn: usize, errno: &ErrnoCodes) -> (r: Result<(), Error>)
    where E: for <'a> Fn(Request<'a>) -> Reply<'env>,
    requires
        ready(engine),
    ensures
        exists|a: Reply<'env>| #[trigger]
            replied(engine, plain(Call::TxnCommit, txn), a) && r == txn_commit_outcome(
                a.code,
                *errno,
            ),
{
    let a = ask(
        engine,
        Request { call: Call::TxnCommit, handle: txn, key: no_bytes(), data: no_bytes() },
    );
    handle_txn_commit_code(a.code, errno)
}

/// Makes an environment handle.
pub fn env_create<'env, E>(engine: &E) -> (r: Result<usize, Error>)
    where E: for <'a> Fn(Request<'a>) -> Reply<'env>,
    requires
        ready(engine),
    ensures
        exists|a: Reply<'env>| #[trigger]
            replied(engine, plain(Call::EnvCreate, 0), a) && r == handle_of(
                env_create_outcome(a.code),
                a,
            ),
{
    let a = ask(
        engine,
        Request { call: Call::EnvCreate, handle: 0, key: no_bytes(), data: no_bytes() },
    );
    match handle_env_create_code(a.code) {
        Ok(_) => Ok(a.number),
        Err(e) => Err(e),
    }
}

/// Sets the number of named tables that the environment `env` can hold.
pub fn env_set_maxdbs<'env, E>(engine: &E, env: usize, maxdbs: u32) -> (r: Result<(), Error>)
    where E: for <'a> Fn(Request<'a>) -> Reply<'env>,
    requires
        ready(engine),
    ensures
        exists|a: Reply<'env>| #[trigger]
            replied(engine, plain(Call::EnvSetMaxdbs { dbs: maxdbs }, env), a) && r
                == env_set_outcome(a.code),
{
    let a = ask(
        engine,
        Request {
            call: Call::EnvSetMaxdbs { dbs: maxdbs },
            handle: env,
            key: no_bytes(),
            data: no_bytes(),
        },
    );
    handle_env_set_maxdbs_code(a.code)
}

/// Sets the size of the memory map of the environment `env`.
pub fn env_set_mapsize<'env, E>(engine: &E, env: usize, mapsize: usize) -> (r: Result<(), Error>)
    where E: for <'a> Fn(Request<'a>) -> Reply<'env>,
    requires
        ready(engine),
    ensures
        exists|a: Reply<'env>| #[trigger]
            replied(engine, plain(Call::EnvSetMapsize { size: mapsize }, env), a) && r
                == env_set_outcome(a.code),
{
    let a = ask(
        engine,
        Request {
            call: Call::EnvSetMapsize { size: mapsize },
            handle: env,
            key: no_bytes(),
            data: no_bytes(),
        },
    );
    handle_env_set_mapsize_code(a.code)
}

/// Sets the number of reader slots of the environment `env`.
pub fn env_set_maxreaders<'env, E>(engine: &E, env: usize, readers: u32) -> (r: Result<(), Error>)
    where E: for <'a> Fn(Request<'a>) -> Reply<'env>,
    requires
        ready(engine),
    ensures
        exists|a: Reply<'env>| #[trigger]
            replied(engine, plain(Call::EnvSetMaxreaders { readers }, env), a) && r
                == env_set_outcome(a.code),
{
    let a = ask(
        engine,
        Request {
            call: Call::EnvSetMaxreaders { readers },
            handle: env,
            key: no_bytes(),
            data: no_bytes(),
        },
    );
    handle_env_set_maxreaders_code(a.code)
}

/// The call that opens a store the way this library does: the last
/// transaction may be lost in a crash, transactions are not tied to threads,
/// and the engine does not read ahead.
pub open spec fn open_call(mode: u32) -> Call {
    Call::EnvOpen { no_meta_sync: true, no_tls: true, no_read_ahead: true, mode }
}

/// Opens the store at `path` with the environment `env`.
pub fn env_open<'env, E>(
    engine: &E,
    env: usize,
    path: &[u8],
    mode: u32,
    errno: &ErrnoCodes,
) -> (r: Result<(), Error>)
    where E: for <'a> Fn(Request<'a>) -> Reply<'env>,
    requires
        ready(engine),
    ensures
        exists|a: Reply<'env>| #[trigger]
            replied(engine, keyed(open_call(mode), env, path@), a) && r == env_open_outcome(
                a.code,
                *errno,
            ),
{
    let a = ask(
        engine,
        Request {
            call: Call::EnvOpen { no_meta_sync: true, no_tls: true, no_read_ahead: true, mode },
            handle: env,
            key: path,
            data: no_bytes(),
        },
    );
    handle_env_open(a.code, errno)
}

/// Every request to open a table is answered with success.
pub open spec fn tables_open<'env, E>(engine: &E) -> bool
    where E: for <'a> Fn(Request<'a>) -> Reply<'env>,
{
    forall|q: Asked, a: Reply<'env>|
        (q.call is DbiOpen && #[trigger] replied(engine, q, a)) ==> a.code == SUCCESS
}

/// Opens the table `name` within the transaction `txn` and gives its handle.
/// A table that cannot be opened is a fault in the declarations, which the
/// engine function is expected to stop on rather than report.
pub fn dbi_open<'env, E>(engine: &E, txn: usize, name: &[u8], flags: DbFlagSet) -> (r: u32)
    where E: for <'a> Fn(Request<'a>) -> Reply<'env>,
    requires
        ready(engine),
        tables_open(engine),
    ensures
        exists|a: Reply<'env>| #[trigger]
            replied(engine, keyed(Call::DbiOpen { flags }, txn, name@), a) && r
                == a.number as u32,
{
    let a = ask(
        engine,
        Request { call: Call::DbiOpen { flags }, handle: txn, key: name, data: no_bytes() },
    );
    handle_dbi_open_code(a.code);
    #[verifier::truncate]
    (a.number as u32)
}

/// A position in one table within one transaction.
pub struct Cursor<'tx, TX> {
    pub raw: usize,
    pub tx: &'tx TX,
}

/// The engine was told to close the cursor.
pub open spec fn closed<'tx, 'env, TX: Transaction<'env>>(cursor: Cursor<'tx, TX>) -> bool {
    exists|a: Reply<'env>| #[trigger] cursor.tx.answers(plain(Call::CursorClose, cursor.raw), a)
}

/// `r` is what opening a cursor on the table came to.
pub open spec fn opened<'tx, 'env, TX: Transaction<'env>>(
    tx: &'tx TX,
    dbi: u32,
    r: Result<Cursor<'tx, TX>, Error>,
) -> bool {
    exists|a: Reply<'env>| #[trigger]
        tx.answers(plain(Call::CursorOpen { dbi }, tx.raw_handle()), a) && (
        match cursor_open_outcome(a.code, tx.errno_table()) {
            Ok(_) => r == Ok::<Cursor<'tx, TX>, Error>(Cursor { raw: a.number, tx }),
            Err(e) => r == Err::<Cursor<'tx, TX>, Error>(e),
        })
}

impl<'tx, 'env: 'tx, TX: Transaction<'env>> Cursor<'tx, TX> {
    /// Opens a cursor on the table `dbi`.
    pub fn open(tx: &'tx TX, dbi: u32) -> (r: Result<Self, Error>)
        requires
            tx.wf(),
        ensures
            opened(tx, dbi, r),
    {
        let a = tx.ask(
            Request {
                call: Call::CursorOpen { dbi },
                handle: tx.raw(),
                key: no_bytes(),
                data: no_bytes(),
            },
        );
        match handle_cursor_open_code(a.code, &tx.errno()) {
            Ok(_) => Ok(Cursor { raw: a.number, tx }),
            Err(e) => Err(e),
        }
    }

    /// Moves the cursor and gives the key and data of the row it then stands
    /// on, or nothing at the end of the sequence.
    pub fn get(&mut self, flags: CursorOpFlags) -> (r: Option<(&'tx [u8], &'tx [u8])>)
        requires
            old(self).tx.wf(),
            cursor_sound(old(self).tx),
        ensures
            *final(self) == *old(self),
            moved(old(self).tx, old(self).raw, flags, Seq::empty(), r),
    {
        let a = self.tx.ask(
            Request {
                call: Call::CursorGet { op: flags },
                handle: self.raw,
                key: no_bytes(),
                data: no_bytes(),
            },
        );
        if !handle_cursor_get_code(a.code) {
            return None;
        }
        Some((a.key, a.data))
    }

    /// Moves the cursor relative to `key` and gives the key and data of the
    /// row it then stands on, or nothing where there is no such row.
    pub fn get_with_key(&mut self, key: &[u8], flags: CursorOpFlags) -> (r: Option<
        (&'tx [u8], &'tx [u8]),
    >)
        requires
            old(self).tx.wf(),
            cursor_sound(old(self).tx),
        ensures
            *final(self) == *old(self),
            moved(old(self).tx, old(self).raw, flags, key@, r),
    {
        let a = self.tx.ask(
            Request { call: Call::CursorGet { op: flags }, handle: self.raw, key, data: no_bytes() },
        );
        if !handle_cursor_get_code(a.code) {
            return None;
        }
        Some((a.key, a.data))
    }

    /// Moves the cursor and gives the integer key and the data of the row it
    /// then stands on, or nothing at the end of the sequence.
    pub fn get_with_u64_key(&mut self, flags: CursorOpFlags) -> (r: Option<(u64, &'tx [u8])>)
        requires
            old(self).tx.wf(),
            cursor_sound(old(self).tx),
            u64_keyed(old(self).tx, old(self).raw),
        ensures
            *final(self) == *old(self),
            exists|row: Option<(&'env [u8], &'env [u8])>| #[trigger]
                moved(old(self).tx, old(self).raw, flags, Seq::empty(), row) && r == u64_row(row),
    {
        let a = self.tx.ask(
            Request {
                call: Call::CursorGet { op: flags },
                handle: self.raw,
                key: no_bytes(),
                data: no_bytes(),
            },
        );
        if !handle_cursor_get_code(a.code) {
            assert(moved(self.tx, self.raw, flags, Seq::empty(), row_of(a)));
            return None;
        }
        assert(moved(self.tx, self.raw, flags, Seq::empty(), row_of(a)));
        Some((u64_from_ne_bytes(a.key), a.data))
    }

    /// Closes the cursor.
    pub fn close(self)
        requires
            self.tx.wf(),
        ensures
            closed(self),
    {
        let _ = self.tx.ask(
            Request { call: Call::CursorClose, handle: self.raw, key: no_bytes(), data: no_bytes() },
        );
    }
}

/// `r` is what looking for the last row of the table came to: the engine
/// opened a cursor, and the cursor, moved to the last row, reported `r`.
pub open spec fn last_seen<'env, TX: Transaction<'env>>(
    tx: &TX,
    dbi: u32,
    r: Result<Option<(&'env [u8], &'env [u8])>, Error>,
) -> bool {
    exists|o: Reply<'env>| #[trigger]
        tx.answers(plain(Call::CursorOpen { dbi }, tx.raw_handle()), o) && (
        match cursor_open_outcome(o.code, tx.errno_table()) {
            Ok(_) => r is Ok && moved(
                tx,
                o.number,
                CursorOpFlags::Last,
                Seq::empty(),
                r->Ok_0,
            ),
            Err(e) => r == Err::<Option<(&'env [u8], &'env [u8])>, Error>(e),
        })
}

/// The row in `r` with its key read as an integer.
pub open spec fn u64_rows<'env>(r: Result<Option<(&'env [u8], &'env [u8])>, Error>) -> Result<
    Option<(u64, &'env [u8])>,
    Error,
> {
    match r {
        Ok(row) => Ok(u64_row(row)),
        Err(e) => Err(e),
    }
}

/// Looks for the last row of the table.
pub fn last_row<'tx, 'env: 'tx, TX: Transaction<'env>>(tx: &'tx TX, dbi: u32) -> (r: Result<
    Option<(&'tx [u8], &'tx [u8])>,
    Error,
>)
    requires
        tx.wf(),
        cursor_sound(tx),
    ensures
        last_seen(tx, dbi, r),
{
    match Cursor::open(tx, dbi) {
        Ok(mut cursor) => {
            let row = cursor.get(CursorOpFlags::Last);
            cursor.close();
            Ok(row)
        },
        Err(e) => Err(e),
    }
}

/// Looks for the last row of a table with integer keys.
pub fn last_u64_row<'tx, 'env: 'tx, TX: Transaction<'env>>(tx: &'tx TX, dbi: u32) -> (r: Result<
    Option<(u64, &'tx [u8])>,
    Error,
>)
    requires
        tx.wf(),
        cursor_sound(tx),
        keys_are_u64(tx, dbi),
    ensures
        exists|rows: Result<Option<(&'env [u8], &'env [u8])>, Error>| #[trigger]
            last_seen(tx, dbi, rows) && r == u64_rows(rows),
{
    match Cursor::open(tx, dbi) {
        Ok(mut cursor) => {
            let ghost raw = cursor.raw;
            let row = cursor.get_with_u64_key(CursorOpFlags::Last);
            cursor.close();
            proof {
                let rows = choose|rows: Option<(&'env [u8], &'env [u8])>| #[trigger]
                    moved(tx, raw, CursorOpFlags::Last, Seq::empty(), rows) && row == u64_row(rows);
                assert(last_seen(tx, dbi, Ok(rows)));
            }
            Ok(row)
        },
        Err(e) => {
            assert(last_seen(tx, dbi, Err(e)));
            Err(e)
        },
    }
}

} // verus!
