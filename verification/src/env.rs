//! The environment: the open store, its registry of declared tables, and the
//! write jobs that run one transaction each.

use vstd::prelude::*;
use vstd::slice::slice_to_vec;
use crate::error::Error;
use crate::lmdb;
use crate::lmdb::{
    Request, Reply, Asked, Call, DbFlagSet, DbFlags, plain, keyed, ready, replied, ask, handle_of,
    tables_open, open_call,
};
use crate::lmdb::error::{
    ErrnoCodes, errno_codes, txn_begin_outcome, txn_commit_outcome, env_create_outcome, env_set_outcome, env_open_outcome,
};
use crate::transaction::{RoTxn, RwTxn, Transaction, committed, aborted};

verus! {

/// An open store with the tables that were declared for it.
pub struct Env<E> {
    pub engine: E,
    pub raw_env: usize,
    pub dbs: Vec<(Vec<u8>, u32)>,
    pub errno: ErrnoCodes,
}

/// A store that is being set up: its limits, and the tables it is to hold.
pub struct EnvBuilder<E> {
    pub engine: E,
    pub raw_env: usize,
    pub dbs: Vec<(Vec<u8>, DbFlagSet)>,
    pub errno: ErrnoCodes,
}

/// How long the write permit was held, by how much that deserves notice.
#[derive(Debug, Clone, Copy, PartialEq, Eq, Structural)]
pub enum LockHold {
    /// Under a quarter of a second.
    Trace,
    /// A quarter of a second or more.
    Info,
    /// Two and a half seconds or more.
    Warn,
    /// Ten seconds or more.
    Error,
}

/// The notice that a hold of `nanos` nanoseconds deserves.
pub open spec fn lock_hold_of(nanos: u128) -> LockHold {
    if nanos >= 10_000_000_000 {
        LockHold::Error
    } else if nanos >= 2_500_000_000 {
        LockHold::Warn
    } else if nanos >= 250_000_000 {
        LockHold::Info
    } else {
        LockHold::Trace
    }
}

/// Classifies the time for which the write permit was held, in nanoseconds.
pub fn complain_about_lock_hold(nanos: u128) -> (r: LockHold)
    ensures
        r == lock_hold_of(nanos),
{
    if nanos >= 10_000_000_000 {
        LockHold::Error
    } else if nanos >= 2_500_000_000 {
        LockHold::Warn
    } else if nanos >= 250_000_000 {
        LockHold::Info
    } else {
        LockHold::Trace
    }
}

/// The handle registered under `name`: that of the last declaration with
/// that name, where there is one.
pub open spec fn handle_in(dbs: Seq<(Vec<u8>, u32)>, name: Seq<u8>) -> Option<u32>
    decreases dbs.len(),
{
    if dbs.len() == 0 {
        None
    } else if dbs.last().0@ == name {
        Some(dbs.last().1)
    } else {
        handle_in(dbs.drop_last(), name)
    }
}

/// Whether two byte strings are the same.
pub fn same_bytes(a: &[u8], b: &[u8]) -> (r: bool)
    ensures
        r == (a@ == b@),
{
    if a.len() != b.len() {
        return false;
    }
    let mut i: usize = 0;
    while i < a.len()
        invariant
            a@.len() == b@.len(),
            i <= a@.len(),
            forall|j: int| 0 <= j < i ==> a@[j] == b@[j],
        decreases a@.len() - i,
    {
        if a[i] != b[i] {
            return false;
        }
        i = i + 1;
    }
    assert(a@ =~= b@);
    true
}

/// `r` is what beginning a transaction came to.
pub open spec fn began<'env, E>(env: &Env<E>, read_only: bool, r: Result<usize, lmdb::Error>) -> bool
    where E: for <'a> Fn(Request<'a>) -> Reply<'env>,
{
    exists|a: Reply<'env>| #[trigger]
        replied(&env.engine, plain(Call::TxnBegin { read_only }, env.raw_env), a) && r
            == handle_of(txn_begin_outcome(a.code, env.errno), a)
}

/// What a write job that ran to its end comes to once the commit was
/// answered: the job's result, or the commit's error.
pub open spec fn after_commit<Res>(res: Res, c: Result<(), lmdb::Error>) -> Result<Res, Error> {
    match c {
        Ok(_) => Ok(res),
        Err(e) => Err(Error::Lmdb(e)),
    }
}

/// `r` is what running `job` in a write transaction of its own came to: no
/// transaction could be begun; or the job ran in one, the commit was asked
/// for, and `r` is the job's result or the commit's error.
pub open spec fn wrote<'b, 'env, E, Res, Job>(env: &'b Env<E>, job: Job, r: Result<Res, Error>) -> bool
    where
        E: for <'a> Fn(Request<'a>) -> Reply<'env>,
        Job: FnOnce(&RwTxn<'b, E>) -> Res,
{
    exists|b: Result<usize, lmdb::Error>| #[trigger]
        began(env, false, b) && (match b {
            Err(e) => r matches Err(Error::Lmdb(x)) && x == e,
            Ok(raw) => exists|res: Res, c: Result<(), lmdb::Error>|
                #![trigger job.ensures((&RwTxn { raw, env }, ), res), committed(&RwTxn { raw, env }, c)]
                job.ensures((&RwTxn { raw, env }, ), res) && committed(&RwTxn { raw, env }, c) && r
                    == after_commit(res, c),
        })
}

/// `r` is what running the fallible `job` in a write transaction of its own
/// came to: no transaction could be begun; or the job succeeded, the commit
/// was asked for, and `r` is the job's result or the commit's error; or the
/// job failed, the transaction was aborted, and `r` is the job's failure.
pub open spec fn tried<'b, 'env, E, Res, Fail, Job>(
    env: &'b Env<E>,
    job: Job,
    r: Result<Result<Res, Fail>, Error>,
) -> bool
    where
        E: for <'a> Fn(Request<'a>) -> Reply<'env>,
        Job: FnOnce(&RwTxn<'b, E>) -> Result<Res, Fail>,
{
    exists|b: Result<usize, lmdb::Error>| #[trigger]
        began(env, false, b) && (match b {
            Err(e) => r matches Err(Error::Lmdb(x)) && x == e,
            Ok(raw) => exists|res: Result<Res, Fail>| #[trigger]
                job.ensures((&RwTxn { raw, env }, ), res) && settled_write(
                    &RwTxn { raw, env },
                    res is Ok,
                    r,
                    res,
                ),
        })
}

/// The end of a write transaction whose job has finished. After a success
/// the commit was asked for, and `r` is `res` or the commit's error. After a
/// failure the transaction was aborted.
pub open spec fn settled_write<'env, TX: Transaction<'env>, R>(
    tx: &TX,
    success: bool,
    r: Result<R, Error>,
    res: R,
) -> bool {
    if success {
        exists|c: Result<(), lmdb::Error>| #[trigger] committed(tx, c) && r == after_commit(res, c)
    } else {
        aborted(tx) && r == Ok::<R, Error>(res)
    }
}

impl<'env, E> Env<E>
    where E: for <'a> Fn(Request<'a>) -> Reply<'env>,
{
    /// The engine may be asked anything.
    pub open spec fn wf(&self) -> bool {
        ready(&self.engine)
    }

    /// The engine answered `a` when asked `q`.
    pub open spec fn answers(&self, q: Asked, a: Reply<'env>) -> bool {
        replied(&self.engine, q, a)
    }

    /// Hands `q` to the engine.
    pub fn ask<'a>(&self, q: Request<'a>) -> (a: Reply<'env>)
        requires
            self.wf(),
        ensures
            self.answers(q@, a),
    {
        ask(&self.engine, q)
    }

    /// Starts to set up a store that is reached through `engine`.
    pub fn builder(engine: E) -> (r: Result<EnvBuilder<E>, Error>)
        requires
            ready(&engine),
        ensures
            exists|a: Reply<'env>| #[trigger]
                replied(&engine, plain(Call::EnvCreate, 0), a) && (match env_create_outcome(
                    a.code,
                ) {
                    Ok(_) => r is Ok && r->Ok_0.engine == engine && r->Ok_0.raw_env == a.number
                        && r->Ok_0.dbs@.len() == 0,
                    Err(e) => r matches Err(Error::Lmdb(x)) && x == e,
                }),
    {
        match lmdb::env_create(&engine) {
            Ok(raw_env) => Ok(EnvBuilder { engine, raw_env, dbs: Vec::new(), errno: errno_codes() }),
            Err(e) => Err(Error::Lmdb(e)),
        }
    }

    /// The handle of the table declared under `name`. A name that was not
    /// declared has none.
    pub fn db(&self, name: &[u8]) -> (r: Option<u32>)
        ensures
            r == handle_in(self.dbs@, name@),
    {
        let mut i: usize = self.dbs.len();
        assert(self.dbs@.take(i as int) =~= self.dbs@);
        while i > 0
            invariant
                i <= self.dbs@.len(),
                handle_in(self.dbs@, name@) == handle_in(self.dbs@.take(i as int), name@),
            decreases i,
        {
            let ghost upto = self.dbs@.take(i as int);
            assert(upto.drop_last() =~= self.dbs@.take(i - 1));
            if same_bytes(self.dbs[i - 1].0.as_slice(), name) {
                return Some(self.dbs[i - 1].1);
            }
            i = i - 1;
        }
        None
    }

    /// Begins a read-only transaction.
    pub fn read_tx<'b>(&'b self) -> (r: Result<RoTxn<'b, E>, Error>)
        requires
            self.wf(),
        ensures
            exists|b: Result<usize, lmdb::Error>| #[trigger]
                began(self, true, b) && (match b {
                    Ok(raw) => r == Ok::<RoTxn<'b, E>, Error>(RoTxn { raw, env: self }),
                    Err(e) => r matches Err(Error::Lmdb(x)) && x == e,
                }),
    {
        let b = lmdb::txn_begin(&self.engine, self.raw_env, true, &self.errno);
        assert(began(self, true, b));
        match b {
            Ok(raw) => Ok(RoTxn { raw, env: self }),
            Err(e) => Err(Error::Lmdb(e)),
        }
    }

    /// Begins a read-write transaction. Nothing here keeps two of them from
    /// being open at once: that is for the caller to see to.
    pub fn write_tx<'b>(&'b self) -> (r: Result<RwTxn<'b, E>, Error>)
        requires
            self.wf(),
        ensures
            exists|b: Result<usize, lmdb::Error>| #[trigger]
                began(self, false, b) && (match b {
                    Ok(raw) => r == Ok::<RwTxn<'b, E>, Error>(RwTxn { raw, env: self }),
                    Err(e) => r matches Err(Error::Lmdb(x)) && x == e,
                }),
    {
        let b = lmdb::txn_begin(&self.engine, self.raw_env, false, &self.errno);
        assert(began(self, false, b));
        match b {
            Ok(raw) => Ok(RwTxn { raw, env: self }),
            Err(e) => Err(Error::Lmdb(e)),
        }
    }

    /// Runs `job` in a write transaction of its own and commits.
    pub fn write<'b, Res, Job>(&'b self, job: Job) -> (r: Result<Res, Error>)
        where Job: FnOnce(&RwTxn<'b, E>) -> Res,
        requires
            self.wf(),
            forall|tx: &RwTxn<'b, E>| tx.env == self ==> #[trigger] job.requires((tx,)),
        ensures
            wrote(self, job, r),
    {
        let tx = match self.write_tx() {
            Ok(tx) => tx,
            Err(e) => {
                return Err(e);
            },
        };
        let res = job(&tx);
        let ghost seen = tx;
        let c = tx.commit();
        assert(committed(&seen, c));
        match c {
            Ok(_) => Ok(res),
            Err(e) => Err(Error::Lmdb(e)),
        }
    }

    /// Runs `job` in a write transaction of its own, commits where the job
    /// succeeded and aborts where it failed. The outer result says whether
    /// the engine failed, the inner one whether the job did.
    pub fn try_write<'b, Res, Fail, Job>(&'b self, job: Job) -> (r: Result<Result<Res, Fail>, Error>)
        where Job: FnOnce(&RwTxn<'b, E>) -> Result<Res, Fail>,
        requires
            self.wf(),
            forall|tx: &RwTxn<'b, E>| tx.env == self ==> #[trigger] job.requires((tx,)),
        ensures
            tried(self, job, r),
    {
        let tx = match self.write_tx() {
            Ok(tx) => tx,
            Err(e) => {
                return Err(e);
            },
        };
        let res = job(&tx);
        let success = res.is_ok();
        tx.finish(success, res)
    }
}

/// The table `name` was opened within the transaction `txn`, to be created
/// where it does not exist yet, and `dbi` is the handle that the engine gave.
pub open spec fn table_opened<'env, E>(
    engine: &E,
    txn: usize,
    name: Seq<u8>,
    flags: DbFlagSet,
    dbi: u32,
) -> bool
    where E: for <'a> Fn(Request<'a>) -> Reply<'env>,
{
    exists|a: Reply<'env>| #[trigger]
        replied(engine, keyed(Call::DbiOpen { flags: flags.plus(DbFlags::Create) }, txn, name), a)
            && dbi == a.number as u32
}

/// The registry `dbs` holds, in the order of the declarations `decls`, each
/// declared name with the handle under which the engine opened its table
/// within the transaction `txn`.
pub open spec fn registered<'env, E>(
    engine: &E,
    txn: usize,
    decls: Seq<(Vec<u8>, DbFlagSet)>,
    dbs: Seq<(Vec<u8>, u32)>,
) -> bool
    where E: for <'a> Fn(Request<'a>) -> Reply<'env>,
{
    &&& dbs.len() == decls.len()
    &&& forall|i: int|
        #![trigger dbs[i]]
        0 <= i < decls.len() ==> dbs[i].0@ == decls[i].0@ && table_opened(
            engine,
            txn,
            decls[i].0@,
            decls[i].1,
            dbs[i].1,
        )
}

/// Building the store failed with `e` at one of its four fallible steps:
/// setting the number of tables, opening the store, beginning the
/// transaction that creates the tables, or committing it.
pub open spec fn build_failed<'env, E>(
    builder: &EnvBuilder<E>,
    path: Seq<u8>,
    e: lmdb::Error,
) -> bool
    where E: for <'a> Fn(Request<'a>) -> Reply<'env>,
{
    ||| exists|a: Reply<'env>| #[trigger]
        replied(
            &builder.engine,
            plain(Call::EnvSetMaxdbs { dbs: builder.dbs@.len() as u32 }, builder.raw_env),
            a,
        ) && env_set_outcome(a.code) == Err::<(), lmdb::Error>(e)
    ||| exists|a: Reply<'env>| #[trigger]
        replied(&builder.engine, keyed(open_call(664), builder.raw_env, path), a)
            && env_open_outcome(a.code, builder.errno) == Err::<(), lmdb::Error>(e)
    ||| exists|a: Reply<'env>| #[trigger]
        replied(&builder.engine, plain(Call::TxnBegin { read_only: false }, builder.raw_env), a)
            && txn_begin_outcome(a.code, builder.errno) == Err::<(), lmdb::Error>(e)
    ||| exists|txn: usize, a: Reply<'env>| #[trigger]
        replied(&builder.engine, plain(Call::TxnCommit, txn), a) && txn_commit_outcome(
            a.code,
            builder.errno,
        ) == Err::<(), lmdb::Error>(e)
}

/// Building the store succeeded: the store at `path` was opened, the tables
/// were opened within one transaction, and that transaction was committed.
pub open spec fn built<'env, E>(builder: &EnvBuilder<E>, path: Seq<u8>, env: &Env<E>) -> bool
    where E: for <'a> Fn(Request<'a>) -> Reply<'env>,
{
    &&& env.engine == builder.engine
    &&& env.raw_env == builder.raw_env
    &&& env.errno == builder.errno
    &&& exists|a: Reply<'env>| #[trigger]
        replied(&builder.engine, keyed(open_call(664), builder.raw_env, path), a) && a.code
            == lmdb::error::SUCCESS
    &&& exists|txn: usize, a: Reply<'env>| #[trigger]
        replied(&builder.engine, plain(Call::TxnCommit, txn), a) && a.code == lmdb::error::SUCCESS
            && registered(&builder.engine, txn, builder.dbs@, env.dbs@)
}

impl<'env, E> EnvBuilder<E>
    where E: for <'a> Fn(Request<'a>) -> Reply<'env>,
{
    /// Sets the size of the store's memory map.
    pub fn mapsize(self, size: usize) -> (r: Result<Self, Error>)
        requires
            ready(&self.engine),
        ensures
            exists|a: Reply<'env>| #[trigger]
                replied(&self.engine, plain(Call::EnvSetMapsize { size }, self.raw_env), a) && (
                match env_set_outcome(a.code) {
                    Ok(_) => r == Ok::<Self, Error>(self),
                    Err(e) => r matches Err(Error::Lmdb(x)) && x == e,
                }),
    {
        match lmdb::env_set_mapsize(&self.engine, self.raw_env, size) {
            Ok(_) => Ok(self),
            Err(e) => Err(Error::Lmdb(e)),
        }
    }

    /// Sets the number of reader slots.
    pub fn maxreaders(self, readers: u32) -> (r: Result<Self, Error>)
        requires
            ready(&self.engine),
        ensures
            exists|a: Reply<'env>| #[trigger]
                replied(&self.engine, plain(Call::EnvSetMaxreaders { readers }, self.raw_env), a)
                    && (match env_set_outcome(a.code) {
                    Ok(_) => r == Ok::<Self, Error>(self),
                    Err(e) => r matches Err(Error::Lmdb(x)) && x == e,
                }),
    {
        match lmdb::env_set_maxreaders(&self.engine, self.raw_env, readers) {
            Ok(_) => Ok(self),
            Err(e) => Err(Error::Lmdb(e)),
        }
    }

    /// Declares the table `name` with the flags of its declaration and those
    /// of its kind.
    #[must_use]
    pub fn with(self, name: &[u8], flags: DbFlagSet, kind_flags: DbFlagSet) -> (r: Self)
        ensures
            r.engine == self.engine,
            r.raw_env == self.raw_env,
            r.errno == self.errno,
            r.dbs@.len() == self.dbs@.len() + 1,
            forall|i: int| 0 <= i < self.dbs@.len() ==> r.dbs@[i] == self.dbs@[i],
            r.dbs@.last().0@ == name@,
            r.dbs@.last().1 == flags.either(kind_flags),
    {
        let mut r = self;
        r.dbs.push((slice_to_vec(name), flags.union(kind_flags)));
        r
    }

    /// Opens the store at `path`, or creates it, with every declared table
    /// in it, and gives the environment with its registry.
    pub fn build(self, path: &[u8]) -> (r: Result<Env<E>, Error>)
        requires
            ready(&self.engine),
            tables_open(&self.engine),
        ensures
            match r {
                Ok(env) => built(&self, path@, &env),
                Err(Error::Lmdb(e)) => build_failed(&self, path@, e),
                Err(Error::Rkyv(_)) => false,
            },
    {
        let maxdbs = #[verifier::truncate]
        (self.dbs.len() as u32);
        match lmdb::env_set_maxdbs(&self.engine, self.raw_env, maxdbs) {
            Ok(_) => {},
            Err(e) => {
                return Err(Error::Lmdb(e));
            },
        }
        // 664 is the mode of the store's directory
        match lmdb::env_open(&self.engine, self.raw_env, path, 664, &self.errno) {
            Ok(_) => {},
            Err(e) => {
                return Err(Error::Lmdb(e));
            },
        }
        let txn = match lmdb::txn_begin(&self.engine, self.raw_env, false, &self.errno) {
            Ok(txn) => txn,
            Err(e) => {
                return Err(Error::Lmdb(e));
            },
        };
        let mut dbs: Vec<(Vec<u8>, u32)> = Vec::new();
        let mut i: usize = 0;
        while i < self.dbs.len()
            invariant
                ready(&self.engine),
                tables_open(&self.engine),
                i <= self.dbs@.len(),
                dbs@.len() == i,
                forall|j: int|
                    #![trigger dbs@[j]]
                    0 <= j < i ==> dbs@[j].0@ == self.dbs@[j].0@ && table_opened(
                        &self.engine,
                        txn,
                        self.dbs@[j].0@,
                        self.dbs@[j].1,
                        dbs@[j].1,
                    ),
            decreases self.dbs@.len() - i,
        {
            let name = slice_to_vec(self.dbs[i].0.as_slice());
            let flags = self.dbs[i].1.with(DbFlags::Create);
            let dbi = lmdb::dbi_open(&self.engine, txn, name.as_slice(), flags);
            dbs.push((name, dbi));
            i = i + 1;
        }
        match lmdb::txn_commit(&self.engine, txn, &self.errno) {
            Ok(_) => {},
            Err(e) => {
                return Err(Error::Lmdb(e));
            },
        }
        Ok(Env { engine: self.engine, raw_env: self.raw_env, dbs, errno: self.errno })
    }
}

impl<'b, 'env, E> RwTxn<'b, E>
    where E: for <'a> Fn(Request<'a>) -> Reply<'env>,
{
    /// Ends a write transaction whose job has finished with `res`: commits
    /// after a success, aborts after a failure.
    pub fn finish<R>(self, success: bool, res: R) -> (r: Result<R, Error>)
        requires
            self.wf(),
        ensures
            settled_write(&self, success, r, res),
    {
        if success {
            let ghost seen = self;
            let c = self.commit();
            assert(committed(&seen, c));
            match c {
                Ok(_) => Ok(res),
                Err(e) => Err(Error::Lmdb(e)),
            }
        } else {
            self.abort();
            Ok(res)
        }
    }
}

} // verus!
