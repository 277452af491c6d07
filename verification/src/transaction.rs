//! Transactions: one in-flight engine transaction each, read-only or
//! read-write, ended by a commit or an abort.

use vstd::prelude::*;
use crate::env::Env;
use crate::lmdb::{Request, Reply, Asked, Call, plain, no_bytes};
use crate::lmdb::error::{Error, ErrnoCodes, txn_commit_outcome, handle_txn_commit_code};

verus! {

/// `r` is what committing the transaction came to.
pub open spec fn committed<'env, TX: Transaction<'env>>(tx: &TX, r: Result<(), Error>) -> bool {
    exists|a: Reply<'env>| #[trigger]
        tx.answers(plain(Call::TxnCommit, tx.raw_handle()), a) && r == txn_commit_outcome(a.code, tx.errno_table())
}

/// The engine was told to abort the transaction.
pub open spec fn aborted<'env, TX: Transaction<'env>>(tx: &TX) -> bool {
    exists|a: Reply<'env>| #[trigger] tx.answers(plain(Call::TxnAbort, tx.raw_handle()), a)
}

/// What read-only and read-write transactions share. The bytes that the
/// engine hands out live for `'env`.
pub trait Transaction<'env>: Sized {
    /// The engine's handle of this transaction.
    spec fn raw_handle(&self) -> usize;

    /// The engine may be asked anything.
    spec fn wf(&self) -> bool;

    /// The operating system's error numbers, as the environment read them.
    spec fn errno_table(&self) -> ErrnoCodes;

    /// The engine answered `a` when asked `q`.
    spec fn answers(&self, q: Asked, a: Reply<'env>) -> bool;

    /// The engine's handle of this transaction.
    fn raw(&self) -> (r: usize)
        ensures
            r == self.raw_handle(),
    ;

    /// The operating system's error numbers, as the environment read them.
    fn errno(&self) -> (r: ErrnoCodes)
        ensures
            r == self.errno_table(),
    ;

    /// Hands `q` to the engine.
    fn ask<'a>(&self, q: Request<'a>) -> (a: Reply<'env>)
        requires
            self.wf(),
        ensures
            self.answers(q@, a),
    ;

    /// Asks the engine to make this transaction's writes durable and visible.
    fn commit(self) -> (r: Result<(), Error>)
        requires
            self.wf(),
        ensures
            exists|a: Reply<'env>| #[trigger]
                self.answers(plain(Call::TxnCommit, self.raw_handle()), a) && r
                    == txn_commit_outcome(a.code, self.errno_table()),
    ;

    /// Asks the engine to discard this transaction's writes.
    fn abort(self)
        requires
            self.wf(),
        ensures
            exists|a: Reply<'env>| #[trigger] self.answers(plain(Call::TxnAbort, self.raw_handle()), a),
    ;
}

/// A read-only transaction.
pub struct RoTxn<'b, E> {
    pub raw: usize,
    pub env: &'b Env<E>,
}

/// A read-write transaction.
pub struct RwTxn<'b, E> {
    pub raw: usize,
    pub env: &'b Env<E>,
}

impl<'b, 'env, E> Transaction<'env> for RoTxn<'b, E>
    where E: for <'a> Fn(Request<'a>) -> Reply<'env>,
{
    open spec fn raw_handle(&self) -> usize {
        self.raw
    }

    open spec fn wf(&self) -> bool {
        self.env.wf()
    }

    open spec fn errno_table(&self) -> ErrnoCodes {
        self.env.errno
    }

    open spec fn answers(&self, q: Asked, a: Reply<'env>) -> bool {
        self.env.answers(q, a)
    }

    fn raw(&self) -> (r: usize) {
        self.raw
    }

    fn errno(&self) -> (r: ErrnoCodes) {
        self.env.errno
    }

    fn ask<'a>(&self, q: Request<'a>) -> (a: Reply<'env>) {
        self.env.ask(q)
    }

    fn commit(self) -> (r: Result<(), Error>) {
        let a = self.ask(Request { call: Call::TxnCommit, handle: self.raw, key: no_bytes(), data: no_bytes() });
        handle_txn_commit_code(a.code, &self.env.errno)
    }

    fn abort(self) {
        let _ = self.ask(Request { call: Call::TxnAbort, handle: self.raw, key: no_bytes(), data: no_bytes() });
    }
}

impl<'b, 'env, E> Transaction<'env> for RwTxn<'b, E>
    where E: for <'a> Fn(Request<'a>) -> Reply<'env>,
{
    open spec fn raw_handle(&self) -> usize {
        self.raw
    }

    open spec fn wf(&self) -> bool {
        self.env.wf()
    }

    open spec fn errno_table(&self) -> ErrnoCodes {
        self.env.errno
    }

    open spec fn answers(&self, q: Asked, a: Reply<'env>) -> bool {
        self.env.answers(q, a)
    }

    fn raw(&self) -> (r: usize) {
        self.raw
    }

    fn errno(&self) -> (r: ErrnoCodes) {
        self.env.errno
    }

    fn ask<'a>(&self, q: Request<'a>) -> (a: Reply<'env>) {
        self.env.ask(q)
    }

    fn commit(self) -> (r: Result<(), Error>) {
        let a = self.ask(Request { call: Call::TxnCommit, handle: self.raw, key: no_bytes(), data: no_bytes() });
        handle_txn_commit_code(a.code, &self.env.errno)
    }

    fn abort(self) {
        let _ = self.ask(Request { call: Call::TxnAbort, handle: self.raw, key: no_bytes(), data: no_bytes() });
    }
}

} // verus!
