use std::cell::RefCell;
use std::collections::{BTreeMap, HashMap};
use std::rc::Rc;

use batadase::assoc_poly_table::AssocPolyTable;
use batadase::assoc_table::AssocTable;
use batadase::env::Env;
use batadase::error::Error;
use batadase::index::Index;
use batadase::index_poly_table::IndexPolyTable;
use batadase::index_table::IndexTable;
use batadase::lmdb::{Call, Cursor, CursorOpFlags, DbFlagSet, DbFlags, Reply, Request};
use batadase::transaction::{RoTxn, RwTxn, Transaction};
use batadase::unrkyv_from_bytes;
use batadase::Table;

const NOT_FOUND: i32 = -30798;

type Rows = BTreeMap<Vec<u8>, (Vec<u8>, Vec<u8>)>;

#[derive(Clone, Default)]
struct Tables {
    rows: Vec<Rows>,
    integer: Vec<bool>,
    names: Vec<Vec<u8>>,
}

#[derive(Default)]
struct Store {
    durable: Tables,
    txns: HashMap<usize, (bool, Tables)>,
    cursors: HashMap<usize, (usize, usize, Option<Vec<u8>>)>,
    next: usize,
    log: Vec<Call>,
    keys: Vec<Vec<u8>>,
    fail_commit: Option<i32>,
    fail_begin: Option<i32>,
}

fn keep(bytes: &[u8]) -> &'static [u8] {
    let mut v = rkyv::util::AlignedVec::<16>::new();
    v.extend_from_slice(bytes);
    Box::leak(Box::new(v)).as_slice()
}

fn sort_key(integer: bool, key: &[u8]) -> Vec<u8> {
    if integer && key.len() == 8 {
        let mut a = [0u8; 8];
        a.copy_from_slice(key);
        u64::from_ne_bytes(a).to_be_bytes().to_vec()
    } else {
        key.to_vec()
    }
}

fn reply(code: i32, number: usize, key: &'static [u8], data: &'static [u8]) -> Reply<'static> {
    Reply { code, number, key, data }
}

fn plain(code: i32, number: usize) -> Reply<'static> {
    reply(code, number, &[], &[])
}

fn row(found: Option<(&Vec<u8>, &(Vec<u8>, Vec<u8>))>) -> (Option<Vec<u8>>, Reply<'static>) {
    match found {
        Some((sk, (k, v))) => (Some(sk.clone()), reply(0, 0, keep(k), keep(v))),
        None => (None, plain(NOT_FOUND, 0)),
    }
}

impl Store {
    fn answer(&mut self, q: Request<'_>) -> Reply<'static> {
        self.log.push(q.call);
        self.keys.push(q.key.to_vec());
        match q.call {
            Call::EnvCreate => plain(0, 1),
            Call::EnvSetMapsize { .. } | Call::EnvSetMaxreaders { .. } | Call::EnvSetMaxdbs { .. } => plain(0, 0),
            Call::EnvOpen { .. } => plain(0, 0),
            Call::TxnBegin { read_only } => {
                if let Some(code) = self.fail_begin {
                    return plain(code, 0);
                }
                self.next += 1;
                self.txns.insert(self.next, (read_only, self.durable.clone()));
                plain(0, self.next)
            }
            Call::TxnCommit => {
                if let Some(code) = self.fail_commit {
                    self.txns.remove(&q.handle);
                    return plain(code, 0);
                }
                if let Some((read_only, tables)) = self.txns.remove(&q.handle) {
                    if !read_only {
                        self.durable = tables;
                    }
                }
                plain(0, 0)
            }
            Call::TxnAbort => {
                self.txns.remove(&q.handle);
                plain(0, 0)
            }
            Call::DbiOpen { flags } => {
                let tables = &mut self.txns.get_mut(&q.handle).unwrap().1;
                let at = match tables.names.iter().position(|n| n.as_slice() == q.key) {
                    Some(at) => at,
                    None => {
                        tables.names.push(q.key.to_vec());
                        tables.rows.push(Rows::new());
                        tables.integer.push(flags.integer_key);
                        tables.names.len() - 1
                    }
                };
                plain(0, at)
            }
            Call::Stat { dbi } => plain(0, self.txns[&q.handle].1.rows[dbi as usize].len()),
            Call::Get { dbi } => {
                let tables = &self.txns[&q.handle].1;
                let sk = sort_key(tables.integer[dbi as usize], q.key);
                match tables.rows[dbi as usize].get(&sk) {
                    Some((_, v)) => reply(0, 0, &[], keep(v)),
                    None => plain(NOT_FOUND, 0),
                }
            }
            Call::Put { dbi } => {
                let (read_only, tables) = self.txns.get_mut(&q.handle).unwrap();
                if *read_only {
                    return plain(libc::EACCES, 0);
                }
                let sk = sort_key(tables.integer[dbi as usize], q.key);
                tables.rows[dbi as usize].insert(sk, (q.key.to_vec(), q.data.to_vec()));
                plain(0, 0)
            }
            Call::Del { dbi } => {
                let (_, tables) = self.txns.get_mut(&q.handle).unwrap();
                let sk = sort_key(tables.integer[dbi as usize], q.key);
                match tables.rows[dbi as usize].remove(&sk) {
                    Some(_) => plain(0, 0),
                    None => plain(NOT_FOUND, 0),
                }
            }
            Call::Drop { dbi } => {
                self.txns.get_mut(&q.handle).unwrap().1.rows[dbi as usize].clear();
                plain(0, 0)
            }
            Call::CursorOpen { dbi } => {
                self.next += 1;
                self.cursors.insert(self.next, (q.handle, dbi as usize, None));
                plain(0, self.next)
            }
            Call::CursorGet { op } => {
                let (txn, dbi, at) = self.cursors[&q.handle].clone();
                let tables = &self.txns[&txn].1;
                let rows = &tables.rows[dbi];
                let (pos, answer) = match (op, at) {
                    (CursorOpFlags::First, _) | (CursorOpFlags::Next, None) => row(rows.iter().next()),
                    (CursorOpFlags::Last, _) | (CursorOpFlags::Prev, None) => row(rows.iter().next_back()),
                    (CursorOpFlags::Next, Some(at)) => {
                        let (pos, a) = row(rows.range(at.clone()..).find(|(k, _)| **k != at));
                        (pos.or(Some(at)), a)
                    }
                    (CursorOpFlags::Prev, Some(at)) => {
                        let (pos, a) = row(rows.range(..at.clone()).next_back());
                        (pos.or(Some(at)), a)
                    }
                    (CursorOpFlags::SetRange, _) => {
                        let sk = sort_key(tables.integer[dbi], q.key);
                        row(rows.range(sk..).next())
                    }
                    _ => (None, plain(libc::EINVAL, 0)),
                };
                self.cursors.get_mut(&q.handle).unwrap().2 = pos;
                answer
            }
            Call::CursorClose => {
                self.cursors.remove(&q.handle);
                plain(0, 0)
            }
        }
    }
}

fn engine(store: Rc<RefCell<Store>>) -> impl for<'a> Fn(Request<'a>) -> Reply<'static> {
    move |q| store.borrow_mut().answer(q)
}

fn integer_key() -> DbFlagSet {
    DbFlagSet::empty().with(DbFlags::IntegerKey)
}

fn open(store: &Rc<RefCell<Store>>) -> Env<impl for<'a> Fn(Request<'a>) -> Reply<'static>> {
    Env::builder(engine(store.clone()))
        .unwrap()
        .mapsize(1 << 20)
        .unwrap()
        .maxreaders(8)
        .unwrap()
        .with(b"users\0", DbFlagSet::empty(), DbFlagSet::empty())
        .with(b"posts\0", DbFlagSet::empty(), integer_key())
        .with(b"mixed\0", DbFlagSet::empty(), integer_key())
        .with(b"notes\0", DbFlagSet::empty(), DbFlagSet::empty())
        .build(b"db\0")
        .unwrap()
}

fn number(bytes: &[u8]) -> u32 {
    unrkyv_from_bytes::<u32>(bytes).unwrap()
}

fn text(bytes: &[u8]) -> String {
    unrkyv_from_bytes::<String>(bytes).unwrap()
}

fn s(x: &str) -> String {
    x.to_string()
}

#[test]
fn build_registers_declared_tables() {
    let store = Rc::new(RefCell::new(Store::default()));
    let env = open(&store);
    assert_eq!(env.errno.access, libc::EACCES);
    assert_eq!(env.errno.invalid, libc::EINVAL);
    assert_eq!(env.errno.no_memory, libc::ENOMEM);
    assert_eq!(env.errno.no_space, libc::ENOSPC);
    assert_eq!(env.errno.io, libc::EIO);
    assert_eq!(env.errno.no_entry, libc::ENOENT);
    assert_eq!(env.errno.no_process, libc::ESRCH);
    assert_eq!(env.errno.again, libc::EAGAIN);
    assert_eq!(env.db(b"users\0"), Some(0));
    assert_eq!(env.db(b"posts\0"), Some(1));
    assert_eq!(env.db(b"mixed\0"), Some(2));
    assert_eq!(env.db(b"notes\0"), Some(3));
    assert_eq!(env.db(b"nobody\0"), None);
    assert_eq!(env.db(b"users"), None);
    let log = store.borrow().log.clone();
    assert_eq!(log[0], Call::EnvCreate);
    assert_eq!(log[1], Call::EnvSetMapsize { size: 1 << 20 });
    assert_eq!(log[2], Call::EnvSetMaxreaders { readers: 8 });
    assert_eq!(log[3], Call::EnvSetMaxdbs { dbs: 4 });
    assert_eq!(log[4], Call::EnvOpen { no_meta_sync: true, no_tls: true, no_read_ahead: true, mode: 664 });
    assert_eq!(store.borrow().keys[4], b"db\0".to_vec());
    assert_eq!(log[5], Call::TxnBegin { read_only: false });
    assert_eq!(log[6], Call::DbiOpen { flags: DbFlagSet::empty().with(DbFlags::Create) });
    assert_eq!(log[7], Call::DbiOpen { flags: integer_key().with(DbFlags::Create) });
    assert_eq!(log[10], Call::TxnCommit);
    assert_eq!(log.len(), 11);
}

#[test]
fn later_declaration_of_a_name_wins() {
    let store = Rc::new(RefCell::new(Store::default()));
    let mut env = open(&store);
    env.dbs.push((b"users\0".to_vec(), 9));
    assert_eq!(env.db(b"users\0"), Some(9));
    assert_eq!(env.db(b"posts\0"), Some(1));
}

#[test]
fn users_and_posts() {
    let store = Rc::new(RefCell::new(Store::default()));
    let env = open(&store);
    let tx = env.write_tx().unwrap();
    let users: AssocTable<RwTxn<_>, String, u32> = AssocTable::build(&tx, env.db(b"users\0").unwrap());
    users.put(&s("alice"), &30).unwrap();
    assert_eq!(users.get(&s("alice")).unwrap().map(number), Some(30));
    assert_eq!(users.get_unrkyv(&s("alice")).unwrap(), Some(30));
    assert!(users.get(&s("bob")).unwrap().is_none());
    assert_eq!(users.get_unrkyv(&s("bob")).unwrap(), None);

    let posts: IndexTable<RwTxn<_>, String> = IndexTable::build(&tx, env.db(b"posts\0").unwrap());
    let a = posts.put_last(&s("first post")).unwrap();
    let b = posts.put_last(&s("second post")).unwrap();
    assert_eq!(a.value(), 0);
    assert_eq!(b.value(), 1);
    let mut walk = posts.iter().unwrap();
    let mut seen = Vec::new();
    while let Some((id, bytes)) = walk.next() {
        seen.push((id.value(), text(bytes)));
    }
    walk.close();
    assert_eq!(seen, vec![(0, s("first post")), (1, s("second post"))]);
    assert_eq!(posts.entries().unwrap(), 2);
    assert_eq!(users.entries().unwrap(), 1);
    tx.commit().unwrap();
}

#[test]
fn get_of_a_key_never_put_is_none() {
    let store = Rc::new(RefCell::new(Store::default()));
    let env = open(&store);
    let tx = env.read_tx().unwrap();
    let users: AssocTable<RoTxn<_>, String, u32> = AssocTable::build(&tx, 0);
    assert!(users.get(&s("carol")).unwrap().is_none());
    let posts: IndexTable<RoTxn<_>, String> = IndexTable::build(&tx, 1);
    assert!(posts.get(Index::new(0)).unwrap().is_none());
    assert!(posts.last().unwrap().is_none());
    assert!(users.last().unwrap().is_none());
    tx.abort();
}

#[test]
fn put_replaces_and_get_sees_the_new_value() {
    let store = Rc::new(RefCell::new(Store::default()));
    let env = open(&store);
    let tx = env.write_tx().unwrap();
    let posts: IndexTable<RwTxn<_>, u32> = IndexTable::build(&tx, 1);
    posts.put(Index::new(5), &10).unwrap();
    assert_eq!(posts.get(Index::new(5)).unwrap().map(number), Some(10));
    posts.put(Index::new(5), &11).unwrap();
    assert_eq!(posts.get(Index::new(5)).unwrap().map(number), Some(11));
    assert!(posts.get(Index::new(4)).unwrap().is_none());
    assert_eq!(posts.entries().unwrap(), 1);
    tx.abort();
}

#[test]
fn identifiers_are_keyed_by_their_native_bytes() {
    let store = Rc::new(RefCell::new(Store::default()));
    let env = open(&store);
    let tx = env.write_tx().unwrap();
    let posts: IndexTable<RwTxn<_>, u32> = IndexTable::build(&tx, 1);
    posts.put_bytes(Index::new(0x0102030405060708), b"x").unwrap();
    let key = store.borrow().keys.last().unwrap().clone();
    assert_eq!(key, 0x0102030405060708u64.to_ne_bytes().to_vec());
    assert_eq!(*store.borrow().log.last().unwrap(), Call::Put { dbi: 1 });
    let mut cursor = Cursor::open(&tx, 1).unwrap();
    let (id, data) = cursor.get_with_u64_key(CursorOpFlags::First).unwrap();
    assert_eq!(id, 0x0102030405060708);
    assert_eq!(data, b"x");
    cursor.close();
    tx.abort();
}

#[test]
fn delete_tells_whether_a_row_was_there() {
    let store = Rc::new(RefCell::new(Store::default()));
    let env = open(&store);
    let tx = env.write_tx().unwrap();
    let users: AssocTable<RwTxn<_>, String, u32> = AssocTable::build(&tx, 0);
    assert_eq!(users.delete(&s("alice")).unwrap(), false);
    users.put(&s("alice"), &30).unwrap();
    assert_eq!(users.delete(&s("alice")).unwrap(), true);
    assert_eq!(users.delete(&s("alice")).unwrap(), false);
    assert!(users.get(&s("alice")).unwrap().is_none());

    let posts: IndexTable<RwTxn<_>, u32> = IndexTable::build(&tx, 1);
    let id = posts.put_last(&1).unwrap();
    assert_eq!(posts.delete_index(id).unwrap(), true);
    assert_eq!(posts.delete_index(id).unwrap(), false);
    tx.abort();
}

#[test]
fn put_last_counts_up_from_zero() {
    let store = Rc::new(RefCell::new(Store::default()));
    let env = open(&store);
    let tx = env.write_tx().unwrap();
    let posts: IndexTable<RwTxn<_>, u32> = IndexTable::build(&tx, 1);
    for n in 0..300u64 {
        assert_eq!(posts.put_last(&7).unwrap().value(), n);
    }
    let (last, _) = posts.last().unwrap().unwrap();
    assert_eq!(last.value(), 299);
    tx.abort();
}

#[test]
fn put_last_follows_the_greatest_identifier() {
    let store = Rc::new(RefCell::new(Store::default()));
    let env = open(&store);
    let tx = env.write_tx().unwrap();
    let posts: IndexTable<RwTxn<_>, u32> = IndexTable::build(&tx, 1);
    posts.put(Index::new(41), &1).unwrap();
    posts.put(Index::new(7), &2).unwrap();
    assert_eq!(posts.put_last(&3).unwrap().value(), 42);
    posts.clear().unwrap();
    assert_eq!(posts.put_last(&4).unwrap().value(), 0);
    tx.abort();
}

#[test]
fn put_last_on_a_full_identifier_space_fails() {
    let store = Rc::new(RefCell::new(Store::default()));
    let env = open(&store);
    let tx = env.write_tx().unwrap();
    let posts: IndexTable<RwTxn<_>, u32> = IndexTable::build(&tx, 1);
    posts.put(Index::new(u64::MAX), &1).unwrap();
    assert!(matches!(posts.put_last(&2), Err(Error::Lmdb(batadase::lmdb::Error::MapFull))));
    let mixed = IndexPolyTable::build(&tx, 2);
    mixed.put(Index::<u32>::new(u64::MAX), &1u32).unwrap();
    assert!(matches!(mixed.put_last(&s("x")), Err(Error::Lmdb(batadase::lmdb::Error::MapFull))));
    tx.abort();
}

fn filled<'a, E>(tx: &'a RwTxn<'a, E>) -> AssocTable<'a, RwTxn<'a, E>, String, u32>
where
    E: for<'b> Fn(Request<'b>) -> Reply<'static>,
{
    let users: AssocTable<RwTxn<E>, String, u32> = AssocTable::build(tx, 0);
    for (name, age) in [("dave", 4), ("alice", 1), ("carol", 3), ("bob", 2)] {
        users.put(&s(name), &age).unwrap();
    }
    users
}

fn ages<'tx, TX: Transaction<'static>>(
    mut walk: batadase::assoc_table::AssocCursor<'tx, TX, String, u32>,
) -> Vec<(String, u32)> {
    let mut seen = Vec::new();
    while let Some((k, v)) = walk.next() {
        seen.push((text(k), number(v)));
    }
    walk.close();
    seen
}

#[test]
fn iteration_follows_the_encoded_keys() {
    let store = Rc::new(RefCell::new(Store::default()));
    let env = open(&store);
    let tx = env.write_tx().unwrap();
    let users = filled(&tx);
    let forward = ages(users.iter().unwrap());
    assert_eq!(forward.len(), 4);
    let mut encoded: Vec<Vec<u8>> = Vec::new();
    let mut walk = users.iter().unwrap();
    while let Some((k, _)) = walk.next() {
        encoded.push(k.to_vec());
    }
    walk.close();
    let mut sorted = encoded.clone();
    sorted.sort();
    assert_eq!(encoded, sorted);
    let mut backward = ages(users.iter_rev().unwrap());
    backward.reverse();
    assert_eq!(backward, forward);
    let (k, v) = users.last().unwrap().unwrap();
    assert_eq!((text(k), number(v)), forward[3].clone());
    tx.abort();
}

#[test]
fn iteration_from_a_key_starts_at_the_first_key_not_below_it() {
    let store = Rc::new(RefCell::new(Store::default()));
    let env = open(&store);
    let tx = env.write_tx().unwrap();
    let users = filled(&tx);
    let forward = ages(users.iter().unwrap());
    for (at, (name, _)) in forward.iter().enumerate() {
        let from = ages(users.iter_from(name).unwrap());
        assert_eq!(from, forward[at..].to_vec());
        let mut below = ages(users.iter_rev_from(name).unwrap());
        below.reverse();
        assert_eq!(below, forward[..at].to_vec());
    }
    tx.abort();
}

#[test]
fn iteration_over_integer_keys_is_numeric() {
    let store = Rc::new(RefCell::new(Store::default()));
    let env = open(&store);
    let tx = env.write_tx().unwrap();
    let posts: IndexTable<RwTxn<_>, u32> = IndexTable::build(&tx, 1);
    for id in [300u64, 2, 70000, 1] {
        posts.put(Index::new(id), &(id as u32)).unwrap();
    }
    let mut walk = posts.iter().unwrap();
    let mut seen = Vec::new();
    while let Some((id, v)) = walk.next() {
        seen.push((id.value(), number(v)));
    }
    walk.close();
    assert_eq!(seen, vec![(1, 1), (2, 2), (300, 300), (70000, 70000)]);
    tx.abort();
}

#[test]
fn a_corrupt_row_ends_the_walk_and_fails_a_get() {
    let store = Rc::new(RefCell::new(Store::default()));
    let env = open(&store);
    let tx = env.write_tx().unwrap();
    let posts: IndexTable<RwTxn<_>, String> = IndexTable::build(&tx, 1);
    posts.put(Index::new(0), &s("fine")).unwrap();
    posts.put_bytes(Index::new(1), &[0xff, 0xff, 0xff]).unwrap();
    posts.put(Index::new(2), &s("unreached")).unwrap();
    let mut walk = posts.iter().unwrap();
    assert_eq!(walk.next().map(|(id, v)| (id.value(), text(v))), Some((0, s("fine"))));
    assert!(walk.next().is_none());
    walk.close();
    assert!(matches!(posts.get(Index::new(1)), Err(Error::Rkyv(_))));
    assert!(posts.get(Index::new(2)).unwrap().is_some());
    tx.abort();
}

#[test]
fn polymorphic_tables_take_the_type_at_each_call() {
    let store = Rc::new(RefCell::new(Store::default()));
    let env = open(&store);
    let tx = env.write_tx().unwrap();
    let mixed = IndexPolyTable::build(&tx, 2);
    let a: Index<u32> = mixed.put_last(&5u32).unwrap();
    let b: Index<String> = mixed.put_last(&s("five")).unwrap();
    assert_eq!((a.value(), b.value()), (0, 1));
    assert_eq!(mixed.get::<u32>(a).unwrap().map(number), Some(5));
    assert_eq!(mixed.get::<String>(b).unwrap().map(text), Some(s("five")));
    mixed.put(Index::<u32>::new(9), &6u32).unwrap();
    assert_eq!(mixed.put_last(&7u32).unwrap().value(), 10);
    assert_eq!(mixed.delete_index(a).unwrap(), true);
    assert_eq!(mixed.delete_index(a).unwrap(), false);
    assert_eq!(mixed.entries().unwrap(), 3);
    mixed.clear().unwrap();
    assert_eq!(mixed.entries().unwrap(), 0);

    let notes: AssocPolyTable<RwTxn<_>, String> = AssocPolyTable::build(&tx, 3);
    notes.put(&s("n"), &1u32).unwrap();
    notes.put(&s("t"), &s("text")).unwrap();
    assert_eq!(notes.get::<u32>(&s("n")).unwrap().map(number), Some(1));
    assert_eq!(notes.get_unrkyv::<String>(&s("t")).unwrap(), Some(s("text")));
    assert_eq!(notes.get_unrkyv::<u32>(&s("absent")).unwrap(), None);
    assert_eq!(notes.delete(&s("n")).unwrap(), true);
    assert_eq!(notes.delete(&s("n")).unwrap(), false);
    notes.clear().unwrap();
    assert!(notes.get::<String>(&s("t")).unwrap().is_none());
    tx.abort();
}

#[test]
fn commit_shows_and_abort_hides() {
    let store = Rc::new(RefCell::new(Store::default()));
    let env = open(&store);
    let tx = env.write_tx().unwrap();
    let users: AssocTable<RwTxn<_>, String, u32> = AssocTable::build(&tx, 0);
    users.put(&s("kept"), &1).unwrap();
    tx.commit().unwrap();

    let tx = env.write_tx().unwrap();
    let users: AssocTable<RwTxn<_>, String, u32> = AssocTable::build(&tx, 0);
    users.put(&s("dropped"), &2).unwrap();
    tx.abort();

    let tx = env.read_tx().unwrap();
    let users: AssocTable<RoTxn<_>, String, u32> = AssocTable::build(&tx, 0);
    assert_eq!(users.get_unrkyv(&s("kept")).unwrap(), Some(1));
    assert_eq!(users.get_unrkyv(&s("dropped")).unwrap(), None);
    tx.commit().unwrap();
}

#[test]
fn a_failed_job_leaves_nothing_behind() {
    let store = Rc::new(RefCell::new(Store::default()));
    let env = open(&store);
    let first = env.try_write(|tx| {
        let users: AssocTable<RwTxn<_>, String, u32> = AssocTable::build(tx, 0);
        users.put(&s("X"), &1).unwrap();
        Ok::<u32, String>(1)
    });
    assert!(matches!(first, Ok(Ok(1))));
    let second = env.try_write(|tx| {
        let users: AssocTable<RwTxn<_>, String, u32> = AssocTable::build(tx, 0);
        users.put(&s("Y"), &2).unwrap();
        Err::<u32, String>(s("no"))
    });
    assert!(matches!(second, Ok(Err(ref e)) if e == "no"));
    assert_eq!(*store.borrow().log.last().unwrap(), Call::TxnAbort);
    let commits = store.borrow().log.iter().filter(|c| **c == Call::TxnCommit).count();
    assert_eq!(commits, 2);

    let seen = env.write(|tx| {
        let users: AssocTable<RwTxn<_>, String, u32> = AssocTable::build(tx, 0);
        (users.get_unrkyv(&s("X")).unwrap(), users.get_unrkyv(&s("Y")).unwrap())
    });
    assert!(matches!(seen, Ok((Some(1), None))));
    assert_eq!(*store.borrow().log.last().unwrap(), Call::TxnCommit);
    assert!(store.borrow().txns.is_empty());
}

#[test]
fn engine_failures_come_back_as_outer_errors() {
    let store = Rc::new(RefCell::new(Store::default()));
    let env = open(&store);
    store.borrow_mut().fail_commit = Some(libc::ENOSPC);
    let r = env.write(|_| 5);
    assert!(matches!(r, Err(Error::Lmdb(batadase::lmdb::Error::NoDiskSpace))));
    let r = env.try_write(|_| Ok::<u32, u32>(5));
    assert!(matches!(r, Err(Error::Lmdb(batadase::lmdb::Error::NoDiskSpace))));
    let r = env.try_write(|_| Err::<u32, u32>(6));
    assert!(matches!(r, Ok(Err(6))));
    store.borrow_mut().fail_begin = Some(-30790);
    let before = store.borrow().log.len();
    let r = env.write(|_| 5);
    assert!(matches!(r, Err(Error::Lmdb(batadase::lmdb::Error::ReadersFull))));
    assert_eq!(store.borrow().log.len(), before + 1);
    assert!(matches!(env.read_tx(), Err(Error::Lmdb(batadase::lmdb::Error::ReadersFull))));
}

#[test]
fn a_read_only_transaction_cannot_put_in_the_engine() {
    let store = Rc::new(RefCell::new(Store::default()));
    let env = open(&store);
    let ro = env.read_tx().unwrap();
    let as_rw = RwTxn { raw: ro.raw, env: &env };
    let r = batadase::lmdb::put(&as_rw, 0, b"k", b"v");
    assert_eq!(r, Err(batadase::lmdb::Error::TxnPerm));
    ro.abort();
}

fn kind<TX: Transaction<'static>, T: Table<'static, TX>>(_table: &T) -> DbFlagSet {
    T::flags()
}

#[test]
fn tables_know_their_handle_transaction_and_kind() {
    let store = Rc::new(RefCell::new(Store::default()));
    let env = open(&store);
    let tx = env.read_tx().unwrap();
    let users: AssocTable<RoTxn<_>, String, u32> = AssocTable::build(&tx, 0);
    let posts: IndexTable<RoTxn<_>, u32> = IndexTable::build(&tx, 1);
    let mixed = IndexPolyTable::build(&tx, 2);
    let notes: AssocPolyTable<RoTxn<_>, String> = AssocPolyTable::build(&tx, 3);
    assert_eq!((users.dbi(), posts.dbi(), mixed.dbi(), notes.dbi()), (0, 1, 2, 3));
    assert_eq!(users.txn().raw(), tx.raw());
    assert_eq!(posts.txn().raw(), tx.raw);
    assert_eq!(kind(&users), DbFlagSet::empty());
    assert_eq!(kind(&posts), integer_key());
    assert_eq!(kind(&mixed), integer_key());
    assert_eq!(kind(&notes), DbFlagSet::empty());
    assert_eq!(notes.entries().unwrap(), 0);
    tx.abort();
}

#[test]
fn a_walk_from_a_key_past_the_end_starts_over() {
    let store = Rc::new(RefCell::new(Store::default()));
    let env = open(&store);
    let tx = env.write_tx().unwrap();
    let users = filled(&tx);
    let forward = ages(users.iter().unwrap());
    let mut walk = users.iter_from_bytes(&[0xff; 40]).unwrap();
    assert!(walk.first.is_none());
    let first = walk.next().map(|(k, v)| (text(k), number(v)));
    assert_eq!(first, Some(forward[0].clone()));
    walk.close();
    tx.abort();
}
