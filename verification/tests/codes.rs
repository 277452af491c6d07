use batadase::env::{complain_about_lock_hold, same_bytes, LockHold};
use batadase::index::Index;
use batadase::index_table::following;
use batadase::lmdb::error::{
    handle_cursor_get_code, handle_cursor_open_code, handle_dbi_open_code, handle_del_code,
    handle_drop_code, handle_env_create_code, handle_env_open, handle_env_set_mapsize_code,
    handle_env_set_maxdbs_code, handle_env_set_maxreaders_code, handle_get_code, handle_put_code,
    handle_stat_code, handle_txn_begin_code, handle_txn_commit_code, ErrnoCodes, Error,
};
use batadase::lmdb::{DbFlagSet, DbFlags};
use batadase::{is_valid, keep_valid, settle, unrkyv_from_bytes, validated};

fn errno() -> ErrnoCodes {
    ErrnoCodes {
        no_entry: libc::ENOENT,
        no_process: libc::ESRCH,
        io: libc::EIO,
        again: libc::EAGAIN,
        no_memory: libc::ENOMEM,
        access: libc::EACCES,
        invalid: libc::EINVAL,
        no_space: libc::ENOSPC,
    }
}

fn other_numbers() -> ErrnoCodes {
    ErrnoCodes {
        no_entry: 101,
        no_process: 102,
        io: 103,
        again: 104,
        no_memory: 105,
        access: 106,
        invalid: 107,
        no_space: 108,
    }
}

#[test]
fn error_numbers_are_those_of_the_table() {
    let e = other_numbers();
    assert_eq!(handle_del_code(106, &e), Err(Error::TxnPerm));
    assert_eq!(handle_del_code(107, &e), Err(Error::InvalidParameter));
    assert_eq!(handle_put_code(106, &e), Err(Error::TxnPerm));
    assert_eq!(handle_get_code(107, &e), Err(Error::InvalidParameter));
    assert_eq!(handle_cursor_open_code(107, &e), Err(Error::InvalidParameter));
    assert_eq!(handle_stat_code(107, &e), Err(Error::InvalidParameter));
    assert_eq!(handle_txn_begin_code(105, &e), Err(Error::Oom));
    assert_eq!(handle_txn_commit_code(108, &e), Err(Error::NoDiskSpace));
    assert_eq!(handle_txn_commit_code(103, &e), Err(Error::Io));
    assert_eq!(handle_txn_commit_code(105, &e), Err(Error::Oom));
    assert_eq!(handle_env_open(101, &e), Err(Error::DirDoesntExist));
    assert_eq!(handle_env_open(102, &e), Err(Error::DirDoesntExist));
    assert_eq!(handle_env_open(106, &e), Err(Error::NoAccess));
    assert_eq!(handle_env_open(104, &e), Err(Error::EnvLocked));
    assert_eq!(handle_env_open(107, &e), Err(Error::Misc(107)));
    assert_eq!(handle_del_code(0, &e), Ok(true));
    assert_eq!(handle_del_code(-30798, &e), Ok(false));
}

#[test]
fn engine_codes_come_before_error_numbers() {
    let mut e = other_numbers();
    e.access = -30792;
    e.invalid = 0;
    assert_eq!(handle_put_code(-30792, &e), Err(Error::MapFull));
    assert_eq!(handle_put_code(0, &e), Ok(()));
    assert_eq!(handle_del_code(-30792, &e), Err(Error::TxnPerm));
}

#[test]
fn del_codes() {
    assert_eq!(handle_del_code(0, &errno()), Ok(true));
    assert_eq!(handle_del_code(-30798, &errno()), Ok(false));
    assert_eq!(handle_del_code(libc::EACCES, &errno()), Err(Error::TxnPerm));
    assert_eq!(handle_del_code(libc::EINVAL, &errno()), Err(Error::InvalidParameter));
    assert_eq!(handle_del_code(-30792, &errno()), Err(Error::Misc(-30792)));
    assert_eq!(handle_del_code(-7, &errno()), Err(Error::Misc(-7)));
}

#[test]
fn put_codes() {
    assert_eq!(handle_put_code(0, &errno()), Ok(()));
    assert_eq!(handle_put_code(-30792, &errno()), Err(Error::MapFull));
    assert_eq!(handle_put_code(-30788, &errno()), Err(Error::TxnFull));
    assert_eq!(handle_put_code(-30799, &errno()), Err(Error::KeyExists));
    assert_eq!(handle_put_code(-30781, &errno()), Err(Error::BadValSize));
    assert_eq!(handle_put_code(libc::EACCES, &errno()), Err(Error::TxnPerm));
    assert_eq!(handle_put_code(libc::EINVAL, &errno()), Err(Error::InvalidParameter));
    assert_eq!(handle_put_code(-30798, &errno()), Err(Error::Misc(-30798)));
    assert_eq!(handle_put_code(-1, &errno()), Err(Error::Misc(-1)));
}

#[test]
fn drop_codes() {
    assert_eq!(handle_drop_code(0), Ok(()));
    assert_eq!(handle_drop_code(libc::EINVAL), Err(Error::Misc(libc::EINVAL)));
    assert_eq!(handle_drop_code(-30798), Err(Error::Misc(-30798)));
}

#[test]
fn get_codes() {
    assert_eq!(handle_get_code(0, &errno()), Ok(true));
    assert_eq!(handle_get_code(-30798, &errno()), Ok(false));
    assert_eq!(handle_get_code(libc::EINVAL, &errno()), Err(Error::InvalidParameter));
    assert_eq!(handle_get_code(libc::EACCES, &errno()), Err(Error::Misc(libc::EACCES)));
}

#[test]
fn cursor_codes() {
    assert_eq!(handle_cursor_open_code(0, &errno()), Ok(()));
    assert_eq!(handle_cursor_open_code(libc::EINVAL, &errno()), Err(Error::InvalidParameter));
    assert_eq!(handle_cursor_open_code(libc::EIO, &errno()), Err(Error::Misc(libc::EIO)));
    assert!(handle_cursor_get_code(0));
    assert!(!handle_cursor_get_code(-30798));
}

#[test]
fn txn_begin_codes() {
    assert_eq!(handle_txn_begin_code(0, &errno()), Ok(()));
    assert_eq!(handle_txn_begin_code(-30795, &errno()), Err(Error::Panic));
    assert_eq!(handle_txn_begin_code(-30785, &errno()), Err(Error::MapResized));
    assert_eq!(handle_txn_begin_code(-30790, &errno()), Err(Error::ReadersFull));
    assert_eq!(handle_txn_begin_code(libc::ENOMEM, &errno()), Err(Error::Oom));
    assert_eq!(handle_txn_begin_code(libc::EINVAL, &errno()), Err(Error::Misc(libc::EINVAL)));
}

#[test]
fn txn_commit_codes() {
    assert_eq!(handle_txn_commit_code(0, &errno()), Ok(()));
    assert_eq!(handle_txn_commit_code(libc::EINVAL, &errno()), Err(Error::InvalidParameter));
    assert_eq!(handle_txn_commit_code(libc::ENOSPC, &errno()), Err(Error::NoDiskSpace));
    assert_eq!(handle_txn_commit_code(libc::EIO, &errno()), Err(Error::Io));
    assert_eq!(handle_txn_commit_code(libc::ENOMEM, &errno()), Err(Error::Oom));
    assert_eq!(handle_txn_commit_code(-30792, &errno()), Err(Error::Misc(-30792)));
}

#[test]
fn env_setup_codes() {
    assert_eq!(handle_env_create_code(0), Ok(()));
    assert_eq!(handle_env_create_code(12), Err(Error::CreateError(12)));
    assert_eq!(handle_env_set_maxdbs_code(0), Ok(()));
    assert_eq!(handle_env_set_maxdbs_code(22), Err(Error::InvalidParameter));
    assert_eq!(handle_env_set_mapsize_code(0), Ok(()));
    assert_eq!(handle_env_set_mapsize_code(1), Err(Error::InvalidParameter));
    assert_eq!(handle_env_set_maxreaders_code(0), Ok(()));
    assert_eq!(handle_env_set_maxreaders_code(-1), Err(Error::InvalidParameter));
    assert_eq!(handle_stat_code(0, &errno()), Ok(()));
    assert_eq!(handle_stat_code(libc::EINVAL, &errno()), Err(Error::InvalidParameter));
    assert_eq!(handle_stat_code(libc::ESRCH, &errno()), Err(Error::Misc(libc::ESRCH)));
    handle_dbi_open_code(0);
}

#[test]
fn env_open_codes() {
    assert_eq!(handle_env_open(0, &errno()), Ok(()));
    assert_eq!(handle_env_open(-30794, &errno()), Err(Error::VersionMismatch));
    assert_eq!(handle_env_open(-30793, &errno()), Err(Error::Corrupted));
    assert_eq!(handle_env_open(libc::ENOENT, &errno()), Err(Error::DirDoesntExist));
    assert_eq!(handle_env_open(libc::ESRCH, &errno()), Err(Error::DirDoesntExist));
    assert_eq!(handle_env_open(libc::EACCES, &errno()), Err(Error::NoAccess));
    assert_eq!(handle_env_open(libc::EAGAIN, &errno()), Err(Error::EnvLocked));
    assert_eq!(handle_env_open(libc::EINVAL, &errno()), Err(Error::Misc(libc::EINVAL)));
}

#[test]
fn identifiers_are_plain_numbers() {
    let a: Index<String> = Index::from(7u64);
    let b: Index<String> = Index::new(7);
    let c: Index<String> = Index::from(9u32);
    let d: Index<String> = Index::from(9usize);
    assert!(a == b);
    assert!(a != c);
    assert!(c == d);
    assert!(a < c);
    assert!(c > a);
    assert!(a <= b);
    assert_eq!(a.partial_cmp(&c), Some(std::cmp::Ordering::Less));
    assert_eq!(c.partial_cmp(&a), Some(std::cmp::Ordering::Greater));
    assert_eq!(a.partial_cmp(&b), Some(std::cmp::Ordering::Equal));
    assert_eq!(u64::from(a), 7);
    assert_eq!(a.value(), 7);
    assert_eq!(Index::<String>::default().value(), 0);
    let other: Index<u32> = a.into::<u32>();
    assert_eq!(other.value(), 7);
    let copy = a;
    assert!(copy == a.clone());
    assert_eq!(usize::from(a), 7);
}

#[test]
fn next_identifier() {
    assert_eq!(following(None), Some(0));
    assert_eq!(following(Some(0)), Some(1));
    assert_eq!(following(Some(41)), Some(42));
    assert_eq!(following(Some(u64::MAX - 1)), Some(u64::MAX));
    assert_eq!(following(Some(u64::MAX)), None);
}

#[test]
fn flag_sets() {
    let none = DbFlagSet::empty();
    assert!(!none.contains(DbFlags::Create));
    assert!(!none.contains(DbFlags::IntegerKey));
    let a = none.with(DbFlags::IntegerKey);
    assert!(a.contains(DbFlags::IntegerKey));
    assert!(!a.contains(DbFlags::ReverseKey));
    let b = DbFlagSet::empty().with(DbFlags::ReverseKey).with(DbFlags::DupSort);
    let u = a.union(b);
    assert!(u.contains(DbFlags::IntegerKey));
    assert!(u.contains(DbFlags::ReverseKey));
    assert!(u.contains(DbFlags::DupSort));
    assert!(!u.contains(DbFlags::Create));
    assert!(!u.contains(DbFlags::DupFixed));
    assert!(!u.contains(DbFlags::IntegerDup));
    assert!(!u.contains(DbFlags::ReverseDup));
    assert_eq!(a.with(DbFlags::IntegerKey), a);
    assert_eq!(u.union(none), u);
}

#[test]
fn lock_hold_tiers() {
    assert_eq!(complain_about_lock_hold(0), LockHold::Trace);
    assert_eq!(complain_about_lock_hold(249_999_999), LockHold::Trace);
    assert_eq!(complain_about_lock_hold(250_000_000), LockHold::Info);
    assert_eq!(complain_about_lock_hold(2_499_999_999), LockHold::Info);
    assert_eq!(complain_about_lock_hold(2_500_000_000), LockHold::Warn);
    assert_eq!(complain_about_lock_hold(9_999_999_999), LockHold::Warn);
    assert_eq!(complain_about_lock_hold(10_000_000_000), LockHold::Error);
    assert_eq!(complain_about_lock_hold(u128::MAX), LockHold::Error);
}

#[test]
fn byte_strings_compare_by_content() {
    assert!(same_bytes(b"users", b"users"));
    assert!(same_bytes(b"", b""));
    assert!(!same_bytes(b"users", b"user"));
    assert!(!same_bytes(b"users", b"usert"));
    assert!(!same_bytes(b"", b"a"));
}

#[test]
fn rows_need_valid_key_and_data() {
    assert_eq!(keep_valid(Some(3), true, true), Some(3));
    assert_eq!(keep_valid(Some(3), false, true), None);
    assert_eq!(keep_valid(Some(3), true, false), None);
    assert_eq!(keep_valid(None::<u8>, true, true), None);
}

fn stored_number(n: u32) -> rkyv::util::AlignedVec {
    rkyv::to_bytes::<rkyv::rancor::BoxedError>(&n).unwrap()
}

#[test]
fn found_bytes_are_judged_as_the_type_asked_for() {
    let good = stored_number(30);
    assert!(is_valid::<u32>(&good));
    assert!(!is_valid::<u32>(&[1, 2, 3]));
    assert!(!is_valid::<String>(&[0xff; 3]));
    assert_eq!(unrkyv_from_bytes::<u32>(&good).unwrap(), 30);
    assert!(unrkyv_from_bytes::<u32>(&[1]).is_err());
    assert!(matches!(validated::<u32>(Ok(Some(&good[..]))), Ok(Some(b)) if b == &good[..]));
    assert!(matches!(validated::<u32>(Ok(Some(&[1u8, 2, 3][..]))), Err(batadase::Error::Rkyv(_))));
    assert!(matches!(validated::<u32>(Ok(None)), Ok(None)));
    assert!(matches!(
        validated::<u32>(Err(Error::MapResized)),
        Err(batadase::Error::Lmdb(Error::MapResized))
    ));
}

#[test]
fn a_lookup_is_settled_by_the_verdict_on_its_bytes() {
    let bytes = [7u8, 7];
    let complaint = unrkyv_from_bytes::<u32>(&[1]).unwrap_err();
    assert!(matches!(settle(Ok(Some(&bytes[..])), Ok(())), Ok(Some(b)) if b == &bytes[..]));
    assert!(matches!(settle(Ok(Some(&bytes[..])), Err(complaint)), Err(batadase::Error::Rkyv(_))));
    let complaint = unrkyv_from_bytes::<u32>(&[1]).unwrap_err();
    assert!(matches!(settle(Ok(None), Err(complaint)), Ok(None)));
    assert!(matches!(settle(Err(Error::Panic), Ok(())), Err(batadase::Error::Lmdb(Error::Panic))));
}
