//! The `sled` database as the library sees it: a map from byte keys to byte values.
//!
//! A `sled::Db` is a shared handle. The model holds while the tracker's handle is
//! the only one used to change the database: the library keeps it private, never
//! clones or lends it, and sled locks the database files against other processes.
//! Every item in this file is trusted: its contract is taken from sled's
//! documentation and source (version 0.34), not proved.

use vstd::prelude::*;

verus! {

/// `sled::Db`, an opaque handle to an open database.
#[verifier::external_type_specification]
#[verifier::external_body]
pub struct ExDb(sled::Db);

/// `sled::Error`, carried as an opaque value.
#[verifier::external_type_specification]
#[verifier::external_body]
pub struct ExSledError(sled::Error);

/// The key/value pairs of the default tree of the database behind `db`.
pub uninterp spec fn db_contents(db: sled::Db) -> Map<Seq<u8>, Seq<u8>>;

/// The path the database behind `db` was opened at.
pub uninterp spec fn db_path(db: sled::Db) -> Seq<char>;

/// The key/value pairs of the default tree that a crash would leave on disk:
/// what the last successful flush wrote.
pub uninterp spec fn db_durable(db: sled::Db) -> Map<Seq<u8>, Seq<u8>>;

/// Calls `sled::open`, which opens (creating it if needed) the database stored
/// at `path`; on success the database is the one at `path`, and what it holds is
/// what sled recovered from disk, so a crash right then would leave the same
/// contents. Nothing is stated of what the disk held, nor of when it fails.
#[verifier::external_body]
pub(crate) fn open_db(path: &String) -> (r: Result<sled::Db, sled::Error>)
    ensures
        r matches Ok(db) ==> db_path(db) == path@,
        r matches Ok(db) ==> db_durable(db) == db_contents(db),
{
    sled::open(path)
}

/// Calls `Tree::get` on the default tree: `Ok(Some(v))` when `key` is present with
/// value `v`, `Ok(None)` when it is absent. An I/O or corruption error may come
/// instead; nothing is stated of when.
#[verifier::external_body]
pub(crate) fn db_get(db: &sled::Db, key: &[u8]) -> (r: Result<Option<Vec<u8>>, sled::Error>)
    ensures
        r matches Ok(found) ==> (found is Some <==> db_contents(*db).contains_key(key@)),
        r matches Ok(Some(v)) ==> v@ == db_contents(*db)[key@],
{
    db.get(key).map(|found| found.map(|v| v.to_vec()))
}

/// Calls `Tree::insert` on the default tree. On `Ok`, `key` now maps to `value`,
/// every other key is as it was, and the value `key` had before (if any) is
/// returned. The database stays the one at the same path. On an error nothing is
/// stated of the contents; what is durable is not stated either way.
#[verifier::external_body]
pub(crate) fn db_insert(db: &mut sled::Db, key: &[u8], value: &[u8]) -> (r: Result<
    Option<Vec<u8>>,
    sled::Error,
>)
    ensures
        db_path(*final(db)) == db_path(*old(db)),
        r is Ok ==> db_contents(*final(db)) == db_contents(*old(db)).insert(key@, value@),
        r matches Ok(prev) ==> (prev is Some <==> db_contents(*old(db)).contains_key(key@)),
        r matches Ok(Some(v)) ==> v@ == db_contents(*old(db))[key@],
{
    db.insert(key, value).map(|prev| prev.map(|v| v.to_vec()))
}

/// Calls `Tree::flush`, which writes dirty buffers to disk and syncs them. It does
/// not change the contents or the path; when it succeeds, all previous writes survive
/// a crash, so what is durable is the contents. It may fail with an I/O error, and
/// nothing is stated of when, nor of what is durable then.
#[verifier::external_body]
pub(crate) fn db_flush(db: &mut sled::Db) -> (r: Result<usize, sled::Error>)
    ensures
        db_contents(*final(db)) == db_contents(*old(db)),
        db_path(*final(db)) == db_path(*old(db)),
        r is Ok ==> db_durable(*final(db)) == db_contents(*final(db)),
{
    db.flush()
}

} // verus!
