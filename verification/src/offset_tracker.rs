//! Persisting the consumer's position in the stream under a fixed key.

use vstd::prelude::*;
use vstd::utf8::encode_utf8;

use crate::codec::{be_bytes, decode_offset, decoded, encode_offset, lemma_decode_encode};
use crate::error::AppError;
use crate::store::{db_contents, db_durable, db_flush, db_get, db_insert, db_path, open_db};

verus! {

/// What a read reports for the value stored under the tracker's key.
pub open spec fn read_result(stored: Option<Seq<u8>>) -> Option<Option<u64>> {
    match stored {
        None => Some(None),
        Some(b) => match decoded(b) {
            Some(offset) => Some(Some(offset)),
            None => None,
        },
    }
}

/// The message of the error for a stored value that is not an offset.
pub open spec fn invalid_format_message() -> Seq<char> {
    "Invalid offset format in sled db"@
}

/// The outcome of a database update as the tracker reports it: success, or the
/// database's error.
pub fn sled_outcome<T>(done: Result<T, sled::Error>) -> (r: Result<(), AppError>)
    ensures
        done is Ok ==> r is Ok,
        done matches Err(e) ==> r == Err::<(), AppError>(AppError::Sled(e)),
{
    match done {
        Ok(_) => Ok(()),
        Err(e) => Err(AppError::Sled(e)),
    }
}

/// Keeps the last processed offset of a stream in a `sled` database,
/// under the key `name`.
pub struct OffsetTracker {
    name: String,
    db: sled::Db,
}

impl OffsetTracker {
    /// The key the offset is stored under: the UTF-8 bytes of the name.
    pub closed spec fn key(&self) -> Seq<u8> {
        encode_utf8(self.name@)
    }

    /// The name the tracker stores its offset under.
    pub closed spec fn name(&self) -> Seq<char> {
        self.name@
    }

    /// Everything in the tracker's database.
    pub closed spec fn contents(&self) -> Map<Seq<u8>, Seq<u8>> {
        db_contents(self.db)
    }

    /// The path of the tracker's database.
    pub closed spec fn path(&self) -> Seq<char> {
        db_path(self.db)
    }

    /// What a crash would leave of the tracker's database.
    pub closed spec fn durable(&self) -> Map<Seq<u8>, Seq<u8>> {
        db_durable(self.db)
    }

    /// The value stored under the tracker's key, if any.
    pub open spec fn stored(&self) -> Option<Seq<u8>> {
        self.contents().get(self.key())
    }

    /// Nothing is stored under the tracker's key, or an encoded offset is.
    pub open spec fn holds_offset(&self) -> bool {
        match self.stored() {
            None => true,
            Some(b) => b.len() == 8,
        }
    }

    /// The key is the UTF-8 encoding of the name.
    pub proof fn lemma_key_is_name_bytes(&self)
        ensures
            self.key() == encode_utf8(self.name()),
    {
    }

    /// A tracker for the offset stored under `name`, given the outcome of opening
    /// its database: the opened database is kept, an error is passed on.
    pub fn from_opened(name: String, opened: Result<sled::Db, sled::Error>) -> (r: Result<
        Self,
        AppError,
    >)
        ensures
            opened matches Ok(db) ==> (r matches Ok(t) && t.name() == name@ && t.contents()
                == db_contents(db) && t.path() == db_path(db) && t.durable() == db_durable(db)),
            opened matches Err(e) ==> r matches Err(AppError::Sled(f)) && f == e,
    {
        match opened {
            Ok(db) => Ok(OffsetTracker { name, db }),
            Err(e) => Err(AppError::Sled(e)),
        }
    }

    /// Opens (or creates) the database at `path` and tracks the offset stored in it
    /// under `name`. Opening writes nothing: the tracker holds exactly what is on disk.
    pub fn new(name: String, path: &String) -> (r: Result<Self, AppError>)
        ensures
            r matches Ok(t) ==> t.name() == name@ && t.path() == path@,
            r matches Ok(t) ==> t.contents() == t.durable(),
            r matches Err(e) ==> e is Sled,
    {
        Self::from_opened(name, open_db(path))
    }

    /// Turns the outcome of looking up the tracker's key into the offset read:
    /// nothing stored gives `Ok(None)`, eight bytes give the offset they encode,
    /// any other value gives a `Local` error, and a database error is passed on.
    pub fn read_outcome(found: Result<Option<Vec<u8>>, sled::Error>) -> (r: Result<
        Option<u64>,
        AppError,
    >)
        ensures
            found matches Ok(None) ==> r == Ok::<Option<u64>, AppError>(None),
            found matches Ok(Some(b)) ==> (match decoded(b@) {
                Some(offset) => r == Ok::<Option<u64>, AppError>(Some(offset)),
                None => r matches Err(AppError::Local(m)) && m@ == invalid_format_message(),
            }),
            found matches Err(e) ==> r == Err::<Option<u64>, AppError>(AppError::Sled(e)),
    {
        match found {
            Ok(None) => Ok(None),
            Ok(Some(bytes)) => match decode_offset(bytes.as_slice()) {
                Some(offset) => Ok(Some(offset)),
                None => Err(AppError::Local(String::from_str("Invalid offset format in sled db"))),
            },
            Err(e) => Err(AppError::Sled(e)),
        }
    }

    /// Reads the stored offset: `Ok(None)` when none is stored, `Ok(Some(o))` when the
    /// stored value is the encoding of `o`, a `Local` error when the stored value is
    /// not eight bytes long; the database may also fail.
    pub fn read(&self) -> (r: Result<Option<u64>, AppError>)
        ensures
            r matches Ok(v) ==> read_result(self.stored()) == Some(v),
            r matches Err(AppError::Local(m)) ==> read_result(self.stored()) is None
                && m@ == invalid_format_message(),
            r matches Err(e) ==> e is Local || e is Sled,
    {
        let found = db_get(&self.db, self.name.as_str().as_bytes());
        Self::read_outcome(found)
    }

    /// Stores `offset` under the tracker's key, without flushing.
    pub fn store(&mut self, offset: u64) -> (r: Result<(), AppError>)
        ensures
            final(self).name() == old(self).name(),
            final(self).path() == old(self).path(),
            r is Ok ==> final(self).stored() == Some(be_bytes(offset)),
            r is Ok ==> final(self).holds_offset(),
            r is Ok ==> final(self).contents() == old(self).contents().insert(
                old(self).key(),
                be_bytes(offset),
            ),
            r matches Err(e) ==> e is Sled,
    {
        let bytes = encode_offset(offset);
        sled_outcome(db_insert(&mut self.db, self.name.as_str().as_bytes(), bytes.as_slice()))
    }

    /// Stores `offset` under the tracker's key and flushes the database to disk.
    /// On success the stored value is the encoding of `offset`, no other key changed,
    /// and a crash would leave exactly these contents. On an error, which is the
    /// database's, nothing is stated of what it holds.
    pub fn write(&mut self, offset: u64) -> (r: Result<(), AppError>)
        ensures
            final(self).name() == old(self).name(),
            final(self).path() == old(self).path(),
            r is Ok ==> final(self).durable() == final(self).contents(),
            r is Ok ==> final(self).stored() == Some(be_bytes(offset)),
            r is Ok ==> final(self).holds_offset(),
            r is Ok ==> final(self).contents() == old(self).contents().insert(
                old(self).key(),
                be_bytes(offset),
            ),
            r is Ok ==> read_result(final(self).stored()) == Some(Some(offset)),
            r matches Err(e) ==> e is Sled,
    {
        match self.store(offset) {
            Ok(()) => {},
            Err(e) => return Err(e),
        }
        proof {
            lemma_decode_encode(offset);
        }
        sled_outcome(db_flush(&mut self.db))
    }
}

/// The contents after storing `offsets`, in order, under `key`, starting from `m`.
pub open spec fn after_stores(m: Map<Seq<u8>, Seq<u8>>, key: Seq<u8>, offsets: Seq<u64>) -> Map<
    Seq<u8>,
    Seq<u8>,
>
    decreases offsets.len(),
{
    if offsets.len() == 0 {
        m
    } else {
        after_stores(m, key, offsets.drop_last()).insert(key, be_bytes(offsets.last()))
    }
}

/// Storing a sequence of offsets one after the other leaves the last one under the
/// key and every other key as it was.
pub proof fn lemma_last_store_wins(m: Map<Seq<u8>, Seq<u8>>, key: Seq<u8>, offsets: Seq<u64>)
    requires
        offsets.len() > 0,
    ensures
        after_stores(m, key, offsets) == m.insert(key, be_bytes(offsets.last())),
    decreases offsets.len(),
{
    if offsets.len() > 1 {
        lemma_last_store_wins(m, key, offsets.drop_last());
        assert(after_stores(m, key, offsets) =~= m.insert(key, be_bytes(offsets.last())));
    } else {
        assert(after_stores(m, key, offsets.drop_last()) == m);
    }
}

/// A run of successful `store` or `write` calls (tracker `ts[i]` storing `offsets[i]`
/// gives `ts[i + 1]`, as their contracts state) leaves the contents that storing
/// the offsets in order gives: the last offset under the key, every other key unchanged.
pub proof fn lemma_store_run(ts: Seq<OffsetTracker>, offsets: Seq<u64>)
    requires
        ts.len() == offsets.len() + 1,
        forall|i: int|
            0 <= i < offsets.len() ==> (#[trigger] ts[i + 1]).name() == ts[i].name()
                && ts[i + 1].contents() == ts[i].contents().insert(ts[i].key(), be_bytes(offsets[i])),
    ensures
        ts.last().name() == ts[0].name(),
        ts.last().contents() == after_stores(ts[0].contents(), ts[0].key(), offsets),
        offsets.len() > 0 ==> ts.last().stored() == Some(be_bytes(offsets.last())),
    decreases offsets.len(),
{
    if offsets.len() > 0 {
        let n = offsets.len() - 1;
        lemma_store_run(ts.drop_last(), offsets.drop_last());
        assert(ts.drop_last().last() == ts[n]);
        assert(ts[n + 1].name() == ts[n].name());
        assert(ts[n].key() == ts[0].key()) by {
            assert(ts[n].name() == ts[0].name());
        }
        lemma_last_store_wins(ts[0].contents(), ts[0].key(), offsets);
        assert(ts.last().key() == ts[0].key());
    }
}

/// Resuming: on a tracker that holds what is on disk (as `new` leaves it), a
/// successful read gives the offset the last flushed write stored under the key,
/// and `None` when nothing durable is stored there.
pub proof fn lemma_resume_reads_durable(t: OffsetTracker, v: Option<u64>)
    requires
        t.contents() == t.durable(),
        read_result(t.stored()) == Some(v),
    ensures
        read_result(t.durable().get(t.key())) == Some(v),
        t.durable().contains_key(t.key()) ==> t.durable()[t.key()].len() == 8
            && v == Some(crate::codec::from_be_bytes(t.durable()[t.key()])),
        !t.durable().contains_key(t.key()) ==> v is None,
{
}

/// After a successful write the offset is durable: a crash right then leaves it
/// under the key, where it reads back as the offset written.
pub proof fn lemma_written_offset_is_durable(t: OffsetTracker, offset: u64)
    requires
        t.durable() == t.contents(),
        t.stored() == Some(be_bytes(offset)),
    ensures
        t.durable().get(t.key()) == Some(be_bytes(offset)),
        read_result(t.durable().get(t.key())) == Some(Some(offset)),
{
    lemma_decode_encode(offset);
}

/// While the tracker's key holds nothing or an encoded offset (which every
/// successful `store` and `write` leaves), a read never reports an invalid format.
pub proof fn lemma_reads_never_malformed(t: OffsetTracker)
    requires
        t.holds_offset(),
    ensures
        read_result(t.stored()) is Some,
{
}

/// A read that succeeds after a successful write gives back the written offset.
pub proof fn lemma_read_returns_written(before: OffsetTracker, after: OffsetTracker, offset: u64)
    requires
        after.name() == before.name(),
        after.contents() == before.contents().insert(before.key(), be_bytes(offset)),
    ensures
        after.stored() == Some(be_bytes(offset)),
        read_result(after.stored()) == Some(Some(offset)),
{
    lemma_decode_encode(offset);
    assert(after.key() == before.key());
}

} // verus!
