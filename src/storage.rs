//! The storage engine: quota counters and queue items in an SQLite store.
//!
//! The store behind a connection is modelled by two views of its tables:
//! `quota_table` (identity to usage counter) and `queue_table` (items,
//! oldest first). The store is assumed to be written through this handle
//! only.
use rusqlite::OptionalExtension;
use vstd::prelude::*;

verus! {

#[verifier::external_type_specification]
#[verifier::external_body]
pub struct ExConnection(rusqlite::Connection);

#[verifier::external_type_specification]
#[verifier::external_body]
pub struct ExSqlError(rusqlite::Error);

/// Usage counter of each identity in the `quota_records` table of the store
/// behind a connection.
pub uninterp spec fn quota_table(c: rusqlite::Connection) -> Map<Seq<char>, u64>;

/// `(item_id, payload)` of each row of the `queue_items` table of the store
/// behind a connection, in dequeue order (oldest first).
pub uninterp spec fn queue_table(c: rusqlite::Connection) -> Seq<(Seq<char>, Seq<char>)>;

/// Whether a queue holds an item with the given identifier.
pub open spec fn holds_item(q: Seq<(Seq<char>, Seq<char>)>, item_id: Seq<char>) -> bool {
    exists|i: int| 0 <= i < q.len() && #[trigger] q[i].0 == item_id
}

/// Setting the same counter twice leaves the quota table as one setting does.
pub proof fn lemma_set_twice(quotas: Map<Seq<char>, u64>, id: Seq<char>, usage: u64)
    ensures
        quotas.insert(id, usage).insert(id, usage) == quotas.insert(id, usage),
{
    assert(quotas.insert(id, usage).insert(id, usage) =~= quotas.insert(id, usage));
}

/// Items enqueued `a`, `b`, `c` on an empty queue are dequeued as `a`, `b`,
/// `c`, after which the queue is empty.
pub proof fn lemma_fifo(a: (Seq<char>, Seq<char>), b: (Seq<char>, Seq<char>), c: (Seq<char>, Seq<char>))
    ensures
        ({
            let q = Seq::<(Seq<char>, Seq<char>)>::empty().push(a).push(b).push(c);
            &&& q.len() > 0 && q[0] == a
            &&& q.drop_first().len() > 0 && q.drop_first()[0] == b
            &&& q.drop_first().drop_first().len() > 0 && q.drop_first().drop_first()[0] == c
            &&& q.drop_first().drop_first().drop_first().len() == 0
        }),
{
}

/// Failures of the storage engine.
#[derive(Clone, Copy, Debug, PartialEq, Eq, Structural)]
pub enum StorageError {
    /// The store could not be opened or its schema could not be created.
    Unavailable,
    /// A single operation failed on I/O.
    Io,
    /// The identity is empty.
    ConstraintViolation,
    /// An item with the same identifier is already queued.
    DuplicateKey,
}

/// Relies on `rusqlite::Connection::open`: opens (or creates) the database
/// file at `path`. Nothing is known of what an existing file holds.
#[verifier::external_body]
fn open_connection(path: &str) -> (r: Result<rusqlite::Connection, rusqlite::Error>) {
    rusqlite::Connection::open(path)
}

/// Relies on `rusqlite::Connection::execute_batch` running two
/// `CREATE TABLE IF NOT EXISTS` statements: rows already stored are left as
/// they are, whether or not the batch succeeds.
#[verifier::external_body]
fn create_tables(conn: &mut rusqlite::Connection) -> (r: Result<(), rusqlite::Error>)
    ensures
        quota_table(*final(conn)) == quota_table(*old(conn)),
        queue_table(*final(conn)) == queue_table(*old(conn)),
{
    conn.execute_batch(
        "CREATE TABLE IF NOT EXISTS quota_records (
             identity TEXT PRIMARY KEY,
             usage_count INTEGER,
             last_updated INTEGER
         );
         CREATE TABLE IF NOT EXISTS queue_items (
             item_id TEXT PRIMARY KEY,
             payload TEXT NOT NULL,
             created_at INTEGER NOT NULL
         );",
    )
}

/// Relies on `rusqlite::Connection::query_row` (with `optional`) on a
/// `SELECT` by primary key: `Ok(None)` when no row has the identity, else
/// the stored counter. SQLite integers are `i64`, and rusqlite reads a
/// `u64` from one by `u64::try_from`, so a counter read is at most
/// `i64::MAX`.
#[verifier::external_body]
fn select_usage(conn: &rusqlite::Connection, identity: &str) -> (r: Result<Option<u64>, rusqlite::Error>)
    ensures
        r is Ok ==> r->Ok_0 == quota_table(*conn).get(identity@),
        r matches Ok(Some(n)) ==> n <= i64::MAX,
{
    conn.query_row(
        "SELECT usage_count FROM quota_records WHERE identity = ?1",
        [identity],
        |row| row.get(0),
    ).optional()
}

/// Relies on `rusqlite::Connection::execute` running one
/// `INSERT ... ON CONFLICT DO UPDATE` statement: on success the identity's
/// counter is `usage`; a failed statement changes nothing. rusqlite binds a
/// `u64` through `i64::try_from`, so a value above `i64::MAX` is refused.
#[verifier::external_body]
fn upsert_usage(conn: &mut rusqlite::Connection, identity: &str, usage: u64) -> (r: Result<(), rusqlite::Error>)
    ensures
        usage > i64::MAX ==> r is Err,
        r is Ok ==> quota_table(*final(conn)) == quota_table(*old(conn)).insert(identity@, usage),
        r is Err ==> quota_table(*final(conn)) == quota_table(*old(conn)),
        queue_table(*final(conn)) == queue_table(*old(conn)),
{
    conn.execute(
        "INSERT INTO quota_records (identity, usage_count, last_updated)
         VALUES (?1, ?2, CAST(strftime('%s', 'now') AS INTEGER))
         ON CONFLICT(identity) DO UPDATE
         SET usage_count = excluded.usage_count, last_updated = excluded.last_updated",
        (identity, usage),
    ).map(|_| ())
}

/// Relies on `rusqlite::Connection::query_row` on a `SELECT EXISTS` by
/// primary key: whether an item with the identifier is queued.
#[verifier::external_body]
fn item_present(conn: &rusqlite::Connection, item_id: &str) -> (r: Result<bool, rusqlite::Error>)
    ensures
        r is Ok ==> r->Ok_0 == holds_item(queue_table(*conn), item_id@),
{
    conn.query_row(
        "SELECT EXISTS(SELECT 1 FROM queue_items WHERE item_id = ?1)",
        [item_id],
        |row| row.get(0),
    )
}

/// Relies on `rusqlite::Connection::execute` running one `INSERT`. The new
/// row's `created_at` is the clock's second, raised to the largest one
/// queued, and its rowid exceeds every queued rowid, so under the order
/// `created_at, rowid` it comes last. A failed statement changes nothing.
#[verifier::external_body]
fn insert_item(conn: &mut rusqlite::Connection, item_id: &str, payload: &str) -> (r: Result<(), rusqlite::Error>)
    ensures
        r is Ok ==> queue_table(*final(conn)) == queue_table(*old(conn)).push((item_id@, payload@)),
        r is Err ==> queue_table(*final(conn)) == queue_table(*old(conn)),
        quota_table(*final(conn)) == quota_table(*old(conn)),
{
    conn.execute(
        "INSERT INTO queue_items (item_id, payload, created_at)
         VALUES (?1, ?2, MAX(CAST(strftime('%s', 'now') AS INTEGER),
                             COALESCE((SELECT MAX(created_at) FROM queue_items), 0)))",
        (item_id, payload),
    ).map(|_| ())
}

/// Relies on `rusqlite::Connection::transaction`, `query_row` (with
/// `optional`) and `Transaction::commit`: one `DELETE ... RETURNING`
/// statement removes the first row under the order `created_at, rowid`, and
/// its columns are read, inside a transaction that a failure rolls back
/// (rusqlite's default drop behaviour). `Ok(None)` when the queue is empty.
/// `item_id` is the table's primary key, so the removed identifier is no
/// longer queued.
#[verifier::external_body]
fn delete_oldest_item(conn: &mut rusqlite::Connection) -> (r: Result<Option<(String, String)>, rusqlite::Error>)
    ensures
        r matches Ok(None) ==> queue_table(*old(conn)).len() == 0
            && queue_table(*final(conn)) == queue_table(*old(conn)),
        r matches Ok(Some(item)) ==> queue_table(*old(conn)).len() > 0
            && queue_table(*old(conn))[0] == (item.0@, item.1@)
            && queue_table(*final(conn)) == queue_table(*old(conn)).drop_first()
            && !holds_item(queue_table(*final(conn)), item.0@),
        r is Err ==> queue_table(*final(conn)) == queue_table(*old(conn)),
        quota_table(*final(conn)) == quota_table(*old(conn)),
{
    let tx = conn.transaction()?;
    let item = tx.query_row(
        "DELETE FROM queue_items WHERE rowid =
             (SELECT rowid FROM queue_items ORDER BY created_at, rowid LIMIT 1)
         RETURNING item_id, payload",
        [],
        |row| Ok((row.get(0)?, row.get(1)?)),
    ).optional()?;
    tx.commit()?;
    Ok(item)
}

/// Handle on the store: owns the one connection to it.
pub struct Storage {
    conn: rusqlite::Connection,
}

impl Storage {
    /// Usage counter of each identity.
    pub closed spec fn quotas(&self) -> Map<Seq<char>, u64> {
        quota_table(self.conn)
    }

    /// Queued `(item_id, payload)` pairs, oldest first.
    pub closed spec fn jobs(&self) -> Seq<(Seq<char>, Seq<char>)> {
        queue_table(self.conn)
    }

    /// Opens the store at `db_path` and makes sure both tables exist.
    pub fn new(db_path: &str) -> (r: Result<Storage, StorageError>)
        ensures
            r is Err ==> r->Err_0 == StorageError::Unavailable,
    {
        match open_connection(db_path) {
            Ok(conn) => {
                let mut storage = Storage { conn };
                match storage.init_tables() {
                    Ok(()) => Ok(storage),
                    Err(e) => Err(e),
                }
            },
            Err(_) => Err(StorageError::Unavailable),
        }
    }

    /// Creates the quota and queue tables where absent; stored rows are kept.
    pub fn init_tables(&mut self) -> (r: Result<(), StorageError>)
        ensures
            final(self).quotas() == old(self).quotas(),
            final(self).jobs() == old(self).jobs(),
            r is Err ==> r->Err_0 == StorageError::Unavailable,
    {
        match create_tables(&mut self.conn) {
            Ok(()) => Ok(()),
            Err(_) => Err(StorageError::Unavailable),
        }
    }
    /// Stores `limit` as the usage counter of `user_id`, inserting the row
    /// where absent and refreshing its `last_updated`, in one statement.
    pub fn set_rate_limit(&mut self, user_id: &str, limit: u64) -> (r: Result<(), StorageError>)
        ensures
            r == Err::<(), StorageError>(StorageError::ConstraintViolation) <==> user_id@.len() == 0,
            r is Ok ==> final(self).quotas() == old(self).quotas().insert(user_id@, limit),
            r is Err ==> final(self).quotas() == old(self).quotas(),
            r is Err && user_id@.len() > 0 ==> r->Err_0 == StorageError::Io,
            limit > i64::MAX ==> r is Err,
            final(self).jobs() == old(self).jobs(),
    {
        if user_id.unicode_len() == 0 {
            return Err(StorageError::ConstraintViolation);
        }
        match upsert_usage(&mut self.conn, user_id, limit) {
            Ok(()) => Ok(()),
            Err(_) => Err(StorageError::Io),
        }
    }

    /// Usage counter of `user_id`; `None` where no attempt was recorded.
    pub fn get_rate_limit(&self, user_id: &str) -> (r: Result<Option<u64>, StorageError>)
        ensures
            r is Ok ==> r->Ok_0 == self.quotas().get(user_id@),
            r matches Ok(Some(n)) ==> n <= i64::MAX,
            r is Err ==> r->Err_0 == StorageError::Io,
    {
        match select_usage(&self.conn, user_id) {
            Ok(usage) => Ok(usage),
            Err(_) => Err(StorageError::Io),
        }
    }

    /// Appends an item to the queue; an identifier already queued is refused.
    pub fn push_job(&mut self, job_id: &str, payload: &str) -> (r: Result<(), StorageError>)
        ensures
            r is Ok ==> !holds_item(old(self).jobs(), job_id@)
                && final(self).jobs() == old(self).jobs().push((job_id@, payload@)),
            r == Err::<(), StorageError>(StorageError::DuplicateKey) ==> holds_item(old(self).jobs(), job_id@),
            holds_item(old(self).jobs(), job_id@) ==> r is Err,
            r is Err ==> final(self).jobs() == old(self).jobs(),
            r is Err ==> r->Err_0 == StorageError::DuplicateKey || r->Err_0 == StorageError::Io,
            final(self).quotas() == old(self).quotas(),
    {
        match item_present(&self.conn, job_id) {
            Ok(true) => Err(StorageError::DuplicateKey),
            Ok(false) => match insert_item(&mut self.conn, job_id, payload) {
                Ok(()) => Ok(()),
                Err(_) => Err(StorageError::Io),
            },
            Err(_) => Err(StorageError::Io),
        }
    }

    /// Removes and returns the oldest queued item; `Ok(None)` on an empty
    /// queue. Selection and removal happen in one transaction: on an error the
/// queue is as it was.
    pub fn pop_job(&mut self) -> (r: Result<Option<(String, String)>, StorageError>)
        ensures
            r matches Ok(None) ==> old(self).jobs().len() == 0 && final(self).jobs() == old(self).jobs(),
            r matches Ok(Some(item)) ==> old(self).jobs().len() > 0
                && old(self).jobs()[0] == (item.0@, item.1@)
                && final(self).jobs() == old(self).jobs().drop_first()
                && !holds_item(final(self).jobs(), item.0@),
            r is Err ==> r->Err_0 == StorageError::Io,
            r is Err ==> final(self).jobs() == old(self).jobs(),
            final(self).quotas() == old(self).quotas(),
    {
        match delete_oldest_item(&mut self.conn) {
            Ok(item) => Ok(item),
            Err(_) => Err(StorageError::Io),
        }
    }
}

} // verus!
