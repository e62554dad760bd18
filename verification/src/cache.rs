use vstd::prelude::*;
use rusqlite::OptionalExtension;
use crate::errors::CacheError;
use crate::paths::resolve_path;

verus! {

#[verifier::external_type_specification]
#[verifier::external_body]
pub struct ExConnection(rusqlite::Connection);

#[verifier::external_type_specification]
#[verifier::external_body]
pub struct ExSqlError(rusqlite::Error);

/// The records a store connection holds: absolute path to content bytes and
/// permission bits. One row of the `files` table per map entry; the UNIQUE
/// constraint on the path column keeps keys unique.
pub uninterp spec fn db_records(conn: rusqlite::Connection) -> Map<Seq<char>, (Seq<u8>, u32)>;

/// The model of a store: each tracked path's snapshot.
pub type StoreView = Map<Seq<char>, (Seq<u8>, u32)>;

/// A store with nothing tracked.
pub open spec fn empty_store() -> StoreView {
    Map::empty()
}

/// The views of a list of paths.
pub open spec fn path_views(v: Seq<String>) -> Seq<Seq<char>> {
    v.map_values(|s: String| s@)
}

/// Relies on rusqlite's Connection::open: opens (or creates) the database
/// file at the given path. What records it holds is whatever was persisted
/// there, so nothing is said of them.
#[verifier::external_body]
fn open_database(path: &str) -> Result<rusqlite::Connection, rusqlite::Error> {
    rusqlite::Connection::open(path)
}

/// Relies on rusqlite's Connection::execute running
/// `CREATE TABLE IF NOT EXISTS files (id INTEGER PRIMARY KEY, path TEXT NOT
/// NULL UNIQUE, content BLOB, permissions INTEGER)`: an existing table and
/// its rows are kept, a missing one is created empty.
#[verifier::external_body]
fn create_files_table(conn: &mut rusqlite::Connection) -> (r: Result<
    (),
    rusqlite::Error,
>)
    ensures
        r is Ok ==> (db_records(*final(conn)) == db_records(*old(conn)) || db_records(
            *final(conn),
        ) == empty_store()),
{
    match conn.execute(
        "CREATE TABLE IF NOT EXISTS files (
            id INTEGER PRIMARY KEY,
            path TEXT NOT NULL UNIQUE,
            content BLOB,
            permissions INTEGER
        )",
        [],
    ) {
        Ok(_) => Ok(()),
        Err(e) => Err(e),
    }
}

/// Relies on rusqlite's Connection::query_row running
/// `SELECT 1 FROM files WHERE path = ?1`: a row comes back exactly when the
/// path is present (the path column is UNIQUE).
#[verifier::external_body]
fn query_is_tracked(conn: &rusqlite::Connection, path: &str) -> (r: Result<
    bool,
    rusqlite::Error,
>)
    ensures
        r matches Ok(b) ==> b == db_records(*conn).dom().contains(path@),
{
    match conn.query_row("SELECT 1 FROM files WHERE path = ?1", &[path], |_row| Ok(1i64))
        .optional() {
        Ok(Some(_)) => Ok(true),
        Ok(None) => Ok(false),
        Err(e) => Err(e),
    }
}

/// Relies on rusqlite's Connection::query_row running
/// `SELECT content, permissions FROM files WHERE path = ?1`: a row comes
/// back exactly when the path is present, and it holds that path's stored
/// content bytes and permission bits.
#[verifier::external_body]
fn query_snapshot(conn: &rusqlite::Connection, path: &str) -> (r: Result<
    Option<(Vec<u8>, u32)>,
    rusqlite::Error,
>)
    ensures
        r matches Ok(o) ==> (o is Some <==> db_records(*conn).dom().contains(path@)),
        r matches Ok(o) ==> (o matches Some(p) ==> db_records(*conn)[path@] == (p.0@, p.1)),
{
    conn.query_row(
        "SELECT content, permissions FROM files WHERE path = ?1",
        &[path],
        |row| Ok((row.get::<_, Vec<u8>>(0)?, row.get::<_, u32>(1)?)),
    ).optional()
}

/// Relies on rusqlite's Connection::execute running
/// `INSERT OR REPLACE INTO files (path, content, permissions) VALUES
/// (?1, ?2, ?3)`: on success the path maps to exactly these content bytes
/// and permission bits and no other row moves; a failed statement changes
/// nothing (SQLite statements are atomic).
#[verifier::external_body]
fn insert_snapshot(
    conn: &mut rusqlite::Connection,
    path: &str,
    content: &[u8],
    mode: u32,
) -> (r: Result<(), rusqlite::Error>)
    ensures
        r is Ok ==> db_records(*final(conn)) == db_records(*old(conn)).insert(
            path@,
            (content@, mode),
        ),
        r is Err ==> db_records(*final(conn)) == db_records(*old(conn)),
{
    match conn.execute(
        "INSERT OR REPLACE INTO files (path, content, permissions) VALUES (?1, ?2, ?3)",
        (path, content, mode),
    ) {
        Ok(_) => Ok(()),
        Err(e) => Err(e),
    }
}

/// Relies on rusqlite's Connection::execute running
/// `DELETE FROM files WHERE path = ?1`: on success the path's row is gone
/// and no other row moves; a failed statement changes nothing (SQLite
/// statements are atomic).
#[verifier::external_body]
fn delete_record(conn: &mut rusqlite::Connection, path: &str) -> (r: Result<
    (),
    rusqlite::Error,
>)
    ensures
        r is Ok ==> db_records(*final(conn)) == db_records(*old(conn)).remove(path@),
        r is Err ==> db_records(*final(conn)) == db_records(*old(conn)),
{
    match conn.execute("DELETE FROM files WHERE path = ?1", &[path]) {
        Ok(_) => Ok(()),
        Err(e) => Err(e),
    }
}

/// Relies on rusqlite's Connection::execute running `DELETE FROM files`:
/// on success every row is gone; a failed statement changes nothing (a
/// single SQLite statement is atomic, so the store is never left half
/// cleared).
#[verifier::external_body]
fn delete_all_records(conn: &mut rusqlite::Connection) -> (r: Result<(), rusqlite::Error>)
    ensures
        r is Ok ==> db_records(*final(conn)) == empty_store(),
        r is Err ==> db_records(*final(conn)) == db_records(*old(conn)),
{
    match conn.execute("DELETE FROM files", []) {
        Ok(_) => Ok(()),
        Err(e) => Err(e),
    }
}

/// Relies on rusqlite's Statement::query_map running
/// `SELECT path FROM files`: one row per record, holding its path; the
/// UNIQUE constraint on the path column rules duplicates out. The row order
/// is whatever SQLite yields.
#[verifier::external_body]
fn query_paths(conn: &rusqlite::Connection) -> (r: Result<Vec<String>, rusqlite::Error>)
    ensures
        r matches Ok(v) ==> path_views(v@).to_set() == db_records(*conn).dom(),
        r matches Ok(v) ==> path_views(v@).no_duplicates(),
{
    let mut stmt = conn.prepare("SELECT path FROM files")?;
    let rows = stmt.query_map([], |row| row.get::<_, String>(0))?;
    rows.collect::<Result<Vec<String>, rusqlite::Error>>()
}

/// A snapshot of one file: its content bytes and POSIX permission bits, as
/// they were when the file was first observed under a mutating syscall.
#[derive(Debug)]
pub struct Snapshot {
    pub content: Vec<u8>,
    pub mode: u32,
}

/// The durable snapshot store: a database of `{path, content, permissions}`
/// records, keyed by absolute path. Its model is the map from each tracked
/// path to its snapshot.
pub struct Cache {
    conn: rusqlite::Connection,
}

impl View for Cache {
    type V = StoreView;

    closed spec fn view(&self) -> StoreView {
        db_records(self.conn)
    }
}

/// What a backup of `p` with content `c` and mode `m` leaves in a store `s`:
/// the first observation wins, so a path already tracked keeps its record.
pub open spec fn backup_effect(s: StoreView, p: Seq<char>, c: Seq<u8>, m: u32) -> StoreView {
    if s.dom().contains(p) {
        s
    } else {
        s.insert(p, (c, m))
    }
}

impl Cache {
    /// Open (or create) the store's database at the given file path. What it
    /// tracks is whatever earlier runs persisted there.
    pub fn open_path(db_path: &str) -> (r: Result<Cache, CacheError>)
        ensures
            r matches Err(e) ==> e == CacheError::StorageUnavailable,
    {
        let mut conn = match open_database(db_path) {
            Ok(c) => c,
            Err(_) => { return Err(CacheError::StorageUnavailable) },
        };
        match create_files_table(&mut conn) {
            Ok(()) => Ok(Cache { conn }),
            Err(_) => Err(CacheError::StorageUnavailable),
        }
    }

    /// Open the store under its cache directory: the database is the file
    /// `cache.db` there. The directory must already exist.
    pub fn new(cache_dir: &str) -> (r: Result<Cache, CacheError>)
        ensures
            r matches Err(e) ==> e == CacheError::StorageUnavailable,
    {
        let db_path = resolve_path(cache_dir, "cache.db");
        Cache::open_path(db_path.as_str())
    }

    /// Is a snapshot of this path held?
    pub fn is_tracked(&self, path: &str) -> (r: Result<bool, CacheError>)
        ensures
            r matches Ok(b) ==> b == self@.dom().contains(path@),
            r matches Err(e) ==> e == CacheError::StorageUnavailable,
    {
        match query_is_tracked(&self.conn, path) {
            Ok(b) => Ok(b),
            Err(_) => Err(CacheError::StorageUnavailable),
        }
    }

    /// Record a file's pre-modification state: its content bytes and
    /// permission bits, as the caller read them off the live filesystem. The
    /// first observation wins: a path already tracked is left exactly as it
    /// was, so the record keeps the pre-run state across editors that touch
    /// a file many times.
    pub fn backup(&mut self, path: &str, content: &[u8], mode: u32) -> (r: Result<
        (),
        CacheError,
    >)
        ensures
            r is Ok ==> final(self)@ == backup_effect(old(self)@, path@, content@, mode),
            r matches Err(e) ==> e == CacheError::StorageUnavailable && final(self)@ == old(
                self,
            )@,
    {
        let already = match query_is_tracked(&self.conn, path) {
            Ok(b) => b,
            Err(_) => { return Err(CacheError::StorageUnavailable) },
        };
        if already {
            return Ok(());
        }
        match insert_snapshot(&mut self.conn, path, content, mode) {
            Ok(()) => Ok(()),
            Err(_) => Err(CacheError::StorageUnavailable),
        }
    }

    /// Every tracked path, each exactly once. The order is whatever the
    /// database yields.
    pub fn list(&self) -> (r: Result<Vec<String>, CacheError>)
        ensures
            r matches Ok(v) ==> path_views(v@).to_set() == self@.dom(),
            r matches Ok(v) ==> path_views(v@).no_duplicates(),
            r matches Err(e) ==> e == CacheError::StorageUnavailable,
    {
        match query_paths(&self.conn) {
            Ok(v) => Ok(v),
            Err(_) => Err(CacheError::StorageUnavailable),
        }
    }

    /// Drop every record. One atomic statement: on failure the store is
    /// unchanged. Files on disk are not touched.
    pub fn clear(&mut self) -> (r: Result<(), CacheError>)
        ensures
            r is Ok ==> final(self)@ == empty_store(),
            r matches Err(e) ==> e == CacheError::StorageUnavailable && final(self)@ == old(
                self,
            )@,
    {
        match delete_all_records(&mut self.conn) {
            Ok(()) => Ok(()),
            Err(_) => Err(CacheError::StorageUnavailable),
        }
    }

    /// The snapshot held for a path, without giving it up. An untracked path
    /// is reported as `NotFound`, and `NotFound` comes for no other reason.
    /// The caller writes the snapshot back to disk and then calls `forget`;
    /// a failed write thus leaves the record in place for a retry.
    pub fn restore_data(&self, path: &str) -> (r: Result<Snapshot, CacheError>)
        ensures
            r matches Ok(s) ==> self@.dom().contains(path@) && (s.content@, s.mode)
                == self@[path@],
            r matches Err(e) ==> e == CacheError::NotFound || e == CacheError::StorageUnavailable,
            r matches Err(e) ==> (e == CacheError::NotFound ==> !self@.dom().contains(path@)),
    {
        match query_snapshot(&self.conn, path) {
            Ok(Some((content, mode))) => Ok(Snapshot { content, mode }),
            Ok(None) => Err(CacheError::NotFound),
            Err(_) => Err(CacheError::StorageUnavailable),
        }
    }

    /// Drop the record for one path, once its snapshot has been written back.
    pub fn forget(&mut self, path: &str) -> (r: Result<(), CacheError>)
        ensures
            r is Ok ==> final(self)@ == old(self)@.remove(path@),
            r matches Err(e) ==> e == CacheError::StorageUnavailable && final(self)@ == old(
                self,
            )@,
    {
        match delete_record(&mut self.conn, path) {
            Ok(()) => Ok(()),
            Err(_) => Err(CacheError::StorageUnavailable),
        }
    }

    /// Take the snapshot held for a path out of the store: the record is
    /// handed to the caller and dropped. An untracked path is reported as
    /// `NotFound`, and `NotFound` comes for no other reason; on any failure
    /// the store is unchanged.
    pub fn restore(&mut self, path: &str) -> (r: Result<Snapshot, CacheError>)
        ensures
            r matches Ok(s) ==> old(self)@.dom().contains(path@) && (s.content@, s.mode) == old(
                self,
            )@[path@] && final(self)@ == old(self)@.remove(path@),
            r matches Err(e) ==> (e == CacheError::NotFound
                || e == CacheError::StorageUnavailable) && final(self)@ == old(self)@,
            r matches Err(e) ==> (e == CacheError::NotFound ==> !old(self)@.dom().contains(
                path@,
            )),
    {
        let snap = match self.restore_data(path) {
            Ok(s) => s,
            Err(e) => { return Err(e) },
        };
        match self.forget(path) {
            Ok(()) => Ok(snap),
            Err(e) => Err(e),
        }
    }
}

/// The store after a run of backups of one path, each carrying the content
/// and mode that the file showed at that syscall, applied in order.
pub open spec fn backup_seq_effect(
    s: StoreView,
    p: Seq<char>,
    ops: Seq<(Seq<u8>, u32)>,
) -> StoreView
    decreases ops.len(),
{
    if ops.len() == 0 {
        s
    } else {
        backup_seq_effect(backup_effect(s, p, ops[0].0, ops[0].1), p, ops.drop_first())
    }
}

/// Law: a path whose backup succeeded is tracked afterwards (and so stands
/// in any listing, by `lemma_list_matches_tracking`).
pub proof fn lemma_backup_tracks(s: StoreView, p: Seq<char>, c: Seq<u8>, m: u32)
    ensures
        backup_effect(s, p, c, m).dom().contains(p),
{
}

/// Law: backups of a path already tracked change nothing, so the first
/// record taken for an untracked path is the one held ever after.
pub proof fn lemma_first_backup_wins(
    s: StoreView,
    p: Seq<char>,
    c1: Seq<u8>,
    m1: u32,
    c2: Seq<u8>,
    m2: u32,
)
    ensures
        backup_effect(backup_effect(s, p, c1, m1), p, c2, m2) == backup_effect(s, p, c1, m1),
        !s.dom().contains(p) ==> backup_effect(s, p, c1, m1)[p] == (c1, m1),
{
}

proof fn lemma_backup_seq_keeps_tracked(s: StoreView, p: Seq<char>, ops: Seq<(Seq<u8>, u32)>)
    requires
        s.dom().contains(p),
    ensures
        backup_seq_effect(s, p, ops) == s,
    decreases ops.len(),
{
    if ops.len() > 0 {
        lemma_backup_seq_keeps_tracked(s, p, ops.drop_first());
    }
}

/// Law: across any run of backups of one untracked path, whatever each saw
/// as content and mode, the first record wins: the store ends as after the
/// first backup alone, and the path's record is the first pair.
pub proof fn lemma_backup_sequence_first_wins(
    s: StoreView,
    p: Seq<char>,
    ops: Seq<(Seq<u8>, u32)>,
)
    requires
        !s.dom().contains(p),
        ops.len() >= 1,
    ensures
        backup_seq_effect(s, p, ops) == backup_effect(s, p, ops[0].0, ops[0].1),
        backup_seq_effect(s, p, ops)[p] == ops[0],
{
    let s1 = backup_effect(s, p, ops[0].0, ops[0].1);
    lemma_backup_seq_keeps_tracked(s1, p, ops.drop_first());
}

/// Law: restoring a path backed up while untracked hands back exactly the
/// recorded content and mode, leaves the path untracked again, and leaves
/// the store as it stood before the backup.
pub proof fn lemma_backup_restore_round_trip(s: StoreView, p: Seq<char>, c: Seq<u8>, m: u32)
    requires
        !s.dom().contains(p),
    ensures
        backup_effect(s, p, c, m)[p] == (c, m),
        backup_effect(s, p, c, m).remove(p) == s,
        !backup_effect(s, p, c, m).remove(p).dom().contains(p),
{
    assert(backup_effect(s, p, c, m).remove(p) =~= s);
}

/// Law: after a clear nothing is tracked — a listing of a cleared store is
/// empty, and any restore misses.
pub proof fn lemma_clear_forgets_all(paths: Seq<Seq<char>>, p: Seq<char>)
    requires
        paths.to_set() == empty_store().dom(),
    ensures
        paths.len() == 0,
        !empty_store().dom().contains(p),
{
    if paths.len() > 0 {
        assert(paths.to_set().contains(paths[0]));
    }
}

/// Law: after a successful backup of `p`, `p` is tracked and every listing
/// of the store names it.
pub proof fn lemma_backup_then_listed(
    s: StoreView,
    p: Seq<char>,
    c: Seq<u8>,
    m: u32,
    paths: Seq<Seq<char>>,
)
    requires
        paths.to_set() == backup_effect(s, p, c, m).dom(),
    ensures
        backup_effect(s, p, c, m).dom().contains(p),
        paths.contains(p),
{
    lemma_backup_tracks(s, p, c, m);
    lemma_list_matches_tracking(backup_effect(s, p, c, m), paths, p);
}

/// Law: a listing agrees with the tracking test — a path stands in a list
/// whose set of entries is the store's domain exactly when it is tracked.
pub proof fn lemma_list_matches_tracking(s: StoreView, paths: Seq<Seq<char>>, p: Seq<char>)
    requires
        paths.to_set() == s.dom(),
    ensures
        paths.contains(p) <==> s.dom().contains(p),
{
    assert(paths.to_set().contains(p) == paths.contains(p));
}

} // verus!
