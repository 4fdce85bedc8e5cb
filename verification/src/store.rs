//! Metadata store: persists frame identity and timestamps in SQLite and
//! owns schema migration.
//!
//! The store keeps two tables: a `migrations` ledger (`migration_name`
//! unique, `applied_at`) and a `screenshots` table (`frame_number`,
//! `created_at`, `local_time`). Schema evolution is idempotent and
//! restart-safe: a named migration is applied only if the ledger does not
//! already record it. The one existing migration splits a legacy
//! single-timestamp column into the two-column layout, backfilling both new
//! columns from the legacy value.
//!
//! The database behind a connection is modeled by the uninterpreted
//! observations below (`db_migrations`, `db_rows`, ...). Each trusted
//! wrapper runs one fixed statement and states its effect on those
//! observations; every query states how its answer reads them. On top of
//! the wrappers, [`ScreenshotDatabase::new`] and its migration pass are
//! verified: what runs is exactly what the decision table
//! [`plan_split_timestamps_migration`] answers.

use vstd::prelude::*;
use crate::errors::EngineError;

verus! {

#[verifier::external_type_specification]
#[verifier::external_body]
pub struct ExConnection(rusqlite::Connection);

#[verifier::external_type_specification]
#[verifier::external_body]
pub struct ExSqliteError(rusqlite::Error);

// --- The trusted model of the database file behind a connection. -------
//
// A connection is a handle on mutable outside state, so every wrapper that
// changes the file takes the connection `&mut`; the observations are then
// functions of the connection value. Verus learns of them only what the
// wrappers' contracts state, and the integration tests run the same
// wrappers against real database files.

/// The migration names the `migrations` ledger records (none while the
/// table is absent).
pub uninterp spec fn db_migrations(c: rusqlite::Connection) -> Set<Seq<char>>;

/// The `screenshots` table has the legacy single-timestamp column
/// `creation_date`.
pub uninterp spec fn db_has_legacy_column(c: rusqlite::Connection) -> bool;

/// The `screenshots` table has the two-timestamp column `created_at`.
pub uninterp spec fn db_has_new_column(c: rusqlite::Connection) -> bool;

/// The `screenshots` rows as the two-timestamp layout reads them, in rowid
/// order: `(frame_number, created_at, local_time)`. Rows whose frame
/// number is not an integer or whose timestamps are not text are outside
/// the model; reading them fails rather than answering.
pub uninterp spec fn db_rows(c: rusqlite::Connection) -> Seq<(int, Seq<char>, Seq<char>)>;

/// The `screenshots` rows as the legacy layout reads them, in rowid order:
/// `(frame_number, creation_date)`.
pub uninterp spec fn db_legacy_rows(c: rusqlite::Connection) -> Seq<(int, Seq<char>)>;

/// No observation of the database changed between two connection states.
pub open spec fn db_unchanged(c1: rusqlite::Connection, c2: rusqlite::Connection) -> bool {
    &&& db_migrations(c1) == db_migrations(c2)
    &&& db_has_legacy_column(c1) == db_has_legacy_column(c2)
    &&& db_has_new_column(c1) == db_has_new_column(c2)
    &&& db_rows(c1) == db_rows(c2)
    &&& db_legacy_rows(c1) == db_legacy_rows(c2)
}

/// The two-timestamp rows the legacy rewrite produces: both new columns
/// backfilled from the single legacy value.
pub open spec fn spec_backfilled(rows: Seq<(int, Seq<char>)>) -> Seq<(int, Seq<char>, Seq<char>)> {
    rows.map_values(|r: (int, Seq<char>)| (r.0, r.1, r.1))
}

// --- Trusted wrappers, one statement each. ------------------------------

/// Relies on rusqlite's `Connection::open`: opens (creating if absent) the
/// SQLite database file at `path`. Nothing is known of the opened file's
/// contents; the queries below observe them.
#[verifier::external_body]
fn open_connection(path: &str) -> Result<rusqlite::Connection, rusqlite::Error> {
    rusqlite::Connection::open(path)
}

/// Relies on rusqlite's `Connection::execute`: creates the `migrations`
/// ledger table if it is absent. A missing ledger records no names and a
/// created one is empty, so no observation changes.
#[verifier::external_body]
fn create_ledger_table(conn: &mut rusqlite::Connection) -> (r: Result<usize, rusqlite::Error>)
    ensures
        db_unchanged(*old(conn), *final(conn)),
{
    conn.execute(
        "CREATE TABLE IF NOT EXISTS migrations (\
            id INTEGER PRIMARY KEY AUTOINCREMENT,\
            migration_name TEXT UNIQUE NOT NULL,\
            applied_at TEXT NOT NULL\
        )",
        [],
    )
}

/// Relies on rusqlite's `Connection::execute`: creates the `screenshots`
/// table in the two-timestamp layout if it is absent. Either the table
/// already existed (everything unchanged) or it was created empty in the
/// new layout; the ledger is untouched either way.
#[verifier::external_body]
fn create_frames_table(conn: &mut rusqlite::Connection) -> (r: Result<usize, rusqlite::Error>)
    ensures
        db_migrations(*final(conn)) == db_migrations(*old(conn)),
        r matches Ok(_) ==> ({
            ||| (db_has_legacy_column(*final(conn)) == db_has_legacy_column(*old(conn))
                && db_has_new_column(*final(conn)) == db_has_new_column(*old(conn)) && db_rows(
                *final(conn),
            ) == db_rows(*old(conn)) && db_legacy_rows(*final(conn)) == db_legacy_rows(*old(conn)))
            ||| (!db_has_legacy_column(*old(conn)) && !db_has_new_column(*old(conn))
                && !db_has_legacy_column(*final(conn)) && db_has_new_column(*final(conn))
                && db_rows(*final(conn)) == Seq::<(int, Seq<char>, Seq<char>)>::empty())
        }),
        r matches Err(_) ==> db_unchanged(*old(conn), *final(conn)),
{
    conn.execute(
        "CREATE TABLE IF NOT EXISTS screenshots (\
            id INTEGER PRIMARY KEY AUTOINCREMENT,\
            frame_number INTEGER NOT NULL,\
            created_at TEXT NOT NULL,\
            local_time TEXT NOT NULL\
        )",
        [],
    )
}

/// Relies on rusqlite's `Connection::query_row`: counts the ledger rows
/// recording `name`; positive exactly when the ledger records it.
#[verifier::external_body]
fn count_ledger_rows(conn: &rusqlite::Connection, name: &str) -> (r: Result<
    i64,
    rusqlite::Error,
>)
    ensures
        r matches Ok(c) ==> (c > 0) == db_migrations(*conn).contains(name@),
{
    conn.query_row(
        "SELECT COUNT(*) FROM migrations WHERE migration_name = ?1",
        [name],
        |row| row.get(0),
    )
}

/// Relies on rusqlite's `Connection::query_row` over `pragma_table_info`:
/// counts `screenshots` columns named `creation_date`; positive exactly
/// when the legacy column is present.
#[verifier::external_body]
fn count_legacy_columns(conn: &rusqlite::Connection) -> (r: Result<i64, rusqlite::Error>)
    ensures
        r matches Ok(c) ==> (c > 0) == db_has_legacy_column(*conn),
{
    conn.query_row(
        "SELECT COUNT(*) FROM pragma_table_info('screenshots') WHERE name = 'creation_date'",
        [],
        |row| row.get(0),
    )
}

/// Relies on rusqlite's `Connection::query_row` over `pragma_table_info`:
/// counts `screenshots` columns named `created_at`; positive exactly when
/// the two-timestamp column is present.
#[verifier::external_body]
fn count_new_columns(conn: &rusqlite::Connection) -> (r: Result<i64, rusqlite::Error>)
    ensures
        r matches Ok(c) ==> (c > 0) == db_has_new_column(*conn),
{
    conn.query_row(
        "SELECT COUNT(*) FROM pragma_table_info('screenshots') WHERE name = 'created_at'",
        [],
        |row| row.get(0),
    )
}

/// Relies on rusqlite's `Connection::execute`, four statements: the legacy
/// rewrite. Renames the legacy table aside, creates the two-timestamp
/// layout, backfills both new columns from the single legacy value
/// (keeping ids, hence order), and drops the renamed table. On failure
/// partway the database may be left mid-rewrite, so nothing is claimed.
#[verifier::external_body]
fn rewrite_to_two_timestamps(conn: &mut rusqlite::Connection) -> (r: Result<
    usize,
    rusqlite::Error,
>)
    ensures
        r matches Ok(_) ==> ({
            &&& !db_has_legacy_column(*final(conn))
            &&& db_has_new_column(*final(conn))
            &&& db_rows(*final(conn)) == spec_backfilled(db_legacy_rows(*old(conn)))
            &&& db_migrations(*final(conn)) == db_migrations(*old(conn))
        }),
{
    conn.execute("ALTER TABLE screenshots RENAME TO screenshots_old", [])?;
    conn.execute(
        "CREATE TABLE screenshots (\
            id INTEGER PRIMARY KEY AUTOINCREMENT,\
            frame_number INTEGER NOT NULL,\
            created_at TEXT NOT NULL,\
            local_time TEXT NOT NULL\
        )",
        [],
    )?;
    conn.execute(
        "INSERT INTO screenshots (id, frame_number, created_at, local_time) \
         SELECT id, frame_number, creation_date, creation_date FROM screenshots_old",
        [],
    )?;
    conn.execute("DROP TABLE screenshots_old", [])
}

/// Relies on rusqlite's `Connection::execute`: records a migration name in
/// the ledger with its application time. One statement: on failure (a
/// duplicate name included) nothing changes.
#[verifier::external_body]
fn record_migration(conn: &mut rusqlite::Connection, name: &str, applied_at: &str) -> (r: Result<
    usize,
    rusqlite::Error,
>)
    ensures
        r matches Ok(_) ==> ({
            &&& db_migrations(*final(conn)) == db_migrations(*old(conn)).insert(name@)
            &&& db_has_legacy_column(*final(conn)) == db_has_legacy_column(*old(conn))
            &&& db_has_new_column(*final(conn)) == db_has_new_column(*old(conn))
            &&& db_rows(*final(conn)) == db_rows(*old(conn))
            &&& db_legacy_rows(*final(conn)) == db_legacy_rows(*old(conn))
        }),
        r matches Err(_) ==> db_unchanged(*old(conn), *final(conn)),
{
    conn.execute(
        "INSERT INTO migrations (migration_name, applied_at) VALUES (?1, ?2)",
        [name, applied_at],
    )
}

/// Relies on rusqlite's `Connection::execute`: appends one row to the
/// two-timestamp `screenshots` table. One statement: on failure nothing
/// changes.
#[verifier::external_body]
fn insert_frame_row(
    conn: &mut rusqlite::Connection,
    frame_number: u32,
    created_at: &str,
    local_time: &str,
) -> (r: Result<usize, rusqlite::Error>)
    ensures
        r matches Ok(_) ==> ({
            &&& db_rows(*final(conn)) == db_rows(*old(conn)).push(
                (frame_number as int, created_at@, local_time@),
            )
            &&& db_migrations(*final(conn)) == db_migrations(*old(conn))
            &&& db_has_legacy_column(*final(conn)) == db_has_legacy_column(*old(conn))
            &&& db_has_new_column(*final(conn)) == db_has_new_column(*old(conn))
        }),
        r matches Err(_) ==> db_unchanged(*old(conn), *final(conn)),
{
    conn.execute(
        "INSERT INTO screenshots (frame_number, created_at, local_time) VALUES (?1, ?2, ?3)",
        (frame_number, created_at, local_time),
    )
}

/// Relies on rusqlite's `Connection::query_row`: reads the two timestamps
/// of some row with the given frame number; absence of rows becomes
/// `None`. Without an ordering clause any matching row may answer.
#[verifier::external_body]
fn query_frame_row(conn: &rusqlite::Connection, frame_number: u32) -> (r: Result<
    Option<(String, String)>,
    rusqlite::Error,
>)
    ensures
        r matches Ok(Some(v)) ==> exists|i: int|
            0 <= i < db_rows(*conn).len() && #[trigger] db_rows(*conn)[i] == (
                frame_number as int,
                v.0@,
                v.1@,
            ),
        r matches Ok(None) ==> forall|i: int|
            0 <= i < db_rows(*conn).len() ==> (#[trigger] db_rows(*conn)[i]).0
                != frame_number as int,
{
    let r = conn.query_row(
        "SELECT created_at, local_time FROM screenshots WHERE frame_number = ?1",
        [frame_number],
        |row| Ok((row.get(0)?, row.get(1)?)),
    );
    match r {
        Ok(v) => Ok(Some(v)),
        Err(rusqlite::Error::QueryReturnedNoRows) => Ok(None),
        Err(e) => Err(e),
    }
}

/// Relies on std's `SystemTime::now` and chrono's `From<SystemTime>` and
/// `to_rfc3339`: the current UTC instant as an RFC 3339 string. The
/// conversion handles a pre-epoch clock without panicking.
#[verifier::external_body]
fn now_utc_rfc3339() -> String {
    chrono::DateTime::<chrono::Utc>::from(std::time::SystemTime::now()).to_rfc3339()
}

/// Relies on rusqlite `Error`'s `Display` implementation: a description of
/// the underlying engine error.
#[verifier::external_body]
pub(crate) fn sqlite_error_text(e: &rusqlite::Error) -> String {
    e.to_string()
}

// --- The verified migration decision and store. --------------------------

/// What a (re)construction of the store does to the schema.
#[derive(Clone, Copy, PartialEq, Eq, Structural, Debug)]
pub enum MigrationAction {
    /// The ledger already records the migration: touch nothing.
    Nothing,
    /// The schema needs no rewrite (new database, or already in the new
    /// layout): only record the migration in the ledger.
    RecordOnly,
    /// A legacy single-timestamp layout is present: rewrite the table,
    /// backfill, and record the migration.
    RewriteAndRecord,
}

/// Decision table for the `split_timestamps` migration, from the ledger
/// state and the observed schema.
pub open spec fn spec_migration_action(
    applied: bool,
    has_legacy_column: bool,
    has_new_column: bool,
) -> MigrationAction {
    if applied {
        MigrationAction::Nothing
    } else if has_legacy_column && !has_new_column {
        MigrationAction::RewriteAndRecord
    } else {
        MigrationAction::RecordOnly
    }
}

/// Decides what the `split_timestamps` migration must do: nothing if the
/// ledger records it; a table rewrite plus a ledger record if the legacy
/// column is present without the new one; a ledger record alone otherwise.
pub fn plan_split_timestamps_migration(
    applied: bool,
    has_legacy_column: bool,
    has_new_column: bool,
) -> (r: MigrationAction)
    ensures
        r == spec_migration_action(applied, has_legacy_column, has_new_column),
{
    if applied {
        MigrationAction::Nothing
    } else if has_legacy_column && !has_new_column {
        MigrationAction::RewriteAndRecord
    } else {
        MigrationAction::RecordOnly
    }
}

/// Migration is idempotent: once the ledger records it, reconstruction
/// decides to change nothing, whatever the observed schema — re-opening an
/// already-migrated store performs no schema changes and records no
/// duplicate ledger entry.
pub proof fn law_migration_idempotent(has_legacy_column: bool, has_new_column: bool)
    ensures
        spec_migration_action(true, has_legacy_column, has_new_column) == MigrationAction::Nothing,
{
}

/// Handle to the SQLite metadata store.
pub struct ScreenshotDatabase {
    conn: rusqlite::Connection,
}

impl ScreenshotDatabase {
    /// The migration names the store's ledger records.
    pub closed spec fn ledger(&self) -> Set<Seq<char>> {
        db_migrations(self.conn)
    }

    /// The stored frame rows `(frame_number, created_at, local_time)` in
    /// insertion order.
    pub closed spec fn frame_rows(&self) -> Seq<(int, Seq<char>, Seq<char>)> {
        db_rows(self.conn)
    }

    /// Opens (or creates) the database at `db_path`, creates the tables if
    /// absent, and runs pending migrations: on success the ledger records
    /// the `split_timestamps` migration; every failure is a storage error.
    pub fn new(db_path: &str) -> (r: Result<ScreenshotDatabase, EngineError>)
        ensures
            r matches Ok(s) ==> s.ledger().contains("split_timestamps"@),
            r matches Err(e) ==> e matches EngineError::DatabaseError(_),
    {
        let mut conn = match open_connection(db_path) {
            Ok(c) => c,
            Err(e) => return Err(EngineError::DatabaseError(e)),
        };
        match create_ledger_table(&mut conn) {
            Ok(_) => (),
            Err(e) => return Err(EngineError::DatabaseError(e)),
        }
        match create_frames_table(&mut conn) {
            Ok(_) => (),
            Err(e) => return Err(EngineError::DatabaseError(e)),
        }
        match Self::run_migrations(&mut conn) {
            Ok(_) => (),
            Err(e) => return Err(e),
        }
        Ok(ScreenshotDatabase { conn })
    }

    /// Whether the ledger records the named migration.
    fn migration_applied(conn: &rusqlite::Connection, name: &str) -> (r: Result<
        bool,
        EngineError,
    >)
        ensures
            r matches Ok(b) ==> b == db_migrations(*conn).contains(name@),
            r matches Err(e) ==> e matches EngineError::DatabaseError(_),
    {
        match count_ledger_rows(conn, name) {
            Ok(c) => Ok(c > 0),
            Err(e) => Err(EngineError::DatabaseError(e)),
        }
    }

    /// Runs all pending migrations against the ledger. On success the
    /// ledger records `split_timestamps`, and what happened is exactly
    /// what the decision table answers for the observed state: an
    /// already-recorded migration changes nothing; a legacy layout is
    /// rewritten with both timestamps backfilled from the legacy value and
    /// the migration recorded; any other state is only recorded.
    fn run_migrations(conn: &mut rusqlite::Connection) -> (r: Result<(), EngineError>)
        ensures
            r matches Ok(_) ==> ({
                let was_applied = db_migrations(*old(conn)).contains("split_timestamps"@);
                let was_legacy = db_has_legacy_column(*old(conn)) && !db_has_new_column(
                    *old(conn),
                );
                &&& db_migrations(*final(conn)).contains("split_timestamps"@)
                &&& (was_applied ==> db_unchanged(*old(conn), *final(conn)))
                &&& (!was_applied ==> db_migrations(*final(conn)) == db_migrations(
                    *old(conn),
                ).insert("split_timestamps"@))
                &&& (!was_applied && was_legacy ==> !db_has_legacy_column(*final(conn))
                    && db_has_new_column(*final(conn)) && db_rows(*final(conn))
                    == spec_backfilled(db_legacy_rows(*old(conn))))
                &&& (!was_applied && !was_legacy ==> db_has_legacy_column(*final(conn))
                    == db_has_legacy_column(*old(conn)) && db_has_new_column(*final(conn))
                    == db_has_new_column(*old(conn)) && db_rows(*final(conn)) == db_rows(
                    *old(conn),
                ))
            }),
            r matches Err(e) ==> e matches EngineError::DatabaseError(_),
    {
        let applied = match Self::migration_applied(conn, "split_timestamps") {
            Ok(b) => b,
            Err(e) => return Err(e),
        };
        if applied {
            return Ok(());
        }
        let has_legacy_column = match count_legacy_columns(conn) {
            Ok(c) => c > 0,
            Err(e) => return Err(EngineError::DatabaseError(e)),
        };
        let has_new_column = match count_new_columns(conn) {
            Ok(c) => c > 0,
            Err(e) => return Err(EngineError::DatabaseError(e)),
        };
        let action = plan_split_timestamps_migration(false, has_legacy_column, has_new_column);
        match action {
            MigrationAction::Nothing => (),
            MigrationAction::RecordOnly => (),
            MigrationAction::RewriteAndRecord => {
                match rewrite_to_two_timestamps(conn) {
                    Ok(_) => (),
                    Err(e) => return Err(EngineError::DatabaseError(e)),
                }
            },
        }
        let applied_at = now_utc_rfc3339();
        match record_migration(conn, "split_timestamps", applied_at.as_str()) {
            Ok(_) => Ok(()),
            Err(e) => Err(EngineError::DatabaseError(e)),
        }
    }

    /// Inserts one frame's metadata row at the tail. The timestamps are
    /// RFC 3339 strings: `created_at` in UTC, `local_time` in the
    /// capturing machine's local zone. On failure nothing is stored and
    /// the error is a storage error.
    pub fn insert_screenshot(
        &mut self,
        frame_number: u32,
        created_at: &str,
        local_time: &str,
    ) -> (r: Result<(), EngineError>)
        ensures
            r matches Ok(_) ==> ({
                &&& final(self).frame_rows() == old(self).frame_rows().push(
                    (frame_number as int, created_at@, local_time@),
                )
                &&& final(self).ledger() == old(self).ledger()
            }),
            r matches Err(e) ==> ({
                &&& e matches EngineError::DatabaseError(_)
                &&& final(self).frame_rows() == old(self).frame_rows()
                &&& final(self).ledger() == old(self).ledger()
            }),
    {
        match insert_frame_row(&mut self.conn, frame_number, created_at, local_time) {
            Ok(_) => Ok(()),
            Err(e) => Err(EngineError::DatabaseError(e)),
        }
    }

    /// Looks up the stored timestamps `(created_at, local_time)` for a
    /// frame number: `Some` holds a stored row's timestamps for that
    /// number, `None` means no row has it; every failure is a storage
    /// error.
    pub fn get_screenshot_by_frame(&self, frame_number: u32) -> (r: Result<
        Option<(String, String)>,
        EngineError,
    >)
        ensures
            r matches Ok(Some(v)) ==> exists|i: int|
                0 <= i < self.frame_rows().len() && #[trigger] self.frame_rows()[i] == (
                    frame_number as int,
                    v.0@,
                    v.1@,
                ),
            r matches Ok(None) ==> forall|i: int|
                0 <= i < self.frame_rows().len() ==> (#[trigger] self.frame_rows()[i]).0
                    != frame_number as int,
            r matches Err(e) ==> e matches EngineError::DatabaseError(_),
    {
        match query_frame_row(&self.conn, frame_number) {
            Ok(Some(v)) => {
                proof {
                    let i = choose|i: int|
                        0 <= i < db_rows(self.conn).len() && #[trigger] db_rows(self.conn)[i] == (
                            frame_number as int,
                            v.0@,
                            v.1@,
                        );
                    assert(0 <= i < self.frame_rows().len() && self.frame_rows()[i] == (
                        frame_number as int,
                        v.0@,
                        v.1@,
                    ));
                }
                Ok(Some(v))
            },
            Ok(None) => Ok(None),
            Err(e) => Err(EngineError::DatabaseError(e)),
        }
    }
}

} // verus!
