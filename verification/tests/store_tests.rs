use rusqlite::Connection;
use tempfile::TempDir;
use timelapse::store::{
    plan_split_timestamps_migration, MigrationAction, ScreenshotDatabase,
};

fn now_utc() -> String {
    chrono::Utc::now().to_rfc3339()
}

fn now_local() -> String {
    chrono::Local::now().to_rfc3339()
}

fn count(conn: &Connection, sql: &str) -> i64 {
    conn.query_row(sql, [], |row| row.get(0)).unwrap()
}

#[test]
fn test_database_creation() {
    let temp_dir = TempDir::new().unwrap();
    let db_path = temp_dir.path().join("test.db");

    let db = ScreenshotDatabase::new(db_path.to_str().unwrap());
    assert!(db.is_ok());

    // Verify the database file was created
    assert!(db_path.exists());
}

#[test]
fn test_insert_screenshot() {
    let temp_dir = TempDir::new().unwrap();
    let db_path = temp_dir.path().join("test.db");

    let mut db = ScreenshotDatabase::new(db_path.to_str().unwrap()).unwrap();

    // Insert a screenshot record
    let frame_number = 1;
    let result = db.insert_screenshot(frame_number, &now_utc(), &now_local());
    assert!(result.is_ok());

    // Verify the record was inserted
    let conn = Connection::open(&db_path).unwrap();
    assert_eq!(count(&conn, "SELECT COUNT(*) FROM screenshots"), 1);
}

#[test]
fn test_insert_multiple_screenshots() {
    let temp_dir = TempDir::new().unwrap();
    let db_path = temp_dir.path().join("test.db");

    let mut db = ScreenshotDatabase::new(db_path.to_str().unwrap()).unwrap();

    // Insert multiple screenshot records
    for i in 1..=5 {
        let result = db.insert_screenshot(i, &now_utc(), &now_local());
        assert!(result.is_ok());
    }

    // Verify all records were inserted
    let conn = Connection::open(&db_path).unwrap();
    assert_eq!(count(&conn, "SELECT COUNT(*) FROM screenshots"), 5);
}

#[test]
fn test_migration_from_old_schema() {
    let temp_dir = TempDir::new().unwrap();
    let db_path = temp_dir.path().join("test.db");

    // Create a database with the old schema
    {
        let conn = Connection::open(&db_path).unwrap();

        // Create old schema with creation_date column
        conn.execute(
            "CREATE TABLE screenshots (
                id INTEGER PRIMARY KEY AUTOINCREMENT,
                frame_number INTEGER NOT NULL,
                creation_date TEXT NOT NULL
            )",
            [],
        )
        .unwrap();

        // Insert test data with old schema
        conn.execute(
            "INSERT INTO screenshots (frame_number, creation_date) VALUES (?1, ?2)",
            (1, "2024-01-01T12:00:00Z"),
        )
        .unwrap();

        conn.execute(
            "INSERT INTO screenshots (frame_number, creation_date) VALUES (?1, ?2)",
            (2, "2024-01-01T12:00:01Z"),
        )
        .unwrap();
    }

    // Open database with the store (should trigger migration)
    let _db = ScreenshotDatabase::new(db_path.to_str().unwrap()).unwrap();

    let conn = Connection::open(&db_path).unwrap();

    // Verify data was migrated
    assert_eq!(count(&conn, "SELECT COUNT(*) FROM screenshots"), 2);

    // Verify new schema columns exist
    let frame_1_created_at: String = conn
        .query_row(
            "SELECT created_at FROM screenshots WHERE frame_number = 1",
            [],
            |row| row.get(0),
        )
        .unwrap();
    assert_eq!(frame_1_created_at, "2024-01-01T12:00:00Z");

    let frame_1_local_time: String = conn
        .query_row(
            "SELECT local_time FROM screenshots WHERE frame_number = 1",
            [],
            |row| row.get(0),
        )
        .unwrap();
    assert_eq!(frame_1_local_time, "2024-01-01T12:00:00Z");

    // Verify migration was recorded
    assert_eq!(
        count(
            &conn,
            "SELECT COUNT(*) FROM migrations WHERE migration_name = 'split_timestamps'"
        ),
        1
    );
}

#[test]
fn test_migrations_table_created() {
    let temp_dir = TempDir::new().unwrap();
    let db_path = temp_dir.path().join("test.db");

    let _db = ScreenshotDatabase::new(db_path.to_str().unwrap()).unwrap();

    // Verify migrations table exists
    let conn = Connection::open(&db_path).unwrap();
    assert_eq!(
        count(
            &conn,
            "SELECT COUNT(*) FROM sqlite_master WHERE type='table' AND name='migrations'"
        ),
        1
    );
}

#[test]
fn test_migration_reopen_is_noop() {
    let temp_dir = TempDir::new().unwrap();
    let db_path = temp_dir.path().join("test.db");

    // Legacy schema with two rows.
    {
        let conn = Connection::open(&db_path).unwrap();
        conn.execute(
            "CREATE TABLE screenshots (
                id INTEGER PRIMARY KEY AUTOINCREMENT,
                frame_number INTEGER NOT NULL,
                creation_date TEXT NOT NULL
            )",
            [],
        )
        .unwrap();
        conn.execute(
            "INSERT INTO screenshots (frame_number, creation_date) VALUES (?1, ?2)",
            (1, "2024-01-01T12:00:00Z"),
        )
        .unwrap();
        conn.execute(
            "INSERT INTO screenshots (frame_number, creation_date) VALUES (?1, ?2)",
            (2, "2024-01-01T12:00:01Z"),
        )
        .unwrap();
    }

    // First open migrates; second open must change nothing further.
    {
        let _db = ScreenshotDatabase::new(db_path.to_str().unwrap()).unwrap();
    }
    let applied_at_before: String = {
        let conn = Connection::open(&db_path).unwrap();
        conn.query_row(
            "SELECT applied_at FROM migrations WHERE migration_name = 'split_timestamps'",
            [],
            |row| row.get(0),
        )
        .unwrap()
    };
    {
        let _db = ScreenshotDatabase::new(db_path.to_str().unwrap()).unwrap();
    }

    let conn = Connection::open(&db_path).unwrap();
    assert_eq!(count(&conn, "SELECT COUNT(*) FROM screenshots"), 2);
    assert_eq!(
        count(
            &conn,
            "SELECT COUNT(*) FROM migrations WHERE migration_name = 'split_timestamps'"
        ),
        1
    );
    let applied_at_after: String = conn
        .query_row(
            "SELECT applied_at FROM migrations WHERE migration_name = 'split_timestamps'",
            [],
            |row| row.get(0),
        )
        .unwrap();
    assert_eq!(applied_at_before, applied_at_after);
}

#[test]
fn test_get_screenshot_by_frame() {
    let temp_dir = TempDir::new().unwrap();
    let db_path = temp_dir.path().join("test.db");

    let mut db = ScreenshotDatabase::new(db_path.to_str().unwrap()).unwrap();
    db.insert_screenshot(7, "2024-05-06T07:08:09+00:00", "2024-05-06T09:08:09+02:00")
        .unwrap();

    let row = db.get_screenshot_by_frame(7).unwrap();
    assert_eq!(
        row,
        Some((
            "2024-05-06T07:08:09+00:00".to_string(),
            "2024-05-06T09:08:09+02:00".to_string()
        ))
    );

    let missing = db.get_screenshot_by_frame(8).unwrap();
    assert_eq!(missing, None);
}

#[test]
fn test_migration_planner_decision_table() {
    // Recorded in the ledger: never touch anything.
    assert_eq!(
        plan_split_timestamps_migration(true, true, false),
        MigrationAction::Nothing
    );
    assert_eq!(
        plan_split_timestamps_migration(true, false, true),
        MigrationAction::Nothing
    );
    // Legacy column without the new one: rewrite and record.
    assert_eq!(
        plan_split_timestamps_migration(false, true, false),
        MigrationAction::RewriteAndRecord
    );
    // Fresh or already-new schema: record only.
    assert_eq!(
        plan_split_timestamps_migration(false, false, true),
        MigrationAction::RecordOnly
    );
    assert_eq!(
        plan_split_timestamps_migration(false, false, false),
        MigrationAction::RecordOnly
    );
}
