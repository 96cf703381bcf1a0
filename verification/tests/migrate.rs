use kbr_api_rust::db::migrate::{migrate_command, MigrateCommand};
use kbr_api_rust::db::migrate::rollback_steps;
use kbr_api_rust::db::migrate::{
    ensure_schema_in_sync, pending_migrations, rollback_target, Migration, PendingMigration,
};
use kbr_api_rust::error::AppError;

fn m(version: i64, description: &str, is_up: bool) -> Migration {
    Migration { version, description: description.to_string(), is_up }
}

#[test]
fn pending_lists_unapplied_up_migrations_in_order() {
    let available = vec![
        m(1, "create users", true),
        m(1, "create users", false),
        m(2, "create artists", true),
        m(3, "create news", true),
        m(3, "create news", false),
    ];
    let pending = pending_migrations(&[1], &available);
    let versions: Vec<i64> = pending.iter().map(|p| p.version).collect();
    assert_eq!(versions, vec![2, 3]);
    assert_eq!(pending[0].description, "create artists");
}

#[test]
fn nothing_pending_when_all_applied() {
    let available = vec![m(1, "a", true), m(2, "b", true)];
    assert!(pending_migrations(&[1, 2], &available).is_empty());
}

#[test]
fn rollback_one_step_targets_previous_version() {
    assert_eq!(rollback_target(&[10, 20, 30], 1), Ok(20));
    assert_eq!(rollback_target(&[10, 20, 30], 2), Ok(10));
}

#[test]
fn rollback_all_steps_targets_zero() {
    assert_eq!(rollback_target(&[10, 20, 30], 3), Ok(0));
    assert_eq!(rollback_target(&[], 0), Ok(0));
}

#[test]
fn rollback_too_many_steps_fails() {
    let r = rollback_target(&[10, 20], 5);
    assert_eq!(
        r,
        Err(AppError::MigrationFailed(
            "Cannot rollback 5 step(s): only 2 migration(s) applied".to_string()
        ))
    );
}

#[test]
fn schema_in_sync_when_nothing_pending() {
    assert!(ensure_schema_in_sync(&[]).is_ok());
}

#[test]
fn schema_out_of_sync_lists_pending() {
    let pending = vec![
        PendingMigration { version: 20240101, description: "add users".to_string() },
        PendingMigration { version: 20240202, description: "add news".to_string() },
    ];
    let err = ensure_schema_in_sync(&pending).unwrap_err();
    assert_eq!(
        err,
        AppError::SchemaOutOfSync(
            2,
            "Run: cargo run --bin kbr-migrate -- migrate\nPending: 20240101 (add users), 20240202 (add news)"
                .to_string()
        )
    );
    assert_eq!(err.status_code(), 500);
}

#[test]
fn tool_commands_are_read_from_the_first_argument() {
    assert_eq!(migrate_command(None), MigrateCommand::Help);
    assert_eq!(migrate_command(Some("help")), MigrateCommand::Help);
    assert_eq!(migrate_command(Some("--help")), MigrateCommand::Help);
    assert_eq!(migrate_command(Some("-h")), MigrateCommand::Help);
    assert_eq!(migrate_command(Some("migrate")), MigrateCommand::Migrate);
    assert_eq!(migrate_command(Some("rollback")), MigrateCommand::Rollback);
    assert_eq!(migrate_command(Some("status")), MigrateCommand::Status);
    assert_eq!(migrate_command(Some("check")), MigrateCommand::Check);
    assert_eq!(migrate_command(Some("seed")), MigrateCommand::Unknown);
}

#[test]
fn rollback_defaults_to_one_step() {
    assert_eq!(rollback_steps(None), 1);
    assert_eq!(rollback_steps(Some("3")), 3);
    assert_eq!(rollback_steps(Some("+2")), 2);
    assert_eq!(rollback_steps(Some("0")), 0);
    assert_eq!(rollback_steps(Some("-1")), 1);
    assert_eq!(rollback_steps(Some("x")), 1);
    assert_eq!(rollback_steps(Some("4294967296")), 1);
    assert_eq!(rollback_steps(Some("4294967295")), 4294967295);
}
