use cc_switch::database::catalog::{
    providers_sql, CatalogAction, CatalogRead, CatalogRefresh, ProviderRow,
};
use cc_switch::database::init::{
    InitAction, InitRun, Setting, REQUEST_LOG_DAYS, SCHEMA_VERSION, STREAM_CHECK_LOG_DAYS,
};
use cc_switch::database::legacy::{LegacyDrop, LegacyProbe};
use cc_switch::database::memory::{MemoryAction, MemoryRun, LOG_SCHEMA_VERSION};
use cc_switch::database::migration::{Migration, MigrationAction};
use cc_switch::database::run::{Reply, Step, Store};
use cc_switch::database::tables::LogTable;
use cc_switch::database::vacuum::{
    get_auto_vacuum_mode, has_user_tables, AutoVacuum, AutoVacuumAction, Rebuild, RebuildAction,
};
use cc_switch::database::{Database, RowChange};
use cc_switch::error::{config_lock_error, logs_lock_error, to_json_string, AppError};

fn database(text: &str) -> AppError {
    AppError::Database(text.to_string())
}

fn failed(text: &str) -> Reply {
    Reply::Failed(text.to_string())
}

fn going<R, T>(step: Step<R, T>) -> R {
    match step {
        Step::Continue(run) => run,
        Step::Finished(_) => panic!("the run is over"),
    }
}

fn over<R, T>(step: Step<R, T>) -> Result<T, AppError> {
    match step {
        Step::Continue(_) => panic!("the run goes on"),
        Step::Finished(result) => result,
    }
}

/// Replies to everything as if it went well, and collects what was done.
fn bring_up(setting: Setting, version: i32, legacy: bool) -> (Vec<InitAction>, Result<(), AppError>) {
    let mut run = Database::init(setting);
    let mut done = Vec::new();
    loop {
        let action = run.action();
        done.push(action);
        let reply = match action {
            InitAction::ReadUserVersion => Reply::Pragma(version),
            InitAction::ProbeLegacyLogTables => Reply::Flag(legacy),
            InitAction::BackUp => Reply::Flag(true),
            _ => Reply::Done,
        };
        match run.next(reply) {
            Step::Continue(next) => run = next,
            Step::Finished(result) => return (done, result),
        }
    }
}

/// Brings a run up to where an action is due.
fn up_to(action: InitAction, version: i32, legacy: bool) -> InitRun {
    let mut run = Database::init(Setting { has_parent: true, db_exists: false, logs_exists: false });
    while run.action() != action {
        let reply = match run.action() {
            InitAction::ReadUserVersion => Reply::Pragma(version),
            InitAction::ProbeLegacyLogTables => Reply::Flag(legacy),
            InitAction::BackUp => Reply::Flag(true),
            _ => Reply::Done,
        };
        run = going(run.next(reply));
    }
    run
}

const CLOSING: [InitAction; 8] = [
    InitAction::RefreshProviderCatalogCache,
    InitAction::RegisterChangeHook,
    InitAction::EnsureIncrementalAutoVacuum,
    InitAction::SeedModelPricing,
    InitAction::SyncModelPricing,
    InitAction::CleanUpStreamCheckLogs,
    InitAction::RollUpAndPrune,
    InitAction::IncrementalVacuum,
];

#[test]
fn new_databases_are_brought_up() {
    let (done, result) =
        bring_up(Setting { has_parent: true, db_exists: false, logs_exists: false }, 0, false);
    let mut expected = vec![
        InitAction::CreateConfigDir,
        InitAction::OpenConfig,
        InitAction::ConfigForeignKeys,
        InitAction::ConfigAutoVacuum,
        InitAction::OpenLogs,
        InitAction::LogsForeignKeys,
        InitAction::LogsAutoVacuum,
        InitAction::ReadUserVersion,
        InitAction::ProbeLegacyLogTables,
        InitAction::CreateConfigTables,
        InitAction::CreateLogTables,
        InitAction::ApplySchemaMigrations,
        InitAction::DropLegacyLogTables,
        InitAction::SetUserVersion,
        InitAction::ApplyLogSchemaMigrations,
    ];
    expected.extend(CLOSING);
    assert_eq!(done, expected);
    assert_eq!(result, Ok(()));
}

#[test]
fn current_databases_are_brought_up() {
    let (done, result) = bring_up(
        Setting { has_parent: false, db_exists: true, logs_exists: true },
        SCHEMA_VERSION,
        false,
    );
    let mut expected = vec![
        InitAction::OpenConfig,
        InitAction::ConfigForeignKeys,
        InitAction::OpenLogs,
        InitAction::LogsForeignKeys,
        InitAction::ReadUserVersion,
        InitAction::ProbeLegacyLogTables,
        InitAction::CreateConfigTables,
        InitAction::ApplyLogSchemaMigrations,
    ];
    expected.extend(CLOSING);
    assert_eq!(done, expected);
    assert_eq!(result, Ok(()));
}

#[test]
fn unsplit_database_is_backed_up_and_split() {
    let (done, result) =
        bring_up(Setting { has_parent: true, db_exists: true, logs_exists: false }, 12, true);
    let mut expected = vec![
        InitAction::CreateConfigDir,
        InitAction::OpenConfig,
        InitAction::ConfigForeignKeys,
        InitAction::OpenLogs,
        InitAction::LogsForeignKeys,
        InitAction::LogsAutoVacuum,
        InitAction::ReadUserVersion,
        InitAction::ProbeLegacyLogTables,
        InitAction::BackUp,
        InitAction::CreateTables,
        InitAction::ApplySchemaMigrations,
        InitAction::ApplyLogSchemaMigrations,
        InitAction::MigrateLegacyLogTables,
    ];
    expected.extend(CLOSING);
    assert_eq!(done, expected);
    assert_eq!(result, Ok(()));
}

#[test]
fn newer_database_is_refused() {
    for legacy in [false, true] {
        let (done, result) =
            bring_up(Setting { has_parent: true, db_exists: true, logs_exists: true }, 20, legacy);
        assert_eq!(done.last(), Some(&InitAction::ProbeLegacyLogTables));
        assert_eq!(
            result,
            Err(database("数据库版本过新（20），当前应用仅支持 19，请升级应用后再尝试。"))
        );
    }
}

#[test]
fn missing_backup_is_refused() {
    let run = up_to(InitAction::BackUp, 3, true);
    assert_eq!(run.version(), 3);
    assert_eq!(
        over(run.next(Reply::Flag(false))),
        Err(database("拆分日志表前未能创建数据库备份"))
    );
}

#[test]
fn failures_of_the_opening_are_named() {
    let cases = [
        (InitAction::OpenConfig, "disk"),
        (InitAction::ConfigForeignKeys, "disk"),
        (InitAction::ConfigAutoVacuum, "disk"),
        (InitAction::OpenLogs, "打开日志数据库失败: disk"),
        (InitAction::LogsForeignKeys, "启用日志库外键约束失败: disk"),
        (InitAction::LogsAutoVacuum, "配置日志库 auto_vacuum 失败: disk"),
    ];
    for (action, message) in cases {
        assert_eq!(over(up_to(action, 0, false).next(failed("disk"))), Err(database(message)));
    }
}

#[test]
fn errors_of_procedures_are_handed_on() {
    let error = || AppError::Io { path: "p".to_string(), message: "m".to_string() };
    for action in [
        InitAction::CreateConfigDir,
        InitAction::ReadUserVersion,
        InitAction::ProbeLegacyLogTables,
        InitAction::CreateConfigTables,
        InitAction::ApplySchemaMigrations,
        InitAction::ApplyLogSchemaMigrations,
        InitAction::RefreshProviderCatalogCache,
        InitAction::SeedModelPricing,
        InitAction::IncrementalVacuum,
    ] {
        assert_eq!(over(up_to(action, 0, false).next(Reply::Refused(error()))), Err(error()));
    }
    assert_eq!(
        over(up_to(InitAction::MigrateLegacyLogTables, 0, true).next(Reply::Refused(error()))),
        Err(error())
    );
}

#[test]
fn housekeeping_failures_are_put_up_with() {
    let mut run = up_to(InitAction::EnsureIncrementalAutoVacuum, 19, false);
    for next in [
        InitAction::SeedModelPricing,
        InitAction::CleanUpStreamCheckLogs,
        InitAction::RollUpAndPrune,
        InitAction::IncrementalVacuum,
    ] {
        run = going(run.next(Reply::Refused(database("busy"))));
        assert_eq!(run.action(), next);
        if next == InitAction::SeedModelPricing {
            run = going(run.next(Reply::Done));
            assert_eq!(run.action(), InitAction::SyncModelPricing);
        }
    }
    assert_eq!(over(run.next(failed("busy"))), Ok(()));
}

#[test]
fn housekeeping_puts_up_with_any_failure() {
    for (action, next) in [
        (InitAction::EnsureIncrementalAutoVacuum, InitAction::SeedModelPricing),
        (InitAction::SyncModelPricing, InitAction::CleanUpStreamCheckLogs),
        (InitAction::CleanUpStreamCheckLogs, InitAction::RollUpAndPrune),
        (InitAction::RollUpAndPrune, InitAction::IncrementalVacuum),
    ] {
        assert_eq!(going(up_to(action, 19, false).next(failed("disk"))).action(), next);
        let refused = Reply::Refused(database("busy"));
        assert_eq!(going(up_to(action, 19, false).next(refused)).action(), next);
    }
    let refused = Reply::Refused(logs_lock_error("poisoned"));
    assert_eq!(
        over(up_to(InitAction::IncrementalVacuum, 19, false).next(refused)),
        Err(database("日志数据库 Mutex lock failed: poisoned"))
    );
}

#[test]
fn actions_carry_their_numbers() {
    assert_eq!(InitAction::SetUserVersion.version(), Some(19));
    assert_eq!(InitAction::ReadUserVersion.version(), None);
    assert_eq!(InitAction::CleanUpStreamCheckLogs.days(), Some(7));
    assert_eq!(InitAction::RollUpAndPrune.days(), Some(30));
    assert_eq!(InitAction::IncrementalVacuum.days(), None);
}

#[test]
fn second_start_does_not_split_again() {
    let files = Setting { has_parent: true, db_exists: true, logs_exists: true };
    let (first, result) = bring_up(files, 12, true);
    assert_eq!(result, Ok(()));
    assert!(first.contains(&InitAction::BackUp));
    assert!(first.contains(&InitAction::MigrateLegacyLogTables));
    let (second, result) = bring_up(files, 19, false);
    assert_eq!(result, Ok(()));
    assert!(!second.contains(&InitAction::BackUp));
    assert!(!second.contains(&InitAction::MigrateLegacyLogTables));
}

#[test]
fn reply_that_answers_nothing_changes_nothing() {
    let run = going(up_to(InitAction::ReadUserVersion, 0, false).next(Reply::Done));
    assert_eq!(run.action(), InitAction::ReadUserVersion);
    let run = going(up_to(InitAction::OpenConfig, 0, false).next(Reply::Count(1)));
    assert_eq!(run.action(), InitAction::OpenConfig);
}

#[test]
fn statements_of_the_opening() {
    assert_eq!(InitAction::ConfigForeignKeys.sql(), Some("PRAGMA foreign_keys = ON;"));
    assert_eq!(InitAction::LogsForeignKeys.sql(), Some("PRAGMA foreign_keys = ON;"));
    assert_eq!(InitAction::ConfigAutoVacuum.sql(), Some("PRAGMA auto_vacuum = INCREMENTAL;"));
    assert_eq!(InitAction::LogsAutoVacuum.sql(), Some("PRAGMA auto_vacuum = INCREMENTAL;"));
    assert_eq!(InitAction::IncrementalVacuum.sql(), Some("PRAGMA incremental_vacuum;"));
    assert_eq!(InitAction::BackUp.sql(), None);
    assert_eq!((STREAM_CHECK_LOG_DAYS, REQUEST_LOG_DAYS), (7, 30));
}

#[test]
fn stored_version_is_given_where_it_is_too_new() {
    let asked = |stored| Database::stored_user_version_exceeds_supported(stored);
    assert_eq!(asked(None), Ok(None));
    assert_eq!(asked(Some(Ok(19))), Ok(None));
    assert_eq!(asked(Some(Ok(0))), Ok(None));
    assert_eq!(asked(Some(Ok(20))), Ok(Some(20)));
    assert_eq!(asked(Some(Err(database("locked")))), Err(database("locked")));
}

#[test]
fn exceeding_version_is_the_one_that_is_refused() {
    for version in [0, 18, 19, 20, 99] {
        let (_, result) = bring_up(
            Setting { has_parent: true, db_exists: true, logs_exists: true },
            version,
            false,
        );
        let exceeds = Database::stored_user_version_exceeds_supported(Some(Ok(version)));
        assert_eq!(result.is_err(), exceeds == Ok(Some(version)));
    }
}

#[test]
fn databases_in_memory_are_set_up() {
    let mut run = Database::memory();
    let mut done = vec![run.action()];
    let result = loop {
        match run.next(Reply::Done) {
            Step::Continue(next) => {
                done.push(next.action());
                run = next;
            }
            Step::Finished(result) => break result,
        }
    };
    assert_eq!(
        done,
        vec![
            MemoryAction::OpenConfig,
            MemoryAction::OpenLogs,
            MemoryAction::ConfigForeignKeys,
            MemoryAction::ConfigAutoVacuum,
            MemoryAction::LogsForeignKeys,
            MemoryAction::CreateTables,
            MemoryAction::SetUserVersion,
            MemoryAction::RegisterChangeHook,
            MemoryAction::SetLogVersion,
            MemoryAction::RefreshProviderCatalogCache,
            MemoryAction::SeedModelPricing,
        ]
    );
    assert_eq!(result, Ok(()));
}

#[test]
fn failures_in_memory_are_handed_on() {
    assert_eq!(over(MemoryRun::start().next(failed("oom"))), Err(database("oom")));
    let error = AppError::Config("c".to_string());
    assert_eq!(
        over(MemoryRun::start().next(Reply::Refused(error))),
        Err(AppError::Config("c".to_string()))
    );
    assert_eq!(MemoryAction::SetUserVersion.version(), Some(19));
    assert_eq!(MemoryAction::SetLogVersion.version(), Some(LOG_SCHEMA_VERSION));
    assert_eq!(LOG_SCHEMA_VERSION, 1);
    assert_eq!(MemoryAction::ConfigAutoVacuum.sql(), Some("PRAGMA auto_vacuum = INCREMENTAL;"));
    assert_eq!(MemoryAction::CreateTables.sql(), None);
}

#[test]
fn search_stops_at_the_first_log_table() {
    let names = [
        "proxy_request_logs",
        "usage_daily_rollups",
        "stream_check_logs",
        "provider_health",
        "session_log_sync",
        "session_usage_dedup",
    ];
    for hit in 0..6 {
        let mut probe = LegacyProbe::start();
        for name in &names[..hit] {
            assert_eq!(probe.table().name(), *name);
            probe = going(probe.next(Reply::Flag(false)));
        }
        assert_eq!(probe.table().name(), names[hit]);
        assert_eq!(over(probe.next(Reply::Flag(true))), Ok(true));
    }
}

#[test]
fn search_without_a_log_table_finds_none() {
    let mut probe = LegacyProbe::start();
    for _ in 0..5 {
        probe = going(probe.next(Reply::Flag(false)));
    }
    assert_eq!(over(probe.next(Reply::Flag(false))), Ok(false));
    assert_eq!(
        over(LegacyProbe::start().next(Reply::Refused(database("x")))),
        Err(database("x"))
    );
}

#[test]
fn failed_search_is_over() {
    assert_eq!(over(LegacyProbe::start().next(failed("disk"))), Err(database("disk")));
    let probe = going(LegacyProbe::start().next(Reply::Flag(false)));
    assert_eq!(over(probe.next(failed("disk"))), Err(database("disk")));
}

#[test]
fn log_tables_are_dropped_in_order() {
    let mut run = LegacyDrop::start();
    let mut statements = vec![run.sql()];
    let result = loop {
        match run.next(Reply::Done) {
            Step::Continue(next) => {
                statements.push(next.sql());
                run = next;
            }
            Step::Finished(result) => break result,
        }
    };
    assert_eq!(
        statements,
        vec![
            "DROP TABLE IF EXISTS provider_health",
            "DROP TABLE IF EXISTS proxy_request_logs",
            "DROP TABLE IF EXISTS stream_check_logs",
            "DROP TABLE IF EXISTS usage_daily_rollups",
            "DROP TABLE IF EXISTS session_log_sync",
            "DROP TABLE IF EXISTS session_usage_dedup",
            "DROP TABLE IF EXISTS provider_catalog_cache",
        ]
    );
    assert_eq!(result, Ok(()));
}

#[test]
fn failed_drop_names_the_table() {
    let run = going(LegacyDrop::start().next(Reply::Done));
    assert_eq!(
        over(run.next(failed("locked"))),
        Err(database("删除旧日志表 proxy_request_logs 失败: locked"))
    );
}

/// Replies to a migration as if these tables were there and everything went well.
fn migrate(present: &[LogTable]) -> (Vec<MigrationAction>, Result<(), AppError>) {
    let mut run = Migration::start();
    let mut done = Vec::new();
    loop {
        done.push(run.action);
        let reply = match run.action {
            MigrationAction::Probe(_) => Reply::Flag(present.contains(&run.table().unwrap())),
            MigrationAction::CountSource(_) => Reply::Count(3),
            MigrationAction::CountTarget(_) => Reply::Count(4),
            MigrationAction::CheckIntegrity => Reply::Text("ok".to_string()),
            _ => Reply::Done,
        };
        match run.next(reply) {
            Step::Continue(next) => run = next,
            Step::Finished(result) => return (done, result),
        }
    }
}

/// Brings a migration of all tables up to where an action is due.
fn migration_at(action: MigrationAction) -> Migration {
    let mut run = Migration::start();
    while run.action != action {
        let reply = match run.action {
            MigrationAction::Probe(_) => Reply::Flag(true),
            MigrationAction::CountSource(_) | MigrationAction::CountTarget(_) => Reply::Count(5),
            MigrationAction::CheckIntegrity => Reply::Text("ok".to_string()),
            _ => Reply::Done,
        };
        run = going(run.next(reply));
    }
    run
}

#[test]
fn only_tables_that_are_there_are_migrated() {
    let (done, result) = migrate(&[LogTable::StreamCheckLogs]);
    assert_eq!(
        done,
        vec![
            MigrationAction::Attach,
            MigrationAction::Probe(0),
            MigrationAction::Probe(1),
            MigrationAction::Probe(2),
            MigrationAction::CopyRows(2),
            MigrationAction::CountSource(2),
            MigrationAction::CountTarget(2),
            MigrationAction::Probe(3),
            MigrationAction::Probe(4),
            MigrationAction::Probe(5),
            MigrationAction::CheckIntegrity,
            MigrationAction::Detach,
            MigrationAction::DropLegacyTables,
            MigrationAction::Vacuum,
        ]
    );
    assert_eq!(result, Ok(()));
}

#[test]
fn every_table_can_be_migrated() {
    let all = [
        LogTable::ProviderHealth,
        LogTable::ProxyRequestLogs,
        LogTable::StreamCheckLogs,
        LogTable::UsageDailyRollups,
        LogTable::SessionLogSync,
        LogTable::SessionUsageDedup,
    ];
    let (done, result) = migrate(&all);
    assert_eq!(done.len(), 1 + 4 * 6 + 4);
    assert_eq!(result, Ok(()));
}

#[test]
fn short_copy_ends_the_migration() {
    let run = migration_at(MigrationAction::CountTarget(3));
    assert_eq!(
        over(run.next(Reply::Count(4))),
        Err(database("迁移日志表 usage_daily_rollups 校验失败：源 5 行，目标 4 行"))
    );
}

#[test]
fn failed_integrity_check_ends_the_migration() {
    let run = migration_at(MigrationAction::CheckIntegrity);
    assert_eq!(
        over(run.next(Reply::Text("row 3 missing".to_string()))),
        Err(database("日志数据库完整性校验失败: row 3 missing"))
    );
}

#[test]
fn failures_of_the_migration_are_named() {
    let cases = [
        (MigrationAction::Attach, "挂载旧配置数据库失败: e"),
        (MigrationAction::CopyRows(0), "迁移日志表 provider_health 失败: e"),
        (MigrationAction::CheckIntegrity, "校验日志数据库失败: e"),
        (MigrationAction::Detach, "卸载旧配置数据库失败: e"),
        (MigrationAction::Vacuum, "压缩配置数据库失败: e"),
    ];
    for (action, message) in cases {
        assert_eq!(over(migration_at(action).next(failed("e"))), Err(database(message)));
    }
    for action in [
        MigrationAction::Probe(1),
        MigrationAction::CountSource(1),
        MigrationAction::DropLegacyTables,
    ] {
        assert_eq!(
            over(migration_at(action).next(Reply::Refused(database("r")))),
            Err(database("r"))
        );
    }
}

#[test]
fn statements_of_the_migration() {
    let sql = |action: MigrationAction| action.sql();
    assert_eq!(sql(MigrationAction::Attach), Some("ATTACH DATABASE ?1 AS legacy".to_string()));
    assert_eq!(
        sql(MigrationAction::CopyRows(5)),
        Some(
            "INSERT OR REPLACE INTO session_usage_dedup (data_source, request_id, semantic_id, has_entry_id) SELECT data_source, request_id, semantic_id, has_entry_id FROM legacy.session_usage_dedup"
                .to_string()
        )
    );
    assert_eq!(
        sql(MigrationAction::CountSource(4)),
        Some("SELECT COUNT(*) FROM session_log_sync".to_string())
    );
    assert_eq!(sql(MigrationAction::CheckIntegrity), Some("PRAGMA integrity_check".to_string()));
    assert_eq!(sql(MigrationAction::Detach), Some("DETACH DATABASE legacy;".to_string()));
    assert_eq!(sql(MigrationAction::Vacuum), Some("VACUUM;".to_string()));
    assert_eq!(sql(MigrationAction::Probe(0)), None);
    assert_eq!(MigrationAction::CountSource(0).store(), Store::Config);
    assert_eq!(MigrationAction::CountTarget(0).store(), Store::Logs);
    assert_eq!(MigrationAction::Vacuum.store(), Store::Config);
}

#[test]
fn columns_of_the_tables() {
    assert_eq!(
        LogTable::ProviderHealth.columns(),
        "provider_id, app_type, is_healthy, consecutive_failures, last_success_at, last_failure_at, last_error, updated_at"
    );
    assert_eq!(LogTable::ProxyRequestLogs.columns().split(", ").count(), 27);
    assert_eq!(LogTable::StreamCheckLogs.columns().split(", ").count(), 12);
    assert_eq!(LogTable::UsageDailyRollups.columns().split(", ").count(), 15);
    assert_eq!(LogTable::SessionLogSync.columns().split(", ").count(), 6);
}

#[test]
fn incremental_database_is_left_alone() {
    assert_eq!(over(Rebuild::start().next(Reply::Pragma(2))), Ok(false));
    assert_eq!(over(AutoVacuum::start().next(Reply::Pragma(2))), Ok(false));
}

#[test]
fn database_without_tables_is_only_set() {
    let run = going(Rebuild::start().next(Reply::Pragma(0)));
    let run = going(run.next(Reply::Count(0)));
    assert_eq!(run.action, RebuildAction::SetIncremental);
    assert_eq!(over(run.next(Reply::Done)), Ok(false));
}

#[test]
fn database_with_tables_is_rebuilt() {
    let mut run = Rebuild::start();
    let mut statements = vec![run.action.sql()];
    for reply in [Reply::Pragma(1), Reply::Count(2), Reply::Done, Reply::Done] {
        run = going(run.next(reply));
        statements.push(run.action.sql());
    }
    assert_eq!(
        statements,
        vec![
            "PRAGMA auto_vacuum;",
            "SELECT COUNT(*) FROM sqlite_master WHERE type = 'table' AND name NOT LIKE 'sqlite_%'",
            "PRAGMA auto_vacuum = INCREMENTAL;",
            "VACUUM;",
            "PRAGMA foreign_keys = ON;",
        ]
    );
    assert_eq!(over(run.next(Reply::Done)), Ok(true));
}

/// The outcome of a rebuild of a file with this mode and this many tables, and its actions.
fn rebuild(mode: i32, tables: i64) -> (bool, Vec<RebuildAction>) {
    let mut run = Rebuild::start();
    let mut done = Vec::new();
    loop {
        done.push(run.action);
        let reply = match run.action {
            RebuildAction::ReadMode => Reply::Pragma(mode),
            RebuildAction::CountTables => Reply::Count(tables),
            _ => Reply::Done,
        };
        match run.next(reply) {
            Step::Continue(next) => run = next,
            Step::Finished(result) => return (result.unwrap(), done),
        }
    }
}

#[test]
fn file_is_rebuilt_once() {
    let (rebuilt, done) = rebuild(0, 3);
    assert!(rebuilt && done.contains(&RebuildAction::Vacuum));
    assert_eq!(rebuild(2, 3), (false, vec![RebuildAction::ReadMode]));
}

#[test]
fn auto_vacuum_comes_to_what_the_rebuild_did() {
    for (mode, tables, expected) in
        [(2, 0, false), (2, 5, false), (0, 0, false), (1, 0, false), (0, 5, true), (1, 1, true)]
    {
        let mut run = AutoVacuum::start();
        let result = loop {
            let reply = match run.action {
                AutoVacuumAction::ReadMode => Reply::Pragma(mode),
                AutoVacuumAction::CountTables => Reply::Count(tables),
                AutoVacuumAction::BackUp => Reply::Flag(true),
                AutoVacuumAction::Rebuild => Reply::Flag(rebuild(mode, tables).0),
            };
            match run.next(reply) {
                Step::Continue(next) => run = next,
                Step::Finished(result) => break result,
            }
        };
        assert_eq!(result, Ok(expected));
    }
}

#[test]
fn failures_of_the_rebuild_are_named() {
    let mut run = Rebuild::start();
    let cases = [
        ("读取 auto_vacuum 失败: e", Reply::Pragma(1)),
        ("读取表数量失败: e", Reply::Count(1)),
        ("设置 auto_vacuum 失败: e", Reply::Done),
        ("执行 VACUUM 失败: e", Reply::Done),
    ];
    for (message, onward) in cases {
        assert_eq!(over(run.next(failed("e"))), Err(database(message)));
        run = going(run.next(onward));
    }
    assert_eq!(over(run.next(failed("e"))), Err(database("恢复 foreign_keys 失败: e")));
}

#[test]
fn tables_are_backed_up_before_a_rebuild() {
    let run = going(AutoVacuum::start().next(Reply::Pragma(0)));
    let run = going(run.next(Reply::Count(1)));
    assert_eq!(run.action, AutoVacuumAction::BackUp);
    assert_eq!(over(run.next(Reply::Refused(database("full")))), Err(database("full")));
    let run = going(run.next(Reply::Flag(false)));
    assert_eq!(run.action, AutoVacuumAction::Rebuild);
    assert_eq!(over(run.next(Reply::Flag(true))), Ok(true));
    let empty = going(going(AutoVacuum::start().next(Reply::Pragma(0))).next(Reply::Count(0)));
    assert_eq!(empty.action, AutoVacuumAction::Rebuild);
    assert_eq!(AutoVacuumAction::ReadMode.sql(), Some("PRAGMA auto_vacuum;"));
    assert_eq!(AutoVacuumAction::BackUp.sql(), None);
}

#[test]
fn failures_before_a_rebuild_are_named() {
    let run = AutoVacuum::start();
    assert_eq!(over(run.next(failed("e"))), Err(database("读取 auto_vacuum 失败: e")));
    let run = going(run.next(Reply::Pragma(1)));
    assert_eq!(over(run.next(failed("e"))), Err(database("读取表数量失败: e")));
}

#[test]
fn queries_of_settings() {
    assert_eq!(get_auto_vacuum_mode(Ok(2)), Ok(2));
    assert_eq!(
        get_auto_vacuum_mode(Err("e".to_string())),
        Err(database("读取 auto_vacuum 失败: e"))
    );
    assert_eq!(has_user_tables(Ok(0)), Ok(false));
    assert_eq!(has_user_tables(Ok(1)), Ok(true));
    assert_eq!(has_user_tables(Err("e".to_string())), Err(database("读取表数量失败: e")));
}

fn row(id: &str) -> ProviderRow {
    ProviderRow { id: id.to_string(), app_type: "codex".to_string(), name: format!("name {id}") }
}

#[test]
fn refresh_adds_every_provider() {
    let mut run = going(CatalogRefresh::start(CatalogRead::Rows(vec![row("a"), row("b")])));
    let mut done = Vec::new();
    let mut added = Vec::new();
    let result = loop {
        done.push(run.action());
        if let Some(row) = run.row() {
            added.push((row.id.clone(), row.app_type.clone(), row.name.clone()));
        }
        match run.next(Reply::Done) {
            Step::Continue(next) => run = next,
            Step::Finished(result) => break result,
        }
    };
    assert_eq!(
        done,
        vec![
            CatalogAction::Begin,
            CatalogAction::Clear,
            CatalogAction::PrepareInsert,
            CatalogAction::Insert(0),
            CatalogAction::Insert(1),
            CatalogAction::Commit,
        ]
    );
    assert_eq!(
        added,
        vec![
            ("a".to_string(), "codex".to_string(), "name a".to_string()),
            ("b".to_string(), "codex".to_string(), "name b".to_string()),
        ]
    );
    assert_eq!(result, Ok(()));
}

#[test]
fn refresh_without_providers_empties_the_cache() {
    let mut run = going(CatalogRefresh::start(CatalogRead::Rows(Vec::new())));
    for _ in 0..3 {
        run = going(run.next(Reply::Done));
    }
    assert_eq!(run.action(), CatalogAction::Commit);
    assert_eq!(over(run.next(Reply::Done)), Ok(()));
}

#[test]
fn failures_of_the_refresh_are_named() {
    let messages = [
        "刷新供应商目录失败: e",
        "清理供应商目录缓存失败: e",
        "准备供应商目录缓存失败: e",
        "写入供应商目录缓存失败: e",
        "提交供应商目录缓存失败: e",
    ];
    for (place, message) in messages.iter().enumerate() {
        let mut run = going(CatalogRefresh::start(CatalogRead::Rows(vec![row("a")])));
        for _ in 0..place {
            run = going(run.next(Reply::Done));
        }
        assert_eq!(over(run.next(failed("e"))), Err(database(message)));
    }
    assert_eq!(
        over(CatalogRefresh::start(CatalogRead::Failed("e".to_string()))),
        Err(database("读取供应商目录失败: e"))
    );
    assert_eq!(
        over(CatalogRefresh::start(CatalogRead::Refused(database("r")))),
        Err(database("r"))
    );
}

#[test]
fn statements_of_the_refresh() {
    assert_eq!(providers_sql(), "SELECT id, app_type, name FROM providers");
    assert_eq!(CatalogAction::Clear.sql(), Some("DELETE FROM provider_catalog_cache"));
    assert_eq!(
        CatalogAction::PrepareInsert.sql(),
        Some("INSERT INTO provider_catalog_cache (provider_id, app_type, name) VALUES (?1, ?2, ?3)")
    );
    assert_eq!(CatalogAction::Commit.sql(), None);
}

#[test]
fn empty_tables_are_told_by_their_count() {
    assert_eq!(Database::is_mcp_table_empty(Ok(0)), Ok(true));
    assert_eq!(Database::is_mcp_table_empty(Ok(2)), Ok(false));
    assert_eq!(Database::is_prompts_table_empty(Ok(0)), Ok(true));
    assert_eq!(
        Database::is_prompts_table_empty(Err("no such table".to_string())),
        Err(database("no such table"))
    );
    assert_eq!(Database::mcp_servers_sql(), "SELECT COUNT(*) FROM mcp_servers");
    assert_eq!(Database::prompts_sql(), "SELECT COUNT(*) FROM prompts");
}

#[test]
fn row_changes_are_reported() {
    assert!(RowChange::Insert.is_reported());
    assert!(RowChange::Update.is_reported());
    assert!(RowChange::Delete.is_reported());
    assert!(!RowChange::Unknown.is_reported());
}

#[test]
fn errors_say_what_went_wrong() {
    assert_eq!(config_lock_error("poisoned"), database("Mutex lock failed: poisoned"));
    assert_eq!(logs_lock_error("poisoned"), database("日志数据库 Mutex lock failed: poisoned"));
    assert_eq!(to_json_string(Ok("{}".to_string())), Ok("{}".to_string()));
    assert_eq!(
        to_json_string(Err("bad key".to_string())),
        Err(AppError::Config("JSON serialization failed: bad key".to_string()))
    );
}
