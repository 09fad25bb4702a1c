//! What holds of the single questions that are asked of the databases.

use vstd::prelude::*;
use vstd::string::*;

use crate::database::init::{InitAction, InitRun, Setting};
use crate::database::memory::{MemoryAction, MemoryRun};
use crate::database::migration::Migration;
use crate::database::run::{Reply, ReplyView, Step, StepView};
use crate::database::vacuum::{
    get_auto_vacuum_mode, has_user_tables, AutoVacuumAction, RebuildAction,
};
use crate::database::{Database, RowChange};
use crate::error::{
    config_lock_error, database_error, joined, joined3, logs_lock_error, to_json_string, AppError,
    ErrorView,
};

verus! {

/// A table counts as empty exactly where it has no row, and a count that failed is a database
/// error with the cause. The two tables are asked of in the same way.
pub proof fn law_emptiness(
    count: Result<i64, String>,
    mcp: Result<bool, AppError>,
    prompts: Result<bool, AppError>,
)
    requires
        call_ensures(Database::is_mcp_table_empty, (count,), mcp),
        call_ensures(Database::is_prompts_table_empty, (count,), prompts),
    ensures
        match count {
            Ok(rows) => {
                &&& mcp matches Ok(empty) && (empty <==> rows == 0)
                &&& prompts matches Ok(empty) && (empty <==> rows == 0)
            },
            Err(cause) => {
                &&& mcp matches Err(error) && error@ == ErrorView::Database(cause@)
                &&& prompts matches Err(error) && error@ == ErrorView::Database(cause@)
            },
        },
{
}

/// A stored version is given out exactly where it is later than the supported one.
pub proof fn law_stored_version(
    stored: Option<Result<i32, AppError>>,
    result: Result<Option<i32>, AppError>,
)
    requires
        call_ensures(Database::stored_user_version_exceeds_supported, (stored,), result),
    ensures
        match stored {
            None => result matches Ok(None),
            Some(Ok(version)) => {
                &&& version > 19 ==> (result matches Ok(Some(given)) && given == version)
                &&& version <= 19 ==> (result matches Ok(None))
            },
            Some(Err(error)) => result matches Err(e) && e@ == error@,
        },
{
}

/// The mode is handed on, and a database has tables of its own exactly where it counts some.
pub proof fn law_queries(
    mode: Result<i32, String>,
    given: Result<i32, AppError>,
    count: Result<i64, String>,
    found: Result<bool, AppError>,
)
    requires
        call_ensures(get_auto_vacuum_mode, (mode,), given),
        call_ensures(has_user_tables, (count,), found),
    ensures
        match mode {
            Ok(mode) => given matches Ok(m) && m == mode,
            Err(cause) => given matches Err(error) && error@ == ErrorView::Database(
                "读取 auto_vacuum 失败: "@ + cause@,
            ),
        },
        match count {
            Ok(count) => found matches Ok(tables) && (tables <==> count > 0),
            Err(cause) => found matches Err(error) && error@ == ErrorView::Database(
                "读取表数量失败: "@ + cause@,
            ),
        },
{
}

/// Insertions, updates and deletions are reported, and nothing else is.
pub proof fn law_reported_changes(change: RowChange, reported: bool)
    requires
        call_ensures(RowChange::is_reported, (change,), reported),
    ensures
        reported <==> change == RowChange::Insert || change == RowChange::Update || change
            == RowChange::Delete,
{
}

/// An error says what was being done and then the cause, whole.
pub proof fn law_errors_name_their_cause(
    context: &str,
    cause: &str,
    error: AppError,
    config: AppError,
    logs: AppError,
)
    requires
        call_ensures(database_error, (context, cause), error),
        call_ensures(config_lock_error, (cause,), config),
        call_ensures(logs_lock_error, (cause,), logs),
    ensures
        error@ == ErrorView::Database(context@ + cause@),
        config@ == ErrorView::Database("Mutex lock failed: "@ + cause@),
        logs@ == ErrorView::Database("日志数据库 Mutex lock failed: "@ + cause@),
{
}

/// Texts are joined whole, in their order.
pub proof fn law_joined(first: &str, second: &str, third: &str, two: String, three: String)
    requires
        call_ensures(joined, (first, second), two),
        call_ensures(joined3, (first, second, third), three),
    ensures
        two@ == first@ + second@,
        three@ == first@ + second@ + third@,
{
}

/// Errors and replies are viewed whole.
pub proof fn law_views_are_whole(
    text: String,
    other: String,
    error: AppError,
    flag: bool,
    number: i32,
    count: i64,
)
    ensures
        AppError::Config(text)@ == ErrorView::Config(text@),
        AppError::Database(text)@ == ErrorView::Database(text@),
        (AppError::Io { path: text, message: other })@ == (ErrorView::Io {
            path: text@,
            message: other@,
        }),
        Reply::Done@ == ReplyView::Done,
        Reply::Flag(flag)@ == ReplyView::Flag(flag),
        Reply::Pragma(number)@ == ReplyView::Pragma(number),
        Reply::Count(count)@ == ReplyView::Count(count),
        Reply::Text(text)@ == ReplyView::Text(text@),
        Reply::Failed(text)@ == ReplyView::Failed(text@),
        Reply::Refused(error)@ == ReplyView::Refused(error@),
        Step::<Migration, ()>::Finished(Err(error))@ == StepView::<Migration, ()>::Finished(
            Err(error@),
        ),
        Step::<Migration, bool>::Finished(Ok(flag))@ == StepView::<Migration, bool>::Finished(
            Ok(flag),
        ),
{
}

/// A document is handed on as it is, and a failure to write one is a configuration error with the
/// cause.
pub proof fn law_json_document(
    serialized: Result<String, String>,
    document: Result<String, AppError>,
)
    requires
        call_ensures(to_json_string, (serialized,), document),
    ensures
        match serialized {
            Ok(text) => document matches Ok(given) && given@ == text@,
            Err(cause) => document matches Err(error) && error@ == ErrorView::Config(
                "JSON serialization failed: "@ + cause@,
            ),
        },
{
}

/// A start begins with nothing done and nothing known but its setting.
pub proof fn law_start_begins_at_the_beginning(setting: Setting, run: InitRun)
    requires
        call_ensures(Database::init, (setting,), run),
    ensures
        run.wf(),
        run@.setting == setting,
        run@.legacy is None,
        run@.position == 0,
{
}

/// Which statements a start executes itself, what it notes, and how many days of logs it leaves.
pub proof fn law_numbers_of_a_start(
    action: InitAction,
    sql: Option<&'static str>,
    version: Option<i32>,
    days: Option<i64>,
)
    requires
        call_ensures(InitAction::sql, (action,), sql),
        call_ensures(InitAction::version, (action,), version),
        call_ensures(InitAction::days, (action,), days),
    ensures
        action == InitAction::ConfigForeignKeys || action == InitAction::LogsForeignKeys ==> (
        sql matches Some(sql) && sql@ == "PRAGMA foreign_keys = ON;"@),
        action == InitAction::ConfigAutoVacuum || action == InitAction::LogsAutoVacuum ==> (
        sql matches Some(sql) && sql@ == "PRAGMA auto_vacuum = INCREMENTAL;"@),
        action == InitAction::IncrementalVacuum ==> (sql matches Some(sql) && sql@
            == "PRAGMA incremental_vacuum;"@),
        version is Some <==> action == InitAction::SetUserVersion,
        version is Some ==> version == Some(19i32),
        days is Some <==> action == InitAction::CleanUpStreamCheckLogs || action
            == InitAction::RollUpAndPrune,
        action == InitAction::CleanUpStreamCheckLogs ==> days == Some(7i64),
        action == InitAction::RollUpAndPrune ==> days == Some(30i64),
{
}

/// The actions that set databases in memory up, in their order.
pub proof fn law_memory_actions(run: MemoryRun, action: MemoryAction)
    requires
        run.wf(),
        call_ensures(MemoryRun::action, (run,), action),
    ensures
        run.position < 11,
        action == seq![
            MemoryAction::OpenConfig,
            MemoryAction::OpenLogs,
            MemoryAction::ConfigForeignKeys,
            MemoryAction::ConfigAutoVacuum,
            MemoryAction::LogsForeignKeys,
            MemoryAction::CreateTables,
            MemoryAction::SetUserVersion,
            MemoryAction::RegisterChangeHook,
            MemoryAction::SetLogVersion,
            MemoryAction::RefreshProviderCatalogCache,
            MemoryAction::SeedModelPricing,
        ][run.position as int],
{
}

/// A rebuild and the question before it ask in the same words.
pub proof fn law_same_questions(
    asked: Option<&'static str>,
    counted: Option<&'static str>,
    mode: &'static str,
    tables: &'static str,
)
    requires
        call_ensures(AutoVacuumAction::sql, (AutoVacuumAction::ReadMode,), asked),
        call_ensures(AutoVacuumAction::sql, (AutoVacuumAction::CountTables,), counted),
        call_ensures(RebuildAction::sql, (RebuildAction::ReadMode,), mode),
        call_ensures(RebuildAction::sql, (RebuildAction::CountTables,), tables),
    ensures
        asked matches Some(asked) && asked@ == mode@,
        counted matches Some(counted) && counted@ == tables@,
        mode@ == "PRAGMA auto_vacuum;"@,
{
}

} // verus!
