//! The configuration database and the log database: how they are brought up and kept.

use vstd::prelude::*;
use vstd::string::*;

use crate::database::init::{
    init_next, too_new, InitAction, InitRun, InitView, Setting, SCHEMA_VERSION,
};
use crate::database::memory::MemoryRun;
use crate::database::run::{ReplyView, StepView};
use crate::error::{result_view, AppError, ErrorView};

pub mod catalog;
pub mod catalog_laws;
pub mod decision_laws;
pub mod drop_laws;
pub mod failure_laws;
pub mod init;
pub mod init_laws;
pub mod legacy;
pub mod memory;
pub mod migration;
pub mod plan_laws;
pub mod run;
pub mod start_laws;
pub mod statement_laws;
pub mod step_laws;
pub mod tables;
pub mod vacuum;

verus! {

/// The pair of databases: configuration and logs. The open connections are the caller's; what is
/// decided about them stands here.
pub struct Database;

/// A change of a row that the database reports.
#[derive(Clone, Copy, PartialEq, Eq, Structural)]
pub enum RowChange {
    Insert,
    Update,
    Delete,
    /// Something that the database has no name for.
    Unknown,
}

impl RowChange {
    /// Whether the synchronisation services are told of the change.
    pub fn is_reported(self) -> (reported: bool)
        ensures
            reported == !(self is Unknown),
    {
        match self {
            RowChange::Insert | RowChange::Update | RowChange::Delete => true,
            RowChange::Unknown => false,
        }
    }
}

/// Whether a table is empty, from what counting its rows came to.
pub open spec fn emptiness(count: Result<i64, String>) -> Result<bool, ErrorView> {
    match count {
        Ok(count) => Ok(count == 0),
        Err(cause) => Err(ErrorView::Database(cause@)),
    }
}

fn is_empty(count: Result<i64, String>) -> (empty: Result<bool, AppError>)
    ensures
        result_view(empty) == emptiness(count),
{
    match count {
        Ok(count) => Ok(count == 0),
        Err(cause) => Err(AppError::Database(cause)),
    }
}

impl Database {
    /// Begins to bring up the databases.
    pub fn init(setting: Setting) -> (run: InitRun)
        ensures
            run.wf(),
            run@ == InitView::begun(setting),
    {
        InitRun::start(setting)
    }

    /// Begins to set up databases in memory.
    pub fn memory() -> (run: MemoryRun)
        ensures
            run == (MemoryRun { position: 0 }),
            run.wf(),
    {
        MemoryRun::start()
    }

    /// The stored schema version, where it is of a later application than this one. There is
    /// none where there is no file, and an error in reading it is handed on.
    pub fn stored_user_version_exceeds_supported(
        stored: Option<Result<i32, AppError>>,
    ) -> (result: Result<Option<i32>, AppError>)
        ensures
            match stored {
                None => result == Ok::<Option<i32>, AppError>(None),
                Some(Ok(version)) => result == Ok::<Option<i32>, AppError>(
                    if version > SCHEMA_VERSION {
                        Some(version)
                    } else {
                        None
                    },
                ),
                Some(Err(error)) => result == Err::<Option<i32>, AppError>(error),
            },
    {
        match stored {
            None => Ok(None),
            Some(Ok(version)) => if version > SCHEMA_VERSION {
                Ok(Some(version))
            } else {
                Ok(None)
            },
            Some(Err(error)) => Err(error),
        }
    }

    /// The query that counts the MCP servers.
    pub fn mcp_servers_sql() -> (sql: &'static str)
        ensures
            sql@ == "SELECT COUNT(*) FROM mcp_servers"@,
    {
        "SELECT COUNT(*) FROM mcp_servers"
    }

    /// Whether there is no MCP server, from what counting them came to.
    pub fn is_mcp_table_empty(count: Result<i64, String>) -> (empty: Result<bool, AppError>)
        ensures
            result_view(empty) == emptiness(count),
    {
        is_empty(count)
    }

    /// The query that counts the prompts.
    pub fn prompts_sql() -> (sql: &'static str)
        ensures
            sql@ == "SELECT COUNT(*) FROM prompts"@,
    {
        "SELECT COUNT(*) FROM prompts"
    }

    /// Whether there is no prompt, from what counting them came to.
    pub fn is_prompts_table_empty(count: Result<i64, String>) -> (empty: Result<bool, AppError>)
        ensures
            result_view(empty) == emptiness(count),
    {
        is_empty(count)
    }
}

/// The versions that `stored_user_version_exceeds_supported` gives out are those that keep the
/// databases from coming up, so that a failed start can be told from one that a later
/// application would mend.
pub proof fn law_exceeding_versions_are_refused(run: InitView, unsplit: bool)
    requires
        run.action() == InitAction::ProbeLegacyLogTables,
    ensures
        run.version > SCHEMA_VERSION <==> init_next(run, ReplyView::Flag(unsplit))
            == StepView::<InitView, ()>::Finished(Err(too_new(run.version))),
{
}

} // verus!
