//! A pair of databases that live in memory alone.

use vstd::prelude::*;
use vstd::string::*;

use crate::database::init::SCHEMA_VERSION;
use crate::database::run::{outcome_after, state_after, Reply, ReplyView, Step, StepView};
use crate::error::{AppError, ErrorView};
use crate::text::phrase_view;

verus! {

/// The version of the log schema.
pub const LOG_SCHEMA_VERSION: i32 = 1;

/// What setting up the databases in memory does next.
#[derive(Clone, Copy, Debug, PartialEq, Eq, Structural)]
pub enum MemoryAction {
    /// Open the configuration database in memory.
    OpenConfig,
    /// Open the log database in memory.
    OpenLogs,
    /// Switch the foreign keys of the configuration database on.
    ConfigForeignKeys,
    /// Set the configuration database to incremental auto-vacuum.
    ConfigAutoVacuum,
    /// Switch the foreign keys of the log database on.
    LogsForeignKeys,
    /// Create the tables of both.
    CreateTables,
    /// Note the schema version in the configuration database.
    SetUserVersion,
    /// Have changes of the configuration database reported.
    RegisterChangeHook,
    /// Note the schema version in the log database.
    SetLogVersion,
    /// Refresh the copy of the providers' names.
    RefreshProviderCatalogCache,
    /// Fill in the model prices.
    SeedModelPricing,
}

/// All that setting up the databases in memory does, where nothing goes wrong.
pub open spec fn memory_plan() -> Seq<MemoryAction> {
    seq![
        MemoryAction::OpenConfig,
        MemoryAction::OpenLogs,
        MemoryAction::ConfigForeignKeys,
        MemoryAction::ConfigAutoVacuum,
        MemoryAction::LogsForeignKeys,
        MemoryAction::CreateTables,
        MemoryAction::SetUserVersion,
        MemoryAction::RegisterChangeHook,
        MemoryAction::SetLogVersion,
        MemoryAction::RefreshProviderCatalogCache,
        MemoryAction::SeedModelPricing,
    ]
}

/// The statement of an action, where it is one.
pub open spec fn memory_statement(action: MemoryAction) -> Option<Seq<char>> {
    match action {
        MemoryAction::ConfigForeignKeys => Some("PRAGMA foreign_keys = ON;"@),
        MemoryAction::ConfigAutoVacuum => Some("PRAGMA auto_vacuum = INCREMENTAL;"@),
        MemoryAction::LogsForeignKeys => Some("PRAGMA foreign_keys = ON;"@),
        _ => None,
    }
}

/// The version that an action notes, where it does.
pub open spec fn noted_version(action: MemoryAction) -> Option<i32> {
    match action {
        MemoryAction::SetUserVersion => Some(SCHEMA_VERSION),
        MemoryAction::SetLogVersion => Some(LOG_SCHEMA_VERSION),
        _ => None,
    }
}

/// Setting up the databases in memory: how many actions are done.
#[derive(Clone, Copy, PartialEq, Eq, Structural)]
pub struct MemoryRun {
    pub position: usize,
}

impl View for MemoryRun {
    type V = MemoryRun;

    open spec fn view(&self) -> MemoryRun {
        *self
    }
}

/// Setting up the databases in memory after a reply.
pub open spec fn memory_next(run: MemoryRun, reply: ReplyView) -> StepView<MemoryRun, ()> {
    match reply {
        ReplyView::Done => if run.position + 1 < memory_plan().len() {
            StepView::Continue(MemoryRun { position: (run.position + 1) as usize })
        } else {
            StepView::Finished(Ok(()))
        },
        ReplyView::Failed(cause) => StepView::Finished(Err(ErrorView::Database(cause))),
        ReplyView::Refused(error) => StepView::Finished(Err(error)),
        _ => StepView::Continue(run),
    }
}

impl MemoryAction {
    /// The statement of the action, where it is one.
    pub fn sql(self) -> (sql: Option<&'static str>)
        ensures
            phrase_view(sql) == memory_statement(self),
    {
        match self {
            MemoryAction::ConfigForeignKeys => Some("PRAGMA foreign_keys = ON;"),
            MemoryAction::ConfigAutoVacuum => Some("PRAGMA auto_vacuum = INCREMENTAL;"),
            MemoryAction::LogsForeignKeys => Some("PRAGMA foreign_keys = ON;"),
            _ => None,
        }
    }

    /// The version that the action notes, where it does.
    pub fn version(self) -> (version: Option<i32>)
        ensures
            version == noted_version(self),
    {
        match self {
            MemoryAction::SetUserVersion => Some(SCHEMA_VERSION),
            MemoryAction::SetLogVersion => Some(LOG_SCHEMA_VERSION),
            _ => None,
        }
    }
}

impl MemoryRun {
    /// There is an action due.
    pub open spec fn wf(self) -> bool {
        self.position < memory_plan().len()
    }

    /// Begins to set up the databases.
    pub fn start() -> (run: Self)
        ensures
            run == (MemoryRun { position: 0 }),
            run.wf(),
    {
        MemoryRun { position: 0 }
    }

    /// The action that is due.
    pub fn action(self) -> (action: MemoryAction)
        requires
            self.wf(),
        ensures
            action == memory_plan()[self.position as int],
    {
        match self.position {
            0 => MemoryAction::OpenConfig,
            1 => MemoryAction::OpenLogs,
            2 => MemoryAction::ConfigForeignKeys,
            3 => MemoryAction::ConfigAutoVacuum,
            4 => MemoryAction::LogsForeignKeys,
            5 => MemoryAction::CreateTables,
            6 => MemoryAction::SetUserVersion,
            7 => MemoryAction::RegisterChangeHook,
            8 => MemoryAction::SetLogVersion,
            9 => MemoryAction::RefreshProviderCatalogCache,
            _ => MemoryAction::SeedModelPricing,
        }
    }

    /// Takes in the reply to the action that is due. A reply that does not answer it changes
    /// nothing.
    pub fn next(self, reply: Reply) -> (step: Step<Self, ()>)
        requires
            self.wf(),
        ensures
            step@ == memory_next(self, reply@),
            step matches Step::Continue(run) ==> run.wf(),
    {
        match reply {
            Reply::Done => if self.position + 1 < 11 {
                Step::Continue(MemoryRun { position: self.position + 1 })
            } else {
                Step::Finished(Ok(()))
            },
            Reply::Failed(cause) => Step::Finished(Err(AppError::Database(cause))),
            Reply::Refused(error) => Step::Finished(Err(error)),
            _ => Step::Continue(self),
        }
    }
}

/// The steps of setting up the databases in memory.
pub open spec fn memory_steps() -> spec_fn(MemoryRun, ReplyView) -> StepView<MemoryRun, ()> {
    |run: MemoryRun, reply: ReplyView| memory_next(run, reply)
}

/// As many replies that an action was done.
pub open spec fn all_done(n: nat) -> Seq<ReplyView> {
    Seq::new(n, |i: int| ReplyView::Done)
}

/// Where nothing goes wrong, the actions are due in the order of the plan, and after the last of
/// them the databases are set up.
pub proof fn law_memory_databases_come_up(n: nat)
    requires
        n <= memory_plan().len(),
    ensures
        n < memory_plan().len() ==> state_after(
            memory_steps(),
            MemoryRun { position: 0 },
            all_done(n),
        ) == Some(MemoryRun { position: n as usize }),
        n == memory_plan().len() ==> outcome_after(
            memory_steps(),
            MemoryRun { position: 0 },
            all_done(n),
        ) == Some(Ok::<(), ErrorView>(())),
    decreases n,
{
    if n > 0 {
        law_memory_databases_come_up((n - 1) as nat);
        assert(all_done(n).drop_last() =~= all_done((n - 1) as nat));
    }
}

} // verus!
