//! Bringing up the two databases when the application starts.

use vstd::prelude::*;
use vstd::string::*;

use crate::database::run::{Reply, ReplyView, Step, StepView};
use crate::error::{database_error, joined, AppError, ErrorView};
use crate::text::{decimal, int_text, phrase_view};

verus! {

/// The version of the configuration schema that this application supports.
pub const SCHEMA_VERSION: i32 = 19;

/// How many days of stream check logs are kept.
pub const STREAM_CHECK_LOG_DAYS: i64 = 7;

/// How many days of request logs are kept in detail.
pub const REQUEST_LOG_DAYS: i64 = 30;

/// What bringing up the databases does next.
#[derive(Clone, Copy, Debug, PartialEq, Eq, Structural)]
pub enum InitAction {
    /// Make the directory of the databases.
    CreateConfigDir,
    /// Open the configuration database.
    OpenConfig,
    /// Switch its foreign keys on.
    ConfigForeignKeys,
    /// Set it to incremental auto-vacuum, while it has no table yet.
    ConfigAutoVacuum,
    /// Open the log database.
    OpenLogs,
    /// Switch its foreign keys on.
    LogsForeignKeys,
    /// Set it to incremental auto-vacuum, while it has no table yet.
    LogsAutoVacuum,
    /// Read the schema version of the configuration database.
    ReadUserVersion,
    /// Look for log tables in the configuration database.
    ProbeLegacyLogTables,
    /// Back the configuration database up. The reply says whether there is a backup.
    BackUp,
    /// Create all tables, those for logs among them, in the configuration database.
    CreateTables,
    /// Bring the schema of the configuration database up to date.
    ApplySchemaMigrations,
    /// Create the configuration tables.
    CreateConfigTables,
    /// Create the log tables in the configuration database, for old schema migrations to find.
    CreateLogTables,
    /// Drop the log tables from the configuration database.
    DropLegacyLogTables,
    /// Note the schema version in the configuration database.
    SetUserVersion,
    /// Bring the schema of the log database up to date.
    ApplyLogSchemaMigrations,
    /// Move the log tables into the log database.
    MigrateLegacyLogTables,
    /// Refresh the copy of the providers' names.
    RefreshProviderCatalogCache,
    /// Have changes of the configuration database reported.
    RegisterChangeHook,
    /// Change the configuration database to incremental auto-vacuum.
    EnsureIncrementalAutoVacuum,
    /// Fill in the model prices.
    SeedModelPricing,
    /// Bring the model prices in line with the local file.
    SyncModelPricing,
    /// Delete old stream check logs.
    CleanUpStreamCheckLogs,
    /// Sum up and delete old request logs.
    RollUpAndPrune,
    /// Give free pages of the log database back.
    IncrementalVacuum,
}

/// What is known before anything is opened.
#[derive(Clone, Copy, PartialEq, Eq, Structural)]
pub struct Setting {
    /// The configuration database lies in a directory.
    pub has_parent: bool,
    /// Its file is there.
    pub db_exists: bool,
    /// The file of the log database is there.
    pub logs_exists: bool,
}

/// One action, or none.
pub open spec fn only_if(condition: bool, action: InitAction) -> Seq<InitAction> {
    if condition {
        seq![action]
    } else {
        Seq::empty()
    }
}

/// Opening the databases, and finding out what they hold.
#[verifier::opaque]
pub open spec fn opening_plan(setting: Setting) -> Seq<InitAction> {
    only_if(setting.has_parent, InitAction::CreateConfigDir) + seq![
        InitAction::OpenConfig,
        InitAction::ConfigForeignKeys,
    ] + only_if(!setting.db_exists, InitAction::ConfigAutoVacuum) + seq![
        InitAction::OpenLogs,
        InitAction::LogsForeignKeys,
    ] + only_if(!setting.logs_exists, InitAction::LogsAutoVacuum) + seq![
        InitAction::ReadUserVersion,
        InitAction::ProbeLegacyLogTables,
    ]
}

/// Bringing the schema of the configuration database up to date. An unsplit one is backed up and
/// migrated as it is. Another gets its tables, and, where it is old, log tables for as long as
/// the migrations need them.
#[verifier::opaque]
pub open spec fn schema_plan(version: i32, legacy: bool) -> Seq<InitAction> {
    if legacy {
        seq![InitAction::BackUp, InitAction::CreateTables, InitAction::ApplySchemaMigrations]
    } else {
        seq![InitAction::CreateConfigTables] + (if version < SCHEMA_VERSION {
            seq![
                InitAction::CreateLogTables,
                InitAction::ApplySchemaMigrations,
                InitAction::DropLegacyLogTables,
            ]
        } else {
            Seq::empty()
        }) + only_if(version == 0, InitAction::SetUserVersion)
    }
}

/// What follows once the schema is up to date.
#[verifier::opaque]
pub open spec fn closing_plan(legacy: bool) -> Seq<InitAction> {
    seq![InitAction::ApplyLogSchemaMigrations] + only_if(
        legacy,
        InitAction::MigrateLegacyLogTables,
    ) + seq![
        InitAction::RefreshProviderCatalogCache,
        InitAction::RegisterChangeHook,
        InitAction::EnsureIncrementalAutoVacuum,
        InitAction::SeedModelPricing,
        InitAction::SyncModelPricing,
        InitAction::CleanUpStreamCheckLogs,
        InitAction::RollUpAndPrune,
        InitAction::IncrementalVacuum,
    ]
}

/// All that bringing up the databases does, where nothing goes wrong.
pub open spec fn init_plan(setting: Setting, version: i32, legacy: bool) -> Seq<InitAction> {
    opening_plan(setting) + schema_plan(version, legacy) + closing_plan(legacy)
}

/// Where bringing up the databases stands.
pub struct InitView {
    pub setting: Setting,
    /// The schema version, once it is read.
    pub version: i32,
    /// Whether the configuration database is unsplit, once that is found out.
    pub legacy: Option<bool>,
    /// How many actions are done.
    pub position: int,
}

impl InitView {
    /// Bringing up the databases, about to begin.
    pub open spec fn begun(setting: Setting) -> InitView {
        InitView { setting, version: 0, legacy: None, position: 0 }
    }

    /// What is planned, as far as it is known.
    pub open spec fn plan(self) -> Seq<InitAction> {
        match self.legacy {
            None => opening_plan(self.setting),
            Some(legacy) => init_plan(self.setting, self.version, legacy),
        }
    }

    /// The action that is due.
    pub open spec fn action(self) -> InitAction {
        self.plan()[self.position]
    }

    /// There is an action due, and past the opening the version is a supported one.
    pub open spec fn wf(self) -> bool {
        &&& 0 <= self.position < self.plan().len()
        &&& self.legacy is Some ==> opening_plan(self.setting).len() <= self.position
            && self.version <= SCHEMA_VERSION
    }

    /// The action that is due counts as done.
    pub open spec fn onward(self) -> StepView<InitView, ()> {
        if self.position + 1 < self.plan().len() {
            StepView::Continue(InitView { position: self.position + 1, ..self })
        } else {
            StepView::Finished(Ok(()))
        }
    }
}

/// A failure that is put up with: of the housekeeping at the end. The last vacuum is done on a
/// lock of its own, and a lock that cannot be had is no failure of the housekeeping.
pub open spec fn is_tolerated(action: InitAction, reply: ReplyView) -> bool {
    match (action, reply) {
        (InitAction::EnsureIncrementalAutoVacuum, ReplyView::Refused(_)) => true,
        (InitAction::EnsureIncrementalAutoVacuum, ReplyView::Failed(_)) => true,
        (InitAction::SyncModelPricing, ReplyView::Refused(_)) => true,
        (InitAction::SyncModelPricing, ReplyView::Failed(_)) => true,
        (InitAction::CleanUpStreamCheckLogs, ReplyView::Refused(_)) => true,
        (InitAction::CleanUpStreamCheckLogs, ReplyView::Failed(_)) => true,
        (InitAction::RollUpAndPrune, ReplyView::Refused(_)) => true,
        (InitAction::RollUpAndPrune, ReplyView::Failed(_)) => true,
        (InitAction::IncrementalVacuum, ReplyView::Failed(_)) => true,
        _ => false,
    }
}

/// What is said of an action that failed, before the cause.
pub open spec fn init_context(action: InitAction) -> Seq<char> {
    match action {
        InitAction::OpenLogs => "打开日志数据库失败: "@,
        InitAction::LogsForeignKeys => "启用日志库外键约束失败: "@,
        InitAction::LogsAutoVacuum => "配置日志库 auto_vacuum 失败: "@,
        _ => Seq::empty(),
    }
}

/// The statement of an action, where it is one.
pub open spec fn init_statement(action: InitAction) -> Option<Seq<char>> {
    match action {
        InitAction::ConfigForeignKeys => Some("PRAGMA foreign_keys = ON;"@),
        InitAction::LogsForeignKeys => Some("PRAGMA foreign_keys = ON;"@),
        InitAction::ConfigAutoVacuum => Some("PRAGMA auto_vacuum = INCREMENTAL;"@),
        InitAction::LogsAutoVacuum => Some("PRAGMA auto_vacuum = INCREMENTAL;"@),
        InitAction::IncrementalVacuum => Some("PRAGMA incremental_vacuum;"@),
        _ => None,
    }
}

/// The schema version that an action notes, where it does.
pub open spec fn init_version(action: InitAction) -> Option<i32> {
    match action {
        InitAction::SetUserVersion => Some(SCHEMA_VERSION),
        _ => None,
    }
}

/// How many days of logs an action leaves, where it deletes old ones.
pub open spec fn kept_days(action: InitAction) -> Option<i64> {
    match action {
        InitAction::CleanUpStreamCheckLogs => Some(STREAM_CHECK_LOG_DAYS),
        InitAction::RollUpAndPrune => Some(REQUEST_LOG_DAYS),
        _ => None,
    }
}

/// The schema is of a later application.
pub open spec fn is_too_new(version: i32) -> bool {
    version > SCHEMA_VERSION
}

/// The error of a database that a later application has written.
pub open spec fn too_new(version: i32) -> ErrorView {
    ErrorView::Database(
        "数据库版本过新（"@ + int_text(version as int) + "），当前应用仅支持 "@ + int_text(
            SCHEMA_VERSION as int,
        ) + "，请升级应用后再尝试。"@,
    )
}

/// The error of a database that could not be backed up.
pub open spec fn no_backup() -> ErrorView {
    ErrorView::Database("拆分日志表前未能创建数据库备份"@)
}

/// Bringing up the databases after a reply.
pub open spec fn init_next(run: InitView, reply: ReplyView) -> StepView<InitView, ()> {
    if is_tolerated(run.action(), reply) {
        run.onward()
    } else {
        match (run.action(), reply) {
            (_, ReplyView::Failed(cause)) => StepView::Finished(
                Err(ErrorView::Database(init_context(run.action()) + cause)),
            ),
            (_, ReplyView::Refused(error)) => StepView::Finished(Err(error)),
            (InitAction::ReadUserVersion, ReplyView::Pragma(version)) => InitView {
                version,
                ..run
            }.onward(),
            (InitAction::ProbeLegacyLogTables, ReplyView::Flag(legacy)) => if is_too_new(
                run.version,
            ) {
                StepView::Finished(Err(too_new(run.version)))
            } else {
                InitView { legacy: Some(legacy), ..run }.onward()
            },
            (InitAction::BackUp, ReplyView::Flag(present)) => if present {
                run.onward()
            } else {
                StepView::Finished(Err(no_backup()))
            },
            (InitAction::ReadUserVersion, _) => StepView::Continue(run),
            (InitAction::ProbeLegacyLogTables, _) => StepView::Continue(run),
            (InitAction::BackUp, _) => StepView::Continue(run),
            (_, ReplyView::Done) => run.onward(),
            _ => StepView::Continue(run),
        }
    }
}

impl InitAction {
    /// The statement of the action, where it is one.
    pub fn sql(self) -> (sql: Option<&'static str>)
        ensures
            phrase_view(sql) == init_statement(self),
    {
        match self {
            InitAction::ConfigForeignKeys => Some("PRAGMA foreign_keys = ON;"),
            InitAction::LogsForeignKeys => Some("PRAGMA foreign_keys = ON;"),
            InitAction::ConfigAutoVacuum => Some("PRAGMA auto_vacuum = INCREMENTAL;"),
            InitAction::LogsAutoVacuum => Some("PRAGMA auto_vacuum = INCREMENTAL;"),
            InitAction::IncrementalVacuum => Some("PRAGMA incremental_vacuum;"),
            _ => None,
        }
    }

    /// The schema version that the action notes, where it does.
    pub fn version(self) -> (version: Option<i32>)
        ensures
            version == init_version(self),
    {
        match self {
            InitAction::SetUserVersion => Some(SCHEMA_VERSION),
            _ => None,
        }
    }

    /// How many days of logs the action leaves, where it deletes old ones.
    pub fn days(self) -> (days: Option<i64>)
        ensures
            days == kept_days(self),
    {
        match self {
            InitAction::CleanUpStreamCheckLogs => Some(STREAM_CHECK_LOG_DAYS),
            InitAction::RollUpAndPrune => Some(REQUEST_LOG_DAYS),
            _ => None,
        }
    }
}

/// Bringing up the databases: what is planned, and what is due.
pub struct InitRun {
    setting: Setting,
    version: i32,
    legacy: Option<bool>,
    plan: Vec<InitAction>,
    position: usize,
}

impl View for InitRun {
    type V = InitView;

    closed spec fn view(&self) -> InitView {
        InitView {
            setting: self.setting,
            version: self.version,
            legacy: self.legacy,
            position: self.position as int,
        }
    }
}

fn push_if(plan: &mut Vec<InitAction>, condition: bool, action: InitAction)
    ensures
        final(plan)@ == old(plan)@ + only_if(condition, action),
{
    if condition {
        plan.push(action);
    }
    assert(plan@ =~= old(plan)@ + only_if(condition, action));
}

fn plan_opening(setting: Setting) -> (plan: Vec<InitAction>)
    ensures
        plan@ == opening_plan(setting),
{
    let mut plan: Vec<InitAction> = Vec::new();
    push_if(&mut plan, setting.has_parent, InitAction::CreateConfigDir);
    plan.push(InitAction::OpenConfig);
    plan.push(InitAction::ConfigForeignKeys);
    push_if(&mut plan, !setting.db_exists, InitAction::ConfigAutoVacuum);
    plan.push(InitAction::OpenLogs);
    plan.push(InitAction::LogsForeignKeys);
    push_if(&mut plan, !setting.logs_exists, InitAction::LogsAutoVacuum);
    plan.push(InitAction::ReadUserVersion);
    plan.push(InitAction::ProbeLegacyLogTables);
    reveal(opening_plan);
    assert(plan@ =~= opening_plan(setting));
    plan
}

fn plan_schema(plan: &mut Vec<InitAction>, version: i32, legacy: bool)
    ensures
        final(plan)@ == old(plan)@ + schema_plan(version, legacy),
{
    if legacy {
        plan.push(InitAction::BackUp);
        plan.push(InitAction::CreateTables);
        plan.push(InitAction::ApplySchemaMigrations);
    } else {
        plan.push(InitAction::CreateConfigTables);
        if version < SCHEMA_VERSION {
            plan.push(InitAction::CreateLogTables);
            plan.push(InitAction::ApplySchemaMigrations);
            plan.push(InitAction::DropLegacyLogTables);
        }
        push_if(plan, version == 0, InitAction::SetUserVersion);
    }
    reveal(schema_plan);
    assert(plan@ =~= old(plan)@ + schema_plan(version, legacy));
}

fn plan_closing(plan: &mut Vec<InitAction>, legacy: bool)
    ensures
        final(plan)@ == old(plan)@ + closing_plan(legacy),
{
    plan.push(InitAction::ApplyLogSchemaMigrations);
    push_if(plan, legacy, InitAction::MigrateLegacyLogTables);
    plan.push(InitAction::RefreshProviderCatalogCache);
    plan.push(InitAction::RegisterChangeHook);
    plan.push(InitAction::EnsureIncrementalAutoVacuum);
    plan.push(InitAction::SeedModelPricing);
    plan.push(InitAction::SyncModelPricing);
    plan.push(InitAction::CleanUpStreamCheckLogs);
    plan.push(InitAction::RollUpAndPrune);
    plan.push(InitAction::IncrementalVacuum);
    reveal(closing_plan);
    assert(plan@ =~= old(plan)@ + closing_plan(legacy));
}

/// The error of a database that a later application has written.
fn too_new_error(version: i32) -> (error: AppError)
    ensures
        error@ == too_new(version),
{
    let found = decimal(version as i64);
    let supported = decimal(SCHEMA_VERSION as i64);
    let mut text = joined("数据库版本过新（", found.as_str());
    text.append("），当前应用仅支持 ");
    text.append(supported.as_str());
    text.append("，请升级应用后再尝试。");
    AppError::Database(text)
}

impl InitRun {
    /// The plan is the one that the state asks for.
    pub closed spec fn wf(self) -> bool {
        &&& self@.wf()
        &&& self.plan@ == self@.plan()
    }

    /// Begins to bring up the databases.
    pub fn start(setting: Setting) -> (run: Self)
        ensures
            run.wf(),
            run@ == InitView::begun(setting),
    {
        let plan = plan_opening(setting);
        proof {
            lemma_opening_plan(setting);
        }
        InitRun { setting, version: 0, legacy: None, plan, position: 0 }
    }

    /// The action that is due.
    pub fn action(&self) -> (action: InitAction)
        requires
            self.wf(),
        ensures
            action == self@.action(),
    {
        self.plan[self.position]
    }

    /// The schema version of the configuration database, once it is read.
    pub fn version(&self) -> (version: i32)
        ensures
            version == self@.version,
    {
        self.version
    }

    /// The action that is due counts as done.
    fn onward(self) -> (step: Step<Self, ()>)
        requires
            self.plan@ == self@.plan(),
            self.position < self.plan@.len(),
        ensures
            step@ == self@.onward(),
            step matches Step::Continue(run) ==> run.plan@ == self.plan@,
    {
        if self.position < self.plan.len() - 1 {
            Step::Continue(
                InitRun {
                    setting: self.setting,
                    version: self.version,
                    legacy: self.legacy,
                    plan: self.plan,
                    position: self.position + 1,
                },
            )
        } else {
            Step::Finished(Ok(()))
        }
    }

    /// Takes in the reply to the action that is due. A reply that does not answer it changes
    /// nothing.
    pub fn next(self, reply: Reply) -> (step: Step<Self, ()>)
        requires
            self.wf(),
        ensures
            step@ == init_next(self@, reply@),
            step matches Step::Continue(run) ==> run.wf(),
    {
        let action = self.plan[self.position];
        proof {
            lemma_opening_plan(self.setting);
            if let Some(legacy) = self.legacy {
                lemma_plan_past_opening(self.setting, self.version, legacy);
            }
            if let Reply::Flag(legacy) = reply {
                lemma_plan_past_opening(self.setting, self.version, legacy);
            }
        }
        match (action, reply) {
            (InitAction::EnsureIncrementalAutoVacuum, Reply::Refused(_)) => self.onward(),
            (InitAction::EnsureIncrementalAutoVacuum, Reply::Failed(_)) => self.onward(),
            (InitAction::SyncModelPricing, Reply::Refused(_)) => self.onward(),
            (InitAction::SyncModelPricing, Reply::Failed(_)) => self.onward(),
            (InitAction::CleanUpStreamCheckLogs, Reply::Refused(_)) => self.onward(),
            (InitAction::CleanUpStreamCheckLogs, Reply::Failed(_)) => self.onward(),
            (InitAction::RollUpAndPrune, Reply::Refused(_)) => self.onward(),
            (InitAction::RollUpAndPrune, Reply::Failed(_)) => self.onward(),
            (InitAction::IncrementalVacuum, Reply::Failed(_)) => self.onward(),
            (InitAction::OpenLogs, Reply::Failed(cause)) => Step::Finished(
                Err(database_error("打开日志数据库失败: ", cause.as_str())),
            ),
            (InitAction::LogsForeignKeys, Reply::Failed(cause)) => Step::Finished(
                Err(database_error("启用日志库外键约束失败: ", cause.as_str())),
            ),
            (InitAction::LogsAutoVacuum, Reply::Failed(cause)) => Step::Finished(
                Err(database_error("配置日志库 auto_vacuum 失败: ", cause.as_str())),
            ),
            (_, Reply::Failed(cause)) => {
                assert(Seq::<char>::empty() + cause@ =~= cause@);
                Step::Finished(Err(AppError::Database(cause)))
            },
            (_, Reply::Refused(error)) => Step::Finished(Err(error)),
            (InitAction::ReadUserVersion, Reply::Pragma(version)) => {
                let mut run = self;
                run.version = version;
                run.onward()
            },
            (InitAction::ProbeLegacyLogTables, Reply::Flag(legacy)) => {
                if self.version > SCHEMA_VERSION {
                    return Step::Finished(Err(too_new_error(self.version)));
                }
                let mut run = self;
                plan_schema(&mut run.plan, run.version, legacy);
                plan_closing(&mut run.plan, legacy);
                run.legacy = Some(legacy);
                assert(run.plan@ =~= run@.plan());
                run.onward()
            },
            (InitAction::BackUp, Reply::Flag(present)) => if present {
                self.onward()
            } else {
                Step::Finished(
                    Err(
                        AppError::Database(
                            "拆分日志表前未能创建数据库备份".to_string(),
                        ),
                    ),
                )
            },
            (InitAction::ReadUserVersion, _) => Step::Continue(self),
            (InitAction::ProbeLegacyLogTables, _) => Step::Continue(self),
            (InitAction::BackUp, _) => Step::Continue(self),
            (_, Reply::Done) => self.onward(),
            _ => Step::Continue(self),
        }
    }
}

/// Where the opening finds out what the databases hold.
proof fn lemma_opening_plan(setting: Setting)
    ensures
        opening_plan(setting).len() >= 6,
        opening_plan(setting)[opening_plan(setting).len() - 2] == InitAction::ReadUserVersion,
        opening_plan(setting)[opening_plan(setting).len() - 1] == InitAction::ProbeLegacyLogTables,
        forall|i: int|
            0 <= i < opening_plan(setting).len() ==> (#[trigger] opening_plan(setting)[i]
                == InitAction::ProbeLegacyLogTables <==> i == opening_plan(setting).len() - 1),
        forall|i: int|
            0 <= i < opening_plan(setting).len() ==> (#[trigger] opening_plan(setting)[i]
                == InitAction::ReadUserVersion <==> i == opening_plan(setting).len() - 2),
{
    reveal(opening_plan);
}

/// An action of the opening.
spec fn finds_out(action: InitAction) -> bool {
    action == InitAction::ReadUserVersion || action == InitAction::ProbeLegacyLogTables
}

/// Past the opening nothing more is found out.
proof fn lemma_plan_past_opening(setting: Setting, version: i32, legacy: bool)
    ensures
        init_plan(setting, version, legacy).len() > opening_plan(setting).len(),
        forall|i: int|
            opening_plan(setting).len() <= i < init_plan(setting, version, legacy).len()
                ==> !finds_out(#[trigger] init_plan(setting, version, legacy)[i]),
        forall|i: int|
            0 <= i < opening_plan(setting).len() ==> #[trigger] init_plan(
                setting,
                version,
                legacy,
            )[i] == opening_plan(setting)[i],
{
    let opening = opening_plan(setting);
    let schema = schema_plan(version, legacy);
    let closing = closing_plan(legacy);
    assert(forall|i: int| 0 <= i < schema.len() ==> !finds_out(#[trigger] schema[i])) by {
        reveal(schema_plan);
    }
    assert(closing.len() > 0 && forall|i: int|
        0 <= i < closing.len() ==> !finds_out(#[trigger] closing[i])) by {
        reveal(closing_plan);
    }
    let plan = init_plan(setting, version, legacy);
    assert forall|i: int| opening.len() <= i < plan.len() implies !finds_out(
        #[trigger] plan[i],
    ) by {
        if i < opening.len() + schema.len() {
            assert(plan[i] == schema[i - opening.len()]);
        } else {
            assert(plan[i] == closing[i - opening.len() - schema.len()]);
        }
    }
}

} // verus!
