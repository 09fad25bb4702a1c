//! Moving the log tables of an unsplit configuration database into the log database.

use vstd::prelude::*;
use vstd::string::*;

use crate::database::run::{
    exchanges, lemma_invariant, lemma_push_contains, outcome_after, state_after, Reply, ReplyView,
    Step, StepView, Store,
};
use crate::database::tables::{
    copy_statement, count_statement, migrated_table, migrated_tables, table_name, LogTable,
};
use crate::error::{database_error, joined3, AppError, ErrorView};
use crate::text::{decimal, int_text, text_view};

verus! {

/// What a migration does next. The tables are counted in the order in which they are copied.
#[derive(Clone, Copy, Debug, PartialEq, Eq, Structural)]
pub enum MigrationAction {
    /// Attach the configuration database to the log database.
    Attach,
    /// Look whether the configuration database has this table.
    Probe(usize),
    /// Copy the rows of this table.
    CopyRows(usize),
    /// Count the rows that there were.
    CountSource(usize),
    /// Count the rows that there are now.
    CountTarget(usize),
    /// Check the integrity of the log database.
    CheckIntegrity,
    /// Detach the configuration database.
    Detach,
    /// Drop the log tables from the configuration database.
    DropLegacyTables,
    /// Give the space of the dropped tables back.
    Vacuum,
}

/// A migration: what is due, and how many rows the table in hand had.
#[derive(Clone, Copy, PartialEq, Eq, Structural)]
pub struct Migration {
    pub action: MigrationAction,
    pub source_rows: i64,
}

impl View for Migration {
    type V = Migration;

    open spec fn view(&self) -> Migration {
        *self
    }
}

/// What is due once the tables before this one are settled.
pub open spec fn from_table(index: int) -> MigrationAction {
    if index < migrated_tables().len() {
        MigrationAction::Probe(index as usize)
    } else {
        MigrationAction::CheckIntegrity
    }
}

/// The statement of an action, where it is one.
pub open spec fn migration_statement(action: MigrationAction) -> Option<Seq<char>> {
    match action {
        MigrationAction::Attach => Some("ATTACH DATABASE ?1 AS legacy"@),
        MigrationAction::Probe(_) => None,
        MigrationAction::CopyRows(i) => Some(copy_statement(migrated_tables()[i as int])),
        MigrationAction::CountSource(i) => Some(count_statement(migrated_tables()[i as int])),
        MigrationAction::CountTarget(i) => Some(count_statement(migrated_tables()[i as int])),
        MigrationAction::CheckIntegrity => Some("PRAGMA integrity_check"@),
        MigrationAction::Detach => Some("DETACH DATABASE legacy;"@),
        MigrationAction::DropLegacyTables => None,
        MigrationAction::Vacuum => Some("VACUUM;"@),
    }
}

/// The database that an action works on.
pub open spec fn migration_store(action: MigrationAction) -> Store {
    match action {
        MigrationAction::Probe(_) => Store::Config,
        MigrationAction::CountSource(_) => Store::Config,
        MigrationAction::DropLegacyTables => Store::Config,
        MigrationAction::Vacuum => Store::Config,
        _ => Store::Logs,
    }
}

/// What is said of an action that failed, before the cause.
pub open spec fn migration_context(action: MigrationAction) -> Seq<char> {
    match action {
        MigrationAction::Attach => "挂载旧配置数据库失败: "@,
        MigrationAction::CopyRows(i) => "迁移日志表 "@ + table_name(migrated_tables()[i as int])
            + " 失败: "@,
        MigrationAction::CheckIntegrity => "校验日志数据库失败: "@,
        MigrationAction::Detach => "卸载旧配置数据库失败: "@,
        MigrationAction::Vacuum => "压缩配置数据库失败: "@,
        _ => Seq::empty(),
    }
}

/// The error of a table that has fewer rows than it had.
pub open spec fn short_copy(table: LogTable, source_rows: int, target_rows: int) -> ErrorView {
    ErrorView::Database(
        "迁移日志表 "@ + table_name(table) + " 校验失败：源 "@ + int_text(source_rows)
            + " 行，目标 "@ + int_text(target_rows) + " 行"@,
    )
}

/// The migration after a reply. A table that is not there is passed over, a copy must not have
/// fewer rows than its source, and the integrity check must say `ok`. Any failure ends the
/// migration.
pub open spec fn migration_next(run: Migration, reply: ReplyView) -> StepView<Migration, ()> {
    let at = |action: MigrationAction| StepView::<Migration, ()>::Continue(
        Migration { action, source_rows: run.source_rows },
    );
    match (run.action, reply) {
        (_, ReplyView::Failed(cause)) => StepView::Finished(
            Err(ErrorView::Database(migration_context(run.action) + cause)),
        ),
        (_, ReplyView::Refused(error)) => StepView::Finished(Err(error)),
        (MigrationAction::Attach, ReplyView::Done) => at(from_table(0)),
        (MigrationAction::Probe(i), ReplyView::Flag(true)) => at(MigrationAction::CopyRows(i)),
        (MigrationAction::Probe(i), ReplyView::Flag(false)) => at(from_table(i + 1)),
        (MigrationAction::CopyRows(i), ReplyView::Done) => at(MigrationAction::CountSource(i)),
        (MigrationAction::CountSource(i), ReplyView::Count(rows)) => StepView::Continue(
            Migration { action: MigrationAction::CountTarget(i), source_rows: rows },
        ),
        (MigrationAction::CountTarget(i), ReplyView::Count(rows)) => if rows < run.source_rows {
            StepView::Finished(
                Err(
                    short_copy(
                        migrated_tables()[i as int],
                        run.source_rows as int,
                        rows as int,
                    ),
                ),
            )
        } else {
            at(from_table(i + 1))
        },
        (MigrationAction::CheckIntegrity, ReplyView::Text(text)) => if text == "ok"@ {
            at(MigrationAction::Detach)
        } else {
            StepView::Finished(
                Err(ErrorView::Database("日志数据库完整性校验失败: "@ + text)),
            )
        },
        (MigrationAction::Detach, ReplyView::Done) => at(MigrationAction::DropLegacyTables),
        (MigrationAction::DropLegacyTables, ReplyView::Done) => at(MigrationAction::Vacuum),
        (MigrationAction::Vacuum, ReplyView::Done) => StepView::Finished(Ok(())),
        _ => StepView::Continue(run),
    }
}

impl MigrationAction {
    /// The table in hand is one of those that are copied.
    pub open spec fn wf(self) -> bool {
        match self {
            MigrationAction::Probe(i) => i < migrated_tables().len(),
            MigrationAction::CopyRows(i) => i < migrated_tables().len(),
            MigrationAction::CountSource(i) => i < migrated_tables().len(),
            MigrationAction::CountTarget(i) => i < migrated_tables().len(),
            _ => true,
        }
    }

    /// The statement of the action, where it is one.
    pub fn sql(self) -> (sql: Option<String>)
        requires
            self.wf(),
        ensures
            text_view(sql) == migration_statement(self),
    {
        match self {
            MigrationAction::Attach => Some("ATTACH DATABASE ?1 AS legacy".to_string()),
            MigrationAction::Probe(_) => None,
            MigrationAction::CopyRows(i) => Some(migrated_table(i).copy_sql()),
            MigrationAction::CountSource(i) => Some(migrated_table(i).count_sql()),
            MigrationAction::CountTarget(i) => Some(migrated_table(i).count_sql()),
            MigrationAction::CheckIntegrity => Some("PRAGMA integrity_check".to_string()),
            MigrationAction::Detach => Some("DETACH DATABASE legacy;".to_string()),
            MigrationAction::DropLegacyTables => None,
            MigrationAction::Vacuum => Some("VACUUM;".to_string()),
        }
    }

    /// The database that the action works on.
    pub fn store(self) -> (store: Store)
        ensures
            store == migration_store(self),
    {
        match self {
            MigrationAction::Probe(_) => Store::Config,
            MigrationAction::CountSource(_) => Store::Config,
            MigrationAction::DropLegacyTables => Store::Config,
            MigrationAction::Vacuum => Store::Config,
            _ => Store::Logs,
        }
    }

    /// What is said of the action when it failed, before the cause.
    pub fn context(self) -> (context: String)
        requires
            self.wf(),
        ensures
            context@ == migration_context(self),
    {
        match self {
            MigrationAction::Attach => "挂载旧配置数据库失败: ".to_string(),
            MigrationAction::CopyRows(i) => joined3(
                "迁移日志表 ",
                migrated_table(i).name(),
                " 失败: ",
            ),
            MigrationAction::CheckIntegrity => "校验日志数据库失败: ".to_string(),
            MigrationAction::Detach => "卸载旧配置数据库失败: ".to_string(),
            MigrationAction::Vacuum => "压缩配置数据库失败: ".to_string(),
            _ => String::new(),
        }
    }
}

/// What is due once the tables before this one are settled.
fn starting_at(index: usize) -> (action: MigrationAction)
    ensures
        action == from_table(index as int),
        action.wf(),
{
    if index < 6 {
        MigrationAction::Probe(index)
    } else {
        MigrationAction::CheckIntegrity
    }
}

/// The error of a table that has fewer rows than it had.
fn short_copy_error(table: LogTable, source_rows: i64, target_rows: i64) -> (error: AppError)
    ensures
        error@ == short_copy(table, source_rows as int, target_rows as int),
{
    let mut text = joined3("迁移日志表 ", table.name(), " 校验失败：源 ");
    let source = decimal(source_rows);
    text.append(source.as_str());
    text.append(" 行，目标 ");
    let target = decimal(target_rows);
    text.append(target.as_str());
    text.append(" 行");
    AppError::Database(text)
}

impl Migration {
    /// The table in hand is one of those that are copied.
    pub open spec fn wf(self) -> bool {
        self.action.wf()
    }

    /// A migration that is about to begin.
    pub open spec fn begun() -> Migration {
        Migration { action: MigrationAction::Attach, source_rows: 0 }
    }

    /// Begins a migration.
    pub fn start() -> (run: Self)
        ensures
            run == Migration::begun(),
            run.wf(),
    {
        Migration { action: MigrationAction::Attach, source_rows: 0 }
    }

    /// The table that is to be looked for or worked on, if any.
    pub fn table(self) -> (table: Option<LogTable>)
        requires
            self.wf(),
        ensures
            table == match self.action {
                MigrationAction::Probe(i) => Some(migrated_tables()[i as int]),
                MigrationAction::CopyRows(i) => Some(migrated_tables()[i as int]),
                MigrationAction::CountSource(i) => Some(migrated_tables()[i as int]),
                MigrationAction::CountTarget(i) => Some(migrated_tables()[i as int]),
                _ => None,
            },
    {
        match self.action {
            MigrationAction::Probe(i) => Some(migrated_table(i)),
            MigrationAction::CopyRows(i) => Some(migrated_table(i)),
            MigrationAction::CountSource(i) => Some(migrated_table(i)),
            MigrationAction::CountTarget(i) => Some(migrated_table(i)),
            _ => None,
        }
    }

    /// Takes in the reply to the action that is due. A reply that does not answer it changes
    /// nothing.
    pub fn next(self, reply: Reply) -> (step: Step<Self, ()>)
        requires
            self.wf(),
        ensures
            step@ == migration_next(self, reply@),
            step matches Step::Continue(run) ==> run.wf(),
    {
        let action: MigrationAction = match (self.action, reply) {
            (_, Reply::Failed(cause)) => {
                let context = self.action.context();
                return Step::Finished(Err(database_error(context.as_str(), cause.as_str())));
            },
            (_, Reply::Refused(error)) => {
                return Step::Finished(Err(error));
            },
            (MigrationAction::Attach, Reply::Done) => starting_at(0),
            (MigrationAction::Probe(i), Reply::Flag(true)) => MigrationAction::CopyRows(i),
            (MigrationAction::Probe(i), Reply::Flag(false)) => starting_at(i + 1),
            (MigrationAction::CopyRows(i), Reply::Done) => MigrationAction::CountSource(i),
            (MigrationAction::CountSource(i), Reply::Count(rows)) => {
                return Step::Continue(
                    Migration { action: MigrationAction::CountTarget(i), source_rows: rows },
                );
            },
            (MigrationAction::CountTarget(i), Reply::Count(rows)) => {
                if rows < self.source_rows {
                    return Step::Finished(
                        Err(short_copy_error(migrated_table(i), self.source_rows, rows)),
                    );
                }
                starting_at(i + 1)
            },
            (MigrationAction::CheckIntegrity, Reply::Text(text)) => {
                if text != "ok".to_string() {
                    return Step::Finished(
                        Err(database_error("日志数据库完整性校验失败: ", text.as_str())),
                    );
                }
                MigrationAction::Detach
            },
            (MigrationAction::Detach, Reply::Done) => MigrationAction::DropLegacyTables,
            (MigrationAction::DropLegacyTables, Reply::Done) => MigrationAction::Vacuum,
            (MigrationAction::Vacuum, Reply::Done) => {
                return Step::Finished(Ok(()));
            },
            _ => self.action,
        };
        Step::Continue(Migration { action, source_rows: self.source_rows })
    }
}

/// The steps of a migration.
pub open spec fn migration_steps() -> spec_fn(Migration, ReplyView) -> StepView<Migration, ()> {
    |run: Migration, reply: ReplyView| migration_next(run, reply)
}

/// The action that is due in a migration.
pub open spec fn migration_due() -> spec_fn(Migration) -> MigrationAction {
    |run: Migration| run.action
}

/// What a migration did so far, with the replies.
pub open spec fn migration_past(replies: Seq<ReplyView>) -> Seq<(MigrationAction, ReplyView)> {
    exchanges(migration_steps(), migration_due(), Migration::begun(), replies)
}

/// A table is settled: it was not there, or it was copied and then had no fewer rows than its
/// source.
pub open spec fn is_settled(past: Seq<(MigrationAction, ReplyView)>, i: int) -> bool {
    let table = i as usize;
    ||| past.contains((MigrationAction::Probe(table), ReplyView::Flag(false)))
    ||| {
        &&& past.contains((MigrationAction::CopyRows(table), ReplyView::Done))
        &&& exists|source: i64, target: i64|
            {
                &&& #[trigger] past.contains(
                    (MigrationAction::CountSource(table), ReplyView::Count(source)),
                )
                &&& #[trigger] past.contains(
                    (MigrationAction::CountTarget(table), ReplyView::Count(target)),
                )
                &&& source <= target
            }
    }
}

/// Every table is settled and the integrity check said `ok`.
pub open spec fn is_safe_to_drop(past: Seq<(MigrationAction, ReplyView)>) -> bool {
    &&& forall|i: int| 0 <= i < migrated_tables().len() ==> is_settled(past, i)
    &&& past.contains((MigrationAction::CheckIntegrity, ReplyView::Text("ok"@)))
}

/// How many tables must be settled before an action is due.
spec fn settled_before(action: MigrationAction) -> int {
    match action {
        MigrationAction::Attach => 0,
        MigrationAction::Probe(i) => i as int,
        MigrationAction::CopyRows(i) => i as int,
        MigrationAction::CountSource(i) => i as int,
        MigrationAction::CountTarget(i) => i as int,
        _ => 6,
    }
}

/// What was done when a migration stands where it does.
spec fn migration_inv(run: Migration, past: Seq<(MigrationAction, ReplyView)>) -> bool {
    &&& run.wf()
    &&& forall|i: int| 0 <= i < settled_before(run.action) ==> is_settled(past, i)
    &&& match run.action {
        MigrationAction::CountSource(i) => past.contains(
            (MigrationAction::CopyRows(i), ReplyView::Done),
        ),
        MigrationAction::CountTarget(i) => past.contains(
            (MigrationAction::CopyRows(i), ReplyView::Done),
        ) && past.contains((MigrationAction::CountSource(i), ReplyView::Count(run.source_rows))),
        MigrationAction::Detach => is_safe_to_drop(past),
        MigrationAction::DropLegacyTables => is_safe_to_drop(past) && past.contains(
            (MigrationAction::Detach, ReplyView::Done),
        ),
        MigrationAction::Vacuum => is_safe_to_drop(past) && past.contains(
            (MigrationAction::Detach, ReplyView::Done),
        ) && past.contains((MigrationAction::DropLegacyTables, ReplyView::Done)),
        _ => true,
    }
}

proof fn lemma_settled_stays(
    past: Seq<(MigrationAction, ReplyView)>,
    exchange: (MigrationAction, ReplyView),
)
    ensures
        forall|i: int| is_settled(past, i) ==> #[trigger] is_settled(past.push(exchange), i),
        is_safe_to_drop(past) ==> is_safe_to_drop(past.push(exchange)),
{
    lemma_push_contains(past, exchange);
    assert forall|i: int| is_settled(past, i) implies #[trigger] is_settled(
        past.push(exchange),
        i,
    ) by {
        let table = i as usize;
        if !past.contains((MigrationAction::Probe(table), ReplyView::Flag(false))) {
            let (source, target) = choose|source: i64, target: i64|
                {
                    &&& #[trigger] past.contains(
                        (MigrationAction::CountSource(table), ReplyView::Count(source)),
                    )
                    &&& #[trigger] past.contains(
                        (MigrationAction::CountTarget(table), ReplyView::Count(target)),
                    )
                    &&& source <= target
                };
            assert(past.push(exchange).contains(
                (MigrationAction::CountSource(table), ReplyView::Count(source)),
            ));
            assert(past.push(exchange).contains(
                (MigrationAction::CountTarget(table), ReplyView::Count(target)),
            ));
        }
    }
}

proof fn lemma_migration_inv_kept(
    run: Migration,
    past: Seq<(MigrationAction, ReplyView)>,
    reply: ReplyView,
)
    requires
        migration_inv(run, past),
    ensures
        match migration_next(run, reply) {
            StepView::Continue(after) => migration_inv(after, past.push((run.action, reply))),
            StepView::Finished(_) => true,
        },
{
    let exchange = (run.action, reply);
    let now = past.push(exchange);
    lemma_push_contains(past, exchange);
    lemma_settled_stays(past, exchange);
    match (run.action, reply) {
        (MigrationAction::Probe(i), ReplyView::Flag(false)) => {
            assert(is_settled(now, i as int));
        },
        (MigrationAction::CountTarget(i), ReplyView::Count(rows)) => {
            if rows >= run.source_rows {
                assert(now.contains(
                    (MigrationAction::CountSource(i), ReplyView::Count(run.source_rows)),
                ));
                assert(now.contains((MigrationAction::CountTarget(i), ReplyView::Count(rows))));
                assert(is_settled(now, i as int));
            }
        },
        _ => {},
    }
}

proof fn lemma_migration_inv(replies: Seq<ReplyView>)
    ensures
        match state_after(migration_steps(), Migration::begun(), replies) {
            Some(run) => migration_inv(run, migration_past(replies)),
            None => true,
        },
{
    let next = migration_steps();
    let due = migration_due();
    let inv = |run: Migration, past: Seq<(MigrationAction, ReplyView)>| migration_inv(run, past);
    assert forall|run: Migration, past: Seq<(MigrationAction, ReplyView)>, reply: ReplyView|
        #![trigger inv(run, past), next(run, reply)]
        inv(run, past) implies match next(run, reply) {
        StepView::Continue(after) => inv(after, past.push((due(run), reply))),
        StepView::Finished(_) => true,
    } by {
        lemma_migration_inv_kept(run, past, reply);
    }
    lemma_invariant(next, due, Migration::begun(), inv, replies);
}

/// No log is lost: the log tables are dropped only once every one of them is settled and the log
/// database has passed its integrity check.
pub proof fn law_logs_are_dropped_only_when_safe(replies: Seq<ReplyView>)
    requires
        state_after(migration_steps(), Migration::begun(), replies) matches Some(run)
            && run.action == MigrationAction::DropLegacyTables,
    ensures
        is_safe_to_drop(migration_past(replies)),
{
    lemma_migration_inv(replies);
}

/// A migration that ends well was safe, has detached the configuration database, has dropped the
/// log tables from it, and has given their space back.
pub proof fn law_finished_migration(replies: Seq<ReplyView>)
    requires
        outcome_after(migration_steps(), Migration::begun(), replies) == Some(
            Ok::<(), ErrorView>(()),
        ),
    ensures
        is_safe_to_drop(migration_past(replies)),
        migration_past(replies).contains((MigrationAction::Detach, ReplyView::Done)),
        migration_past(replies).contains((MigrationAction::DropLegacyTables, ReplyView::Done)),
        migration_past(replies).last() == (MigrationAction::Vacuum, ReplyView::Done),
{
    lemma_migration_inv(replies.drop_last());
    let run = state_after(migration_steps(), Migration::begun(), replies.drop_last())->0;
    let past = migration_past(replies.drop_last());
    lemma_push_contains(past, (run.action, replies.last()));
    lemma_settled_stays(past, (run.action, replies.last()));
}

/// A reply that lets the migration go on towards its end.
pub open spec fn is_favourable(run: Migration, reply: ReplyView) -> bool {
    match (run.action, reply) {
        (MigrationAction::Probe(_), ReplyView::Flag(_)) => true,
        (MigrationAction::CountSource(_), ReplyView::Count(_)) => true,
        (MigrationAction::CountTarget(_), ReplyView::Count(rows)) => run.source_rows <= rows,
        (MigrationAction::CheckIntegrity, ReplyView::Text(text)) => text == "ok"@,
        (MigrationAction::Attach, ReplyView::Done) => true,
        (MigrationAction::CopyRows(_), ReplyView::Done) => true,
        (MigrationAction::Detach, ReplyView::Done) => true,
        (MigrationAction::DropLegacyTables, ReplyView::Done) => true,
        (MigrationAction::Vacuum, ReplyView::Done) => true,
        _ => false,
    }
}

/// How far a migration has come.
pub open spec fn progress(action: MigrationAction) -> int {
    match action {
        MigrationAction::Attach => 0,
        MigrationAction::Probe(i) => 1 + 4 * i,
        MigrationAction::CopyRows(i) => 2 + 4 * i,
        MigrationAction::CountSource(i) => 3 + 4 * i,
        MigrationAction::CountTarget(i) => 4 + 4 * i,
        MigrationAction::CheckIntegrity => 1 + 4 * (migrated_tables().len() as int),
        MigrationAction::Detach => 2 + 4 * (migrated_tables().len() as int),
        MigrationAction::DropLegacyTables => 3 + 4 * (migrated_tables().len() as int),
        MigrationAction::Vacuum => 4 + 4 * (migrated_tables().len() as int),
    }
}

/// A favourable reply brings the migration further, and ends it well after the last action. So
/// a migration in which nothing goes wrong ends, and ends well.
pub proof fn law_migration_gets_done(run: Migration, reply: ReplyView)
    requires
        run.wf(),
        is_favourable(run, reply),
    ensures
        match migration_next(run, reply) {
            StepView::Continue(after) => progress(run.action) < progress(after.action) <= progress(
                MigrationAction::Vacuum,
            ),
            StepView::Finished(result) => result == Ok::<(), ErrorView>(()),
        },
        migration_next(run, reply) is Finished <==> run.action == MigrationAction::Vacuum,
{
}

} // verus!
