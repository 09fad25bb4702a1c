//! Bringing a database to incremental auto-vacuum.

use vstd::prelude::*;
use vstd::string::*;

use crate::database::run::{
    exchanges, lemma_invariant, lemma_push_contains, outcome_after, state_after, Reply,
    ReplyView, Step, StepView,
};
use crate::error::{database_error, result_view, AppError, ErrorView};
use crate::text::phrase_view;

verus! {

/// The `auto_vacuum` mode of a database that frees its pages step by step.
pub const INCREMENTAL: i32 = 2;

/// The `auto_vacuum` mode that a query came to.
pub fn get_auto_vacuum_mode(mode: Result<i32, String>) -> (result: Result<i32, AppError>)
    ensures
        match mode {
            Ok(mode) => result == Ok::<i32, AppError>(mode),
            Err(cause) => result_view(result) == Err::<i32, ErrorView>(
                ErrorView::Database("读取 auto_vacuum 失败: "@ + cause@),
            ),
        },
{
    match mode {
        Ok(mode) => Ok(mode),
        Err(cause) => Err(database_error("读取 auto_vacuum 失败: ", cause.as_str())),
    }
}

/// Whether a database has tables of its own, from the count of them.
pub fn has_user_tables(count: Result<i64, String>) -> (result: Result<bool, AppError>)
    ensures
        match count {
            Ok(count) => result == Ok::<bool, AppError>(count > 0),
            Err(cause) => result_view(result) == Err::<bool, ErrorView>(
                ErrorView::Database("读取表数量失败: "@ + cause@),
            ),
        },
{
    match count {
        Ok(count) => Ok(count > 0),
        Err(cause) => Err(database_error("读取表数量失败: ", cause.as_str())),
    }
}

/// What a rebuild does next.
#[derive(Clone, Copy, Debug, PartialEq, Eq, Structural)]
pub enum RebuildAction {
    /// Read the `auto_vacuum` mode.
    ReadMode,
    /// Count the tables that are not SQLite's own.
    CountTables,
    /// Set the mode.
    SetIncremental,
    /// Rebuild the file, which puts the mode into effect.
    Vacuum,
    /// Switch the foreign keys on again.
    RestoreForeignKeys,
}

/// A rebuild on one connection: what is due, and whether there are tables.
#[derive(Clone, Copy, PartialEq, Eq, Structural)]
pub struct Rebuild {
    pub action: RebuildAction,
    pub has_tables: bool,
}

impl View for Rebuild {
    type V = Rebuild;

    open spec fn view(&self) -> Rebuild {
        *self
    }
}

/// The statement of an action.
pub open spec fn rebuild_statement(action: RebuildAction) -> Seq<char> {
    match action {
        RebuildAction::ReadMode => "PRAGMA auto_vacuum;"@,
        RebuildAction::CountTables => "SELECT COUNT(*) FROM sqlite_master WHERE type = 'table' AND name NOT LIKE 'sqlite_%'"@,
        RebuildAction::SetIncremental => "PRAGMA auto_vacuum = INCREMENTAL;"@,
        RebuildAction::Vacuum => "VACUUM;"@,
        RebuildAction::RestoreForeignKeys => "PRAGMA foreign_keys = ON;"@,
    }
}

/// What is said of an action that failed, before the cause.
pub open spec fn rebuild_context(action: RebuildAction) -> Seq<char> {
    match action {
        RebuildAction::ReadMode => "读取 auto_vacuum 失败: "@,
        RebuildAction::CountTables => "读取表数量失败: "@,
        RebuildAction::SetIncremental => "设置 auto_vacuum 失败: "@,
        RebuildAction::Vacuum => "执行 VACUUM 失败: "@,
        RebuildAction::RestoreForeignKeys => "恢复 foreign_keys 失败: "@,
    }
}

/// The rebuild after a reply. A database in incremental mode is left alone, and one without
/// tables needs no rebuilding. The outcome is whether the file was rebuilt.
pub open spec fn rebuild_next(run: Rebuild, reply: ReplyView) -> StepView<Rebuild, bool> {
    match (run.action, reply) {
        (_, ReplyView::Failed(cause)) => StepView::Finished(
            Err(ErrorView::Database(rebuild_context(run.action) + cause)),
        ),
        (_, ReplyView::Refused(error)) => StepView::Finished(Err(error)),
        (RebuildAction::ReadMode, ReplyView::Pragma(mode)) => if mode == INCREMENTAL {
            StepView::Finished(Ok(false))
        } else {
            StepView::Continue(Rebuild { action: RebuildAction::CountTables, ..run })
        },
        (RebuildAction::CountTables, ReplyView::Count(count)) => StepView::Continue(
            Rebuild { action: RebuildAction::SetIncremental, has_tables: count > 0 },
        ),
        (RebuildAction::SetIncremental, ReplyView::Done) => if run.has_tables {
            StepView::Continue(Rebuild { action: RebuildAction::Vacuum, ..run })
        } else {
            StepView::Finished(Ok(false))
        },
        (RebuildAction::Vacuum, ReplyView::Done) => StepView::Continue(
            Rebuild { action: RebuildAction::RestoreForeignKeys, ..run },
        ),
        (RebuildAction::RestoreForeignKeys, ReplyView::Done) => StepView::Finished(Ok(true)),
        _ => StepView::Continue(run),
    }
}

impl RebuildAction {
    /// The statement of the action.
    pub fn sql(self) -> (sql: &'static str)
        ensures
            sql@ == rebuild_statement(self),
    {
        match self {
            RebuildAction::ReadMode => "PRAGMA auto_vacuum;",
            RebuildAction::CountTables => "SELECT COUNT(*) FROM sqlite_master WHERE type = 'table' AND name NOT LIKE 'sqlite_%'",
            RebuildAction::SetIncremental => "PRAGMA auto_vacuum = INCREMENTAL;",
            RebuildAction::Vacuum => "VACUUM;",
            RebuildAction::RestoreForeignKeys => "PRAGMA foreign_keys = ON;",
        }
    }

    /// What is said of the action when it failed, before the cause.
    pub fn context(self) -> (context: &'static str)
        ensures
            context@ == rebuild_context(self),
    {
        match self {
            RebuildAction::ReadMode => "读取 auto_vacuum 失败: ",
            RebuildAction::CountTables => "读取表数量失败: ",
            RebuildAction::SetIncremental => "设置 auto_vacuum 失败: ",
            RebuildAction::Vacuum => "执行 VACUUM 失败: ",
            RebuildAction::RestoreForeignKeys => "恢复 foreign_keys 失败: ",
        }
    }
}

impl Rebuild {
    /// A rebuild that is about to begin.
    pub open spec fn begun() -> Rebuild {
        Rebuild { action: RebuildAction::ReadMode, has_tables: false }
    }

    /// Begins a rebuild.
    pub fn start() -> (run: Self)
        ensures
            run == Rebuild::begun(),
    {
        Rebuild { action: RebuildAction::ReadMode, has_tables: false }
    }

    /// Takes in the reply to the action that is due. A reply that does not answer it changes
    /// nothing.
    pub fn next(self, reply: Reply) -> (step: Step<Self, bool>)
        ensures
            step@ == rebuild_next(self, reply@),
    {
        match (self.action, reply) {
            (_, Reply::Failed(cause)) => Step::Finished(
                Err(database_error(self.action.context(), cause.as_str())),
            ),
            (_, Reply::Refused(error)) => Step::Finished(Err(error)),
            (RebuildAction::ReadMode, Reply::Pragma(mode)) => if mode == INCREMENTAL {
                Step::Finished(Ok(false))
            } else {
                Step::Continue(
                    Rebuild { action: RebuildAction::CountTables, has_tables: self.has_tables },
                )
            },
            (RebuildAction::CountTables, Reply::Count(count)) => Step::Continue(
                Rebuild { action: RebuildAction::SetIncremental, has_tables: count > 0 },
            ),
            (RebuildAction::SetIncremental, Reply::Done) => if self.has_tables {
                Step::Continue(
                    Rebuild { action: RebuildAction::Vacuum, has_tables: self.has_tables },
                )
            } else {
                Step::Finished(Ok(false))
            },
            (RebuildAction::Vacuum, Reply::Done) => Step::Continue(
                Rebuild {
                    action: RebuildAction::RestoreForeignKeys,
                    has_tables: self.has_tables,
                },
            ),
            (RebuildAction::RestoreForeignKeys, Reply::Done) => Step::Finished(Ok(true)),
            _ => Step::Continue(self),
        }
    }
}

/// What the change to incremental auto-vacuum does next.
#[derive(Clone, Copy, Debug, PartialEq, Eq, Structural)]
pub enum AutoVacuumAction {
    /// Read the `auto_vacuum` mode.
    ReadMode,
    /// Count the tables that are not SQLite's own.
    CountTables,
    /// Back the database file up.
    BackUp,
    /// Do the rebuild.
    Rebuild,
}

/// The change of the configuration database to incremental auto-vacuum: what is due.
#[derive(Clone, Copy, PartialEq, Eq, Structural)]
pub struct AutoVacuum {
    pub action: AutoVacuumAction,
}

impl View for AutoVacuum {
    type V = AutoVacuum;

    open spec fn view(&self) -> AutoVacuum {
        *self
    }
}

/// The query of an action, where it is one.
pub open spec fn auto_vacuum_statement(action: AutoVacuumAction) -> Option<Seq<char>> {
    match action {
        AutoVacuumAction::ReadMode => Some(rebuild_statement(RebuildAction::ReadMode)),
        AutoVacuumAction::CountTables => Some(rebuild_statement(RebuildAction::CountTables)),
        _ => None,
    }
}

/// What is said of an action that failed, before the cause.
pub open spec fn auto_vacuum_context(action: AutoVacuumAction) -> Seq<char> {
    match action {
        AutoVacuumAction::ReadMode => rebuild_context(RebuildAction::ReadMode),
        AutoVacuumAction::CountTables => rebuild_context(RebuildAction::CountTables),
        _ => Seq::empty(),
    }
}

/// The change after a reply. Where there are tables, a backup comes before the rebuild; whether
/// there was a file to back up does not matter.
pub open spec fn auto_vacuum_next(run: AutoVacuum, reply: ReplyView) -> StepView<AutoVacuum, bool> {
    match (run.action, reply) {
        (_, ReplyView::Failed(cause)) => StepView::Finished(
            Err(ErrorView::Database(auto_vacuum_context(run.action) + cause)),
        ),
        (_, ReplyView::Refused(error)) => StepView::Finished(Err(error)),
        (AutoVacuumAction::ReadMode, ReplyView::Pragma(mode)) => if mode == INCREMENTAL {
            StepView::Finished(Ok(false))
        } else {
            StepView::Continue(AutoVacuum { action: AutoVacuumAction::CountTables })
        },
        (AutoVacuumAction::CountTables, ReplyView::Count(count)) => if count > 0 {
            StepView::Continue(AutoVacuum { action: AutoVacuumAction::BackUp })
        } else {
            StepView::Continue(AutoVacuum { action: AutoVacuumAction::Rebuild })
        },
        (AutoVacuumAction::BackUp, ReplyView::Flag(_)) => StepView::Continue(
            AutoVacuum { action: AutoVacuumAction::Rebuild },
        ),
        (AutoVacuumAction::Rebuild, ReplyView::Flag(rebuilt)) => StepView::Finished(Ok(rebuilt)),
        _ => StepView::Continue(run),
    }
}

impl AutoVacuumAction {
    /// The query of the action, where it is one.
    pub fn sql(self) -> (sql: Option<&'static str>)
        ensures
            phrase_view(sql) == auto_vacuum_statement(self),
    {
        match self {
            AutoVacuumAction::ReadMode => Some(RebuildAction::ReadMode.sql()),
            AutoVacuumAction::CountTables => Some(RebuildAction::CountTables.sql()),
            _ => None,
        }
    }
}

impl AutoVacuum {
    /// A change that is about to begin.
    pub open spec fn begun() -> AutoVacuum {
        AutoVacuum { action: AutoVacuumAction::ReadMode }
    }

    /// Begins the change.
    pub fn start() -> (run: Self)
        ensures
            run == AutoVacuum::begun(),
    {
        AutoVacuum { action: AutoVacuumAction::ReadMode }
    }

    /// Takes in the reply to the action that is due. A reply that does not answer it changes
    /// nothing.
    pub fn next(self, reply: Reply) -> (step: Step<Self, bool>)
        ensures
            step@ == auto_vacuum_next(self, reply@),
    {
        match (self.action, reply) {
            (AutoVacuumAction::ReadMode, Reply::Failed(cause)) => Step::Finished(
                Err(database_error(RebuildAction::ReadMode.context(), cause.as_str())),
            ),
            (AutoVacuumAction::CountTables, Reply::Failed(cause)) => Step::Finished(
                Err(database_error(RebuildAction::CountTables.context(), cause.as_str())),
            ),
            (_, Reply::Failed(cause)) => {
                assert(Seq::<char>::empty() + cause@ =~= cause@);
                Step::Finished(Err(AppError::Database(cause)))
            },
            (_, Reply::Refused(error)) => Step::Finished(Err(error)),
            (AutoVacuumAction::ReadMode, Reply::Pragma(mode)) => if mode == INCREMENTAL {
                Step::Finished(Ok(false))
            } else {
                Step::Continue(AutoVacuum { action: AutoVacuumAction::CountTables })
            },
            (AutoVacuumAction::CountTables, Reply::Count(count)) => if count > 0 {
                Step::Continue(AutoVacuum { action: AutoVacuumAction::BackUp })
            } else {
                Step::Continue(AutoVacuum { action: AutoVacuumAction::Rebuild })
            },
            (AutoVacuumAction::BackUp, Reply::Flag(_)) => Step::Continue(
                AutoVacuum { action: AutoVacuumAction::Rebuild },
            ),
            (AutoVacuumAction::Rebuild, Reply::Flag(rebuilt)) => Step::Finished(Ok(rebuilt)),
            _ => Step::Continue(self),
        }
    }
}

/// The steps of a rebuild.
pub open spec fn rebuild_steps() -> spec_fn(Rebuild, ReplyView) -> StepView<Rebuild, bool> {
    |run: Rebuild, reply: ReplyView| rebuild_next(run, reply)
}

/// The action that is due in a rebuild.
pub open spec fn rebuild_due() -> spec_fn(Rebuild) -> RebuildAction {
    |run: Rebuild| run.action
}

/// What a rebuild did so far, with the replies.
pub open spec fn rebuild_past(replies: Seq<ReplyView>) -> Seq<(RebuildAction, ReplyView)> {
    exchanges(rebuild_steps(), rebuild_due(), Rebuild::begun(), replies)
}

/// A database in incremental mode is left as it is. One without tables is only set to it. One
/// with tables is set to it, rebuilt, and has its foreign keys switched on again.
pub proof fn law_rebuild_where_needed(mode: i32, count: i64)
    ensures
        mode == INCREMENTAL ==> outcome_after(
            rebuild_steps(),
            Rebuild::begun(),
            seq![ReplyView::Pragma(mode)],
        ) == Some(Ok::<bool, ErrorView>(false)),
        mode != INCREMENTAL && count <= 0 ==> outcome_after(
            rebuild_steps(),
            Rebuild::begun(),
            seq![ReplyView::Pragma(mode), ReplyView::Count(count), ReplyView::Done],
        ) == Some(Ok::<bool, ErrorView>(false)),
        mode != INCREMENTAL && count > 0 ==> outcome_after(
            rebuild_steps(),
            Rebuild::begun(),
            seq![
                ReplyView::Pragma(mode),
                ReplyView::Count(count),
                ReplyView::Done,
                ReplyView::Done,
                ReplyView::Done,
            ],
        ) == Some(Ok::<bool, ErrorView>(true)),
{
    let next = rebuild_steps();
    let start = Rebuild::begun();
    let all = seq![
        ReplyView::Pragma(mode),
        ReplyView::Count(count),
        ReplyView::Done,
        ReplyView::Done,
        ReplyView::Done,
    ];
    assert(seq![ReplyView::Pragma(mode)] =~= all.take(1));
    assert(seq![ReplyView::Pragma(mode), ReplyView::Count(count), ReplyView::Done] =~= all.take(3));
    assert(all =~= all.take(5));
    assert(all.take(5).drop_last() =~= all.take(4));
    assert(all.take(4).drop_last() =~= all.take(3));
    assert(all.take(3).drop_last() =~= all.take(2));
    assert(all.take(2).drop_last() =~= all.take(1));
    assert(all.take(1).drop_last() =~= Seq::empty());
    assert(state_after(next, start, all.take(1).drop_last()) == Some(start));
    if mode != INCREMENTAL {
        assert(state_after(next, start, all.take(1)) is Some);
        assert(state_after(next, start, all.take(2)) == Some(
            Rebuild { action: RebuildAction::SetIncremental, has_tables: count > 0 },
        ));
        if count > 0 {
            assert(state_after(next, start, all.take(3)) is Some);
            assert(state_after(next, start, all.take(4)) is Some);
        }
    }
}

/// What was done when a rebuild stands where it does.
spec fn rebuild_inv(run: Rebuild, past: Seq<(RebuildAction, ReplyView)>) -> bool {
    &&& run.action != RebuildAction::ReadMode ==> exists|mode: i32|
        mode != INCREMENTAL && #[trigger] past.contains(
            (RebuildAction::ReadMode, ReplyView::Pragma(mode)),
        )
    &&& run.has_tables ==> exists|count: i64|
        count > 0 && #[trigger] past.contains(
            (RebuildAction::CountTables, ReplyView::Count(count)),
        )
    &&& run.action == RebuildAction::Vacuum || run.action == RebuildAction::RestoreForeignKeys
        ==> run.has_tables && past.contains((RebuildAction::SetIncremental, ReplyView::Done))
    &&& run.action == RebuildAction::RestoreForeignKeys ==> past.contains(
        (RebuildAction::Vacuum, ReplyView::Done),
    )
}

proof fn lemma_rebuild_inv_kept(
    run: Rebuild,
    past: Seq<(RebuildAction, ReplyView)>,
    reply: ReplyView,
)
    requires
        rebuild_inv(run, past),
    ensures
        match rebuild_next(run, reply) {
            StepView::Continue(after) => rebuild_inv(after, past.push((run.action, reply))),
            StepView::Finished(_) => true,
        },
{
    let now = past.push((run.action, reply));
    lemma_push_contains(past, (run.action, reply));
    if run.action != RebuildAction::ReadMode {
        let mode = choose|mode: i32|
            mode != INCREMENTAL && #[trigger] past.contains(
                (RebuildAction::ReadMode, ReplyView::Pragma(mode)),
            );
        assert(now.contains((RebuildAction::ReadMode, ReplyView::Pragma(mode))));
    }
    if run.has_tables {
        let count = choose|count: i64|
            count > 0 && #[trigger] past.contains(
                (RebuildAction::CountTables, ReplyView::Count(count)),
            );
        assert(now.contains((RebuildAction::CountTables, ReplyView::Count(count))));
    }
    match (run.action, reply) {
        (RebuildAction::ReadMode, ReplyView::Pragma(mode)) => {
            assert(now.contains((RebuildAction::ReadMode, ReplyView::Pragma(mode))));
        },
        (RebuildAction::CountTables, ReplyView::Count(count)) => {
            assert(now.contains((RebuildAction::CountTables, ReplyView::Count(count))));
        },
        _ => {},
    }
}

proof fn lemma_rebuild_inv(replies: Seq<ReplyView>)
    ensures
        match state_after(rebuild_steps(), Rebuild::begun(), replies) {
            Some(run) => rebuild_inv(run, rebuild_past(replies)),
            None => true,
        },
{
    let next = rebuild_steps();
    let due = rebuild_due();
    let inv = |run: Rebuild, past: Seq<(RebuildAction, ReplyView)>| rebuild_inv(run, past);
    assert forall|run: Rebuild, past: Seq<(RebuildAction, ReplyView)>, reply: ReplyView|
        #![trigger inv(run, past), next(run, reply)]
        inv(run, past) implies match next(run, reply) {
        StepView::Continue(after) => inv(after, past.push((due(run), reply))),
        StepView::Finished(_) => true,
    } by {
        lemma_rebuild_inv_kept(run, past, reply);
    }
    lemma_invariant(next, due, Rebuild::begun(), inv, replies);
}

proof fn lemma_rebuild_evidence_stays(
    run: Rebuild,
    past: Seq<(RebuildAction, ReplyView)>,
    exchange: (RebuildAction, ReplyView),
)
    requires
        rebuild_inv(run, past),
        run.action == RebuildAction::RestoreForeignKeys,
    ensures
        exists|mode: i32|
            mode != INCREMENTAL && #[trigger] past.push(exchange).contains(
                (RebuildAction::ReadMode, ReplyView::Pragma(mode)),
            ),
        exists|count: i64|
            count > 0 && #[trigger] past.push(exchange).contains(
                (RebuildAction::CountTables, ReplyView::Count(count)),
            ),
        past.push(exchange).contains((RebuildAction::SetIncremental, ReplyView::Done)),
        past.push(exchange).contains((RebuildAction::Vacuum, ReplyView::Done)),
{
    let now = past.push(exchange);
    lemma_push_contains(past, exchange);
    let mode = choose|mode: i32|
        mode != INCREMENTAL && #[trigger] past.contains(
            (RebuildAction::ReadMode, ReplyView::Pragma(mode)),
        );
    assert(now.contains((RebuildAction::ReadMode, ReplyView::Pragma(mode))));
    let count = choose|count: i64|
        count > 0 && #[trigger] past.contains(
            (RebuildAction::CountTables, ReplyView::Count(count)),
        );
    assert(now.contains((RebuildAction::CountTables, ReplyView::Count(count))));
}

/// A file is rebuilt only where the mode was another and there are tables, and then the foreign
/// keys are switched on again before the rebuild counts as done.
pub proof fn law_rebuilt_file(replies: Seq<ReplyView>)
    requires
        outcome_after(rebuild_steps(), Rebuild::begun(), replies) == Some(
            Ok::<bool, ErrorView>(true),
        ),
    ensures
        exists|mode: i32|
            mode != INCREMENTAL && #[trigger] rebuild_past(replies).contains(
                (RebuildAction::ReadMode, ReplyView::Pragma(mode)),
            ),
        exists|count: i64|
            count > 0 && #[trigger] rebuild_past(replies).contains(
                (RebuildAction::CountTables, ReplyView::Count(count)),
            ),
        rebuild_past(replies).contains((RebuildAction::SetIncremental, ReplyView::Done)),
        rebuild_past(replies).contains((RebuildAction::Vacuum, ReplyView::Done)),
        rebuild_past(replies).last() == (RebuildAction::RestoreForeignKeys, ReplyView::Done),
{
    lemma_rebuild_inv(replies.drop_last());
    let run = state_after(rebuild_steps(), Rebuild::begun(), replies.drop_last())->0;
    let past = rebuild_past(replies.drop_last());
    let exchange = (run.action, replies.last());
    assert(rebuild_past(replies) == past.push(exchange));
    lemma_rebuild_evidence_stays(run, past, exchange);
}

/// A database file, as far as a rebuild is concerned.
#[verifier::reject_recursive_types(C)]
pub struct VacuumedFile<C> {
    /// The `auto_vacuum` mode in effect.
    pub mode: i32,
    /// The mode that the next rebuild of the file puts into effect.
    pub requested: i32,
    /// The tables and their rows.
    pub contents: C,
}

/// A file with tables after what a rebuild did: a mode that is set takes effect when the file
/// is rebuilt, and no action touches the tables or their rows.
pub open spec fn file_after<C>(
    file: VacuumedFile<C>,
    past: Seq<(RebuildAction, ReplyView)>,
) -> VacuumedFile<C>
    decreases past.len(),
{
    if past.len() == 0 {
        file
    } else {
        let earlier = file_after(file, past.drop_last());
        match past.last() {
            (RebuildAction::SetIncremental, ReplyView::Done) => VacuumedFile {
                requested: INCREMENTAL,
                ..earlier
            },
            (RebuildAction::Vacuum, ReplyView::Done) => VacuumedFile {
                mode: earlier.requested,
                ..earlier
            },
            _ => earlier,
        }
    }
}

proof fn lemma_file_along_rebuild<C>(file: VacuumedFile<C>, replies: Seq<ReplyView>)
    ensures
        match state_after(rebuild_steps(), Rebuild::begun(), replies) {
            Some(run) => {
                let now = file_after(file, rebuild_past(replies));
                &&& now.contents == file.contents
                &&& run.action == RebuildAction::Vacuum ==> now.requested == INCREMENTAL
                &&& run.action == RebuildAction::RestoreForeignKeys ==> now.mode == INCREMENTAL
            },
            None => true,
        },
{
    let next = rebuild_steps();
    let due = rebuild_due();
    let inv = |run: Rebuild, past: Seq<(RebuildAction, ReplyView)>|
        {
            let now = file_after(file, past);
            &&& now.contents == file.contents
            &&& run.action == RebuildAction::Vacuum ==> now.requested == INCREMENTAL
            &&& run.action == RebuildAction::RestoreForeignKeys ==> now.mode == INCREMENTAL
        };
    assert forall|run: Rebuild, past: Seq<(RebuildAction, ReplyView)>, reply: ReplyView|
        #![trigger inv(run, past), next(run, reply)]
        inv(run, past) implies match next(run, reply) {
        StepView::Continue(after) => inv(after, past.push((due(run), reply))),
        StepView::Finished(_) => true,
    } by {
        assert(past.push((due(run), reply)).drop_last() =~= past);
    }
    lemma_invariant(next, due, Rebuild::begun(), inv, replies);
}

/// A file is rebuilt once: a rebuild that ended with a rebuilt file has put the incremental mode
/// into effect, so that another one, which reads the mode of that file, ends with no rebuilding
/// and does nothing else. Over both, the tables and their rows stay as they were.
pub proof fn law_file_is_rebuilt_once<C>(file: VacuumedFile<C>, replies: Seq<ReplyView>)
    requires
        outcome_after(rebuild_steps(), Rebuild::begun(), replies) == Some(
            Ok::<bool, ErrorView>(true),
        ),
    ensures
        ({
            let rebuilt = file_after(file, rebuild_past(replies));
            let reading = seq![ReplyView::Pragma(rebuilt.mode)];
            &&& rebuilt.mode == INCREMENTAL
            &&& rebuilt.contents == file.contents
            &&& outcome_after(rebuild_steps(), Rebuild::begun(), reading) == Some(
                Ok::<bool, ErrorView>(false),
            )
            &&& rebuild_past(reading) == seq![
                (RebuildAction::ReadMode, ReplyView::Pragma(rebuilt.mode)),
            ]
            &&& file_after(rebuilt, rebuild_past(reading)) == rebuilt
        }),
{
    let earlier = replies.drop_last();
    lemma_file_along_rebuild(file, earlier);
    lemma_rebuild_inv(earlier);
    let run = state_after(rebuild_steps(), Rebuild::begun(), earlier)->0;
    let past = rebuild_past(earlier);
    let exchange = (run.action, replies.last());
    assert(rebuild_past(replies) == past.push(exchange));
    assert(past.push(exchange).drop_last() =~= past);
    let rebuilt = file_after(file, rebuild_past(replies));
    assert(rebuilt.mode == INCREMENTAL);
    law_rebuild_where_needed(INCREMENTAL, 0);
    let reading = seq![ReplyView::Pragma(INCREMENTAL)];
    assert(reading.drop_last() =~= Seq::empty());
    assert(rebuild_past(reading.drop_last()) =~= Seq::empty());
    let read = (RebuildAction::ReadMode, ReplyView::Pragma(INCREMENTAL));
    assert(rebuild_past(reading) =~= seq![read]);
    assert(seq![read].drop_last() =~= Seq::empty());
    assert(file_after(rebuilt, Seq::empty()) == rebuilt);
}

/// Every mode that was read is this one, and every count of tables is this one.
pub open spec fn rebuild_reads(
    past: Seq<(RebuildAction, ReplyView)>,
    mode: i32,
    count: i64,
) -> bool {
    &&& forall|m: i32| #[trigger]
        past.contains((RebuildAction::ReadMode, ReplyView::Pragma(m))) ==> m == mode
    &&& forall|c: i64| #[trigger]
        past.contains((RebuildAction::CountTables, ReplyView::Count(c))) ==> c == count
}

/// What a rebuild knows of the mode and the tables where it stands.
spec fn rebuild_knows(run: Rebuild, mode: i32, count: i64) -> bool {
    &&& run.action != RebuildAction::ReadMode ==> mode != INCREMENTAL
    &&& run.action != RebuildAction::ReadMode && run.action != RebuildAction::CountTables
        ==> run.has_tables == (count > 0)
    &&& run.action == RebuildAction::Vacuum || run.action == RebuildAction::RestoreForeignKeys
        ==> run.has_tables
}

/// A rebuild that ends well has rebuilt the file exactly where the mode was another and there are
/// tables.
pub proof fn law_rebuild_outcome(
    replies: Seq<ReplyView>,
    mode: i32,
    count: i64,
    rebuilt: bool,
)
    requires
        outcome_after(rebuild_steps(), Rebuild::begun(), replies) == Some(
            Ok::<bool, ErrorView>(rebuilt),
        ),
        rebuild_reads(rebuild_past(replies), mode, count),
    ensures
        rebuilt <==> mode != INCREMENTAL && count > 0,
{
    let earlier = replies.drop_last();
    lemma_rebuild_knows(earlier, mode, count);
    let run = state_after(rebuild_steps(), Rebuild::begun(), earlier)->0;
    let past = rebuild_past(earlier);
    assert(rebuild_past(replies) == past.push((run.action, replies.last())));
    lemma_rebuild_reads(past, (run.action, replies.last()), mode, count);
}

proof fn lemma_rebuild_knows(replies: Seq<ReplyView>, mode: i32, count: i64)
    ensures
        match state_after(rebuild_steps(), Rebuild::begun(), replies) {
            Some(run) => rebuild_reads(rebuild_past(replies), mode, count) ==> rebuild_knows(
                run,
                mode,
                count,
            ),
            None => true,
        },
{
    let next = rebuild_steps();
    let due = rebuild_due();
    let inv = |run: Rebuild, past: Seq<(RebuildAction, ReplyView)>|
        rebuild_reads(past, mode, count) ==> rebuild_knows(run, mode, count);
    assert forall|run: Rebuild, past: Seq<(RebuildAction, ReplyView)>, reply: ReplyView|
        #![trigger inv(run, past), next(run, reply)]
        inv(run, past) implies match next(run, reply) {
        StepView::Continue(after) => inv(after, past.push((due(run), reply))),
        StepView::Finished(_) => true,
    } by {
        lemma_rebuild_reads(past, (run.action, reply), mode, count);
    }
    lemma_invariant(next, due, Rebuild::begun(), inv, replies);
}

proof fn lemma_rebuild_reads(
    past: Seq<(RebuildAction, ReplyView)>,
    exchange: (RebuildAction, ReplyView),
    mode: i32,
    count: i64,
)
    ensures
        rebuild_reads(past.push(exchange), mode, count) ==> {
            &&& rebuild_reads(past, mode, count)
            &&& exchange matches (RebuildAction::ReadMode, ReplyView::Pragma(m)) ==> m == mode
            &&& exchange matches (RebuildAction::CountTables, ReplyView::Count(c)) ==> c == count
        },
{
    let now = past.push(exchange);
    lemma_push_contains(past, exchange);
    if rebuild_reads(now, mode, count) {
        assert forall|m: i32| #[trigger]
            past.contains((RebuildAction::ReadMode, ReplyView::Pragma(m))) implies m == mode by {
            assert(now.contains((RebuildAction::ReadMode, ReplyView::Pragma(m))));
        }
        assert forall|c: i64| #[trigger]
            past.contains((RebuildAction::CountTables, ReplyView::Count(c))) implies c == count by {
            assert(now.contains((RebuildAction::CountTables, ReplyView::Count(c))));
        }
        match exchange {
            (RebuildAction::ReadMode, ReplyView::Pragma(m)) => {
                assert(now.contains((RebuildAction::ReadMode, ReplyView::Pragma(m))));
            },
            (RebuildAction::CountTables, ReplyView::Count(c)) => {
                assert(now.contains((RebuildAction::CountTables, ReplyView::Count(c))));
            },
            _ => {},
        }
    }
}

/// The steps of the change to incremental auto-vacuum.
pub open spec fn auto_vacuum_steps() -> spec_fn(AutoVacuum, ReplyView) -> StepView<
    AutoVacuum,
    bool,
> {
    |run: AutoVacuum, reply: ReplyView| auto_vacuum_next(run, reply)
}

/// The action that is due in the change.
pub open spec fn auto_vacuum_due() -> spec_fn(AutoVacuum) -> AutoVacuumAction {
    |run: AutoVacuum| run.action
}

/// What the change did so far, with the replies.
pub open spec fn auto_vacuum_past(replies: Seq<ReplyView>) -> Seq<(AutoVacuumAction, ReplyView)> {
    exchanges(auto_vacuum_steps(), auto_vacuum_due(), AutoVacuum::begun(), replies)
}

/// The database was found to be without tables, or it was backed up.
pub open spec fn is_safe_to_rebuild(past: Seq<(AutoVacuumAction, ReplyView)>) -> bool {
    ||| exists|count: i64|
        count <= 0 && #[trigger] past.contains(
            (AutoVacuumAction::CountTables, ReplyView::Count(count)),
        )
    ||| exists|present: bool| #[trigger]
        past.contains((AutoVacuumAction::BackUp, ReplyView::Flag(present)))
}

/// A database with tables is backed up before it is rebuilt.
pub proof fn law_backup_before_rebuild(replies: Seq<ReplyView>)
    requires
        state_after(auto_vacuum_steps(), AutoVacuum::begun(), replies) matches Some(run)
            && run.action == AutoVacuumAction::Rebuild,
    ensures
        is_safe_to_rebuild(auto_vacuum_past(replies)),
{
    let next = auto_vacuum_steps();
    let due = auto_vacuum_due();
    let inv = |run: AutoVacuum, past: Seq<(AutoVacuumAction, ReplyView)>|
        run.action == AutoVacuumAction::Rebuild ==> is_safe_to_rebuild(past);
    assert forall|run: AutoVacuum, past: Seq<(AutoVacuumAction, ReplyView)>, reply: ReplyView|
        #![trigger inv(run, past), next(run, reply)]
        inv(run, past) implies match next(run, reply) {
        StepView::Continue(after) => inv(after, past.push((due(run), reply))),
        StepView::Finished(_) => true,
    } by {
        let now = past.push((run.action, reply));
        lemma_push_contains(past, (run.action, reply));
        if is_safe_to_rebuild(past) {
            if exists|count: i64|
                count <= 0 && #[trigger] past.contains(
                    (AutoVacuumAction::CountTables, ReplyView::Count(count)),
                ) {
                let count = choose|count: i64|
                    count <= 0 && #[trigger] past.contains(
                        (AutoVacuumAction::CountTables, ReplyView::Count(count)),
                    );
                assert(now.contains((AutoVacuumAction::CountTables, ReplyView::Count(count))));
            } else {
                let present = choose|present: bool| #[trigger]
                    past.contains((AutoVacuumAction::BackUp, ReplyView::Flag(present)));
                assert(now.contains((AutoVacuumAction::BackUp, ReplyView::Flag(present))));
            }
            assert(is_safe_to_rebuild(now));
        }
        match (run.action, reply) {
            (AutoVacuumAction::CountTables, ReplyView::Count(count)) => {
                assert(now.contains((AutoVacuumAction::CountTables, ReplyView::Count(count))));
            },
            (AutoVacuumAction::BackUp, ReplyView::Flag(present)) => {
                assert(now.contains((AutoVacuumAction::BackUp, ReplyView::Flag(present))));
            },
            _ => {},
        }
    }
    lemma_invariant(next, due, AutoVacuum::begun(), inv, replies);
}

/// Every mode that was read is this one, and every count of tables is this one.
pub open spec fn auto_vacuum_reads(
    past: Seq<(AutoVacuumAction, ReplyView)>,
    mode: i32,
    count: i64,
) -> bool {
    &&& forall|m: i32| #[trigger]
        past.contains((AutoVacuumAction::ReadMode, ReplyView::Pragma(m))) ==> m == mode
    &&& forall|c: i64| #[trigger]
        past.contains((AutoVacuumAction::CountTables, ReplyView::Count(c))) ==> c == count
}

/// The flag that the change is given is what the rebuild on the same database came to.
pub open spec fn reports_rebuild(
    past: Seq<(AutoVacuumAction, ReplyView)>,
    rebuild: Seq<ReplyView>,
) -> bool {
    forall|rebuilt: bool| #[trigger]
        past.contains((AutoVacuumAction::Rebuild, ReplyView::Flag(rebuilt))) ==> outcome_after(
            rebuild_steps(),
            Rebuild::begun(),
            rebuild,
        ) == Some(Ok::<bool, ErrorView>(rebuilt))
}

/// The change to incremental auto-vacuum, with the rebuild that it does: where both read the same
/// mode and the same count of tables, the outcome is that the file was rebuilt exactly where the
/// mode was another and there are tables.
pub proof fn law_auto_vacuum_outcome(
    replies: Seq<ReplyView>,
    rebuild: Seq<ReplyView>,
    mode: i32,
    count: i64,
    result: bool,
)
    requires
        outcome_after(auto_vacuum_steps(), AutoVacuum::begun(), replies) == Some(
            Ok::<bool, ErrorView>(result),
        ),
        auto_vacuum_reads(auto_vacuum_past(replies), mode, count),
        reports_rebuild(auto_vacuum_past(replies), rebuild),
        rebuild_reads(rebuild_past(rebuild), mode, count),
    ensures
        result <==> mode != INCREMENTAL && count > 0,
{
    let earlier = replies.drop_last();
    let run = state_after(auto_vacuum_steps(), AutoVacuum::begun(), earlier)->0;
    let past = auto_vacuum_past(earlier);
    let exchange = (run.action, replies.last());
    assert(auto_vacuum_past(replies) == past.push(exchange));
    lemma_push_contains(past, exchange);
    let now = auto_vacuum_past(replies);
    match (run.action, replies.last()) {
        (AutoVacuumAction::Rebuild, ReplyView::Flag(rebuilt)) => {
            assert(now.contains((AutoVacuumAction::Rebuild, ReplyView::Flag(rebuilt))));
            law_rebuild_outcome(rebuild, mode, count, rebuilt);
        },
        (AutoVacuumAction::ReadMode, ReplyView::Pragma(m)) => {
            assert(now.contains((AutoVacuumAction::ReadMode, ReplyView::Pragma(m))));
        },
        _ => {},
    }
}

} // verus!
