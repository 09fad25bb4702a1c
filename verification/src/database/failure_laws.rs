//! How the procedures on the databases end when something goes wrong: with the error that came,
//! or with the cause behind what was being done.

use vstd::prelude::*;

use crate::database::catalog::{catalog_next, CatalogAction, CatalogView};
use crate::database::init::{init_next, InitAction, InitView};
use crate::database::legacy::{drop_next, probe_next, LegacyDrop, LegacyProbe};
use crate::database::memory::{memory_next, MemoryRun};
use crate::database::migration::{migration_next, Migration, MigrationAction};
use crate::database::run::{ReplyView, StepView};
use crate::database::tables::{dropped_tables, migrated_tables, table_name};
use crate::database::vacuum::{
    auto_vacuum_next, rebuild_next, AutoVacuum, AutoVacuumAction, Rebuild, RebuildAction,
};
use crate::error::ErrorView;
use crate::text::{int_text, nat_text};
use crate::text_laws::{is_numeral, law_number_is_read_back, number_of};

verus! {

/// The run is over with a database error that says this.
pub open spec fn says<S, T>(step: StepView<S, T>, message: Seq<char>) -> bool {
    step == StepView::<S, T>::Finished(Err(ErrorView::Database(message)))
}

/// A failure ends a start, with the cause, unless it is one of the housekeeping. An error of the
/// application ends it unchanged, unless it is one of the housekeeping.
pub proof fn law_failed_start(run: InitView, cause: Seq<char>, error: ErrorView)
    ensures
        ({
            let failed = init_next(run, ReplyView::Failed(cause));
            let refused = init_next(run, ReplyView::Refused(error));
            let ended = StepView::<InitView, ()>::Finished(Err(error));
            match run.action() {
                InitAction::OpenLogs => says(failed, "打开日志数据库失败: "@ + cause) && refused
                    == ended,
                InitAction::LogsForeignKeys => says(
                    failed,
                    "启用日志库外键约束失败: "@ + cause,
                ) && refused == ended,
                InitAction::LogsAutoVacuum => says(
                    failed,
                    "配置日志库 auto_vacuum 失败: "@ + cause,
                ) && refused == ended,
                InitAction::EnsureIncrementalAutoVacuum => failed == run.onward() && refused
                    == run.onward(),
                InitAction::SyncModelPricing => failed == run.onward() && refused == run.onward(),
                InitAction::CleanUpStreamCheckLogs => failed == run.onward() && refused
                    == run.onward(),
                InitAction::RollUpAndPrune => failed == run.onward() && refused == run.onward(),
                InitAction::IncrementalVacuum => failed == run.onward() && refused == ended,
                _ => says(failed, cause) && refused == ended,
            }
        }),
{
    assert(Seq::<char>::empty() + cause =~= cause);
}

/// A start that may not go on says why: the versions, both in digits, of a database that a later
/// application has written, or that there is no backup of one that is to be split.
pub proof fn law_refused_start(run: InitView, unsplit: bool)
    ensures
        run.action() == InitAction::ProbeLegacyLogTables && run.version > 19 ==> exists|
            found: Seq<char>,
            supported: Seq<char>,
        |
            #![trigger is_numeral(found), is_numeral(supported)]
            {
                &&& is_numeral(found)
                &&& number_of(found) == run.version
                &&& is_numeral(supported)
                &&& number_of(supported) == 19
                &&& says(
                    init_next(run, ReplyView::Flag(unsplit)),
                    "数据库版本过新（"@ + found + "），当前应用仅支持 "@ + supported
                        + "，请升级应用后再尝试。"@,
                )
            },
        run.action() == InitAction::ProbeLegacyLogTables && run.version <= 19 ==> init_next(
            run,
            ReplyView::Flag(unsplit),
        ) == (InitView { legacy: Some(unsplit), ..run }).onward(),
        run.action() == InitAction::ReadUserVersion ==> forall|version: i32|
            #[trigger] init_next(run, ReplyView::Pragma(version)) == (InitView {
                version,
                ..run
            }).onward(),
        run.action() == InitAction::BackUp ==> says(
            init_next(run, ReplyView::Flag(false)),
            "拆分日志表前未能创建数据库备份"@,
        ) && init_next(run, ReplyView::Flag(true)) == run.onward(),
{
    law_number_is_read_back(19);
    if run.version > 19 {
        law_number_is_read_back(run.version as nat);
        assert(is_numeral(nat_text(run.version as nat)) && is_numeral(nat_text(19)));
        assert(int_text(run.version as int) == nat_text(run.version as nat));
        assert(int_text(19) == nat_text(19));
    }
}

/// A failure ends the setting up of databases in memory, with the cause, and an error of the
/// application ends it unchanged. What is done brings it one action further.
pub proof fn law_failed_memory(run: MemoryRun, cause: Seq<char>, error: ErrorView)
    ensures
        says(memory_next(run, ReplyView::Failed(cause)), cause),
        memory_next(run, ReplyView::Refused(error)) == StepView::<MemoryRun, ()>::Finished(
            Err(error),
        ),
        run.position < 10 ==> memory_next(run, ReplyView::Done) == StepView::<
            MemoryRun,
            (),
        >::Continue(MemoryRun { position: (run.position + 1) as usize }),
        run.position == 10 ==> memory_next(run, ReplyView::Done) == StepView::<
            MemoryRun,
            (),
        >::Finished(Ok(())),
{
}

/// A failure ends the search for log tables and the dropping of them.
pub proof fn law_failed_search_and_drop(
    probe: LegacyProbe,
    run: LegacyDrop,
    cause: Seq<char>,
    error: ErrorView,
)
    ensures
        says(probe_next(probe, ReplyView::Failed(cause)), cause),
        probe_next(probe, ReplyView::Refused(error)) == StepView::<LegacyProbe, bool>::Finished(
            Err(error),
        ),
        says(
            drop_next(run, ReplyView::Failed(cause)),
            "删除旧日志表 "@ + table_name(dropped_tables()[run.index as int]) + " 失败: "@ + cause,
        ),
        drop_next(run, ReplyView::Refused(error)) == StepView::<LegacyDrop, ()>::Finished(
            Err(error),
        ),
{
}

/// A failure ends a migration, with the cause behind what was being done.
pub proof fn law_failed_migration(run: Migration, cause: Seq<char>, error: ErrorView)
    ensures
        ({
            let failed = migration_next(run, ReplyView::Failed(cause));
            match run.action {
                MigrationAction::Attach => says(failed, "挂载旧配置数据库失败: "@ + cause),
                MigrationAction::CopyRows(i) => says(
                    failed,
                    "迁移日志表 "@ + table_name(migrated_tables()[i as int]) + " 失败: "@ + cause,
                ),
                MigrationAction::CheckIntegrity => says(
                    failed,
                    "校验日志数据库失败: "@ + cause,
                ),
                MigrationAction::Detach => says(failed, "卸载旧配置数据库失败: "@ + cause),
                MigrationAction::Vacuum => says(failed, "压缩配置数据库失败: "@ + cause),
                _ => says(failed, cause),
            }
        }),
        migration_next(run, ReplyView::Refused(error)) == StepView::<Migration, ()>::Finished(
            Err(error),
        ),
{
    assert(Seq::<char>::empty() + cause =~= cause);
}

/// A migration that finds fewer rows than there were says how many, in digits, and one whose log
/// database is not sound says what the check said.
pub proof fn law_unsafe_migration(run: Migration, rows: i64, text: Seq<char>)
    ensures
        run.action matches MigrationAction::CountTarget(i) ==> 0 <= rows < run.source_rows
            ==> exists|source: Seq<char>, target: Seq<char>|
            #![trigger is_numeral(source), is_numeral(target)]
            {
                &&& is_numeral(source)
                &&& number_of(source) == run.source_rows
                &&& is_numeral(target)
                &&& number_of(target) == rows
                &&& says(
                    migration_next(run, ReplyView::Count(rows)),
                    "迁移日志表 "@ + table_name(migrated_tables()[i as int])
                        + " 校验失败：源 "@ + source + " 行，目标 "@ + target + " 行"@,
                )
            },
        run.action is CountTarget && rows < run.source_rows ==> migration_next(
            run,
            ReplyView::Count(rows),
        ) matches StepView::Finished(Err(_)),
        run.action == MigrationAction::CheckIntegrity && text != "ok"@ ==> says(
            migration_next(run, ReplyView::Text(text)),
            "日志数据库完整性校验失败: "@ + text,
        ),
{
    if run.action is CountTarget && 0 <= rows < run.source_rows {
        law_number_is_read_back(rows as nat);
        law_number_is_read_back(run.source_rows as nat);
        assert(is_numeral(nat_text(run.source_rows as nat)) && is_numeral(nat_text(rows as nat)));
        assert(int_text(rows as int) == nat_text(rows as nat));
        assert(int_text(run.source_rows as int) == nat_text(run.source_rows as nat));
    }
}

/// A failure ends a rebuild, with the cause behind what was being done.
pub proof fn law_failed_rebuild(run: Rebuild, cause: Seq<char>, error: ErrorView)
    ensures
        ({
            let failed = rebuild_next(run, ReplyView::Failed(cause));
            match run.action {
                RebuildAction::ReadMode => says(failed, "读取 auto_vacuum 失败: "@ + cause),
                RebuildAction::CountTables => says(failed, "读取表数量失败: "@ + cause),
                RebuildAction::SetIncremental => says(
                    failed,
                    "设置 auto_vacuum 失败: "@ + cause,
                ),
                RebuildAction::Vacuum => says(failed, "执行 VACUUM 失败: "@ + cause),
                RebuildAction::RestoreForeignKeys => says(
                    failed,
                    "恢复 foreign_keys 失败: "@ + cause,
                ),
            }
        }),
        rebuild_next(run, ReplyView::Refused(error)) == StepView::<Rebuild, bool>::Finished(
            Err(error),
        ),
{
}

/// A failure ends the change to incremental auto-vacuum.
pub proof fn law_failed_auto_vacuum(run: AutoVacuum, cause: Seq<char>, error: ErrorView)
    ensures
        ({
            let failed = auto_vacuum_next(run, ReplyView::Failed(cause));
            match run.action {
                AutoVacuumAction::ReadMode => says(failed, "读取 auto_vacuum 失败: "@ + cause),
                AutoVacuumAction::CountTables => says(failed, "读取表数量失败: "@ + cause),
                _ => says(failed, cause),
            }
        }),
        auto_vacuum_next(run, ReplyView::Refused(error)) == StepView::<
            AutoVacuum,
            bool,
        >::Finished(Err(error)),
{
    assert(Seq::<char>::empty() + cause =~= cause);
}

/// A failure ends a refresh of the catalog cache, with the cause behind what was being done.
pub proof fn law_failed_refresh(run: CatalogView, cause: Seq<char>, error: ErrorView)
    ensures
        ({
            let failed = catalog_next(run, ReplyView::Failed(cause));
            match run.action {
                CatalogAction::Begin => says(failed, "刷新供应商目录失败: "@ + cause),
                CatalogAction::Clear => says(failed, "清理供应商目录缓存失败: "@ + cause),
                CatalogAction::PrepareInsert => says(
                    failed,
                    "准备供应商目录缓存失败: "@ + cause,
                ),
                CatalogAction::Insert(_) => says(failed, "写入供应商目录缓存失败: "@ + cause),
                CatalogAction::Commit => says(failed, "提交供应商目录缓存失败: "@ + cause),
            }
        }),
        catalog_next(run, ReplyView::Refused(error)) == StepView::<CatalogView, ()>::Finished(
            Err(error),
        ),
{
}

} // verus!
