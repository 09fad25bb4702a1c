//! What every start does, and in which order.

use vstd::prelude::*;

use crate::database::init::{
    closing_plan, init_next, init_plan, is_too_new, opening_plan, schema_plan, InitAction,
    InitView, Setting, SCHEMA_VERSION,
};
use crate::database::init_laws::{
    init_inv, init_outcome, init_past, init_state, is_done_by, law_actions_come_in_order,
    law_nothing_is_skipped, lemma_init_inv, lemma_opening_in_order, lemma_plan_landmarks,
    lemma_plan_parts, order, was_done,
};
use crate::database::run::{ReplyView, StepView};
use crate::error::ErrorView;

verus! {

/// Which actions a start consists of: the databases are opened and their foreign keys switched on
/// every time, what they hold is found out every time, and the log schema, the catalog cache, the
/// change reports and the housekeeping come every time. The rest depends on what is there.
pub proof fn law_what_a_start_does(
    setting: Setting,
    version: i32,
    legacy: bool,
    action: InitAction,
)
    ensures
        SCHEMA_VERSION == 19,
        init_plan(setting, version, legacy).contains(action) <==> match action {
            InitAction::CreateConfigDir => setting.has_parent,
            InitAction::OpenConfig => true,
            InitAction::ConfigForeignKeys => true,
            InitAction::ConfigAutoVacuum => !setting.db_exists,
            InitAction::OpenLogs => true,
            InitAction::LogsForeignKeys => true,
            InitAction::LogsAutoVacuum => !setting.logs_exists,
            InitAction::ReadUserVersion => true,
            InitAction::ProbeLegacyLogTables => true,
            InitAction::BackUp => legacy,
            InitAction::CreateTables => legacy,
            InitAction::ApplySchemaMigrations => legacy || version < 19,
            InitAction::CreateConfigTables => !legacy,
            InitAction::CreateLogTables => !legacy && version < 19,
            InitAction::DropLegacyLogTables => !legacy && version < 19,
            InitAction::SetUserVersion => !legacy && version == 0,
            InitAction::ApplyLogSchemaMigrations => true,
            InitAction::MigrateLegacyLogTables => legacy,
            InitAction::RefreshProviderCatalogCache => true,
            InitAction::RegisterChangeHook => true,
            InitAction::EnsureIncrementalAutoVacuum => true,
            InitAction::SeedModelPricing => true,
            InitAction::SyncModelPricing => true,
            InitAction::CleanUpStreamCheckLogs => true,
            InitAction::RollUpAndPrune => true,
            InitAction::IncrementalVacuum => true,
        },
{
    let opening = opening_plan(setting);
    let schema = schema_plan(version, legacy);
    let closing = closing_plan(legacy);
    let plan = init_plan(setting, version, legacy);
    assert(plan.contains(action) <==> opening.contains(action) || schema.contains(action)
        || closing.contains(action)) by {
        if plan.contains(action) {
            let i = plan.index_of(action);
            lemma_plan_parts(setting, version, legacy, i);
        }
        if opening.contains(action) {
            let i = opening.index_of(action);
            assert(plan[i] == action);
        }
        if schema.contains(action) {
            let i = schema.index_of(action);
            assert(plan[opening.len() + i] == action);
        }
        if closing.contains(action) {
            let i = closing.index_of(action);
            assert(plan[opening.len() + schema.len() + i] == action);
        }
    }
    lemma_opening_has(setting, action);
    lemma_schema_has(version, legacy, action);
    lemma_closing_has(legacy, action);
}

proof fn lemma_opening_has(setting: Setting, action: InitAction)
    ensures
        opening_plan(setting).contains(action) <==> match action {
            InitAction::CreateConfigDir => setting.has_parent,
            InitAction::OpenConfig => true,
            InitAction::ConfigForeignKeys => true,
            InitAction::ConfigAutoVacuum => !setting.db_exists,
            InitAction::OpenLogs => true,
            InitAction::LogsForeignKeys => true,
            InitAction::LogsAutoVacuum => !setting.logs_exists,
            InitAction::ReadUserVersion => true,
            InitAction::ProbeLegacyLogTables => true,
            _ => false,
        },
{
    reveal(opening_plan);
    let plan = opening_plan(setting);
    let a: int = if setting.has_parent {
        1
    } else {
        0
    };
    let b: int = if setting.db_exists {
        0
    } else {
        1
    };
    let c: int = if setting.logs_exists {
        0
    } else {
        1
    };
    assert(setting.has_parent ==> plan[0] == InitAction::CreateConfigDir);
    assert(plan[a] == InitAction::OpenConfig);
    assert(plan[a + 1] == InitAction::ConfigForeignKeys);
    assert(!setting.db_exists ==> plan[a + 2] == InitAction::ConfigAutoVacuum);
    assert(plan[a + b + 2] == InitAction::OpenLogs);
    assert(plan[a + b + 3] == InitAction::LogsForeignKeys);
    assert(!setting.logs_exists ==> plan[a + b + 4] == InitAction::LogsAutoVacuum);
    assert(plan[a + b + c + 4] == InitAction::ReadUserVersion);
    assert(plan[a + b + c + 5] == InitAction::ProbeLegacyLogTables);
    if plan.contains(action) {
        let i = plan.index_of(action);
        assert(plan[i] == action);
    }
}

proof fn lemma_schema_has(version: i32, legacy: bool, action: InitAction)
    ensures
        schema_plan(version, legacy).contains(action) <==> match action {
            InitAction::BackUp => legacy,
            InitAction::CreateTables => legacy,
            InitAction::ApplySchemaMigrations => legacy || version < 19,
            InitAction::CreateConfigTables => !legacy,
            InitAction::CreateLogTables => !legacy && version < 19,
            InitAction::DropLegacyLogTables => !legacy && version < 19,
            InitAction::SetUserVersion => !legacy && version == 0,
            _ => false,
        },
{
    reveal(schema_plan);
    let plan = schema_plan(version, legacy);
    if legacy {
        assert(plan[0] == InitAction::BackUp);
        assert(plan[1] == InitAction::CreateTables);
        assert(plan[2] == InitAction::ApplySchemaMigrations);
    } else {
        assert(plan[0] == InitAction::CreateConfigTables);
        if version < 19 {
            assert(plan[1] == InitAction::CreateLogTables);
            assert(plan[2] == InitAction::ApplySchemaMigrations);
            assert(plan[3] == InitAction::DropLegacyLogTables);
        }
        if version == 0 {
            assert(plan[4] == InitAction::SetUserVersion);
        }
    }
    if plan.contains(action) {
        let i = plan.index_of(action);
        assert(plan[i] == action);
    }
}

proof fn lemma_closing_has(legacy: bool, action: InitAction)
    ensures
        closing_plan(legacy).contains(action) <==> match action {
            InitAction::ApplyLogSchemaMigrations => true,
            InitAction::MigrateLegacyLogTables => legacy,
            InitAction::RefreshProviderCatalogCache => true,
            InitAction::RegisterChangeHook => true,
            InitAction::EnsureIncrementalAutoVacuum => true,
            InitAction::SeedModelPricing => true,
            InitAction::SyncModelPricing => true,
            InitAction::CleanUpStreamCheckLogs => true,
            InitAction::RollUpAndPrune => true,
            InitAction::IncrementalVacuum => true,
            _ => false,
        },
{
    reveal(closing_plan);
    let plan = closing_plan(legacy);
    let a: int = if legacy {
        1
    } else {
        0
    };
    assert(plan[0] == InitAction::ApplyLogSchemaMigrations);
    assert(legacy ==> plan[1] == InitAction::MigrateLegacyLogTables);
    assert(plan[a + 1] == InitAction::RefreshProviderCatalogCache);
    assert(plan[a + 2] == InitAction::RegisterChangeHook);
    assert(plan[a + 3] == InitAction::EnsureIncrementalAutoVacuum);
    assert(plan[a + 4] == InitAction::SeedModelPricing);
    assert(plan[a + 5] == InitAction::SyncModelPricing);
    assert(plan[a + 6] == InitAction::CleanUpStreamCheckLogs);
    assert(plan[a + 7] == InitAction::RollUpAndPrune);
    assert(plan[a + 8] == InitAction::IncrementalVacuum);
    if plan.contains(action) {
        let i = plan.index_of(action);
        assert(plan[i] == action);
    }
}

/// Whatever a start consists of, its actions come in this order.
pub proof fn law_order_of_a_start(
    setting: Setting,
    version: i32,
    legacy: bool,
    i: int,
    j: int,
)
    requires
        0 <= i < j < init_plan(setting, version, legacy).len(),
    ensures
        ({
            let all = seq![
                InitAction::CreateConfigDir,
                InitAction::OpenConfig,
                InitAction::ConfigForeignKeys,
                InitAction::ConfigAutoVacuum,
                InitAction::OpenLogs,
                InitAction::LogsForeignKeys,
                InitAction::LogsAutoVacuum,
                InitAction::ReadUserVersion,
                InitAction::ProbeLegacyLogTables,
                InitAction::BackUp,
                InitAction::CreateTables,
                InitAction::CreateConfigTables,
                InitAction::CreateLogTables,
                InitAction::ApplySchemaMigrations,
                InitAction::DropLegacyLogTables,
                InitAction::SetUserVersion,
                InitAction::ApplyLogSchemaMigrations,
                InitAction::MigrateLegacyLogTables,
                InitAction::RefreshProviderCatalogCache,
                InitAction::RegisterChangeHook,
                InitAction::EnsureIncrementalAutoVacuum,
                InitAction::SeedModelPricing,
                InitAction::SyncModelPricing,
                InitAction::CleanUpStreamCheckLogs,
                InitAction::RollUpAndPrune,
                InitAction::IncrementalVacuum,
            ];
            exists|a: int, b: int|
                0 <= a < b < all.len() && #[trigger] all[a] == init_plan(
                    setting,
                    version,
                    legacy,
                )[i] && #[trigger] all[b] == init_plan(setting, version, legacy)[j]
        }),
{
    let all = seq![
        InitAction::CreateConfigDir,
        InitAction::OpenConfig,
        InitAction::ConfigForeignKeys,
        InitAction::ConfigAutoVacuum,
        InitAction::OpenLogs,
        InitAction::LogsForeignKeys,
        InitAction::LogsAutoVacuum,
        InitAction::ReadUserVersion,
        InitAction::ProbeLegacyLogTables,
        InitAction::BackUp,
        InitAction::CreateTables,
        InitAction::CreateConfigTables,
        InitAction::CreateLogTables,
        InitAction::ApplySchemaMigrations,
        InitAction::DropLegacyLogTables,
        InitAction::SetUserVersion,
        InitAction::ApplyLogSchemaMigrations,
        InitAction::MigrateLegacyLogTables,
        InitAction::RefreshProviderCatalogCache,
        InitAction::RegisterChangeHook,
        InitAction::EnsureIncrementalAutoVacuum,
        InitAction::SeedModelPricing,
        InitAction::SyncModelPricing,
        InitAction::CleanUpStreamCheckLogs,
        InitAction::RollUpAndPrune,
        InitAction::IncrementalVacuum,
    ];
    law_actions_come_in_order(setting, version, legacy, i, j);
    let plan = init_plan(setting, version, legacy);
    assert(all[order(plan[i])] == plan[i]);
    assert(all[order(plan[j])] == plan[j]);
}

/// What a run plans is what a start with its findings consists of; while nothing is found out yet,
/// it is the part that comes before, whatever will be found.
pub proof fn law_plan_of_a_run(run: InitView, version: i32, legacy: bool)
    ensures
        run.legacy matches Some(found) ==> run.plan() == init_plan(run.setting, run.version, found),
        run.legacy is None ==> {
            &&& run.plan().len() < init_plan(run.setting, version, legacy).len()
            &&& run.plan() == init_plan(run.setting, version, legacy).take(run.plan().len() as int)
            &&& run.plan().last() == InitAction::ProbeLegacyLogTables
        },
{
    if run.legacy is None {
        lemma_plan_landmarks(run.setting, version, legacy);
        let opening = opening_plan(run.setting);
        assert(opening[opening.len() - 1] == InitAction::ProbeLegacyLogTables);
        assert(run.plan() =~= init_plan(run.setting, version, legacy).take(
            run.plan().len() as int,
        ));
    }
}

/// Along every start, whatever the replies, no action comes after a later one.
pub proof fn law_past_is_in_order(setting: Setting, replies: Seq<ReplyView>, a: int, b: int)
    requires
        0 <= a <= b < init_past(setting, replies).len(),
    ensures
        order(init_past(setting, replies)[a].0) <= order(init_past(setting, replies)[b].0),
{
    lemma_past_in_order(setting, replies);
}

/// Every action that was due comes no later than the one that is.
spec fn is_sorted(past: Seq<(InitAction, ReplyView)>) -> bool {
    forall|a: int, b: int|
        #![trigger past[a], past[b]]
        0 <= a <= b < past.len() ==> order(past[a].0) <= order(past[b].0)
}

proof fn lemma_past_in_order(setting: Setting, replies: Seq<ReplyView>)
    ensures
        is_sorted(init_past(setting, replies)),
        init_state(setting, replies) matches Some(run) ==> forall|a: int|
            0 <= a < init_past(setting, replies).len() ==> order(
                (#[trigger] init_past(setting, replies)[a]).0,
            ) <= order(run.action()),
    decreases replies.len(),
{
    if replies.len() > 0 {
        let earlier = replies.drop_last();
        lemma_past_in_order(setting, earlier);
        lemma_init_inv(setting, earlier);
        let past = init_past(setting, earlier);
        let now = init_past(setting, replies);
        match init_state(setting, earlier) {
            Some(run) => {
                assert(now == past.push((run.action(), replies.last())));
                assert forall|a: int, b: int|
                    #![trigger now[a], now[b]]
                    0 <= a <= b < now.len() implies order(now[a].0) <= order(now[b].0) by {
                    if b < past.len() {
                        assert(now[a] == past[a] && now[b] == past[b]);
                    } else if a < past.len() {
                        assert(now[a] == past[a]);
                    }
                }
                lemma_next_comes_later(setting, run, past, replies.last());
                if let Some(after) = init_state(setting, replies) {
                    assert forall|a: int| 0 <= a < now.len() implies order((#[trigger] now[a]).0)
                        <= order(after.action()) by {
                        if a < past.len() {
                            assert(now[a] == past[a]);
                        }
                    }
                }
            },
            None => {
                assert(now == past);
            },
        }
    }
}

proof fn lemma_next_comes_later(
    setting: Setting,
    run: InitView,
    past: Seq<(InitAction, ReplyView)>,
    reply: ReplyView,
)
    requires
        init_inv(setting, run, past),
    ensures
        init_next(run, reply) matches StepView::Continue(after) ==> order(run.action()) <= order(
            after.action(),
        ),
{
    lemma_opening_in_order(setting);
    if let StepView::Continue(after) = init_next(run, reply) {
        match run.legacy {
            Some(legacy) => {
                lemma_plan_landmarks(setting, run.version, legacy);
                if run.position + 1 < run.plan().len() {
                    law_actions_come_in_order(
                        setting,
                        run.version,
                        legacy,
                        run.position,
                        run.position + 1,
                    );
                }
            },
            None => {
                lemma_plan_landmarks(setting, run.version, false);
                lemma_plan_landmarks(setting, run.version, true);
            },
        }
    }
}

/// An action that comes before anything is known of the tables.
pub open spec fn is_of_the_opening(action: InitAction) -> bool {
    ||| action == InitAction::CreateConfigDir
    ||| action == InitAction::OpenConfig
    ||| action == InitAction::ConfigForeignKeys
    ||| action == InitAction::ConfigAutoVacuum
    ||| action == InitAction::OpenLogs
    ||| action == InitAction::LogsForeignKeys
    ||| action == InitAction::LogsAutoVacuum
    ||| action == InitAction::ReadUserVersion
    ||| action == InitAction::ProbeLegacyLogTables
}

/// A start that ends well has switched the foreign keys on, in each database after it was opened,
/// and in both before it did anything to their tables.
pub proof fn law_foreign_keys_are_on_first(setting: Setting, replies: Seq<ReplyView>)
    requires
        init_outcome(setting, replies) == Some(Ok::<(), ErrorView>(())),
    ensures
        ({
            let past = init_past(setting, replies);
            exists|a: int, b: int, c: int, d: int|
                #![trigger past[a], past[b], past[c], past[d]]
                {
                    &&& 0 <= a < b < c < d < past.len()
                    &&& past[a] == (InitAction::OpenConfig, ReplyView::Done)
                    &&& past[b] == (InitAction::ConfigForeignKeys, ReplyView::Done)
                    &&& past[c] == (InitAction::OpenLogs, ReplyView::Done)
                    &&& past[d] == (InitAction::LogsForeignKeys, ReplyView::Done)
                    &&& forall|k: int|
                        0 <= k < past.len() && !is_of_the_opening((#[trigger] past[k]).0) ==> d < k
                }
        }),
{
    let past = init_past(setting, replies);
    lemma_past_in_order(setting, replies);
    let a = lemma_done_somewhere(setting, replies, InitAction::OpenConfig);
    let b = lemma_done_somewhere(setting, replies, InitAction::ConfigForeignKeys);
    let c = lemma_done_somewhere(setting, replies, InitAction::OpenLogs);
    let d = lemma_done_somewhere(setting, replies, InitAction::LogsForeignKeys);
    assert forall|k: int|
        0 <= k < past.len() && !is_of_the_opening((#[trigger] past[k]).0) implies d < k by {
        assert(order(past[k].0) > 8);
        if k <= d {
            assert(order(past[k].0) <= order(past[d].0));
        }
    }
    assert(past[a] == (InitAction::OpenConfig, ReplyView::Done) && past[b] == (
        InitAction::ConfigForeignKeys,
        ReplyView::Done,
    ) && past[c] == (InitAction::OpenLogs, ReplyView::Done) && past[d] == (
        InitAction::LogsForeignKeys,
        ReplyView::Done,
    ));
    if b <= a {
        assert(order(past[b].0) <= order(past[a].0));
    }
    if c <= b {
        assert(order(past[c].0) <= order(past[b].0));
    }
    if d <= c {
        assert(order(past[d].0) <= order(past[c].0));
    }
}

/// Where an action of every start was done.
proof fn lemma_done_somewhere(
    setting: Setting,
    replies: Seq<ReplyView>,
    action: InitAction,
) -> (place: int)
    requires
        init_outcome(setting, replies) == Some(Ok::<(), ErrorView>(())),
        action == InitAction::OpenConfig || action == InitAction::ConfigForeignKeys || action
            == InitAction::OpenLogs || action == InitAction::LogsForeignKeys,
    ensures
        0 <= place < init_past(setting, replies).len(),
        init_past(setting, replies)[place] == (action, ReplyView::Done),
{
    law_start_does_what_it_must(setting, replies, action);
    init_past(setting, replies).index_of((action, ReplyView::Done))
}

/// What comes at every start was done at one that ends well, unless it is housekeeping.
pub proof fn law_start_does_what_it_must(
    setting: Setting,
    replies: Seq<ReplyView>,
    action: InitAction,
)
    requires
        init_outcome(setting, replies) == Some(Ok::<(), ErrorView>(())),
        setting.has_parent || action != InitAction::CreateConfigDir,
        action == InitAction::CreateConfigDir || action == InitAction::OpenConfig || action
            == InitAction::ConfigForeignKeys || action == InitAction::OpenLogs || action
            == InitAction::LogsForeignKeys || action == InitAction::ApplyLogSchemaMigrations
            || action == InitAction::RefreshProviderCatalogCache || action
            == InitAction::RegisterChangeHook || action == InitAction::SeedModelPricing,
    ensures
        init_past(setting, replies).contains((action, ReplyView::Done)),
{
    let past = init_past(setting, replies);
    law_nothing_is_skipped(setting, replies);
    let (version, legacy) = choose|version: i32, legacy: bool|
        {
            &&& !is_too_new(version)
            &&& #[trigger] past.contains((InitAction::ReadUserVersion, ReplyView::Pragma(version)))
            &&& #[trigger] past.contains(
                (InitAction::ProbeLegacyLogTables, ReplyView::Flag(legacy)),
            )
            &&& forall|k: int|
                0 <= k < init_plan(setting, version, legacy).len() ==> #[trigger] was_done(
                    past,
                    init_plan(setting, version, legacy)[k],
                )
        };
    law_what_a_start_does(setting, version, legacy, action);
    let plan = init_plan(setting, version, legacy);
    let k = plan.index_of(action);
    assert(was_done(past, plan[k]));
    let reply = choose|reply: ReplyView|
        is_done_by(action, reply) && #[trigger] past.contains((action, reply));
    assert(reply == ReplyView::Done);
}

} // verus!
