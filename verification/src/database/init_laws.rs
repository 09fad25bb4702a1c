//! What holds of every way in which the databases can be brought up.

use vstd::prelude::*;

use crate::database::init::{
    closing_plan, init_next, init_plan, is_tolerated, is_too_new, opening_plan, schema_plan,
    InitAction, InitView, Setting, SCHEMA_VERSION,
};
use crate::database::run::{
    exchanges, lemma_invariant, lemma_push_contains, outcome_after, state_after, ReplyView,
    StepView,
};
use crate::error::ErrorView;

verus! {

/// The steps of bringing up the databases.
pub open spec fn init_steps() -> spec_fn(InitView, ReplyView) -> StepView<InitView, ()> {
    |run: InitView, reply: ReplyView| init_next(run, reply)
}

/// The action that is due.
pub open spec fn init_due() -> spec_fn(InitView) -> InitAction {
    |run: InitView| run.action()
}

/// What was done so far, with the replies.
pub open spec fn init_past(setting: Setting, replies: Seq<ReplyView>) -> Seq<
    (InitAction, ReplyView),
> {
    exchanges(init_steps(), init_due(), InitView::begun(setting), replies)
}

/// Where bringing up the databases stands after these replies, if it still goes on.
pub open spec fn init_state(setting: Setting, replies: Seq<ReplyView>) -> Option<InitView> {
    state_after(init_steps(), InitView::begun(setting), replies)
}

/// What bringing up the databases comes to with the last of these replies, if it ends there.
pub open spec fn init_outcome(setting: Setting, replies: Seq<ReplyView>) -> Option<
    Result<(), ErrorView>,
> {
    outcome_after(init_steps(), InitView::begun(setting), replies)
}

/// With this reply an action counts as done.
pub open spec fn is_done_by(action: InitAction, reply: ReplyView) -> bool {
    ||| is_tolerated(action, reply)
    ||| match action {
        InitAction::ReadUserVersion => reply is Pragma,
        InitAction::ProbeLegacyLogTables => reply is Flag,
        InitAction::BackUp => reply == ReplyView::Flag(true),
        _ => reply == ReplyView::Done,
    }
}

/// An action was done.
pub open spec fn was_done(past: Seq<(InitAction, ReplyView)>, action: InitAction) -> bool {
    exists|reply: ReplyView| is_done_by(action, reply) && #[trigger] past.contains((action, reply))
}

/// The place of an action in the order in which actions come.
pub open spec fn order(action: InitAction) -> int {
    match action {
        InitAction::CreateConfigDir => 0,
        InitAction::OpenConfig => 1,
        InitAction::ConfigForeignKeys => 2,
        InitAction::ConfigAutoVacuum => 3,
        InitAction::OpenLogs => 4,
        InitAction::LogsForeignKeys => 5,
        InitAction::LogsAutoVacuum => 6,
        InitAction::ReadUserVersion => 7,
        InitAction::ProbeLegacyLogTables => 8,
        InitAction::BackUp => 9,
        InitAction::CreateTables => 10,
        InitAction::CreateConfigTables => 11,
        InitAction::CreateLogTables => 12,
        InitAction::ApplySchemaMigrations => 13,
        InitAction::DropLegacyLogTables => 14,
        InitAction::SetUserVersion => 15,
        InitAction::ApplyLogSchemaMigrations => 16,
        InitAction::MigrateLegacyLogTables => 17,
        InitAction::RefreshProviderCatalogCache => 18,
        InitAction::RegisterChangeHook => 19,
        InitAction::EnsureIncrementalAutoVacuum => 20,
        InitAction::SeedModelPricing => 21,
        InitAction::SyncModelPricing => 22,
        InitAction::CleanUpStreamCheckLogs => 23,
        InitAction::RollUpAndPrune => 24,
        InitAction::IncrementalVacuum => 25,
    }
}

/// An action after which the databases are not what they were, beyond their settings.
pub open spec fn changes_tables(action: InitAction) -> bool {
    order(action) > order(InitAction::BackUp)
}

/// Whatever the databases hold, the actions come in one order, and none comes twice.
pub proof fn law_actions_come_in_order(
    setting: Setting,
    version: i32,
    legacy: bool,
    i: int,
    j: int,
)
    requires
        0 <= i < j < init_plan(setting, version, legacy).len(),
    ensures
        order(init_plan(setting, version, legacy)[i]) < order(
            init_plan(setting, version, legacy)[j],
        ),
{
    lemma_opening_in_order(setting);
    lemma_schema_in_order(version, legacy);
    lemma_closing_in_order(legacy);
    lemma_plan_parts(setting, version, legacy, i);
    lemma_plan_parts(setting, version, legacy, j);
}

/// The part of the plan that a place lies in.
pub proof fn lemma_plan_parts(setting: Setting, version: i32, legacy: bool, i: int)
    requires
        0 <= i < init_plan(setting, version, legacy).len(),
    ensures
        ({
            let opening = opening_plan(setting);
            let schema = schema_plan(version, legacy);
            let closing = closing_plan(legacy);
            init_plan(setting, version, legacy)[i] == if i < opening.len() {
                opening[i]
            } else if i < opening.len() + schema.len() {
                schema[i - opening.len()]
            } else {
                closing[i - opening.len() - schema.len()]
            }
        }),
{
}

pub proof fn lemma_opening_in_order(setting: Setting)
    ensures
        forall|i: int, j: int|
            #![trigger opening_plan(setting)[i], opening_plan(setting)[j]]
            0 <= i < j < opening_plan(setting).len() ==> order(opening_plan(setting)[i]) < order(
                opening_plan(setting)[j],
            ),
        forall|i: int|
            0 <= i < opening_plan(setting).len() ==> order(#[trigger] opening_plan(setting)[i])
                <= 8,
{
    reveal(opening_plan);
}

proof fn lemma_schema_in_order(version: i32, legacy: bool)
    ensures
        forall|i: int, j: int|
            #![trigger schema_plan(version, legacy)[i], schema_plan(version, legacy)[j]]
            0 <= i < j < schema_plan(version, legacy).len() ==> order(
                schema_plan(version, legacy)[i],
            ) < order(schema_plan(version, legacy)[j]),
        forall|i: int|
            0 <= i < schema_plan(version, legacy).len() ==> 9 <= order(
                #[trigger] schema_plan(version, legacy)[i],
            ) <= 15,
{
    reveal(schema_plan);
}

pub proof fn lemma_closing_in_order(legacy: bool)
    ensures
        forall|i: int, j: int|
            #![trigger closing_plan(legacy)[i], closing_plan(legacy)[j]]
            0 <= i < j < closing_plan(legacy).len() ==> order(closing_plan(legacy)[i]) < order(
                closing_plan(legacy)[j],
            ),
        forall|i: int|
            0 <= i < closing_plan(legacy).len() ==> 16 <= order(
                #[trigger] closing_plan(legacy)[i],
            ),
        closing_plan(legacy).len() > 0,
{
    reveal(closing_plan);
}

/// Which of the actions that depend on what the databases hold are planned: a backup and a move of
/// the logs for an unsplit database, and for no other; a schema version is noted only in a
/// database that has none.
pub proof fn law_planned_actions(setting: Setting, version: i32, legacy: bool)
    ensures
        init_plan(setting, version, legacy).contains(InitAction::BackUp) <==> legacy,
        init_plan(setting, version, legacy).contains(InitAction::MigrateLegacyLogTables) <==> legacy,
        init_plan(setting, version, legacy).contains(InitAction::SetUserVersion) <==> !legacy
            && version == 0,
        init_plan(setting, version, legacy).contains(InitAction::DropLegacyLogTables) <==> !legacy
            && version < SCHEMA_VERSION,
        init_plan(setting, version, legacy).contains(InitAction::ApplySchemaMigrations) <==> legacy
            || version < SCHEMA_VERSION,
        init_plan(setting, version, legacy).contains(InitAction::CreateLogTables) <==> !legacy
            && version < SCHEMA_VERSION,
        init_plan(setting, version, legacy).contains(InitAction::ConfigAutoVacuum)
            <==> !setting.db_exists,
        init_plan(setting, version, legacy).contains(InitAction::LogsAutoVacuum)
            <==> !setting.logs_exists,
{
    let opening = opening_plan(setting);
    let schema = schema_plan(version, legacy);
    let closing = closing_plan(legacy);
    let plan = init_plan(setting, version, legacy);
    assert forall|action: InitAction| #[trigger]
        plan.contains(action) <==> opening.contains(action) || schema.contains(action)
            || closing.contains(action) by {
        if plan.contains(action) {
            let i = plan.index_of(action);
            lemma_plan_parts(setting, version, legacy, i);
        }
        if opening.contains(action) {
            let i = opening.index_of(action);
            assert(plan[i] == action);
        }
        if schema.contains(action) {
            let i = schema.index_of(action);
            assert(plan[opening.len() + i] == action);
        }
        if closing.contains(action) {
            let i = closing.index_of(action);
            assert(plan[opening.len() + schema.len() + i] == action);
        }
    }
    lemma_opening_in_order(setting);
    lemma_schema_in_order(version, legacy);
    lemma_closing_in_order(legacy);
    lemma_opening_choices(setting);
    lemma_schema_choices(version, legacy);
    lemma_closing_choices(legacy);
}

proof fn lemma_opening_choices(setting: Setting)
    ensures
        opening_plan(setting).contains(InitAction::ConfigAutoVacuum) <==> !setting.db_exists,
        opening_plan(setting).contains(InitAction::LogsAutoVacuum) <==> !setting.logs_exists,
{
    reveal(opening_plan);
    let plan = opening_plan(setting);
    let first: int = if setting.has_parent {
        1
    } else {
        0
    };
    let second: int = if setting.db_exists {
        0
    } else {
        1
    };
    if !setting.db_exists {
        assert(plan[first + 2] == InitAction::ConfigAutoVacuum);
    }
    if !setting.logs_exists {
        assert(plan[first + second + 4] == InitAction::LogsAutoVacuum);
    }
}

proof fn lemma_schema_choices(version: i32, legacy: bool)
    ensures
        schema_plan(version, legacy).contains(InitAction::BackUp) <==> legacy,
        schema_plan(version, legacy).contains(InitAction::SetUserVersion) <==> !legacy && version
            == 0,
        schema_plan(version, legacy).contains(InitAction::DropLegacyLogTables) <==> !legacy
            && version < SCHEMA_VERSION,
        schema_plan(version, legacy).contains(InitAction::ApplySchemaMigrations) <==> legacy
            || version < SCHEMA_VERSION,
        schema_plan(version, legacy).contains(InitAction::CreateLogTables) <==> !legacy && version
            < SCHEMA_VERSION,
{
    reveal(schema_plan);
    let plan = schema_plan(version, legacy);
    if legacy {
        assert(plan[0] == InitAction::BackUp);
        assert(plan[2] == InitAction::ApplySchemaMigrations);
    } else if version < SCHEMA_VERSION {
        assert(plan[1] == InitAction::CreateLogTables);
        assert(plan[2] == InitAction::ApplySchemaMigrations);
        assert(plan[3] == InitAction::DropLegacyLogTables);
        if version == 0 {
            assert(plan[4] == InitAction::SetUserVersion);
        }
    }
}

proof fn lemma_closing_choices(legacy: bool)
    ensures
        closing_plan(legacy).contains(InitAction::MigrateLegacyLogTables) <==> legacy,
{
    reveal(closing_plan);
    if legacy {
        assert(closing_plan(legacy)[1] == InitAction::MigrateLegacyLogTables);
    }
}

/// What was done when bringing up the databases stands where it does.
pub open spec fn init_inv(setting: Setting, run: InitView, past: Seq<(InitAction, ReplyView)>) -> bool {
    &&& run.setting == setting
    &&& run.wf()
    &&& forall|k: int| 0 <= k < run.position ==> #[trigger] was_done(past, run.plan()[k])
    &&& run.position >= opening_plan(setting).len() - 1 ==> past.contains(
        (InitAction::ReadUserVersion, ReplyView::Pragma(run.version)),
    )
    &&& run.legacy matches Some(legacy) ==> past.contains(
        (InitAction::ProbeLegacyLogTables, ReplyView::Flag(legacy)),
    )
    &&& run.legacy == Some(true) && run.position > opening_plan(setting).len() ==> past.contains(
        (InitAction::BackUp, ReplyView::Flag(true)),
    )
}

proof fn lemma_was_done_stays(
    past: Seq<(InitAction, ReplyView)>,
    exchange: (InitAction, ReplyView),
)
    ensures
        forall|action: InitAction|
            was_done(past, action) ==> #[trigger] was_done(past.push(exchange), action),
        is_done_by(exchange.0, exchange.1) ==> was_done(past.push(exchange), exchange.0),
{
    lemma_push_contains(past, exchange);
    assert forall|action: InitAction| was_done(past, action) implies #[trigger] was_done(
        past.push(exchange),
        action,
    ) by {
        let reply = choose|reply: ReplyView|
            is_done_by(action, reply) && #[trigger] past.contains((action, reply));
        assert(past.push(exchange).contains((action, reply)));
    }
}

/// Where the opening finds out what the databases hold, and what the plan has at and past it.
pub proof fn lemma_plan_landmarks(setting: Setting, version: i32, legacy: bool)
    ensures
        opening_plan(setting).len() >= 2,
        forall|k: int|
            0 <= k < opening_plan(setting).len() ==> (#[trigger] opening_plan(setting)[k]
                == InitAction::ReadUserVersion <==> k == opening_plan(setting).len() - 2),
        forall|k: int|
            0 <= k < opening_plan(setting).len() ==> (#[trigger] opening_plan(setting)[k]
                == InitAction::ProbeLegacyLogTables <==> k == opening_plan(setting).len() - 1),
        forall|k: int|
            0 <= k < opening_plan(setting).len() ==> #[trigger] init_plan(
                setting,
                version,
                legacy,
            )[k] == opening_plan(setting)[k],
        forall|k: int|
            opening_plan(setting).len() <= k < init_plan(setting, version, legacy).len()
                ==> order(#[trigger] init_plan(setting, version, legacy)[k]) >= 9,
        init_plan(setting, version, legacy).len() > opening_plan(setting).len(),
        legacy ==> init_plan(setting, version, legacy)[opening_plan(setting).len() as int]
            == InitAction::BackUp,
{
    lemma_opening_in_order(setting);
    lemma_schema_in_order(version, legacy);
    lemma_closing_in_order(legacy);
    let plan = init_plan(setting, version, legacy);
    let opening = opening_plan(setting);
    assert forall|k: int| opening.len() <= k < plan.len() implies order(#[trigger] plan[k])
        >= 9 by {
        lemma_plan_parts(setting, version, legacy, k);
    }
    if legacy {
        assert(schema_plan(version, legacy).len() > 0 && schema_plan(version, legacy)[0]
            == InitAction::BackUp) by {
            reveal(schema_plan);
        }
        assert(plan[opening.len() as int] == InitAction::BackUp);
    }
    assert(opening.len() >= 2 && opening[opening.len() - 2] == InitAction::ReadUserVersion
        && opening[opening.len() - 1] == InitAction::ProbeLegacyLogTables) by {
        reveal(opening_plan);
    }
}

pub proof fn lemma_init_inv_kept(
    setting: Setting,
    run: InitView,
    past: Seq<(InitAction, ReplyView)>,
    reply: ReplyView,
)
    requires
        init_inv(setting, run, past),
    ensures
        match init_next(run, reply) {
            StepView::Continue(after) => init_inv(
                setting,
                after,
                past.push((run.action(), reply)),
            ),
            StepView::Finished(Ok(_)) => run.position + 1 == run.plan().len() && is_done_by(
                run.action(),
                reply,
            ) && run.legacy is Some,
            StepView::Finished(Err(_)) => true,
        },
{
    let action = run.action();
    let exchange = (action, reply);
    let now = past.push(exchange);
    lemma_push_contains(past, exchange);
    lemma_was_done_stays(past, exchange);
    match run.legacy {
        Some(legacy) => {
            lemma_plan_landmarks(setting, run.version, legacy);
            assert(order(action) >= 9);
        },
        None => {
            lemma_plan_landmarks(setting, run.version, false);
            lemma_plan_landmarks(setting, run.version, true);
            assert(action == opening_plan(setting)[run.position]);
        },
    }
    match init_next(run, reply) {
        StepView::Continue(after) => {
            assert(after.wf());
            assert forall|k: int| 0 <= k < after.position implies #[trigger] was_done(
                now,
                after.plan()[k],
            ) by {
                assert(after.plan()[k] == run.plan()[k]);
                if k < run.position {
                    assert(was_done(past, run.plan()[k]));
                }
            }
        },
        StepView::Finished(_) => {},
    }
}

pub proof fn lemma_init_inv(setting: Setting, replies: Seq<ReplyView>)
    ensures
        match init_state(setting, replies) {
            Some(run) => init_inv(setting, run, init_past(setting, replies)),
            None => true,
        },
{
    let next = init_steps();
    let due = init_due();
    let inv = |run: InitView, past: Seq<(InitAction, ReplyView)>| init_inv(setting, run, past);
    lemma_plan_landmarks(setting, 0, false);
    assert(inv(InitView::begun(setting), Seq::empty()));
    assert forall|run: InitView, past: Seq<(InitAction, ReplyView)>, reply: ReplyView|
        #![trigger inv(run, past), next(run, reply)]
        inv(run, past) implies match next(run, reply) {
        StepView::Continue(after) => inv(after, past.push((due(run), reply))),
        StepView::Finished(_) => true,
    } by {
        lemma_init_inv_kept(setting, run, past, reply);
    }
    lemma_invariant(next, due, InitView::begun(setting), inv, replies);
}

/// A database that a later application has written is left alone: once an action is due that
/// changes tables, or a backup is, the version was read and is a supported one.
pub proof fn law_newer_database_is_left_alone(setting: Setting, replies: Seq<ReplyView>)
    requires
        init_state(setting, replies) matches Some(run) && (changes_tables(run.action())
            || run.action() == InitAction::BackUp),
    ensures
        init_state(setting, replies) matches Some(run) && !is_too_new(run.version) && init_past(
            setting,
            replies,
        ).contains((InitAction::ReadUserVersion, ReplyView::Pragma(run.version))),
{
    lemma_init_inv(setting, replies);
    let run = init_state(setting, replies)->0;
    if run.legacy is None {
        lemma_opening_in_order(setting);
    }
}

/// An unsplit database is changed only once it is backed up.
pub proof fn law_backup_comes_first(setting: Setting, replies: Seq<ReplyView>)
    requires
        init_state(setting, replies) matches Some(run) && run.legacy == Some(true)
            && changes_tables(run.action()),
    ensures
        init_past(setting, replies).contains((InitAction::BackUp, ReplyView::Flag(true))),
{
    lemma_init_inv(setting, replies);
    let run = init_state(setting, replies)->0;
    lemma_plan_landmarks(setting, run.version, true);
}

/// Where bringing up the databases ends well, everything was done that what they held asked for.
pub proof fn law_nothing_is_skipped(setting: Setting, replies: Seq<ReplyView>)
    requires
        init_outcome(setting, replies) == Some(Ok::<(), ErrorView>(())),
    ensures
        exists|version: i32, legacy: bool|
            {
                &&& !is_too_new(version)
                &&& #[trigger] init_past(setting, replies).contains(
                    (InitAction::ReadUserVersion, ReplyView::Pragma(version)),
                )
                &&& #[trigger] init_past(setting, replies).contains(
                    (InitAction::ProbeLegacyLogTables, ReplyView::Flag(legacy)),
                )
                &&& forall|k: int|
                    0 <= k < init_plan(setting, version, legacy).len() ==> #[trigger] was_done(
                        init_past(setting, replies),
                        init_plan(setting, version, legacy)[k],
                    )
            },
{
    let earlier = replies.drop_last();
    lemma_init_inv(setting, earlier);
    let run = init_state(setting, earlier)->0;
    let past = init_past(setting, earlier);
    let exchange = (run.action(), replies.last());
    lemma_init_inv_kept(setting, run, past, replies.last());
    lemma_push_contains(past, exchange);
    lemma_was_done_stays(past, exchange);
    let now = past.push(exchange);
    assert(init_past(setting, replies) == now);
    let version = run.version;
    let legacy = run.legacy->0;
    lemma_plan_landmarks(setting, version, legacy);
    assert(now.contains((InitAction::ReadUserVersion, ReplyView::Pragma(version))));
    assert(now.contains((InitAction::ProbeLegacyLogTables, ReplyView::Flag(legacy))));
    assert forall|k: int| 0 <= k < init_plan(setting, version, legacy).len() implies #[trigger] was_done(
        now,
        init_plan(setting, version, legacy)[k],
    ) by {
        if k < run.position {
            assert(was_done(past, run.plan()[k]));
        }
    }
}

/// A reply with which an action counts as done brings the databases one action further, and
/// after the last action they are up. So where nothing goes wrong, they come up. The one
/// exception is a database that a later application has written.
pub proof fn law_databases_come_up(run: InitView, reply: ReplyView)
    requires
        run.wf(),
        is_done_by(run.action(), reply),
        !(run.action() == InitAction::ProbeLegacyLogTables && is_too_new(run.version)),
    ensures
        match init_next(run, reply) {
            StepView::Continue(after) => after.wf() && after.position == run.position + 1,
            StepView::Finished(result) => result == Ok::<(), ErrorView>(()) && run.position + 1
                == run.plan().len(),
        },
{
    match run.legacy {
        Some(legacy) => {
            lemma_plan_landmarks(run.setting, run.version, legacy);
            assert(order(run.action()) >= 9);
        },
        None => {
            lemma_plan_landmarks(run.setting, run.version, false);
            lemma_plan_landmarks(run.setting, run.version, true);
        },
    }
}

/// The housekeeping that the databases can do without.
pub open spec fn is_housekeeping(action: InitAction) -> bool {
    ||| action == InitAction::EnsureIncrementalAutoVacuum
    ||| action == InitAction::SyncModelPricing
    ||| action == InitAction::CleanUpStreamCheckLogs
    ||| action == InitAction::RollUpAndPrune
    ||| action == InitAction::IncrementalVacuum
}

/// The housekeeping at the end never keeps the databases from coming up: whatever comes of it,
/// the run does not end with an error, and a failure counts as done. The one exception is a lock
/// on the log database that cannot be had for the last vacuum.
pub proof fn law_housekeeping_is_not_needed(run: InitView, reply: ReplyView)
    requires
        is_housekeeping(run.action()),
        !(run.action() == InitAction::IncrementalVacuum && reply is Refused),
    ensures
        !(init_next(run, reply) matches StepView::Finished(Err(_))),
        reply is Done || reply is Failed || reply is Refused ==> init_next(run, reply)
            == run.onward(),
{
}

} // verus!
