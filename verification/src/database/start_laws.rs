//! What a start leaves in the configuration database, and what the next one finds.

use vstd::prelude::*;

use crate::database::drop_laws::{
    law_reported_dropping, law_reported_move, reports_dropping, reports_move,
};
use crate::database::init::{
    closing_plan, init_next, init_plan, init_version, is_too_new, opening_plan, schema_plan,
    InitAction, InitView, Setting, SCHEMA_VERSION,
};
use crate::database::init_laws::{
    init_inv, init_outcome, init_past, init_state, law_actions_come_in_order, law_planned_actions,
    lemma_closing_in_order, lemma_init_inv, lemma_init_inv_kept, lemma_opening_in_order,
    lemma_plan_landmarks, lemma_plan_parts, order,
};
use crate::database::legacy::{law_reported_search, reports_search};
use crate::database::run::{ReplyView, StepView};
use crate::database::tables::{is_unsplit, probed_tables, table_name};
use crate::error::ErrorView;

verus! {

/// The configuration database, as far as a start depends on it.
pub struct ConfigState {
    /// The names of its tables.
    pub tables: Set<Seq<char>>,
    /// The schema version that it notes.
    pub version: i32,
}

/// No table by which an unsplit database is recognised is new.
pub open spec fn adds_no_log_table(before: Set<Seq<char>>, after: Set<Seq<char>>) -> bool {
    forall|i: int|
        0 <= i < probed_tables().len() && after.contains(table_name(#[trigger] probed_tables()[i]))
            ==> before.contains(table_name(probed_tables()[i]))
}

/// What an action, with its reply, may make of the configuration database. The version that is
/// read is the one that is there, and the search for log tables is told which tables are there.
/// Dropping the log tables and moving them do what the runs for that do, statement by statement.
/// Creating tables and migrating the schema may bring any table, and nothing else adds a log
/// table. A version is changed where it is noted, and by the schema migrations, which do not go
/// past the supported one.
pub open spec fn may_leave(
    action: InitAction,
    reply: ReplyView,
    before: ConfigState,
    after: ConfigState,
) -> bool {
    match action {
        InitAction::ReadUserVersion => after == before && (reply matches ReplyView::Pragma(version)
            ==> version == before.version),
        InitAction::ProbeLegacyLogTables => after == before && (reply matches ReplyView::Flag(
            found,
        ) ==> reports_search(before.tables, found)),
        InitAction::CreateTables => after.version == before.version,
        InitAction::CreateLogTables => after.version == before.version,
        InitAction::ApplySchemaMigrations => before.version <= SCHEMA_VERSION ==> after.version
            <= SCHEMA_VERSION,
        InitAction::DropLegacyLogTables => after.version == before.version && (reply is Done
            ==> reports_dropping(before.tables, after.tables)),
        InitAction::MigrateLegacyLogTables => after.version == before.version && (reply is Done
            ==> reports_move(before.tables, after.tables)),
        InitAction::SetUserVersion => {
            &&& adds_no_log_table(before.tables, after.tables)
            &&& after.version == before.version || Some(after.version) == init_version(action)
            &&& reply is Done ==> Some(after.version) == init_version(action)
        },
        _ => adds_no_log_table(before.tables, after.tables) && after.version == before.version,
    }
}

/// The states of the configuration database along a start: before it, and after each exchange.
pub open spec fn is_history(
    past: Seq<(InitAction, ReplyView)>,
    states: Seq<ConfigState>,
) -> bool {
    &&& states.len() == past.len() + 1
    &&& forall|k: int|
        0 <= k < past.len() ==> may_leave(
            (#[trigger] past[k]).0,
            past[k].1,
            states[k],
            states[k + 1],
        )
}

/// What is known of the configuration database where a start stands.
spec fn start_inv(first: ConfigState, run: InitView, state: ConfigState) -> bool {
    let place = order(run.action());
    match run.legacy {
        None => {
            &&& state.version == first.version
            &&& !is_unsplit(first.tables) ==> !is_unsplit(state.tables)
            &&& run.position == opening_plan(run.setting).len() - 1 ==> run.version
                == first.version
        },
        Some(legacy) => {
            &&& run.version == first.version
            &&& state.version <= SCHEMA_VERSION
            &&& legacy ==> is_unsplit(first.tables)
            &&& legacy && place > order(InitAction::MigrateLegacyLogTables) ==> !is_unsplit(
                state.tables,
            )
            &&& !legacy && (place == order(InitAction::CreateConfigTables) || place > order(
                InitAction::DropLegacyLogTables,
            )) ==> !is_unsplit(state.tables)
            &&& !legacy && run.version == 0 && place > order(InitAction::SetUserVersion)
                ==> state.version == SCHEMA_VERSION
        },
    }
}

/// What comes next in the plan past the opening.
proof fn lemma_plan_successor(setting: Setting, version: i32, legacy: bool, k: int)
    requires
        opening_plan(setting).len() <= k < init_plan(setting, version, legacy).len(),
    ensures
        ({
            let plan = init_plan(setting, version, legacy);
            let place = order(plan[k]);
            &&& !legacy ==> place >= 11 && place != 17
            &&& k + 1 == plan.len() ==> plan[k] == InitAction::IncrementalVacuum
            &&& k + 1 < plan.len() ==> {
                &&& place < order(plan[k + 1])
                &&& legacy && place < 17 ==> order(plan[k + 1]) <= 17
                &&& !legacy && 12 <= place <= 13 ==> order(plan[k + 1]) <= 14
                &&& !legacy && version == 0 && place < 15 ==> order(plan[k + 1]) <= 15
            }
        }),
{
    let plan = init_plan(setting, version, legacy);
    let opening = opening_plan(setting);
    let schema = schema_plan(version, legacy);
    let closing = closing_plan(legacy);
    law_planned_actions(setting, version, legacy);
    lemma_plan_parts(setting, version, legacy, k);
    lemma_closing_in_order(legacy);
    assert(plan.contains(plan[k]));
    assert(!legacy ==> forall|i: int| 0 <= i < schema.len() ==> order(#[trigger] schema[i]) >= 11)
        by {
        reveal(schema_plan);
    }
    assert(closing.last() == InitAction::IncrementalVacuum) by {
        reveal(closing_plan);
    }
    if k + 1 < plan.len() {
        law_actions_come_in_order(setting, version, legacy, k, k + 1);
        if legacy && order(plan[k]) < 17 {
            lemma_next_is_no_later(
                setting,
                version,
                legacy,
                k,
                InitAction::MigrateLegacyLogTables,
            );
        }
        if !legacy && 12 <= order(plan[k]) <= 13 {
            lemma_next_is_no_later(setting, version, legacy, k, InitAction::DropLegacyLogTables);
        }
        if !legacy && version == 0 && order(plan[k]) < 15 {
            lemma_next_is_no_later(setting, version, legacy, k, InitAction::SetUserVersion);
        }
    }
}

/// A planned action that is still to come does not come before the next one.
proof fn lemma_next_is_no_later(
    setting: Setting,
    version: i32,
    legacy: bool,
    k: int,
    action: InitAction,
)
    requires
        0 <= k,
        k + 1 < init_plan(setting, version, legacy).len(),
        init_plan(setting, version, legacy).contains(action),
        order(init_plan(setting, version, legacy)[k]) < order(action),
    ensures
        order(init_plan(setting, version, legacy)[k + 1]) <= order(action),
{
    let plan = init_plan(setting, version, legacy);
    let m = plan.index_of(action);
    if m < k {
        law_actions_come_in_order(setting, version, legacy, m, k);
    } else if m > k + 1 {
        law_actions_come_in_order(setting, version, legacy, k + 1, m);
    }
}

proof fn lemma_no_log_table_is_new(before: Set<Seq<char>>, after: Set<Seq<char>>)
    requires
        adds_no_log_table(before, after),
    ensures
        is_unsplit(after) ==> is_unsplit(before),
{
    if is_unsplit(after) {
        let i = choose|i: int|
            0 <= i < probed_tables().len() && after.contains(
                table_name(#[trigger] probed_tables()[i]),
            );
        assert(before.contains(table_name(probed_tables()[i])));
    }
}

proof fn lemma_start_inv_kept(
    setting: Setting,
    past: Seq<(InitAction, ReplyView)>,
    first: ConfigState,
    run: InitView,
    before: ConfigState,
    reply: ReplyView,
    after: ConfigState,
)
    requires
        init_inv(setting, run, past),
        start_inv(first, run, before),
        may_leave(run.action(), reply, before, after),
    ensures
        match init_next(run, reply) {
            StepView::Continue(then) => start_inv(first, then, after),
            StepView::Finished(_) => true,
        },
{
    if adds_no_log_table(before.tables, after.tables) {
        lemma_no_log_table_is_new(before.tables, after.tables);
    }
    law_reported_dropping(before.tables, after.tables);
    law_reported_move(before.tables, after.tables);
    law_reported_search(before.tables, true);
    law_reported_search(before.tables, false);
    match run.legacy {
        Some(legacy) => {
            lemma_plan_landmarks(setting, run.version, legacy);
            lemma_plan_successor(setting, run.version, legacy, run.position);
        },
        None => {
            lemma_plan_landmarks(setting, run.version, false);
            lemma_plan_landmarks(setting, run.version, true);
            lemma_opening_in_order(setting);
            lemma_plan_successor(
                setting,
                run.version,
                false,
                opening_plan(setting).len() as int,
            );
            assert(init_plan(setting, run.version, false)[opening_plan(setting).len() as int]
                == InitAction::CreateConfigTables) by {
                reveal(schema_plan);
            }
        },
    }
}

proof fn lemma_start_inv(setting: Setting, replies: Seq<ReplyView>, states: Seq<ConfigState>)
    requires
        is_history(init_past(setting, replies), states),
        init_state(setting, replies) is Some,
    ensures
        start_inv(states[0], init_state(setting, replies)->0, states.last()),
    decreases replies.len(),
{
    if replies.len() == 0 {
        lemma_plan_landmarks(setting, 0, false);
        assert(opening_plan(setting).len() > 2) by {
            reveal(opening_plan);
        }
    } else {
        let earlier = replies.drop_last();
        let run = init_state(setting, earlier)->0;
        lemma_history_before(setting, replies, states);
        lemma_start_inv(setting, earlier, states.drop_last());
        lemma_init_inv(setting, earlier);
        lemma_start_inv_kept(
            setting,
            init_past(setting, earlier),
            states[0],
            run,
            states[states.len() - 2],
            replies.last(),
            states.last(),
        );
    }
}

proof fn lemma_history_before(setting: Setting, replies: Seq<ReplyView>, states: Seq<ConfigState>)
    requires
        is_history(init_past(setting, replies), states),
        replies.len() > 0,
        init_state(setting, replies.drop_last()) is Some,
    ensures
        is_history(init_past(setting, replies.drop_last()), states.drop_last()),
        states.len() >= 2,
        states.drop_last()[0] == states[0],
        states.drop_last().last() == states[states.len() - 2],
        may_leave(
            (init_state(setting, replies.drop_last())->0).action(),
            replies.last(),
            states[states.len() - 2],
            states.last(),
        ),
{
    let now = init_past(setting, replies);
    let past = init_past(setting, replies.drop_last());
    let run = init_state(setting, replies.drop_last())->0;
    assert(now == past.push((run.action(), replies.last())));
    assert(now[past.len() as int] == (run.action(), replies.last()));
    assert forall|k: int| 0 <= k < past.len() implies may_leave(
        (#[trigger] past[k]).0,
        past[k].1,
        states.drop_last()[k],
        states.drop_last()[k + 1],
    ) by {
        assert(now[k] == past[k]);
    }
}

/// What a start that ends well leaves: no log table is in the configuration database, also none
/// of those that the schema migrations needed for a while, and its version is supported. A
/// database without log tables that noted no version notes the supported one.
pub proof fn law_good_start(setting: Setting, replies: Seq<ReplyView>, states: Seq<ConfigState>)
    requires
        init_outcome(setting, replies) == Some(Ok::<(), ErrorView>(())),
        is_history(init_past(setting, replies), states),
    ensures
        !is_unsplit(states.last().tables),
        !is_too_new(states.last().version),
        !is_unsplit(states[0].tables) && states[0].version == 0 ==> states.last().version
            == SCHEMA_VERSION,
{
    let earlier = replies.drop_last();
    let run = init_state(setting, earlier)->0;
    lemma_history_before(setting, replies, states);
    lemma_start_inv(setting, earlier, states.drop_last());
    lemma_init_inv(setting, earlier);
    lemma_init_inv_kept(setting, run, init_past(setting, earlier), replies.last());
    lemma_plan_successor(setting, run.version, run.legacy->0, run.position);
    lemma_no_log_table_is_new(states[states.len() - 2].tables, states.last().tables);
}

/// A start that comes after one that ended well, with nothing written in between, neither backs
/// the database up for a split nor moves logs, and is not refused for the version.
pub proof fn law_second_start(
    setting: Setting,
    replies: Seq<ReplyView>,
    states: Seq<ConfigState>,
    later_setting: Setting,
    later_replies: Seq<ReplyView>,
    later_states: Seq<ConfigState>,
)
    requires
        init_outcome(setting, replies) == Some(Ok::<(), ErrorView>(())),
        is_history(init_past(setting, replies), states),
        is_history(init_past(later_setting, later_replies), later_states),
        later_states[0] == states.last(),
    ensures
        forall|reply: ReplyView|
            !(#[trigger] init_past(later_setting, later_replies).contains(
                (InitAction::BackUp, reply),
            )),
        forall|reply: ReplyView|
            !(#[trigger] init_past(later_setting, later_replies).contains(
                (InitAction::MigrateLegacyLogTables, reply),
            )),
        init_state(later_setting, later_replies) matches Some(run) ==> {
            &&& run.legacy != Some(true)
            &&& run.action() != InitAction::BackUp
            &&& run.action() != InitAction::MigrateLegacyLogTables
            &&& run.action() == InitAction::ProbeLegacyLogTables ==> !is_too_new(run.version)
                && init_next(
                run,
                ReplyView::Flag(is_unsplit(later_states.last().tables)),
            ) is Continue
        },
{
    law_good_start(setting, replies, states);
    lemma_split_start(later_setting, later_replies, later_states);
}

proof fn lemma_split_start(setting: Setting, replies: Seq<ReplyView>, states: Seq<ConfigState>)
    requires
        is_history(init_past(setting, replies), states),
        !is_unsplit(states[0].tables),
        !is_too_new(states[0].version),
    ensures
        forall|reply: ReplyView|
            !(#[trigger] init_past(setting, replies).contains((InitAction::BackUp, reply))),
        forall|reply: ReplyView|
            !(#[trigger] init_past(setting, replies).contains(
                (InitAction::MigrateLegacyLogTables, reply),
            )),
        init_state(setting, replies) matches Some(run) ==> {
            &&& run.legacy != Some(true)
            &&& run.action() != InitAction::BackUp
            &&& run.action() != InitAction::MigrateLegacyLogTables
            &&& run.action() == InitAction::ProbeLegacyLogTables ==> !is_too_new(run.version)
                && init_next(
                run,
                ReplyView::Flag(is_unsplit(states.last().tables)),
            ) is Continue
        },
    decreases replies.len(),
{
    if replies.len() > 0 {
        let earlier = replies.drop_last();
        let now = init_past(setting, replies);
        let past = init_past(setting, earlier);
        match init_state(setting, earlier) {
            Some(run) => {
                lemma_history_before(setting, replies, states);
                lemma_split_start(setting, earlier, states.drop_last());
                assert(now == past.push((run.action(), replies.last())));
                assert forall|action: InitAction, reply: ReplyView| #[trigger]
                    now.contains((action, reply)) implies action == run.action() || past.contains(
                    (action, reply),
                ) by {
                    let i = now.index_of((action, reply));
                    if i < past.len() {
                        assert(past[i] == (action, reply));
                    }
                }
            },
            None => {
                assert(now == past);
                lemma_split_start(setting, earlier, states);
            },
        }
    }
    if let Some(run) = init_state(setting, replies) {
        lemma_start_inv(setting, replies, states);
        lemma_init_inv(setting, replies);
        lemma_opening_in_order(setting);
        match run.legacy {
            Some(legacy) => {
                lemma_plan_landmarks(setting, run.version, legacy);
                lemma_plan_successor(setting, run.version, legacy, run.position);
            },
            None => {
                lemma_plan_landmarks(setting, run.version, false);
                lemma_plan_landmarks(setting, run.version, true);
            },
        }
    }
}

} // verus!
