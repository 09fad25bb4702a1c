//! What holds of dropping the log tables, and what it leaves in the configuration database.

use vstd::prelude::*;

use crate::database::legacy::{drop_due, drop_next, drop_steps, LegacyDrop};
use crate::database::migration::{
    law_finished_migration, migration_past, migration_steps, Migration, MigrationAction,
};
use crate::database::run::{
    exchanges, lemma_invariant, lemma_push_contains, outcome_after, state_after, ReplyView,
    StepView,
};
use crate::database::tables::{
    dropped_tables, is_unsplit, law_split_is_done_once, migrated_tables, table_name,
    without_dropped,
};
use crate::error::ErrorView;

verus! {

/// The tables before the one that is due were dropped.
#[verifier::opaque]
spec fn drops_so_far(run: LegacyDrop, past: Seq<(int, ReplyView)>) -> bool {
    &&& run.index < 7
    &&& forall|i: int| 0 <= i < run.index ==> #[trigger] past.contains((i, ReplyView::Done))
}

proof fn lemma_drops_so_far_kept(
    run: LegacyDrop,
    past: Seq<(int, ReplyView)>,
    reply: ReplyView,
)
    requires
        drops_so_far(run, past),
    ensures
        match drop_next(run, reply) {
            StepView::Continue(after) => drops_so_far(
                after,
                past.push((run.index as int, reply)),
            ),
            StepView::Finished(_) => true,
        },
{
    reveal(drops_so_far);
    let exchange = (run.index as int, reply);
    lemma_push_contains(past, exchange);
    if let StepView::Continue(after) = drop_next(run, reply) {
        assert(dropped_tables().len() == 7);
        assert forall|i: int| 0 <= i < after.index implies #[trigger] past.push(exchange).contains(
            (i, ReplyView::Done),
        ) by {
            if i < run.index {
                assert(past.contains((i, ReplyView::Done)));
            }
        }
    }
}

proof fn lemma_drops_so_far(replies: Seq<ReplyView>)
    ensures
        match state_after(drop_steps(), LegacyDrop { index: 0 }, replies) {
            Some(run) => drops_so_far(
                run,
                exchanges(drop_steps(), drop_due(), LegacyDrop { index: 0 }, replies),
            ),
            None => true,
        },
{
    let next = drop_steps();
    let due = drop_due();
    let start = LegacyDrop { index: 0 };
    let inv = |run: LegacyDrop, past: Seq<(int, ReplyView)>| drops_so_far(run, past);
    assert(drops_so_far(start, Seq::empty())) by {
        reveal(drops_so_far);
    }
    assert forall|run: LegacyDrop, past: Seq<(int, ReplyView)>, reply: ReplyView|
        #![trigger inv(run, past), next(run, reply)]
        inv(run, past) implies match next(run, reply) {
        StepView::Continue(after) => inv(after, past.push((due(run), reply))),
        StepView::Finished(_) => true,
    } by {
        lemma_drops_so_far_kept(run, past, reply);
    }
    lemma_invariant(next, due, start, inv, replies);
}

proof fn lemma_all_dropped(
    run: LegacyDrop,
    past: Seq<(int, ReplyView)>,
    reply: ReplyView,
    table: int,
)
    requires
        drops_so_far(run, past),
        drop_next(run, reply) == StepView::<LegacyDrop, ()>::Finished(Ok(())),
        0 <= table < 7,
    ensures
        past.push((run.index as int, reply)).contains((table, ReplyView::Done)),
{
    reveal(drops_so_far);
    lemma_last_drop(run, reply);
    lemma_push_contains(past, (run.index as int, reply));
    if table < 6 {
        assert(past.contains((table, ReplyView::Done)));
    }
}

/// A dropping that ends well has dropped every table that is to be dropped.
pub proof fn law_dropping_is_complete(replies: Seq<ReplyView>, table: int)
    requires
        outcome_after(
            drop_steps(),
            LegacyDrop { index: 0 },
            replies,
        ) == Some(Ok::<(), ErrorView>(())),
        0 <= table < dropped_tables().len(),
    ensures
        exchanges(
            drop_steps(),
            drop_due(),
            LegacyDrop { index: 0 },
            replies,
        ).contains((table, ReplyView::Done)),
{
    let start = LegacyDrop { index: 0 };
    let earlier = replies.drop_last();
    lemma_drops_so_far(earlier);
    let run = state_after(drop_steps(), start, earlier)->0;
    let past = exchanges(drop_steps(), drop_due(), start, earlier);
    assert(exchanges(drop_steps(), drop_due(), start, replies) == past.push(
        (run.index as int, replies.last()),
    ));
    assert(dropped_tables().len() == 7);
    lemma_all_dropped(run, past, replies.last(), table);
}

/// The name of the table that is dropped at this place.
#[verifier::opaque]
pub open spec fn dropped_name(i: int) -> Seq<char> {
    table_name(dropped_tables()[i])
}

/// These tables after what a dropping did: each statement that was done removes its table.
pub open spec fn tables_after_dropping(
    tables: Set<Seq<char>>,
    past: Seq<(int, ReplyView)>,
) -> Set<Seq<char>>
    decreases past.len(),
{
    if past.len() == 0 {
        tables
    } else {
        let earlier = tables_after_dropping(tables, past.drop_last());
        match past.last() {
            (i, ReplyView::Done) => earlier.remove(dropped_name(i)),
            _ => earlier,
        }
    }
}

/// A table of this name is among the first that are dropped.
#[verifier::opaque]
spec fn is_among_first(name: Seq<char>, n: int) -> bool {
    exists|i: int| 0 <= i < n && name == #[trigger] dropped_name(i)
}

proof fn lemma_among_first(name: Seq<char>, n: int)
    requires
        0 <= n,
    ensures
        !is_among_first(name, 0),
        is_among_first(name, n + 1) <==> is_among_first(name, n) || name == dropped_name(n),
{
    reveal(is_among_first);
}

/// How many tables a dropping has dropped where it stands, and what that left.
spec fn drop_inv(
    tables: Set<Seq<char>>,
    run: LegacyDrop,
    past: Seq<(int, ReplyView)>,
) -> bool {
    &&& run.index < 7
    &&& forall|name: Seq<char>| #[trigger]
        tables_after_dropping(tables, past).contains(name) <==> tables.contains(name)
            && !is_among_first(name, run.index as int)
}

proof fn lemma_one_more_dropped(
    tables: Set<Seq<char>>,
    past: Seq<(int, ReplyView)>,
    i: int,
    reply: ReplyView,
    name: Seq<char>,
)
    ensures
        tables_after_dropping(tables, past.push((i, reply))).contains(name) <==> {
            &&& tables_after_dropping(tables, past).contains(name)
            &&& reply is Done ==> name != dropped_name(i)
        },
{
    assert(past.push((i, reply)).drop_last() =~= past);
}

proof fn lemma_drop_inv_kept(
    tables: Set<Seq<char>>,
    run: LegacyDrop,
    past: Seq<(int, ReplyView)>,
    reply: ReplyView,
)
    requires
        drop_inv(tables, run, past),
    ensures
        match drop_next(run, reply) {
            StepView::Continue(after) => drop_inv(
                tables,
                after,
                past.push((run.index as int, reply)),
            ),
            StepView::Finished(_) => true,
        },
{
    let now = past.push((run.index as int, reply));
    if let StepView::Continue(after) = drop_next(run, reply) {
        assert(dropped_tables().len() == 7);
        assert forall|name: Seq<char>| #[trigger]
            tables_after_dropping(tables, now).contains(name) <==> tables.contains(name)
                && !is_among_first(name, after.index as int) by {
            lemma_one_more_dropped(tables, past, run.index as int, reply, name);
            lemma_among_first(name, run.index as int);
        }
    }
}

proof fn lemma_without_dropped(tables: Set<Seq<char>>, name: Seq<char>)
    ensures
        without_dropped(tables).contains(name) <==> tables.contains(name) && !is_among_first(
            name,
            7,
        ),
{
    reveal(is_among_first);
    reveal(dropped_name);
    assert(dropped_tables().len() == 7);
    if is_among_first(name, 7) {
        let i = choose|i: int| 0 <= i < 7 && name == #[trigger] dropped_name(i);
        assert(table_name(dropped_tables()[i]) == name);
    } else {
        assert forall|i: int| 0 <= i < dropped_tables().len() implies table_name(
            #[trigger] dropped_tables()[i],
        ) != name by {
            assert(dropped_name(i) != name);
        }
    }
}

proof fn lemma_drop_inv(replies: Seq<ReplyView>, tables: Set<Seq<char>>)
    ensures
        match state_after(drop_steps(), LegacyDrop { index: 0 }, replies) {
            Some(run) => drop_inv(
                tables,
                run,
                exchanges(drop_steps(), drop_due(), LegacyDrop { index: 0 }, replies),
            ),
            None => true,
        },
{
    let next = drop_steps();
    let due = drop_due();
    let start = LegacyDrop { index: 0 };
    let inv = |run: LegacyDrop, past: Seq<(int, ReplyView)>| drop_inv(tables, run, past);
    assert(drop_inv(tables, start, Seq::empty())) by {
        assert forall|name: Seq<char>| #[trigger]
            tables_after_dropping(tables, Seq::empty()).contains(name) <==> tables.contains(name)
                && !is_among_first(name, 0) by {
            lemma_among_first(name, 0);
        }
    }
    assert forall|run: LegacyDrop, past: Seq<(int, ReplyView)>, reply: ReplyView|
        #![trigger inv(run, past), next(run, reply)]
        inv(run, past) implies match next(run, reply) {
        StepView::Continue(after) => inv(after, past.push((due(run), reply))),
        StepView::Finished(_) => true,
    } by {
        lemma_drop_inv_kept(tables, run, past, reply);
    }
    lemma_invariant(next, due, start, inv, replies);
}

/// A dropping that ends well leaves the tables that are not to be dropped, and no others. So the
/// database is no longer unsplit.
pub proof fn law_dropping_splits(replies: Seq<ReplyView>, tables: Set<Seq<char>>)
    requires
        outcome_after(
            drop_steps(),
            LegacyDrop { index: 0 },
            replies,
        ) == Some(Ok::<(), ErrorView>(())),
    ensures
        ({
            let past = exchanges(drop_steps(), drop_due(), LegacyDrop { index: 0 }, replies);
            &&& tables_after_dropping(tables, past) == without_dropped(tables)
            &&& !is_unsplit(tables_after_dropping(tables, past))
        }),
{
    let start = LegacyDrop { index: 0 };
    let earlier = replies.drop_last();
    lemma_drop_inv(earlier, tables);
    let run = state_after(drop_steps(), start, earlier)->0;
    let past = exchanges(drop_steps(), drop_due(), start, earlier);
    let now = exchanges(drop_steps(), drop_due(), start, replies);
    assert(now == past.push((run.index as int, replies.last())));
    lemma_last_drop(run, replies.last());
    assert forall|name: Seq<char>| #[trigger]
        tables_after_dropping(tables, now).contains(name) <==> without_dropped(tables).contains(
            name,
        ) by {
        lemma_one_more_dropped(tables, past, 6, ReplyView::Done, name);
        lemma_among_first(name, 6);
        lemma_without_dropped(tables, name);
    }
    assert(tables_after_dropping(tables, now) =~= without_dropped(tables));
    law_split_is_done_once(tables);
}

/// What a dropping did so far, with the replies.
pub open spec fn drop_past(replies: Seq<ReplyView>) -> Seq<(int, ReplyView)> {
    exchanges(drop_steps(), drop_due(), LegacyDrop { index: 0 }, replies)
}

/// A dropping that ended well led from these tables to those.
pub open spec fn reports_dropping(before: Set<Seq<char>>, after: Set<Seq<char>>) -> bool {
    exists|replies: Seq<ReplyView>|
        {
            &&& outcome_after(drop_steps(), LegacyDrop { index: 0 }, replies) == Some(
                Ok::<(), ErrorView>(()),
            )
            &&& after == tables_after_dropping(before, #[trigger] drop_past(replies))
        }
}

/// This migration ended well, and where it was told that the log tables were dropped, a dropping
/// that ended well had led from these tables to those.
pub open spec fn is_move(
    replies: Seq<ReplyView>,
    before: Set<Seq<char>>,
    after: Set<Seq<char>>,
) -> bool {
    &&& outcome_after(migration_steps(), Migration::begun(), replies) == Some(
        Ok::<(), ErrorView>(()),
    )
    &&& migration_past(replies).contains((MigrationAction::DropLegacyTables, ReplyView::Done))
        ==> reports_dropping(before, after)
}

/// A migration that ended well led from these tables to those.
pub open spec fn reports_move(before: Set<Seq<char>>, after: Set<Seq<char>>) -> bool {
    exists|replies: Seq<ReplyView>| is_move(replies, before, after)
}

/// As many replies that a statement was done.
spec fn all_done(n: nat) -> Seq<ReplyView> {
    Seq::new(n, |i: int| ReplyView::Done)
}

proof fn lemma_dropping_goes_on(n: nat)
    requires
        n < 7,
    ensures
        state_after(drop_steps(), LegacyDrop { index: 0 }, all_done(n)) == Some(
            LegacyDrop { index: n as usize },
        ),
    decreases n,
{
    if n > 0 {
        lemma_dropping_goes_on((n - 1) as nat);
        assert(all_done(n).drop_last() =~= all_done((n - 1) as nat));
        assert(dropped_tables().len() == 7);
    }
}

/// A dropping that ended well leaves exactly the tables that are not to be dropped, and where
/// every statement is done, it ends well.
pub proof fn law_reported_dropping(before: Set<Seq<char>>, after: Set<Seq<char>>)
    ensures
        reports_dropping(before, after) <==> after == without_dropped(before),
        reports_dropping(before, after) ==> !is_unsplit(after),
{
    if reports_dropping(before, after) {
        let replies = choose|replies: Seq<ReplyView>|
            {
                &&& outcome_after(drop_steps(), LegacyDrop { index: 0 }, replies) == Some(
                    Ok::<(), ErrorView>(()),
                )
                &&& after == tables_after_dropping(before, #[trigger] drop_past(replies))
            };
        law_dropping_splits(replies, before);
    }
    if after == without_dropped(before) {
        lemma_dropping_goes_on(6);
        assert(all_done(7).drop_last() =~= all_done(6));
        assert(dropped_tables().len() == 7);
        law_dropping_splits(all_done(7), before);
        assert(after == tables_after_dropping(before, drop_past(all_done(7))));
    }
}

/// What a migration is told that finds no log table and meets no failure.
spec fn smooth_replies() -> Seq<ReplyView> {
    seq![
        ReplyView::Done,
        ReplyView::Flag(false),
        ReplyView::Flag(false),
        ReplyView::Flag(false),
        ReplyView::Flag(false),
        ReplyView::Flag(false),
        ReplyView::Flag(false),
        ReplyView::Text("ok"@),
        ReplyView::Done,
        ReplyView::Done,
        ReplyView::Done,
    ]
}

/// Where a migration that meets no failure stands after so many replies.
spec fn smooth_action(n: int) -> MigrationAction {
    if n == 0 {
        MigrationAction::Attach
    } else if n <= 6 {
        MigrationAction::Probe((n - 1) as usize)
    } else if n == 7 {
        MigrationAction::CheckIntegrity
    } else if n == 8 {
        MigrationAction::Detach
    } else if n == 9 {
        MigrationAction::DropLegacyTables
    } else {
        MigrationAction::Vacuum
    }
}

proof fn lemma_migration_goes_on(n: int)
    requires
        0 <= n <= 10,
    ensures
        state_after(migration_steps(), Migration::begun(), smooth_replies().take(n)) == Some(
            Migration { action: smooth_action(n), source_rows: 0 },
        ),
    decreases n,
{
    if n > 0 {
        lemma_migration_goes_on(n - 1);
        assert(smooth_replies().take(n).drop_last() =~= smooth_replies().take(n - 1));
        assert(smooth_replies().take(n).last() == smooth_replies()[n - 1]);
        assert(migrated_tables().len() == 6);
    }
}

/// A move of the log tables that ended well leaves exactly the tables that are not to be dropped,
/// and there are moves that end well.
pub proof fn law_reported_move(before: Set<Seq<char>>, after: Set<Seq<char>>)
    ensures
        reports_move(before, after) <==> after == without_dropped(before),
        reports_move(before, after) ==> !is_unsplit(after),
{
    law_reported_dropping(before, after);
    if reports_move(before, after) {
        let replies = choose|replies: Seq<ReplyView>| is_move(replies, before, after);
        law_finished_migration(replies);
    }
    if after == without_dropped(before) {
        let replies = smooth_replies();
        lemma_migration_goes_on(10);
        assert(replies.drop_last() =~= replies.take(10));
        assert(is_move(replies, before, after));
    }
}

proof fn lemma_last_drop(run: LegacyDrop, reply: ReplyView)
    requires
        run.index < 7,
        drop_next(run, reply) == StepView::<LegacyDrop, ()>::Finished(Ok(())),
    ensures
        run.index == 6,
        reply == ReplyView::Done,
{
    assert(dropped_tables().len() == 7);
}

} // verus!
