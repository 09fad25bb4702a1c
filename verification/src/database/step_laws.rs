//! The runs take the steps that the laws speak of, and name the actions that they are about.

use vstd::prelude::*;
use vstd::string::*;

use crate::database::catalog::{
    catalog_next, providers_sql, CatalogAction, CatalogRefresh,
};
use crate::database::init::{init_next, InitAction, InitRun};
use crate::database::legacy::{drop_next, probe_next, LegacyDrop, LegacyProbe};
use crate::database::memory::{memory_next, memory_steps, MemoryRun};
use crate::database::migration::{migration_next, Migration, MigrationAction};
use crate::database::run::{
    exchanges, lemma_invariant, lemma_push_contains, outcome_after, state_after, Reply, ReplyView,
    Step, StepView,
};
use crate::database::tables::{dropped_tables, migrated_tables, probed_tables, LogTable};
use crate::database::vacuum::{auto_vacuum_next, rebuild_next, AutoVacuum, Rebuild};
use crate::error::ErrorView;

verus! {

/// A start takes the step that its state and the reply ask for, and names the action and the
/// version of its state.
pub proof fn law_steps_of_a_start(
    run: InitRun,
    reply: Reply,
    step: Step<InitRun, ()>,
    action: InitAction,
    version: i32,
)
    requires
        run.wf(),
        call_ensures(InitRun::next, (run, reply), step),
        call_ensures(InitRun::action, (&run,), action),
        call_ensures(InitRun::version, (&run,), version),
    ensures
        step@ == init_next(run@, reply@),
        step matches Step::Continue(after) ==> after.wf(),
        action == run@.plan()[run@.position],
        version == run@.version,
{
}

/// A search takes the step that the reply asks for, and looks for the table at its place.
pub proof fn law_steps_of_a_search(
    probe: LegacyProbe,
    reply: Reply,
    step: Step<LegacyProbe, bool>,
    table: LogTable,
)
    requires
        probe.wf(),
        call_ensures(LegacyProbe::next, (probe, reply), step),
        call_ensures(LegacyProbe::table, (probe,), table),
    ensures
        step@ == probe_next(probe, reply@),
        step matches Step::Continue(after) ==> after.wf(),
        table == probed_tables()[probe.index as int],
{
}

/// A dropping takes the step that the reply asks for, and drops the table at its place.
pub proof fn law_steps_of_a_dropping(
    run: LegacyDrop,
    reply: Reply,
    step: Step<LegacyDrop, ()>,
    sql: String,
    name: &'static str,
)
    requires
        run.wf(),
        call_ensures(LegacyDrop::next, (run, reply), step),
        call_ensures(LegacyDrop::sql, (run,), sql),
        call_ensures(LogTable::name, (dropped_tables()[run.index as int],), name),
    ensures
        step@ == drop_next(run, reply@),
        step matches Step::Continue(after) ==> after.wf(),
        sql@ == "DROP TABLE IF EXISTS "@ + name@,
{
}

/// A migration takes the step that the reply asks for, and names the table that it is at.
pub proof fn law_steps_of_a_migration(
    run: Migration,
    reply: Reply,
    step: Step<Migration, ()>,
    table: Option<LogTable>,
)
    requires
        run.wf(),
        call_ensures(Migration::next, (run, reply), step),
        call_ensures(Migration::table, (run,), table),
    ensures
        step@ == migration_next(run, reply@),
        step matches Step::Continue(after) ==> after.wf(),
        match run.action {
            MigrationAction::Probe(i) => table == Some(migrated_tables()[i as int]),
            MigrationAction::CopyRows(i) => table == Some(migrated_tables()[i as int]),
            MigrationAction::CountSource(i) => table == Some(migrated_tables()[i as int]),
            MigrationAction::CountTarget(i) => table == Some(migrated_tables()[i as int]),
            _ => table is None,
        },
{
}

/// A rebuild and the change that it is part of take the steps that the replies ask for.
pub proof fn law_steps_of_a_rebuild(
    rebuild: Rebuild,
    rebuild_step: Step<Rebuild, bool>,
    change: AutoVacuum,
    change_step: Step<AutoVacuum, bool>,
    reply: Reply,
)
    requires
        call_ensures(Rebuild::next, (rebuild, reply), rebuild_step),
        call_ensures(AutoVacuum::next, (change, reply), change_step),
    ensures
        rebuild_step@ == rebuild_next(rebuild, reply@),
        change_step@ == auto_vacuum_next(change, reply@),
{
}

/// A refresh takes the step that the reply asks for, and names what is due. Its statements read
/// every provider, empty the cache, and add a provider with its id, application and name.
pub proof fn law_steps_of_a_refresh(
    run: CatalogRefresh,
    reply: Reply,
    step: Step<CatalogRefresh, ()>,
    action: CatalogAction,
    sql: Option<&'static str>,
    providers: &'static str,
)
    requires
        run@.wf(),
        call_ensures(CatalogRefresh::next, (run, reply), step),
        call_ensures(CatalogRefresh::action, (&run,), action),
        call_ensures(CatalogAction::sql, (action,), sql),
        call_ensures(providers_sql, (), providers),
    ensures
        step@ == catalog_next(run@, reply@),
        step matches Step::Continue(after) ==> after@.wf(),
        action == run@.action,
        providers@ == "SELECT id, app_type, name FROM providers"@,
        match action {
            CatalogAction::Clear => sql matches Some(sql) && sql@
                == "DELETE FROM provider_catalog_cache"@,
            CatalogAction::PrepareInsert => sql matches Some(sql) && sql@
                == "INSERT INTO provider_catalog_cache (provider_id, app_type, name) VALUES (?1, ?2, ?3)"@,
            _ => sql is None,
        },
{
}

/// Setting up databases in memory takes the step that the reply asks for. A reply that is neither
/// done nor a failure changes nothing.
pub proof fn law_steps_of_memory(run: MemoryRun, reply: Reply, step: Step<MemoryRun, ()>)
    requires
        run.wf(),
        call_ensures(MemoryRun::next, (run, reply), step),
    ensures
        step@ == memory_next(run, reply@),
        step matches Step::Continue(after) ==> after.wf(),
        !(reply is Done) && !(reply is Failed) && !(reply is Refused) ==> step@ == StepView::<
            MemoryRun,
            (),
        >::Continue(run),
{
}

/// The place of the action that is due in memory.
pub open spec fn memory_due() -> spec_fn(MemoryRun) -> int {
    |run: MemoryRun| run.position as int
}

/// What setting up databases in memory did so far, with the replies.
pub open spec fn memory_past(replies: Seq<ReplyView>) -> Seq<(int, ReplyView)> {
    exchanges(memory_steps(), memory_due(), MemoryRun { position: 0 }, replies)
}

/// The actions before the one that is due were done.
#[verifier::opaque]
spec fn done_so_far(run: MemoryRun, past: Seq<(int, ReplyView)>) -> bool {
    &&& run.position < 11
    &&& forall|i: int| 0 <= i < run.position ==> #[trigger] past.contains((i, ReplyView::Done))
}

proof fn lemma_done_so_far_kept(run: MemoryRun, past: Seq<(int, ReplyView)>, reply: ReplyView)
    requires
        done_so_far(run, past),
    ensures
        match memory_next(run, reply) {
            StepView::Continue(after) => done_so_far(
                after,
                past.push((run.position as int, reply)),
            ),
            StepView::Finished(_) => true,
        },
{
    reveal(done_so_far);
    let exchange = (run.position as int, reply);
    lemma_push_contains(past, exchange);
    if let StepView::Continue(after) = memory_next(run, reply) {
        assert forall|i: int| 0 <= i < after.position implies #[trigger] past.push(
            exchange,
        ).contains((i, ReplyView::Done)) by {
            if i < run.position {
                assert(past.contains((i, ReplyView::Done)));
            }
        }
    }
}

proof fn lemma_done_so_far(replies: Seq<ReplyView>)
    ensures
        match state_after(memory_steps(), MemoryRun { position: 0 }, replies) {
            Some(run) => done_so_far(run, memory_past(replies)),
            None => true,
        },
{
    let next = memory_steps();
    let due = memory_due();
    let start = MemoryRun { position: 0 };
    let inv = |run: MemoryRun, past: Seq<(int, ReplyView)>| done_so_far(run, past);
    assert(done_so_far(start, Seq::empty())) by {
        reveal(done_so_far);
    }
    assert forall|run: MemoryRun, past: Seq<(int, ReplyView)>, reply: ReplyView|
        #![trigger inv(run, past), next(run, reply)]
        inv(run, past) implies match next(run, reply) {
        StepView::Continue(after) => inv(after, past.push((due(run), reply))),
        StepView::Finished(_) => true,
    } by {
        lemma_done_so_far_kept(run, past, reply);
    }
    lemma_invariant(next, due, start, inv, replies);
}

proof fn lemma_all_done(
    run: MemoryRun,
    past: Seq<(int, ReplyView)>,
    reply: ReplyView,
    place: int,
)
    requires
        done_so_far(run, past),
        memory_next(run, reply) == StepView::<MemoryRun, ()>::Finished(Ok(())),
        0 <= place < 11,
    ensures
        past.push((run.position as int, reply)).contains((place, ReplyView::Done)),
{
    reveal(done_so_far);
    lemma_push_contains(past, (run.position as int, reply));
    if place < run.position {
        assert(past.contains((place, ReplyView::Done)));
    }
}

/// Databases in memory that are set up have had every action done.
pub proof fn law_memory_is_complete(replies: Seq<ReplyView>, place: int)
    requires
        outcome_after(memory_steps(), MemoryRun { position: 0 }, replies) == Some(
            Ok::<(), ErrorView>(()),
        ),
        0 <= place < 11,
    ensures
        memory_past(replies).contains((place, ReplyView::Done)),
{
    let start = MemoryRun { position: 0 };
    let earlier = replies.drop_last();
    lemma_done_so_far(earlier);
    let run = state_after(memory_steps(), start, earlier)->0;
    let past = memory_past(earlier);
    assert(memory_past(replies) == past.push((run.position as int, replies.last())));
    lemma_all_done(run, past, replies.last(), place);
}

} // verus!
