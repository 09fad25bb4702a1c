//! Log tables that an unsplit configuration database still holds: looking for them, and
//! dropping them.

use vstd::prelude::*;
use vstd::string::*;

use crate::database::run::{
    lemma_one_outcome, outcome_after, state_after, Reply, ReplyView, Step, StepView,
};
use crate::database::tables::{
    drop_statement, dropped_table, dropped_tables, is_unsplit, probed_table, probed_tables, table_name,
    LogTable,
};
use crate::error::{database_error, joined3, AppError, ErrorView};

verus! {

/// A search for log tables, at one of the tables that are looked for.
#[derive(Clone, Copy, PartialEq, Eq, Structural)]
pub struct LegacyProbe {
    pub index: usize,
}

impl View for LegacyProbe {
    type V = LegacyProbe;

    open spec fn view(&self) -> LegacyProbe {
        *self
    }
}

/// The search after a reply: the first table that is there settles it, and so does the last.
pub open spec fn probe_next(probe: LegacyProbe, reply: ReplyView) -> StepView<LegacyProbe, bool> {
    match reply {
        ReplyView::Flag(true) => StepView::Finished(Ok(true)),
        ReplyView::Flag(false) => if probe.index + 1 < probed_tables().len() {
            StepView::Continue(LegacyProbe { index: (probe.index + 1) as usize })
        } else {
            StepView::Finished(Ok(false))
        },
        ReplyView::Failed(cause) => StepView::Finished(Err(ErrorView::Database(cause))),
        ReplyView::Refused(error) => StepView::Finished(Err(error)),
        _ => StepView::Continue(probe),
    }
}

impl LegacyProbe {
    /// The search stands at one of the tables.
    pub open spec fn wf(self) -> bool {
        self.index < probed_tables().len()
    }

    /// Starts the search.
    pub fn start() -> (probe: Self)
        ensures
            probe == (LegacyProbe { index: 0 }),
            probe.wf(),
    {
        LegacyProbe { index: 0 }
    }

    /// The table that is to be looked for now.
    pub fn table(self) -> (table: LogTable)
        requires
            self.wf(),
        ensures
            table == probed_tables()[self.index as int],
    {
        probed_table(self.index)
    }

    /// Takes in whether the table is there. Any other reply that is no error changes nothing.
    pub fn next(self, reply: Reply) -> (step: Step<Self, bool>)
        requires
            self.wf(),
        ensures
            step@ == probe_next(self, reply@),
            step matches Step::Continue(probe) ==> probe.wf(),
    {
        match reply {
            Reply::Flag(true) => Step::Finished(Ok(true)),
            Reply::Flag(false) => if self.index + 1 < 6 {
                Step::Continue(LegacyProbe { index: self.index + 1 })
            } else {
                Step::Finished(Ok(false))
            },
            Reply::Failed(cause) => Step::Finished(Err(AppError::Database(cause))),
            Reply::Refused(error) => Step::Finished(Err(error)),
            _ => Step::Continue(self),
        }
    }
}

/// The dropping of the log tables, at one of the tables that are dropped.
#[derive(Clone, Copy, PartialEq, Eq, Structural)]
pub struct LegacyDrop {
    pub index: usize,
}

impl View for LegacyDrop {
    type V = LegacyDrop;

    open spec fn view(&self) -> LegacyDrop {
        *self
    }
}

/// The message of a table that could not be dropped.
pub open spec fn drop_failure(table: LogTable, cause: Seq<char>) -> ErrorView {
    ErrorView::Database("删除旧日志表 "@ + table_name(table) + " 失败: "@ + cause)
}

/// The dropping after a reply.
pub open spec fn drop_next(run: LegacyDrop, reply: ReplyView) -> StepView<LegacyDrop, ()> {
    match reply {
        ReplyView::Done => if run.index + 1 < dropped_tables().len() {
            StepView::Continue(LegacyDrop { index: (run.index + 1) as usize })
        } else {
            StepView::Finished(Ok(()))
        },
        ReplyView::Failed(cause) => StepView::Finished(
            Err(drop_failure(dropped_tables()[run.index as int], cause)),
        ),
        ReplyView::Refused(error) => StepView::Finished(Err(error)),
        _ => StepView::Continue(run),
    }
}

impl LegacyDrop {
    /// The dropping stands at one of the tables.
    pub open spec fn wf(self) -> bool {
        self.index < dropped_tables().len()
    }

    /// Starts the dropping.
    pub fn start() -> (run: Self)
        ensures
            run == (LegacyDrop { index: 0 }),
            run.wf(),
    {
        LegacyDrop { index: 0 }
    }

    /// The statement that is to be executed now.
    pub fn sql(self) -> (sql: String)
        requires
            self.wf(),
        ensures
            sql@ == drop_statement(dropped_tables()[self.index as int]),
    {
        dropped_table(self.index).drop_sql()
    }

    /// Takes in what came of the statement.
    pub fn next(self, reply: Reply) -> (step: Step<Self, ()>)
        requires
            self.wf(),
        ensures
            step@ == drop_next(self, reply@),
            step matches Step::Continue(run) ==> run.wf(),
    {
        match reply {
            Reply::Done => if self.index + 1 < 7 {
                Step::Continue(LegacyDrop { index: self.index + 1 })
            } else {
                Step::Finished(Ok(()))
            },
            Reply::Failed(cause) => {
                let context = joined3(
                    "删除旧日志表 ",
                    dropped_table(self.index).name(),
                    " 失败: ",
                );
                Step::Finished(Err(database_error(context.as_str(), cause.as_str())))
            },
            Reply::Refused(error) => Step::Finished(Err(error)),
            _ => Step::Continue(self),
        }
    }
}

/// The steps of a search.
pub open spec fn probe_steps() -> spec_fn(LegacyProbe, ReplyView) -> StepView<LegacyProbe, bool> {
    |probe: LegacyProbe, reply: ReplyView| probe_next(probe, reply)
}

/// The steps of a dropping.
pub open spec fn drop_steps() -> spec_fn(LegacyDrop, ReplyView) -> StepView<LegacyDrop, ()> {
    |run: LegacyDrop, reply: ReplyView| drop_next(run, reply)
}

/// The place of the table that is due in a dropping.
pub open spec fn drop_due() -> spec_fn(LegacyDrop) -> int {
    |run: LegacyDrop| run.index as int
}

/// What a search for log tables is told when these tables are there.
pub open spec fn truthful_replies(tables: Set<Seq<char>>) -> Seq<ReplyView> {
    Seq::new(
        probed_tables().len(),
        |i: int| ReplyView::Flag(tables.contains(table_name(probed_tables()[i]))),
    )
}

/// The search, told the truth, ends, and says whether the database is unsplit.
pub proof fn law_search_is_exact(tables: Set<Seq<char>>)
    ensures
        exists|n: int|
            0 < n <= probed_tables().len() && #[trigger] outcome_after(
                probe_steps(),
                LegacyProbe { index: 0 },
                truthful_replies(tables).take(n),
            ) == Some(Ok::<bool, ErrorView>(is_unsplit(tables))),
{
    let next = probe_steps();
    let start = LegacyProbe { index: 0 };
    let truth = truthful_replies(tables);
    if is_unsplit(tables) {
        let hit = choose|i: int|
            0 <= i < probed_tables().len() && tables.contains(
                table_name(#[trigger] probed_tables()[i]),
            );
        lemma_search_ends_at_first(tables, hit);
    } else {
        lemma_search_goes_on(tables, 5);
        assert(truth.take(6).drop_last() =~= truth.take(5));
        assert(!tables.contains(table_name(probed_tables()[5])));
        assert(outcome_after(next, start, truth.take(6)) == Some(Ok::<bool, ErrorView>(false)));
    }
}

/// The flag is what a search came to that was told of these tables what is the case.
pub open spec fn reports_search(tables: Set<Seq<char>>, found: bool) -> bool {
    exists|n: int|
        0 < n <= probed_tables().len() && #[trigger] outcome_after(
            probe_steps(),
            LegacyProbe { index: 0 },
            truthful_replies(tables).take(n),
        ) == Some(Ok::<bool, ErrorView>(found))
}

/// A search that was told the truth can say nothing but whether the database is unsplit.
pub proof fn law_reported_search(tables: Set<Seq<char>>, found: bool)
    ensures
        reports_search(tables, found) <==> found == is_unsplit(tables),
{
    let next = probe_steps();
    let start = LegacyProbe { index: 0 };
    let truth = truthful_replies(tables);
    law_search_is_exact(tables);
    let n = choose|n: int|
        0 < n <= probed_tables().len() && #[trigger] outcome_after(next, start, truth.take(n))
            == Some(Ok::<bool, ErrorView>(is_unsplit(tables)));
    if reports_search(tables, found) {
        let m = choose|m: int|
            0 < m <= probed_tables().len() && #[trigger] outcome_after(next, start, truth.take(m))
                == Some(Ok::<bool, ErrorView>(found));
        if m < n {
            lemma_one_outcome(next, start, truth, m, n);
        } else if n < m {
            lemma_one_outcome(next, start, truth, n, m);
        }
    }
}

proof fn lemma_search_goes_on(tables: Set<Seq<char>>, n: int)
    requires
        0 <= n < probed_tables().len(),
        forall|i: int|
            0 <= i < n ==> !tables.contains(table_name(#[trigger] probed_tables()[i])),
    ensures
        state_after(
            probe_steps(),
            LegacyProbe { index: 0 },
            truthful_replies(tables).take(n),
        ) == Some(LegacyProbe { index: n as usize }),
    decreases n,
{
    if n > 0 {
        lemma_search_goes_on(tables, n - 1);
        assert(truthful_replies(tables).take(n).drop_last() =~= truthful_replies(tables).take(
            n - 1,
        ));
        assert(!tables.contains(table_name(probed_tables()[n - 1])));
    }
}

proof fn lemma_search_ends_at_first(tables: Set<Seq<char>>, hit: int)
    requires
        0 <= hit < probed_tables().len(),
        tables.contains(table_name(probed_tables()[hit])),
    ensures
        exists|n: int|
            0 < n <= probed_tables().len() && #[trigger] outcome_after(
                probe_steps(),
                LegacyProbe { index: 0 },
                truthful_replies(tables).take(n),
            ) == Some(Ok::<bool, ErrorView>(true)),
    decreases hit,
{
    if exists|i: int|
        0 <= i < hit && tables.contains(table_name(#[trigger] probed_tables()[i])) {
        let earlier = choose|i: int|
            0 <= i < hit && tables.contains(table_name(#[trigger] probed_tables()[i]));
        lemma_search_ends_at_first(tables, earlier);
    } else {
        lemma_search_goes_on(tables, hit);
        let truth = truthful_replies(tables);
        assert(truth.take(hit + 1).drop_last() =~= truth.take(hit));
        assert(outcome_after(
            probe_steps(),
            LegacyProbe { index: 0 },
            truth.take(hit + 1),
        ) == Some(Ok::<bool, ErrorView>(true)));
    }
}

} // verus!
