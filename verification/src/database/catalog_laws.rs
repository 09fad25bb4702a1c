//! What holds of every refresh of the catalog cache, from the providers that were read to the
//! cache that was committed.

use vstd::prelude::*;

use crate::database::catalog::{
    cache_after, catalog_due, catalog_steps, is_committed,
    law_failed_refresh_commits_nothing, law_refreshed_cache_is_a_copy, CatalogAction, CatalogRead,
    CatalogRefresh, CatalogView, ProviderRow, ProviderView,
};
use crate::database::run::{exchanges, outcome_after, state_after, ReplyView, Step};
use crate::error::{AppError, ErrorView};

verus! {

/// These are the providers that were read, each with its id, application and name, in their
/// order.
pub open spec fn are_the_rows(views: Seq<ProviderView>, rows: Seq<ProviderRow>) -> bool {
    &&& views.len() == rows.len()
    &&& forall|i: int|
        0 <= i < rows.len() ==> {
            &&& (#[trigger] views[i]).id == rows[i].id@
            &&& views[i].app_type == rows[i].app_type@
            &&& views[i].name == rows[i].name@
        }
}

/// Once the providers are read, however many they are, the refresh begins, with all of them.
pub proof fn law_refresh_begins_with_all_rows(
    rows: Vec<ProviderRow>,
    step: Step<CatalogRefresh, ()>,
)
    requires
        call_ensures(CatalogRefresh::start, (CatalogRead::Rows(rows),), step),
    ensures
        step matches Step::Continue(run) && run@.action == CatalogAction::Begin && are_the_rows(
            run@.rows,
            rows@,
        ),
{
}

/// A refresh that could not read the providers is over, with the error.
pub proof fn law_unread_providers_end_the_refresh(
    cause: String,
    failed: Step<CatalogRefresh, ()>,
    error: AppError,
    refused: Step<CatalogRefresh, ()>,
)
    requires
        call_ensures(CatalogRefresh::start, (CatalogRead::Failed(cause),), failed),
        call_ensures(CatalogRefresh::start, (CatalogRead::Refused(error),), refused),
    ensures
        failed matches Step::Finished(Err(e)) && e@ == ErrorView::Database(
            "读取供应商目录失败: "@ + cause@,
        ),
        refused matches Step::Finished(Err(e)) && e@ == error@,
{
}

/// From the providers that were read to the cache: a refresh that ends well has committed a cache
/// that holds exactly these providers, whatever it held before, and one that ends with an error
/// has committed nothing.
pub proof fn law_cache_holds_what_was_read(
    rows: Vec<ProviderRow>,
    run: CatalogRefresh,
    cache: Seq<ProviderView>,
    replies: Seq<ReplyView>,
)
    requires
        call_ensures(CatalogRefresh::start, (CatalogRead::Rows(rows),), Step::Continue(run)),
    ensures
        ({
            let past = exchanges(catalog_steps(), catalog_due(), run@, replies);
            &&& outcome_after(catalog_steps(), run@, replies) == Some(Ok::<(), ErrorView>(()))
                ==> is_committed(past) && are_the_rows(cache_after(cache, run@.rows, past), rows@)
            &&& outcome_after(catalog_steps(), run@, replies) matches Some(Err(_)) ==> !is_committed(
                past,
            )
        }),
{
    law_refresh_begins_with_all_rows(rows, Step::Continue(run));
    assert(run@ == CatalogView::begun(run@.rows));
    assert(rows@.len() == rows.len());
    if outcome_after(catalog_steps(), run@, replies) == Some(Ok::<(), ErrorView>(())) {
        law_refreshed_cache_is_a_copy(cache, run@.rows, replies);
    }
    if outcome_after(catalog_steps(), run@, replies) matches Some(Err(_)) {
        law_failed_refresh_commits_nothing(run@.rows, replies);
    }
}

/// The row that is to be added is the one that the action names.
pub proof fn law_named_row_is_added(run: &CatalogRefresh, row: Option<&ProviderRow>)
    requires
        run@.wf(),
        call_ensures(CatalogRefresh::row, (run,), row),
    ensures
        match run@.action {
            CatalogAction::Insert(i) => row matches Some(row) && row.id@ == run@.rows[i as int].id
                && row.app_type@ == run@.rows[i as int].app_type && row.name@
                == run@.rows[i as int].name,
            _ => row is None,
        },
{
}

/// As many replies that something was done.
pub open spec fn so_many_done(n: nat) -> Seq<ReplyView> {
    Seq::new(n, |i: int| ReplyView::Done)
}

/// Where nothing goes wrong, a refresh begins a transaction, empties the cache, prepares the
/// statement, adds the rows one by one and commits, and is then over: the actions that are due
/// after so many replies.
pub proof fn law_refresh_gets_done(rows: Seq<ProviderView>, n: nat)
    requires
        rows.len() <= usize::MAX,
        n <= rows.len() + 4,
    ensures
        n < rows.len() + 4 ==> state_after(
            catalog_steps(),
            CatalogView::begun(rows),
            so_many_done(n),
        ) == Some(
            CatalogView {
                rows,
                action: if n == 0 {
                    CatalogAction::Begin
                } else if n == 1 {
                    CatalogAction::Clear
                } else if n == 2 {
                    CatalogAction::PrepareInsert
                } else if n < rows.len() + 3 {
                    CatalogAction::Insert((n - 3) as usize)
                } else {
                    CatalogAction::Commit
                },
            },
        ),
        n == rows.len() + 4 ==> outcome_after(
            catalog_steps(),
            CatalogView::begun(rows),
            so_many_done(n),
        ) == Some(Ok::<(), ErrorView>(())),
    decreases n,
{
    if n > 0 {
        law_refresh_gets_done(rows, (n - 1) as nat);
        assert(so_many_done(n).drop_last() =~= so_many_done((n - 1) as nat));
        assert(so_many_done(n).last() == ReplyView::Done);
    }
}

} // verus!
