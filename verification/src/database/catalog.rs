//! The catalog cache of the log database: a copy of the providers' names.

use vstd::prelude::*;
use vstd::string::*;

use crate::database::run::{
    exchanges, lemma_invariant, lemma_push_contains, outcome_after, state_after, Reply, ReplyView,
    Step, StepView,
};
use crate::error::{database_error, AppError, ErrorView};
use crate::text::phrase_view;

verus! {

/// A provider, as the log database needs to know it.
pub struct ProviderRow {
    pub id: String,
    pub app_type: String,
    pub name: String,
}

/// What a provider row says.
pub struct ProviderView {
    pub id: Seq<char>,
    pub app_type: Seq<char>,
    pub name: Seq<char>,
}

impl View for ProviderRow {
    type V = ProviderView;

    open spec fn view(&self) -> ProviderView {
        ProviderView { id: self.id@, app_type: self.app_type@, name: self.name@ }
    }
}

/// What a list of rows says.
pub open spec fn row_views(rows: Seq<ProviderRow>) -> Seq<ProviderView> {
    rows.map_values(|row: ProviderRow| row@)
}

/// What reading the providers came to.
pub enum CatalogRead {
    /// The rows, in the order in which they came.
    Rows(Vec<ProviderRow>),
    /// The database failed, with this message.
    Failed(String),
    /// It came to an error of the application.
    Refused(AppError),
}

/// What a refresh does next.
#[derive(Clone, Copy, Debug, PartialEq, Eq, Structural)]
pub enum CatalogAction {
    /// Begin a transaction on the log database.
    Begin,
    /// Empty the cache.
    Clear,
    /// Prepare the statement that adds a row.
    PrepareInsert,
    /// Add this row.
    Insert(usize),
    /// Commit the transaction.
    Commit,
}

/// A refresh: the providers, and what is due.
pub struct CatalogRefresh {
    rows: Vec<ProviderRow>,
    action: CatalogAction,
}

/// What a refresh stands at.
pub struct CatalogView {
    pub rows: Seq<ProviderView>,
    pub action: CatalogAction,
}

impl View for CatalogRefresh {
    type V = CatalogView;

    closed spec fn view(&self) -> CatalogView {
        CatalogView { rows: row_views(self.rows@), action: self.action }
    }
}

/// The query for the providers, on the configuration database.
pub fn providers_sql() -> (sql: &'static str)
    ensures
        sql@ == "SELECT id, app_type, name FROM providers"@,
{
    "SELECT id, app_type, name FROM providers"
}

/// The statement of an action, where it is one.
pub open spec fn catalog_statement(action: CatalogAction) -> Option<Seq<char>> {
    match action {
        CatalogAction::Clear => Some("DELETE FROM provider_catalog_cache"@),
        CatalogAction::PrepareInsert => Some(
            "INSERT INTO provider_catalog_cache (provider_id, app_type, name) VALUES (?1, ?2, ?3)"@,
        ),
        _ => None,
    }
}

/// What is said of an action that failed, before the cause.
pub open spec fn catalog_context(action: CatalogAction) -> Seq<char> {
    match action {
        CatalogAction::Begin => "刷新供应商目录失败: "@,
        CatalogAction::Clear => "清理供应商目录缓存失败: "@,
        CatalogAction::PrepareInsert => "准备供应商目录缓存失败: "@,
        CatalogAction::Insert(_) => "写入供应商目录缓存失败: "@,
        CatalogAction::Commit => "提交供应商目录缓存失败: "@,
    }
}

/// What is due once the rows before this one are added.
pub open spec fn from_row(rows: Seq<ProviderView>, index: int) -> CatalogAction {
    if index < rows.len() {
        CatalogAction::Insert(index as usize)
    } else {
        CatalogAction::Commit
    }
}

/// The refresh after the providers were read.
pub open spec fn catalog_start(read: CatalogRead) -> StepView<CatalogView, ()> {
    match read {
        CatalogRead::Rows(rows) => StepView::Continue(CatalogView::begun(row_views(rows@))),
        CatalogRead::Failed(cause) => StepView::Finished(
            Err(ErrorView::Database("读取供应商目录失败: "@ + cause@)),
        ),
        CatalogRead::Refused(error) => StepView::Finished(Err(error@)),
    }
}

/// The refresh after a reply.
pub open spec fn catalog_next(run: CatalogView, reply: ReplyView) -> StepView<CatalogView, ()> {
    let at = |action: CatalogAction| StepView::<CatalogView, ()>::Continue(
        CatalogView { rows: run.rows, action },
    );
    match (run.action, reply) {
        (_, ReplyView::Failed(cause)) => StepView::Finished(
            Err(ErrorView::Database(catalog_context(run.action) + cause)),
        ),
        (_, ReplyView::Refused(error)) => StepView::Finished(Err(error)),
        (CatalogAction::Begin, ReplyView::Done) => at(CatalogAction::Clear),
        (CatalogAction::Clear, ReplyView::Done) => at(CatalogAction::PrepareInsert),
        (CatalogAction::PrepareInsert, ReplyView::Done) => at(from_row(run.rows, 0)),
        (CatalogAction::Insert(i), ReplyView::Done) => at(from_row(run.rows, i + 1)),
        (CatalogAction::Commit, ReplyView::Done) => StepView::Finished(Ok(())),
        _ => at(run.action),
    }
}

impl CatalogAction {
    /// The statement of the action, where it is one.
    pub fn sql(self) -> (sql: Option<&'static str>)
        ensures
            phrase_view(sql) == catalog_statement(self),
    {
        match self {
            CatalogAction::Clear => Some("DELETE FROM provider_catalog_cache"),
            CatalogAction::PrepareInsert => Some(
                "INSERT INTO provider_catalog_cache (provider_id, app_type, name) VALUES (?1, ?2, ?3)",
            ),
            _ => None,
        }
    }

    /// What is said of the action when it failed, before the cause.
    pub fn context(self) -> (context: &'static str)
        ensures
            context@ == catalog_context(self),
    {
        match self {
            CatalogAction::Begin => "刷新供应商目录失败: ",
            CatalogAction::Clear => "清理供应商目录缓存失败: ",
            CatalogAction::PrepareInsert => "准备供应商目录缓存失败: ",
            CatalogAction::Insert(_) => "写入供应商目录缓存失败: ",
            CatalogAction::Commit => "提交供应商目录缓存失败: ",
        }
    }
}

impl CatalogView {
    /// A row that is to be added is one of the rows.
    pub open spec fn wf(self) -> bool {
        self.action matches CatalogAction::Insert(i) ==> i < self.rows.len()
    }

    /// A refresh with these providers that is about to begin.
    pub open spec fn begun(rows: Seq<ProviderView>) -> CatalogView {
        CatalogView { rows, action: CatalogAction::Begin }
    }
}

impl CatalogRefresh {
    /// Begins a refresh with what reading the providers came to.
    pub fn start(read: CatalogRead) -> (step: Step<Self, ()>)
        ensures
            step@ == catalog_start(read),
            step matches Step::Continue(run) ==> run@.wf(),
    {
        match read {
            CatalogRead::Rows(rows) => Step::Continue(
                CatalogRefresh { rows, action: CatalogAction::Begin },
            ),
            CatalogRead::Failed(cause) => Step::Finished(
                Err(database_error("读取供应商目录失败: ", cause.as_str())),
            ),
            CatalogRead::Refused(error) => Step::Finished(Err(error)),
        }
    }

    /// The action that is due.
    pub fn action(&self) -> (action: CatalogAction)
        ensures
            action == self@.action,
    {
        self.action
    }

    /// The row that is to be added now, if one is.
    pub fn row(&self) -> (row: Option<&ProviderRow>)
        requires
            self@.wf(),
        ensures
            match row {
                Some(row) => self@.action matches CatalogAction::Insert(i) && row@
                    == self@.rows[i as int],
                None => !(self@.action is Insert),
            },
    {
        match self.action {
            CatalogAction::Insert(i) => Some(&self.rows[i]),
            _ => None,
        }
    }

    /// Takes in the reply to the action that is due. A reply that does not answer it changes
    /// nothing.
    pub fn next(self, reply: Reply) -> (step: Step<Self, ()>)
        requires
            self@.wf(),
        ensures
            step@ == catalog_next(self@, reply@),
            step matches Step::Continue(run) ==> run@.wf(),
    {
        let action: CatalogAction = match (self.action, reply) {
            (_, Reply::Failed(cause)) => {
                return Step::Finished(
                    Err(database_error(self.action.context(), cause.as_str())),
                );
            },
            (_, Reply::Refused(error)) => {
                return Step::Finished(Err(error));
            },
            (CatalogAction::Begin, Reply::Done) => CatalogAction::Clear,
            (CatalogAction::Clear, Reply::Done) => CatalogAction::PrepareInsert,
            (CatalogAction::PrepareInsert, Reply::Done) => self.starting_at(0),
            (CatalogAction::Insert(i), Reply::Done) => {
                assert(i < self.rows.len());
                self.starting_at(i + 1)
            },
            (CatalogAction::Commit, Reply::Done) => {
                return Step::Finished(Ok(()));
            },
            _ => self.action,
        };
        Step::Continue(CatalogRefresh { rows: self.rows, action })
    }

    /// What is due once the rows before this one are added.
    fn starting_at(&self, index: usize) -> (action: CatalogAction)
        ensures
            action == from_row(self@.rows, index as int),
    {
        if index < self.rows.len() {
            CatalogAction::Insert(index)
        } else {
            CatalogAction::Commit
        }
    }
}

/// The steps of a refresh.
pub open spec fn catalog_steps() -> spec_fn(CatalogView, ReplyView) -> StepView<CatalogView, ()> {
    |run: CatalogView, reply: ReplyView| catalog_next(run, reply)
}

/// The action that is due in a refresh.
pub open spec fn catalog_due() -> spec_fn(CatalogView) -> CatalogAction {
    |run: CatalogView| run.action
}

/// What a refresh with these providers did so far, with the replies.
pub open spec fn catalog_past(
    rows: Seq<ProviderView>,
    replies: Seq<ReplyView>,
) -> Seq<(CatalogAction, ReplyView)> {
    exchanges(catalog_steps(), catalog_due(), CatalogView::begun(rows), replies)
}

/// What the cache holds within the transaction after these exchanges.
pub open spec fn cache_after(
    cache: Seq<ProviderView>,
    rows: Seq<ProviderView>,
    past: Seq<(CatalogAction, ReplyView)>,
) -> Seq<ProviderView>
    decreases past.len(),
{
    if past.len() == 0 {
        cache
    } else {
        let earlier = cache_after(cache, rows, past.drop_last());
        match past.last() {
            (CatalogAction::Clear, ReplyView::Done) => Seq::empty(),
            (CatalogAction::Insert(i), ReplyView::Done) => earlier.push(rows[i as int]),
            _ => earlier,
        }
    }
}

/// The transaction was committed.
pub open spec fn is_committed(past: Seq<(CatalogAction, ReplyView)>) -> bool {
    past.contains((CatalogAction::Commit, ReplyView::Done))
}

spec fn catalog_inv(
    cache: Seq<ProviderView>,
    rows: Seq<ProviderView>,
    run: CatalogView,
    past: Seq<(CatalogAction, ReplyView)>,
) -> bool {
    &&& run.rows == rows
    &&& run.wf()
    &&& !is_committed(past)
    &&& match run.action {
        CatalogAction::PrepareInsert => cache_after(cache, rows, past) == Seq::<ProviderView>::empty(),
        CatalogAction::Insert(i) => cache_after(cache, rows, past) == rows.take(i as int),
        CatalogAction::Commit => cache_after(cache, rows, past) == rows,
        _ => true,
    }
}

proof fn lemma_catalog_inv_kept(
    cache: Seq<ProviderView>,
    rows: Seq<ProviderView>,
    run: CatalogView,
    past: Seq<(CatalogAction, ReplyView)>,
    reply: ReplyView,
)
    requires
        catalog_inv(cache, rows, run, past),
        rows.len() <= usize::MAX,
    ensures
        match catalog_next(run, reply) {
            StepView::Continue(after) => catalog_inv(
                cache,
                rows,
                after,
                past.push((run.action, reply)),
            ),
            StepView::Finished(Ok(_)) => run.action == CatalogAction::Commit && reply
                == ReplyView::Done,
            StepView::Finished(Err(_)) => !is_committed(past.push((run.action, reply))),
        },
{
    let exchange = (run.action, reply);
    let now = past.push(exchange);
    assert(now.drop_last() =~= past);
    if is_committed(now) && exchange != (CatalogAction::Commit, ReplyView::Done) {
        let i = now.index_of((CatalogAction::Commit, ReplyView::Done));
        assert(past[i] == (CatalogAction::Commit, ReplyView::Done));
    }
    assert(rows.take(0) =~= Seq::empty());
    assert(rows.take(rows.len() as int) =~= rows);
    match (run.action, reply) {
        (CatalogAction::Insert(i), ReplyView::Done) => {
            assert(rows.take(i as int).push(rows[i as int]) =~= rows.take(i + 1));
        },
        _ => {},
    }
}

proof fn lemma_catalog_inv(
    cache: Seq<ProviderView>,
    rows: Seq<ProviderView>,
    replies: Seq<ReplyView>,
)
    requires
        rows.len() <= usize::MAX,
    ensures
        match state_after(catalog_steps(), CatalogView::begun(rows), replies) {
            Some(run) => catalog_inv(cache, rows, run, catalog_past(rows, replies)),
            None => true,
        },
{
    let next = catalog_steps();
    let due = catalog_due();
    let inv = |run: CatalogView, past: Seq<(CatalogAction, ReplyView)>|
        catalog_inv(cache, rows, run, past);
    assert forall|run: CatalogView, past: Seq<(CatalogAction, ReplyView)>, reply: ReplyView|
        #![trigger inv(run, past), next(run, reply)]
        inv(run, past) implies match next(run, reply) {
        StepView::Continue(after) => inv(after, past.push((due(run), reply))),
        StepView::Finished(_) => true,
    } by {
        lemma_catalog_inv_kept(cache, rows, run, past, reply);
    }
    lemma_invariant(next, due, CatalogView::begun(rows), inv, replies);
}

/// A refresh that ends well has committed a cache that holds the providers, each once and in
/// their order, and nothing of what it held before.
pub proof fn law_refreshed_cache_is_a_copy(
    cache: Seq<ProviderView>,
    rows: Seq<ProviderView>,
    replies: Seq<ReplyView>,
)
    requires
        rows.len() <= usize::MAX,
        outcome_after(catalog_steps(), CatalogView::begun(rows), replies) == Some(
            Ok::<(), ErrorView>(()),
        ),
    ensures
        cache_after(cache, rows, catalog_past(rows, replies)) == rows,
        is_committed(catalog_past(rows, replies)),
{
    let run = state_after(catalog_steps(), CatalogView::begun(rows), replies.drop_last())->0;
    let past = catalog_past(rows, replies.drop_last());
    lemma_catalog_inv(cache, rows, replies.drop_last());
    lemma_catalog_inv_kept(cache, rows, run, past, replies.last());
    let exchange = (run.action, replies.last());
    lemma_push_contains(past, exchange);
    assert(past.push(exchange).drop_last() =~= past);
    assert(catalog_past(rows, replies) == past.push(exchange));
}

/// A refresh that fails has committed nothing, so that the cache stays as it was.
pub proof fn law_failed_refresh_commits_nothing(
    rows: Seq<ProviderView>,
    replies: Seq<ReplyView>,
)
    requires
        rows.len() <= usize::MAX,
        outcome_after(catalog_steps(), CatalogView::begun(rows), replies) matches Some(Err(_)),
    ensures
        !is_committed(catalog_past(rows, replies)),
{
    let run = state_after(catalog_steps(), CatalogView::begun(rows), replies.drop_last())->0;
    let past = catalog_past(rows, replies.drop_last());
    lemma_catalog_inv(Seq::empty(), rows, replies.drop_last());
    lemma_catalog_inv_kept(Seq::empty(), rows, run, past, replies.last());
    assert(catalog_past(rows, replies) == past.push((run.action, replies.last())));
}

} // verus!
