//! Procedures on the databases, as runs: a run names the action that is due, takes in the
//! reply to it, and either goes on or is finished.

use vstd::prelude::*;

use crate::error::{result_view, AppError, ErrorView};

verus! {

/// The reply to an action.
pub enum Reply {
    /// It was done.
    Done,
    /// It was done, with a yes or no.
    Flag(bool),
    /// The number of a pragma: a `user_version` or an `auto_vacuum` mode.
    Pragma(i32),
    /// A number of rows or tables.
    Count(i64),
    /// A text that was asked for.
    Text(String),
    /// The database failed, with this message.
    Failed(String),
    /// It came to an error of the application.
    Refused(AppError),
}

/// What a reply says.
pub enum ReplyView {
    Done,
    Flag(bool),
    Pragma(i32),
    Count(i64),
    Text(Seq<char>),
    Failed(Seq<char>),
    Refused(ErrorView),
}

impl View for Reply {
    type V = ReplyView;

    open spec fn view(&self) -> ReplyView {
        match self {
            Reply::Done => ReplyView::Done,
            Reply::Flag(flag) => ReplyView::Flag(*flag),
            Reply::Pragma(number) => ReplyView::Pragma(*number),
            Reply::Count(number) => ReplyView::Count(*number),
            Reply::Text(text) => ReplyView::Text(text@),
            Reply::Failed(message) => ReplyView::Failed(message@),
            Reply::Refused(error) => ReplyView::Refused(error@),
        }
    }
}

/// One of the two databases.
#[derive(Clone, Copy, Debug, PartialEq, Eq, Structural)]
pub enum Store {
    /// The configuration.
    Config,
    /// The logs.
    Logs,
}

/// What a run comes to after a reply.
pub enum Step<R, T> {
    /// It goes on, with another action due.
    Continue(R),
    /// It is over.
    Finished(Result<T, AppError>),
}

/// A step with its run and its error viewed.
pub enum StepView<S, T> {
    Continue(S),
    Finished(Result<T, ErrorView>),
}

impl<R: View, T> View for Step<R, T> {
    type V = StepView<R::V, T>;

    open spec fn view(&self) -> StepView<R::V, T> {
        match self {
            Step::Continue(run) => StepView::Continue(run@),
            Step::Finished(result) => StepView::Finished(result_view(*result)),
        }
    }
}

/// Where a run stands after these replies, if it still goes on.
pub open spec fn state_after<S, T>(
    next: spec_fn(S, ReplyView) -> StepView<S, T>,
    start: S,
    replies: Seq<ReplyView>,
) -> Option<S>
    decreases replies.len(),
{
    if replies.len() == 0 {
        Some(start)
    } else {
        match state_after(next, start, replies.drop_last()) {
            Some(state) => match next(state, replies.last()) {
                StepView::Continue(state) => Some(state),
                StepView::Finished(_) => None,
            },
            None => None,
        }
    }
}

/// What a run comes to with the last of these replies, if that is where it ends.
pub open spec fn outcome_after<S, T>(
    next: spec_fn(S, ReplyView) -> StepView<S, T>,
    start: S,
    replies: Seq<ReplyView>,
) -> Option<Result<T, ErrorView>> {
    if replies.len() == 0 {
        None
    } else {
        match state_after(next, start, replies.drop_last()) {
            Some(state) => match next(state, replies.last()) {
                StepView::Continue(_) => None,
                StepView::Finished(result) => Some(result),
            },
            None => None,
        }
    }
}

/// The actions of a run, each with the reply to it, as far as these replies go.
pub open spec fn exchanges<S, T, A>(
    next: spec_fn(S, ReplyView) -> StepView<S, T>,
    due: spec_fn(S) -> A,
    start: S,
    replies: Seq<ReplyView>,
) -> Seq<(A, ReplyView)>
    decreases replies.len(),
{
    if replies.len() == 0 {
        Seq::empty()
    } else {
        let earlier = exchanges(next, due, start, replies.drop_last());
        match state_after(next, start, replies.drop_last()) {
            Some(state) => earlier.push((due(state), replies.last())),
            None => earlier,
        }
    }
}

/// An invariant of the state and of what was exchanged so far: it holds at the start, and every
/// reply that lets the run go on keeps it. So it holds wherever the run stands.
pub proof fn lemma_invariant<S, T, A>(
    next: spec_fn(S, ReplyView) -> StepView<S, T>,
    due: spec_fn(S) -> A,
    start: S,
    inv: spec_fn(S, Seq<(A, ReplyView)>) -> bool,
    replies: Seq<ReplyView>,
)
    requires
        inv(start, Seq::empty()),
        forall|state: S, past: Seq<(A, ReplyView)>, reply: ReplyView|
            #![trigger inv(state, past), next(state, reply)]
            inv(state, past) ==> match next(state, reply) {
                StepView::Continue(after) => inv(after, past.push((due(state), reply))),
                StepView::Finished(_) => true,
            },
    ensures
        match state_after(next, start, replies) {
            Some(state) => inv(state, exchanges(next, due, start, replies)),
            None => true,
        },
    decreases replies.len(),
{
    if replies.len() > 0 {
        lemma_invariant(next, due, start, inv, replies.drop_last());
        match state_after(next, start, replies.drop_last()) {
            Some(state) => {
                let past = exchanges(next, due, start, replies.drop_last());
                assert(inv(state, past));
                let step = next(state, replies.last());
            },
            None => {},
        }
    }
}

/// A run ends once: after the reply with which it ended, further replies come to nothing.
pub proof fn lemma_one_outcome<S, T>(
    next: spec_fn(S, ReplyView) -> StepView<S, T>,
    start: S,
    replies: Seq<ReplyView>,
    m: int,
    n: int,
)
    requires
        0 <= m < n <= replies.len(),
        outcome_after(next, start, replies.take(m)) is Some,
    ensures
        outcome_after(next, start, replies.take(n)) is None,
        state_after(next, start, replies.take(n)) is None,
    decreases n,
{
    assert(replies.take(n).drop_last() =~= replies.take(n - 1));
    if n - 1 > m {
        lemma_one_outcome(next, start, replies, m, n - 1);
    }
}

/// What is in a sequence stays in it when more comes.
pub proof fn lemma_push_contains<A>(past: Seq<A>, exchange: A)
    ensures
        past.push(exchange).contains(exchange),
        forall|earlier: A| past.contains(earlier) ==> #[trigger] past.push(exchange).contains(earlier),
{
    assert(past.push(exchange)[past.len() as int] == exchange);
    assert forall|earlier: A| past.contains(earlier) implies #[trigger] past.push(exchange).contains(
        earlier,
    ) by {
        let i = past.index_of(earlier);
        assert(past.push(exchange)[i] == earlier);
    }
}

} // verus!
