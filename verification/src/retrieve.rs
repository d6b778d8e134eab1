//! The trace retriever: which trace to fetch next, and what becomes of the
//! retrieval once a fetch has succeeded or failed.
//!
//! The traces are fetched one at a time, in the order of their links. The
//! caller sends each request and reports what came of it; the first failure
//! ends the retrieval without a result.

use crate::model::MergeRequest;
use crate::model::views;
use crate::request::all_links;
use crate::request::answer_outcome;
use crate::request::is_redirect;
use crate::request::request_of;
use crate::request::trace_fetch;
use crate::request::trace_links;
use crate::request::trace_request;
use crate::request::Request;
use crate::request::RequestView;
use crate::text::text_of;
use crate::text::texts;
use crate::text::texts_of;
use vstd::prelude::*;

verus! {

/// A retrieval under way.
pub struct TraceRetrieval {
    /// The addresses of all traces, in the order they are fetched in.
    links: Vec<String>,
    token: String,
    /// The traces fetched so far: `logs[i]` came from `links[i]`.
    logs: Vec<String>,
    failed: bool,
}

pub ghost struct TraceRetrievalView {
    pub links: Seq<Seq<char>>,
    pub token: Seq<char>,
    pub logs: Seq<Seq<char>>,
    pub failed: bool,
}

impl TraceRetrievalView {
    /// A retrieval before its first fetch.
    pub open spec fn begin(links: Seq<Seq<char>>, token: Seq<char>) -> TraceRetrievalView {
        TraceRetrievalView { links, token, logs: Seq::empty(), failed: false }
    }

    /// No more traces are recorded than there are links.
    pub open spec fn wf(self) -> bool {
        self.logs.len() <= self.links.len()
    }

    /// Whether a fetch is still to be made.
    pub open spec fn pending(self) -> bool {
        !self.failed && self.logs.len() < self.links.len()
    }

    /// The request to send next, if a fetch is still to be made: the fetch of
    /// the first trace not yet recorded.
    pub open spec fn next_request(self) -> Option<RequestView> {
        if self.pending() {
            Some(trace_fetch(self.links[self.logs.len() as int], self.token))
        } else {
            None
        }
    }

    /// The retrieval after the outcome of the request sent last: the trace's
    /// body, or `None` where the fetch failed. An outcome that no fetch was
    /// pending for changes nothing.
    pub open spec fn record(self, outcome: Option<Seq<char>>) -> TraceRetrievalView {
        if !self.pending() {
            self
        } else {
            match outcome {
                Some(body) => TraceRetrievalView { logs: self.logs.push(body), ..self },
                None => TraceRetrievalView { failed: true, ..self },
            }
        }
    }

    /// The retrieval after a series of outcomes, the earliest first.
    pub open spec fn replay(self, outcomes: Seq<Option<Seq<char>>>) -> TraceRetrievalView
        decreases outcomes.len(),
    {
        if outcomes.len() == 0 {
            self
        } else {
            self.replay(outcomes.drop_last()).record(outcomes.last())
        }
    }

    /// What the retrieval has to give: all traces, in the order of their
    /// links, once each has been fetched; nothing before that, and nothing
    /// after a failure.
    pub open spec fn result(self) -> Option<Seq<Seq<char>>> {
        if !self.failed && self.logs.len() == self.links.len() {
            Some(self.logs)
        } else {
            None
        }
    }
}

/// Whether every fetch of a series succeeded.
pub open spec fn all_fetched(outcomes: Seq<Option<Seq<char>>>) -> bool {
    forall|i: int| 0 <= i < outcomes.len() ==> (#[trigger] outcomes[i]) is Some
}

/// The bodies that a series of successful fetches brought, in its order.
pub open spec fn bodies(outcomes: Seq<Option<Seq<char>>>) -> Seq<Seq<char>> {
    outcomes.map_values(|outcome: Option<Seq<char>>| outcome->0)
}

/// An outcome leaves the links and the token as they are, adds at most one
/// trace, and keeps a retrieval well formed. A failed retrieval stays as it
/// is.
pub proof fn lemma_record_keeps(state: TraceRetrievalView, outcome: Option<Seq<char>>)
    ensures
        state.record(outcome).links == state.links,
        state.record(outcome).token == state.token,
        state.record(outcome).logs.len() <= state.logs.len() + 1,
        state.wf() ==> state.record(outcome).wf(),
        state.failed ==> state.record(outcome) == state,
{
}

/// A series of outcomes leaves the links and the token as they are, adds at
/// most one trace for each outcome, and keeps a retrieval well formed. A
/// failed retrieval stays as it is.
pub proof fn lemma_replay_keeps(state: TraceRetrievalView, outcomes: Seq<Option<Seq<char>>>)
    ensures
        state.replay(outcomes).links == state.links,
        state.replay(outcomes).token == state.token,
        state.replay(outcomes).logs.len() <= state.logs.len() + outcomes.len(),
        state.wf() ==> state.replay(outcomes).wf(),
        state.failed ==> state.replay(outcomes) == state,
    decreases outcomes.len(),
{
    if outcomes.len() > 0 {
        lemma_replay_keeps(state, outcomes.drop_last());
        lemma_record_keeps(state.replay(outcomes.drop_last()), outcomes.last());
    }
}

/// While every fetch succeeds, the traces are asked for in the order of
/// their links and recorded in that order: after `k` successes the next
/// request is the fetch of link `k`, and after the last one the result is
/// the bodies, in the order they were fetched in.
pub proof fn lemma_fetch_order(
    links: Seq<Seq<char>>,
    token: Seq<char>,
    outcomes: Seq<Option<Seq<char>>>,
)
    requires
        outcomes.len() <= links.len(),
        all_fetched(outcomes),
    ensures
        ({
            let state = TraceRetrievalView::begin(links, token).replay(outcomes);
            &&& state.links == links
            &&& state.token == token
            &&& state.logs == bodies(outcomes)
            &&& !state.failed
            &&& outcomes.len() < links.len() ==> state.result() is None && state.next_request()
                == Some(trace_fetch(links[outcomes.len() as int], token))
            &&& outcomes.len() == links.len() ==> state.result() == Some(bodies(outcomes))
                && state.next_request() is None
        }),
    decreases outcomes.len(),
{
    if outcomes.len() > 0 {
        let earlier = outcomes.drop_last();
        assert(all_fetched(earlier));
        lemma_fetch_order(links, token, earlier);
    }
}

/// One failed fetch ends the retrieval with nothing: whatever was fetched
/// before it and whatever is reported after it, there is no result and no
/// further request.
pub proof fn lemma_failure_gives_nothing(
    links: Seq<Seq<char>>,
    token: Seq<char>,
    outcomes: Seq<Option<Seq<char>>>,
    at: int,
)
    requires
        0 <= at < outcomes.len(),
        at < links.len(),
        outcomes[at] is None,
    ensures
        ({
            let state = TraceRetrievalView::begin(links, token).replay(outcomes);
            &&& state.failed
            &&& state.result() is None
            &&& state.next_request() is None
        }),
    decreases outcomes.len(),
{
    let earlier = outcomes.drop_last();
    lemma_replay_keeps(TraceRetrievalView::begin(links, token), earlier);
    if at < outcomes.len() - 1 {
        lemma_failure_gives_nothing(links, token, earlier, at);
    }
}

/// A redirect in answer to a fetch ends the retrieval with nothing, whatever
/// body came with it.
pub proof fn lemma_redirect_gives_nothing(
    state: TraceRetrievalView,
    status: u16,
    body: Option<Seq<char>>,
)
    requires
        state.pending(),
        is_redirect(status),
    ensures
        state.record(answer_outcome(status, body)).failed,
        state.record(answer_outcome(status, body)).result() is None,
        state.record(answer_outcome(status, body)).next_request() is None,
{
}

/// A retrieval that is ended while a fetch is still to be made gives nothing.
pub proof fn lemma_early_end_gives_nothing(state: TraceRetrievalView)
    requires
        state.pending(),
    ensures
        state.result() is None,
{
}

impl View for TraceRetrieval {
    type V = TraceRetrievalView;

    closed spec fn view(&self) -> TraceRetrievalView {
        TraceRetrievalView {
            links: texts(self.links@),
            token: self.token@,
            logs: texts(self.logs@),
            failed: self.failed,
        }
    }
}

impl TraceRetrieval {
    #[verifier::type_invariant]
    spec fn well_formed(&self) -> bool {
        self.logs@.len() <= self.links@.len()
    }

    /// Starts a retrieval of the traces at `links`.
    pub fn new(links: Vec<String>, token: &str) -> (retrieval: TraceRetrieval)
        ensures
            retrieval@ == TraceRetrievalView::begin(texts(links@), token@),
    {
        let retrieval = TraceRetrieval {
            links,
            token: token.to_owned(),
            logs: Vec::new(),
            failed: false,
        };
        proof {
            assert(texts(retrieval.logs@) =~= Seq::<Seq<char>>::empty());
        }
        retrieval
    }

    /// The request to send next, or `None` where the retrieval is over.
    pub fn next_request(&self) -> (request: Option<Request>)
        ensures
            self@.wf(),
            request_of(request) == self@.next_request(),
    {
        proof {
            use_type_invariant(self);
        }
        if self.failed || self.logs.len() >= self.links.len() {
            None
        } else {
            Some(trace_request(self.links[self.logs.len()].as_str(), self.token.as_str()))
        }
    }

    /// Takes note of what came of the request sent last: the trace's body, or
    /// `None` where the fetch failed.
    pub fn record(self, outcome: Option<String>) -> (after: TraceRetrieval)
        ensures
            after@ == self@.record(text_of(outcome)),
    {
        proof {
            use_type_invariant(&self);
        }
        if self.failed || self.logs.len() >= self.links.len() {
            return self;
        }
        let TraceRetrieval { links, token, logs, failed } = self;
        match outcome {
            Some(body) => {
                let mut logs = logs;
                proof {
                    assert(texts(logs@.push(body)) =~= texts(logs@).push(body@));
                }
                logs.push(body);
                TraceRetrieval { links, token, logs, failed }
            },
            None => TraceRetrieval { links, token, logs, failed: true },
        }
    }

    /// Ends the retrieval and hands out the traces where each one has been
    /// fetched. A retrieval that has failed, or that is ended early, gives
    /// nothing.
    pub fn finish(self) -> (logs: Option<Vec<String>>)
        ensures
            texts_of(logs) == self@.result(),
    {
        proof {
            use_type_invariant(&self);
        }
        if self.failed || self.logs.len() < self.links.len() {
            None
        } else {
            Some(self.logs)
        }
    }
}

/// Plans the retrieval of the traces of all failed jobs of the given merge
/// requests from the API at `prefix`. The retrieval asks for one trace after
/// the other, merge request after merge request and job after job.
pub fn get_logs(failed_jobs_from_mrs: Vec<MergeRequest>, prefix: &str, token: &str) -> (retrieval:
    TraceRetrieval)
    ensures
        retrieval@ == TraceRetrievalView::begin(
            all_links(prefix@, views(failed_jobs_from_mrs@)),
            token@,
        ),
{
    let links = trace_links(&failed_jobs_from_mrs, prefix);
    TraceRetrieval::new(links, token)
}

} // verus!
