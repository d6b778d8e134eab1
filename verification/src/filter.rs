//! The candidate filter: which merge requests of a response are of interest.

use crate::model::HeadPipeline;
use crate::model::HeadPipelineView;
use crate::model::MergeRequest;
use crate::model::MergeRequestView;
use crate::model::TopData;
use crate::model::views;
use crate::text::text_of;
use vstd::prelude::*;

verus! {

/// The lifecycle state of a merge request that is neither merged nor closed.
pub const OPENED: &'static str = "opened";

/// Whether a pipeline has a failed job. A response lists the failed jobs of a
/// pipeline and no others, so a pipeline with any job has a failed one.
pub open spec fn has_failed_jobs(pipe: HeadPipelineView) -> bool {
    pipe.jobs.len() > 0
}

/// Whether a merge request has a head pipeline with a failed job.
pub open spec fn lists_failed_jobs(request: MergeRequestView) -> bool {
    request.head_pipeline matches Some(pipe) && has_failed_jobs(pipe)
}

/// Whether a merge request is of interest: it belongs to the project `repo`,
/// it is open, its head pipeline is there and has a failed job, and its source
/// branch is `branch` where one is asked for.
pub open spec fn is_candidate(
    request: MergeRequestView,
    repo: Seq<char>,
    branch: Option<Seq<char>>,
) -> bool {
    &&& request.project_name == repo
    &&& request.state == OPENED@
    &&& lists_failed_jobs(request)
    &&& branch matches Some(name) ==> request.source_branch == name
}

/// The merge requests of interest among `nodes`, in the order of `nodes`.
pub open spec fn candidates(
    nodes: Seq<MergeRequest>,
    repo: Seq<char>,
    branch: Option<Seq<char>>,
) -> Seq<MergeRequest> {
    nodes.filter(|request: MergeRequest| is_candidate(request@, repo, branch))
}

/// The name that a branch filter asks for, if there is a filter.
pub open spec fn branch_view(branch: Option<&str>) -> Option<Seq<char>> {
    match branch {
        Some(name) => Some(name@),
        None => None,
    }
}

/// Whether `at` lists, in rising order, positions of `from` whose entries are
/// those of `out`, one for one.
pub open spec fn selects(at: Seq<int>, from: Seq<MergeRequest>, out: Seq<MergeRequest>) -> bool {
    &&& at.len() == out.len()
    &&& forall|i: int|
        0 <= i < at.len() ==> 0 <= #[trigger] at[i] < from.len() && out[i] == from[at[i]]
    &&& forall|i: int, j: int| 0 <= i < j < at.len() ==> #[trigger] at[i] < #[trigger] at[j]
}

/// The merge requests of interest are exactly the entries of the input that
/// meet every condition, and they keep the order they had in the input: the
/// positions they were taken from rise, and no position of an entry that
/// meets the conditions is left out.
pub proof fn lemma_candidates_in_order(
    nodes: Seq<MergeRequest>,
    repo: Seq<char>,
    branch: Option<Seq<char>>,
) -> (at: Seq<int>)
    ensures
        selects(at, nodes, candidates(nodes, repo, branch)),
        forall|k: int|
            0 <= k < nodes.len() ==> (at.contains(k) <==> is_candidate(
                (#[trigger] nodes[k])@,
                repo,
                branch,
            )),
    decreases nodes.len(),
{
    reveal(Seq::filter);
    if nodes.len() == 0 {
        Seq::empty()
    } else {
        let front = nodes.drop_last();
        let last = nodes.len() - 1;
        let before = lemma_candidates_in_order(front, repo, branch);
        let at = if is_candidate(nodes.last()@, repo, branch) {
            before.push(last)
        } else {
            before
        };
        assert forall|k: int| 0 <= k < nodes.len() implies (at.contains(k) <==> is_candidate(
            (#[trigger] nodes[k])@,
            repo,
            branch,
        )) by {
            if k < last {
                assert(front[k] == nodes[k]);
                if before.contains(k) {
                    let i = choose|i: int| 0 <= i < before.len() && before[i] == k;
                    assert(at[i] == k);
                }
            } else if is_candidate(nodes.last()@, repo, branch) {
                assert(at[at.len() - 1] == k);
            }
        }
        at
    }
}

/// Every merge request of interest meets the conditions, none that meets
/// them is missing, and none was added.
pub proof fn lemma_candidates_selected(
    nodes: Seq<MergeRequest>,
    repo: Seq<char>,
    branch: Option<Seq<char>>,
)
    ensures
        candidates(nodes, repo, branch).len() <= nodes.len(),
        forall|i: int|
            0 <= i < candidates(nodes, repo, branch).len() ==> is_candidate(
                (#[trigger] candidates(nodes, repo, branch)[i])@,
                repo,
                branch,
            ),
        forall|i: int|
            0 <= i < nodes.len() && is_candidate(nodes[i]@, repo, branch) ==> candidates(
                nodes,
                repo,
                branch,
            ).contains(#[trigger] nodes[i]),
{
    let out = candidates(nodes, repo, branch);
    let at = lemma_candidates_in_order(nodes, repo, branch);
    assert forall|i: int|
        0 <= i < nodes.len() && is_candidate(nodes[i]@, repo, branch) implies out.contains(
        #[trigger] nodes[i],
    ) by {
        let j = choose|j: int| 0 <= j < at.len() && at[j] == i;
        assert(out[j] == nodes[i]);
    }
    nodes.lemma_filter_len(|request: MergeRequest| is_candidate(request@, repo, branch));
}

/// Selecting commutes with taking views: the views of the merge requests of
/// interest are the views that meet the conditions, in the order of the input.
pub proof fn lemma_candidates_views(
    nodes: Seq<MergeRequest>,
    repo: Seq<char>,
    branch: Option<Seq<char>>,
)
    ensures
        views(candidates(nodes, repo, branch)) == views(nodes).filter(
            |request: MergeRequestView| is_candidate(request, repo, branch),
        ),
    decreases nodes.len(),
{
    reveal(Seq::filter);
    if nodes.len() > 0 {
        let front = nodes.drop_last();
        lemma_candidates_views(front, repo, branch);
        assert(views(nodes).drop_last() =~= views(front));
    }
}

/// Where no merge request has a pipeline with a failed job, none is of
/// interest, whatever its project, state and branch.
pub proof fn lemma_no_failed_jobs_no_candidates(
    nodes: Seq<MergeRequest>,
    repo: Seq<char>,
    branch: Option<Seq<char>>,
)
    requires
        forall|i: int| 0 <= i < nodes.len() ==> !lists_failed_jobs((#[trigger] nodes[i])@),
    ensures
        candidates(nodes, repo, branch) == Seq::<MergeRequest>::empty(),
{
    let at = lemma_candidates_in_order(nodes, repo, branch);
    if at.len() > 0 {
        assert(is_candidate(nodes[at[0]]@, repo, branch));
    }
}

/// Whether a pipeline has a failed job.
pub fn should_include_pipeline(pipe: &HeadPipeline) -> (kept: bool)
    ensures
        kept == has_failed_jobs(pipe@),
{
    pipe.jobs.nodes.len() > 0
}

/// Whether a merge request is of interest. `repo` and `branch` are the names
/// to compare with.
fn is_wanted(request: &MergeRequest, repo: &String, branch: &Option<String>) -> (wanted: bool)
    ensures
        wanted == is_candidate(request@, repo@, text_of(*branch)),
{
    let opened = OPENED.to_owned();
    if !(request.project.name == *repo) {
        return false;
    }
    if !(request.state == opened) {
        return false;
    }
    let has_jobs = match &request.head_pipeline {
        Some(pipe) => should_include_pipeline(pipe),
        None => false,
    };
    if !has_jobs {
        return false;
    }
    match branch {
        Some(name) => request.source_branch == *name,
        None => true,
    }
}

/// Selects the merge requests of interest, keeping their order.
pub fn filter_candidates(nodes: Vec<MergeRequest>, repo: &str, branch: Option<&str>) -> (out: Vec<
    MergeRequest,
>)
    ensures
        out@ == candidates(nodes@, repo@, branch_view(branch)),
        out@.len() <= nodes@.len(),
        forall|i: int|
            0 <= i < out@.len() ==> is_candidate(#[trigger] out@[i]@, repo@, branch_view(branch)),
        forall|i: int|
            0 <= i < nodes@.len() && is_candidate(nodes@[i]@, repo@, branch_view(branch))
                ==> out@.contains(#[trigger] nodes@[i]),
{
    let repo_name = repo.to_owned();
    let branch_name = match branch {
        Some(name) => Some(name.to_owned()),
        None => None,
    };
    let ghost wanted = |request: MergeRequest|
        is_candidate(request@, repo@, branch_view(branch));
    let mut out: Vec<MergeRequest> = Vec::new();
    proof {
        reveal(Seq::filter);
    }
    for request in it: nodes.into_iter()
        invariant
            it.seq() == nodes@,
            repo_name@ == repo@,
            branch_view(branch) == text_of(branch_name),
            wanted == |request: MergeRequest| is_candidate(request@, repo@, branch_view(branch)),
            out@ == it.seq().take(it.index() as int).filter(wanted),
    {
        proof {
            reveal(Seq::filter);
            let seen = it.seq().take(it.index() + 1);
            assert(seen.drop_last() =~= it.seq().take(it.index() as int));
        }
        if is_wanted(&request, &repo_name, &branch_name) {
            out.push(request);
        }
    }
    proof {
        assert(nodes@.take(nodes@.len() as int) =~= nodes@);
        lemma_candidates_selected(nodes@, repo@, branch_view(branch));
    }
    out
}

/// The merge requests of interest in a response. `response` is the decoded
/// response, or `None` where no response came or where it did not decode.
///
/// Without a response there is no result. With one there is always a result,
/// which is empty where no merge request is of interest.
pub fn get_merge_requests(response: Option<TopData>, repo: &str, branch: Option<&str>) -> (found:
    Option<Vec<MergeRequest>>)
    ensures
        response is None <==> found is None,
        response matches Some(top) ==> found matches Some(out) && out@ == candidates(
            top.requests(),
            repo@,
            branch_view(branch),
        ),
        found matches Some(out) ==> forall|i: int|
            0 <= i < out@.len() ==> is_candidate(#[trigger] out@[i]@, repo@, branch_view(branch)),
{
    match response {
        Some(top) => Some(filter_candidates(top.into_requests(), repo, branch)),
        None => None,
    }
}

} // verus!
