//! The decoded result tree of the merge-request query, with a mathematical
//! view of each node.

use vstd::prelude::*;

verus! {

/// A point on the UTC time line: whole seconds since the Unix epoch, and the
/// nanoseconds that have passed since that second began.
#[derive(Debug, Clone, Copy, PartialEq, Eq, Structural)]
pub struct Timestamp {
    pub seconds: i64,
    pub nanoseconds: u32,
}

/// The commit a pipeline ran on.
#[derive(Debug)]
pub struct Commit {
    pub sha: String,
}

impl View for Commit {
    type V = Seq<char>;

    /// A commit is its hash.
    open spec fn view(&self) -> Seq<char> {
        self.sha@
    }
}

/// One job of a pipeline. The query asks for failed jobs only, so every job
/// in a decoded response is a failed one.
#[derive(Debug)]
pub struct Job {
    /// The job's global id, a compound resource path.
    pub id: String,
    pub active: bool,
    pub created_at: Timestamp,
}

pub ghost struct JobView {
    pub id: Seq<char>,
    pub active: bool,
    pub created_at: Timestamp,
}

impl View for Job {
    type V = JobView;

    open spec fn view(&self) -> JobView {
        JobView { id: self.id@, active: self.active, created_at: self.created_at }
    }
}

/// The jobs of a pipeline, in the order the response lists them.
#[derive(Debug)]
pub struct JobNodes {
    pub nodes: Vec<Job>,
}

impl View for JobNodes {
    type V = Seq<JobView>;

    open spec fn view(&self) -> Seq<JobView> {
        self.nodes@.map_values(|j: Job| j@)
    }
}

/// The latest pipeline on the head commit of a merge request.
#[derive(Debug)]
pub struct HeadPipeline {
    pub active: bool,
    pub commit: Commit,
    pub complete: bool,
    pub jobs: JobNodes,
}

pub ghost struct HeadPipelineView {
    pub active: bool,
    pub sha: Seq<char>,
    pub complete: bool,
    pub jobs: Seq<JobView>,
}

impl View for HeadPipeline {
    type V = HeadPipelineView;

    open spec fn view(&self) -> HeadPipelineView {
        HeadPipelineView {
            active: self.active,
            sha: self.commit@,
            complete: self.complete,
            jobs: self.jobs@,
        }
    }
}

/// The project a merge request belongs to.
#[derive(Debug)]
pub struct Project {
    pub name: String,
}

impl View for Project {
    type V = Seq<char>;

    /// A project is its name.
    open spec fn view(&self) -> Seq<char> {
        self.name@
    }
}

/// One merge request that the current user has authored.
#[derive(Debug)]
pub struct MergeRequest {
    /// Absent while no pipeline has run for the merge request.
    pub head_pipeline: Option<HeadPipeline>,
    pub project: Project,
    pub source_branch: String,
    /// The lifecycle state, `opened` until the merge request is merged or closed.
    pub state: String,
    pub project_id: usize,
}

pub ghost struct MergeRequestView {
    pub head_pipeline: Option<HeadPipelineView>,
    pub project_name: Seq<char>,
    pub source_branch: Seq<char>,
    pub state: Seq<char>,
    pub project_id: nat,
}

impl View for MergeRequest {
    type V = MergeRequestView;

    open spec fn view(&self) -> MergeRequestView {
        MergeRequestView {
            head_pipeline: match self.head_pipeline {
                Some(pipe) => Some(pipe@),
                None => None,
            },
            project_name: self.project@,
            source_branch: self.source_branch@,
            state: self.state@,
            project_id: self.project_id as nat,
        }
    }
}

/// The views of a sequence of merge requests, one for one.
pub open spec fn views(requests: Seq<MergeRequest>) -> Seq<MergeRequestView> {
    requests.map_values(|m: MergeRequest| m@)
}

/// The merge requests of a user, in the order the response lists them.
#[derive(Debug)]
pub struct MergeRequestNodes {
    pub nodes: Vec<MergeRequest>,
}

/// What the response says of the user the token belongs to.
#[derive(Debug)]
pub struct CurrentUser {
    pub authored_merge_requests: MergeRequestNodes,
}

/// The payload of a response.
#[derive(Debug)]
pub struct Data {
    pub current_user: CurrentUser,
}

/// A decoded response to the merge-request query.
#[derive(Debug)]
pub struct TopData {
    pub data: Data,
}

impl TopData {
    /// The merge requests that the response lists.
    pub open spec fn requests(&self) -> Seq<MergeRequest> {
        self.data.current_user.authored_merge_requests.nodes@
    }

    /// Takes the merge requests out of the response.
    pub fn into_requests(self) -> (nodes: Vec<MergeRequest>)
        ensures
            nodes@ == self.requests(),
    {
        self.data.current_user.authored_merge_requests.nodes
    }
}

} // verus!
