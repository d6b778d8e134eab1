//! The requests of the pipeline: the merge-request query and the fetch of one
//! job's trace. A request is described here and sent elsewhere.

use crate::model::JobView;
use crate::model::MergeRequest;
use crate::model::MergeRequestView;
use crate::model::views;
use crate::text::decimal;
use crate::text::decimal_string;
use crate::text::lemma_without_prefix_leading;
use crate::text::strip_prefix;
use crate::text::without_prefix;
use crate::text::text_of;
use crate::text::texts;
use vstd::prelude::*;

verus! {

/// The namespace that a job's global id carries in front of the job's number.
pub const JOB_ID_PREFIX: &'static str = "gid://gitlab/Ci::Build/";

/// The path of the GraphQL endpoint below the base URL.
pub const GRAPHQL_PATH: &'static str = "/api/graphql";

/// The body of the merge-request query: the current user's authored merge
/// requests, each with its project, state, source branch and head pipeline,
/// and of the pipeline's jobs the failed ones.
pub const GRAPHQL_QUERY: &'static str =
    "{\"query\": \"query {currentUser { authoredMergeRequests { nodes { projectId project { id name } state sourceBranch headPipeline { active complete commit { sha } jobs(statuses: [FAILED]) { nodes { id active createdAt } } } } } }}\"}";

/// The content type of the query's body.
pub const JSON_CONTENT_TYPE: &'static str = "application/json";

/// What stands before the token in the authorization header.
pub const BEARER: &'static str = "Bearer ";

/// The path of a project's resources below the base URL, up to the project id.
pub const PROJECTS_PATH: &'static str = "/api/v4/projects/";

/// What stands between the project id and the job id in a trace's path.
pub const JOBS_SEGMENT: &'static str = "/jobs/";

/// What ends a trace's path.
pub const TRACE_SEGMENT: &'static str = "/trace";

#[derive(Debug, Clone, Copy, PartialEq, Eq, Structural)]
pub enum Method {
    Get,
    Post,
}

/// One HTTP request, as the caller is to send it.
pub struct Request {
    pub method: Method,
    pub url: String,
    /// The value of the `Authorization` header.
    pub authorization: String,
    /// The value of the `Content-Type` header, where the request has a body.
    pub content_type: Option<String>,
    pub body: Option<String>,
    /// Whether a redirect is to be followed. A redirect is a sign of a wrong
    /// base URL or token, so no request of this crate follows one.
    pub follow_redirects: bool,
}

pub ghost struct RequestView {
    pub method: Method,
    pub url: Seq<char>,
    pub authorization: Seq<char>,
    pub content_type: Option<Seq<char>>,
    pub body: Option<Seq<char>>,
    pub follow_redirects: bool,
}

impl View for Request {
    type V = RequestView;

    open spec fn view(&self) -> RequestView {
        RequestView {
            method: self.method,
            url: self.url@,
            authorization: self.authorization@,
            content_type: text_of(self.content_type),
            body: text_of(self.body),
            follow_redirects: self.follow_redirects,
        }
    }
}

/// The authorization header for a token.
pub open spec fn bearer(token: Seq<char>) -> Seq<char> {
    BEARER@ + token
}

/// The merge-request query against the API at `url`.
pub open spec fn graphql_query(url: Seq<char>, token: Seq<char>) -> RequestView {
    RequestView {
        method: Method::Post,
        url: url + GRAPHQL_PATH@,
        authorization: bearer(token),
        content_type: Some(JSON_CONTENT_TYPE@),
        body: Some(GRAPHQL_QUERY@),
        follow_redirects: false,
    }
}

/// A job's id as the REST API wants it: a global id without the namespace
/// it begins with, and any other id as it is.
pub open spec fn normalized(job_id: Seq<char>) -> Seq<char> {
    without_prefix(job_id, JOB_ID_PREFIX@)
}

/// The address of a job's trace.
pub open spec fn trace_url(prefix: Seq<char>, project_id: nat, job_id: Seq<char>) -> Seq<char> {
    prefix + PROJECTS_PATH@ + decimal(project_id) + JOBS_SEGMENT@ + normalized(job_id)
        + TRACE_SEGMENT@
}

/// The fetch of the trace at `link`.
pub open spec fn trace_fetch(link: Seq<char>, token: Seq<char>) -> RequestView {
    RequestView {
        method: Method::Get,
        url: link,
        authorization: bearer(token),
        content_type: None,
        body: None,
        follow_redirects: false,
    }
}

/// The addresses of the traces of `jobs`, in the order of `jobs`.
pub open spec fn links_of_jobs(prefix: Seq<char>, project_id: nat, jobs: Seq<JobView>) -> Seq<
    Seq<char>,
> {
    jobs.map_values(|job: JobView| trace_url(prefix, project_id, job.id))
}

/// The addresses of the traces of a merge request's failed jobs. Without a
/// head pipeline there are none.
pub open spec fn links_of_request(prefix: Seq<char>, request: MergeRequestView) -> Seq<Seq<char>> {
    match request.head_pipeline {
        Some(pipe) => links_of_jobs(prefix, request.project_id, pipe.jobs),
        None => Seq::empty(),
    }
}

/// The addresses of the traces of all failed jobs: merge request after merge
/// request, and within one, job after job.
pub open spec fn all_links(prefix: Seq<char>, requests: Seq<MergeRequestView>) -> Seq<Seq<char>> {
    requests.map_values(|request: MergeRequestView| links_of_request(prefix, request)).flatten()
}

/// Whether a status is that of a redirect.
pub open spec fn is_redirect(status: u16) -> bool {
    300 <= status < 400
}

/// What a request has brought, given the status of the answer and its body
/// as text, where it could be read as text: nothing where the answer is a
/// redirect, and the body otherwise.
pub open spec fn answer_outcome(status: u16, body: Option<Seq<char>>) -> Option<Seq<char>> {
    if is_redirect(status) {
        None
    } else {
        body
    }
}

/// The view of a request that may be absent.
pub open spec fn request_of(request: Option<Request>) -> Option<RequestView> {
    match request {
        Some(r) => Some(r@),
        None => None,
    }
}

/// How many jobs a merge request has in its head pipeline.
pub open spec fn job_count(request: MergeRequestView) -> nat {
    match request.head_pipeline {
        Some(pipe) => pipe.jobs.len(),
        None => 0,
    }
}

/// The links of one more merge request follow those of the ones before it.
pub proof fn lemma_all_links_push(
    prefix: Seq<char>,
    requests: Seq<MergeRequestView>,
    next: MergeRequestView,
)
    ensures
        all_links(prefix, requests.push(next)) == all_links(prefix, requests) + links_of_request(
            prefix,
            next,
        ),
{
    let per_request = |request: MergeRequestView| links_of_request(prefix, request);
    assert(requests.push(next).map_values(per_request) =~= requests.map_values(per_request).push(
        per_request(next),
    ));
    requests.map_values(per_request).lemma_flatten_push(per_request(next));
}

/// A job id that does not begin with the namespace is left as it is.
pub proof fn lemma_normalized_plain_id(job_id: Seq<char>)
    requires
        !JOB_ID_PREFIX@.is_prefix_of(job_id),
    ensures
        normalized(job_id) == job_id,
{
}

/// A global id, the namespace and then a number, is turned into the number,
/// whatever the number holds.
pub proof fn lemma_normalized_global_id(number: Seq<char>)
    ensures
        normalized(JOB_ID_PREFIX@ + number) == number,
{
    lemma_without_prefix_leading(JOB_ID_PREFIX@, number);
}

/// The links of no merge requests are none, and a merge request without a
/// head pipeline adds none.
pub proof fn lemma_all_links_without_pipeline(
    prefix: Seq<char>,
    requests: Seq<MergeRequestView>,
    next: MergeRequestView,
)
    requires
        next.head_pipeline is None,
    ensures
        all_links(prefix, Seq::empty()) == Seq::<Seq<char>>::empty(),
        all_links(prefix, requests.push(next)) == all_links(prefix, requests),
{
    lemma_all_links_push(prefix, requests, next);
}

/// A merge request has one link for each job of its head pipeline, in the
/// order of the jobs.
pub proof fn lemma_links_per_job(prefix: Seq<char>, request: MergeRequestView)
    ensures
        links_of_request(prefix, request).len() == job_count(request),
        request.head_pipeline matches Some(pipe) ==> forall|j: int|
            0 <= j < pipe.jobs.len() ==> #[trigger] links_of_request(prefix, request)[j]
                == trace_url(prefix, request.project_id, pipe.jobs[j].id),
{
}

/// Builds the authorization header for a token.
pub fn authorization(token: &str) -> (header: String)
    ensures
        header@ == bearer(token@),
{
    let mut header = BEARER.to_owned();
    header.append(token);
    header
}

/// Describes the merge-request query against the API at `url`: one `POST` of
/// the fixed query document to the GraphQL endpoint, authorized by `token`,
/// with redirects not followed.
pub fn graphql_request(url: &str, token: &str) -> (request: Request)
    ensures
        request@ == graphql_query(url@, token@),
{
    let mut endpoint = url.to_owned();
    endpoint.append(GRAPHQL_PATH);
    Request {
        method: Method::Post,
        url: endpoint,
        authorization: authorization(token),
        content_type: Some(JSON_CONTENT_TYPE.to_owned()),
        body: Some(GRAPHQL_QUERY.to_owned()),
        follow_redirects: false,
    }
}

/// Takes the namespace off the head of a job's global id. An id that does
/// not begin with the namespace comes back as it is.
pub fn normalize_job_id(job_id: &str) -> (id: String)
    ensures
        id@ == normalized(job_id@),
{
    strip_prefix(job_id, JOB_ID_PREFIX)
}

/// Builds the address of a job's trace from the base URL, the project's id
/// and the job's global id.
pub fn trace_link(prefix: &str, project_id: usize, job_id: &str) -> (link: String)
    ensures
        link@ == trace_url(prefix@, project_id as nat, job_id@),
{
    let mut link = prefix.to_owned();
    link.append(PROJECTS_PATH);
    let project = decimal_string(project_id);
    link.append(project.as_str());
    link.append(JOBS_SEGMENT);
    let job = normalize_job_id(job_id);
    link.append(job.as_str());
    link.append(TRACE_SEGMENT);
    link
}

/// Describes the fetch of the trace at `link`: one `GET`, authorized by
/// `token`, with redirects not followed.
pub fn trace_request(link: &str, token: &str) -> (request: Request)
    ensures
        request@ == trace_fetch(link@, token@),
{
    Request {
        method: Method::Get,
        url: link.to_owned(),
        authorization: authorization(token),
        content_type: None,
        body: None,
        follow_redirects: false,
    }
}

/// Decides what a request has brought. `status` is the status of the answer
/// and `body` its body as text, or `None` where it could not be read as text.
///
/// No request of this crate expects a redirect, so a redirect counts as a
/// failed request, whatever body came with it. Any other answer brings its
/// body.
pub fn fetch_outcome(status: u16, body: Option<String>) -> (outcome: Option<String>)
    ensures
        text_of(outcome) == answer_outcome(status, text_of(body)),
        is_redirect(status) ==> outcome is None,
        !is_redirect(status) ==> outcome == body,
{
    if 300 <= status && status < 400 {
        None
    } else {
        body
    }
}

/// Derives the addresses of the traces of all failed jobs of `requests`, in
/// the order of the merge requests and, within one, of its jobs. A merge
/// request without a head pipeline adds none.
pub fn trace_links(requests: &Vec<MergeRequest>, prefix: &str) -> (links: Vec<String>)
    ensures
        texts(links@) == all_links(prefix@, views(requests@)),
{
    let mut links: Vec<String> = Vec::new();
    let mut i: usize = 0;
    while i < requests.len()
        invariant
            i <= requests@.len(),
            texts(links@) == all_links(prefix@, views(requests@).take(i as int)),
        decreases requests@.len() - i,
    {
        let request = &requests[i];
        let ghost before = texts(links@);
        proof {
            assert(views(requests@).take(i + 1) =~= views(requests@).take(i as int).push(
                request@,
            ));
            lemma_all_links_push(prefix@, views(requests@).take(i as int), request@);
        }
        match &request.head_pipeline {
            Some(pipe) => {
                let jobs = &pipe.jobs.nodes;
                let mut j: usize = 0;
                while j < jobs.len()
                    invariant
                        j <= jobs@.len(),
                        pipe@.jobs.len() == jobs@.len(),
                        forall|k: int| 0 <= k < jobs@.len() ==> pipe@.jobs[k] == jobs@[k]@,
                        texts(links@) == before + links_of_jobs(
                            prefix@,
                            request.project_id as nat,
                            pipe@.jobs.take(j as int),
                        ),
                    decreases jobs@.len() - j,
                {
                    let link = trace_link(prefix, request.project_id, jobs[j].id.as_str());
                    proof {
                        let done = links_of_jobs(
                            prefix@,
                            request.project_id as nat,
                            pipe@.jobs.take(j as int),
                        );
                        assert(links_of_jobs(
                            prefix@,
                            request.project_id as nat,
                            pipe@.jobs.take(j + 1),
                        ) =~= done.push(link@));
                        assert((before + done).push(link@) =~= before + done.push(link@));
                    }
                    links.push(link);
                    j += 1;
                }
            },
            None => {},
        }
        i += 1;
    }
    proof {
        assert(views(requests@).take(requests@.len() as int) =~= views(requests@));
    }
    links
}

} // verus!
