use logfetcher::filter::filter_candidates;
use logfetcher::filter::get_merge_requests;
use logfetcher::filter::should_include_pipeline;
use logfetcher::filter::OPENED;
use logfetcher::model::Commit;
use logfetcher::model::CurrentUser;
use logfetcher::model::Data;
use logfetcher::model::HeadPipeline;
use logfetcher::model::Job;
use logfetcher::model::JobNodes;
use logfetcher::model::MergeRequest;
use logfetcher::model::MergeRequestNodes;
use logfetcher::model::Project;
use logfetcher::model::Timestamp;
use logfetcher::model::TopData;

fn job(id: &str) -> Job {
    Job {
        id: id.to_string(),
        active: false,
        created_at: Timestamp { seconds: 1_700_000_000, nanoseconds: 0 },
    }
}

fn pipeline(ids: &[&str]) -> HeadPipeline {
    HeadPipeline {
        active: false,
        commit: Commit { sha: "0a1b2c3d".to_string() },
        complete: true,
        jobs: JobNodes { nodes: ids.iter().map(|id| job(id)).collect() },
    }
}

fn request(
    project: &str,
    project_id: usize,
    state: &str,
    branch: &str,
    head_pipeline: Option<HeadPipeline>,
) -> MergeRequest {
    MergeRequest {
        head_pipeline,
        project: Project { name: project.to_string() },
        source_branch: branch.to_string(),
        state: state.to_string(),
        project_id,
    }
}

fn response(nodes: Vec<MergeRequest>) -> TopData {
    TopData {
        data: Data {
            current_user: CurrentUser { authored_merge_requests: MergeRequestNodes { nodes } },
        },
    }
}

fn branches(requests: &[MergeRequest]) -> Vec<String> {
    requests.iter().map(|m| m.source_branch.clone()).collect()
}

#[test]
fn opened_state_is_spelled_as_the_api_spells_it() {
    assert_eq!(OPENED, "opened");
}

#[test]
fn pipeline_with_a_job_is_kept() {
    assert!(should_include_pipeline(&pipeline(&["gid://gitlab/Ci::Build/1"])));
    assert!(should_include_pipeline(&pipeline(&["a", "b", "c"])));
}

#[test]
fn pipeline_without_jobs_is_left_out() {
    assert!(!should_include_pipeline(&pipeline(&[])));
}

#[test]
fn filter_keeps_the_matching_entries_in_their_order() {
    let nodes = vec![
        request("tool", 1, "opened", "first", Some(pipeline(&["a"]))),
        request("tool", 1, "merged", "second", Some(pipeline(&["a"]))),
        request("other", 2, "opened", "third", Some(pipeline(&["a"]))),
        request("tool", 1, "opened", "fourth", Some(pipeline(&["a", "b"]))),
        request("tool", 1, "opened", "fifth", None),
        request("tool", 1, "opened", "sixth", Some(pipeline(&[]))),
        request("tool", 1, "opened", "seventh", Some(pipeline(&["c"]))),
    ];
    let out = filter_candidates(nodes, "tool", None);
    assert_eq!(branches(&out), vec!["first", "fourth", "seventh"]);
    for m in &out {
        assert_eq!(m.project.name, "tool");
        assert_eq!(m.state, "opened");
        assert!(!m.head_pipeline.as_ref().unwrap().jobs.nodes.is_empty());
    }
}

#[test]
fn filter_hands_the_entries_on_unchanged() {
    let nodes = vec![request(
        "tool",
        42,
        "opened",
        "feature",
        Some(pipeline(&["gid://gitlab/Ci::Build/5", "gid://gitlab/Ci::Build/6"])),
    )];
    let out = filter_candidates(nodes, "tool", Some("feature"));
    assert_eq!(out.len(), 1);
    let m = &out[0];
    assert_eq!(m.project_id, 42);
    assert_eq!(m.source_branch, "feature");
    let pipe = m.head_pipeline.as_ref().unwrap();
    assert!(pipe.complete);
    assert!(!pipe.active);
    assert_eq!(pipe.commit.sha, "0a1b2c3d");
    let ids: Vec<&str> = pipe.jobs.nodes.iter().map(|j| j.id.as_str()).collect();
    assert_eq!(ids, vec!["gid://gitlab/Ci::Build/5", "gid://gitlab/Ci::Build/6"]);
    assert_eq!(
        pipe.jobs.nodes[0].created_at,
        Timestamp { seconds: 1_700_000_000, nanoseconds: 0 }
    );
}

#[test]
fn branch_filter_keeps_that_branch_only() {
    let nodes = vec![
        request("tool", 1, "opened", "main", Some(pipeline(&["a"]))),
        request("tool", 1, "opened", "feature", Some(pipeline(&["a"]))),
        request("tool", 1, "opened", "feature-2", Some(pipeline(&["a"]))),
        request("tool", 1, "opened", "feature", Some(pipeline(&["b"]))),
    ];
    let out = filter_candidates(nodes, "tool", Some("feature"));
    assert_eq!(branches(&out), vec!["feature", "feature"]);
    let first_job = &out[0].head_pipeline.as_ref().unwrap().jobs.nodes[0];
    let second_job = &out[1].head_pipeline.as_ref().unwrap().jobs.nodes[0];
    assert_eq!(first_job.id, "a");
    assert_eq!(second_job.id, "b");
}

#[test]
fn without_branch_filter_every_branch_passes() {
    let nodes = vec![
        request("tool", 1, "opened", "main", Some(pipeline(&["a"]))),
        request("tool", 1, "opened", "", Some(pipeline(&["a"]))),
        request("tool", 1, "opened", "feature", Some(pipeline(&["a"]))),
    ];
    let out = filter_candidates(nodes, "tool", None);
    assert_eq!(branches(&out), vec!["main", "", "feature"]);
}

#[test]
fn names_are_compared_exactly() {
    let nodes = vec![
        request("Tool", 1, "opened", "main", Some(pipeline(&["a"]))),
        request("tool", 1, "Opened", "main", Some(pipeline(&["a"]))),
        request("tool", 1, "opened", "Main", Some(pipeline(&["a"]))),
        request("tool ", 1, "opened", "main", Some(pipeline(&["a"]))),
        request("tool", 1, "opened ", "main", Some(pipeline(&["a"]))),
        request("tool", 1, "opened", "mai", Some(pipeline(&["a"]))),
    ];
    let out = filter_candidates(nodes, "tool", Some("main"));
    assert!(out.is_empty());
}

#[test]
fn other_states_are_left_out() {
    let nodes = vec![
        request("tool", 1, "merged", "main", Some(pipeline(&["a"]))),
        request("tool", 1, "closed", "main", Some(pipeline(&["a"]))),
        request("tool", 1, "locked", "main", Some(pipeline(&["a"]))),
        request("tool", 1, "", "main", Some(pipeline(&["a"]))),
    ];
    assert!(filter_candidates(nodes, "tool", None).is_empty());
}

#[test]
fn matches_without_failed_jobs_give_an_empty_result() {
    let nodes = vec![
        request("tool", 1, "opened", "main", Some(pipeline(&[]))),
        request("tool", 1, "opened", "main", None),
        request("tool", 1, "opened", "main", Some(pipeline(&[]))),
    ];
    let found = get_merge_requests(Some(response(nodes)), "tool", Some("main"));
    assert!(found.is_some());
    assert!(found.unwrap().is_empty());
}

#[test]
fn no_response_gives_no_result() {
    assert!(get_merge_requests(None, "tool", None).is_none());
    assert!(get_merge_requests(None, "tool", Some("main")).is_none());
    assert!(get_merge_requests(None, "", None).is_none());
}

#[test]
fn empty_response_gives_an_empty_result() {
    let found = get_merge_requests(Some(response(Vec::new())), "tool", Some("main"));
    assert_eq!(found.map(|out| out.len()), Some(0));
}

#[test]
fn response_without_match_differs_from_no_response() {
    let unmatched = get_merge_requests(
        Some(response(vec![request("other", 1, "opened", "main", Some(pipeline(&["a"])))])),
        "tool",
        None,
    );
    let missing = get_merge_requests(None, "tool", None);
    assert!(unmatched.is_some());
    assert!(missing.is_none());
}

#[test]
fn sample_response_yields_the_one_match() {
    let top = response(vec![
        request(
            "logfetcher",
            7,
            "opened",
            "fix-parser",
            Some(pipeline(&["gid://gitlab/Ci::Build/99"])),
        ),
        request(
            "logfetcher",
            7,
            "merged",
            "fix-parser",
            Some(pipeline(&["gid://gitlab/Ci::Build/98"])),
        ),
        request(
            "website",
            8,
            "opened",
            "fix-parser",
            Some(pipeline(&["gid://gitlab/Ci::Build/97"])),
        ),
        request("logfetcher", 7, "opened", "fix-parser", None),
    ]);
    let found = get_merge_requests(Some(top), "logfetcher", Some("fix-parser")).unwrap();
    assert_eq!(found.len(), 1);
    assert_eq!(found[0].project.name, "logfetcher");
    assert_eq!(found[0].project_id, 7);
    assert_eq!(found[0].state, "opened");
    assert_eq!(found[0].source_branch, "fix-parser");
    let jobs = &found[0].head_pipeline.as_ref().unwrap().jobs.nodes;
    assert_eq!(jobs.len(), 1);
    assert_eq!(jobs[0].id, "gid://gitlab/Ci::Build/99");
}

#[test]
fn into_requests_hands_out_the_nodes_in_order() {
    let top = response(vec![
        request("a", 1, "opened", "one", None),
        request("b", 2, "closed", "two", None),
    ]);
    let nodes = top.into_requests();
    assert_eq!(branches(&nodes), vec!["one", "two"]);
    assert_eq!(nodes[1].project.name, "b");
    assert_eq!(nodes[1].project_id, 2);
}
