use just_merge::pubsub::gitlab::{
    ApprovalResponse, ApprovalsDetails, GitlabError, MergeRequestDetails, User,
};

fn user(id: u64, name: &str) -> User {
    User { id, name: name.to_string(), username: name.to_lowercase() }
}

fn details(state: &str, can: bool, has: bool) -> ApprovalsDetails {
    ApprovalsDetails { state: state.to_string(), user_can_aprove: can, user_has_approved: has }
}

fn refusal(d: &ApprovalsDetails) -> String {
    match d.assert_approvable() {
        Err(GitlabError::Any(m)) => m,
        other => panic!("unexpected {:?}", other),
    }
}

#[test]
fn approvable_when_open_and_allowed() {
    assert!(details("opened", true, false).assert_approvable().unwrap());
}

#[test]
fn refusals_in_order() {
    assert_eq!(refusal(&details("merged", true, false)), "already merged");
    assert_eq!(refusal(&details("merged", false, true)), "already merged");
    assert_eq!(refusal(&details("opened", true, true)), "already approved");
    assert_eq!(refusal(&details("opened", false, true)), "already approved");
    assert_eq!(
        refusal(&details("opened", false, false)),
        "you can't approve, please contact the requester"
    );
}

#[test]
fn merge_request_details_info() {
    let d = MergeRequestDetails {
        author: user(1, "Alice"),
        title: "Fix login".to_string(),
        source_branch: "fix".to_string(),
        target_branch: "main".to_string(),
    };
    assert_eq!(d.info("group/app"), "group/app (Fix login)\n\t[Alice] requests to merge <fix> into <main>");
}

#[test]
fn approval_response_info() {
    let none = ApprovalResponse { state: "opened".to_string(), approved_by: vec![] };
    assert_eq!(none.info("p", 3), "p/3, opened, approvers: ()");
    let one = ApprovalResponse { state: "opened".to_string(), approved_by: vec![user(2, "Bob")] };
    assert_eq!(one.info("p", 3), "p/3, opened, approvers: (Bob)");
    let two = ApprovalResponse {
        state: "merged".to_string(),
        approved_by: vec![user(2, "Bob"), user(3, "Carol")],
    };
    assert_eq!(two.info("g/p", 120), "g/p/120, merged, approvers: (Bob, Carol)");
}

#[test]
fn gitlab_error_messages() {
    assert_eq!(GitlabError::Gitlab("x".into()).message(), "build gitlab client: x");
    assert_eq!(GitlabError::CurrentUserBuilder("x".into()).message(), "build current user: x");
    assert_eq!(
        GitlabError::MergeRequestBuilder("x".into()).message(),
        "build merge request details: x"
    );
    assert_eq!(
        GitlabError::RestAPI { msg: "query".into(), source: "404".into() }.message(),
        "query: 404"
    );
    assert_eq!(
        GitlabError::MergeRequestApprovalsBuilder("x".into()).message(),
        "build merge request approvals: x"
    );
    assert_eq!(
        GitlabError::ApproveMergeRequestBuilder("x".into()).message(),
        "build approve merge request: x"
    );
    assert_eq!(GitlabError::Any("plain".into()).message(), "plain");
}
