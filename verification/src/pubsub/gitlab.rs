//! What the client keeps of GitLab: users, merge request summaries, the
//! approval state of a merge request, and the errors of the GitLab side.
use vstd::prelude::*;

use crate::text::{
    decimal, lemma_parse_decimal, push_decimal, push_str, spec_parse_u64, starts_with, str_eq,
    ParseIntErrorKind,
};

verus! {

/// A GitLab user: its unique id, its display name and its login name.
#[derive(Debug, Clone)]
pub struct User {
    pub id: u64,
    pub name: String,
    pub username: String,
}

/// Errors of the GitLab side. Each holds the text of its cause.
#[derive(Debug)]
pub enum GitlabError {
    Gitlab(String),
    CurrentUserBuilder(String),
    MergeRequestBuilder(String),
    RestAPI { msg: String, source: String },
    MergeRequestApprovalsBuilder(String),
    ApproveMergeRequestBuilder(String),
    Any(String),
}

/// The text that describes an error of the GitLab side.
pub open spec fn gitlab_error_text(e: GitlabError) -> Seq<char> {
    match e {
        GitlabError::Gitlab(c) => "build gitlab client: "@ + c@,
        GitlabError::CurrentUserBuilder(c) => "build current user: "@ + c@,
        GitlabError::MergeRequestBuilder(c) => "build merge request details: "@ + c@,
        GitlabError::RestAPI { msg, source } => msg@ + ": "@ + source@,
        GitlabError::MergeRequestApprovalsBuilder(c) => "build merge request approvals: "@ + c@,
        GitlabError::ApproveMergeRequestBuilder(c) => "build approve merge request: "@ + c@,
        GitlabError::Any(c) => c@,
    }
}

impl GitlabError {
    /// The text that describes this error.
    pub fn message(&self) -> (r: String)
        ensures
            r@ == gitlab_error_text(*self),
    {
        let mut r = String::new();
        match self {
            GitlabError::Gitlab(c) => {
                push_str(&mut r, "build gitlab client: ");
                push_str(&mut r, c.as_str());
            },
            GitlabError::CurrentUserBuilder(c) => {
                push_str(&mut r, "build current user: ");
                push_str(&mut r, c.as_str());
            },
            GitlabError::MergeRequestBuilder(c) => {
                push_str(&mut r, "build merge request details: ");
                push_str(&mut r, c.as_str());
            },
            GitlabError::RestAPI { msg, source } => {
                push_str(&mut r, msg.as_str());
                push_str(&mut r, ": ");
                push_str(&mut r, source.as_str());
            },
            GitlabError::MergeRequestApprovalsBuilder(c) => {
                push_str(&mut r, "build merge request approvals: ");
                push_str(&mut r, c.as_str());
            },
            GitlabError::ApproveMergeRequestBuilder(c) => {
                push_str(&mut r, "build approve merge request: ");
                push_str(&mut r, c.as_str());
            },
            GitlabError::Any(c) => {
                push_str(&mut r, c.as_str());
            },
        }
        r
    }
}

/// The approval state of a merge request as GitLab reports it to the
/// current user.
#[derive(Debug)]
pub struct ApprovalsDetails {
    pub state: String,
    pub user_can_aprove: bool,
    pub user_has_approved: bool,
}

/// Whether the current user may approve: not when the merge request is
/// merged, nor when the user has approved it already, nor when GitLab does
/// not let the user approve. The error holds the reason, checked in that order.
pub open spec fn approvable(state: Seq<char>, user_can_aprove: bool, user_has_approved: bool) -> Result<
    bool,
    Seq<char>,
> {
    if state == "merged"@ {
        Err("already merged"@)
    } else if user_has_approved {
        Err("already approved"@)
    } else if !user_can_aprove {
        Err("you can't approve, please contact the requester"@)
    } else {
        Ok(true)
    }
}

impl ApprovalsDetails {
    /// `Ok(true)` when the current user may approve, else the reason why not.
    pub fn assert_approvable(&self) -> (r: Result<bool, GitlabError>)
        ensures
            match r {
                Ok(b) => approvable(self.state@, self.user_can_aprove, self.user_has_approved)
                    == Ok::<bool, Seq<char>>(b),
                Err(GitlabError::Any(m)) => approvable(
                    self.state@,
                    self.user_can_aprove,
                    self.user_has_approved,
                ) == Err::<bool, Seq<char>>(m@),
                Err(_) => false,
            },
    {
        if str_eq(self.state.as_str(), "merged") {
            return Err(GitlabError::Any("already merged".to_owned()));
        }
        if self.user_has_approved {
            return Err(GitlabError::Any("already approved".to_owned()));
        }
        if !self.user_can_aprove {
            return Err(
                GitlabError::Any("you can't approve, please contact the requester".to_owned()),
            );
        }
        Ok(true)
    }
}

/// A merged merge request is never approvable, whatever the user may do;
/// an open one is refused when the user approved it already, else when the
/// user may not approve, and is approvable otherwise.
pub proof fn law_approvable_decision(state: Seq<char>, can_approve: bool, approved: bool)
    ensures
        state == "merged"@ ==> approvable(state, can_approve, approved) == Err::<bool, Seq<char>>(
            "already merged"@,
        ),
        state != "merged"@ && approved ==> approvable(state, can_approve, approved) == Err::<bool, Seq<char>>(
            "already approved"@,
        ),
        state != "merged"@ && !approved && !can_approve ==> approvable(state, can_approve, approved) == Err::<
            bool,
            Seq<char>,
        >("you can't approve, please contact the requester"@),
        (approvable(state, can_approve, approved) is Ok) <==> (state != "merged"@ && can_approve && !approved),
        approvable(state, can_approve, approved) is Ok ==> approvable(state, can_approve, approved) == Ok::<
            bool,
            Seq<char>,
        >(true),
{
}

/// The summary of a merge request that a requester sends with its request.
#[derive(Debug)]
pub struct MergeRequestDetails {
    pub author: User,
    pub title: String,
    pub source_branch: String,
    pub target_branch: String,
}

/// The two lines that present merge request `d` of project `pid`.
pub open spec fn details_text(d: MergeRequestDetails, pid: Seq<char>) -> Seq<char> {
    pid + " ("@ + d.title@ + ")\n\t["@ + d.author.name@ + "] requests to merge <"@
        + d.source_branch@ + "> into <"@ + d.target_branch@ + ">"@
}

impl MergeRequestDetails {
    /// Presents this merge request of project `pid`.
    pub fn info(&self, pid: &str) -> (r: String)
        ensures
            r@ == details_text(*self, pid@),
    {
        let mut r = String::new();
        push_str(&mut r, pid);
        push_str(&mut r, " (");
        push_str(&mut r, self.title.as_str());
        push_str(&mut r, ")\n\t[");
        push_str(&mut r, self.author.name.as_str());
        push_str(&mut r, "] requests to merge <");
        push_str(&mut r, self.source_branch.as_str());
        push_str(&mut r, "> into <");
        push_str(&mut r, self.target_branch.as_str());
        push_str(&mut r, ">");
        r
    }
}

/// GitLab's answer to an approval: the merge request's state and who has
/// approved it.
#[derive(Debug)]
pub struct ApprovalResponse {
    pub state: String,
    pub approved_by: Vec<User>,
}

/// `parts` joined by `sep`.
pub open spec fn join(parts: Seq<Seq<char>>, sep: Seq<char>) -> Seq<char>
    decreases parts.len(),
{
    if parts.len() == 0 {
        Seq::empty()
    } else if parts.len() == 1 {
        parts[0]
    } else {
        join(parts.drop_last(), sep) + sep + parts.last()
    }
}

/// The names of `users`, in order.
pub open spec fn names_of(users: Seq<User>) -> Seq<Seq<char>> {
    users.map_values(|u: User| u.name@)
}

/// The line that reports approval `a` of merge request `mid` of project `pid`.
pub open spec fn approval_text(a: ApprovalResponse, pid: Seq<char>, mid: u64) -> Seq<char> {
    pid + "/"@ + decimal(mid as nat) + ", "@ + a.state@ + ", approvers: ("@ + join(
        names_of(a.approved_by@),
        ", "@,
    ) + ")"@
}

/// Joining names: none gives nothing, one gives that name, and one more name
/// after at least one adds the separator and that name, for any number of names.
pub proof fn law_join_appends_with_separator(parts: Seq<Seq<char>>, x: Seq<char>, sep: Seq<char>)
    ensures
        join(Seq::<Seq<char>>::empty(), sep) == Seq::<char>::empty(),
        join(seq![x], sep) == x,
        parts.len() >= 1 ==> join(parts.push(x), sep) == join(parts, sep) + sep + x,
{
    assert(parts.push(x).drop_last() =~= parts);
}

/// The names of users with one more user are the names before, then that
/// user's name.
pub proof fn law_names_follow_users(users: Seq<User>, u: User)
    ensures
        names_of(users.push(u)) == names_of(users).push(u.name@),
        names_of(users).len() == users.len(),
{
    assert(names_of(users.push(u)) =~= names_of(users).push(u.name@));
}

/// The report of an approval begins with the project and `/`, then a number
/// that reads back as the merge request's number, then `, `.
pub proof fn law_approval_text_names_the_merge_request(a: ApprovalResponse, pid: Seq<char>, mid: u64)
    ensures
        starts_with(approval_text(a, pid, mid), pid + "/"@),
        spec_parse_u64(
            approval_text(a, pid, mid).subrange(
                pid.len() + 1int,
                pid.len() + 1int + decimal(mid as nat).len(),
            ),
        ) == Ok::<u64, ParseIntErrorKind>(mid),
        approval_text(a, pid, mid)[pid.len() + 1int + decimal(mid as nat).len()] == ',',
{
    reveal_strlit("/");
    reveal_strlit(", ");
    let t = approval_text(a, pid, mid);
    let d = decimal(mid as nat);
    let rest = ", "@ + a.state@ + ", approvers: ("@ + join(names_of(a.approved_by@), ", "@) + ")"@;
    assert(t =~= (pid + "/"@) + d + rest);
    assert(t.subrange(0, pid.len() + 1int) =~= pid + "/"@);
    assert(t.subrange(pid.len() + 1int, pid.len() + 1int + d.len()) =~= d);
    lemma_parse_decimal(mid);
    assert(t[pid.len() + 1int + d.len()] == rest[0]);
}

impl ApprovalResponse {
    /// Reports this approval of merge request `mid` of project `pid`.
    pub fn info(&self, pid: &str, mid: u64) -> (r: String)
        ensures
            r@ == approval_text(*self, pid@, mid),
    {
        let mut r = String::new();
        push_str(&mut r, pid);
        push_str(&mut r, "/");
        push_decimal(&mut r, mid);
        push_str(&mut r, ", ");
        push_str(&mut r, self.state.as_str());
        push_str(&mut r, ", approvers: (");
        let ghost head = r@;
        let ghost names = names_of(self.approved_by@);
        let sep = ", ";
        let n = self.approved_by.len();
        let mut i: usize = 0;
        while i < n
            invariant
                n == self.approved_by@.len(),
                names == names_of(self.approved_by@),
                i <= n,
                r@ == head + join(names.take(i as int), sep@),
            decreases n - i,
        {
            if i > 0 {
                push_str(&mut r, sep);
            }
            push_str(&mut r, self.approved_by[i].name.as_str());
            proof {
                let t = names.take(i + 1);
                assert(t.drop_last() =~= names.take(i as int));
                assert(t.last() == self.approved_by@[i as int].name@);
                if i == 0 {
                    assert(names.take(0) =~= Seq::<Seq<char>>::empty());
                }
            }
            i = i + 1;
        }
        assert(names.take(n as int) =~= names);
        push_str(&mut r, ")");
        r
    }
}

} // verus!
