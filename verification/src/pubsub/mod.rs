//! The approval protocol over publish/subscribe channels.
//!
//! A requester publishes an [`Approval`] request on the channel `mr`. Every
//! other client receives it, takes one of a few semaphore slots for it, asks
//! GitLab to approve, records itself as approver (with the failure, if any)
//! and publishes the answer on `mr.res.<requester id>`, which the requester
//! subscribes to with the pattern `mr.res.<requester id>*`.
use vstd::prelude::*;

pub mod gitlab;
pub mod redis_cli;

use crate::pubsub::gitlab::User;
use crate::text::{
    decimal, lemma_parse_decimal, push_decimal, push_str, spec_parse_u64, starts_with, str_eq,
    str_starts_with, ParseIntErrorKind,
};

verus! {

/// The channel on which approval requests are published.
pub const REQUEST_CHANNEL: &'static str = "mr";

/// The characters of [`REQUEST_CHANNEL`].
pub open spec fn request_channel() -> Seq<char> {
    seq!['m', 'r']
}

/// What every response channel begins with.
pub open spec fn response_prefix() -> Seq<char> {
    seq!['m', 'r', '.', 'r', 'e', 's', '.']
}

/// The channel on which the answers to user `uid`'s requests are published.
pub open spec fn response_channel_of(uid: u64) -> Seq<char> {
    response_prefix() + decimal(uid as nat)
}

/// The pattern by which user `uid` subscribes to the answers to its requests.
pub open spec fn response_pattern_of(uid: u64) -> Seq<char> {
    response_channel_of(uid).push('*')
}

/// A request for approval of merge request `mid` of project `pid`, and,
/// once answered, who answered and why approving failed, if it did.
#[derive(Debug)]
pub struct Approval {
    pub requester: User,
    pub approver: Option<User>,
    pub pid: String,
    pub mid: u64,
    pub request_details: String,
    pub fail_reason: Option<String>,
}

/// What a client does with an approval it receives.
#[derive(Debug, Clone, Copy, PartialEq, Eq, Structural)]
pub enum IncomingAction {
    /// Its own request, come back to it.
    Ignore,
    /// An answer: hand it to the user interface.
    Forward,
    /// Somebody else's request: try to approve it and answer.
    Process,
}

/// A new, unanswered request.
pub open spec fn requested(me: User, pid: String, mid: u64, mr_details: String) -> Approval {
    Approval {
        requester: me,
        approver: None,
        pid,
        mid,
        request_details: mr_details,
        fail_reason: None,
    }
}

/// What the client of user `my_id` does with approval `a`.
pub open spec fn incoming(a: Approval, my_id: u64) -> IncomingAction {
    if a.requester.id == my_id && a.approver is None {
        IncomingAction::Ignore
    } else if a.approver is Some {
        IncomingAction::Forward
    } else {
        IncomingAction::Process
    }
}

/// Approval `a` once `me` has tried to approve it, `failure` being why that
/// failed, if it did. An approval that has an approver already stays as it is.
pub open spec fn recorded(a: Approval, me: User, failure: Option<String>) -> Approval {
    if a.approver is None {
        Approval {
            requester: a.requester,
            approver: Some(me),
            pid: a.pid,
            mid: a.mid,
            request_details: a.request_details,
            fail_reason: if failure is Some {
                failure
            } else {
                a.fail_reason
            },
        }
    } else {
        a
    }
}

/// The key of the semaphore that limits how many clients answer approval `a`.
pub open spec fn lock_key_of(a: Approval) -> Seq<char> {
    "mr.lock."@ + a.pid@ + "."@ + decimal(a.mid as nat)
}

/// The title and the body of the notice that answer `a` brings to its
/// requester; none while nobody has answered.
pub open spec fn notice_of(a: Approval) -> Option<(Seq<char>, Seq<char>)> {
    match a.approver {
        Some(approver) => Some(
            (a.pid@ + decimal(a.mid as nat), approver.name@ + " approved your request!"@),
        ),
        None => None,
    }
}

impl Approval {
    /// A new request of `me` for merge request `mid` of project `pid`,
    /// presented by `mr_details`.
    pub fn new_request(me: User, pid: String, mid: u64, mr_details: String) -> (r: Self)
        ensures
            r == requested(me, pid, mid, mr_details),
    {
        Self { requester: me, approver: None, pid, mid, request_details: mr_details, fail_reason: None }
    }

    /// Whether this is an unanswered request of user `uid`.
    pub fn is_requested_by_yourself(&self, uid: u64) -> (r: bool)
        ensures
            r == (self.requester.id == uid && self.approver is None),
    {
        self.requester.id == uid && self.approver.is_none()
    }

    /// Whether this approval has been answered.
    pub fn is_response(&self) -> (r: bool)
        ensures
            r == self.approver is Some,
    {
        self.approver.is_some()
    }

    /// What the client of user `my_id` does with this approval.
    pub fn incoming_action(&self, my_id: u64) -> (r: IncomingAction)
        ensures
            r == incoming(*self, my_id),
    {
        if self.is_requested_by_yourself(my_id) {
            IncomingAction::Ignore
        } else if self.is_response() {
            IncomingAction::Forward
        } else {
            IncomingAction::Process
        }
    }

    /// Records `me` as approver of an unanswered request, with `failure`,
    /// the reason approving failed, if it did.
    pub fn record_approval(&mut self, me: User, failure: Option<String>)
        ensures
            *final(self) == recorded(*old(self), me, failure),
    {
        if self.approver.is_none() {
            if failure.is_some() {
                self.fail_reason = failure;
            }
            self.approver = Some(me);
        }
    }

    /// The channel on which the answer to this request is published.
    pub fn response_channel(&self) -> (r: String)
        ensures
            r@ == response_channel_of(self.requester.id),
    {
        let mut r = String::new();
        push_str(&mut r, "mr.res.");
        push_decimal(&mut r, self.requester.id);
        proof {
            reveal_strlit("mr.res.");
        }
        r
    }

    /// The key of the semaphore that limits how many clients answer this request.
    pub fn lock_key(&self) -> (r: String)
        ensures
            r@ == lock_key_of(*self),
    {
        let mut r = String::new();
        push_str(&mut r, "mr.lock.");
        push_str(&mut r, self.pid.as_str());
        push_str(&mut r, ".");
        push_decimal(&mut r, self.mid);
        r
    }

    /// The title and the body of the notice that this answer brings to its
    /// requester; none while nobody has answered.
    pub fn notification(&self) -> (r: Option<(String, String)>)
        ensures
            match (r, notice_of(*self)) {
                (Some((t, b)), Some((st, sb))) => t@ == st && b@ == sb,
                (None, None) => true,
                _ => false,
            },
    {
        match &self.approver {
            Some(approver) => {
                let mut title = String::new();
                push_str(&mut title, self.pid.as_str());
                push_decimal(&mut title, self.mid);
                let mut body = String::new();
                push_str(&mut body, approver.name.as_str());
                push_str(&mut body, " approved your request!");
                Some((title, body))
            },
            None => None,
        }
    }
}

/// The pattern by which `user` subscribes to the answers to its requests.
pub fn response_pattern(user: &User) -> (r: String)
    ensures
        r@ == response_pattern_of(user.id),
{
    let mut r = String::new();
    push_str(&mut r, "mr.res.");
    push_decimal(&mut r, user.id);
    push_str(&mut r, "*");
    proof {
        reveal_strlit("mr.res.");
        reveal_strlit("*");
    }
    r
}

/// The kind of a message pushed by the server.
#[derive(Debug, Clone, Copy, PartialEq, Eq, Structural)]
pub enum PushKind {
    /// A message on a subscribed channel: the channel, then the payload.
    Message,
    /// A message on a channel matched by a subscribed pattern: the pattern,
    /// the channel, then the payload.
    PMessage,
    /// Anything else.
    Other,
}

/// The texts that `data` holds.
pub open spec fn texts_of(data: Seq<String>) -> Seq<Seq<char>> {
    data.map_values(|s: String| s@)
}

/// The payload that a pushed message carries: a request on the request
/// channel, or an answer on a response channel; none for anything else.
pub open spec fn payload_of(kind: PushKind, data: Seq<Seq<char>>) -> Option<Seq<char>> {
    match kind {
        PushKind::Message => if data.len() == 2 && data[0] == request_channel() {
            Some(data[1])
        } else {
            None
        },
        PushKind::PMessage => if data.len() == 3 && starts_with(data[0], response_prefix())
            && starts_with(data[1], response_prefix()) {
            Some(data[2])
        } else {
            None
        },
        PushKind::Other => None,
    }
}

/// The payload that a pushed message of `kind` holding `data` carries.
pub fn approval_payload(kind: PushKind, data: &Vec<String>) -> (r: Option<String>)
    ensures
        match (r, payload_of(kind, texts_of(data@))) {
            (Some(p), Some(sp)) => p@ == sp,
            (None, None) => true,
            _ => false,
        },
{
    proof {
        reveal_strlit("mr");
        reveal_strlit("mr.res.");
        assert("mr"@ =~= request_channel());
        assert("mr.res."@ =~= response_prefix());
    }
    match kind {
        PushKind::Message => {
            if data.len() == 2 && str_eq(data[0].as_str(), "mr") {
                Some(data[1].clone())
            } else {
                None
            }
        },
        PushKind::PMessage => {
            if data.len() == 3 && str_starts_with(data[0].as_str(), "mr.res.") && str_starts_with(
                data[1].as_str(),
                "mr.res.",
            ) {
                Some(data[2].clone())
            } else {
                None
            }
        },
        PushKind::Other => None,
    }
}

/// A client ignores its own request when it comes back to it, and every
/// other client processes it; an unanswered request brings no notice.
pub proof fn law_request_routing(me: User, pid: String, mid: u64, mr_details: String, other_id: u64)
    requires
        other_id != me.id,
    ensures
        incoming(requested(me, pid, mid, mr_details), me.id) == IncomingAction::Ignore,
        incoming(requested(me, pid, mid, mr_details), other_id) == IncomingAction::Process,
        notice_of(requested(me, pid, mid, mr_details)) is None,
{
}

/// Once a client has recorded itself as approver of a request, every client
/// that receives it, its requester among them, forwards it as an answer, and
/// the requester's notice names that approver.
pub proof fn law_answer_routing(a: Approval, me: User, failure: Option<String>, uid: u64)
    requires
        a.approver is None,
    ensures
        incoming(recorded(a, me, failure), uid) == IncomingAction::Forward,
        notice_of(recorded(a, me, failure)) == Some(
            (a.pid@ + decimal(a.mid as nat), me.name@ + " approved your request!"@),
        ),
        recorded(a, me, failure).fail_reason == (if failure is Some {
            failure
        } else {
            a.fail_reason
        }),
{
}

/// An answered approval stays as it is: a second approver changes nothing.
pub proof fn law_first_answer_stands(a: Approval, me: User, failure: Option<String>, other: User, other_failure: Option<String>)
    ensures
        recorded(recorded(a, me, failure), other, other_failure) == recorded(a, me, failure),
{
}

/// Recording an approver changes only who answered and why it failed: the
/// requester, the project, the merge request and its presentation stay, so
/// the answer still goes to the channel of the one who asked.
pub proof fn law_recording_keeps_the_request(a: Approval, me: User, failure: Option<String>)
    ensures
        recorded(a, me, failure).requester == a.requester,
        recorded(a, me, failure).pid == a.pid,
        recorded(a, me, failure).mid == a.mid,
        recorded(a, me, failure).request_details == a.request_details,
        response_channel_of(recorded(a, me, failure).requester.id) == response_channel_of(
            a.requester.id,
        ),
        a.approver is None ==> recorded(a, me, failure).approver == Some(me),
{
}

/// A response channel names its user: after the prefix `mr.res.` comes a
/// number that reads back as the user's id, so different users get
/// different channels.
pub proof fn law_response_channel_names_its_user(uid: u64, other: u64)
    ensures
        starts_with(response_channel_of(uid), response_prefix()),
        spec_parse_u64(response_channel_of(uid).skip(7)) == Ok::<u64, ParseIntErrorKind>(uid),
        uid != other ==> response_channel_of(uid) != response_channel_of(other),
{
    assert(response_channel_of(uid).subrange(0, 7) =~= response_prefix());
    assert(response_channel_of(uid).skip(7) =~= decimal(uid as nat));
    assert(response_channel_of(other).skip(7) =~= decimal(other as nat));
    lemma_parse_decimal(uid);
    lemma_parse_decimal(other);
}

/// The lock key of a request is `mr.lock.`, the project, `.`, then a number
/// that reads back as the merge request's number, whatever it is; so two
/// requests for different merge requests of one project never share a
/// semaphore.
pub proof fn law_lock_key_names_the_merge_request(a: Approval, b: Approval)
    ensures
        starts_with(lock_key_of(a), "mr.lock."@ + a.pid@ + "."@),
        spec_parse_u64(lock_key_of(a).skip(("mr.lock."@ + a.pid@ + "."@).len() as int)) == Ok::<
            u64,
            ParseIntErrorKind,
        >(a.mid),
        a.pid@ == b.pid@ && a.mid != b.mid ==> lock_key_of(a) != lock_key_of(b),
{
    let pa = "mr.lock."@ + a.pid@ + "."@;
    let pb = "mr.lock."@ + b.pid@ + "."@;
    assert(lock_key_of(a).subrange(0, pa.len() as int) =~= pa);
    assert(lock_key_of(a).skip(pa.len() as int) =~= decimal(a.mid as nat));
    assert(lock_key_of(b).skip(pb.len() as int) =~= decimal(b.mid as nat));
    lemma_parse_decimal(a.mid);
    lemma_parse_decimal(b.mid);
    if a.pid@ == b.pid@ && a.mid != b.mid {
        assert(pa == pb);
        if lock_key_of(a) == lock_key_of(b) {
            assert(lock_key_of(a).skip(pa.len() as int) == lock_key_of(b).skip(pb.len() as int));
        }
    }
}

/// The notice of an answer is titled with the project followed by a number
/// that reads back as the merge request's number.
pub proof fn law_notice_title_names_the_merge_request(a: Approval)
    ensures
        notice_of(a) matches Some((title, body)) ==> starts_with(title, a.pid@) && spec_parse_u64(
            title.skip(a.pid@.len() as int),
        ) == Ok::<u64, ParseIntErrorKind>(a.mid),
{
    if a.approver is Some {
        let t = a.pid@ + decimal(a.mid as nat);
        assert(t.subrange(0, a.pid@.len() as int) =~= a.pid@);
        assert(t.skip(a.pid@.len() as int) =~= decimal(a.mid as nat));
        lemma_parse_decimal(a.mid);
    }
}

/// Only requests on the request channel and answers on response channels
/// carry a payload: a message on any other channel, or of another kind,
/// carries none.
pub proof fn law_other_messages_carry_nothing(data: Seq<Seq<char>>)
    ensures
        data.len() >= 1 && data[0] != request_channel() ==> payload_of(PushKind::Message, data)
            is None,
        data.len() != 2 ==> payload_of(PushKind::Message, data) is None,
        data.len() != 3 ==> payload_of(PushKind::PMessage, data) is None,
        data.len() >= 2 && !starts_with(data[1], response_prefix()) ==> payload_of(
            PushKind::PMessage,
            data,
        ) is None,
        payload_of(PushKind::Other, data) is None,
{
}

/// A request published on the request channel reaches every subscriber with
/// its payload.
pub proof fn law_request_is_delivered(payload: Seq<char>)
    ensures
        payload_of(PushKind::Message, seq![request_channel(), payload]) == Some(payload),
{
}

/// The answer to approval `a`, published on its response channel, reaches its
/// requester through the pattern the requester subscribed with, payload intact;
/// the pattern is the channel followed by the wildcard.
pub proof fn law_answer_is_delivered(a: Approval, payload: Seq<char>)
    ensures
        response_pattern_of(a.requester.id) == response_channel_of(a.requester.id).push('*'),
        payload_of(
            PushKind::PMessage,
            seq![response_pattern_of(a.requester.id), response_channel_of(a.requester.id), payload],
        ) == Some(payload),
{
    let c = response_channel_of(a.requester.id);
    let p = response_pattern_of(a.requester.id);
    assert(c.subrange(0, 7) =~= response_prefix());
    assert(p.subrange(0, 7) =~= response_prefix());
}

} // verus!
