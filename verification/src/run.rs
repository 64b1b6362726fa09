//! Whole runs of the vote webhook handler, and what holds of every one of them.

use vstd::prelude::*;
use crate::http::{
    presents_secret, route_of, Route, STATUS_BAD_REQUEST, STATUS_METHOD_NOT_ALLOWED, STATUS_OK,
    STATUS_UNAUTHORIZED,
};
use crate::json::JsonMemberView;
use crate::vote::{
    announcement_of, answered, call_of, decision, next, notification_of, succeeded, voter_of, CallView,
    ConfigView, HandlingView, Outcome, Stage, VoteNotificationView,
};

verus! {

/// The state that the handling `h` is in after its downstream calls have ended
/// with `outcomes`, in that order.
pub open spec fn run(h: HandlingView, outcomes: Seq<Outcome>) -> HandlingView
    decreases outcomes.len(),
{
    if outcomes.len() == 0 {
        h
    } else {
        run(next(h, outcomes[0]), outcomes.skip(1))
    }
}

/// The downstream calls that are issued from the state `h` on, in order, when
/// they end with `outcomes`. A call that is due when the outcomes run out is
/// issued, and is the last.
pub open spec fn calls(h: HandlingView, outcomes: Seq<Outcome>) -> Seq<CallView>
    decreases outcomes.len(),
{
    match call_of(h) {
        None => Seq::empty(),
        Some(call) => if outcomes.len() == 0 {
            seq![call]
        } else {
            seq![call] + calls(next(h, outcomes[0]), outcomes.skip(1))
        },
    }
}

/// The three downstream calls of one vote, in the order in which they are due.
pub open spec fn calls_of_vote(n: VoteNotificationView) -> Seq<CallView> {
    seq![
        CallView::SendMessage { channel_id: n.channel_id, embed: announcement_of(n) },
        CallView::GetMember { guild_id: n.guild_id, user_id: n.member_id },
        CallView::AddRole { guild_id: n.guild_id, user_id: n.member_id, role_id: n.role_id },
    ]
}

/// A finished handling issues no call and stays as it is, whatever is reported to it.
pub proof fn lemma_finished_is_final(h: HandlingView, outcomes: Seq<Outcome>)
    requires
        h is Finished,
    ensures
        calls(h, outcomes) == Seq::<CallView>::empty(),
        run(h, outcomes) == h,
    decreases outcomes.len(),
{
    if outcomes.len() > 0 {
        lemma_finished_is_final(h, outcomes.skip(1));
    }
}

/// A vote request without the secret as its bearer token, be the header
/// missing, of another shape, or of another token, is answered with the status
/// of an unauthorized request, and no downstream call is issued for it.
pub proof fn lemma_unauthorized_vote_is_refused(
    config: ConfigView,
    method: Seq<char>,
    path: Seq<char>,
    authorization: Option<Seq<char>>,
    member: JsonMemberView,
    outcomes: Seq<Outcome>,
)
    requires
        route_of(method, path) == Route::Vote,
        !presents_secret(authorization, config.secret),
    ensures
        decision(config, method, path, authorization, member) == answered(
            STATUS_UNAUTHORIZED,
            "You're not authorized to do this operation"@,
        ),
        calls(decision(config, method, path, authorization, member), outcomes) == Seq::<
            CallView,
        >::empty(),
{
    lemma_finished_is_final(decision(config, method, path, authorization, member), outcomes);
}

/// A vote request with the secret whose body names the voter `user` has its
/// announcement sent, then the member resolved, then the role granted, each
/// once and in that order, where every call succeeds; and it is then answered
/// with the success status and an empty body.
pub proof fn lemma_vote_is_dispatched_once(
    config: ConfigView,
    method: Seq<char>,
    path: Seq<char>,
    authorization: Option<Seq<char>>,
    member: JsonMemberView,
    user: Seq<char>,
)
    requires
        route_of(method, path) == Route::Vote,
        presents_secret(authorization, config.secret),
        voter_of(member) == Ok::<Seq<char>, crate::vote::BodyError>(user),
    ensures
        ({
            let h = decision(config, method, path, authorization, member);
            let all_done = seq![Outcome::Done, Outcome::Done, Outcome::Done];
            &&& calls(h, all_done) == calls_of_vote(notification_of(config, user))
            &&& run(h, all_done) == succeeded(user)
            &&& run(h, all_done)->response.status == STATUS_OK
            &&& run(h, all_done)->response.body == Seq::<char>::empty()
        }),
{
    let n = notification_of(config, user);
    let h0 = decision(config, method, path, authorization, member);
    let h1 = HandlingView::Pending { notification: n, stage: Stage::Resolve };
    let h2 = HandlingView::Pending { notification: n, stage: Stage::Grant };
    let h3 = succeeded(user);
    let o3 = seq![Outcome::Done, Outcome::Done, Outcome::Done];
    let o2 = seq![Outcome::Done, Outcome::Done];
    let o1 = seq![Outcome::Done];
    let o0 = Seq::<Outcome>::empty();
    assert(o3.skip(1) =~= o2);
    assert(o2.skip(1) =~= o1);
    assert(o1.skip(1) =~= o0);
    assert(next(h0, o3[0]) == h1);
    assert(next(h1, o2[0]) == h2);
    assert(next(h2, o1[0]) == h3);
    assert(run(h3, o0) == h3);
    assert(run(h2, o1) == h3);
    assert(run(h1, o2) == h3);
    assert(run(h0, o3) == h3);
    assert(calls(h3, o0) =~= Seq::<CallView>::empty());
    assert(calls(h2, o1) =~= calls_of_vote(n).subrange(2, 3));
    assert(calls(h1, o2) =~= calls_of_vote(n).subrange(1, 3));
    assert(calls(h0, o3) =~= calls_of_vote(n));
}

/// Whatever the downstream calls report, an accepted vote has each of its
/// three calls issued at most once, in their order: the calls issued are a
/// prefix of the vote's calls, and the announcement is always among them.
pub proof fn lemma_vote_calls_are_a_prefix(n: VoteNotificationView, outcomes: Seq<Outcome>)
    ensures
        ({
            let issued = calls(HandlingView::Pending { notification: n, stage: Stage::Announce }, outcomes);
            &&& 1 <= issued.len() <= 3
            &&& issued == calls_of_vote(n).take(issued.len() as int)
        }),
{
    let all = calls_of_vote(n);
    let h0 = HandlingView::Pending { notification: n, stage: Stage::Announce };
    let issued = calls(h0, outcomes);
    if outcomes.len() == 0 {
        assert(issued =~= all.take(1));
    } else {
        let h1 = next(h0, outcomes[0]);
        let o1 = outcomes.skip(1);
        if h1 is Finished {
            lemma_finished_is_final(h1, o1);
            assert(issued =~= all.take(1));
        } else if o1.len() == 0 {
            assert(calls(h1, o1) =~= all.subrange(1, 2));
            assert(issued =~= all.take(2));
        } else {
            let h2 = next(h1, o1[0]);
            let o2 = o1.skip(1);
            if h2 is Finished {
                lemma_finished_is_final(h2, o2);
                assert(calls(h1, o1) =~= all.subrange(1, 2));
                assert(issued =~= all.take(2));
            } else if o2.len() == 0 {
                assert(calls(h2, o2) =~= all.subrange(2, 3));
                assert(calls(h1, o1) =~= all.subrange(1, 3));
                assert(issued =~= all.take(3));
            } else {
                let h3 = next(h2, o2[0]);
                lemma_finished_is_final(h3, o2.skip(1));
                assert(calls(h2, o2) =~= all.subrange(2, 3));
                assert(calls(h1, o1) =~= all.subrange(1, 3));
                assert(issued =~= all.take(3));
            }
        }
    }
}

/// A notification is dispatched for a request exactly if the request is a vote
/// that presents the secret and whose body names a user. It is then the
/// notification for that user, with the announcement due first.
pub proof fn lemma_dispatched_iff_authorized_and_valid(
    config: ConfigView,
    method: Seq<char>,
    path: Seq<char>,
    authorization: Option<Seq<char>>,
    member: JsonMemberView,
)
    ensures
        ({
            let h = decision(config, method, path, authorization, member);
            &&& h is Pending <==> route_of(method, path) == Route::Vote && presents_secret(
                authorization,
                config.secret,
            ) && voter_of(member) is Ok
            &&& h is Pending ==> h == (HandlingView::Pending {
                notification: notification_of(config, voter_of(member)->Ok_0),
                stage: Stage::Announce,
            })
        }),
{
}

/// A vote request with the secret whose body is a JSON document that names no
/// user is answered as a bad request, and no downstream call is issued for it.
pub proof fn lemma_missing_user_is_rejected(
    config: ConfigView,
    method: Seq<char>,
    path: Seq<char>,
    authorization: Option<Seq<char>>,
    member: JsonMemberView,
    outcomes: Seq<Outcome>,
)
    requires
        route_of(method, path) == Route::Vote,
        presents_secret(authorization, config.secret),
        member is Absent || member is Other,
    ensures
        decision(config, method, path, authorization, member) == answered(
            STATUS_BAD_REQUEST,
            "The request body names no user"@,
        ),
        calls(decision(config, method, path, authorization, member), outcomes) == Seq::<
            CallView,
        >::empty(),
{
    lemma_finished_is_final(decision(config, method, path, authorization, member), outcomes);
}

/// A vote request with the secret whose body is no JSON document is answered
/// as a bad request, with no downstream call; and a request for the root path
/// that comes after it is answered with the liveness text all the same.
pub proof fn lemma_unparsable_body_is_rejected(
    config: ConfigView,
    method: Seq<char>,
    path: Seq<char>,
    authorization: Option<Seq<char>>,
    outcomes: Seq<Outcome>,
    later_method: Seq<char>,
    later_authorization: Option<Seq<char>>,
    later_member: JsonMemberView,
)
    requires
        route_of(method, path) == Route::Vote,
        presents_secret(authorization, config.secret),
    ensures
        decision(config, method, path, authorization, JsonMemberView::Malformed) == answered(
            STATUS_BAD_REQUEST,
            "The request body is not valid JSON"@,
        ),
        calls(
            decision(config, method, path, authorization, JsonMemberView::Malformed),
            outcomes,
        ) == Seq::<CallView>::empty(),
        decision(config, later_method, "/"@, later_authorization, later_member) == answered(
            STATUS_OK,
            "Bot hosting running correctly!"@,
        ),
{
    lemma_finished_is_final(
        decision(config, method, path, authorization, JsonMemberView::Malformed),
        outcomes,
    );
}

/// A downstream call that fails ends the vote: the caller is answered with a
/// server-error status, the failure goes to the log, and no further call is
/// issued whatever is reported afterwards.
pub proof fn lemma_failed_call_is_a_server_error(
    n: VoteNotificationView,
    stage: Stage,
    later: Seq<Outcome>,
)
    ensures
        ({
            let h = next(HandlingView::Pending { notification: n, stage }, Outcome::Failed);
            &&& h is Finished
            &&& 500 <= h->response.status <= 599
            &&& h->log == Some(h->response.body)
            &&& calls(h, later) == Seq::<CallView>::empty()
            &&& run(h, later) == h
        }),
{
    let h = next(HandlingView::Pending { notification: n, stage }, Outcome::Failed);
    lemma_finished_is_final(h, later);
}

/// A request for the root path is answered with the success status and the
/// liveness text, whatever its method, its headers and its body.
pub proof fn lemma_root_is_alive(
    config: ConfigView,
    method: Seq<char>,
    authorization: Option<Seq<char>>,
    member: JsonMemberView,
)
    ensures
        decision(config, method, "/"@, authorization, member) == answered(
            STATUS_OK,
            "Bot hosting running correctly!"@,
        ),
{
}

/// A request for any path but the root and `/vote`, or for `/vote` under any
/// method but `POST`, is answered with the status of a method that is not
/// allowed, and with an empty body.
pub proof fn lemma_unserved_is_not_allowed(
    config: ConfigView,
    method: Seq<char>,
    path: Seq<char>,
    authorization: Option<Seq<char>>,
    member: JsonMemberView,
)
    requires
        path != "/"@,
        path != "/vote"@ || method != "POST"@,
    ensures
        decision(config, method, path, authorization, member) == answered(
            STATUS_METHOD_NOT_ALLOWED,
            Seq::empty(),
        ),
{
}

} // verus!
