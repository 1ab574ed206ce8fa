use vstd::prelude::*;

use crate::render::{detail_fields, field_text, lemma_missing_field_stays, rendered, rendered_prefix, DetailField};
use crate::replies::{errata_of, job_of, resolution, token_of, ResolveError, ShapeError};
use crate::session::{
    job_message, next, ActionView, CallView, Operation, PhaseView, SessionView,
};
use crate::value::RpcValue;

verus! {

/// A session as `Session::start` opens it.
pub open spec fn started(operation: Operation, host_name: Seq<char>) -> SessionView {
    SessionView { operation, host_name, phase: PhaseView::LoggingIn }
}

/// Feeds `replies` to a session, one per action, until it has answered: the
/// final session and every action taken on the way.
pub open spec fn run(s: SessionView, replies: Seq<Result<RpcValue, Seq<char>>>) -> (
    SessionView,
    Seq<ActionView>,
)
    decreases replies.len(),
{
    if replies.len() == 0 || s.phase is Done {
        (s, Seq::empty())
    } else {
        let (s1, a) = next(s, replies[0]);
        let (end, rest) = run(s1, replies.drop_first());
        (end, seq![a] + rest)
    }
}

/// The tokens of the logout calls among `actions`, in order.
pub open spec fn logouts(actions: Seq<ActionView>) -> Seq<Seq<char>>
    decreases actions.len(),
{
    if actions.len() == 0 {
        Seq::empty()
    } else {
        let first = match actions[0] {
            ActionView::Call(CallView::Logout(t)) => seq![t],
            _ => Seq::empty(),
        };
        first + logouts(actions.drop_first())
    }
}

/// The session token that an action hands to the backend, if any.
pub open spec fn call_token(a: ActionView) -> Option<Seq<char>> {
    match a {
        ActionView::Call(CallView::Logout(t)) => Some(t),
        ActionView::Call(CallView::GetId(t, _)) => Some(t),
        ActionView::Call(CallView::GetDetails(t, _)) => Some(t),
        ActionView::Call(CallView::GetRelevantErrata(t, _)) => Some(t),
        ActionView::Call(CallView::ScheduleApplyErrata(t, _, _)) => Some(t),
        _ => None,
    }
}

/// The system identifier that an action hands to the backend, if any.
pub open spec fn call_system_id(a: ActionView) -> Option<i32> {
    match a {
        ActionView::Call(CallView::GetDetails(_, id)) => Some(id),
        ActionView::Call(CallView::GetRelevantErrata(_, id)) => Some(id),
        ActionView::Call(CallView::ScheduleApplyErrata(_, id, _)) => Some(id),
        _ => None,
    }
}

/// Whether an action is the host lookup.
pub open spec fn is_lookup(a: ActionView) -> bool {
    a matches ActionView::Call(CallView::GetId(..))
}

/// Whether a `system.getId` reply resolves to `id`.
pub open spec fn resolves_to(reply: Result<RpcValue, Seq<char>>, id: i32) -> bool {
    match reply {
        Ok(v) => resolution(v) == Ok::<i32, ResolveError>(id),
        Err(_) => false,
    }
}

/// The token of an open session.
pub open spec fn session_token(p: PhaseView) -> Option<Seq<char>> {
    match p {
        PhaseView::Resolving(t) => Some(t),
        PhaseView::FetchingDetails(t, _) => Some(t),
        PhaseView::FetchingErrata(t, _) => Some(t),
        PhaseView::Scheduling(t) => Some(t),
        _ => None,
    }
}

/// How many more replies a session needs at most before it has answered.
pub open spec fn steps_left(p: PhaseView) -> nat {
    match p {
        PhaseView::LoggingIn => 5,
        PhaseView::Resolving(_) => 4,
        PhaseView::FetchingErrata(..) => 3,
        PhaseView::FetchingDetails(..) => 2,
        PhaseView::Scheduling(_) => 2,
        PhaseView::LoggingOut(_) => 1,
        PhaseView::Done => 0,
    }
}

/// A phase in which the only system identifier still to be sent is `id`.
pub open spec fn holds_id(p: PhaseView, id: i32) -> bool {
    match p {
        PhaseView::FetchingDetails(_, i) => i == id,
        PhaseView::FetchingErrata(_, i) => i == id,
        PhaseView::Scheduling(_) => true,
        PhaseView::LoggingOut(_) => true,
        PhaseView::Done => true,
        _ => false,
    }
}

/// A session answers within `steps_left` replies.
pub proof fn lemma_run_finishes(s: SessionView, replies: Seq<Result<RpcValue, Seq<char>>>)
    requires
        replies.len() >= steps_left(s.phase),
    ensures
        run(s, replies).0.phase is Done,
    decreases replies.len(),
{
    if replies.len() > 0 && !(s.phase is Done) {
        let (s1, a) = next(s, replies[0]);
        lemma_run_finishes(s1, replies.drop_first());
    }
}

/// Once a session has answered, it takes no further action.
proof fn lemma_run_done(s: SessionView, replies: Seq<Result<RpcValue, Seq<char>>>)
    requires
        s.phase is Done,
    ensures
        run(s, replies) == (s, Seq::<ActionView>::empty()),
{
}

/// From an open session with token `t`: every call carries `t`, and a run that
/// ends has closed the session exactly once, with its last call, right before
/// answering.
proof fn lemma_open_session(s: SessionView, replies: Seq<Result<RpcValue, Seq<char>>>, t: Seq<char>)
    requires
        session_token(s.phase) == Some(t),
    ensures
        ({
            let (end, actions) = run(s, replies);
            &&& forall|i: int| 0 <= i < actions.len() && (#[trigger] call_token(actions[i])) is Some
                ==> call_token(actions[i]) == Some(t)
            &&& end.phase is Done ==> {
                &&& logouts(actions) == seq![t]
                &&& actions.len() >= 2
                &&& actions[actions.len() - 2] == ActionView::Call(CallView::Logout(t))
                &&& actions[actions.len() - 1] is Respond
            }
        }),
    decreases replies.len(),
{
    if replies.len() > 0 {
        let (s1, a) = next(s, replies[0]);
        let rest = replies.drop_first();
        let (end, tail) = run(s1, rest);
        let actions = seq![a] + tail;
        assert(run(s, replies) == (end, actions));
        assert(actions.drop_first() =~= tail);
        if s1.phase is LoggingOut {
            assert(a == ActionView::Call(CallView::Logout(t)));
            if rest.len() > 0 {
                let (s2, b) = next(s1, rest[0]);
                lemma_run_done(s2, rest.drop_first());
                assert(tail =~= seq![b]);
                assert(logouts(tail) == logouts(tail.drop_first()));
                assert(tail.drop_first() =~= Seq::<ActionView>::empty());
                assert(logouts(actions) =~= seq![t]);
            }
        } else {
            lemma_open_session(s1, rest, t);
            assert(call_token(a) == Some(t));
            assert(logouts(actions) =~= logouts(tail));
            assert forall|i: int| 0 <= i < actions.len() && (#[trigger] call_token(actions[i])) is Some
                implies call_token(actions[i]) == Some(t) by {
                if i > 0 {
                    assert(actions[i] == tail[i - 1]);
                }
            }
        }
    }
}

/// From a phase that holds `id`, every system identifier sent is `id`.
proof fn lemma_holds_id(s: SessionView, replies: Seq<Result<RpcValue, Seq<char>>>, id: i32)
    requires
        holds_id(s.phase, id),
    ensures
        ({
            let actions = run(s, replies).1;
            &&& forall|i: int| 0 <= i < actions.len() && (#[trigger] call_system_id(actions[i])) is Some
                ==> call_system_id(actions[i]) == Some(id)
            &&& forall|i: int| 0 <= i < actions.len() ==> !#[trigger] is_lookup(actions[i])
        }),
    decreases replies.len(),
{
    if replies.len() > 0 && !(s.phase is Done) {
        let (s1, a) = next(s, replies[0]);
        let tail = run(s1, replies.drop_first()).1;
        lemma_holds_id(s1, replies.drop_first(), id);
        let actions = seq![a] + tail;
        assert forall|i: int| 0 <= i < actions.len() && (#[trigger] call_system_id(actions[i])) is Some
            implies call_system_id(actions[i]) == Some(id) by {
            if i > 0 {
                assert(actions[i] == tail[i - 1]);
            }
        }
        assert forall|i: int| 0 <= i < actions.len() implies !#[trigger] is_lookup(actions[i]) by {
            if i > 0 {
                assert(actions[i] == tail[i - 1]);
            }
        }
    }
}

/// Once the login has returned a token, the session is closed exactly once,
/// whatever the later replies are (failed detail or errata fetches included):
/// the logout carries that token, is the last call, and comes right before
/// the answer. Five replies are always enough for the request to be answered.
pub proof fn lemma_session_closed_exactly_once(
    operation: Operation,
    host_name: Seq<char>,
    replies: Seq<Result<RpcValue, Seq<char>>>,
)
    requires
        replies.len() > 0,
        replies[0] matches Ok(v) && token_of(v) is Some,
    ensures
        ({
            let t = token_of(replies[0]->Ok_0)->0;
            let (end, actions) = run(started(operation, host_name), replies);
            &&& replies.len() >= 5 ==> end.phase is Done
            &&& end.phase is Done ==> {
                &&& logouts(actions) == seq![t]
                &&& actions[actions.len() - 2] == ActionView::Call(CallView::Logout(t))
                &&& actions[actions.len() - 1] is Respond
            }
        }),
{
    let s = started(operation, host_name);
    let t = token_of(replies[0]->Ok_0)->0;
    let (s1, a) = next(s, replies[0]);
    let rest = replies.drop_first();
    let (end, tail) = run(s1, rest);
    let actions = seq![a] + tail;
    assert(a == ActionView::Call(CallView::GetId(t, host_name)));
    lemma_open_session(s1, rest, t);
    if replies.len() >= 5 {
        lemma_run_finishes(s, replies);
    }
    assert(actions.drop_first() =~= tail);
    assert(logouts(actions) =~= logouts(tail));
}

/// Each session keeps to its own values: every call hands the backend the
/// token that this session's login returned, the host lookup names this
/// session's host, and every system identifier sent is the one that this
/// session's lookup resolved.
pub proof fn lemma_sessions_keep_their_own_values(
    operation: Operation,
    host_name: Seq<char>,
    replies: Seq<Result<RpcValue, Seq<char>>>,
)
    requires
        replies.len() > 0,
        replies[0] matches Ok(v) && token_of(v) is Some,
    ensures
        ({
            let t = token_of(replies[0]->Ok_0)->0;
            let actions = run(started(operation, host_name), replies).1;
            &&& forall|i: int| 0 <= i < actions.len() && (#[trigger] call_token(actions[i])) is Some
                ==> call_token(actions[i]) == Some(t)
            &&& forall|i: int| 0 <= i < actions.len() && #[trigger] is_lookup(actions[i])
                ==> actions[i] == ActionView::Call(CallView::GetId(t, host_name))
            &&& forall|i: int| 0 <= i < actions.len() && (#[trigger] call_system_id(actions[i])) is Some
                ==> replies.len() > 1 && resolves_to(replies[1], call_system_id(actions[i])->0)
        }),
{
    let s = started(operation, host_name);
    let t = token_of(replies[0]->Ok_0)->0;
    let (s1, a) = next(s, replies[0]);
    let rest = replies.drop_first();
    let tail = run(s1, rest).1;
    let actions = seq![a] + tail;
    lemma_open_session(s1, rest, t);
    assert(actions.drop_first() =~= tail);
    if rest.len() > 0 {
        let (s2, b) = next(s1, rest[0]);
        let tail2 = run(s2, rest.drop_first()).1;
        assert(tail =~= seq![b] + tail2);
        if s2.phase is FetchingDetails || s2.phase is FetchingErrata {
            let id = resolution(rest[0]->Ok_0)->Ok_0;
            lemma_holds_id(s2, rest.drop_first(), id);
            assert forall|i: int| 0 <= i < actions.len() && (#[trigger] call_system_id(actions[i])) is Some
                implies replies.len() > 1 && resolves_to(replies[1], call_system_id(actions[i])->0) by {
                assert(rest[0] == replies[1]);
                if i >= 2 {
                    assert(actions[i] == tail2[i - 2]);
                }
            }
        } else {
            let rest2 = rest.drop_first();
            if rest2.len() > 0 {
                let (s3, c) = next(s2, rest2[0]);
                lemma_run_done(s3, rest2.drop_first());
                assert(tail2 =~= seq![c]);
            } else {
                assert(tail2 =~= Seq::<ActionView>::empty());
            }
            assert forall|i: int| 0 <= i < actions.len() implies (#[trigger] call_system_id(actions[i])) is None by {
                if i >= 2 {
                    assert(actions[i] == tail2[i - 2]);
                }
            }
        }
        assert forall|i: int| 0 <= i < actions.len() && #[trigger] is_lookup(actions[i])
            implies actions[i] == ActionView::Call(CallView::GetId(t, host_name)) by {
            if i >= 2 {
                assert(actions[i] == tail2[i - 2]);
            }
        }
    }
}

/// A details record that lacks one of the shown fields, or holds no text
/// there, fails the whole page rather than showing that field as not found.
pub proof fn lemma_incomplete_record_fails(details: RpcValue, field: DetailField)
    requires
        details is Struct,
        field_text(details->Struct_0@, field) is None,
    ensures
        rendered(details) is Err,
{
    let j: nat = match field {
        DetailField::MinionId => 0,
        DetailField::MachineId => 1,
        DetailField::BaseEntitlement => 2,
        DetailField::Virtualization => 3,
        DetailField::ContactMethod => 4,
    };
    assert(detail_fields()[j as int] == field);
    match rendered_prefix(details, j) {
        Err(g) => {
            lemma_missing_field_stays(details, j, 5, g);
        },
        Ok(_) => {
            assert(rendered_prefix(details, j + 1) == Err::<Seq<char>, DetailField>(field));
            lemma_missing_field_stays(details, j + 1, 5, field);
        },
    }
}

/// A host name that matches no system: both operations close the session and
/// answer with the resolver's message for an empty lookup.
pub proof fn lemma_unknown_host_answer(
    operation: Operation,
    host_name: Seq<char>,
    login: RpcValue,
    lookup: RpcValue,
    logout: Result<RpcValue, Seq<char>>,
)
    requires
        token_of(login) is Some,
        lookup matches RpcValue::Array(items) && items@.len() == 0,
    ensures
        ({
            let t = token_of(login)->0;
            let (end, actions) = run(
                started(operation, host_name),
                seq![Ok(login), Ok(lookup), logout],
            );
            &&& end.phase is Done
            &&& actions == seq![
                ActionView::Call(CallView::GetId(t, host_name)),
                ActionView::Call(CallView::Logout(t)),
                ActionView::Respond(
                    ResolveError::Empty.spec_message(),
                    !(logout matches Ok(RpcValue::Int(_))),
                ),
            ]
        }),
{
    let t = token_of(login)->0;
    let replies: Seq<Result<RpcValue, Seq<char>>> = seq![Ok(login), Ok(lookup), logout];
    let s0 = started(operation, host_name);
    let (s1, a1) = next(s0, replies[0]);
    let r1 = replies.drop_first();
    let (s2, a2) = next(s1, r1[0]);
    let r2 = r1.drop_first();
    let (s3, a3) = next(s2, r2[0]);
    let r3 = r2.drop_first();
    assert(r3.len() == 0);
    assert(run(s3, r3).1 =~= Seq::<ActionView>::empty());
    assert(run(s2, r2).1 =~= seq![a3]);
    assert(run(s1, r1).1 =~= seq![a2, a3]);
    assert(run(s0, replies).1 =~= seq![a1, a2, a3]);
}

/// A patch request on a host with no pending errata still schedules, with an
/// empty errata list, and answers with the job id.
pub proof fn lemma_patch_without_errata(
    host_name: Seq<char>,
    login: RpcValue,
    lookup: RpcValue,
    errata: RpcValue,
    schedule: RpcValue,
    logout: Result<RpcValue, Seq<char>>,
    id: i32,
    job: i32,
)
    requires
        token_of(login) is Some,
        resolution(lookup) == Ok::<i32, ResolveError>(id),
        errata_of(errata) == Ok::<Seq<i32>, ShapeError>(Seq::empty()),
        job_of(schedule) == Ok::<i32, ShapeError>(job),
    ensures
        ({
            let t = token_of(login)->0;
            let (end, actions) = run(
                started(Operation::Patch, host_name),
                seq![Ok(login), Ok(lookup), Ok(errata), Ok(schedule), logout],
            );
            &&& end.phase is Done
            &&& actions == seq![
                ActionView::Call(CallView::GetId(t, host_name)),
                ActionView::Call(CallView::GetRelevantErrata(t, id)),
                ActionView::Call(CallView::ScheduleApplyErrata(t, id, Seq::empty())),
                ActionView::Call(CallView::Logout(t)),
                ActionView::Respond(job_message(job), !(logout matches Ok(RpcValue::Int(_)))),
            ]
        }),
{
    let replies: Seq<Result<RpcValue, Seq<char>>> = seq![
        Ok(login),
        Ok(lookup),
        Ok(errata),
        Ok(schedule),
        logout,
    ];
    let s0 = started(Operation::Patch, host_name);
    let (s1, a1) = next(s0, replies[0]);
    let r1 = replies.drop_first();
    let (s2, a2) = next(s1, r1[0]);
    let r2 = r1.drop_first();
    let (s3, a3) = next(s2, r2[0]);
    let r3 = r2.drop_first();
    let (s4, a4) = next(s3, r3[0]);
    let r4 = r3.drop_first();
    let (s5, a5) = next(s4, r4[0]);
    let r5 = r4.drop_first();
    assert(r5.len() == 0);
    assert(run(s5, r5).1 =~= Seq::<ActionView>::empty());
    assert(run(s4, r4).1 =~= seq![a5]);
    assert(run(s3, r3).1 =~= seq![a4, a5]);
    assert(run(s2, r2).1 =~= seq![a3, a4, a5]);
    assert(run(s1, r1).1 =~= seq![a2, a3, a4, a5]);
    assert(run(s0, replies).1 =~= seq![a1, a2, a3, a4, a5]);
}

} // verus!
