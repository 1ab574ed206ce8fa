use vstd::prelude::*;

use crate::config::BackendConfig;
use crate::decimal::{decimal, format_i32};
use crate::render::{render_details, rendered};
use crate::replies::{
    errata_ids, errata_of, job_id, job_of, login_token, logout_confirmed, resolution,
    resolve_system_id, token_of, ShapeError,
};
use crate::value::RpcValue;

verus! {

/// The two operations that the gateway offers on a managed host.
#[derive(Debug, Clone, Copy, PartialEq, Eq, Structural)]
pub enum Operation {
    /// Show the host's details.
    GetInfo,
    /// Schedule all errata that apply to the host.
    Patch,
}

/// A backend call, with its positional arguments.
pub enum RpcCall {
    Login { user_name: String, password: String },
    Logout { token: String },
    GetId { token: String, host_name: String },
    GetDetails { token: String, system_id: i32 },
    GetRelevantErrata { token: String, system_id: i32 },
    ScheduleApplyErrata { token: String, system_id: i32, errata: Vec<i32> },
}

pub enum CallView {
    Login(Seq<char>, Seq<char>),
    Logout(Seq<char>),
    GetId(Seq<char>, Seq<char>),
    GetDetails(Seq<char>, i32),
    GetRelevantErrata(Seq<char>, i32),
    ScheduleApplyErrata(Seq<char>, i32, Seq<i32>),
}

impl View for RpcCall {
    type V = CallView;

    open spec fn view(&self) -> CallView {
        match self {
            RpcCall::Login { user_name, password } => CallView::Login(user_name@, password@),
            RpcCall::Logout { token } => CallView::Logout(token@),
            RpcCall::GetId { token, host_name } => CallView::GetId(token@, host_name@),
            RpcCall::GetDetails { token, system_id } => CallView::GetDetails(token@, *system_id),
            RpcCall::GetRelevantErrata { token, system_id } => CallView::GetRelevantErrata(
                token@,
                *system_id,
            ),
            RpcCall::ScheduleApplyErrata { token, system_id, errata } =>
                CallView::ScheduleApplyErrata(token@, *system_id, errata@),
        }
    }
}

pub open spec fn method_name(c: CallView) -> Seq<char> {
    match c {
        CallView::Login(..) => "auth.login"@,
        CallView::Logout(..) => "auth.logout"@,
        CallView::GetId(..) => "system.getId"@,
        CallView::GetDetails(..) => "system.getDetails"@,
        CallView::GetRelevantErrata(..) => "system.getRelevantErrata"@,
        CallView::ScheduleApplyErrata(..) => "system.scheduleApplyErrata"@,
    }
}

impl RpcCall {
    /// The backend method that this call invokes.
    pub fn method(&self) -> (r: &'static str)
        ensures
            r@ == method_name(self@),
    {
        match self {
            RpcCall::Login { .. } => "auth.login",
            RpcCall::Logout { .. } => "auth.logout",
            RpcCall::GetId { .. } => "system.getId",
            RpcCall::GetDetails { .. } => "system.getDetails",
            RpcCall::GetRelevantErrata { .. } => "system.getRelevantErrata",
            RpcCall::ScheduleApplyErrata { .. } => "system.scheduleApplyErrata",
        }
    }
}

/// What the caller of a session does next: perform a backend call and hand its
/// reply back, or answer the HTTP request.
pub enum Action {
    Call(RpcCall),
    /// Answer with `body`; `close_failed` tells that the backend did not
    /// confirm the end of the session.
    Respond { body: String, close_failed: bool },
}

pub enum ActionView {
    Call(CallView),
    Respond(Seq<char>, bool),
}

impl View for Action {
    type V = ActionView;

    open spec fn view(&self) -> ActionView {
        match self {
            Action::Call(c) => ActionView::Call(c@),
            Action::Respond { body, close_failed } => ActionView::Respond(body@, *close_failed),
        }
    }
}

/// Where a request stands in its backend session.
pub enum Phase {
    /// The login call is out.
    LoggingIn,
    /// The session is open and the host name is being resolved.
    Resolving { token: String },
    FetchingDetails { token: String, system_id: i32 },
    FetchingErrata { token: String, system_id: i32 },
    Scheduling { token: String },
    /// The logout call is out; `body` is the answer already decided.
    LoggingOut { body: String },
    Done,
}

pub enum PhaseView {
    LoggingIn,
    Resolving(Seq<char>),
    FetchingDetails(Seq<char>, i32),
    FetchingErrata(Seq<char>, i32),
    Scheduling(Seq<char>),
    LoggingOut(Seq<char>),
    Done,
}

impl View for Phase {
    type V = PhaseView;

    open spec fn view(&self) -> PhaseView {
        match self {
            Phase::LoggingIn => PhaseView::LoggingIn,
            Phase::Resolving { token } => PhaseView::Resolving(token@),
            Phase::FetchingDetails { token, system_id } => PhaseView::FetchingDetails(
                token@,
                *system_id,
            ),
            Phase::FetchingErrata { token, system_id } => PhaseView::FetchingErrata(
                token@,
                *system_id,
            ),
            Phase::Scheduling { token } => PhaseView::Scheduling(token@),
            Phase::LoggingOut { body } => PhaseView::LoggingOut(body@),
            Phase::Done => PhaseView::Done,
        }
    }
}

/// One gateway request's backend session. It owns its token and system
/// identifier; nothing is shared between sessions.
pub struct Session {
    pub operation: Operation,
    pub host_name: String,
    pub phase: Phase,
}

pub struct SessionView {
    pub operation: Operation,
    pub host_name: Seq<char>,
    pub phase: PhaseView,
}

impl View for Session {
    type V = SessionView;

    open spec fn view(&self) -> SessionView {
        SessionView { operation: self.operation, host_name: self.host_name@, phase: self.phase@ }
    }
}

/// A backend reply: a value, or the text of a transport or protocol error.
pub open spec fn reply_view(reply: Result<RpcValue, String>) -> Result<RpcValue, Seq<char>> {
    match reply {
        Ok(v) => Ok(v),
        Err(e) => Err(e@),
    }
}

pub open spec fn login_failed_message() -> Seq<char> {
    "Could not login to SUMA server."@
}

pub open spec fn details_failed_message() -> Seq<char> {
    "invalid server details."@
}

pub open spec fn no_patch_message() -> Seq<char> {
    "No patch found."@
}

pub open spec fn job_message(job: i32) -> Seq<char> {
    "Jobid: "@ + decimal(job as int)
}

pub open spec fn with_phase(s: SessionView, phase: PhaseView) -> SessionView {
    SessionView { phase, ..s }
}

/// Close the session with `token`, keeping `body` as the answer.
pub open spec fn closing(s: SessionView, token: Seq<char>, body: Seq<char>) -> (SessionView, ActionView) {
    (with_phase(s, PhaseView::LoggingOut(body)), ActionView::Call(CallView::Logout(token)))
}

/// The answer to a get-info request, from the details reply.
pub open spec fn details_body(reply: Result<RpcValue, Seq<char>>) -> Seq<char> {
    match reply {
        Err(_) => details_failed_message(),
        Ok(v) => match rendered(v) {
            Ok(html) => html,
            Err(f) => ShapeError::MissingDetail(f).spec_message(),
        },
    }
}

/// The answer to a patch request, from the scheduling reply.
pub open spec fn schedule_body(reply: Result<RpcValue, Seq<char>>) -> Seq<char> {
    match reply {
        Err(e) => e,
        Ok(v) => match job_of(v) {
            Ok(job) => job_message(job),
            Err(e) => e.spec_message(),
        },
    }
}

/// The session protocol: the state and action that follow a reply.
pub open spec fn next(s: SessionView, reply: Result<RpcValue, Seq<char>>) -> (SessionView, ActionView) {
    match s.phase {
        PhaseView::LoggingIn => match reply {
            Ok(v) if token_of(v) is Some => {
                let token = token_of(v)->0;
                (
                    with_phase(s, PhaseView::Resolving(token)),
                    ActionView::Call(CallView::GetId(token, s.host_name)),
                )
            },
            _ => (with_phase(s, PhaseView::Done), ActionView::Respond(login_failed_message(), false)),
        },
        PhaseView::Resolving(token) => match reply {
            Err(e) => closing(s, token, e),
            Ok(v) => match resolution(v) {
                Err(e) => closing(s, token, e.spec_message()),
                Ok(id) => match s.operation {
                    Operation::GetInfo => (
                        with_phase(s, PhaseView::FetchingDetails(token, id)),
                        ActionView::Call(CallView::GetDetails(token, id)),
                    ),
                    Operation::Patch => (
                        with_phase(s, PhaseView::FetchingErrata(token, id)),
                        ActionView::Call(CallView::GetRelevantErrata(token, id)),
                    ),
                },
            },
        },
        PhaseView::FetchingDetails(token, _) => closing(s, token, details_body(reply)),
        PhaseView::FetchingErrata(token, id) => match reply {
            Err(_) => closing(s, token, no_patch_message()),
            Ok(v) => match errata_of(v) {
                Err(e) => closing(s, token, e.spec_message()),
                Ok(ids) => (
                    with_phase(s, PhaseView::Scheduling(token)),
                    ActionView::Call(CallView::ScheduleApplyErrata(token, id, ids)),
                ),
            },
        },
        PhaseView::Scheduling(token) => closing(s, token, schedule_body(reply)),
        PhaseView::LoggingOut(body) => (
            with_phase(s, PhaseView::Done),
            ActionView::Respond(body, !(reply matches Ok(RpcValue::Int(_)))),
        ),
        PhaseView::Done => (s, ActionView::Respond(Seq::empty(), false)),
    }
}

fn close_with(operation: Operation, host_name: String, token: String, body: String) -> (r: (
    Session,
    Action,
))
    ensures
        r.0@ == with_phase(
            SessionView { operation, host_name: host_name@, phase: PhaseView::LoggingOut(body@) },
            PhaseView::LoggingOut(body@),
        ),
        r.1@ == ActionView::Call(CallView::Logout(token@)),
{
    (
        Session { operation, host_name, phase: Phase::LoggingOut { body } },
        Action::Call(RpcCall::Logout { token }),
    )
}

impl Session {
    /// Opens a session for `operation` on `host_name`: the first call logs in
    /// with the configured backend account.
    pub fn start(operation: Operation, host_name: String, config: &BackendConfig) -> (r: (
        Session,
        RpcCall,
    ))
        ensures
            r.0@ == (SessionView { operation, host_name: host_name@, phase: PhaseView::LoggingIn }),
            r.1@ == CallView::Login(config.user_name@, config.password@),
    {
        (
            Session { operation, host_name, phase: Phase::LoggingIn },
            RpcCall::Login {
                user_name: config.user_name.clone(),
                password: config.password.clone(),
            },
        )
    }

    /// Whether the request has been answered.
    pub fn is_done(&self) -> (r: bool)
        ensures
            r == (self@.phase is Done),
    {
        match self.phase {
            Phase::Done => true,
            _ => false,
        }
    }

    /// Takes the reply to the last call and decides what comes next.
    pub fn step(self, reply: Result<RpcValue, String>) -> (r: (Session, Action))
        requires
            !(self@.phase is Done),
        ensures
            (r.0@, r.1@) == next(self@, reply_view(reply)),
    {
        let ghost s = self@;
        let Session { operation, host_name, phase } = self;
        match phase {
            Phase::LoggingIn => {
                let token = match &reply {
                    Ok(v) => login_token(v),
                    Err(_) => None,
                };
                match token {
                    Some(token) => {
                        let call = RpcCall::GetId { token: token.clone(), host_name: host_name.clone() };
                        (
                            Session { operation, host_name, phase: Phase::Resolving { token } },
                            Action::Call(call),
                        )
                    },
                    None => (
                        Session { operation, host_name, phase: Phase::Done },
                        Action::Respond {
                            body: String::from_str("Could not login to SUMA server."),
                            close_failed: false,
                        },
                    ),
                }
            },
            Phase::Resolving { token } => {
                match reply {
                    Err(e) => close_with(operation, host_name, token, e),
                    Ok(v) => match resolve_system_id(&v) {
                        Err(e) => close_with(operation, host_name, token, e.message()),
                        Ok(system_id) => match operation {
                            Operation::GetInfo => {
                                let call = RpcCall::GetDetails { token: token.clone(), system_id };
                                (
                                    Session {
                                        operation,
                                        host_name,
                                        phase: Phase::FetchingDetails { token, system_id },
                                    },
                                    Action::Call(call),
                                )
                            },
                            Operation::Patch => {
                                let call = RpcCall::GetRelevantErrata {
                                    token: token.clone(),
                                    system_id,
                                };
                                (
                                    Session {
                                        operation,
                                        host_name,
                                        phase: Phase::FetchingErrata { token, system_id },
                                    },
                                    Action::Call(call),
                                )
                            },
                        },
                    },
                }
            },
            Phase::FetchingDetails { token, system_id: _ } => {
                let body = match &reply {
                    Err(_) => String::from_str("invalid server details."),
                    Ok(v) => match render_details(v) {
                        Ok(html) => html,
                        Err(e) => e.message(),
                    },
                };
                close_with(operation, host_name, token, body)
            },
            Phase::FetchingErrata { token, system_id } => {
                match &reply {
                    Err(_) => close_with(operation, host_name, token, String::from_str("No patch found.")),
                    Ok(v) => match errata_ids(v) {
                        Err(e) => close_with(operation, host_name, token, e.message()),
                        Ok(errata) => {
                            let call = RpcCall::ScheduleApplyErrata {
                                token: token.clone(),
                                system_id,
                                errata,
                            };
                            (
                                Session { operation, host_name, phase: Phase::Scheduling { token } },
                                Action::Call(call),
                            )
                        },
                    },
                }
            },
            Phase::Scheduling { token } => {
                let body = match reply {
                    Err(e) => e,
                    Ok(v) => match job_id(&v) {
                        Ok(job) => {
                            let mut text = String::from_str("Jobid: ");
                            text.append(format_i32(job).as_str());
                            text
                        },
                        Err(e) => e.message(),
                    },
                };
                close_with(operation, host_name, token, body)
            },
            Phase::LoggingOut { body } => {
                let confirmed = match &reply {
                    Ok(v) => logout_confirmed(v),
                    Err(_) => false,
                };
                (
                    Session { operation, host_name, phase: Phase::Done },
                    Action::Respond { body, close_failed: !confirmed },
                )
            },
            Phase::Done => (
                Session { operation, host_name, phase: Phase::Done },
                Action::Respond { body: String::new(), close_failed: false },
            ),
        }
    }
}

} // verus!
