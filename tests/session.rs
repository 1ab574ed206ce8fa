use suma_gateway::{
    Action, BackendConfig, Member, Operation, ResolveError, RpcCall, RpcValue, Session,
};

fn config() -> BackendConfig {
    BackendConfig {
        hostname: "http://suma/rpc/api".to_string(),
        user_name: "admin".to_string(),
        password: "secret".to_string(),
        certificate: "cert.pem".to_string(),
        tls_key: "key.pem".to_string(),
        restapi_port: 8443,
        http_basic_auth_user: "gw".to_string(),
        http_basic_auth_password: "pw".to_string(),
    }
}

fn text(s: &str) -> RpcValue {
    RpcValue::Str(s.to_string())
}

fn id_list(ids: &[i32]) -> RpcValue {
    RpcValue::Array(
        ids.iter()
            .map(|id| RpcValue::Struct(vec![Member { name: "id".to_string(), value: RpcValue::Int(*id) }]))
            .collect(),
    )
}

fn details() -> RpcValue {
    let fields = [
        ("minion_id", "web01"),
        ("machine_id", "abc123"),
        ("base_entitlement", "salt_entitled"),
        ("virtualization", "KVM"),
        ("contact_method", "default"),
    ];
    RpcValue::Struct(
        fields
            .iter()
            .map(|(n, v)| Member { name: n.to_string(), value: text(v) })
            .collect(),
    )
}

/// Runs a session to its answer, feeding one reply per call; returns the calls
/// made after login, the answer and whether the close failed.
fn drive(
    operation: Operation,
    host: &str,
    replies: Vec<Result<RpcValue, String>>,
) -> (Vec<RpcCall>, String, bool) {
    let (mut session, first) = Session::start(operation, host.to_string(), &config());
    assert!(matches!(first, RpcCall::Login { ref user_name, ref password } if user_name == "admin" && password == "secret"));
    let mut calls = Vec::new();
    for reply in replies {
        assert!(!session.is_done());
        let (next, action) = session.step(reply);
        session = next;
        match action {
            Action::Call(c) => calls.push(c),
            Action::Respond { body, close_failed } => {
                assert!(session.is_done());
                return (calls, body, close_failed);
            },
        }
    }
    panic!("session did not answer");
}

fn logouts(calls: &[RpcCall]) -> Vec<String> {
    calls
        .iter()
        .filter_map(|c| match c {
            RpcCall::Logout { token } => Some(token.clone()),
            _ => None,
        })
        .collect()
}

#[test]
fn getinfo_renders_details_and_logs_out() {
    let (calls, body, close_failed) = drive(
        Operation::GetInfo,
        "web01",
        vec![Ok(text("T1")), Ok(id_list(&[42])), Ok(details()), Ok(RpcValue::Int(1))],
    );
    assert!(matches!(&calls[0], RpcCall::GetId { token, host_name } if token == "T1" && host_name == "web01"));
    assert!(matches!(&calls[1], RpcCall::GetDetails { token, system_id: 42 } if token == "T1"));
    assert!(matches!(&calls[2], RpcCall::Logout { token } if token == "T1"));
    assert_eq!(calls.len(), 3);
    assert_eq!(
        body,
        "<p>minion_id: web01</p><p>machine_id: abc123</p><p>base_entitlement: salt_entitled</p><p>virtualization: KVM</p><p>contact_method: default</p>"
    );
    assert!(!close_failed);
}

#[test]
fn getinfo_logs_out_once_when_details_fail() {
    let (calls, body, _) = drive(
        Operation::GetInfo,
        "web01",
        vec![Ok(text("T1")), Ok(id_list(&[42])), Err("connection reset".to_string()), Ok(RpcValue::Int(1))],
    );
    assert_eq!(logouts(&calls), vec!["T1".to_string()]);
    assert_eq!(body, "invalid server details.");
}

#[test]
fn getinfo_logs_out_once_when_record_is_incomplete() {
    let mut record = details();
    if let RpcValue::Struct(members) = &mut record {
        members.retain(|m| m.name != "virtualization");
    }
    let (calls, body, _) = drive(
        Operation::GetInfo,
        "web01",
        vec![Ok(text("T1")), Ok(id_list(&[42])), Ok(record), Ok(RpcValue::Int(1))],
    );
    assert_eq!(logouts(&calls), vec!["T1".to_string()]);
    assert_eq!(body, "unexpected reply: no text for field virtualization");
}

#[test]
fn empty_lookup_answers_resolver_message_for_both_operations() {
    for op in [Operation::GetInfo, Operation::Patch] {
        let (calls, body, _) = drive(
            op,
            "ghost",
            vec![Ok(text("T1")), Ok(RpcValue::Array(vec![])), Ok(RpcValue::Int(1))],
        );
        assert_eq!(body, ResolveError::Empty.message());
        assert_eq!(body, "invalid server id in array.");
        assert_eq!(logouts(&calls), vec!["T1".to_string()]);
        assert_eq!(calls.len(), 2);
    }
}

#[test]
fn patch_with_no_errata_still_schedules() {
    let (calls, body, _) = drive(
        Operation::Patch,
        "web01",
        vec![
            Ok(text("T1")),
            Ok(id_list(&[42])),
            Ok(RpcValue::Array(vec![])),
            Ok(RpcValue::Array(vec![RpcValue::Int(1234)])),
            Ok(RpcValue::Int(1)),
        ],
    );
    assert!(matches!(&calls[1], RpcCall::GetRelevantErrata { token, system_id: 42 } if token == "T1"));
    assert!(matches!(&calls[2], RpcCall::ScheduleApplyErrata { token, system_id: 42, errata } if token == "T1" && errata.is_empty()));
    assert_eq!(body, "Jobid: 1234");
    assert_eq!(logouts(&calls), vec!["T1".to_string()]);
}

#[test]
fn patch_schedules_all_errata() {
    let (calls, body, _) = drive(
        Operation::Patch,
        "web01",
        vec![
            Ok(text("T1")),
            Ok(id_list(&[42])),
            Ok(id_list(&[5, 8, 13])),
            Ok(RpcValue::Array(vec![RpcValue::Int(-3)])),
            Ok(RpcValue::Int(1)),
        ],
    );
    assert!(matches!(&calls[2], RpcCall::ScheduleApplyErrata { errata, .. } if *errata == vec![5, 8, 13]));
    assert_eq!(calls[2].method(), "system.scheduleApplyErrata");
    assert_eq!(body, "Jobid: -3");
}

#[test]
fn patch_errata_failure_answers_no_patch() {
    let (calls, body, _) = drive(
        Operation::Patch,
        "web01",
        vec![Ok(text("T1")), Ok(id_list(&[42])), Err("timeout".to_string()), Ok(RpcValue::Int(1))],
    );
    assert_eq!(body, "No patch found.");
    assert_eq!(logouts(&calls), vec!["T1".to_string()]);
}

#[test]
fn patch_scheduling_error_is_shown_verbatim() {
    let (calls, body, _) = drive(
        Operation::Patch,
        "web01",
        vec![
            Ok(text("T1")),
            Ok(id_list(&[42])),
            Ok(id_list(&[5])),
            Err("fault 2800: no such erratum".to_string()),
            Ok(RpcValue::Int(1)),
        ],
    );
    assert_eq!(body, "fault 2800: no such erratum");
    assert_eq!(logouts(&calls), vec!["T1".to_string()]);
}

#[test]
fn failed_login_answers_without_logout() {
    let (calls, body, close_failed) =
        drive(Operation::GetInfo, "web01", vec![Err("refused".to_string())]);
    assert!(calls.is_empty());
    assert_eq!(body, "Could not login to SUMA server.");
    assert!(!close_failed);
    let (calls, _, _) = drive(Operation::Patch, "web01", vec![Ok(RpcValue::Int(3))]);
    assert!(calls.is_empty());
}

#[test]
fn failed_logout_keeps_answer() {
    let (_, body, close_failed) = drive(
        Operation::Patch,
        "web01",
        vec![Ok(text("T1")), Ok(RpcValue::Array(vec![])), Err("gone".to_string())],
    );
    assert_eq!(body, "invalid server id in array.");
    assert!(close_failed);
}

#[test]
fn concurrent_sessions_keep_their_own_tokens() {
    let c = config();
    let (a, _) = Session::start(Operation::GetInfo, "alpha".to_string(), &c);
    let (b, _) = Session::start(Operation::GetInfo, "beta".to_string(), &c);
    let (a, call_a) = a.step(Ok(text("TA")));
    let (b, call_b) = b.step(Ok(text("TB")));
    assert!(matches!(call_a, Action::Call(RpcCall::GetId { ref token, ref host_name }) if token == "TA" && host_name == "alpha"));
    assert!(matches!(call_b, Action::Call(RpcCall::GetId { ref token, ref host_name }) if token == "TB" && host_name == "beta"));
    let (b, call_b) = b.step(Ok(id_list(&[2])));
    let (a, call_a) = a.step(Ok(id_list(&[1])));
    assert!(matches!(call_a, Action::Call(RpcCall::GetDetails { ref token, system_id: 1 }) if token == "TA"));
    assert!(matches!(call_b, Action::Call(RpcCall::GetDetails { ref token, system_id: 2 }) if token == "TB"));
    let (_, call_a) = a.step(Ok(details()));
    let (_, call_b) = b.step(Ok(details()));
    assert!(matches!(call_a, Action::Call(RpcCall::Logout { ref token }) if token == "TA"));
    assert!(matches!(call_b, Action::Call(RpcCall::Logout { ref token }) if token == "TB"));
}

#[test]
fn call_method_names() {
    let (_, login) = Session::start(Operation::Patch, "h".to_string(), &config());
    assert_eq!(login.method(), "auth.login");
    assert_eq!(RpcCall::Logout { token: "t".to_string() }.method(), "auth.logout");
    assert_eq!(RpcCall::GetId { token: "t".to_string(), host_name: "h".to_string() }.method(), "system.getId");
    assert_eq!(RpcCall::GetDetails { token: "t".to_string(), system_id: 1 }.method(), "system.getDetails");
    assert_eq!(RpcCall::GetRelevantErrata { token: "t".to_string(), system_id: 1 }.method(), "system.getRelevantErrata");
}
