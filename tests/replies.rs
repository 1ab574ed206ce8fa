use suma_gateway::{
    endpoint_url, errata_ids, format_i32, job_id, login_token, logout_confirmed, lookup_member,
    render_details, resolve_system_id, BackendConfig, DetailField, Member, ResolveError,
    RpcValue, ShapeError,
};

fn member(name: &str, value: RpcValue) -> Member {
    Member { name: name.to_string(), value }
}

fn text(s: &str) -> RpcValue {
    RpcValue::Str(s.to_string())
}

fn id_record(id: i32) -> RpcValue {
    RpcValue::Struct(vec![member("name", text("host")), member("id", RpcValue::Int(id))])
}

fn details_without(missing: &str) -> RpcValue {
    let all = [
        ("minion_id", "web01"),
        ("machine_id", "abc123"),
        ("base_entitlement", "salt_entitled"),
        ("virtualization", "KVM"),
        ("contact_method", "default"),
    ];
    RpcValue::Struct(
        all.iter()
            .filter(|(n, _)| *n != missing)
            .map(|(n, v)| member(n, text(v)))
            .collect(),
    )
}

#[test]
fn resolves_first_record_id() {
    let reply = RpcValue::Array(vec![RpcValue::Struct(vec![member("id", RpcValue::Int(42))])]);
    assert_eq!(resolve_system_id(&reply), Ok(42));
}

#[test]
fn resolve_takes_first_of_several_matches() {
    let reply = RpcValue::Array(vec![id_record(7), id_record(9)]);
    assert_eq!(resolve_system_id(&reply), Ok(7));
}

#[test]
fn resolve_rejects_non_array() {
    assert_eq!(resolve_system_id(&text("x")), Err(ResolveError::NoArray));
    assert_eq!(ResolveError::NoArray.message(), "invalid server id, no array.");
}

#[test]
fn resolve_rejects_empty_array() {
    assert_eq!(resolve_system_id(&RpcValue::Array(vec![])), Err(ResolveError::Empty));
    assert_eq!(ResolveError::Empty.message(), "invalid server id in array.");
}

#[test]
fn resolve_rejects_record_without_integer_id() {
    let no_id = RpcValue::Array(vec![RpcValue::Struct(vec![member("name", text("h"))])]);
    assert_eq!(resolve_system_id(&no_id), Err(ResolveError::MissingId));
    let text_id = RpcValue::Array(vec![RpcValue::Struct(vec![member("id", text("42"))])]);
    assert_eq!(resolve_system_id(&text_id), Err(ResolveError::MissingId));
    let not_record = RpcValue::Array(vec![RpcValue::Int(42)]);
    assert_eq!(resolve_system_id(&not_record), Err(ResolveError::MissingId));
    assert_eq!(ResolveError::MissingId.message(), "invalid server id, no integer found.");
}

#[test]
fn lookup_finds_named_member() {
    let members = vec![member("a", RpcValue::Int(1)), member("b", RpcValue::Int(2))];
    assert!(matches!(lookup_member(&members, &"b".to_string()), Some(RpcValue::Int(2))));
    assert!(lookup_member(&members, &"c".to_string()).is_none());
}

#[test]
fn render_absent_record() {
    let html = render_details(&RpcValue::Other).unwrap();
    assert_eq!(
        html,
        "<p>minion_id: Not found</p><p>machine_id: Not found</p><p>base_entitlement: Not found</p><p>virtualization: Not found</p><p>contact_method: Not found</p>"
    );
}

#[test]
fn render_full_record() {
    let html = render_details(&details_without("")).unwrap();
    assert_eq!(
        html,
        "<p>minion_id: web01</p><p>machine_id: abc123</p><p>base_entitlement: salt_entitled</p><p>virtualization: KVM</p><p>contact_method: default</p>"
    );
}

#[test]
fn render_record_missing_virtualization_fails() {
    let r = render_details(&details_without("virtualization"));
    assert_eq!(r, Err(ShapeError::MissingDetail(DetailField::Virtualization)));
    assert_eq!(
        ShapeError::MissingDetail(DetailField::Virtualization).message(),
        "unexpected reply: no text for field virtualization"
    );
}

#[test]
fn render_record_missing_each_field_fails() {
    let fields = [
        ("minion_id", DetailField::MinionId),
        ("machine_id", DetailField::MachineId),
        ("base_entitlement", DetailField::BaseEntitlement),
        ("virtualization", DetailField::Virtualization),
        ("contact_method", DetailField::ContactMethod),
    ];
    for (name, field) in fields {
        assert_eq!(render_details(&details_without(name)), Err(ShapeError::MissingDetail(field)));
    }
}

#[test]
fn render_non_text_field_fails() {
    let mut record = details_without("minion_id");
    if let RpcValue::Struct(members) = &mut record {
        members.push(member("minion_id", RpcValue::Int(3)));
    }
    assert_eq!(render_details(&record), Err(ShapeError::MissingDetail(DetailField::MinionId)));
}

#[test]
fn errata_empty_list() {
    assert_eq!(errata_ids(&RpcValue::Array(vec![])), Ok(vec![]));
}

#[test]
fn errata_ids_in_order() {
    let reply = RpcValue::Array(vec![id_record(5), id_record(3), id_record(11)]);
    assert_eq!(errata_ids(&reply), Ok(vec![5, 3, 11]));
}

#[test]
fn errata_rejects_non_array() {
    assert_eq!(errata_ids(&RpcValue::Int(1)), Err(ShapeError::ErrataNotArray));
}

#[test]
fn errata_rejects_element_without_id() {
    let reply = RpcValue::Array(vec![id_record(5), RpcValue::Struct(vec![])]);
    assert_eq!(errata_ids(&reply), Err(ShapeError::ErratumWithoutId));
}

#[test]
fn job_id_is_first_element() {
    assert_eq!(job_id(&RpcValue::Array(vec![RpcValue::Int(77), RpcValue::Int(1)])), Ok(77));
    assert_eq!(job_id(&RpcValue::Array(vec![])), Err(ShapeError::NoJobId));
    assert_eq!(job_id(&RpcValue::Array(vec![text("77")])), Err(ShapeError::NoJobId));
    assert_eq!(job_id(&RpcValue::Int(77)), Err(ShapeError::NoJobId));
}

#[test]
fn login_and_logout_replies() {
    assert_eq!(login_token(&text("tok")), Some("tok".to_string()));
    assert_eq!(login_token(&RpcValue::Int(1)), None);
    assert!(logout_confirmed(&RpcValue::Int(1)));
    assert!(!logout_confirmed(&text("1")));
}

#[test]
fn decimal_formatting() {
    assert_eq!(format_i32(0), "0");
    assert_eq!(format_i32(42), "42");
    assert_eq!(format_i32(-7), "-7");
    assert_eq!(format_i32(1000), "1000");
    assert_eq!(format_i32(i32::MAX), "2147483647");
    assert_eq!(format_i32(i32::MIN), "-2147483648");
}

#[test]
fn endpoint_url_wraps_host() {
    assert_eq!(endpoint_url("suma.example.com"), "http://suma.example.com/rpc/api");
}

fn config() -> BackendConfig {
    BackendConfig {
        hostname: "http://suma/rpc/api".to_string(),
        user_name: "admin".to_string(),
        password: "secret".to_string(),
        certificate: "cert.pem".to_string(),
        tls_key: "key.pem".to_string(),
        restapi_port: 8443,
        http_basic_auth_user: "gw".to_string(),
        http_basic_auth_password: "pw".to_string(),
    }
}

#[test]
fn authenticate_checks_both_credentials() {
    let c = config();
    assert!(c.authenticate("gw", Some("pw")));
    assert!(!c.authenticate("gw", Some("px")));
    assert!(!c.authenticate("gx", Some("pw")));
    assert!(!c.authenticate("gw", None));
}
