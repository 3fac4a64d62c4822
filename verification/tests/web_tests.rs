use ssrapid_desktop_service::data::{JsonResponse, ServiceError};
use ssrapid_desktop_service::web::{get_version, route, wrap_result, Endpoint, HttpMethod};

#[test]
fn the_route_table_is_exact() {
    assert_eq!(route(HttpMethod::Get, "version"), Some(Endpoint::GetVersion));
    assert_eq!(route(HttpMethod::Get, "is_healthy"), Some(Endpoint::IsHealthy));
    assert_eq!(route(HttpMethod::Get, "get_clash"), Some(Endpoint::GetClash));
    assert_eq!(route(HttpMethod::Post, "start_clash"), Some(Endpoint::StartClash));
    assert_eq!(route(HttpMethod::Post, "stop_clash"), Some(Endpoint::StopClash));
    assert_eq!(route(HttpMethod::Post, "stop_service"), Some(Endpoint::StopService));
}

#[test]
fn off_table_requests_are_refused() {
    assert_eq!(route(HttpMethod::Post, "version"), None);
    assert_eq!(route(HttpMethod::Post, "is_healthy"), None);
    assert_eq!(route(HttpMethod::Post, "get_clash"), None);
    assert_eq!(route(HttpMethod::Get, "start_clash"), None);
    assert_eq!(route(HttpMethod::Get, "stop_clash"), None);
    assert_eq!(route(HttpMethod::Get, "stop_service"), None);
    assert_eq!(route(HttpMethod::Get, ""), None);
    assert_eq!(route(HttpMethod::Get, "Version"), None);
    assert_eq!(route(HttpMethod::Post, "start_clash/"), None);
}

#[test]
fn version_reports_the_service_identity() {
    let v = get_version();
    assert_eq!(v.service, "Clash Verge Service");
    assert_eq!(v.version, "0.1.0");
}

#[test]
fn success_envelope_has_code_zero_and_payload() {
    let resp: JsonResponse<u64> = wrap_result(Ok(7));
    assert_eq!(resp.code, 0);
    assert_eq!(resp.msg, "ok");
    assert_eq!(resp.data, Some(7));
}

#[test]
fn failure_envelopes_have_code_four_hundred_and_no_payload() {
    let cases = vec![
        (ServiceError::SpawnFailed, "failed to spawn process"),
        (ServiceError::TerminationFailed, "failed to terminate process"),
        (ServiceError::LogOpenFailed, "failed to open log"),
        (ServiceError::NotRunning, "clash not executed"),
        (ServiceError::ConfigNotSet, "Runtime config is not set"),
    ];
    for (err, text) in cases {
        let resp: JsonResponse<u64> = wrap_result(Err(err));
        assert_eq!(resp.code, 400);
        assert_eq!(resp.msg, text);
        assert_eq!(resp.data, None);
        assert_eq!(err.message(), text);
    }
}

#[test]
fn code_zero_exactly_on_success() {
    let ok: JsonResponse<bool> = wrap_result(Ok(true));
    let err: JsonResponse<bool> = wrap_result(Err(ServiceError::NotRunning));
    assert!(ok.code == 0 && ok.data.is_some());
    assert!(err.code != 0 && err.data.is_none());
}
