//! The control plane, minus the socket: the fixed route table of the
//! loopback HTTP listener, the queries it answers directly, and the
//! uniform envelope every response is wrapped in. The unverified shell
//! only parses requests into these plain values and serializes the
//! envelope back out.

use vstd::prelude::*;
use crate::data::{ClashStatus, JsonResponse, ServiceError, StartBody, VersionInfo};

verus! {

/// The two request methods the control plane distinguishes.
#[derive(Debug, Clone, Copy, PartialEq, Eq, Structural)]
pub enum HttpMethod {
    Get,
    Post,
}

/// The fixed set of operations the control plane exposes.
#[derive(Debug, Clone, Copy, PartialEq, Eq, Structural)]
pub enum Endpoint {
    GetVersion,
    IsHealthy,
    GetClash,
    StartClash,
    StopClash,
    StopService,
}

/// The route table: which method and path reach which operation.
pub open spec fn route_spec(m: HttpMethod, path: Seq<char>) -> Option<Endpoint> {
    if m == HttpMethod::Get && path == "version"@ {
        Some(Endpoint::GetVersion)
    } else if m == HttpMethod::Get && path == "is_healthy"@ {
        Some(Endpoint::IsHealthy)
    } else if m == HttpMethod::Get && path == "get_clash"@ {
        Some(Endpoint::GetClash)
    } else if m == HttpMethod::Post && path == "start_clash"@ {
        Some(Endpoint::StartClash)
    } else if m == HttpMethod::Post && path == "stop_clash"@ {
        Some(Endpoint::StopClash)
    } else if m == HttpMethod::Post && path == "stop_service"@ {
        Some(Endpoint::StopService)
    } else {
        None
    }
}

/// Dispatch one request line to its operation; anything off the table is
/// `None`, which the listener answers with its not-found reply.
pub fn route(m: HttpMethod, path: &str) -> (r: Option<Endpoint>)
    ensures
        r == route_spec(m, path@),
{
    let p = path.to_owned();
    match m {
        HttpMethod::Get => {
            if p == "version".to_owned() {
                Some(Endpoint::GetVersion)
            } else if p == "is_healthy".to_owned() {
                Some(Endpoint::IsHealthy)
            } else if p == "get_clash".to_owned() {
                Some(Endpoint::GetClash)
            } else {
                None
            }
        },
        HttpMethod::Post => {
            if p == "start_clash".to_owned() {
                Some(Endpoint::StartClash)
            } else if p == "stop_clash".to_owned() {
                Some(Endpoint::StopClash)
            } else if p == "stop_service".to_owned() {
                Some(Endpoint::StopService)
            } else {
                None
            }
        },
    }
}

/// Identity of the daemon, as the version query reports it.
pub fn get_version() -> (r: VersionInfo)
    ensures
        r.service@ == "Clash Verge Service"@,
        r.version@ == "0.1.0"@,
{
    VersionInfo { service: "Clash Verge Service".to_owned(), version: "0.1.0".to_owned() }
}

/// The status query of the control plane: the last-applied configuration
/// of the primary record, or a failure when none is tracked.
pub fn get_clash(status: &ClashStatus) -> (r: Result<StartBody, ServiceError>)
    ensures
        r is Ok <==> status.runtime_config is Some,
        r matches Ok(b) ==> status.runtime_config matches Some(c) && b == c,
        r matches Err(e) ==> e == ServiceError::NotRunning,
{
    match &status.runtime_config {
        Some(c) => Ok(c.clone()),
        None => Err(ServiceError::NotRunning),
    }
}

/// Wrap an operation result in the uniform envelope: code zero with the
/// fixed message and the payload exactly on success, code four hundred
/// with the error's message and no payload exactly on failure.
pub fn wrap_result<T>(r: Result<T, ServiceError>) -> (resp: JsonResponse<T>)
    ensures
        resp.code == 0 <==> r is Ok,
        r matches Ok(v) ==> resp.code == 0 && resp.msg@ == "ok"@ && resp.data == Some(v),
        r matches Err(e) ==> resp.code == 400 && resp.msg@ == e.message_spec() && resp.data
            is None,
{
    match r {
        Ok(v) => JsonResponse { code: 0, msg: "ok".to_owned(), data: Some(v) },
        Err(e) => JsonResponse { code: 400, msg: e.message(), data: None },
    }
}

} // verus!
