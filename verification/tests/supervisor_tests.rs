use ssrapid_desktop_service::data::{CoreManager, ServiceError, StartBody};
use ssrapid_desktop_service::supervisor::launch_args;
use ssrapid_desktop_service::web::get_clash;

// A process identifier no live process plausibly carries: far above any
// default pid ceiling, so signalling it reports "no such process", which
// the terminator treats as success.
const STALE_PID: u32 = 0x7fff_fff0;

fn config(tag: &str) -> StartBody {
    StartBody {
        core_type: Some("mihomo".to_string()),
        bin_path: format!("/usr/bin/{tag}"),
        config_dir: format!("/etc/{tag}"),
        config_file: format!("/etc/{tag}/config.yaml"),
        log_file: format!("/var/log/{tag}.log"),
    }
}

#[test]
fn fresh_manager_tracks_nothing() {
    let mgr = CoreManager::new();
    assert!(!mgr.clash_status.inner.is_running);
    assert_eq!(mgr.clash_status.inner.running_pid, None);
    assert!(mgr.clash_status.inner.runtime_config.is_none());
    assert!(!mgr.mihomo_status.inner.is_running);
    assert_eq!(mgr.mihomo_status.inner.running_pid, None);
    assert_eq!(mgr.is_healthy(), Ok(false));
}

#[test]
fn stop_is_idempotent() {
    let mut mgr = CoreManager::new();
    assert_eq!(mgr.stop_clash(), Ok(()));
    assert_eq!(mgr.stop_clash(), Ok(()));
    assert!(!mgr.clash_status.inner.is_running);
    assert_eq!(mgr.clash_status.inner.running_pid, None);
    assert_eq!(mgr.stop_mihomo(), Ok(()));
    assert_eq!(mgr.stop_mihomo(), Ok(()));
    assert!(!mgr.mihomo_status.inner.is_running);
}

#[test]
fn stop_clears_a_tracked_record() {
    let mut mgr = CoreManager::new();
    let plan = mgr.start_clash(config("a")).unwrap();
    mgr.record_clash_started(plan.config, STALE_PID).unwrap();
    assert!(mgr.clash_status.inner.is_running);
    assert_eq!(mgr.stop_clash(), Ok(()));
    assert!(!mgr.clash_status.inner.is_running);
    assert_eq!(mgr.clash_status.inner.running_pid, None);
    assert!(mgr.clash_status.inner.runtime_config.is_none());
    assert_eq!(mgr.stop_clash(), Ok(()));
}

#[test]
fn second_start_replaces_the_first() {
    let mut mgr = CoreManager::new();
    let plan_a = mgr.start_clash(config("a")).unwrap();
    mgr.record_clash_started(plan_a.config, STALE_PID).unwrap();
    let plan_b = mgr.start_clash(config("b")).unwrap();
    let follow_up = mgr.record_clash_started(plan_b.config, STALE_PID - 1).unwrap();
    // The follow-up plan the recorder owes is for the fresh configuration.
    assert_eq!(follow_up.config, config("b"));
    assert!(mgr.clash_status.inner.is_running);
    assert_eq!(mgr.clash_status.inner.running_pid, Some(STALE_PID - 1));
    assert_eq!(mgr.clash_status.inner.runtime_config, Some(config("b")));
}

#[test]
fn health_needs_both_processes() {
    // Idle and idle.
    let mut mgr = CoreManager::new();
    assert_eq!(mgr.is_healthy(), Ok(false));

    // Primary only.
    let plan = mgr.start_clash(config("a")).unwrap();
    mgr.record_clash_started(plan.config, STALE_PID).unwrap();
    assert_eq!(mgr.is_healthy(), Ok(false));

    // Both.
    mgr.record_mihomo_started(STALE_PID - 1);
    assert_eq!(mgr.is_healthy(), Ok(true));

    // Auxiliary only.
    assert_eq!(mgr.stop_clash(), Ok(()));
    assert!(mgr.mihomo_status.inner.is_running);
    assert_eq!(mgr.is_healthy(), Ok(false));
}

#[test]
fn status_query_reports_last_config_or_empty() {
    let mut mgr = CoreManager::new();
    let empty = mgr.get_clash_status().unwrap();
    assert_eq!(empty.core_type, None);
    assert_eq!(empty.bin_path, "");
    assert_eq!(empty.config_dir, "");
    assert_eq!(empty.config_file, "");
    assert_eq!(empty.log_file, "");

    let plan = mgr.start_clash(config("a")).unwrap();
    mgr.record_clash_started(plan.config, STALE_PID).unwrap();
    assert_eq!(mgr.get_clash_status(), Ok(config("a")));
}

#[test]
fn get_clash_fails_when_nothing_ran() {
    let mgr = CoreManager::new();
    assert_eq!(get_clash(&mgr.clash_status.inner), Err(ServiceError::NotRunning));
    let mut mgr = CoreManager::new();
    let plan = mgr.start_clash(config("a")).unwrap();
    mgr.record_clash_started(plan.config, STALE_PID).unwrap();
    assert_eq!(get_clash(&mgr.clash_status.inner), Ok(config("a")));
}

#[test]
fn auxiliary_start_needs_a_config() {
    let mut mgr = CoreManager::new();
    assert!(matches!(mgr.start_mihomo(), Err(ServiceError::ConfigNotSet)));

    let plan = mgr.start_clash(config("a")).unwrap();
    mgr.record_clash_started(plan.config, STALE_PID).unwrap();
    let aux_plan = mgr.start_mihomo().unwrap();
    assert_eq!(aux_plan.config, config("a"));
    assert_eq!(
        aux_plan.args,
        vec![
            "-d".to_string(),
            "/etc/a".to_string(),
            "-f".to_string(),
            "/etc/a/config.yaml".to_string(),
        ]
    );
    mgr.record_mihomo_started(STALE_PID - 1);
    assert!(mgr.mihomo_status.inner.is_running);
    assert_eq!(mgr.stop_mihomo(), Ok(()));
    assert!(!mgr.mihomo_status.inner.is_running);
}

#[test]
fn launch_args_follow_the_convention() {
    let cfg = config("x");
    let args = launch_args(&cfg);
    assert_eq!(
        args,
        vec![
            "-d".to_string(),
            "/etc/x".to_string(),
            "-f".to_string(),
            "/etc/x/config.yaml".to_string(),
        ]
    );
}
