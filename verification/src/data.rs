//! Data model of the supervisor: the caller-supplied start configuration,
//! the status records of the two managed processes, the store that owns
//! them, the error taxonomy and the uniform response envelope.

use vstd::prelude::*;

verus! {

/// Largest process identifier the records accept: the native signal
/// interface takes a signed 32-bit identifier, and zero or negative values
/// address whole process groups rather than a single process.
pub open spec fn pid_ok(p: u32) -> bool {
    0 < p <= 0x7fff_ffff
}

/// Caller-supplied start configuration, immutable once accepted.
///
/// The paths are caller-validated strings: the supervisor does not
/// canonicalize or sandbox them, a documented limitation of the design.
#[derive(Debug, PartialEq, Eq)]
pub struct StartBody {
    pub core_type: Option<String>,
    pub bin_path: String,
    pub config_dir: String,
    pub config_file: String,
    pub log_file: String,
}

impl StartBody {
    /// True of the empty configuration, the value reported when no start
    /// has been accepted yet.
    pub open spec fn is_empty_config(&self) -> bool {
        &&& self.core_type is None
        &&& self.bin_path@.len() == 0
        &&& self.config_dir@.len() == 0
        &&& self.config_file@.len() == 0
        &&& self.log_file@.len() == 0
    }

    /// The empty configuration.
    pub fn empty() -> (r: StartBody)
        ensures
            r.is_empty_config(),
    {
        StartBody {
            core_type: None,
            bin_path: String::new(),
            config_dir: String::new(),
            config_file: String::new(),
            log_file: String::new(),
        }
    }
}

impl Clone for StartBody {
    fn clone(&self) -> (r: Self)
        ensures
            r == *self,
    {
        StartBody {
            core_type: match &self.core_type {
                Some(t) => Some(t.clone()),
                None => None,
            },
            bin_path: self.bin_path.clone(),
            config_dir: self.config_dir.clone(),
            config_file: self.config_file.clone(),
            log_file: self.log_file.clone(),
        }
    }
}

/// Status record of the primary managed process. It also carries the
/// last-applied start configuration, so the control plane can report it.
///
/// The record is only ever read or replaced as a whole, inside the store
/// that owns it: `is_running` and `running_pid` must never disagree, which
/// is what [`ClashStatus::wf`] states.
#[derive(Debug)]
pub struct ClashStatus {
    pub is_running: bool,
    pub running_pid: Option<u32>,
    pub runtime_config: Option<StartBody>,
}

impl ClashStatus {
    /// Well-formedness: the flag, the identifier and the configuration are
    /// either all present (a tracked, positively identified process) or all
    /// absent (idle).
    pub open spec fn wf(&self) -> bool {
        &&& self.is_running <==> self.running_pid is Some
        &&& self.is_running <==> self.runtime_config is Some
        &&& self.running_pid matches Some(p) ==> pid_ok(p)
    }

    /// No process is tracked.
    pub open spec fn is_idle(&self) -> bool {
        &&& !self.is_running
        &&& self.running_pid is None
        &&& self.runtime_config is None
    }

    /// The record a daemon starts with.
    pub fn idle() -> (r: ClashStatus)
        ensures
            r.is_idle(),
            r.wf(),
    {
        ClashStatus { is_running: false, running_pid: None, runtime_config: None }
    }
}

/// Status record of the auxiliary managed process: same state machine as
/// the primary record, without a configuration of its own (it is started
/// from the primary's last-applied configuration).
#[derive(Debug)]
pub struct MihomoStatus {
    pub is_running: bool,
    pub running_pid: Option<u32>,
}

impl MihomoStatus {
    /// Well-formedness: the flag and the identifier never disagree.
    pub open spec fn wf(&self) -> bool {
        &&& self.is_running <==> self.running_pid is Some
        &&& self.running_pid matches Some(p) ==> pid_ok(p)
    }

    /// No process is tracked.
    pub open spec fn is_idle(&self) -> bool {
        &&& !self.is_running
        &&& self.running_pid is None
    }

    /// The record a daemon starts with.
    pub fn idle() -> (r: MihomoStatus)
        ensures
            r.is_idle(),
            r.wf(),
    {
        MihomoStatus { is_running: false, running_pid: None }
    }
}

/// The status store: sole owner of a record. All reads and writes of the
/// record go through the exclusive reference that owns the store, so a
/// reader can never observe a half-updated record.
pub struct StatusInner<T> {
    pub inner: T,
}

impl<T> StatusInner<T> {
    pub fn new(inner: T) -> (r: Self)
        ensures
            r.inner == inner,
    {
        StatusInner { inner }
    }
}

/// Error taxonomy of the supervisor. Every failure a caller can see is one
/// of these; the control plane turns them into a failure envelope.
#[derive(Debug, Clone, Copy, PartialEq, Eq, Structural)]
pub enum ServiceError {
    /// The operating system refused to create the process.
    SpawnFailed,
    /// A termination signal could not be delivered to a live process;
    /// signalling an already-exited process is success, not this error.
    TerminationFailed,
    /// The log file path was not writable or creatable.
    LogOpenFailed,
    /// A status query found nothing to report.
    NotRunning,
    /// A start of the auxiliary process was asked for before any
    /// configuration had been accepted.
    ConfigNotSet,
}

impl ServiceError {
    /// The human-readable message the control plane reports.
    pub open spec fn message_spec(&self) -> Seq<char> {
        match self {
            ServiceError::SpawnFailed => "failed to spawn process"@,
            ServiceError::TerminationFailed => "failed to terminate process"@,
            ServiceError::LogOpenFailed => "failed to open log"@,
            ServiceError::NotRunning => "clash not executed"@,
            ServiceError::ConfigNotSet => "Runtime config is not set"@,
        }
    }

    /// The human-readable message the control plane reports.
    pub fn message(&self) -> (r: String)
        ensures
            r@ == self.message_spec(),
    {
        match self {
            ServiceError::SpawnFailed => "failed to spawn process".to_owned(),
            ServiceError::TerminationFailed => "failed to terminate process".to_owned(),
            ServiceError::LogOpenFailed => "failed to open log".to_owned(),
            ServiceError::NotRunning => "clash not executed".to_owned(),
            ServiceError::ConfigNotSet => "Runtime config is not set".to_owned(),
        }
    }
}

/// The uniform envelope every control-plane response is wrapped in.
pub struct JsonResponse<T> {
    pub code: u64,
    pub msg: String,
    pub data: Option<T>,
}

/// Identity of the daemon, reported by the version query.
#[derive(Debug)]
pub struct VersionInfo {
    pub service: String,
    pub version: String,
}

/// The supervisor: sole owner of the two status records and of every
/// lifecycle transition on them.
pub struct CoreManager {
    pub clash_status: StatusInner<ClashStatus>,
    pub mihomo_status: StatusInner<MihomoStatus>,
}

} // verus!
