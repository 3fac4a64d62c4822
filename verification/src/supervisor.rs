//! The supervisor: sole owner of every lifecycle transition on the two
//! status records. Starting a process is split in two verified steps,
//! because only the unverified shell may actually spawn: the supervisor
//! first clears the way (replace-in-place: a previous process is
//! terminated and untracked) and hands back a launch plan; once the shell
//! has spawned the plan, the supervisor records the new process. Stopping
//! and the queries are single calls.

use vstd::prelude::*;
use crate::data::{
    pid_ok, ClashStatus, CoreManager, MihomoStatus, ServiceError, StartBody, StatusInner,
    VersionInfo,
};
use crate::process::{terminate, TerminateConfig};

verus! {

/// Everything the shell needs to spawn a managed process: the accepted
/// configuration and the argument list for the executable.
pub struct LaunchPlan {
    pub config: StartBody,
    pub args: Vec<String>,
}

/// The fixed argument convention the core binary is launched with: its
/// configuration directory and configuration file.
pub open spec fn args_match(config: StartBody, args: Seq<String>) -> bool {
    &&& args.len() == 4
    &&& args[0]@ == "-d"@
    &&& args[1]@ == config.config_dir@
    &&& args[2]@ == "-f"@
    &&& args[3]@ == config.config_file@
}

/// Build the launch arguments for a configuration.
pub fn launch_args(config: &StartBody) -> (r: Vec<String>)
    ensures
        args_match(*config, r@),
{
    let mut args: Vec<String> = Vec::new();
    args.push("-d".to_owned());
    args.push(config.config_dir.clone());
    args.push("-f".to_owned());
    args.push(config.config_file.clone());
    args
}

/// A launch plan made for `config`.
pub open spec fn plan_for(config: StartBody, plan: LaunchPlan) -> bool {
    &&& plan.config == config
    &&& args_match(config, plan.args@)
}

/// The primary record after a successful start: a second start always
/// supersedes the first, whatever was tracked before.
pub open spec fn clash_start_step(prev: ClashStatus, config: StartBody, pid: u32) -> ClashStatus {
    ClashStatus { is_running: true, running_pid: Some(pid), runtime_config: Some(config) }
}

/// The primary record after a successful stop: nothing tracked, the
/// configuration cleared.
pub open spec fn clash_stop_step(prev: ClashStatus) -> ClashStatus {
    ClashStatus { is_running: false, running_pid: None, runtime_config: None }
}

/// The auxiliary record after a successful start.
pub open spec fn mihomo_start_step(prev: MihomoStatus, pid: u32) -> MihomoStatus {
    MihomoStatus { is_running: true, running_pid: Some(pid) }
}

/// The auxiliary record after a successful stop.
pub open spec fn mihomo_stop_step(prev: MihomoStatus) -> MihomoStatus {
    MihomoStatus { is_running: false, running_pid: None }
}

/// Law: stopping is idempotent. A stop leaves the record idle, and a stop
/// of an idle record changes nothing, so two stops in a row both succeed
/// and the record ends idle either way.
pub proof fn lemma_stop_idempotent(c: ClashStatus, m: MihomoStatus)
    ensures
        clash_stop_step(c).is_idle(),
        clash_stop_step(clash_stop_step(c)) == clash_stop_step(c),
        mihomo_stop_step(m).is_idle(),
        mihomo_stop_step(mihomo_stop_step(m)) == mihomo_stop_step(m),
{
}

/// Law: a start replaces in place. Starting with configuration `b` right
/// after a start with configuration `a` leaves exactly the record a single
/// start with `b` would have left, and the only tracked process is the
/// second one.
pub proof fn lemma_start_replaces_in_place(
    r: ClashStatus,
    a: StartBody,
    pa: u32,
    b: StartBody,
    pb: u32,
)
    ensures
        clash_start_step(clash_start_step(r, a, pa), b, pb) == clash_start_step(r, b, pb),
        clash_start_step(clash_start_step(r, a, pa), b, pb).running_pid == Some(pb),
{
}

/// Law: no split state. In well-formed records a set running flag always
/// comes with a positive process identifier, and a cleared flag with no
/// identifier at all.
pub proof fn lemma_no_split_state(c: ClashStatus, m: MihomoStatus)
    requires
        c.wf(),
        m.wf(),
    ensures
        c.is_running ==> (c.running_pid matches Some(p) && 0 < p),
        !c.is_running ==> c.running_pid is None,
        m.is_running ==> (m.running_pid matches Some(p) && 0 < p),
        !m.is_running ==> m.running_pid is None,
{
}

/// Law: the lifecycle transitions preserve well-formedness, so no
/// sequence of starts and stops can ever produce a split record.
pub proof fn lemma_steps_preserve_wf(c: ClashStatus, m: MihomoStatus, config: StartBody, pid: u32)
    requires
        pid_ok(pid),
    ensures
        clash_start_step(c, config, pid).wf(),
        clash_stop_step(c).wf(),
        mihomo_start_step(m, pid).wf(),
        mihomo_stop_step(m).wf(),
{
}

impl CoreManager {
    /// Both records are well-formed: the single invariant every method
    /// preserves.
    pub open spec fn wf(&self) -> bool {
        &&& self.clash_status.inner.wf()
        &&& self.mihomo_status.inner.wf()
    }

    /// A fresh supervisor tracks nothing.
    pub fn new() -> (r: CoreManager)
        ensures
            r.wf(),
            r.clash_status.inner.is_idle(),
            r.mihomo_status.inner.is_idle(),
    {
        CoreManager {
            clash_status: StatusInner::new(ClashStatus::idle()),
            mihomo_status: StatusInner::new(MihomoStatus::idle()),
        }
    }

    /// Health query: true exactly when both managed processes report
    /// running with a positive process identifier.
    pub fn is_healthy(&self) -> (r: Result<bool, ServiceError>)
        ensures
            r matches Ok(h) && h == ({
                &&& self.clash_status.inner.is_running
                &&& self.clash_status.inner.running_pid matches Some(p) && 0 < p
                &&& self.mihomo_status.inner.is_running
                &&& self.mihomo_status.inner.running_pid matches Some(q) && 0 < q
            }),
    {
        let clash_ok = self.clash_status.inner.is_running && match self.clash_status.inner.running_pid {
            Some(p) => p > 0,
            None => false,
        };
        let mihomo_ok = self.mihomo_status.inner.is_running && match self.mihomo_status.inner.running_pid {
            Some(q) => q > 0,
            None => false,
        };
        Ok(clash_ok && mihomo_ok)
    }

    /// Identity of the daemon.
    pub fn get_version(&self) -> (r: VersionInfo)
        ensures
            r.service@ == "Clash Verge Service"@,
            r.version@ == "0.1.0"@,
    {
        crate::web::get_version()
    }

    /// The last-applied configuration, or the empty configuration when no
    /// start has been accepted yet; this query never fails.
    pub fn get_clash_status(&self) -> (r: Result<StartBody, ServiceError>)
        ensures
            r is Ok,
            self.clash_status.inner.runtime_config matches Some(c) ==> r matches Ok(b) && b == c,
            self.clash_status.inner.runtime_config is None ==> (r matches Ok(b)
                && b.is_empty_config()),
    {
        match &self.clash_status.inner.runtime_config {
            Some(c) => Ok(c.clone()),
            None => Ok(StartBody::empty()),
        }
    }

    /// First step of starting the primary process. Replace-in-place: a
    /// process already tracked is terminated and untracked first, then the
    /// launch plan for `body` is handed back for the shell to spawn. The
    /// record is only changed once termination has succeeded; a
    /// termination failure leaves everything as it was.
    pub fn start_clash(&mut self, body: StartBody) -> (r: Result<LaunchPlan, ServiceError>)
        requires
            old(self).wf(),
        ensures
            final(self).wf(),
            final(self).mihomo_status == old(self).mihomo_status,
            old(self).clash_status.inner.is_idle() ==> r is Ok,
            r matches Ok(plan) ==> final(self).clash_status.inner.is_idle() && plan_for(
                body,
                plan,
            ),
            r matches Err(e) ==> *final(self) == *old(self) && e
                == ServiceError::TerminationFailed,
    {
        if self.clash_status.inner.is_running {
            let pid_opt = self.clash_status.inner.running_pid;
            if let Some(pid) = pid_opt {
                let budget = TerminateConfig::standard();
                match terminate(pid, &budget) {
                    Ok(_) => {},
                    Err(e) => {
                        return Err(e);
                    },
                }
            }
            self.clash_status.inner = ClashStatus::idle();
        }
        let args = launch_args(&body);
        Ok(LaunchPlan { config: body, args })
    }

    /// Second step of starting the primary process: record the process the
    /// shell has spawned, together with its accepted configuration, and
    /// hand back the follow-up the design owes — after every successful
    /// primary start the auxiliary is (re)started, running or not, so it
    /// picks up the fresh configuration. A running auxiliary is terminated
    /// first; only that termination can fail, and the primary stays
    /// recorded either way.
    pub fn record_clash_started(&mut self, config: StartBody, pid: u32) -> (r: Result<
        LaunchPlan,
        ServiceError,
    >)
        requires
            old(self).wf(),
            pid_ok(pid),
        ensures
            final(self).wf(),
            final(self).clash_status.inner == clash_start_step(
                old(self).clash_status.inner,
                config,
                pid,
            ),
            old(self).mihomo_status.inner.is_idle() ==> r is Ok,
            r matches Ok(plan) ==> final(self).mihomo_status.inner.is_idle() && plan_for(
                config,
                plan,
            ),
            r matches Err(e) ==> e == ServiceError::TerminationFailed && final(self).mihomo_status
                == old(self).mihomo_status,
    {
        self.clash_status.inner = ClashStatus {
            is_running: true,
            running_pid: Some(pid),
            runtime_config: Some(config),
        };
        self.start_mihomo()
    }

    /// Stop the primary process. Idempotent: finding the record idle is
    /// success. Otherwise the tracked process is terminated and only then
    /// is the record cleared; a termination failure leaves it untouched.
    pub fn stop_clash(&mut self) -> (r: Result<(), ServiceError>)
        requires
            old(self).wf(),
        ensures
            final(self).wf(),
            final(self).mihomo_status == old(self).mihomo_status,
            old(self).clash_status.inner.is_idle() ==> r is Ok && *final(self) == *old(self),
            r is Ok ==> final(self).clash_status.inner == clash_stop_step(
                old(self).clash_status.inner,
            ),
            r matches Err(e) ==> *final(self) == *old(self) && e
                == ServiceError::TerminationFailed,
    {
        if !self.clash_status.inner.is_running {
            return Ok(());
        }
        let pid_opt = self.clash_status.inner.running_pid;
        if let Some(pid) = pid_opt {
            let budget = TerminateConfig::standard();
            match terminate(pid, &budget) {
                Ok(_) => {},
                Err(e) => {
                    return Err(e);
                },
            }
        }
        self.clash_status.inner = ClashStatus::idle();
        Ok(())
    }

    /// First step of starting the auxiliary process from the last-applied
    /// primary configuration. Fails when no configuration has been
    /// accepted yet; otherwise replace-in-place, as for the primary.
    pub fn start_mihomo(&mut self) -> (r: Result<LaunchPlan, ServiceError>)
        requires
            old(self).wf(),
        ensures
            final(self).wf(),
            final(self).clash_status == old(self).clash_status,
            old(self).clash_status.inner.runtime_config is None ==> (r matches Err(e) && e
                == ServiceError::ConfigNotSet),
            old(self).clash_status.inner.runtime_config is Some && old(
                self,
            ).mihomo_status.inner.is_idle() ==> r is Ok,
            r matches Ok(plan) ==> ({
                &&& final(self).mihomo_status.inner.is_idle()
                &&& old(self).clash_status.inner.runtime_config matches Some(c) && plan_for(
                    c,
                    plan,
                )
            }),
            r matches Err(e) ==> *final(self) == *old(self) && (e == ServiceError::ConfigNotSet
                || e == ServiceError::TerminationFailed),
            r matches Err(e) ==> (old(self).clash_status.inner.runtime_config is Some ==> e
                == ServiceError::TerminationFailed),
    {
        let config = match &self.clash_status.inner.runtime_config {
            Some(c) => c.clone(),
            None => {
                return Err(ServiceError::ConfigNotSet);
            },
        };
        if self.mihomo_status.inner.is_running {
            let pid_opt = self.mihomo_status.inner.running_pid;
            if let Some(pid) = pid_opt {
                let budget = TerminateConfig::standard();
                match terminate(pid, &budget) {
                    Ok(_) => {},
                    Err(e) => {
                        return Err(e);
                    },
                }
            }
            self.mihomo_status.inner = MihomoStatus::idle();
        }
        let args = launch_args(&config);
        Ok(LaunchPlan { config, args })
    }

    /// Second step of starting the auxiliary process: record the process
    /// the shell has spawned.
    pub fn record_mihomo_started(&mut self, pid: u32)
        requires
            old(self).wf(),
            pid_ok(pid),
        ensures
            final(self).wf(),
            final(self).mihomo_status.inner == mihomo_start_step(
                old(self).mihomo_status.inner,
                pid,
            ),
            final(self).clash_status == old(self).clash_status,
    {
        self.mihomo_status.inner = MihomoStatus { is_running: true, running_pid: Some(pid) };
    }

    /// Stop the auxiliary process; idempotent like [`Self::stop_clash`].
    pub fn stop_mihomo(&mut self) -> (r: Result<(), ServiceError>)
        requires
            old(self).wf(),
        ensures
            final(self).wf(),
            final(self).clash_status == old(self).clash_status,
            old(self).mihomo_status.inner.is_idle() ==> r is Ok && *final(self) == *old(self),
            r is Ok ==> final(self).mihomo_status.inner == mihomo_stop_step(
                old(self).mihomo_status.inner,
            ),
            r matches Err(e) ==> *final(self) == *old(self) && e
                == ServiceError::TerminationFailed,
    {
        if !self.mihomo_status.inner.is_running {
            return Ok(());
        }
        let pid_opt = self.mihomo_status.inner.running_pid;
        if let Some(pid) = pid_opt {
            let budget = TerminateConfig::standard();
            match terminate(pid, &budget) {
                Ok(_) => {},
                Err(e) => {
                    return Err(e);
                },
            }
        }
        self.mihomo_status.inner = MihomoStatus::idle();
        Ok(())
    }
}

} // verus!
