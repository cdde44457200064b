//! The resource and isolation policy of the host.

use crate::model::{
    binds_ok, default_host_config, host_config_ok, limit_ok, HostConfigView,
    DEFAULT_MEMORY_RESERVATION,
};
use vstd::prelude::*;

verus! {

/// A configuration for the host. It does not depend on what is run: the same
/// policy can be attached to any number of invocations.
#[derive(Debug)]
pub struct HostConfig {
    /// CPU shares for the container: a relative weight.
    pub cpu_shares: Option<u64>,
    /// Number of CPUs available to the container.
    pub cpus: Option<u64>,
    /// Memory limit for the container, in bytes.
    pub memory: Option<u64>,
    /// Memory reservation for the container, in bytes: a soft limit.
    pub memory_reservation: Option<u64>,
    /// Bind mounts for the container, as (host path, container path). When
    /// present they replace the binds that are passed along with a run.
    pub binds: Option<Vec<(String, String)>>,
    /// Contain file systems, PID, IPC, and environment.
    pub contain_all: bool,
}

impl View for HostConfig {
    type V = HostConfigView;

    open spec fn view(&self) -> HostConfigView {
        HostConfigView {
            cpu_shares: self.cpu_shares,
            cpus: self.cpus,
            memory: self.memory,
            memory_reservation: self.memory_reservation,
            binds: self.binds.deep_view(),
            contain_all: self.contain_all,
        }
    }
}

/// Copies a list of bind mounts.
fn clone_binds(binds: &Vec<(String, String)>) -> (copy: Vec<(String, String)>)
    ensures
        copy.deep_view() == binds.deep_view(),
{
    let mut copy: Vec<(String, String)> = Vec::new();
    let mut i: usize = 0;
    while i < binds.len()
        invariant
            i <= binds.len(),
            copy.len() == i,
            forall|j: int|
                0 <= j < i ==> (#[trigger] copy@[j]).0@ == binds@[j].0@ && copy@[j].1@
                    == binds@[j].1@,
        decreases binds.len() - i,
    {
        copy.push((binds[i].0.clone(), binds[i].1.clone()));
        i += 1;
    }
    copy
}

impl Clone for HostConfig {
    /// A copy with the same limits, binds and containment.
    fn clone(&self) -> (copy: Self)
        ensures
            copy@ == self@,
    {
        HostConfig {
            cpu_shares: self.cpu_shares,
            cpus: self.cpus,
            memory: self.memory,
            memory_reservation: self.memory_reservation,
            binds: match &self.binds {
                Some(binds) => Some(clone_binds(binds)),
                None => None,
            },
            contain_all: self.contain_all,
        }
    }
}

/// The view of a host configuration that may be absent.
pub open spec fn host_view(host: Option<HostConfig>) -> Option<HostConfigView> {
    match host {
        Some(h) => Some(h@),
        None => None,
    }
}

impl Default for HostConfig {
    /// One CPU, 2 GiB of reserved memory, full containment.
    fn default() -> (host: Self)
        ensures
            host@ == default_host_config(),
            host_config_ok(host@),
    {
        HostConfig {
            cpu_shares: None,
            cpus: Some(1),
            memory: None,
            memory_reservation: Some(DEFAULT_MEMORY_RESERVATION),
            binds: None,
            contain_all: true,
        }
    }
}

/// Whether a limit, if present, is positive.
fn limit_is_valid(limit: Option<u64>) -> (ok: bool)
    ensures
        ok == limit_ok(limit),
{
    match limit {
        Some(n) => n > 0,
        None => true,
    }
}

/// Whether every bind mount names two non-empty paths.
fn binds_are_valid(binds: &Vec<(String, String)>) -> (ok: bool)
    ensures
        ok == binds_ok(binds.deep_view()),
{
    let mut i: usize = 0;
    while i < binds.len()
        invariant
            i <= binds.len(),
            forall|j: int|
                0 <= j < i ==> (#[trigger] binds.deep_view()[j]).0.len() > 0
                    && binds.deep_view()[j].1.len() > 0,
        decreases binds.len() - i,
    {
        if binds[i].0.as_str().is_empty() || binds[i].1.as_str().is_empty() {
            assert(binds.deep_view()[i as int] == (binds@[i as int].0@, binds@[i as int].1@));
            return false;
        }
        i += 1;
    }
    true
}

impl HostConfig {
    /// Checks the policy's invariant: limits that are present are positive,
    /// and no bind mount has an empty path.
    pub fn is_valid(&self) -> (ok: bool)
        ensures
            ok == host_config_ok(self@),
    {
        limit_is_valid(self.cpu_shares) && limit_is_valid(self.cpus) && limit_is_valid(
            self.memory,
        ) && limit_is_valid(self.memory_reservation) && match &self.binds {
            Some(binds) => binds_are_valid(binds),
            None => true,
        }
    }
}

} // verus!
