//! The server's status report.

use vstd::prelude::*;
use crate::metadata::LYServerPluginMetadata;
use crate::registry::{loaded_metadata, LYServerSharedData};

verus! {

/// What the server reports of itself.
#[derive(Debug, PartialEq, Eq)]
pub struct LYServerSharedDataStatusData {
    pub data_dir: String,
    pub version: String,
    /// The time since the start, in milliseconds.
    pub uptime: u128,
    /// The start, in seconds since the epoch.
    pub start_time: u128,
    pub loaded_plugins: Vec<LYServerPluginMetadata>,
    pub pid: u32,
    /// The memory that the process uses, in bytes.
    pub used_memory: u64,
    pub cpu_count: usize,
    pub platform: String,
    pub os: String,
    pub os_version: String,
    pub os_kernel_version: String,
}

/// What is read from the machine for a status report.
#[derive(Debug, PartialEq, Eq)]
pub struct LYServerStatusProbe {
    /// The canonical form of the data directory, where it has one.
    pub canonical_data_dir: Option<String>,
    /// The time since the start in milliseconds, where the clock gives one.
    pub elapsed_millis: Option<u128>,
    /// The memory that the process uses, in bytes.
    pub used_memory: u64,
    pub cpu_count: usize,
    pub platform: String,
    pub os: String,
    pub os_version: String,
    pub os_kernel_version: String,
}

/// What can report the server's status.
pub trait LYServerSharedDataStatus {
    /// The status report, made of the shared state and of what was read from
    /// the machine.
    fn get_server_status(&self, probe: LYServerStatusProbe) -> LYServerSharedDataStatusData;
}

/// What can place a path under the data directory.
pub trait LYServerSharedDataDirectories {
    /// The place of a path under the data directory. `joined` is the path
    /// put behind the data directory, and `canonical` its canonical form,
    /// where the file system gives one.
    fn resolve_data_path(&self, joined: String, canonical: Option<String>) -> String;
}

impl<P, C, S> LYServerSharedDataDirectories for LYServerSharedData<P, C, S> {
    /// The canonical form where there is one, and the joined path otherwise.
    fn resolve_data_path(&self, joined: String, canonical: Option<String>) -> (r: String)
        ensures
            r@ == match canonical {
                Some(found) => found@,
                None => joined@,
            },
    {
        match canonical {
            Some(found) => found,
            None => joined,
        }
    }
}

impl<P, C, S> LYServerSharedDataStatus for LYServerSharedData<P, C, S> {
    /// The status report. The data directory is reported in its canonical
    /// form where it has one, and as it was given otherwise; the uptime is
    /// zero where the clock gives none; the loaded plugins are reported in
    /// load order; everything else is handed on.
    fn get_server_status(&self, probe: LYServerStatusProbe) -> (r: LYServerSharedDataStatusData)
        ensures
            r.data_dir@ == match probe.canonical_data_dir {
                Some(canonical) => canonical@,
                None => self.data_dir@,
            },
            r.version@ == self.version@,
            r.uptime == match probe.elapsed_millis {
                Some(elapsed) => elapsed,
                None => 0,
            },
            r.start_time == self.start_ts,
            r.loaded_plugins@.len() == self.loaded_plugins@.len(),
            forall|i: int|
                0 <= i < r.loaded_plugins@.len() ==> r.loaded_plugins@[i]@ == loaded_metadata(
                    self.loaded_plugins@,
                )[i],
            r.pid == self.pid,
            r.used_memory == probe.used_memory,
            r.cpu_count == probe.cpu_count,
            r.platform@ == probe.platform@,
            r.os@ == probe.os@,
            r.os_version@ == probe.os_version@,
            r.os_kernel_version@ == probe.os_kernel_version@,
    {
        let data_dir = match probe.canonical_data_dir {
            Some(canonical) => canonical,
            None => self.data_dir.clone(),
        };
        let uptime: u128 = match probe.elapsed_millis {
            Some(elapsed) => elapsed,
            None => 0,
        };
        LYServerSharedDataStatusData {
            data_dir,
            version: self.version.clone(),
            uptime,
            start_time: self.start_ts as u128,
            loaded_plugins: self.plugin_metadata(),
            pid: self.pid,
            used_memory: probe.used_memory,
            cpu_count: probe.cpu_count,
            platform: probe.platform,
            os: probe.os,
            os_version: probe.os_version,
            os_kernel_version: probe.os_kernel_version,
        }
    }
}

} // verus!
