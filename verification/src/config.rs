//! The server's arguments, their defaults, and the checks that a startup has
//! to pass.

use vstd::prelude::*;
use crate::error::LYServerErrorKind;
use crate::registry::{Ids, LYServerSharedData};
use crate::server::{SERVER_DEFAULT_ADDRESS, SERVER_DEFAULT_PORT};
use crate::text::{join2, join3};

verus! {

/// The operating systems that the server knows a data directory for.
#[derive(Clone, Copy, Debug, PartialEq, Eq, Structural)]
pub enum LYServerOs {
    Linux,
    MacOs,
    Windows,
}

/// The data directory that the server uses unless told otherwise.
pub open spec fn default_data_dir_text(os: LYServerOs) -> Seq<char> {
    match os {
        LYServerOs::Linux => "/var/opt/lyserver"@,
        LYServerOs::MacOs => "/Library/Application Support/lyserver"@,
        LYServerOs::Windows => "C:\\ProgramData\\lyserver"@,
    }
}

/// The data directory that the server uses unless told otherwise.
pub fn default_data_dir(os: LYServerOs) -> (r: &'static str)
    ensures
        r@ == default_data_dir_text(os),
{
    match os {
        LYServerOs::Linux => "/var/opt/lyserver",
        LYServerOs::MacOs => "/Library/Application Support/lyserver",
        LYServerOs::Windows => "C:\\ProgramData\\lyserver",
    }
}

/// The server's arguments.
#[derive(Debug, PartialEq, Eq)]
pub struct LYServerArgs {
    /// The port to bind to.
    pub port: u16,
    /// The address to bind to.
    pub address: String,
    /// The directory that holds the server's data.
    pub data_dir: String,
}

impl LYServerArgs {
    /// The arguments of a server that is told nothing.
    pub fn defaults(os: LYServerOs) -> (r: Self)
        ensures
            r.port == SERVER_DEFAULT_PORT,
            r.address@ == SERVER_DEFAULT_ADDRESS@,
            r.data_dir@ == default_data_dir_text(os),
    {
        LYServerArgs {
            port: SERVER_DEFAULT_PORT,
            address: SERVER_DEFAULT_ADDRESS.to_owned(),
            data_dir: default_data_dir(os).to_owned(),
        }
    }
}

/// Why the server does not start.
#[derive(Clone, Copy, Debug, PartialEq, Eq, Structural)]
pub enum LYServerConfigError {
    /// The address cannot be bound.
    BindFailed,
    /// The data directory is not there and cannot be made.
    DataDirNotCreated,
    /// The data directory is no directory.
    DataDirNotADirectory,
    /// The data directory cannot be read.
    DataDirUnreadable,
}

impl LYServerConfigError {
    /// The kind of the failure: every one of them is a malformed
    /// configuration, and ends the startup.
    pub fn kind(self) -> (r: LYServerErrorKind)
        ensures
            r == LYServerErrorKind::ConfigInvalid,
    {
        LYServerErrorKind::ConfigInvalid
    }

    /// The message of the failure, which names the address or the data
    /// directory that it is about.
    pub open spec fn message_text(self, bind_address: Seq<char>, data_dir: Seq<char>) -> Seq<char> {
        match self {
            LYServerConfigError::BindFailed => "Failed to bind to address "@ + bind_address,
            LYServerConfigError::DataDirNotCreated => "Failed to create data directory '"@ + data_dir
                + "'"@,
            LYServerConfigError::DataDirNotADirectory => "Data directory '"@ + data_dir
                + "' is not a directory"@,
            LYServerConfigError::DataDirUnreadable => "Cannot read data directory '"@ + data_dir
                + "'"@,
        }
    }

    /// The message of the failure.
    pub fn message(self, bind_address: &str, data_dir: &str) -> (r: String)
        ensures
            r@ == self.message_text(bind_address@, data_dir@),
    {
        match self {
            LYServerConfigError::BindFailed => join2("Failed to bind to address ", bind_address),
            LYServerConfigError::DataDirNotCreated => join3(
                "Failed to create data directory '",
                data_dir,
                "'",
            ),
            LYServerConfigError::DataDirNotADirectory => join3(
                "Data directory '",
                data_dir,
                "' is not a directory",
            ),
            LYServerConfigError::DataDirUnreadable => join3(
                "Cannot read data directory '",
                data_dir,
                "'",
            ),
        }
    }
}

/// What was found when the startup was tried.
#[derive(Clone, Copy, Debug, PartialEq, Eq, Structural)]
pub struct LYServerStartupProbe {
    /// Whether the address could be bound.
    pub bind_ok: bool,
    /// Whether the data directory was there.
    pub data_dir_exists: bool,
    /// Whether the data directory, where it was not there, could be made.
    pub data_dir_created: bool,
    /// Whether the data directory, once it is there, is a directory.
    pub data_dir_is_dir: bool,
    /// Whether the data directory can be listed.
    pub data_dir_readable: bool,
}

/// Whether a startup passes, and if not, why. The address has to be free; a
/// data directory that is not there has to be made; the data directory has
/// to be a directory that can be read. The first check that fails, in this
/// order, decides.
pub open spec fn startup_check(probe: LYServerStartupProbe) -> Result<(), LYServerConfigError> {
    if !probe.bind_ok {
        Err(LYServerConfigError::BindFailed)
    } else if !probe.data_dir_exists && !probe.data_dir_created {
        Err(LYServerConfigError::DataDirNotCreated)
    } else if !probe.data_dir_is_dir {
        Err(LYServerConfigError::DataDirNotADirectory)
    } else if !probe.data_dir_readable {
        Err(LYServerConfigError::DataDirUnreadable)
    } else {
        Ok(())
    }
}

impl<P, C, S> LYServerSharedData<P, C, S> {
    /// The shared state of a server that starts with the given arguments,
    /// where the startup passes its checks.
    pub fn new_from_argv(
        args: LYServerArgs,
        bind_address: String,
        probe: LYServerStartupProbe,
        version: String,
        start_ts: u64,
        pid: u32,
    ) -> (r: Result<Self, LYServerConfigError>)
        ensures
            match r {
                Ok(shared) => {
                    &&& startup_check(probe) is Ok
                    &&& shared.bind_address@ == bind_address@
                    &&& shared.data_dir@ == args.data_dir@
                    &&& shared.version@ == version@
                    &&& shared.start_ts == start_ts
                    &&& shared.pid == pid
                    &&& !shared.shutdown_flag
                    &&& shared.loaded_plugins@.len() == 0
                    &&& shared.messaging_plugin_tx.ids() == Ids::empty()
                },
                Err(e) => startup_check(probe) == Err::<(), LYServerConfigError>(e),
            },
    {
        if !probe.bind_ok {
            return Err(LYServerConfigError::BindFailed);
        }
        if !probe.data_dir_exists && !probe.data_dir_created {
            return Err(LYServerConfigError::DataDirNotCreated);
        }
        if !probe.data_dir_is_dir {
            return Err(LYServerConfigError::DataDirNotADirectory);
        }
        if !probe.data_dir_readable {
            return Err(LYServerConfigError::DataDirUnreadable);
        }
        Ok(LYServerSharedData::new(bind_address, args.data_dir, version, start_ts, pid))
    }
}

} // verus!
