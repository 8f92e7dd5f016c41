//! The kinds of failure and what the server does about each.

use vstd::prelude::*;

verus! {

/// The kinds of failure.
#[derive(Clone, Copy, Debug, PartialEq, Eq, Structural)]
pub enum LYServerErrorKind {
    /// Arguments, paths or a manifest are malformed.
    ConfigInvalid,
    /// Two plugins claim one id.
    AlreadyRegistered,
    /// A plugin directory holds no manifest.
    ManifestMissing,
    /// A manifest names no module, or the module is not there.
    WasmEntryMissing,
    /// The engine rejected a module.
    InstantiationFailed,
    /// A plugin did not say in time that it runs.
    InitTimeout,
    /// A guest handed over a window outside its memory.
    GuestMemoryFault,
    /// A payload is not an encoding of the type asked for.
    PayloadDecode,
    /// An event was sent after the bus was torn down.
    BusClosed,
    /// No plugin claimed or answered a request in time.
    HandlerTimeout,
    /// A plugin's own failure of an invocation.
    PluginInvoke,
}

/// What the server does about a failure.
#[derive(Clone, Copy, Debug, PartialEq, Eq, Structural)]
pub enum LYServerRecovery {
    /// Startup ends; the process exits with code 1.
    FailStartup,
    /// The plugin is not loaded; the others are.
    SkipPlugin,
    /// The plugin is cancelled and unloaded; the process goes on.
    UnloadPlugin,
    /// The caller gets the error; nothing else changes.
    ReturnToCaller,
    /// The event is dropped and the failure logged.
    DropEvent,
    /// The client gets a response with status 500.
    RespondServerError,
}

impl LYServerErrorKind {
    /// The recovery that goes with each kind of failure.
    pub open spec fn recovery_of(self) -> LYServerRecovery {
        match self {
            LYServerErrorKind::ConfigInvalid => LYServerRecovery::FailStartup,
            LYServerErrorKind::AlreadyRegistered => LYServerRecovery::SkipPlugin,
            LYServerErrorKind::ManifestMissing => LYServerRecovery::SkipPlugin,
            LYServerErrorKind::WasmEntryMissing => LYServerRecovery::SkipPlugin,
            LYServerErrorKind::InstantiationFailed => LYServerRecovery::SkipPlugin,
            LYServerErrorKind::InitTimeout => LYServerRecovery::UnloadPlugin,
            LYServerErrorKind::GuestMemoryFault => LYServerRecovery::UnloadPlugin,
            LYServerErrorKind::PayloadDecode => LYServerRecovery::ReturnToCaller,
            LYServerErrorKind::BusClosed => LYServerRecovery::DropEvent,
            LYServerErrorKind::HandlerTimeout => LYServerRecovery::RespondServerError,
            LYServerErrorKind::PluginInvoke => LYServerRecovery::ReturnToCaller,
        }
    }

    /// The recovery that goes with this kind of failure.
    pub fn recovery(self) -> (r: LYServerRecovery)
        ensures
            r == self.recovery_of(),
    {
        match self {
            LYServerErrorKind::ConfigInvalid => LYServerRecovery::FailStartup,
            LYServerErrorKind::AlreadyRegistered => LYServerRecovery::SkipPlugin,
            LYServerErrorKind::ManifestMissing => LYServerRecovery::SkipPlugin,
            LYServerErrorKind::WasmEntryMissing => LYServerRecovery::SkipPlugin,
            LYServerErrorKind::InstantiationFailed => LYServerRecovery::SkipPlugin,
            LYServerErrorKind::InitTimeout => LYServerRecovery::UnloadPlugin,
            LYServerErrorKind::GuestMemoryFault => LYServerRecovery::UnloadPlugin,
            LYServerErrorKind::PayloadDecode => LYServerRecovery::ReturnToCaller,
            LYServerErrorKind::BusClosed => LYServerRecovery::DropEvent,
            LYServerErrorKind::HandlerTimeout => LYServerRecovery::RespondServerError,
            LYServerErrorKind::PluginInvoke => LYServerRecovery::ReturnToCaller,
        }
    }

    /// Whether a failure of this kind ends the process. Only a failure at
    /// startup does: no failure of one plugin takes the server down.
    pub fn ends_process(self) -> (r: bool)
        ensures
            r == (self.recovery_of() == LYServerRecovery::FailStartup),
            r == (self == LYServerErrorKind::ConfigInvalid),
    {
        match self {
            LYServerErrorKind::ConfigInvalid => true,
            _ => false,
        }
    }
}

} // verus!
