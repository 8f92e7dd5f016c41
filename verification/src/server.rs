//! The server's boot and shutdown sequence as a state machine: what the
//! server does next when a step has ended or shutdown has been asked for.

use vstd::prelude::*;

verus! {

/// The port that the server listens on unless told otherwise.
pub const SERVER_DEFAULT_PORT: u16 = 4774;

/// The address that the server binds to unless told otherwise.
pub const SERVER_DEFAULT_ADDRESS: &'static str = "0.0.0.0";

/// The exit code of a clean shutdown.
pub const EXIT_CLEAN: u8 = 0;

/// The exit code of a failed startup.
pub const EXIT_STARTUP_FAILED: u8 = 1;

/// The plugins that the server itself brings.
#[derive(Clone, Copy, Debug, PartialEq, Eq, Structural)]
pub enum LYServerBuiltin {
    Database,
    Preferences,
    Http,
}

impl LYServerBuiltin {
    /// The id of the plugin.
    pub open spec fn id_text(self) -> Seq<char> {
        match self {
            LYServerBuiltin::Database => "database@lyserver.local"@,
            LYServerBuiltin::Preferences => "preferences@lyserver.local"@,
            LYServerBuiltin::Http => "http@lyserver.local"@,
        }
    }

    /// The plugin that is loaded after this one, if there is one.
    pub open spec fn following(self) -> Option<LYServerBuiltin> {
        match self {
            LYServerBuiltin::Database => Some(LYServerBuiltin::Preferences),
            LYServerBuiltin::Preferences => Some(LYServerBuiltin::Http),
            LYServerBuiltin::Http => None,
        }
    }

    /// The id of the plugin.
    pub fn id(self) -> (r: &'static str)
        ensures
            r@ == self.id_text(),
    {
        match self {
            LYServerBuiltin::Database => "database@lyserver.local",
            LYServerBuiltin::Preferences => "preferences@lyserver.local",
            LYServerBuiltin::Http => "http@lyserver.local",
        }
    }

    /// The plugin that is loaded after this one, if there is one.
    pub fn next(self) -> (r: Option<LYServerBuiltin>)
        ensures
            r == self.following(),
    {
        match self {
            LYServerBuiltin::Database => Some(LYServerBuiltin::Preferences),
            LYServerBuiltin::Preferences => Some(LYServerBuiltin::Http),
            LYServerBuiltin::Http => None,
        }
    }
}

/// Where the server stands.
#[derive(Clone, Copy, Debug, PartialEq, Eq, Structural)]
pub enum LYServerStage {
    /// Made, and not run yet.
    Created,
    /// The dispatcher of the global channel is being started.
    StartingDispatcher,
    /// A built-in plugin is being loaded.
    LoadingBuiltin(LYServerBuiltin),
    /// The plugins directory is being scanned and its plugins loaded.
    Discovering,
    /// Everything is loaded; the server waits for its plugins to end.
    Serving,
    /// Shutdown was asked for; the plugins' cancellation handles are being
    /// signalled.
    ShuttingDown,
    /// The supervised tasks are being joined.
    Joining,
    /// The server has ended, with this exit code.
    Stopped(u8),
}

/// What has happened to the server.
#[derive(Clone, Copy, Debug, PartialEq, Eq, Structural)]
pub enum LYServerEvent {
    /// The server was told to run.
    Run,
    /// The step that the server was told to take has ended well.
    StepSucceeded,
    /// The step that the server was told to take has failed.
    StepFailed,
    /// Shutdown has been asked for.
    ShutdownRequested,
}

/// What the server does next.
#[derive(Clone, Copy, Debug, PartialEq, Eq, Structural)]
pub enum LYServerCommand {
    /// Nothing.
    Nothing,
    /// Start the dispatcher of the global channel.
    StartDispatcher,
    /// Load a built-in plugin.
    LoadBuiltin(LYServerBuiltin),
    /// Scan the plugins directory and load what it holds.
    DiscoverPlugins,
    /// Say where the server listens and wait for the plugins to end.
    WaitForPlugins,
    /// Signal the cancellation handle of every loaded plugin.
    DestroyPlugins,
    /// Join the supervised tasks.
    JoinTasks,
    /// End the process with this exit code.
    Exit(u8),
}

impl LYServerStage {
    /// Whether shutdown can interrupt the stage.
    pub open spec fn can_shut_down(self) -> bool {
        self is LoadingBuiltin || self is Discovering || self is Serving
    }

    /// The stage after an event, and what the server does. The built-in
    /// plugins are loaded in the order database, preferences, HTTP, and the
    /// failure of one of them ends the startup; what the plugins directory
    /// holds is loaded after them, and a failure there ends nothing. A
    /// shutdown that is asked for while plugins are loaded or run is orderly:
    /// the plugins are told to stop, then their tasks are joined, then the
    /// process exits cleanly.
    pub open spec fn after(self, event: LYServerEvent) -> (LYServerStage, LYServerCommand) {
        if event == LYServerEvent::ShutdownRequested {
            if self.can_shut_down() {
                (LYServerStage::ShuttingDown, LYServerCommand::DestroyPlugins)
            } else {
                (self, LYServerCommand::Nothing)
            }
        } else {
            match (self, event) {
                (LYServerStage::Created, LYServerEvent::Run) => (
                    LYServerStage::StartingDispatcher,
                    LYServerCommand::StartDispatcher,
                ),
                (LYServerStage::StartingDispatcher, LYServerEvent::StepSucceeded) => (
                    LYServerStage::LoadingBuiltin(LYServerBuiltin::Database),
                    LYServerCommand::LoadBuiltin(LYServerBuiltin::Database),
                ),
                (LYServerStage::StartingDispatcher, LYServerEvent::StepFailed) => (
                    LYServerStage::Stopped(EXIT_STARTUP_FAILED),
                    LYServerCommand::Exit(EXIT_STARTUP_FAILED),
                ),
                (LYServerStage::LoadingBuiltin(builtin), LYServerEvent::StepSucceeded) => match builtin.following() {
                    Some(next) => (
                        LYServerStage::LoadingBuiltin(next),
                        LYServerCommand::LoadBuiltin(next),
                    ),
                    None => (LYServerStage::Discovering, LYServerCommand::DiscoverPlugins),
                },
                (LYServerStage::LoadingBuiltin(_), LYServerEvent::StepFailed) => (
                    LYServerStage::Stopped(EXIT_STARTUP_FAILED),
                    LYServerCommand::Exit(EXIT_STARTUP_FAILED),
                ),
                (LYServerStage::Discovering, LYServerEvent::StepSucceeded) => (
                    LYServerStage::Serving,
                    LYServerCommand::WaitForPlugins,
                ),
                (LYServerStage::Discovering, LYServerEvent::StepFailed) => (
                    LYServerStage::Serving,
                    LYServerCommand::WaitForPlugins,
                ),
                (LYServerStage::Serving, LYServerEvent::StepSucceeded) => (
                    LYServerStage::Stopped(EXIT_CLEAN),
                    LYServerCommand::Exit(EXIT_CLEAN),
                ),
                (LYServerStage::Serving, LYServerEvent::StepFailed) => (
                    LYServerStage::Stopped(EXIT_CLEAN),
                    LYServerCommand::Exit(EXIT_CLEAN),
                ),
                (LYServerStage::ShuttingDown, LYServerEvent::StepSucceeded) => (
                    LYServerStage::Joining,
                    LYServerCommand::JoinTasks,
                ),
                (LYServerStage::ShuttingDown, LYServerEvent::StepFailed) => (
                    LYServerStage::Joining,
                    LYServerCommand::JoinTasks,
                ),
                (LYServerStage::Joining, LYServerEvent::StepSucceeded) => (
                    LYServerStage::Stopped(EXIT_CLEAN),
                    LYServerCommand::Exit(EXIT_CLEAN),
                ),
                (LYServerStage::Joining, LYServerEvent::StepFailed) => (
                    LYServerStage::Stopped(EXIT_CLEAN),
                    LYServerCommand::Exit(EXIT_CLEAN),
                ),
                _ => (self, LYServerCommand::Nothing),
            }
        }
    }
}

/// Boot loads the three built-in plugins and nothing else before discovery:
/// where every step succeeds, the server starts the dispatcher, loads the
/// database plugin, the preferences plugin and the HTTP plugin, in this
/// order, and then turns to the plugins directory.
pub proof fn lemma_boot_loads_the_builtins()
    ensures
        ({
            let started = LYServerStage::Created.after(LYServerEvent::Run);
            let first = started.0.after(LYServerEvent::StepSucceeded);
            let second = first.0.after(LYServerEvent::StepSucceeded);
            let third = second.0.after(LYServerEvent::StepSucceeded);
            let discovery = third.0.after(LYServerEvent::StepSucceeded);
            &&& started.1 == LYServerCommand::StartDispatcher
            &&& first.1 == LYServerCommand::LoadBuiltin(LYServerBuiltin::Database)
            &&& second.1 == LYServerCommand::LoadBuiltin(LYServerBuiltin::Preferences)
            &&& third.1 == LYServerCommand::LoadBuiltin(LYServerBuiltin::Http)
            &&& discovery.1 == LYServerCommand::DiscoverPlugins
        }),
{
}

/// Shutdown is orderly from every stage that it can interrupt: the plugins
/// are told to stop, their tasks are joined, and the process exits cleanly,
/// whether or not those steps report a failure.
pub proof fn lemma_shutdown_is_orderly(stage: LYServerStage, stopped: LYServerEvent, joined: LYServerEvent)
    requires
        stage.can_shut_down(),
        stopped == LYServerEvent::StepSucceeded || stopped == LYServerEvent::StepFailed,
        joined == LYServerEvent::StepSucceeded || joined == LYServerEvent::StepFailed,
    ensures
        ({
            let asked = stage.after(LYServerEvent::ShutdownRequested);
            let told = asked.0.after(stopped);
            let done = told.0.after(joined);
            &&& asked.1 == LYServerCommand::DestroyPlugins
            &&& told.1 == LYServerCommand::JoinTasks
            &&& done == (LYServerStage::Stopped(EXIT_CLEAN), LYServerCommand::Exit(EXIT_CLEAN))
        }),
{
}

/// The server: its stage.
#[derive(Debug, PartialEq, Eq)]
pub struct LYServer {
    pub stage: LYServerStage,
}

impl LYServer {
    /// A server that has not run yet.
    pub fn new() -> (r: Self)
        ensures
            r.stage == LYServerStage::Created,
    {
        LYServer { stage: LYServerStage::Created }
    }

    /// Takes one step of the server's run: moves to the stage that follows
    /// the event and says what to do.
    pub fn run(&mut self, event: LYServerEvent) -> (r: LYServerCommand)
        ensures
            (final(self).stage, r) == old(self).stage.after(event),
    {
        let stage = self.stage;
        let (next, command) = match event {
            LYServerEvent::ShutdownRequested => match stage {
                LYServerStage::LoadingBuiltin(_) => (
                    LYServerStage::ShuttingDown,
                    LYServerCommand::DestroyPlugins,
                ),
                LYServerStage::Discovering => (
                    LYServerStage::ShuttingDown,
                    LYServerCommand::DestroyPlugins,
                ),
                LYServerStage::Serving => (LYServerStage::ShuttingDown, LYServerCommand::DestroyPlugins),
                _ => (stage, LYServerCommand::Nothing),
            },
            LYServerEvent::Run => match stage {
                LYServerStage::Created => (
                    LYServerStage::StartingDispatcher,
                    LYServerCommand::StartDispatcher,
                ),
                _ => (stage, LYServerCommand::Nothing),
            },
            LYServerEvent::StepSucceeded => match stage {
                LYServerStage::StartingDispatcher => (
                    LYServerStage::LoadingBuiltin(LYServerBuiltin::Database),
                    LYServerCommand::LoadBuiltin(LYServerBuiltin::Database),
                ),
                LYServerStage::LoadingBuiltin(builtin) => match builtin.next() {
                    Some(next) => (
                        LYServerStage::LoadingBuiltin(next),
                        LYServerCommand::LoadBuiltin(next),
                    ),
                    None => (LYServerStage::Discovering, LYServerCommand::DiscoverPlugins),
                },
                LYServerStage::Discovering => (LYServerStage::Serving, LYServerCommand::WaitForPlugins),
                LYServerStage::Serving => (
                    LYServerStage::Stopped(EXIT_CLEAN),
                    LYServerCommand::Exit(EXIT_CLEAN),
                ),
                LYServerStage::ShuttingDown => (LYServerStage::Joining, LYServerCommand::JoinTasks),
                LYServerStage::Joining => (
                    LYServerStage::Stopped(EXIT_CLEAN),
                    LYServerCommand::Exit(EXIT_CLEAN),
                ),
                _ => (stage, LYServerCommand::Nothing),
            },
            LYServerEvent::StepFailed => match stage {
                LYServerStage::StartingDispatcher => (
                    LYServerStage::Stopped(EXIT_STARTUP_FAILED),
                    LYServerCommand::Exit(EXIT_STARTUP_FAILED),
                ),
                LYServerStage::LoadingBuiltin(_) => (
                    LYServerStage::Stopped(EXIT_STARTUP_FAILED),
                    LYServerCommand::Exit(EXIT_STARTUP_FAILED),
                ),
                LYServerStage::Discovering => (LYServerStage::Serving, LYServerCommand::WaitForPlugins),
                LYServerStage::Serving => (
                    LYServerStage::Stopped(EXIT_CLEAN),
                    LYServerCommand::Exit(EXIT_CLEAN),
                ),
                LYServerStage::ShuttingDown => (LYServerStage::Joining, LYServerCommand::JoinTasks),
                LYServerStage::Joining => (
                    LYServerStage::Stopped(EXIT_CLEAN),
                    LYServerCommand::Exit(EXIT_CLEAN),
                ),
                _ => (stage, LYServerCommand::Nothing),
            },
        };
        self.stage = next;
        command
    }
}

} // verus!
