//! The plugin manager's decisions: what the dispatcher does with what it
//! receives, the steps of loading one plugin, the inspection of a plugin
//! directory, and shutdown.

use vstd::prelude::*;
use crate::bus::LYServerReceived;
use crate::error::{LYServerErrorKind, LYServerRecovery};
use crate::event::LYServerMessageEvent;
use crate::metadata::{manifest_metadata, LYServerManifestError, LYServerPluginMetadata, MetadataModel};
use crate::lifecycle::{LYServerPluginAction, LYServerPluginEvent, LYServerPluginState};
use crate::registry::{
    lemma_recipients, lemma_recipients_once, Ids, first_with_id, is_first_with_id, lemma_first_with_id,
    lemma_load_then_unload_leaves_no_trace, none_with_id, registered, tied,
    recipients_among, unloaded, unregistered, LYServerLoadedPlugin, LYServerRegistryError,
    LYServerSharedData,
};
use crate::text::{eq_ignoring_ascii_case, join3, join5, text_eq_ignore_ascii_case};

verus! {

/// How long the manager waits for a plugin's `plugin_init` event, in
/// milliseconds.
pub const INIT_HANDSHAKE_TIMEOUT_MS: u64 = 10000;

/// The name of the directory, under the data directory, that holds the
/// plugins.
pub const PLUGINS_DIRECTORY: &'static str = "plugins";

/// The file name of a plugin's manifest.
pub const MANIFEST_FILE_NAME: &'static str = "manifest.toml";

/// Why a plugin was not loaded.
#[derive(Clone, Copy, Debug, PartialEq, Eq, Structural)]
pub enum LYServerLoadError {
    /// The plugin's id has a subscriber already.
    AlreadyRegistered,
    /// The registry refused the plugin's record: the instance gives another
    /// id than the one it was registered under, or one that is loaded.
    NotRecorded,
    /// The plugin did not say in time that it runs.
    InitTimeout,
    /// A supervised task ended in a panic.
    TaskPanicked,
}

impl LYServerLoadError {
    /// The kind of the failure, for the failures that have one.
    pub open spec fn kind_of(self) -> Option<LYServerErrorKind> {
        match self {
            LYServerLoadError::AlreadyRegistered => Some(LYServerErrorKind::AlreadyRegistered),
            LYServerLoadError::NotRecorded => Some(LYServerErrorKind::AlreadyRegistered),
            LYServerLoadError::InitTimeout => Some(LYServerErrorKind::InitTimeout),
            LYServerLoadError::TaskPanicked => None,
        }
    }

    /// The kind of the failure, for the failures that have one.
    pub fn kind(self) -> (r: Option<LYServerErrorKind>)
        ensures
            r == self.kind_of(),
    {
        match self {
            LYServerLoadError::AlreadyRegistered => Some(LYServerErrorKind::AlreadyRegistered),
            LYServerLoadError::NotRecorded => Some(LYServerErrorKind::AlreadyRegistered),
            LYServerLoadError::InitTimeout => Some(LYServerErrorKind::InitTimeout),
            LYServerLoadError::TaskPanicked => None,
        }
    }

    /// The message of the failure for the plugin with the given id.
    pub open spec fn message_text(self, plugin_id: Seq<char>) -> Seq<char> {
        match self {
            LYServerLoadError::AlreadyRegistered => "Failed to register plugin messaging for '"@
                + plugin_id + "': Plugin '"@ + plugin_id + "' is already registered for messaging"@,
            LYServerLoadError::NotRecorded => "Plugin '"@ + plugin_id
                + "' reports an id that cannot be recorded"@,
            LYServerLoadError::InitTimeout => "Plugin '"@ + plugin_id
                + "' did not initialize within 10s"@,
            LYServerLoadError::TaskPanicked => "Plugin thread panicked!"@,
        }
    }

    /// The message of the failure for the plugin with the given id.
    pub fn message(self, plugin_id: &str) -> (r: String)
        ensures
            r@ == self.message_text(plugin_id@),
    {
        match self {
            LYServerLoadError::AlreadyRegistered => join5(
                "Failed to register plugin messaging for '",
                plugin_id,
                "': Plugin '",
                plugin_id,
                "' is already registered for messaging",
            ),
            LYServerLoadError::NotRecorded => join3(
                "Plugin '",
                plugin_id,
                "' reports an id that cannot be recorded",
            ),
            LYServerLoadError::InitTimeout => join3(
                "Plugin '",
                plugin_id,
                "' did not initialize within 10s",
            ),
            LYServerLoadError::TaskPanicked => "Plugin thread panicked!".to_owned(),
        }
    }
}

/// What has happened so far in the loading of one plugin.
#[derive(Debug, PartialEq, Eq)]
pub enum LYServerLoadProgress {
    /// Nothing yet.
    Started,
    /// The registry has answered the registration of the plugin's
    /// subscriber.
    Registration(Result<(), LYServerRegistryError>),
    /// The instance has been made and recorded.
    Constructed,
    /// The instance has been made, and the registry refused its record.
    NotRecorded(LYServerRegistryError),
    /// The wait for the `plugin_init` event has ended, with the event or
    /// without one.
    Handshake(Option<LYServerMessageEvent>),
    /// The plugin has been torn down on this event: what the event asked
    /// for has been done, and the plugin is unloaded.
    TornDown(LYServerPluginEvent),
}

/// What the manager does next in the loading of one plugin.
#[derive(Clone, Copy, Debug, PartialEq, Eq, Structural)]
pub enum LYServerLoadAction {
    /// Register the plugin's subscriber under the plugin's id.
    Register,
    /// Make the instance and put its record at the end of the loaded
    /// plugins.
    Construct,
    /// Run the plugin's `init` under supervision and wait for a
    /// `plugin_init` event, for as long as the timeout says.
    SuperviseAndAwaitInit(u64),
    /// The plugin is loaded.
    Loaded,
    /// The plugin is torn down: signal its cancellation handle and take this
    /// event to the plugin's life with `apply`. For a plugin that did not say
    /// in time that it runs, `apply` asks for `destroy` and, once that has
    /// ended, unloads the plugin; for a plugin whose record was refused, it
    /// unloads at once, which takes the plugin's subscriber out.
    TearDown(LYServerPluginEvent),
    /// The plugin is not loaded.
    Failed(LYServerLoadError),
}

/// The next action in the loading of one plugin, by what has happened: the
/// registration comes first; a refused id ends the loading; an accepted one
/// is followed by the construction, that by supervision and the wait for the
/// handshake. A handshake that came loads the plugin. One that did not come
/// in time is followed by the teardown of the plugin, and only then does the
/// loading fail with the timeout.
pub open spec fn load_action(progress: LYServerLoadProgress) -> LYServerLoadAction {
    match progress {
        LYServerLoadProgress::Started => LYServerLoadAction::Register,
        LYServerLoadProgress::Registration(Ok(_)) => LYServerLoadAction::Construct,
        LYServerLoadProgress::Registration(Err(_)) => LYServerLoadAction::Failed(
            LYServerLoadError::AlreadyRegistered,
        ),
        LYServerLoadProgress::Constructed => LYServerLoadAction::SuperviseAndAwaitInit(
            INIT_HANDSHAKE_TIMEOUT_MS,
        ),
        LYServerLoadProgress::Handshake(Some(_)) => LYServerLoadAction::Loaded,
        LYServerLoadProgress::Handshake(None) => LYServerLoadAction::TearDown(
            LYServerPluginEvent::HandshakeTimedOut,
        ),
        LYServerLoadProgress::NotRecorded(_) => LYServerLoadAction::TearDown(
            LYServerPluginEvent::RecordRefused,
        ),
        LYServerLoadProgress::TornDown(LYServerPluginEvent::RecordRefused) => LYServerLoadAction::Failed(
            LYServerLoadError::NotRecorded,
        ),
        LYServerLoadProgress::TornDown(_) => LYServerLoadAction::Failed(LYServerLoadError::InitTimeout),
    }
}

/// A plugin whose handshake timed out is torn down in two steps of its life:
/// the timeout asks for `destroy`, and the end of `destroy` for the
/// unloading. Where the registry's tables went together and the plugin's id
/// had no subscriber before the loading began, the registry is afterwards
/// as it was then: no record has the id, every other record is unchanged
/// and in its old place, and the id has no subscriber.
pub proof fn lemma_timeout_tears_down<P, C>(
    before: Seq<LYServerLoadedPlugin<P, C>>,
    ids: Ids,
    record: LYServerLoadedPlugin<P, C>,
)
    requires
        tied(before, ids),
        ids.no_duplicates(),
        !ids.contains(record.metadata@.id),
    ensures
        load_action(LYServerLoadProgress::Handshake(None)) == LYServerLoadAction::TearDown(
            LYServerPluginEvent::HandshakeTimedOut,
        ),
        LYServerPluginState::Initializing.after(LYServerPluginEvent::HandshakeTimedOut) == (
            LYServerPluginState::Stopping,
            LYServerPluginAction::Destroy,
        ),
        LYServerPluginState::Stopping.after(LYServerPluginEvent::DestroyFinished) == (
            LYServerPluginState::Unloaded,
            LYServerPluginAction::Unload,
        ),
        load_action(LYServerLoadProgress::TornDown(LYServerPluginEvent::HandshakeTimedOut))
            == LYServerLoadAction::Failed(LYServerLoadError::InitTimeout),
        unloaded(before.push(record), record.metadata@.id) == before,
        none_with_id(unloaded(before.push(record), record.metadata@.id), record.metadata@.id),
        unregistered(registered(ids, record.metadata@.id), record.metadata@.id) == ids,
{
    lemma_load_then_unload_leaves_no_trace(before, ids, record);
}

/// What the dispatcher does with what it received.
#[derive(Debug, PartialEq, Eq)]
pub enum LYServerDispatch {
    /// Nothing has been received yet: wait for the next event.
    Idle,
    /// Send this event, as it is, once to the subscriber at each of these
    /// places, and to no other; then wait for the next event.
    Forward(LYServerMessageEvent, Vec<usize>),
    /// So many events were lost: log the number and wait for the next
    /// event.
    Lagged(u64),
    /// The global channel is closed or shutdown has been asked for: the
    /// dispatcher ends.
    Stop,
}

/// Whether the dispatcher does with what it received what it owes. It ends
/// where shutdown has been asked for or the channel is closed, and in no
/// other case. An event goes, unaltered, to the subscribers that the matching
/// rule names for its target: those whose id the target names, the sender's
/// own subscriber among them, each once and in the order of the table. A lag
/// is reported and passed over.
pub open spec fn dispatches(
    ids: Ids,
    shutdown: bool,
    received: Option<LYServerReceived>,
    dispatch: LYServerDispatch,
) -> bool {
    if shutdown {
        dispatch is Stop
    } else {
        match received {
            None => dispatch is Idle,
            Some(LYServerReceived::Event(event)) => {
                &&& dispatch matches LYServerDispatch::Forward(forwarded, places)
                &&& forwarded == event
                &&& places@.map_values(|i: usize| i as int) == recipients_among(
                    ids,
                    event@.event_target,
                    ids.len(),
                )
                &&& forall|k: int| 0 <= k < places@.len() ==> places@[k] < ids.len()
            },
            Some(LYServerReceived::Lagged(n)) => dispatch == LYServerDispatch::Lagged(n),
            Some(LYServerReceived::Closed) => dispatch is Stop,
        }
    }
}

/// Why a plugin directory gives no plugin.
#[derive(Clone, Copy, Debug, PartialEq, Eq, Structural)]
pub enum LYServerDiscoveryError {
    /// The path does not exist.
    PathMissing,
    /// The path is no directory.
    NotADirectory,
    /// The directory cannot be listed.
    DirectoryUnreadable,
    /// The directory holds no manifest.
    ManifestMissing,
    /// The manifest cannot be read.
    ManifestUnreadable,
    /// The manifest is malformed.
    ManifestInvalid(LYServerManifestError),
    /// The manifest names no module.
    WasmEntryMissing,
    /// The module that the manifest names is not there.
    WasmEntryNotFound,
}

impl LYServerDiscoveryError {
    /// The kind of the failure: a missing manifest and a missing module have
    /// kinds of their own, and everything else is a malformed configuration.
    pub open spec fn kind_of(self) -> LYServerErrorKind {
        match self {
            LYServerDiscoveryError::PathMissing => LYServerErrorKind::ConfigInvalid,
            LYServerDiscoveryError::NotADirectory => LYServerErrorKind::ConfigInvalid,
            LYServerDiscoveryError::DirectoryUnreadable => LYServerErrorKind::ConfigInvalid,
            LYServerDiscoveryError::ManifestMissing => LYServerErrorKind::ManifestMissing,
            LYServerDiscoveryError::ManifestUnreadable => LYServerErrorKind::ConfigInvalid,
            LYServerDiscoveryError::ManifestInvalid(_) => LYServerErrorKind::ConfigInvalid,
            LYServerDiscoveryError::WasmEntryMissing => LYServerErrorKind::WasmEntryMissing,
            LYServerDiscoveryError::WasmEntryNotFound => LYServerErrorKind::WasmEntryMissing,
        }
    }

    /// The kind of the failure.
    pub fn kind(self) -> (r: LYServerErrorKind)
        ensures
            r == self.kind_of(),
    {
        match self {
            LYServerDiscoveryError::PathMissing => LYServerErrorKind::ConfigInvalid,
            LYServerDiscoveryError::NotADirectory => LYServerErrorKind::ConfigInvalid,
            LYServerDiscoveryError::DirectoryUnreadable => LYServerErrorKind::ConfigInvalid,
            LYServerDiscoveryError::ManifestMissing => LYServerErrorKind::ManifestMissing,
            LYServerDiscoveryError::ManifestUnreadable => LYServerErrorKind::ConfigInvalid,
            LYServerDiscoveryError::ManifestInvalid(_) => LYServerErrorKind::ConfigInvalid,
            LYServerDiscoveryError::WasmEntryMissing => LYServerErrorKind::WasmEntryMissing,
            LYServerDiscoveryError::WasmEntryNotFound => LYServerErrorKind::WasmEntryMissing,
        }
    }
}

impl LYServerDiscoveryError {
    /// What discovery does about the failure: whatever is wrong with a
    /// plugin directory, that plugin is skipped and the others are loaded.
    pub fn recovery(self) -> (r: LYServerRecovery)
        ensures
            r == LYServerRecovery::SkipPlugin,
    {
        LYServerRecovery::SkipPlugin
    }

    /// The message of the failure, for the plugin directory at `path`, the
    /// plugin id that its manifest gave and the module that the manifest
    /// names. Each message speaks of what is known when the failure occurs.
    pub open spec fn message_text(
        self,
        path: Seq<char>,
        plugin_id: Seq<char>,
        module: Seq<char>,
    ) -> Seq<char> {
        match self {
            LYServerDiscoveryError::PathMissing => "Plugin at '"@ + path + "' does not exist"@,
            LYServerDiscoveryError::NotADirectory => "Plugin path '"@ + path
                + "' is not a directory"@,
            LYServerDiscoveryError::DirectoryUnreadable => "Failed to read plugin dir '"@ + path
                + "'"@,
            LYServerDiscoveryError::ManifestMissing => "manifest.toml not found in '"@ + path + "'"@,
            LYServerDiscoveryError::ManifestUnreadable => "Failed to read manifest in '"@ + path
                + "'"@,
            LYServerDiscoveryError::ManifestInvalid(_) => "Failed to parse manifest in '"@ + path
                + "'"@,
            LYServerDiscoveryError::WasmEntryMissing => "Plugin '"@ + plugin_id
                + "' missing wasm_entry_point in manifest"@,
            LYServerDiscoveryError::WasmEntryNotFound => "Plugin '"@ + plugin_id + "' wasm entry '"@
                + module + "' not found"@,
        }
    }

    /// The message of the failure.
    pub fn message(self, path: &str, plugin_id: &str, module: &str) -> (r: String)
        ensures
            r@ == self.message_text(path@, plugin_id@, module@),
    {
        match self {
            LYServerDiscoveryError::PathMissing => join3("Plugin at '", path, "' does not exist"),
            LYServerDiscoveryError::NotADirectory => join3(
                "Plugin path '",
                path,
                "' is not a directory",
            ),
            LYServerDiscoveryError::DirectoryUnreadable => join3(
                "Failed to read plugin dir '",
                path,
                "'",
            ),
            LYServerDiscoveryError::ManifestMissing => join3(
                "manifest.toml not found in '",
                path,
                "'",
            ),
            LYServerDiscoveryError::ManifestUnreadable => join3(
                "Failed to read manifest in '",
                path,
                "'",
            ),
            LYServerDiscoveryError::ManifestInvalid(_) => join3(
                "Failed to parse manifest in '",
                path,
                "'",
            ),
            LYServerDiscoveryError::WasmEntryMissing => join3(
                "Plugin '",
                plugin_id,
                "' missing wasm_entry_point in manifest",
            ),
            LYServerDiscoveryError::WasmEntryNotFound => join5(
                "Plugin '",
                plugin_id,
                "' wasm entry '",
                module,
                "' not found",
            ),
        }
    }
}

/// What is known so far of a plugin directory.
#[derive(Debug, PartialEq, Eq)]
pub enum LYServerDiscoveryProgress {
    /// Whether the path exists and whether it is a directory.
    Found { exists: bool, is_dir: bool },
    /// The names of the directory's entries, or nothing where the listing
    /// failed.
    Listed(Option<Vec<String>>),
    /// The text of the manifest, or nothing where the reading failed.
    ManifestRead(Option<String>),
    /// The metadata that the manifest gave, and whether the module that it
    /// names exists under the plugin directory.
    EntryChecked { metadata: LYServerPluginMetadata, exists: bool },
}

/// What the manager does next with a plugin directory.
#[derive(Debug, PartialEq, Eq)]
pub enum LYServerDiscoveryAction {
    /// List the directory.
    ListDirectory,
    /// Read the entry at this place of the listing: it is the manifest.
    ReadManifest(usize),
    /// Look whether the module that the metadata names exists.
    CheckEntry(LYServerPluginMetadata),
    /// Load the plugin.
    Load(LYServerPluginMetadata),
    /// Give the directory up.
    Fail(LYServerDiscoveryError),
}

/// What discovery does with the plugins directory.
#[derive(Debug, PartialEq, Eq)]
pub enum LYServerDiscovery {
    /// Make the directory; there is nothing to load.
    CreateDirectory,
    /// Load the plugin directories at these paths, in this order.
    Load(Vec<String>),
}

/// Whether a file name is that of a manifest: `manifest.toml`, in any
/// mixture of upper and lower case.
pub open spec fn is_manifest_name(name: Seq<char>) -> bool {
    eq_ignoring_ascii_case(name, MANIFEST_FILE_NAME@)
}

/// Whether `i` is the place of the first manifest in a listing.
pub open spec fn is_first_manifest(names: Seq<String>, i: int) -> bool {
    &&& 0 <= i < names.len()
    &&& is_manifest_name(names[i]@)
    &&& forall|j: int| 0 <= j < i ==> !is_manifest_name(names[j]@)
}

/// Whether a listing holds no manifest.
pub open spec fn no_manifest(names: Seq<String>) -> bool {
    forall|j: int| 0 <= j < names.len() ==> !is_manifest_name(names[j]@)
}

/// What to do once the manifest has been read: a manifest that gives
/// metadata with an entry point is followed by the check of that entry.
pub open spec fn manifest_decision(text: Seq<char>) -> Result<MetadataModel, LYServerDiscoveryError> {
    match manifest_metadata(text) {
        Err(e) => Err(LYServerDiscoveryError::ManifestInvalid(e)),
        Ok(metadata) => if metadata.wasm_entry_point.is_none() {
            Err(LYServerDiscoveryError::WasmEntryMissing)
        } else {
            Ok(metadata)
        },
    }
}

/// The manager of the plugins.
#[derive(Debug, PartialEq, Eq)]
pub struct LYServerPluginManager {
    /// Whether the dispatcher of the global channel runs.
    pub messaging_loop_running: bool,
    /// The number of supervised tasks that have been started.
    pub plugin_tasks: usize,
}

impl LYServerPluginManager {
    /// A manager whose dispatcher does not run yet.
    pub fn new() -> (r: Self)
        ensures
            !r.messaging_loop_running,
            r.plugin_tasks == 0,
    {
        LYServerPluginManager { messaging_loop_running: false, plugin_tasks: 0 }
    }

    /// One turn of the dispatcher of the global channel. The first turn,
    /// with nothing received yet, starts it; every later turn takes what the
    /// dispatcher's receiver gave and says what to do with it, as
    /// `dispatches` describes. The dispatcher runs from its start until a
    /// turn ends it, and counts as one supervised task.
    pub fn init_messaging_loop<P, C, S>(
        &mut self,
        registry: &LYServerSharedData<P, C, S>,
        received: Option<LYServerReceived>,
    ) -> (r: LYServerDispatch)
        ensures
            dispatches(registry.messaging_plugin_tx.ids(), registry.shutdown_flag, received, r),
            final(self).messaging_loop_running == !(r is Stop),
            final(self).plugin_tasks == if !old(self).messaging_loop_running && !(r is Stop) && old(
                self,
            ).plugin_tasks < usize::MAX {
                old(self).plugin_tasks + 1
            } else {
                old(self).plugin_tasks as int
            },
    {
        let turn = Self::dispatch(registry, received);
        match turn {
            LYServerDispatch::Stop => {
                self.messaging_loop_running = false;
            },
            _ => {
                if !self.messaging_loop_running && self.plugin_tasks < usize::MAX {
                    self.plugin_tasks = self.plugin_tasks + 1;
                }
                self.messaging_loop_running = true;
            },
        }
        turn
    }

    /// What the dispatcher does with what it received, as `dispatches`
    /// describes.
    pub fn dispatch<P, C, S>(registry: &LYServerSharedData<P, C, S>, received: Option<LYServerReceived>) -> (r:
        LYServerDispatch)
        ensures
            dispatches(registry.messaging_plugin_tx.ids(), registry.shutdown_flag, received, r),
    {
        if registry.shutdown_flag {
            return LYServerDispatch::Stop;
        }
        match received {
            None => LYServerDispatch::Idle,
            Some(LYServerReceived::Event(event)) => {
                let places = registry.recipients(&event);
                LYServerDispatch::Forward(event, places)
            },
            Some(LYServerReceived::Lagged(n)) => LYServerDispatch::Lagged(n),
            Some(LYServerReceived::Closed) => LYServerDispatch::Stop,
        }
    }

    /// The dispatcher goes on after a lag: whatever it has received before,
    /// and however many events were lost, an event that comes while the
    /// channel is open and no shutdown is asked for is forwarded to the
    /// subscribers that the matching rule names, each once.
    pub proof fn lemma_dispatcher_goes_on(ids: Ids, lost: u64, event: LYServerMessageEvent, after: LYServerDispatch)
        requires
            dispatches(ids, false, Some(LYServerReceived::Event(event)), after),
        ensures
            dispatches(ids, false, Some(LYServerReceived::Lagged(lost)), LYServerDispatch::Lagged(lost)),
            !(LYServerDispatch::Lagged(lost) is Stop),
            after matches LYServerDispatch::Forward(forwarded, places) && forwarded == event
                && places@.map_values(|i: usize| i as int).no_duplicates() && forall|i: int|
                #![trigger ids[i]]
                places@.map_values(|i: usize| i as int).contains(i) <==> (0 <= i < ids.len()
                    && event@.event_target.delivers_to(ids[i])),
    {
        lemma_recipients_once(ids, event@.event_target, ids.len());
        assert forall|i: int| #![trigger ids[i]]
            recipients_among(ids, event@.event_target, ids.len()).contains(i) <==> (0 <= i < ids.len()
                && event@.event_target.delivers_to(ids[i])) by {
            lemma_recipients(ids, event@.event_target, ids.len(), i);
        }
    }

    /// The next action in the loading of one plugin. The wait for the
    /// handshake can only begin while the dispatcher runs: without it no
    /// `plugin_init` event could ever arrive.
    pub fn load_plugin(&self, progress: &LYServerLoadProgress) -> (r: LYServerLoadAction)
        requires
            progress is Constructed ==> self.messaging_loop_running,
        ensures
            r == load_action(*progress),
    {
        match progress {
            LYServerLoadProgress::Started => LYServerLoadAction::Register,
            LYServerLoadProgress::Registration(Ok(_)) => LYServerLoadAction::Construct,
            LYServerLoadProgress::Registration(Err(_)) => LYServerLoadAction::Failed(
                LYServerLoadError::AlreadyRegistered,
            ),
            LYServerLoadProgress::Constructed => LYServerLoadAction::SuperviseAndAwaitInit(
                INIT_HANDSHAKE_TIMEOUT_MS,
            ),
            LYServerLoadProgress::Handshake(Some(_)) => LYServerLoadAction::Loaded,
            LYServerLoadProgress::Handshake(None) => LYServerLoadAction::TearDown(
                LYServerPluginEvent::HandshakeTimedOut,
            ),
            LYServerLoadProgress::NotRecorded(_) => LYServerLoadAction::TearDown(
                LYServerPluginEvent::RecordRefused,
            ),
            LYServerLoadProgress::TornDown(LYServerPluginEvent::RecordRefused) => LYServerLoadAction::Failed(
                LYServerLoadError::NotRecorded,
            ),
            LYServerLoadProgress::TornDown(_) => LYServerLoadAction::Failed(
                LYServerLoadError::InitTimeout,
            ),
        }
    }

    /// Takes one step of a plugin's life and, where the step asks for the
    /// unloading, unloads the plugin: its record leaves the loaded plugins,
    /// its subscriber leaves the table, and the record is handed back. Every
    /// other step leaves the registry as it is.
    pub fn apply<P, C, S>(
        registry: &mut LYServerSharedData<P, C, S>,
        plugin_id: &str,
        state: LYServerPluginState,
        event: LYServerPluginEvent,
    ) -> (r: (LYServerPluginState, LYServerPluginAction, Option<LYServerLoadedPlugin<P, C>>))
        ensures
            (r.0, r.1) == state.after(event),
            r.1 == LYServerPluginAction::Unload ==> {
                &&& final(registry).loaded_plugins@ == unloaded(
                    old(registry).loaded_plugins@,
                    plugin_id@,
                )
                &&& final(registry).messaging_plugin_tx.ids() == unregistered(
                    old(registry).messaging_plugin_tx.ids(),
                    plugin_id@,
                )
                &&& r.2.is_some() == !none_with_id(old(registry).loaded_plugins@, plugin_id@)
                &&& r.2 matches Some(record) ==> record == old(registry).loaded_plugins@[first_with_id(
                    old(registry).loaded_plugins@,
                    plugin_id@,
                )]
            },
            r.1 != LYServerPluginAction::Unload ==> {
                &&& final(registry).loaded_plugins@ == old(registry).loaded_plugins@
                &&& final(registry).messaging_plugin_tx == old(registry).messaging_plugin_tx
                &&& r.2.is_none()
            },
            final(registry).shutdown_flag == old(registry).shutdown_flag,
            old(registry).is_tied() ==> final(registry).is_tied(),
    {
        let (next, action) = state.step(event);
        let record = match action {
            LYServerPluginAction::Unload => {
                let taken = registry.unload_plugin(plugin_id);
                proof {
                    if taken.is_some() {
                        let i = choose|i: int|
                            is_first_with_id(old(registry).loaded_plugins@, plugin_id@, i);
                        lemma_first_with_id(old(registry).loaded_plugins@, plugin_id@, i);
                    }
                }
                taken
            },
            _ => None,
        };
        (next, action, record)
    }

    /// Notes that a supervised task has been started.
    pub fn task_started(&mut self)
        requires
            old(self).plugin_tasks < usize::MAX,
        ensures
            final(self).plugin_tasks == old(self).plugin_tasks + 1,
            final(self).messaging_loop_running == old(self).messaging_loop_running,
    {
        self.plugin_tasks = self.plugin_tasks + 1;
    }

    /// The place of the first manifest in a listing.
    pub fn find_manifest(names: &Vec<String>) -> (r: Option<usize>)
        ensures
            match r {
                Some(i) => is_first_manifest(names@, i as int),
                None => no_manifest(names@),
            },
    {
        let n: usize = names.len();
        let mut i: usize = 0;
        while i < n
            invariant
                n == names@.len(),
                i <= n,
                forall|j: int| 0 <= j < i ==> !is_manifest_name(names@[j]@),
            decreases n - i,
        {
            if text_eq_ignore_ascii_case(names[i].as_str(), MANIFEST_FILE_NAME) {
                return Some(i);
            }
            i = i + 1;
        }
        None
    }

    /// The next action on a plugin directory, by what is known of it. The
    /// path has to exist and to be a directory; the directory has to hold a
    /// manifest, which has to give metadata that names a module; and the
    /// module has to be there.
    pub fn load_plugin_from_path(progress: LYServerDiscoveryProgress) -> (r: LYServerDiscoveryAction)
        ensures
            match progress {
                LYServerDiscoveryProgress::Found { exists, is_dir } => if !exists {
                    r matches LYServerDiscoveryAction::Fail(LYServerDiscoveryError::PathMissing)
                } else if !is_dir {
                    r matches LYServerDiscoveryAction::Fail(LYServerDiscoveryError::NotADirectory)
                } else {
                    r is ListDirectory
                },
                LYServerDiscoveryProgress::Listed(None) => r matches LYServerDiscoveryAction::Fail(
                    LYServerDiscoveryError::DirectoryUnreadable,
                ),
                LYServerDiscoveryProgress::Listed(Some(names)) => match r {
                    LYServerDiscoveryAction::ReadManifest(i) => is_first_manifest(names@, i as int),
                    LYServerDiscoveryAction::Fail(e) => e == LYServerDiscoveryError::ManifestMissing
                        && no_manifest(names@),
                    _ => false,
                },
                LYServerDiscoveryProgress::ManifestRead(None) => r matches LYServerDiscoveryAction::Fail(
                    LYServerDiscoveryError::ManifestUnreadable,
                ),
                LYServerDiscoveryProgress::ManifestRead(Some(text)) => match r {
                    LYServerDiscoveryAction::CheckEntry(metadata) => manifest_decision(text@) == Ok::<
                        MetadataModel,
                        LYServerDiscoveryError,
                    >(metadata@),
                    LYServerDiscoveryAction::Fail(e) => manifest_decision(text@) == Err::<
                        MetadataModel,
                        LYServerDiscoveryError,
                    >(e),
                    _ => false,
                },
                LYServerDiscoveryProgress::EntryChecked { metadata, exists } => if exists {
                    r matches LYServerDiscoveryAction::Load(loaded) && loaded@ == metadata@
                } else {
                    r matches LYServerDiscoveryAction::Fail(LYServerDiscoveryError::WasmEntryNotFound)
                },
            },
    {
        match progress {
            LYServerDiscoveryProgress::Found { exists, is_dir } => {
                if !exists {
                    LYServerDiscoveryAction::Fail(LYServerDiscoveryError::PathMissing)
                } else if !is_dir {
                    LYServerDiscoveryAction::Fail(LYServerDiscoveryError::NotADirectory)
                } else {
                    LYServerDiscoveryAction::ListDirectory
                }
            },
            LYServerDiscoveryProgress::Listed(None) => LYServerDiscoveryAction::Fail(
                LYServerDiscoveryError::DirectoryUnreadable,
            ),
            LYServerDiscoveryProgress::Listed(Some(names)) => match Self::find_manifest(&names) {
                Some(i) => LYServerDiscoveryAction::ReadManifest(i),
                None => LYServerDiscoveryAction::Fail(LYServerDiscoveryError::ManifestMissing),
            },
            LYServerDiscoveryProgress::ManifestRead(None) => LYServerDiscoveryAction::Fail(
                LYServerDiscoveryError::ManifestUnreadable,
            ),
            LYServerDiscoveryProgress::ManifestRead(Some(text)) => {
                match LYServerPluginMetadata::from_manifest(text.as_str()) {
                    Err(e) => LYServerDiscoveryAction::Fail(LYServerDiscoveryError::ManifestInvalid(e)),
                    Ok(metadata) => {
                        if metadata.wasm_entry_point.is_none() {
                            LYServerDiscoveryAction::Fail(LYServerDiscoveryError::WasmEntryMissing)
                        } else {
                            LYServerDiscoveryAction::CheckEntry(metadata)
                        }
                    },
                }
            },
            LYServerDiscoveryProgress::EntryChecked { metadata, exists } => {
                if exists {
                    LYServerDiscoveryAction::Load(metadata)
                } else {
                    LYServerDiscoveryAction::Fail(LYServerDiscoveryError::WasmEntryNotFound)
                }
            },
        }
    }

    /// What discovery does with the plugins directory: a directory that is
    /// there gives its entries, each a plugin directory to load, in the order
    /// of the listing; one that is not there is to be made, and nothing is
    /// loaded.
    pub fn init(plugins_directory: Option<Vec<String>>) -> (r: LYServerDiscovery)
        ensures
            match plugins_directory {
                Some(entries) => r == LYServerDiscovery::Load(entries),
                None => r is CreateDirectory,
            },
    {
        match plugins_directory {
            Some(entries) => LYServerDiscovery::Load(entries),
            None => LYServerDiscovery::CreateDirectory,
        }
    }

    /// What the joining of the supervised tasks comes to: an error if and
    /// only if one of them ended in a panic.
    pub fn wait_for_all_plugins(&mut self, ended_well: &Vec<bool>) -> (r: Result<(), LYServerLoadError>)
        ensures
            r is Ok <==> forall|i: int| 0 <= i < ended_well@.len() ==> ended_well@[i],
            r is Err ==> r == Err::<(), _>(LYServerLoadError::TaskPanicked),
            final(self).plugin_tasks == 0,
            final(self).messaging_loop_running == old(self).messaging_loop_running,
    {
        let n: usize = ended_well.len();
        let mut all_well = true;
        let mut i: usize = 0;
        while i < n && all_well
            invariant
                n == ended_well@.len(),
                i <= n,
                all_well ==> forall|j: int| 0 <= j < i ==> ended_well@[j],
                !all_well ==> exists|j: int| 0 <= j < n && !ended_well@[j],
            decreases n - i,
        {
            if !ended_well[i] {
                all_well = false;
            }
            i = i + 1;
        }
        self.plugin_tasks = 0;
        if all_well {
            Ok(())
        } else {
            Err(LYServerLoadError::TaskPanicked)
        }
    }

    /// Shutdown: the places of the loaded plugins whose cancellation handles
    /// are to be signalled, every one of them, in load order.
    pub fn destroy<P, C, S>(&self, registry: &LYServerSharedData<P, C, S>) -> (r: Vec<usize>)
        ensures
            r@.len() == registry.loaded_plugins@.len(),
            forall|i: int| 0 <= i < r@.len() ==> r@[i] == i,
    {
        let n: usize = registry.loaded_plugins.len();
        let mut out: Vec<usize> = Vec::new();
        let mut i: usize = 0;
        while i < n
            invariant
                n == registry.loaded_plugins@.len(),
                i <= n,
                out@.len() == i,
                forall|j: int| 0 <= j < i ==> out@[j] == j,
            decreases n - i,
        {
            out.push(i);
            i = i + 1;
        }
        out
    }
}

} // verus!
