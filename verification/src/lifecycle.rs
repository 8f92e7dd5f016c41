//! The life of a plugin, from discovery to unloading, as a state machine:
//! what the supervisor of a plugin does when something happens to it.

use vstd::prelude::*;

verus! {

/// Where a plugin stands in its life.
#[derive(Clone, Copy, Debug, PartialEq, Eq, Structural)]
pub enum LYServerPluginState {
    /// Found, and nothing done yet.
    Discovered,
    /// Its subscriber is registered.
    Registered,
    /// Its record is in the loaded plugins and its `init` runs; the manager
    /// waits for its `plugin_init` event.
    Initializing,
    /// It has said that it runs.
    Active,
    /// It has been asked to stop and its `destroy` runs.
    Stopping,
    /// It is gone from the registry.
    Unloaded,
}

/// What can happen to a plugin.
#[derive(Clone, Copy, Debug, PartialEq, Eq, Structural)]
pub enum LYServerPluginEvent {
    /// The registry took the plugin's subscriber.
    MessagingRegistered,
    /// The registry refused the plugin's id.
    RegistrationRefused,
    /// The instance has been made and recorded.
    Constructed,
    /// The instance has been made, and the registry refused its record.
    RecordRefused,
    /// The plugin's `plugin_init` event came in time.
    InitAnnounced,
    /// No `plugin_init` event came in time.
    HandshakeTimedOut,
    /// The plugin's `init` returned without an error.
    InitReturned,
    /// The plugin's `init` failed.
    InitFailed,
    /// The plugin's cancellation handle was signalled.
    CancelSignalled,
    /// The plugin's `destroy` has returned, with or without an error.
    DestroyFinished,
}

/// What the supervisor does next.
#[derive(Clone, Copy, Debug, PartialEq, Eq, Structural)]
pub enum LYServerPluginAction {
    /// Nothing.
    Nothing,
    /// Make the instance and record it.
    Construct,
    /// Run `init` under supervision and wait for the `plugin_init` event.
    Supervise,
    /// Run `destroy`.
    Destroy,
    /// Take the plugin out of the registry.
    Unload,
}

impl LYServerPluginState {
    /// Whether the plugin's record is among the loaded plugins and nobody has
    /// asked it to stop.
    pub open spec fn is_loaded(self) -> bool {
        self == LYServerPluginState::Initializing || self == LYServerPluginState::Active
    }

    /// The state after an event, and what the supervisor does. An event that
    /// means nothing in a state changes nothing.
    pub open spec fn after(self, event: LYServerPluginEvent) -> (LYServerPluginState, LYServerPluginAction) {
        match (self, event) {
            (LYServerPluginState::Discovered, LYServerPluginEvent::MessagingRegistered) => (
                LYServerPluginState::Registered,
                LYServerPluginAction::Construct,
            ),
            (LYServerPluginState::Discovered, LYServerPluginEvent::RegistrationRefused) => (
                LYServerPluginState::Unloaded,
                LYServerPluginAction::Nothing,
            ),
            (LYServerPluginState::Registered, LYServerPluginEvent::Constructed) => (
                LYServerPluginState::Initializing,
                LYServerPluginAction::Supervise,
            ),
            (LYServerPluginState::Registered, LYServerPluginEvent::RecordRefused) => (
                LYServerPluginState::Unloaded,
                LYServerPluginAction::Unload,
            ),
            (LYServerPluginState::Initializing, LYServerPluginEvent::InitAnnounced) => (
                LYServerPluginState::Active,
                LYServerPluginAction::Nothing,
            ),
            (LYServerPluginState::Initializing, LYServerPluginEvent::HandshakeTimedOut) => (
                LYServerPluginState::Stopping,
                LYServerPluginAction::Destroy,
            ),
            (LYServerPluginState::Initializing, LYServerPluginEvent::InitFailed) => (
                LYServerPluginState::Unloaded,
                LYServerPluginAction::Unload,
            ),
            (LYServerPluginState::Active, LYServerPluginEvent::InitFailed) => (
                LYServerPluginState::Unloaded,
                LYServerPluginAction::Unload,
            ),
            (LYServerPluginState::Initializing, LYServerPluginEvent::CancelSignalled) => (
                LYServerPluginState::Stopping,
                LYServerPluginAction::Destroy,
            ),
            (LYServerPluginState::Active, LYServerPluginEvent::CancelSignalled) => (
                LYServerPluginState::Stopping,
                LYServerPluginAction::Destroy,
            ),
            (LYServerPluginState::Stopping, LYServerPluginEvent::DestroyFinished) => (
                LYServerPluginState::Unloaded,
                LYServerPluginAction::Unload,
            ),
            _ => (self, LYServerPluginAction::Nothing),
        }
    }

    /// The state after a run of events.
    pub open spec fn after_all(self, events: Seq<LYServerPluginEvent>) -> LYServerPluginState
        decreases events.len(),
    {
        if events.len() == 0 {
            self
        } else {
            self.after_all(events.drop_last()).after(events.last()).0
        }
    }

    /// What the supervisor does at each event of a run.
    pub open spec fn actions(self, events: Seq<LYServerPluginEvent>) -> Seq<LYServerPluginAction>
        decreases events.len(),
    {
        if events.len() == 0 {
            Seq::empty()
        } else {
            self.actions(events.drop_last()).push(
                self.after_all(events.drop_last()).after(events.last()).1,
            )
        }
    }

    /// Takes one step of the plugin's life.
    pub fn step(self, event: LYServerPluginEvent) -> (r: (LYServerPluginState, LYServerPluginAction))
        ensures
            r == self.after(event),
    {
        match (self, event) {
            (LYServerPluginState::Discovered, LYServerPluginEvent::MessagingRegistered) => (
                LYServerPluginState::Registered,
                LYServerPluginAction::Construct,
            ),
            (LYServerPluginState::Discovered, LYServerPluginEvent::RegistrationRefused) => (
                LYServerPluginState::Unloaded,
                LYServerPluginAction::Nothing,
            ),
            (LYServerPluginState::Registered, LYServerPluginEvent::Constructed) => (
                LYServerPluginState::Initializing,
                LYServerPluginAction::Supervise,
            ),
            (LYServerPluginState::Registered, LYServerPluginEvent::RecordRefused) => (
                LYServerPluginState::Unloaded,
                LYServerPluginAction::Unload,
            ),
            (LYServerPluginState::Initializing, LYServerPluginEvent::InitAnnounced) => (
                LYServerPluginState::Active,
                LYServerPluginAction::Nothing,
            ),
            (LYServerPluginState::Initializing, LYServerPluginEvent::HandshakeTimedOut) => (
                LYServerPluginState::Stopping,
                LYServerPluginAction::Destroy,
            ),
            (LYServerPluginState::Initializing, LYServerPluginEvent::InitFailed) => (
                LYServerPluginState::Unloaded,
                LYServerPluginAction::Unload,
            ),
            (LYServerPluginState::Active, LYServerPluginEvent::InitFailed) => (
                LYServerPluginState::Unloaded,
                LYServerPluginAction::Unload,
            ),
            (LYServerPluginState::Initializing, LYServerPluginEvent::CancelSignalled) => (
                LYServerPluginState::Stopping,
                LYServerPluginAction::Destroy,
            ),
            (LYServerPluginState::Active, LYServerPluginEvent::CancelSignalled) => (
                LYServerPluginState::Stopping,
                LYServerPluginAction::Destroy,
            ),
            (LYServerPluginState::Stopping, LYServerPluginEvent::DestroyFinished) => (
                LYServerPluginState::Unloaded,
                LYServerPluginAction::Unload,
            ),
            _ => (self, LYServerPluginAction::Nothing),
        }
    }

    /// Takes the steps of a run of events and gives the state at the end and
    /// what the supervisor did at each event.
    pub fn run(self, events: &Vec<LYServerPluginEvent>) -> (r: (
        LYServerPluginState,
        Vec<LYServerPluginAction>,
    ))
        ensures
            r.0 == self.after_all(events@),
            r.1@ == self.actions(events@),
    {
        let mut state = self;
        let mut done: Vec<LYServerPluginAction> = Vec::new();
        let n: usize = events.len();
        let mut i: usize = 0;
        assert(events@.take(0) =~= Seq::empty());
        while i < n
            invariant
                n == events@.len(),
                i <= n,
                state == self.after_all(events@.take(i as int)),
                done@ == self.actions(events@.take(i as int)),
            decreases n - i,
        {
            proof {
                let next = events@.take(i + 1);
                assert(next.drop_last() =~= events@.take(i as int));
                assert(next.last() == events@[i as int]);
            }
            let (next_state, action) = state.step(events[i]);
            state = next_state;
            done.push(action);
            i = i + 1;
        }
        assert(events@.take(n as int) =~= events@);
        (state, done)
    }
}

/// What holds of a loaded plugin after any run of events: there is one
/// action for each event; the plugin never goes back to a state before its
/// loading; a plugin that is stopping has been asked to destroy itself; and
/// once a cancellation has been signalled, the plugin is stopping or gone.
spec fn stopped_after_cancel(
    start: LYServerPluginState,
    events: Seq<LYServerPluginEvent>,
) -> bool {
    let state = start.after_all(events);
    let done = start.actions(events);
    &&& done.len() == events.len()
    &&& state != LYServerPluginState::Discovered && state != LYServerPluginState::Registered
    &&& state == LYServerPluginState::Stopping ==> done.contains(LYServerPluginAction::Destroy)
    &&& events.contains(LYServerPluginEvent::CancelSignalled) ==> state
        == LYServerPluginState::Stopping || state == LYServerPluginState::Unloaded
}

proof fn lemma_stopped_after_cancel(start: LYServerPluginState, events: Seq<LYServerPluginEvent>)
    requires
        start.is_loaded(),
    ensures
        stopped_after_cancel(start, events),
    decreases events.len(),
{
    if events.len() == 0 {
        assert(!events.contains(LYServerPluginEvent::CancelSignalled));
    } else {
        let before = events.drop_last();
        lemma_stopped_after_cancel(start, before);
        let done_before = start.actions(before);
        let done = start.actions(events);
        assert(done == done_before.push(start.after_all(before).after(events.last()).1));
        assert forall|a: LYServerPluginAction| done_before.contains(a) implies done.contains(a) by {
            let k = choose|k: int| 0 <= k < done_before.len() && done_before[k] == a;
            assert(done[k] == a);
        }
        assert(done[done_before.len() as int] == start.after_all(before).after(events.last()).1);
        if events.contains(LYServerPluginEvent::CancelSignalled) {
            let k = choose|k: int|
                0 <= k < events.len() && events[k] == LYServerPluginEvent::CancelSignalled;
            if k < before.len() {
                assert(before[k] == LYServerPluginEvent::CancelSignalled);
            }
        }
        if before.contains(LYServerPluginEvent::CancelSignalled) {
            let k = choose|k: int|
                0 <= k < before.len() && before[k] == LYServerPluginEvent::CancelSignalled;
            assert(events[k] == LYServerPluginEvent::CancelSignalled);
        }
        assert(events[events.len() - 1] == events.last());
    }
}

/// Orderly shutdown: once the cancellation handle of a loaded plugin has
/// been signalled, the plugin is not taken out of the registry before its
/// `destroy` has been asked for. Whatever happens to a loaded plugin, if the
/// supervisor unloads it at some event and a cancellation was signalled
/// before that event, then `destroy` was asked for before that event too.
pub proof fn lemma_destroy_before_unload(
    start: LYServerPluginState,
    events: Seq<LYServerPluginEvent>,
    unload_at: int,
    cancel_at: int,
)
    requires
        start.is_loaded(),
        0 <= cancel_at < unload_at < events.len(),
        events[cancel_at] == LYServerPluginEvent::CancelSignalled,
        start.actions(events)[unload_at] == LYServerPluginAction::Unload,
    ensures
        start.actions(events).len() == events.len(),
        exists|destroy_at: int|
            0 <= destroy_at < unload_at && start.actions(events)[destroy_at]
                == LYServerPluginAction::Destroy,
    decreases events.len(),
{
    lemma_stopped_after_cancel(start, events);
    if unload_at == events.len() - 1 {
        let before = events.drop_last();
        lemma_stopped_after_cancel(start, before);
        assert(before[cancel_at] == LYServerPluginEvent::CancelSignalled);
        let state = start.after_all(before);
        let done_before = start.actions(before);
        let done = start.actions(events);
        assert(done == done_before.push(state.after(events.last()).1));
        assert(done[unload_at] == state.after(events.last()).1);
        // An unload out of a state other than `Stopping` comes from a state
        // that no cancellation leaves behind.
        assert(state == LYServerPluginState::Stopping);
        let destroy_at = choose|k: int|
            0 <= k < done_before.len() && done_before[k] == LYServerPluginAction::Destroy;
        assert(done[destroy_at] == LYServerPluginAction::Destroy);
    } else {
        let before = events.drop_last();
        lemma_stopped_after_cancel(start, before);
        let done_before = start.actions(before);
        let done = start.actions(events);
        assert(done == done_before.push(start.after_all(before).after(events.last()).1));
        assert(done[unload_at] == done_before[unload_at]);
        assert(before[cancel_at] == events[cancel_at]);
        lemma_destroy_before_unload(start, before, unload_at, cancel_at);
        let destroy_at = choose|k: int|
            0 <= k < unload_at && done_before[k] == LYServerPluginAction::Destroy;
        assert(done[destroy_at] == LYServerPluginAction::Destroy);
    }
}

} // verus!
