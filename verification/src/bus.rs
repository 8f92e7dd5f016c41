//! The event bus as seen by one participant: what a receive gives, the wait
//! for a matching event under a timeout, and the events that a plugin sends
//! in its own name.

use vstd::prelude::*;
use crate::cbor::{encode_null, null_encoding};
use crate::event::{EventModel, LYServerMessageEvent, LYServerMessageEventTarget, TargetModel};
use crate::registry::{registered, LYServerRegistryError, LYServerSharedData};

verus! {

/// The number of slots of the global broadcast channel.
pub const GLOBAL_CHANNEL_CAPACITY: usize = 512;

/// The number of slots of a plugin's own broadcast channel.
pub const PLUGIN_CHANNEL_CAPACITY: usize = 1024;

/// The type of the event by which a plugin says that it runs.
pub const PLUGIN_INIT_EVENT: &'static str = "plugin_init";

/// What a receive on a broadcast channel gave.
#[derive(Debug, PartialEq, Eq)]
pub enum LYServerReceived {
    /// The next event.
    Event(LYServerMessageEvent),
    /// The receiver fell behind and so many events were dropped.
    Lagged(u64),
    /// The channel is closed.
    Closed,
}

/// Why an event could not be sent.
#[derive(Clone, Copy, Debug, PartialEq, Eq, Structural)]
pub enum LYServerMessagingError {
    /// The bus is torn down.
    BusClosed,
    /// The plugin has not registered yet, so it has no id to send under.
    PluginIdNotSet,
}

/// The event that a single receive hands on: the event that came, or nothing
/// where the receiver lagged or the channel is closed.
pub fn receive_event(received: LYServerReceived) -> (r: Option<LYServerMessageEvent>)
    ensures
        match received {
            LYServerReceived::Event(event) => r == Some(event),
            _ => r.is_none(),
        },
{
    match received {
        LYServerReceived::Event(event) => Some(event),
        LYServerReceived::Lagged(_) => None,
        LYServerReceived::Closed => None,
    }
}

/// What a publish on the global channel comes to. The channel reports the
/// number of receivers that it reached, or nothing where it is torn down.
pub fn dispatch_event(reached: Option<usize>) -> (r: Result<(), LYServerMessagingError>)
    ensures
        r == match reached {
            Some(_) => Ok::<(), LYServerMessagingError>(()),
            None => Err::<(), LYServerMessagingError>(LYServerMessagingError::BusClosed),
        },
{
    match reached {
        Some(_) => Ok(()),
        None => Err(LYServerMessagingError::BusClosed),
    }
}

/// How a wait stands after one more thing has happened.
#[derive(Debug, PartialEq, Eq)]
pub enum LYServerWaitOutcome {
    /// Nothing matched yet and the time is not up.
    Pending,
    /// This event matched.
    Matched(LYServerMessageEvent),
    /// The time is up and nothing matched.
    TimedOut,
}

/// A wait for an event that a predicate accepts, bounded by a timeout.
#[derive(Debug, PartialEq, Eq)]
pub struct LYServerWait {
    /// The timeout, in milliseconds.
    pub timeout_ms: u64,
}

/// What one step of a wait comes to, where `accepted` tells whether what was
/// received is an event that the predicate accepts: an accepted event ends
/// the wait; otherwise the wait ends without an event once the timeout has
/// elapsed, and goes on before that.
pub open spec fn wait_step(timeout_ms: u64, elapsed_ms: u64, accepted: Option<
    LYServerMessageEvent,
>) -> LYServerWaitOutcome {
    match accepted {
        Some(event) => LYServerWaitOutcome::Matched(event),
        None => if elapsed_ms >= timeout_ms {
            LYServerWaitOutcome::TimedOut
        } else {
            LYServerWaitOutcome::Pending
        },
    }
}

/// Whether the predicate did not accept what was received: nothing came, or
/// no event, or an event that the predicate rejected.
pub open spec fn rejected<F: Fn(&LYServerMessageEvent) -> bool>(
    received: Option<LYServerReceived>,
    predicate: F,
) -> bool {
    received matches Some(LYServerReceived::Event(event)) ==> predicate.ensures((&event,), false)
}

/// Whether the wait is still pending after the first `k` steps: each of them
/// came before the timeout and brought nothing that the predicate accepted.
pub open spec fn pending_before<F: Fn(&LYServerMessageEvent) -> bool>(
    steps: Seq<(u64, Option<LYServerReceived>)>,
    k: int,
    predicate: F,
    timeout_ms: u64,
) -> bool {
    forall|j: int|
        0 <= j < k && j < steps.len() ==> (#[trigger] steps[j]).0 < timeout_ms && rejected(
            steps[j].1,
            predicate,
        )
}

impl LYServerWait {
    /// A wait with the given timeout.
    pub fn new(timeout_ms: u64) -> (r: Self)
        ensures
            r.timeout_ms == timeout_ms,
    {
        LYServerWait { timeout_ms }
    }

    /// Takes one step: `received` is what the receiver gave, or nothing where
    /// only time has passed; `elapsed_ms` is the time since the wait began.
    /// An event is handed back only if the predicate accepted it, and the
    /// wait times out only once the timeout has elapsed.
    pub fn step<F>(&self, elapsed_ms: u64, received: Option<LYServerReceived>, predicate: &F) -> (r:
        LYServerWaitOutcome)
        where F: Fn(&LYServerMessageEvent) -> bool
        requires
            forall|event: &LYServerMessageEvent| predicate.requires((event,)),
        ensures
            match received {
                Some(LYServerReceived::Event(event)) => exists|accepts: bool|
                    #[trigger] predicate.ensures((&event,), accepts) && r == wait_step(
                        self.timeout_ms,
                        elapsed_ms,
                        if accepts {
                            Some(event)
                        } else {
                            None
                        },
                    ),
                _ => r == wait_step(self.timeout_ms, elapsed_ms, None),
            },
            r matches LYServerWaitOutcome::Matched(event) ==> predicate.ensures((&event,), true),
            r is TimedOut ==> elapsed_ms >= self.timeout_ms,
    {
        match received {
            Some(LYServerReceived::Event(event)) => {
                let accepts = predicate(&event);
                if accepts {
                    return LYServerWaitOutcome::Matched(event);
                }
            },
            _ => {},
        }
        if elapsed_ms >= self.timeout_ms {
            LYServerWaitOutcome::TimedOut
        } else {
            LYServerWaitOutcome::Pending
        }
    }

    /// Takes the steps of a recorded wait, first to last, up to the first
    /// that ends the wait. Each entry holds the time that had elapsed and what
    /// the receiver gave. The wait ends at the first step that brings an
    /// event that the predicate accepts, or that comes at or after the
    /// timeout; it is still pending where the steps run out before that.
    pub fn run<F>(&self, steps: &Vec<(u64, Option<LYServerReceived>)>, predicate: &F) -> (r:
        LYServerWaitOutcome)
        where F: Fn(&LYServerMessageEvent) -> bool
        requires
            forall|event: &LYServerMessageEvent| predicate.requires((event,)),
        ensures
            match r {
                LYServerWaitOutcome::Matched(event) => exists|k: int|
                    {
                        &&& #[trigger] pending_before(steps@, k, *predicate, self.timeout_ms)
                        &&& 0 <= k < steps@.len()
                        &&& steps@[k].1 matches Some(LYServerReceived::Event(received))
                        &&& received@ == event@
                        &&& predicate.ensures((&received,), true)
                    },
                LYServerWaitOutcome::TimedOut => exists|k: int|
                    {
                        &&& #[trigger] pending_before(steps@, k, *predicate, self.timeout_ms)
                        &&& 0 <= k < steps@.len()
                        &&& rejected(steps@[k].1, *predicate)
                        &&& steps@[k].0 >= self.timeout_ms
                    },
                LYServerWaitOutcome::Pending => pending_before(
                    steps@,
                    steps@.len() as int,
                    *predicate,
                    self.timeout_ms,
                ),
            },
    {
        let n: usize = steps.len();
        let mut i: usize = 0;
        while i < n
            invariant
                n == steps@.len(),
                i <= n,
                forall|event: &LYServerMessageEvent| predicate.requires((event,)),
                pending_before(steps@, i as int, *predicate, self.timeout_ms),
            decreases n - i,
        {
            match &steps[i].1 {
                Some(LYServerReceived::Event(event)) => {
                    if predicate(event) {
                        return LYServerWaitOutcome::Matched(event.clone());
                    }
                },
                _ => {},
            }
            if steps[i].0 >= self.timeout_ms {
                return LYServerWaitOutcome::TimedOut;
            }
            i = i + 1;
        }
        LYServerWaitOutcome::Pending
    }

    /// What the wait returns: the event that matched, or nothing.
    pub fn result(outcome: LYServerWaitOutcome) -> (r: Option<LYServerMessageEvent>)
        requires
            !(outcome is Pending),
        ensures
            match outcome {
                LYServerWaitOutcome::Matched(event) => r == Some(event),
                _ => r.is_none(),
            },
    {
        match outcome {
            LYServerWaitOutcome::Matched(event) => Some(event),
            _ => None,
        }
    }
}

/// What a plugin holds to take part in the bus: its id, once it has
/// registered.
#[derive(Debug, PartialEq, Eq)]
pub struct LYServerPluginSharedData {
    pub plugin_id: Option<String>,
}

impl LYServerPluginSharedData {
    /// The id, if the plugin has registered.
    pub open spec fn id(&self) -> Option<Seq<char>> {
        match self.plugin_id {
            Some(id) => Some(id@),
            None => None,
        }
    }

    /// The handle of a plugin that has not registered yet.
    pub fn new() -> (r: Self)
        ensures
            r.id().is_none(),
    {
        LYServerPluginSharedData { plugin_id: None }
    }

    /// Takes the id and registers the plugin's subscriber under it. The id is
    /// taken even where the registry refuses it.
    pub fn register_plugin_messaging<P, C, S>(
        &mut self,
        registry: &mut LYServerSharedData<P, C, S>,
        plugin_id: String,
        tx: S,
    ) -> (r: Result<(), LYServerRegistryError>)
        ensures
            final(self).id() == Some(plugin_id@),
            r is Err <==> old(registry).messaging_plugin_tx.ids().contains(plugin_id@),
            r is Err ==> r == Err::<(), _>(LYServerRegistryError::AlreadyRegistered),
            final(registry).messaging_plugin_tx.ids() == registered(
                old(registry).messaging_plugin_tx.ids(),
                plugin_id@,
            ),
            r is Ok ==> final(registry).messaging_plugin_tx.senders() == old(
                registry,
            ).messaging_plugin_tx.senders().push(tx),
            r is Err ==> final(registry).messaging_plugin_tx.senders() == old(
                registry,
            ).messaging_plugin_tx.senders(),
            final(registry).loaded_plugins == old(registry).loaded_plugins,
    {
        self.plugin_id = Some(plugin_id.clone());
        registry.register_plugin_messaging(plugin_id, tx)
    }

    /// A new event from this plugin.
    pub fn create_event(
        &self,
        event_id: String,
        event_type: &str,
        target: LYServerMessageEventTarget,
        data: Vec<u8>,
    ) -> (r: Result<LYServerMessageEvent, LYServerMessagingError>)
        ensures
            match self.id() {
                Some(id) => r is Ok && r->Ok_0@ == (EventModel {
                    event_id: event_id@,
                    event_type: event_type@,
                    event_target: target@,
                    event_sender: TargetModel::Plugin(id),
                    data: data@,
                }),
                None => r == Err::<LYServerMessageEvent, _>(LYServerMessagingError::PluginIdNotSet),
            },
    {
        match &self.plugin_id {
            Some(id) => Ok(
                LYServerMessageEvent::new(
                    event_id,
                    event_type,
                    target,
                    LYServerMessageEventTarget::Plugin(id.clone()),
                    data,
                ),
            ),
            None => Err(LYServerMessagingError::PluginIdNotSet),
        }
    }

    /// This plugin's reply to an event.
    pub fn reply_event(&self, event_type: &str, answered_event: LYServerMessageEvent, data: Vec<u8>) -> (r:
        Result<LYServerMessageEvent, LYServerMessagingError>)
        ensures
            match self.id() {
                Some(id) => r is Ok && r->Ok_0@ == answered_event@.reply(
                    event_type@,
                    TargetModel::Plugin(id),
                    data@,
                ),
                None => r == Err::<LYServerMessageEvent, _>(LYServerMessagingError::PluginIdNotSet),
            },
    {
        match &self.plugin_id {
            Some(id) => Ok(
                answered_event.reply(event_type, LYServerMessageEventTarget::Plugin(id.clone()), data),
            ),
            None => Err(LYServerMessagingError::PluginIdNotSet),
        }
    }

    /// A recorded wait of this plugin for an event that the predicate
    /// accepts: the steps are taken as `LYServerWait::run` takes them.
    pub fn wait_until_event<F>(
        &self,
        steps: &Vec<(u64, Option<LYServerReceived>)>,
        predicate: &F,
        timeout_ms: u64,
    ) -> (r: LYServerWaitOutcome)
        where F: Fn(&LYServerMessageEvent) -> bool
        requires
            forall|event: &LYServerMessageEvent| predicate.requires((event,)),
        ensures
            match r {
                LYServerWaitOutcome::Matched(event) => exists|k: int|
                    {
                        &&& #[trigger] pending_before(steps@, k, *predicate, timeout_ms)
                        &&& 0 <= k < steps@.len()
                        &&& steps@[k].1 matches Some(LYServerReceived::Event(received))
                        &&& received@ == event@
                        &&& predicate.ensures((&received,), true)
                    },
                LYServerWaitOutcome::TimedOut => exists|k: int|
                    {
                        &&& #[trigger] pending_before(steps@, k, *predicate, timeout_ms)
                        &&& 0 <= k < steps@.len()
                        &&& rejected(steps@[k].1, *predicate)
                        &&& steps@[k].0 >= timeout_ms
                    },
                LYServerWaitOutcome::Pending => pending_before(
                    steps@,
                    steps@.len() as int,
                    *predicate,
                    timeout_ms,
                ),
            },
    {
        LYServerWait::new(timeout_ms).run(steps, predicate)
    }

    /// The event by which this plugin says that it runs: of type
    /// `plugin_init`, to everyone, with the CBOR null value as payload.
    pub fn dispatch_init_event(&self, event_id: String) -> (r: Result<
        LYServerMessageEvent,
        LYServerMessagingError,
    >)
        ensures
            match self.id() {
                Some(id) => r is Ok && r->Ok_0@ == (EventModel {
                    event_id: event_id@,
                    event_type: PLUGIN_INIT_EVENT@,
                    event_target: TargetModel::All,
                    event_sender: TargetModel::Plugin(id),
                    data: null_encoding(),
                }),
                None => r == Err::<LYServerMessageEvent, _>(LYServerMessagingError::PluginIdNotSet),
            },
    {
        if self.plugin_id.is_none() {
            return Err(LYServerMessagingError::PluginIdNotSet);
        }
        self.create_event(event_id, PLUGIN_INIT_EVENT, LYServerMessageEventTarget::All, encode_null())
    }
}

} // verus!
