//! The shared registry: the table of per-plugin subscribers, the list of
//! loaded plugins in load order, and the process-wide facts that go with
//! them.

use vstd::prelude::*;
use crate::event::{LYServerMessageEvent, LYServerMessageEventTarget, TargetModel};
use crate::metadata::{LYServerPluginMetadata, MetadataModel};
use crate::text::text_eq;

verus! {

/// The ids of a subscriber table, in the order of registration.
pub type Ids = Seq<Seq<char>>;

/// Why a registration was refused.
#[derive(Clone, Copy, Debug, PartialEq, Eq, Structural)]
pub enum LYServerRegistryError {
    /// The id has a subscriber already.
    AlreadyRegistered,
    /// The id of a plugin that is to be recorded has no subscriber.
    NotRegistered,
    /// A loaded plugin has the id already.
    AlreadyLoaded,
}

/// A change of a subscriber table.
pub enum TableChange {
    /// An attempt to register the id.
    Register(Seq<char>),
    /// The removal of the id's subscriber.
    Unregister(Seq<char>),
}

/// The ids after an attempt to register `id`: an id that is there is
/// refused and nothing changes; a new id goes to the end.
pub open spec fn registered(ids: Ids, id: Seq<char>) -> Ids {
    if ids.contains(id) {
        ids
    } else {
        ids.push(id)
    }
}

/// The ids after the removal of `id`.
pub open spec fn unregistered(ids: Ids, id: Seq<char>) -> Ids {
    if ids.contains(id) {
        ids.remove(ids.index_of(id))
    } else {
        ids
    }
}

/// The ids after one change.
pub open spec fn changed(ids: Ids, change: TableChange) -> Ids {
    match change {
        TableChange::Register(id) => registered(ids, id),
        TableChange::Unregister(id) => unregistered(ids, id),
    }
}

/// The ids after a run of changes, first to last.
pub open spec fn changed_by_all(ids: Ids, changes: Seq<TableChange>) -> Ids
    decreases changes.len(),
{
    if changes.len() == 0 {
        ids
    } else {
        changed(changed_by_all(ids, changes.drop_last()), changes.last())
    }
}

/// Registration keeps the ids free of duplicates.
pub proof fn lemma_registered_keeps_distinct(ids: Ids, id: Seq<char>)
    requires
        ids.no_duplicates(),
    ensures
        registered(ids, id).no_duplicates(),
        registered(ids, id).contains(id),
{
    if ids.contains(id) {
    } else {
        let after = ids.push(id);
        assert(after[ids.len() as int] == id);
        assert forall|i: int, j: int| 0 <= i < after.len() && 0 <= j < after.len() && i != j implies after[i]
            != after[j] by {
            if i == ids.len() {
                assert(ids[j] == after[j]);
                assert(ids.contains(ids[j]));
            } else if j == ids.len() {
                assert(ids[i] == after[i]);
                assert(ids.contains(ids[i]));
            }
        }
    }
}

/// Removal keeps the ids free of duplicates, takes the id out and leaves
/// every other id in.
pub proof fn lemma_unregistered_keeps_distinct(ids: Ids, id: Seq<char>)
    requires
        ids.no_duplicates(),
    ensures
        unregistered(ids, id).no_duplicates(),
        !unregistered(ids, id).contains(id),
        forall|other: Seq<char>|
            other != id ==> (unregistered(ids, id).contains(other) <==> ids.contains(other)),
{
    if ids.contains(id) {
        let p = ids.index_of(id);
        let after = ids.remove(p);
        assert forall|i: int| 0 <= i < after.len() implies after[i] == ids[if i < p {
            i
        } else {
            i + 1
        }] by {}
        assert forall|i: int, j: int| 0 <= i < after.len() && 0 <= j < after.len() && i != j implies after[i]
            != after[j] by {}
        assert(!after.contains(id)) by {
            if after.contains(id) {
                let k = choose|k: int| 0 <= k < after.len() && after[k] == id;
                let k2 = if k < p {
                    k
                } else {
                    k + 1
                };
                assert(ids[k2] == id);
            }
        }
        assert forall|other: Seq<char>| other != id implies (after.contains(other) <==> ids.contains(
            other,
        )) by {
            if ids.contains(other) {
                let k = choose|k: int| 0 <= k < ids.len() && ids[k] == other;
                let k2 = if k < p {
                    k
                } else {
                    k - 1
                };
                assert(after[k2] == other);
            }
            if after.contains(other) {
                let k = choose|k: int| 0 <= k < after.len() && after[k] == other;
                let k2 = if k < p {
                    k
                } else {
                    k + 1
                };
                assert(ids[k2] == other);
            }
        }
    }
}

/// A subscriber that has been registered under an id has exactly one entry
/// under that id, whatever is registered or removed afterwards, for as long
/// as the id itself is not removed.
pub proof fn lemma_one_entry_until_unloaded(ids: Ids, id: Seq<char>, later: Seq<TableChange>)
    requires
        ids.no_duplicates(),
        forall|k: int| 0 <= k < later.len() ==> later[k] != TableChange::Unregister(id),
    ensures
        changed_by_all(registered(ids, id), later).no_duplicates(),
        changed_by_all(registered(ids, id), later).contains(id),
        changed_by_all(registered(ids, id), later).to_multiset().count(id) == 1,
    decreases later.len(),
{
    let start = registered(ids, id);
    lemma_registered_keeps_distinct(ids, id);
    if later.len() == 0 {
    } else {
        let before = changed_by_all(start, later.drop_last());
        assert forall|k: int| 0 <= k < later.drop_last().len() implies later.drop_last()[k]
            != TableChange::Unregister(id) by {
            assert(later.drop_last()[k] == later[k]);
        }
        lemma_one_entry_until_unloaded(ids, id, later.drop_last());
        match later.last() {
            TableChange::Register(other) => {
                lemma_registered_keeps_distinct(before, other);
                if !before.contains(other) {
                    assert(before.push(other)[before.index_of(id)] == id);
                }
            },
            TableChange::Unregister(other) => {
                assert(other != id);
                lemma_unregistered_keeps_distinct(before, other);
            },
        }
    }
    let end = changed_by_all(start, later);
    end.lemma_multiset_has_no_duplicates();
    assert(end.to_multiset().contains(id)) by {
        broadcast use vstd::seq_lib::group_to_multiset_ensures;

    }
}

/// The places of the subscribers, among the first `n`, that receive what is
/// sent to the target, in ascending order.
pub open spec fn recipients_among(ids: Ids, target: TargetModel, n: nat) -> Seq<int>
    decreases n,
{
    if n == 0 {
        Seq::empty()
    } else {
        let before = recipients_among(ids, target, (n - 1) as nat);
        if target.delivers_to(ids[n - 1]) {
            before.push(n - 1)
        } else {
            before
        }
    }
}

/// The recipients are the subscribers that the matching rule names: a place
/// among the first `n` is a recipient if and only if the target delivers to
/// the id at that place.
pub proof fn lemma_recipients(ids: Ids, target: TargetModel, n: nat, i: int)
    requires
        n <= ids.len(),
    ensures
        recipients_among(ids, target, n).contains(i) <==> (0 <= i < n && target.delivers_to(ids[i])),
    decreases n,
{
    if n == 0 {
    } else {
        let before = recipients_among(ids, target, (n - 1) as nat);
        let all = recipients_among(ids, target, n);
        lemma_recipients(ids, target, (n - 1) as nat, i);
        if target.delivers_to(ids[n - 1]) {
            assert(all == before.push(n - 1));
            if all.contains(i) {
                let k = choose|k: int| 0 <= k < all.len() && all[k] == i;
                if k < before.len() {
                    assert(before[k] == i);
                }
            }
            if 0 <= i < n && target.delivers_to(ids[i]) {
                if i == n - 1 {
                    assert(all[before.len() as int] == i);
                } else {
                    assert(before.contains(i));
                    let k = choose|k: int| 0 <= k < before.len() && before[k] == i;
                    assert(all[k] == i);
                }
            }
        }
    }
}

/// No subscriber is named twice among the recipients, and each recipient is
/// among the first `n` places.
pub proof fn lemma_recipients_once(ids: Ids, target: TargetModel, n: nat)
    requires
        n <= ids.len(),
    ensures
        recipients_among(ids, target, n).no_duplicates(),
        forall|k: int|
            0 <= k < recipients_among(ids, target, n).len() ==> 0 <= #[trigger] recipients_among(
                ids,
                target,
                n,
            )[k] < n,
    decreases n,
{
    if n > 0 {
        lemma_recipients_once(ids, target, (n - 1) as nat);
    }
}

/// A subscriber that is registered before an event is dispatched is among
/// the recipients of the event whenever the event's target delivers to it,
/// whatever else is registered in between.
pub proof fn lemma_registered_before_dispatch(
    ids: Ids,
    id: Seq<char>,
    later: Seq<Seq<char>>,
    target: TargetModel,
)
    requires
        ids.no_duplicates(),
        target.delivers_to(id),
    ensures
        ({
            let at_dispatch = registered_all(registered(ids, id), later);
            at_dispatch.contains(id) && recipients_among(
                at_dispatch,
                target,
                at_dispatch.len(),
            ).contains(at_dispatch.index_of(id))
        }),
{
    lemma_registered_keeps_distinct(ids, id);
    lemma_registered_all_keeps(registered(ids, id), later, id);
    let at_dispatch = registered_all(registered(ids, id), later);
    let place = at_dispatch.index_of(id);
    lemma_recipients(at_dispatch, target, at_dispatch.len(), place);
}

/// The ids after each id of a run has been registered, first to last.
pub open spec fn registered_all(ids: Ids, more: Seq<Seq<char>>) -> Ids
    decreases more.len(),
{
    if more.len() == 0 {
        ids
    } else {
        registered(registered_all(ids, more.drop_last()), more.last())
    }
}

/// Registrations take no id out.
proof fn lemma_registered_all_keeps(ids: Ids, more: Seq<Seq<char>>, id: Seq<char>)
    requires
        ids.contains(id),
    ensures
        registered_all(ids, more).contains(id),
    decreases more.len(),
{
    if more.len() == 0 {
    } else {
        lemma_registered_all_keeps(ids, more.drop_last(), id);
        let before = registered_all(ids, more.drop_last());
        if !before.contains(more.last()) {
            assert(before.push(more.last())[before.index_of(id)] == id);
        }
    }
}

/// The table of per-plugin subscribers: each id has at most one.
pub struct LYServerSubscriberTable<S> {
    entries: Vec<(String, S)>,
}

impl<S> LYServerSubscriberTable<S> {
    /// The ids, in the order of registration.
    pub closed spec fn ids(&self) -> Ids {
        Seq::new(self.entries@.len(), |i: int| self.entries@[i].0@)
    }

    /// The subscribers, each at the place of its id.
    pub closed spec fn senders(&self) -> Seq<S> {
        Seq::new(self.entries@.len(), |i: int| self.entries@[i].1)
    }

    #[verifier::type_invariant]
    spec fn ids_are_distinct(self) -> bool {
        self.ids().no_duplicates()
    }

    /// The empty table.
    pub fn new() -> (r: Self)
        ensures
            r.ids() == Ids::empty(),
            r.senders() == Seq::<S>::empty(),
    {
        let r = LYServerSubscriberTable { entries: Vec::new() };
        assert(r.ids() =~= Ids::empty());
        assert(r.senders() =~= Seq::<S>::empty());
        r
    }

    /// The number of subscribers.
    pub fn len(&self) -> (r: usize)
        ensures
            r == self.ids().len(),
            r == self.senders().len(),
            self.ids().no_duplicates(),
    {
        proof {
            use_type_invariant(self);
        }
        self.entries.len()
    }

    /// The place of an id, if it is registered.
    pub fn position(&self, id: &str) -> (r: Option<usize>)
        ensures
            match r {
                Some(i) => i < self.ids().len() && self.ids()[i as int] == id@ && self.ids().index_of(
                    id@,
                ) == i,
                None => true,
            },
            r.is_some() == self.ids().contains(id@),
    {
        proof {
            use_type_invariant(self);
        }
        let n: usize = self.entries.len();
        let mut i: usize = 0;
        while i < n
            invariant
                n == self.entries@.len(),
                n == self.ids().len(),
                i <= n,
                self.ids().no_duplicates(),
                forall|j: int| 0 <= j < i ==> self.ids()[j] != id@,
            decreases n - i,
        {
            if text_eq(self.entries[i].0.as_str(), id) {
                proof {
                    assert(self.ids()[i as int] == id@);
                    assert(self.ids().contains(id@));
                }
                return Some(i);
            }
            i = i + 1;
        }
        None
    }

    /// Whether the id has a subscriber.
    pub fn contains(&self, id: &str) -> (r: bool)
        ensures
            r == self.ids().contains(id@),
    {
        self.position(id).is_some()
    }

    /// The id at a place.
    pub fn id(&self, i: usize) -> (r: &String)
        requires
            i < self.ids().len(),
        ensures
            r@ == self.ids()[i as int],
    {
        &self.entries[i].0
    }

    /// The subscriber at a place.
    pub fn sender(&self, i: usize) -> (r: &S)
        requires
            i < self.senders().len(),
        ensures
            *r == self.senders()[i as int],
    {
        &self.entries[i].1
    }

    /// Registers a subscriber under an id. An id that has a subscriber is
    /// refused, and the table stays as it is.
    pub fn register(&mut self, id: String, tx: S) -> (r: Result<(), LYServerRegistryError>)
        ensures
            r is Err <==> old(self).ids().contains(id@),
            r is Err ==> r == Err::<(), _>(LYServerRegistryError::AlreadyRegistered),
            final(self).ids() == registered(old(self).ids(), id@),
            r is Err ==> final(self).senders() == old(self).senders(),
            r is Ok ==> final(self).senders() == old(self).senders().push(tx),
            final(self).ids().no_duplicates(),
            final(self).ids().to_multiset().count(id@) == 1,
    {
        proof {
            use_type_invariant(&*self);
            lemma_registered_keeps_distinct(self.ids(), id@);
            registered(self.ids(), id@).lemma_multiset_has_no_duplicates();
            broadcast use vstd::seq_lib::group_to_multiset_ensures;

        }
        if self.contains(id.as_str()) {
            return Err(LYServerRegistryError::AlreadyRegistered);
        }
        let ghost ids_before = self.ids();
        let ghost senders_before = self.senders();
        let mut entries: Vec<(String, S)> = Vec::new();
        core::mem::swap(&mut self.entries, &mut entries);
        entries.push((id, tx));
        assert(Seq::new(entries@.len(), |i: int| entries@[i].0@) =~= ids_before.push(id@));
        assert(Seq::new(entries@.len(), |i: int| entries@[i].1) =~= senders_before.push(tx));
        core::mem::swap(&mut self.entries, &mut entries);
        Ok(())
    }

    /// Removes the subscriber of an id and hands it back, if there is one.
    pub fn unregister(&mut self, id: &str) -> (r: Option<S>)
        ensures
            r.is_some() == old(self).ids().contains(id@),
            old(self).ids().no_duplicates(),
            final(self).ids() == unregistered(old(self).ids(), id@),
            !final(self).ids().contains(id@),
            final(self).ids().no_duplicates(),
            match r {
                Some(tx) => tx == old(self).senders()[old(self).ids().index_of(id@)]
                    && final(self).senders() == old(self).senders().remove(
                    old(self).ids().index_of(id@),
                ),
                None => final(self).senders() == old(self).senders(),
            },
    {
        proof {
            use_type_invariant(&*self);
            lemma_unregistered_keeps_distinct(self.ids(), id@);
        }
        match self.position(id) {
            Some(i) => {
                let ghost ids_before = self.ids();
                let ghost senders_before = self.senders();
                let mut entries: Vec<(String, S)> = Vec::new();
                core::mem::swap(&mut self.entries, &mut entries);
                let removed = entries.remove(i);
                assert(Seq::new(entries@.len(), |k: int| entries@[k].0@) =~= ids_before.remove(
                    i as int,
                ));
                assert(Seq::new(entries@.len(), |k: int| entries@[k].1) =~= senders_before.remove(
                    i as int,
                ));
                core::mem::swap(&mut self.entries, &mut entries);
                Some(removed.1)
            },
            None => None,
        }
    }

    /// The places of the subscribers that receive what is sent to the
    /// target, in ascending order.
    pub fn recipients(&self, target: &LYServerMessageEventTarget) -> (r: Vec<usize>)
        ensures
            r@.map_values(|i: usize| i as int) == recipients_among(
                self.ids(),
                target@,
                self.ids().len(),
            ),
            forall|k: int| 0 <= k < r@.len() ==> r@[k] < self.ids().len(),
    {
        let n: usize = self.entries.len();
        let mut out: Vec<usize> = Vec::new();
        let mut i: usize = 0;
        while i < n
            invariant
                n == self.entries@.len(),
                n == self.ids().len(),
                i <= n,
                out@.map_values(|i: usize| i as int) == recipients_among(
                    self.ids(),
                    target@,
                    i as nat,
                ),
                forall|k: int| 0 <= k < out@.len() ==> out@[k] < i,
            decreases n - i,
        {
            if target.delivers_to(self.entries[i].0.as_str()) {
                let ghost before = out@;
                out.push(i);
                assert(out@.map_values(|i: usize| i as int) =~= before.map_values(
                    |i: usize| i as int,
                ).push(i as int));
            }
            i = i + 1;
        }
        out
    }
}

/// A plugin that has been loaded: the instance, what it says of itself, and
/// the handle by which it is asked to stop.
pub struct LYServerLoadedPlugin<P, C> {
    pub instance: P,
    pub metadata: LYServerPluginMetadata,
    pub cancel: C,
}

/// The process-wide state that plugins share.
pub struct LYServerSharedData<P, C, S> {
    /// The address that the server listens on.
    pub bind_address: String,
    /// The directory that holds the server's data.
    pub data_dir: String,
    /// The server's version.
    pub version: String,
    /// When the server started, in seconds since the epoch.
    pub start_ts: u64,
    /// Whether shutdown has been asked for.
    pub shutdown_flag: bool,
    /// The loaded plugins, in load order.
    pub loaded_plugins: Vec<LYServerLoadedPlugin<P, C>>,
    /// The per-plugin subscribers.
    pub messaging_plugin_tx: LYServerSubscriberTable<S>,
    /// The id of the server's process.
    pub pid: u32,
}

/// The metadata of loaded plugins as mathematical values, in load order.
pub open spec fn loaded_metadata<P, C>(plugins: Seq<LYServerLoadedPlugin<P, C>>) -> Seq<
    MetadataModel,
> {
    Seq::new(plugins.len(), |i: int| plugins[i].metadata@)
}

/// Whether `i` is the place of the first loaded plugin with the id.
pub open spec fn is_first_with_id<P, C>(
    plugins: Seq<LYServerLoadedPlugin<P, C>>,
    id: Seq<char>,
    i: int,
) -> bool {
    &&& 0 <= i < plugins.len()
    &&& plugins[i].metadata@.id == id
    &&& forall|j: int| 0 <= j < i ==> plugins[j].metadata@.id != id
}

/// Whether no loaded plugin has the id.
pub open spec fn none_with_id<P, C>(plugins: Seq<LYServerLoadedPlugin<P, C>>, id: Seq<char>) -> bool {
    forall|j: int| 0 <= j < plugins.len() ==> plugins[j].metadata@.id != id
}

/// The place of the first loaded plugin with the id, where there is one.
pub open spec fn first_with_id<P, C>(plugins: Seq<LYServerLoadedPlugin<P, C>>, id: Seq<char>) -> int {
    choose|i: int| is_first_with_id(plugins, id, i)
}

/// The loaded plugins after the unloading of `id`: the first record with the
/// id is gone, and every other record is where it was among the others.
pub open spec fn unloaded<P, C>(plugins: Seq<LYServerLoadedPlugin<P, C>>, id: Seq<char>) -> Seq<
    LYServerLoadedPlugin<P, C>,
> {
    if none_with_id(plugins, id) {
        plugins
    } else {
        plugins.remove(first_with_id(plugins, id))
    }
}

/// The loaded plugins after the unloading of each id of a run, first to
/// last.
pub open spec fn unloaded_all<P, C>(plugins: Seq<LYServerLoadedPlugin<P, C>>, ids: Ids) -> Seq<
    LYServerLoadedPlugin<P, C>,
>
    decreases ids.len(),
{
    if ids.len() == 0 {
        plugins
    } else {
        unloaded_all(unloaded(plugins, ids[0]), ids.drop_first())
    }
}

/// Whether each unloading of a run finds a record to take out.
pub open spec fn each_is_loaded<P, C>(plugins: Seq<LYServerLoadedPlugin<P, C>>, ids: Ids) -> bool
    decreases ids.len(),
{
    ids.len() == 0 || (!none_with_id(plugins, ids[0]) && each_is_loaded(
        unloaded(plugins, ids[0]),
        ids.drop_first(),
    ))
}

/// The ids of loaded plugins, in load order.
pub open spec fn loaded_ids<P, C>(plugins: Seq<LYServerLoadedPlugin<P, C>>) -> Ids {
    Seq::new(plugins.len(), |i: int| plugins[i].metadata@.id)
}

/// There is one first record with an id, and it is found where a record
/// with the id is there.
pub proof fn lemma_first_with_id<P, C>(plugins: Seq<LYServerLoadedPlugin<P, C>>, id: Seq<char>, i: int)
    requires
        is_first_with_id(plugins, id, i),
    ensures
        !none_with_id(plugins, id),
        first_with_id(plugins, id) == i,
        unloaded(plugins, id) == plugins.remove(i),
        unloaded(plugins, id).len() == plugins.len() - 1,
{
    let j = first_with_id(plugins, id);
    assert(is_first_with_id(plugins, id, j));
    if j < i {
        assert(plugins[j].metadata@.id != id);
    }
    if i < j {
        assert(plugins[i].metadata@.id != id);
    }
}

/// An unloading that finds a record takes exactly one record out.
pub proof fn lemma_unloaded_takes_one<P, C>(plugins: Seq<LYServerLoadedPlugin<P, C>>, id: Seq<char>)
    requires
        !none_with_id(plugins, id),
    ensures
        is_first_with_id(plugins, id, first_with_id(plugins, id)),
        unloaded(plugins, id).len() == plugins.len() - 1,
{
    lemma_some_first_with_id(plugins, id, plugins.len() as int);
    let i = first_with_id(plugins, id);
    lemma_first_with_id(plugins, id, i);
}

/// Among the first `n` records, either none has the id or one is the first
/// that has it.
proof fn lemma_some_first_with_id<P, C>(plugins: Seq<LYServerLoadedPlugin<P, C>>, id: Seq<char>, n: int)
    requires
        0 <= n <= plugins.len(),
    ensures
        (forall|j: int| 0 <= j < n ==> plugins[j].metadata@.id != id) || exists|i: int|
            is_first_with_id(plugins, id, i),
    decreases n,
{
    if n > 0 {
        lemma_some_first_with_id(plugins, id, n - 1);
        if forall|j: int| 0 <= j < n - 1 ==> plugins[j].metadata@.id != id {
            if plugins[n - 1].metadata@.id == id {
                assert(is_first_with_id(plugins, id, n - 1));
            }
        }
    }
}

/// A plugin that is loaded under an id that no loaded plugin has, and then
/// unloaded, leaves the loaded plugins as they were: no record with the id
/// is left, and the records of the other plugins are unchanged and in their
/// old order.
pub proof fn lemma_load_then_unload<P, C>(
    plugins: Seq<LYServerLoadedPlugin<P, C>>,
    record: LYServerLoadedPlugin<P, C>,
)
    requires
        none_with_id(plugins, record.metadata@.id),
    ensures
        unloaded(plugins.push(record), record.metadata@.id) == plugins,
        none_with_id(unloaded(plugins.push(record), record.metadata@.id), record.metadata@.id),
{
    let loaded = plugins.push(record);
    let id = record.metadata@.id;
    assert(is_first_with_id(loaded, id, plugins.len() as int));
    lemma_first_with_id(loaded, id, plugins.len() as int);
    assert(loaded.remove(plugins.len() as int) =~= plugins);
}

/// Orderly shutdown empties the registry: where every loaded plugin is
/// unloaded once, in whatever order, no record is left.
pub proof fn lemma_unloading_every_plugin_leaves_none<P, C>(
    plugins: Seq<LYServerLoadedPlugin<P, C>>,
    ids: Ids,
)
    requires
        ids.len() == plugins.len(),
        each_is_loaded(plugins, ids),
    ensures
        unloaded_all(plugins, ids).len() == 0,
    decreases ids.len(),
{
    if ids.len() > 0 {
        lemma_unloaded_takes_one(plugins, ids[0]);
        lemma_unloading_every_plugin_leaves_none(unloaded(plugins, ids[0]), ids.drop_first());
    }
}

/// The unloading of the loaded plugins in load order finds each of them.
pub proof fn lemma_load_order_finds_each<P, C>(plugins: Seq<LYServerLoadedPlugin<P, C>>)
    ensures
        each_is_loaded(plugins, loaded_ids(plugins)),
    decreases plugins.len(),
{
    let ids = loaded_ids(plugins);
    if plugins.len() > 0 {
        assert(is_first_with_id(plugins, ids[0], 0));
        lemma_first_with_id(plugins, ids[0], 0);
        let rest = plugins.remove(0);
        assert(loaded_ids(rest) =~= ids.drop_first());
        lemma_load_order_finds_each(rest);
    }
}

/// Whether the two tables of the registry go together: no two loaded
/// plugins have one id, and the id of every loaded plugin has a subscriber.
/// The id is then the key of both tables.
pub open spec fn tied<P, C>(plugins: Seq<LYServerLoadedPlugin<P, C>>, ids: Ids) -> bool {
    &&& forall|i: int, j: int|
        0 <= i < plugins.len() && 0 <= j < plugins.len() && i != j ==> (#[trigger] plugins[i]).metadata@.id
            != (#[trigger] plugins[j]).metadata@.id
    &&& forall|i: int| 0 <= i < plugins.len() ==> ids.contains((#[trigger] plugins[i]).metadata@.id)
}

/// Where the tables go together, an id without a subscriber is the id of no
/// loaded plugin.
pub proof fn lemma_unregistered_id_is_not_loaded<P, C>(
    plugins: Seq<LYServerLoadedPlugin<P, C>>,
    ids: Ids,
    id: Seq<char>,
)
    requires
        tied(plugins, ids),
        !ids.contains(id),
    ensures
        none_with_id(plugins, id),
{
    assert forall|j: int| 0 <= j < plugins.len() implies plugins[j].metadata@.id != id by {
        assert(ids.contains(plugins[j].metadata@.id));
    }
}

/// A registration keeps the tables together.
pub proof fn lemma_tied_after_register<P, C>(
    plugins: Seq<LYServerLoadedPlugin<P, C>>,
    ids: Ids,
    id: Seq<char>,
)
    requires
        tied(plugins, ids),
    ensures
        tied(plugins, registered(ids, id)),
{
    let after = registered(ids, id);
    assert forall|i: int| 0 <= i < plugins.len() implies after.contains(
        (#[trigger] plugins[i]).metadata@.id,
    ) by {
        let wanted = plugins[i].metadata@.id;
        assert(ids.contains(wanted));
        let k = choose|k: int| 0 <= k < ids.len() && ids[k] == wanted;
        assert(after[k] == wanted);
    }
}

/// The recording of a plugin whose id has a subscriber and is not loaded
/// keeps the tables together.
pub proof fn lemma_tied_after_record<P, C>(
    plugins: Seq<LYServerLoadedPlugin<P, C>>,
    ids: Ids,
    record: LYServerLoadedPlugin<P, C>,
)
    requires
        tied(plugins, ids),
        ids.contains(record.metadata@.id),
        none_with_id(plugins, record.metadata@.id),
    ensures
        tied(plugins.push(record), ids),
{
    let after = plugins.push(record);
    assert forall|i: int, j: int| 0 <= i < after.len() && 0 <= j < after.len() && i != j implies (
    #[trigger] after[i]).metadata@.id != (#[trigger] after[j]).metadata@.id by {
        if i < plugins.len() && j < plugins.len() {
            assert(after[i] == plugins[i] && after[j] == plugins[j]);
        } else if i < plugins.len() {
            assert(after[i] == plugins[i]);
        } else {
            assert(after[j] == plugins[j]);
        }
    }
    assert forall|i: int| 0 <= i < after.len() implies ids.contains(
        (#[trigger] after[i]).metadata@.id,
    ) by {
        if i < plugins.len() {
            assert(after[i] == plugins[i]);
        }
    }
}

/// An unloading keeps the tables together.
pub proof fn lemma_tied_after_unload<P, C>(
    plugins: Seq<LYServerLoadedPlugin<P, C>>,
    ids: Ids,
    id: Seq<char>,
)
    requires
        tied(plugins, ids),
        ids.no_duplicates(),
    ensures
        tied(unloaded(plugins, id), unregistered(ids, id)),
        none_with_id(unloaded(plugins, id), id),
{
    lemma_unregistered_keeps_distinct(ids, id);
    let after = unloaded(plugins, id);
    let left = unregistered(ids, id);
    if none_with_id(plugins, id) {
        assert forall|i: int| 0 <= i < after.len() implies left.contains(
            (#[trigger] after[i]).metadata@.id,
        ) by {
            assert(ids.contains(plugins[i].metadata@.id));
        }
    } else {
        lemma_unloaded_takes_one(plugins, id);
        let p = first_with_id(plugins, id);
        assert forall|i: int| 0 <= i < after.len() implies after[i] == plugins[if i < p {
            i
        } else {
            i + 1
        }] by {}
        assert forall|i: int| 0 <= i < after.len() implies (#[trigger] after[i]).metadata@.id != id
            && left.contains(after[i].metadata@.id) by {
            let k = if i < p {
                i
            } else {
                i + 1
            };
            assert(after[i] == plugins[k]);
            assert(plugins[k].metadata@.id != plugins[p].metadata@.id);
            assert(ids.contains(plugins[k].metadata@.id));
        }
        assert forall|i: int, j: int| 0 <= i < after.len() && 0 <= j < after.len() && i != j implies (
        #[trigger] after[i]).metadata@.id != (#[trigger] after[j]).metadata@.id by {
            let ki = if i < p {
                i
            } else {
                i + 1
            };
            let kj = if j < p {
                j
            } else {
                j + 1
            };
            assert(after[i] == plugins[ki] && after[j] == plugins[kj]);
        }
    }
}

/// A plugin that is loaded under an id that had no subscriber, and is then
/// unloaded, leaves the registry as it was: where the tables went together,
/// the loaded plugins and the ids are what they were before the id was
/// registered, no record has the id, and the tables still go together.
pub proof fn lemma_load_then_unload_leaves_no_trace<P, C>(
    plugins: Seq<LYServerLoadedPlugin<P, C>>,
    ids: Ids,
    record: LYServerLoadedPlugin<P, C>,
)
    requires
        tied(plugins, ids),
        ids.no_duplicates(),
        !ids.contains(record.metadata@.id),
    ensures
        none_with_id(plugins, record.metadata@.id),
        tied(plugins.push(record), registered(ids, record.metadata@.id)),
        unloaded(plugins.push(record), record.metadata@.id) == plugins,
        unregistered(registered(ids, record.metadata@.id), record.metadata@.id) == ids,
{
    let id = record.metadata@.id;
    lemma_unregistered_id_is_not_loaded(plugins, ids, id);
    lemma_tied_after_register(plugins, ids, id);
    lemma_registered_keeps_distinct(ids, id);
    lemma_tied_after_record(plugins, registered(ids, id), record);
    lemma_load_then_unload(plugins, record);
    let grown = ids.push(id);
    assert(grown[ids.len() as int] == id);
    let at = grown.index_of(id);
    assert(at == ids.len()) by {
        if at < ids.len() {
            assert(ids[at] == id);
        }
    }
    assert(grown.remove(ids.len() as int) =~= ids);
}

impl<P, C, S> LYServerSharedData<P, C, S> {
    /// Whether the two tables go together.
    pub open spec fn is_tied(&self) -> bool {
        tied(self.loaded_plugins@, self.messaging_plugin_tx.ids())
    }

    /// The state at boot: nothing loaded, nothing registered, no shutdown
    /// asked for.
    pub fn new(bind_address: String, data_dir: String, version: String, start_ts: u64, pid: u32) -> (r:
        Self)
        ensures
            r.bind_address@ == bind_address@,
            r.data_dir@ == data_dir@,
            r.version@ == version@,
            r.start_ts == start_ts,
            r.pid == pid,
            !r.shutdown_flag,
            r.loaded_plugins@.len() == 0,
            r.messaging_plugin_tx.ids() == Ids::empty(),
            r.messaging_plugin_tx.senders() == Seq::<S>::empty(),
            r.is_tied(),
    {
        LYServerSharedData {
            bind_address,
            data_dir,
            version,
            start_ts,
            shutdown_flag: false,
            loaded_plugins: Vec::new(),
            messaging_plugin_tx: LYServerSubscriberTable::new(),
            pid,
        }
    }

    /// The place of the first loaded plugin with the id.
    pub fn find_plugin(&self, id: &str) -> (r: Option<usize>)
        ensures
            match r {
                Some(i) => is_first_with_id(self.loaded_plugins@, id@, i as int),
                None => none_with_id(self.loaded_plugins@, id@),
            },
    {
        let n: usize = self.loaded_plugins.len();
        let mut i: usize = 0;
        while i < n
            invariant
                n == self.loaded_plugins@.len(),
                i <= n,
                forall|j: int| 0 <= j < i ==> self.loaded_plugins@[j].metadata@.id != id@,
            decreases n - i,
        {
            if text_eq(self.loaded_plugins[i].metadata.id.as_str(), id) {
                return Some(i);
            }
            i = i + 1;
        }
        None
    }

    /// The instance of the first loaded plugin with the id.
    pub fn get_plugin_by_id(&self, id: &str) -> (r: Option<&P>)
        ensures
            match r {
                Some(instance) => exists|i: int|
                    is_first_with_id(self.loaded_plugins@, id@, i) && *instance
                        == self.loaded_plugins@[i].instance,
                None => none_with_id(self.loaded_plugins@, id@),
            },
    {
        match self.find_plugin(id) {
            Some(i) => Some(&self.loaded_plugins[i].instance),
            None => None,
        }
    }

    /// The metadata of the first loaded plugin with the id.
    pub fn get_plugin_metadata_by_id(&self, id: &str) -> (r: Option<LYServerPluginMetadata>)
        ensures
            match r {
                Some(metadata) => exists|i: int|
                    is_first_with_id(self.loaded_plugins@, id@, i) && metadata@
                        == self.loaded_plugins@[i].metadata@,
                None => none_with_id(self.loaded_plugins@, id@),
            },
    {
        match self.find_plugin(id) {
            Some(i) => Some(self.loaded_plugins[i].metadata.clone()),
            None => None,
        }
    }

    /// Registers a plugin's subscriber under the plugin's id.
    pub fn register_plugin_messaging(&mut self, plugin_id: String, tx: S) -> (r: Result<
        (),
        LYServerRegistryError,
    >)
        ensures
            r is Err <==> old(self).messaging_plugin_tx.ids().contains(plugin_id@),
            r is Err ==> r == Err::<(), _>(LYServerRegistryError::AlreadyRegistered),
            final(self).messaging_plugin_tx.ids() == registered(
                old(self).messaging_plugin_tx.ids(),
                plugin_id@,
            ),
            r is Err ==> final(self).messaging_plugin_tx.senders() == old(
                self,
            ).messaging_plugin_tx.senders(),
            r is Ok ==> final(self).messaging_plugin_tx.senders() == old(
                self,
            ).messaging_plugin_tx.senders().push(tx),
            final(self).messaging_plugin_tx.ids().to_multiset().count(plugin_id@) == 1,
            final(self).loaded_plugins == old(self).loaded_plugins,
            final(self).shutdown_flag == old(self).shutdown_flag,
            old(self).is_tied() ==> final(self).is_tied(),
    {
        proof {
            if self.is_tied() {
                lemma_tied_after_register(
                    self.loaded_plugins@,
                    self.messaging_plugin_tx.ids(),
                    plugin_id@,
                );
            }
        }
        self.messaging_plugin_tx.register(plugin_id, tx)
    }

    /// Puts a plugin at the end of the loaded plugins, under the id that its
    /// metadata gives. The id is the key of the registry: it has to have a
    /// subscriber, and no loaded plugin may have it. A plugin that is
    /// refused is not recorded, and nothing changes.
    pub fn record_plugin(&mut self, instance: P, metadata: LYServerPluginMetadata, cancel: C) -> (r:
        Result<(), LYServerRegistryError>)
        ensures
            r == if !old(self).messaging_plugin_tx.ids().contains(metadata@.id) {
                Err::<(), LYServerRegistryError>(LYServerRegistryError::NotRegistered)
            } else if !none_with_id(old(self).loaded_plugins@, metadata@.id) {
                Err::<(), LYServerRegistryError>(LYServerRegistryError::AlreadyLoaded)
            } else {
                Ok::<(), LYServerRegistryError>(())
            },
            r is Ok ==> final(self).loaded_plugins@ == old(self).loaded_plugins@.push(
                LYServerLoadedPlugin { instance, metadata, cancel },
            ),
            r is Err ==> final(self).loaded_plugins@ == old(self).loaded_plugins@,
            final(self).messaging_plugin_tx == old(self).messaging_plugin_tx,
            final(self).shutdown_flag == old(self).shutdown_flag,
            old(self).is_tied() ==> final(self).is_tied(),
    {
        if !self.messaging_plugin_tx.contains(metadata.id.as_str()) {
            return Err(LYServerRegistryError::NotRegistered);
        }
        if self.find_plugin(metadata.id.as_str()).is_some() {
            return Err(LYServerRegistryError::AlreadyLoaded);
        }
        proof {
            if self.is_tied() {
                lemma_tied_after_record(
                    self.loaded_plugins@,
                    self.messaging_plugin_tx.ids(),
                    LYServerLoadedPlugin { instance, metadata, cancel },
                );
            }
        }
        self.loaded_plugins.push(LYServerLoadedPlugin { instance, metadata, cancel });
        Ok(())
    }

    /// Unloads the first loaded plugin with the id: its record leaves the
    /// loaded plugins and the id's subscriber leaves the table. The record is
    /// handed back.
    pub fn unload_plugin(&mut self, id: &str) -> (r: Option<LYServerLoadedPlugin<P, C>>)
        ensures
            match r {
                Some(record) => exists|i: int|
                    is_first_with_id(old(self).loaded_plugins@, id@, i) && record == old(
                        self,
                    ).loaded_plugins@[i] && final(self).loaded_plugins@ == old(
                        self,
                    ).loaded_plugins@.remove(i),
                None => none_with_id(old(self).loaded_plugins@, id@) && final(self).loaded_plugins@
                    == old(self).loaded_plugins@,
            },
            final(self).loaded_plugins@ == unloaded(old(self).loaded_plugins@, id@),
            final(self).messaging_plugin_tx.ids() == unregistered(
                old(self).messaging_plugin_tx.ids(),
                id@,
            ),
            !final(self).messaging_plugin_tx.ids().contains(id@),
            final(self).messaging_plugin_tx.senders() == if old(
                self,
            ).messaging_plugin_tx.ids().contains(id@) {
                old(self).messaging_plugin_tx.senders().remove(
                    old(self).messaging_plugin_tx.ids().index_of(id@),
                )
            } else {
                old(self).messaging_plugin_tx.senders()
            },
            final(self).shutdown_flag == old(self).shutdown_flag,
            old(self).is_tied() ==> final(self).is_tied() && none_with_id(
                final(self).loaded_plugins@,
                id@,
            ),
    {
        let _ = self.messaging_plugin_tx.unregister(id);
        proof {
            if old(self).is_tied() {
                lemma_tied_after_unload(
                    old(self).loaded_plugins@,
                    old(self).messaging_plugin_tx.ids(),
                    id@,
                );
            }
        }
        match self.find_plugin(id) {
            Some(i) => {
                proof {
                    lemma_first_with_id(self.loaded_plugins@, id@, i as int);
                }
                Some(self.loaded_plugins.remove(i))
            },
            None => None,
        }
    }

    /// The places of the subscribers that an event goes to.
    pub fn recipients(&self, event: &LYServerMessageEvent) -> (r: Vec<usize>)
        ensures
            r@.map_values(|i: usize| i as int) == recipients_among(
                self.messaging_plugin_tx.ids(),
                event@.event_target,
                self.messaging_plugin_tx.ids().len(),
            ),
            forall|k: int| 0 <= k < r@.len() ==> r@[k] < self.messaging_plugin_tx.ids().len(),
    {
        self.messaging_plugin_tx.recipients(&event.event_target)
    }

    /// The metadata of the loaded plugins, in load order.
    pub fn plugin_metadata(&self) -> (r: Vec<LYServerPluginMetadata>)
        ensures
            r@.len() == self.loaded_plugins@.len(),
            forall|i: int| 0 <= i < r@.len() ==> r@[i]@ == self.loaded_plugins@[i].metadata@,
    {
        let n: usize = self.loaded_plugins.len();
        let mut out: Vec<LYServerPluginMetadata> = Vec::new();
        let mut i: usize = 0;
        while i < n
            invariant
                n == self.loaded_plugins@.len(),
                i <= n,
                out@.len() == i,
                forall|j: int| 0 <= j < i ==> out@[j]@ == self.loaded_plugins@[j].metadata@,
            decreases n - i,
        {
            out.push(self.loaded_plugins[i].metadata.clone());
            i = i + 1;
        }
        out
    }
}

} // verus!
