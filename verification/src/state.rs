//! What the client remembers between messages.
use crate::message::{DeltaDiscoveryResponse, Resource};
use crate::resource::{KeyView, ResourceKey};
use crate::table::{Table, lemma_pairs_map_keys};
use crate::text::texts;
use vstd::prelude::*;

verus! {

/// Tells one waiting task that its resource has been handled.
pub type Waiter = tokio::sync::oneshot::Sender<()>;

/// A request for a resource on demand: the waiter and what it waits for.
pub type DemandEvent = (Waiter, ResourceKey);

/// The keys of the resources of one type with the given names.
pub open spec fn keys_of(type_url: Seq<char>, names: Seq<Seq<char>>) -> Seq<KeyView> {
    names.map_values(|name: Seq<char>| KeyView { type_url, name })
}

/// The names of a list of resources.
pub open spec fn resource_names(resources: Seq<Resource>) -> Seq<Seq<char>> {
    resources.map_values(|r: Resource| r.name@)
}

impl DeltaDiscoveryResponse {
    /// The keys of the resources that the response removes.
    pub open spec fn removed_keys(self) -> Seq<KeyView> {
        keys_of(self.type_url@, texts(self.removed_resources@))
    }

    /// The keys of the resources that the response brings.
    pub open spec fn added_keys(self) -> Seq<KeyView> {
        keys_of(self.type_url@, resource_names(self.resources@))
    }

    /// All keys of the response: those that it removes, then those that it brings.
    pub open spec fn mentioned_keys(self) -> Seq<KeyView> {
        self.removed_keys() + self.added_keys()
    }
}

/// The views of a list of requests on demand: each waiter with the key that it waits for.
pub open spec fn demand_views(events: Seq<DemandEvent>) -> Seq<(Waiter, KeyView)> {
    events.map_values(|event: DemandEvent| (event.0, event.1@))
}

/// Those who wait for a key, in the order of asking.
pub open spec fn waiting_for(pending: Map<KeyView, Seq<Waiter>>, key: KeyView) -> Seq<Waiter> {
    if pending.contains_key(key) {
        pending[key]
    } else {
        Seq::empty()
    }
}

/// Waiters, each with the one key that they wait for.
pub open spec fn keyed(waiters: Seq<Waiter>, key: KeyView) -> Seq<(Waiter, KeyView)> {
    waiters.map_values(|waiter: Waiter| (waiter, key))
}

/// All who wait for the given keys, each with the key: in the order in which the keys first
/// occur, and for one key in the order of asking.
pub open spec fn waiters_for(pending: Map<KeyView, Seq<Waiter>>, keys: Seq<KeyView>) -> Seq<
    (Waiter, KeyView),
>
    decreases keys.len(),
{
    if keys.len() == 0 {
        Seq::empty()
    } else {
        let earlier = keys.drop_last();
        if earlier.contains(keys.last()) {
            waiters_for(pending, earlier)
        } else {
            waiters_for(pending, earlier) + keyed(waiting_for(pending, keys.last()), keys.last())
        }
    }
}

/// What the client remembers.
pub struct StateView {
    /// The resources that the client knows.
    pub known: Set<KeyView>,
    /// The waiters under the key that they wait for, in the order of asking.
    pub pending: Map<KeyView, Seq<Waiter>>,
    /// The end of the demand queue from which requests are taken.
    pub demand: tokio::sync::mpsc::Receiver<DemandEvent>,
    /// The end of the demand queue into which requests are put.
    pub demand_tx: tokio::sync::mpsc::Sender<DemandEvent>,
}

impl StateView {
    /// The state after the resources with these keys are gone.
    pub open spec fn without(self, keys: Seq<KeyView>) -> StateView {
        StateView {
            known: self.known.difference(keys.to_set()),
            pending: self.pending.remove_keys(keys.to_set()),
            ..self
        }
    }

    /// The state after the resources with these keys have come.
    pub open spec fn with(self, keys: Seq<KeyView>) -> StateView {
        StateView {
            known: self.known.union(keys.to_set()),
            pending: self.pending.remove_keys(keys.to_set()),
            ..self
        }
    }

    /// The state after a response: what it removes is forgotten, what it brings is known, and
    /// nobody waits any more for what it mentions.
    pub open spec fn after_response(self, response: DeltaDiscoveryResponse) -> StateView {
        self.without(response.removed_keys()).with(response.added_keys())
    }

    /// The state after a request on demand: the resource is known, and its waiter waits behind
    /// those who asked for the resource before.
    pub open spec fn after_demand(self, key: KeyView, waiter: Waiter) -> StateView {
        StateView {
            known: self.known.insert(key),
            pending: self.pending.insert(key, waiting_for(self.pending, key).push(waiter)),
            ..self
        }
    }
}

/// The resources that nested tables hold: the first key is the type, the second the name.
spec fn known_keys(known: Map<Seq<char>, Table<String, ()>>) -> Set<KeyView> {
    Set::new(
        |k: KeyView| known.contains_key(k.type_url) && known[k.type_url]@.contains_key(k.name),
    )
}

/// The views of the lists of waiters.
spec fn waiter_lists(pending: Map<KeyView, Vec<Waiter>>) -> Map<KeyView, Seq<Waiter>> {
    pending.map_values(|waiters: Vec<Waiter>| waiters@)
}

/// What the client remembers between messages.
pub struct State {
    /// All known resources: the names under each type.
    known_resources: Table<String, Table<String, ()>>,
    /// The waiters for resources that have not come yet.
    pending: Table<ResourceKey, Vec<Waiter>>,
    demand: tokio::sync::mpsc::Receiver<DemandEvent>,
    demand_tx: tokio::sync::mpsc::Sender<DemandEvent>,
}

impl View for State {
    type V = StateView;

    closed spec fn view(&self) -> StateView {
        StateView {
            known: known_keys(self.known_resources@),
            pending: waiter_lists(self.pending@),
            demand: self.demand,
            demand_tx: self.demand_tx,
        }
    }
}

/// One more key adds those who wait for it unless the key occurred before.
proof fn lemma_waiters_push(pending: Map<KeyView, Seq<Waiter>>, keys: Seq<KeyView>, key: KeyView)
    ensures
        waiters_for(pending, keys.push(key)) == if keys.contains(key) {
            waiters_for(pending, keys)
        } else {
            waiters_for(pending, keys) + keyed(waiting_for(pending, key), key)
        },
{
    assert(keys.push(key).drop_last() =~= keys);
}

/// Taking the waiters of some keys, then those of others, takes the waiters of all of them.
proof fn lemma_waiters_concat(
    pending: Map<KeyView, Seq<Waiter>>,
    first: Seq<KeyView>,
    second: Seq<KeyView>,
)
    ensures
        waiters_for(pending, first + second) == waiters_for(pending, first) + waiters_for(
            pending.remove_keys(first.to_set()),
            second,
        ),
    decreases second.len(),
{
    if second.len() == 0 {
        assert(first + second =~= first);
    } else {
        let rest = second.drop_last();
        let key = second.last();
        lemma_waiters_concat(pending, first, rest);
        assert((first + second).drop_last() =~= first + rest);
        lemma_in_concat(first, rest, key);
        lemma_in_set(first, key);
        assert(waiters_for(pending, first + second) =~= waiters_for(pending, first) + waiters_for(
            pending.remove_keys(first.to_set()),
            second,
        ));
    }
}

/// The set of a list holds what the list holds.
proof fn lemma_in_set(keys: Seq<KeyView>, key: KeyView)
    ensures
        keys.to_set().contains(key) <==> keys.contains(key),
{
}

/// Two lists in a row hold what the one or the other holds.
proof fn lemma_in_concat(first: Seq<KeyView>, second: Seq<KeyView>, key: KeyView)
    ensures
        (first + second).contains(key) <==> first.contains(key) || second.contains(key),
{
    if first.contains(key) {
        let i = choose|i: int| 0 <= i < first.len() && first[i] == key;
        assert((first + second)[i] == key);
    }
    if second.contains(key) {
        let i = choose|i: int| 0 <= i < second.len() && second[i] == key;
        assert((first + second)[first.len() + i] == key);
    }
}

/// The set of a list grows by the item that is put at its end.
proof fn lemma_to_set_push(keys: Seq<KeyView>, key: KeyView)
    ensures
        keys.push(key).to_set() == keys.to_set().insert(key),
{
    assert forall|k: KeyView| #[trigger]
        keys.push(key).to_set().contains(k) <==> keys.to_set().insert(key).contains(k) by {
        if keys.contains(k) {
            let i = choose|i: int| 0 <= i < keys.len() && keys[i] == k;
            assert(keys.push(key)[i] == k);
        }
        if k == key {
            assert(keys.push(key)[keys.len() as int] == k);
        }
    }
    assert(keys.push(key).to_set() =~= keys.to_set().insert(key));
}

/// Puts waiters at the end of a list, each with the key that it waits for.
fn push_keyed(list: &mut Vec<DemandEvent>, waiters: Vec<Waiter>, key: &ResourceKey)
    ensures
        demand_views(final(list)@) == demand_views(old(list)@) + keyed(waiters@, key@),
{
    let ghost all = waiters@;
    for waiter in iter: waiters
        invariant
            iter.seq() == all,
            demand_views(list@) =~= demand_views(old(list)@) + keyed(
                all.take(iter.index() as int),
                key@,
            ),
    {
        let ghost before = list@;
        list.push((waiter, key.clone()));
        assert(demand_views(list@) =~= demand_views(before).push((waiter, key@)));
    }
    assert(all.take(all.len() as int) =~= all);
}

impl State {
    /// Makes a state that knows nothing, with the two ends of a demand queue.
    pub fn new(
        demand_tx: tokio::sync::mpsc::Sender<DemandEvent>,
        demand: tokio::sync::mpsc::Receiver<DemandEvent>,
    ) -> (state: Self)
        ensures
            state@ == (StateView {
                known: Set::empty(),
                pending: Map::empty(),
                demand,
                demand_tx,
            }),
    {
        let state = State {
            known_resources: Table::new(),
            pending: Table::new(),
            demand,
            demand_tx,
        };
        assert(state@.known =~= Set::empty());
        assert(state@.pending =~= Map::empty());
        state
    }

    /// Takes those who wait for a resource out of the state, to be notified.
    pub fn notify_on_demand(&mut self, key: &ResourceKey) -> (waiters: Vec<Waiter>)
        ensures
            final(self)@ == (StateView { pending: old(self)@.pending.remove(key@), ..old(self)@ }),
            waiters@ == waiting_for(old(self)@.pending, key@),
    {
        let taken = self.pending.remove(key);
        assert(self@.pending =~= old(self)@.pending.remove(key@));
        match taken {
            Some(waiters) => waiters,
            None => Vec::new(),
        }
    }

    /// Notes that a resource is known.
    pub fn add_resource(&mut self, type_url: String, name: String)
        ensures
            final(self)@ == (StateView {
                known: old(self)@.known.insert(KeyView { type_url: type_url@, name: name@ }),
                ..old(self)@
            }),
    {
        let ghost key = KeyView { type_url: type_url@, name: name@ };
        let mut names = match self.known_resources.remove(&type_url) {
            Some(names) => names,
            None => Table::new(),
        };
        names.insert(name, ());
        self.known_resources.insert(type_url, names);
        assert(self@.known =~= old(self)@.known.insert(key));
    }

    /// Notes that a resource is no longer known.
    fn remove_resource(&mut self, key: &ResourceKey)
        ensures
            final(self)@ == (StateView { known: old(self)@.known.remove(key@), ..old(self)@ }),
    {
        match self.known_resources.remove(&key.type_url) {
            Some(names) => {
                let mut names = names;
                names.remove(&key.name);
                self.known_resources.insert(key.type_url.clone(), names);
            },
            None => {},
        }
        assert(self@.known =~= old(self)@.known.remove(key@));
    }

    /// Forgets the resources that a response removes. Returns their names and the waiters for
    /// them.
    pub fn handle_removes(&mut self, response: &DeltaDiscoveryResponse) -> (removed: (
        Vec<String>,
        Vec<DemandEvent>,
    ))
        ensures
            final(self)@ == old(self)@.without(response.removed_keys()),
            removed.0@ == response.removed_resources@,
            demand_views(removed.1@) == waiters_for(old(self)@.pending, response.removed_keys()),
            forall|i: int|
                0 <= i < response.removed_resources@.len() ==> !final(self)@.known.contains(
                    KeyView {
                        type_url: response.type_url@,
                        name: (#[trigger] response.removed_resources@[i])@,
                    },
                ),
    {
        let ghost keys = response.removed_keys();
        let mut names: Vec<String> = Vec::new();
        let mut waiters: Vec<DemandEvent> = Vec::new();
        let mut i: usize = 0;
        proof {
            assert(keys.take(0).to_set() =~= Set::empty());
            assert(demand_views(waiters@) =~= waiters_for(self@.pending, keys.take(0)));
            assert(self@.known =~= old(self)@.without(keys.take(0)).known);
            assert(self@.pending =~= old(self)@.without(keys.take(0)).pending);
        }
        while i < response.removed_resources.len()
            invariant
                keys == response.removed_keys(),
                i <= response.removed_resources@.len(),
                self@ == old(self)@.without(keys.take(i as int)),
                names@ == response.removed_resources@.take(i as int),
                demand_views(waiters@) == waiters_for(old(self)@.pending, keys.take(i as int)),
            decreases response.removed_resources@.len() - i,
        {
            let key = ResourceKey {
                name: response.removed_resources[i].clone(),
                type_url: response.type_url.clone(),
            };
            proof {
                assert(keys[i as int] == key@);
                assert(keys.take(i + 1) =~= keys.take(i as int).push(key@));
                lemma_to_set_push(keys.take(i as int), key@);
                lemma_waiters_push(old(self)@.pending, keys.take(i as int), key@);
                assert(keys.take(i as int).to_set().contains(key@) <==> keys.take(
                    i as int,
                ).contains(key@));
            }
            self.remove_resource(&key);
            let taken = self.notify_on_demand(&key);
            push_keyed(&mut waiters, taken, &key);
            names.push(key.name);
            proof {
                assert(self@.known =~= old(self)@.without(keys.take(i + 1)).known);
                assert(self@.pending =~= old(self)@.without(keys.take(i + 1)).pending);
                assert(demand_views(waiters@) =~= waiters_for(
                    old(self)@.pending,
                    keys.take(i + 1),
                ));
                assert(names@ =~= response.removed_resources@.take(i + 1));
            }
            i = i + 1;
        }
        proof {
            assert(keys.take(i as int) =~= keys);
            assert(names@ =~= response.removed_resources@);
            assert forall|j: int|
                0 <= j < response.removed_resources@.len() implies !self@.known.contains(
                KeyView {
                    type_url: response.type_url@,
                    name: (#[trigger] response.removed_resources@[j])@,
                },
            ) by {
                law_removed_keys_are_in_place(*response, j);
                lemma_in_set(keys, keys[j]);
            }
        }
        (names, waiters)
    }

    /// Notes the resources that a response brings as known. Returns the waiters for them.
    pub fn handle_resources(&mut self, response: &DeltaDiscoveryResponse) -> (waiters:
        Vec<DemandEvent>)
        ensures
            final(self)@ == old(self)@.with(response.added_keys()),
            demand_views(waiters@) == waiters_for(old(self)@.pending, response.added_keys()),
            forall|i: int|
                0 <= i < response.resources@.len() ==> final(self)@.known.contains(
                    KeyView {
                        type_url: response.type_url@,
                        name: (#[trigger] response.resources@[i]).name@,
                    },
                ),
    {
        let ghost keys = response.added_keys();
        let mut waiters: Vec<DemandEvent> = Vec::new();
        let mut i: usize = 0;
        proof {
            assert(keys.take(0).to_set() =~= Set::empty());
            assert(demand_views(waiters@) =~= waiters_for(self@.pending, keys.take(0)));
            assert(self@.known =~= old(self)@.with(keys.take(0)).known);
            assert(self@.pending =~= old(self)@.with(keys.take(0)).pending);
        }
        while i < response.resources.len()
            invariant
                keys == response.added_keys(),
                i <= response.resources@.len(),
                self@ == old(self)@.with(keys.take(i as int)),
                demand_views(waiters@) == waiters_for(old(self)@.pending, keys.take(i as int)),
            decreases response.resources@.len() - i,
        {
            let key = ResourceKey {
                name: response.resources[i].name.clone(),
                type_url: response.type_url.clone(),
            };
            proof {
                assert(keys[i as int] == key@);
                assert(keys.take(i + 1) =~= keys.take(i as int).push(key@));
                lemma_to_set_push(keys.take(i as int), key@);
                lemma_waiters_push(old(self)@.pending, keys.take(i as int), key@);
                assert(keys.take(i as int).to_set().contains(key@) <==> keys.take(
                    i as int,
                ).contains(key@));
            }
            let taken = self.notify_on_demand(&key);
            push_keyed(&mut waiters, taken, &key);
            self.add_resource(key.type_url, key.name);
            proof {
                assert(self@.known =~= old(self)@.with(keys.take(i + 1)).known);
                assert(self@.pending =~= old(self)@.with(keys.take(i + 1)).pending);
                assert(demand_views(waiters@) =~= waiters_for(
                    old(self)@.pending,
                    keys.take(i + 1),
                ));
            }
            i = i + 1;
        }
        proof {
            assert(keys.take(i as int) =~= keys);
            assert forall|j: int| 0 <= j < response.resources@.len() implies self@.known.contains(
                KeyView {
                    type_url: response.type_url@,
                    name: (#[trigger] response.resources@[j]).name@,
                },
            ) by {
                law_added_keys_are_in_place(*response, j);
                lemma_in_set(keys, keys[j]);
            }
        }
        waiters
    }

    /// Takes note of a response. Returns the names that it removes and the waiters for
    /// everything that it mentions.
    pub fn handle_response(&mut self, response: &DeltaDiscoveryResponse) -> (noted: (
        Vec<String>,
        Vec<DemandEvent>,
    ))
        ensures
            final(self)@ == old(self)@.after_response(*response),
            noted.0@ == response.removed_resources@,
            demand_views(noted.1@) == waiters_for(old(self)@.pending, response.mentioned_keys()),
    {
        let (names, mut waiters) = self.handle_removes(response);
        let mut more = self.handle_resources(response);
        let ghost first = waiters@;
        let ghost second = more@;
        waiters.append(&mut more);
        proof {
            lemma_waiters_concat(
                old(self)@.pending,
                response.removed_keys(),
                response.added_keys(),
            );
            assert(demand_views(waiters@) =~= demand_views(first) + demand_views(second));
        }
        (names, waiters)
    }

    /// Notes a request on demand. Who already waited for the resource waits on.
    pub fn handle_demand(&mut self, key: ResourceKey, waiter: Waiter)
        ensures
            final(self)@ == old(self)@.after_demand(key@, waiter),
    {
        let ResourceKey { name, type_url } = key.clone();
        let mut waiters = match self.pending.remove(&key) {
            Some(waiters) => waiters,
            None => Vec::new(),
        };
        waiters.push(waiter);
        self.pending.insert(key, waiters);
        assert(self@.pending =~= old(self)@.after_demand(key@, waiter).pending);
        self.add_resource(type_url, name);
    }

    /// Lists the names of the known resources of one type.
    pub fn known_names(&self, type_url: &String) -> (names: Vec<String>)
        ensures
            texts(names@).no_duplicates(),
            forall|name: Seq<char>| #[trigger]
                texts(names@).contains(name) <==> self@.known.contains(
                    KeyView { type_url: type_url@, name },
                ),
    {
        let mut names: Vec<String> = Vec::new();
        match self.known_resources.get(type_url) {
            Some(table) => {
                let entries = table.entries();
                let mut i: usize = 0;
                while i < entries.len()
                    invariant
                        i <= entries@.len(),
                        names@.len() == i,
                        forall|j: int| 0 <= j < i ==> (#[trigger] names@[j])@ == entries@[j].0@,
                    decreases entries@.len() - i,
                {
                    names.push(entries[i].0.clone());
                    i = i + 1;
                }
                proof {
                    assert forall|name: Seq<char>| #[trigger]
                        texts(names@).contains(name) <==> self@.known.contains(
                        KeyView { type_url: type_url@, name },
                    ) by {
                        lemma_pairs_map_keys(entries@, name);
                        if texts(names@).contains(name) {
                            let j = choose|j: int|
                                0 <= j < names@.len() && texts(names@)[j] == name;
                            assert(entries@[j].0@ == name);
                        }
                        if exists|j: int|
                            0 <= j < entries@.len() && (#[trigger] entries@[j]).0@ == name {
                            let j = choose|j: int|
                                0 <= j < entries@.len() && (#[trigger] entries@[j]).0@ == name;
                            assert(texts(names@)[j] == name);
                        }
                    }
                }
            },
            None => {},
        }
        names
    }

    /// The end of the demand queue into which requests are put.
    pub fn demand_sender(&self) -> (sender: &tokio::sync::mpsc::Sender<DemandEvent>)
        ensures
            *sender == self@.demand_tx,
    {
        &self.demand_tx
    }

    /// The end of the demand queue from which requests are taken.
    pub fn demand_queue(&mut self) -> (queue: &mut tokio::sync::mpsc::Receiver<DemandEvent>)
        ensures
            *queue == old(self)@.demand,
            final(self)@ == (StateView { demand: *final(queue), ..old(self)@ }),
    {
        &mut self.demand
    }
}

/// After a response the client knows what the response brought, and of what it knew before all
/// that the response did not remove.
pub proof fn law_known_after_response(
    state: StateView,
    response: DeltaDiscoveryResponse,
    key: KeyView,
)
    ensures
        state.after_response(response).known.contains(key) <==> response.added_keys().contains(key)
            || state.known.contains(key) && !response.removed_keys().contains(key),
{
    lemma_in_set(response.added_keys(), key);
    lemma_in_set(response.removed_keys(), key);
}

/// A response says nothing of the resources of other types: what is known of them and who waits
/// for them stays as it was.
pub proof fn law_other_types_are_untouched(
    state: StateView,
    response: DeltaDiscoveryResponse,
    key: KeyView,
)
    requires
        key.type_url != response.type_url@,
    ensures
        state.after_response(response).known.contains(key) == state.known.contains(key),
        state.after_response(response).pending.contains_key(key) == state.pending.contains_key(key),
        state.pending.contains_key(key) ==> state.after_response(response).pending[key]
            == state.pending[key],
{
    lemma_in_set(response.added_keys(), key);
    lemma_in_set(response.removed_keys(), key);
}

/// After a response those wait on who waited for something that it does not mention, and nobody
/// else.
pub proof fn law_pending_after_response(
    state: StateView,
    response: DeltaDiscoveryResponse,
    key: KeyView,
)
    ensures
        state.after_response(response).pending.contains_key(key) <==> state.pending.contains_key(
            key,
        ) && !response.mentioned_keys().contains(key),
        state.after_response(response).pending.contains_key(key) ==> state.after_response(
            response,
        ).pending[key] == state.pending[key],
{
    lemma_in_set(response.added_keys(), key);
    lemma_in_set(response.removed_keys(), key);
    lemma_in_concat(response.removed_keys(), response.added_keys(), key);
}

/// Everybody who waits for a resource is notified by the response that mentions it, be it brought
/// or removed: exactly once, in the order of asking. Nobody is notified of a resource that is not
/// mentioned.
pub proof fn law_waiters_of_a_resource_are_notified_once(
    pending: Map<KeyView, Seq<Waiter>>,
    keys: Seq<KeyView>,
    key: KeyView,
)
    ensures
        waiters_for(pending, keys).filter(|notified: (Waiter, KeyView)| notified.1 == key)
            == if keys.contains(key) {
            keyed(waiting_for(pending, key), key)
        } else {
            Seq::empty()
        },
    decreases keys.len(),
{
    let of_key = |notified: (Waiter, KeyView)| notified.1 == key;
    if keys.len() == 0 {
        assert(waiters_for(pending, keys).filter(of_key) =~= Seq::empty());
    } else {
        let earlier = keys.drop_last();
        let last = keys.last();
        law_waiters_of_a_resource_are_notified_once(pending, earlier, key);
        lemma_contains_last(keys, key);
        if !earlier.contains(last) {
            let added = keyed(waiting_for(pending, last), last);
            Seq::filter_distributes_over_add(waiters_for(pending, earlier), added, of_key);
            lemma_filter_keyed(waiting_for(pending, last), last, key);
            assert(waiters_for(pending, keys).filter(of_key) =~= if keys.contains(key) {
                keyed(waiting_for(pending, key), key)
            } else {
                Seq::empty()
            });
        }
    }
}

/// A list holds its last item and what comes before it.
proof fn lemma_contains_last(keys: Seq<KeyView>, key: KeyView)
    requires
        keys.len() > 0,
    ensures
        keys.contains(key) <==> keys.drop_last().contains(key) || keys.last() == key,
{
    lemma_in_concat(keys.drop_last(), seq![keys.last()], key);
    assert(keys =~= keys.drop_last() + seq![keys.last()]);
    assert(seq![keys.last()].contains(key) <==> keys.last() == key) by {
        assert(seq![keys.last()][0] == keys.last());
    }
}

/// Waiters with one key are all of that key and none of another.
proof fn lemma_filter_keyed(waiters: Seq<Waiter>, own: KeyView, key: KeyView)
    ensures
        keyed(waiters, own).filter(|notified: (Waiter, KeyView)| notified.1 == key) == if own
            == key {
            keyed(waiters, own)
        } else {
            Seq::empty()
        },
    decreases waiters.len(),
{
    let of_key = |notified: (Waiter, KeyView)| notified.1 == key;
    reveal(Seq::filter);
    if waiters.len() > 0 {
        lemma_filter_keyed(waiters.drop_last(), own, key);
        assert(keyed(waiters, own).drop_last() =~= keyed(waiters.drop_last(), own));
        assert(keyed(waiters, own).filter(of_key) =~= if own == key {
            keyed(waiters, own)
        } else {
            Seq::empty()
        });
    } else {
        assert(keyed(waiters, own).filter(of_key) =~= Seq::empty());
        assert(keyed(waiters, own) =~= Seq::empty());
    }
}

/// Who waits for a resource is notified by the response that mentions it.
pub proof fn law_mentioned_waiter_is_notified(
    pending: Map<KeyView, Seq<Waiter>>,
    keys: Seq<KeyView>,
    key: KeyView,
    waiter: Waiter,
)
    requires
        waiting_for(pending, key).contains(waiter),
        keys.contains(key),
    ensures
        waiters_for(pending, keys).contains((waiter, key)),
    decreases keys.len(),
{
    let earlier = keys.drop_last();
    let before = waiters_for(pending, earlier);
    lemma_contains_last(keys, key);
    if earlier.contains(key) {
        law_mentioned_waiter_is_notified(pending, earlier, key, waiter);
        let j = choose|j: int| 0 <= j < before.len() && before[j] == (waiter, key);
        assert(waiters_for(pending, keys)[j] == (waiter, key));
    } else {
        let waiters = waiting_for(pending, key);
        let j = choose|j: int| 0 <= j < waiters.len() && waiters[j] == waiter;
        assert(waiters_for(pending, keys)[before.len() + j] == (waiter, key));
    }
}

/// Nobody is notified who did not wait for something that is mentioned.
pub proof fn law_only_mentioned_waiters_are_notified(
    pending: Map<KeyView, Seq<Waiter>>,
    keys: Seq<KeyView>,
    waiter: Waiter,
    key: KeyView,
)
    requires
        waiters_for(pending, keys).contains((waiter, key)),
    ensures
        keys.contains(key),
        waiting_for(pending, key).contains(waiter),
    decreases keys.len(),
{
    let now = waiters_for(pending, keys);
    let i = choose|i: int| 0 <= i < now.len() && now[i] == (waiter, key);
    let earlier = keys.drop_last();
    let before = waiters_for(pending, earlier);
    lemma_contains_last(keys, key);
    if i < before.len() {
        assert(before[i] == (waiter, key));
        law_only_mentioned_waiters_are_notified(pending, earlier, waiter, key);
    } else {
        assert(waiting_for(pending, keys.last())[i - before.len()] == waiter);
    }
}

/// Adds how many wait for a key.
pub open spec fn add_waiting(pending: Map<KeyView, Seq<Waiter>>) -> spec_fn(nat, KeyView) -> nat {
    |n: nat, key: KeyView| n + waiting_for(pending, key).len()
}

/// As many notifications are sent as wait for the mentioned resources together, so that nobody is
/// notified twice however often a response mentions a resource.
pub proof fn law_waiters_are_notified_once(pending: Map<KeyView, Seq<Waiter>>, keys: Seq<KeyView>)
    ensures
        waiters_for(pending, keys).len() == keys.to_set().fold(0nat, add_waiting(pending)),
    decreases keys.len(),
{
    let f = add_waiting(pending);
    assert(vstd::set::fold::is_fun_commutative(f));
    if keys.len() == 0 {
        assert(keys.to_set() =~= Set::empty());
        vstd::set::fold::lemma_fold_empty(0nat, f);
    } else {
        let earlier = keys.drop_last();
        let key = keys.last();
        law_waiters_are_notified_once(pending, earlier);
        assert(earlier.push(key) =~= keys);
        lemma_to_set_push(earlier, key);
        lemma_in_set(earlier, key);
        if earlier.contains(key) {
            assert(keys.to_set() =~= earlier.to_set());
        } else {
            vstd::set::fold::lemma_fold_insert(earlier.to_set(), 0nat, f, key);
        }
    }
}

/// What happens to the state.
pub enum StateEvent {
    /// A resource is asked for on demand.
    Demand { key: KeyView, waiter: Waiter },
    /// A response is handled.
    Response { response: DeltaDiscoveryResponse },
}

impl StateEvent {
    /// The event is a response that brings the resource or removes it.
    pub open spec fn mentions(self, key: KeyView) -> bool {
        match self {
            StateEvent::Demand { key: _, waiter: _ } => false,
            StateEvent::Response { response } => response.mentioned_keys().contains(key),
        }
    }
}

impl StateView {
    /// The state after one event.
    pub open spec fn after_event(self, event: StateEvent) -> StateView {
        match event {
            StateEvent::Demand { key, waiter } => self.after_demand(key, waiter),
            StateEvent::Response { response } => self.after_response(response),
        }
    }

    /// The state after a run of events.
    pub open spec fn after_events(self, events: Seq<StateEvent>) -> StateView
        decreases events.len(),
    {
        if events.len() == 0 {
            self
        } else {
            self.after_events(events.drop_last()).after_event(events.last())
        }
    }

    /// Every resource for which somebody waits is known.
    pub open spec fn awaits_only_known(self) -> bool {
        self.pending.dom().subset_of(self.known)
    }
}

/// A request on demand is answered by the first response that mentions the resource, and not
/// before. Until then its waiter waits on in its place behind those who asked before it, whatever
/// else happens, also where others ask for the same resource. By that response everybody who
/// waits for the resource is notified, and after it nobody waits for the resource.
pub proof fn law_demand_is_answered(
    state: StateView,
    key: KeyView,
    waiter: Waiter,
    between: Seq<StateEvent>,
    first: DeltaDiscoveryResponse,
)
    requires
        forall|i: int| 0 <= i < between.len() ==> !(#[trigger] between[i]).mentions(key),
        first.mentioned_keys().contains(key),
    ensures
        ({
            let waiting = state.after_demand(key, waiter).after_events(between);
            &&& waiting.pending.contains_key(key)
            &&& waiting_for(state.pending, key).push(waiter).is_prefix_of(waiting.pending[key])
            &&& waiters_for(waiting.pending, first.mentioned_keys()).contains((waiter, key))
            &&& waiters_for(waiting.pending, first.mentioned_keys()).filter(
                |notified: (Waiter, KeyView)| notified.1 == key,
            ) == keyed(waiting.pending[key], key)
            &&& !waiting.after_response(first).pending.contains_key(key)
        }),
    decreases between.len(),
{
    let asked = waiting_for(state.pending, key).push(waiter);
    let waiting = state.after_demand(key, waiter).after_events(between);
    if between.len() > 0 {
        let earlier = between.drop_last();
        assert forall|i: int| 0 <= i < earlier.len() implies !(
        #[trigger] earlier[i]).mentions(key) by {
            assert(earlier[i] == between[i]);
        }
        law_demand_is_answered(state, key, waiter, earlier, first);
        assert(!between[between.len() - 1].mentions(key));
        match between.last() {
            StateEvent::Demand { key: _, waiter: _ } => {},
            StateEvent::Response { response } => {
                law_pending_after_response(
                    state.after_demand(key, waiter).after_events(earlier),
                    response,
                    key,
                );
            },
        }
    }
    assert(asked.is_prefix_of(waiting.pending[key]));
    assert(asked[asked.len() - 1] == waiting.pending[key].subrange(0, asked.len() as int)[
    asked.len() - 1]);
    law_mentioned_waiter_is_notified(waiting.pending, first.mentioned_keys(), key, waiter);
    law_waiters_of_a_resource_are_notified_once(waiting.pending, first.mentioned_keys(), key);
    law_pending_after_response(waiting, first, key);
}

/// No response before the one that mentions a resource notifies anybody who waits for it.
pub proof fn law_unrelated_responses_do_not_notify(
    pending: Map<KeyView, Seq<Waiter>>,
    response: DeltaDiscoveryResponse,
    key: KeyView,
    waiter: Waiter,
)
    requires
        !response.mentioned_keys().contains(key),
    ensures
        !waiters_for(pending, response.mentioned_keys()).contains((waiter, key)),
{
    if waiters_for(pending, response.mentioned_keys()).contains((waiter, key)) {
        law_only_mentioned_waiters_are_notified(pending, response.mentioned_keys(), waiter, key);
    }
}

/// Every resource for which somebody waits is known, whatever has happened since a state in which
/// nobody waited.
pub proof fn law_awaited_resources_are_known(state: StateView, events: Seq<StateEvent>)
    requires
        state.pending == Map::<KeyView, Seq<Waiter>>::empty(),
    ensures
        state.after_events(events).awaits_only_known(),
    decreases events.len(),
{
    if events.len() > 0 {
        let before = state.after_events(events.drop_last());
        law_awaited_resources_are_known(state, events.drop_last());
        match events.last() {
            StateEvent::Demand { key, waiter } => {},
            StateEvent::Response { response } => {
                let now = before.after_response(response);
                assert forall|key: KeyView| #[trigger]
                    now.pending.contains_key(key) implies now.known.contains(key) by {
                    law_pending_after_response(before, response, key);
                    law_known_after_response(before, response, key);
                    lemma_in_concat(response.removed_keys(), response.added_keys(), key);
                    assert(before.pending.dom().contains(key));
                }
            },
        }
    }
}

/// What a state knows after a run of events is what it was last told: a resource is known where
/// the last event that speaks of it asked for it or brought it, and not where that event removed
/// it.
pub proof fn law_known_is_what_was_last_said(
    state: StateView,
    events: Seq<StateEvent>,
    key: KeyView,
)
    ensures
        state.after_events(events).known.contains(key) == last_said(
            events,
            key,
            state.known.contains(key),
        ),
    decreases events.len(),
{
    if events.len() > 0 {
        law_known_is_what_was_last_said(state, events.drop_last(), key);
        match events.last() {
            StateEvent::Demand { key: _, waiter: _ } => {},
            StateEvent::Response { response } => {
                law_known_after_response(
                    state.after_events(events.drop_last()),
                    response,
                    key,
                );
            },
        }
    }
}

/// Whether the last of the events that speak of a resource asked for it or brought it. Where none
/// speaks of it, `before` counts.
pub open spec fn last_said(events: Seq<StateEvent>, key: KeyView, before: bool) -> bool
    decreases events.len(),
{
    if events.len() == 0 {
        before
    } else {
        let earlier = last_said(events.drop_last(), key, before);
        match events.last() {
            StateEvent::Demand { key: asked, waiter: _ } => asked == key || earlier,
            StateEvent::Response { response } => if response.added_keys().contains(key) {
                true
            } else if response.removed_keys().contains(key) {
                false
            } else {
                earlier
            },
        }
    }
}

/// A response brings one key for each of its resources, in their order: the type of the response
/// with the name of the resource.
pub proof fn law_added_keys_are_in_place(response: DeltaDiscoveryResponse, i: int)
    ensures
        response.added_keys().len() == response.resources@.len(),
        0 <= i < response.resources@.len() ==> response.added_keys()[i].type_url
            == response.type_url@ && response.added_keys()[i].name == response.resources@[i].name@,
{
}

/// A response removes one key for each of its removed names, in their order: the type of the
/// response with the name.
pub proof fn law_removed_keys_are_in_place(response: DeltaDiscoveryResponse, i: int)
    ensures
        response.removed_keys().len() == response.removed_resources@.len(),
        0 <= i < response.removed_resources@.len() ==> response.removed_keys()[i].type_url
            == response.type_url@ && response.removed_keys()[i].name
            == response.removed_resources@[i]@,
{
}

/// A response mentions what it removes, and after that what it brings: every resource of it and
/// every removed name, under its own type, and nothing else.
pub proof fn law_response_mentions_all_of_its_resources(
    response: DeltaDiscoveryResponse,
    key: KeyView,
)
    ensures
        response.added_keys().contains(key) <==> key.type_url == response.type_url@ && exists|i: int|
            0 <= i < response.resources@.len() && (#[trigger] response.resources@[i]).name@
                == key.name,
        response.removed_keys().contains(key) <==> key.type_url == response.type_url@
            && exists|i: int|
            0 <= i < response.removed_resources@.len() && (
            #[trigger] response.removed_resources@[i])@ == key.name,
        response.mentioned_keys() == response.removed_keys() + response.added_keys(),
        response.mentioned_keys().contains(key) <==> response.removed_keys().contains(key)
            || response.added_keys().contains(key),
{
    lemma_in_concat(response.removed_keys(), response.added_keys(), key);
    let added = response.added_keys();
    let removed = response.removed_keys();
    if added.contains(key) {
        let i = choose|i: int| 0 <= i < added.len() && added[i] == key;
        assert(response.resources@[i].name@ == key.name);
    }
    if key.type_url == response.type_url@ && exists|i: int|
        0 <= i < response.resources@.len() && (#[trigger] response.resources@[i]).name@
            == key.name {
        let i = choose|i: int|
            0 <= i < response.resources@.len() && (#[trigger] response.resources@[i]).name@
                == key.name;
        assert(added[i] == key);
    }
    if removed.contains(key) {
        let i = choose|i: int| 0 <= i < removed.len() && removed[i] == key;
        assert(response.removed_resources@[i]@ == key.name);
    }
    if key.type_url == response.type_url@ && exists|i: int|
        0 <= i < response.removed_resources@.len() && (#[trigger] response.removed_resources@[i])@
            == key.name {
        let i = choose|i: int|
            0 <= i < response.removed_resources@.len() && (
            #[trigger] response.removed_resources@[i])@ == key.name;
        assert(removed[i] == key);
    }
}

/// After a response a resource is known exactly where the response brings it, or where it was
/// known and the response does not remove it.
pub proof fn law_response_decides_what_is_known(
    state: StateView,
    response: DeltaDiscoveryResponse,
    name: Seq<char>,
    type_url: Seq<char>,
)
    ensures
        state.after_response(response).known.contains(KeyView { type_url, name }) <==> ({
            ||| type_url == response.type_url@ && exists|i: int|
                0 <= i < response.resources@.len() && (#[trigger] response.resources@[i]).name@
                    == name
            ||| state.known.contains(KeyView { type_url, name }) && !(type_url
                == response.type_url@ && exists|i: int|
                0 <= i < response.removed_resources@.len() && (
                #[trigger] response.removed_resources@[i])@ == name)
        }),
        state.after_response(response).demand == state.demand,
        state.after_response(response).demand_tx == state.demand_tx,
{
    let key = KeyView { type_url, name };
    law_response_mentions_all_of_its_resources(response, key);
    law_known_after_response(state, response, key);
}

/// After a response nobody waits for any of its resources or removed names, and everybody waits on
/// who waits for something else.
pub proof fn law_response_decides_who_waits(
    state: StateView,
    response: DeltaDiscoveryResponse,
    name: Seq<char>,
    type_url: Seq<char>,
)
    ensures
        ({
            let key = KeyView { type_url, name };
            let after = state.after_response(response);
            let mentioned = type_url == response.type_url@ && ((exists|i: int|
                0 <= i < response.resources@.len() && (#[trigger] response.resources@[i]).name@
                    == name) || (exists|i: int|
                0 <= i < response.removed_resources@.len() && (
                #[trigger] response.removed_resources@[i])@ == name));
            &&& after.pending.contains_key(key) <==> state.pending.contains_key(key) && !mentioned
            &&& after.pending.contains_key(key) ==> after.pending[key] == state.pending[key]
        }),
{
    let key = KeyView { type_url, name };
    law_response_mentions_all_of_its_resources(response, key);
    law_pending_after_response(state, response, key);
}

/// Everybody who waits for the `i`-th resource of a response is among those to notify, and so is
/// everybody who waits for its `i`-th removed name.
pub proof fn law_waiters_of_every_resource_are_notified(
    pending: Map<KeyView, Seq<Waiter>>,
    response: DeltaDiscoveryResponse,
    key: KeyView,
    i: int,
    j: int,
)
    requires
        key.type_url == response.type_url@,
        0 <= i < response.resources@.len() && response.resources@[i].name@ == key.name || 0 <= i
            < response.removed_resources@.len() && response.removed_resources@[i]@ == key.name,
        pending.contains_key(key),
        0 <= j < pending[key].len(),
    ensures
        waiters_for(pending, response.mentioned_keys()).contains((pending[key][j], key)),
{
    law_response_mentions_all_of_its_resources(response, key);
    law_mentioned_waiter_is_notified(pending, response.mentioned_keys(), key, pending[key][j]);
}

/// Whoever is to be notified waits for one of the resources or removed names of the response.
pub proof fn law_only_waiters_of_the_response_are_notified(
    pending: Map<KeyView, Seq<Waiter>>,
    response: DeltaDiscoveryResponse,
    waiter: Waiter,
    key: KeyView,
)
    requires
        waiters_for(pending, response.mentioned_keys()).contains((waiter, key)),
    ensures
        pending.contains_key(key),
        pending[key].contains(waiter),
        key.type_url == response.type_url@,
        (exists|i: int|
            0 <= i < response.resources@.len() && (#[trigger] response.resources@[i]).name@
                == key.name) || (exists|i: int|
            0 <= i < response.removed_resources@.len() && (
            #[trigger] response.removed_resources@[i])@ == key.name),
{
    law_only_mentioned_waiters_are_notified(pending, response.mentioned_keys(), waiter, key);
    law_response_mentions_all_of_its_resources(response, key);
    if !pending.contains_key(key) {
        assert(waiting_for(pending, key).len() == 0);
    }
}

/// Those who wait for one key come in the order of asking, each once and each with the key.
pub proof fn law_waiters_of_one_key_keep_their_order(
    pending: Map<KeyView, Seq<Waiter>>,
    key: KeyView,
    i: int,
)
    ensures
        pending.contains_key(key) ==> waiters_for(pending, seq![key]).len() == pending[key].len(),
        pending.contains_key(key) && 0 <= i < pending[key].len() ==> waiters_for(
            pending,
            seq![key],
        )[i] == (pending[key][i], key),
        !pending.contains_key(key) ==> waiters_for(pending, seq![key]).len() == 0,
        waiters_for(pending, Seq::empty()).len() == 0,
{
    reveal_with_fuel(waiters_for, 2);
    assert(seq![key].drop_last() =~= Seq::empty());
    assert(seq![key].last() == key);
    assert(waiters_for(pending, seq![key]) =~= keyed(waiting_for(pending, key), key));
}

/// Those who wait for what is mentioned first come first, and nobody comes again later.
pub proof fn law_waiters_come_in_the_order_of_the_keys(
    pending: Map<KeyView, Seq<Waiter>>,
    first: Seq<KeyView>,
    second: Seq<KeyView>,
)
    ensures
        waiters_for(pending, first + second) == waiters_for(pending, first) + waiters_for(
            pending.remove_keys(first.to_set()),
            second,
        ),
{
    lemma_waiters_concat(pending, first, second);
}

/// What is known of waiters with their keys is what they are and what they wait for.
pub proof fn law_demand_views_keep_their_places(events: Seq<DemandEvent>, i: int)
    ensures
        demand_views(events).len() == events.len(),
        0 <= i < events.len() ==> demand_views(events)[i].0 == events[i].0 && demand_views(
            events,
        )[i].1.type_url == events[i].1.type_url@ && demand_views(events)[i].1.name
            == events[i].1.name@,
{
}

/// A request on demand makes its resource known and puts its waiter behind those who asked for the
/// resource before. Nothing else changes.
pub proof fn law_demand_adds_one_waiter(
    state: StateView,
    key: KeyView,
    waiter: Waiter,
    other: KeyView,
)
    ensures
        ({
            let after = state.after_demand(key, waiter);
            &&& after.known.contains(other) <==> other == key || state.known.contains(other)
            &&& after.pending.contains_key(other) <==> other == key || state.pending.contains_key(
                other,
            )
            &&& after.pending[key].len() > 0
            &&& after.pending[key].last() == waiter
            &&& state.pending.contains_key(key) ==> after.pending[key].drop_last()
                == state.pending[key]
            &&& !state.pending.contains_key(key) ==> after.pending[key].len() == 1
            &&& other != key && state.pending.contains_key(other) ==> after.pending[other]
                == state.pending[other]
            &&& after.demand == state.demand
            &&& after.demand_tx == state.demand_tx
        }),
{
    assert(waiting_for(state.pending, key).push(waiter).drop_last() =~= waiting_for(
        state.pending,
        key,
    ));
}

/// A run of events leads from each state to the next by the next event.
pub proof fn law_events_follow_each_other(
    state: StateView,
    events: Seq<StateEvent>,
    key: KeyView,
    waiter: Waiter,
    response: DeltaDiscoveryResponse,
)
    ensures
        state.after_events(Seq::empty()) == state,
        state.after_events(events.push(StateEvent::Demand { key, waiter })) == state.after_events(
            events,
        ).after_demand(key, waiter),
        state.after_events(events.push(StateEvent::Response { response })) == state.after_events(
            events,
        ).after_response(response),
{
    assert(events.push(StateEvent::Demand { key, waiter }).drop_last() =~= events);
    assert(events.push(StateEvent::Response { response }).drop_last() =~= events);
}

/// Removing resources forgets them and nothing else, and nobody waits for them any more.
pub proof fn law_removal_forgets_only_what_it_names(
    state: StateView,
    keys: Seq<KeyView>,
    key: KeyView,
)
    ensures
        ({
            let after = state.without(keys);
            &&& after.known.contains(key) <==> state.known.contains(key) && !keys.contains(key)
            &&& after.pending.contains_key(key) <==> state.pending.contains_key(key)
                && !keys.contains(key)
            &&& after.pending.contains_key(key) ==> after.pending[key] == state.pending[key]
            &&& after.demand == state.demand
            &&& after.demand_tx == state.demand_tx
        }),
{
    lemma_in_set(keys, key);
}

/// What comes is known besides what was known, and nobody waits for it any more.
pub proof fn law_arrival_adds_only_what_it_names(
    state: StateView,
    keys: Seq<KeyView>,
    key: KeyView,
)
    ensures
        ({
            let after = state.with(keys);
            &&& after.known.contains(key) <==> state.known.contains(key) || keys.contains(key)
            &&& after.pending.contains_key(key) <==> state.pending.contains_key(key)
                && !keys.contains(key)
            &&& after.pending.contains_key(key) ==> after.pending[key] == state.pending[key]
            &&& after.demand == state.demand
            &&& after.demand_tx == state.demand_tx
        }),
{
    lemma_in_set(keys, key);
}

} // verus!
