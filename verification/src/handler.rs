//! From a response of the server to the handler of its type, and back.
use crate::message::{DeltaDiscoveryResponse, Resource};
use crate::resource::{
    AdsError,
    RejectedConfig,
    RejectionView,
    ResourceKey,
    XdsResource,
    XdsUpdate,
};
use crate::state::{DemandEvent, State, demand_views, resource_names, waiters_for};
use crate::text::texts;
use core::marker::PhantomData;
use vstd::prelude::*;

verus! {

/// What became of one update: the name of its resource, and the reason for rejecting it if it
/// was rejected.
pub struct OutcomeView {
    pub name: Seq<char>,
    pub rejection: Option<Seq<char>>,
}

/// The rejections among the outcomes, in order.
pub open spec fn rejections(outcomes: Seq<OutcomeView>) -> Seq<RejectionView>
    decreases outcomes.len(),
{
    if outcomes.len() == 0 {
        Seq::empty()
    } else {
        let earlier = rejections(outcomes.drop_last());
        match outcomes.last().rejection {
            Some(reason) => earlier.push(RejectionView { name: outcomes.last().name, reason }),
            None => earlier,
        }
    }
}

/// The views of a list of rejected configurations.
pub open spec fn rejection_views(rejects: Seq<RejectedConfig>) -> Seq<RejectionView> {
    rejects.map_values(|r: RejectedConfig| r@)
}

/// `verdict` is the answer to these outcomes: acceptance where nothing was rejected, and else
/// the list of what was.
pub open spec fn is_verdict(
    verdict: Result<(), Vec<RejectedConfig>>,
    outcomes: Seq<OutcomeView>,
) -> bool {
    match verdict {
        Ok(_) => rejections(outcomes).len() == 0,
        Err(rejects) => rejects@.len() > 0 && rejection_views(rejects@) == rejections(outcomes),
    }
}

/// The view of a name with what became of it.
pub open spec fn outcome_view(name: Seq<char>, outcome: Result<(), String>) -> OutcomeView {
    OutcomeView {
        name,
        rejection: match outcome {
            Ok(_) => None,
            Err(reason) => Some(reason@),
        },
    }
}

/// The views of a list of outcomes.
pub open spec fn outcome_views(outcomes: Seq<(String, Result<(), String>)>) -> Seq<OutcomeView> {
    outcomes.map_values(|o: (String, Result<(), String>)| outcome_view(o.0@, o.1))
}

/// Gathers the rejections among the outcomes.
pub fn collect_rejects(outcomes: Vec<(String, Result<(), String>)>) -> (verdict: Result<
    (),
    Vec<RejectedConfig>,
>)
    ensures
        is_verdict(verdict, outcome_views(outcomes@)),
{
    let ghost views = outcome_views(outcomes@);
    let mut rejects: Vec<RejectedConfig> = Vec::new();
    let mut i: usize = 0;
    assert(rejection_views(rejects@) =~= rejections(views.take(0)));
    while i < outcomes.len()
        invariant
            views == outcome_views(outcomes@),
            i <= outcomes@.len(),
            rejection_views(rejects@) == rejections(views.take(i as int)),
        decreases outcomes@.len() - i,
    {
        assert(views.take(i + 1).drop_last() =~= views.take(i as int));
        let ghost before = rejects@;
        match &outcomes[i].1 {
            Ok(_) => {},
            Err(reason) => {
                rejects.push(RejectedConfig::new(outcomes[i].0.clone(), reason.clone()));
                assert(rejection_views(rejects@) =~= rejection_views(before).push(
                    rejects@.last()@,
                ));
            },
        }
        assert(rejection_views(rejects@) =~= rejections(views.take(i + 1)));
        i = i + 1;
    }
    assert(views.take(i as int) =~= views);
    assert(rejection_views(rejects@).len() == rejects@.len());
    if rejects.is_empty() {
        Ok(())
    } else {
        Err(rejects)
    }
}

/// `outcomes` is what `handle_one` can give for the updates, one for one.
pub open spec fn outcomes_of<T, F: FnMut(XdsUpdate<T>) -> Result<(), String>>(
    updates: Seq<XdsUpdate<T>>,
    handle_one: F,
    outcomes: Seq<Result<(), String>>,
) -> bool {
    &&& outcomes.len() == updates.len()
    &&& forall|i: int|
        #![trigger outcomes[i]]
        0 <= i < updates.len() ==> call_ensures(handle_one, (updates[i],), outcomes[i])
}

/// The names of the updates with their outcomes.
pub open spec fn named_outcomes<T>(
    updates: Seq<XdsUpdate<T>>,
    outcomes: Seq<Result<(), String>>,
) -> Seq<OutcomeView> {
    Seq::new(updates.len(), |i: int| outcome_view(updates[i].subject(), outcomes[i]))
}

/// Processes the updates one by one, in order and to the last, and gathers the rejections.
pub fn handle_single_resource<T, F: FnMut(XdsUpdate<T>) -> Result<(), String>>(
    updates: Vec<XdsUpdate<T>>,
    handle_one: F,
) -> (verdict: Result<(), Vec<RejectedConfig>>)
    requires
        forall|update: XdsUpdate<T>| call_requires(handle_one, (update,)),
    ensures
        exists|outcomes: Seq<Result<(), String>>| #[trigger]
            outcomes_of(updates@, handle_one, outcomes) && is_verdict(
                verdict,
                named_outcomes(updates@, outcomes),
            ),
{
    let mut handle_one = handle_one;
    let ghost f = handle_one;
    let ghost all = updates@;
    let ghost mut seen: Seq<Result<(), String>> = Seq::empty();
    let mut outcomes: Vec<(String, Result<(), String>)> = Vec::new();
    for update in iter: updates
        invariant
            iter.seq() == all,
            handle_one == f,
            forall|update: XdsUpdate<T>| call_requires(f, (update,)),
            seen.len() == iter.index(),
            outcomes@.len() == iter.index(),
            forall|i: int|
                #![trigger seen[i]]
                0 <= i < iter.index() ==> call_ensures(f, (all[i],), seen[i]),
            forall|i: int|
                #![trigger outcomes@[i]]
                0 <= i < iter.index() ==> outcomes@[i].0@ == all[i].subject() && outcomes@[i].1
                    == seen[i],
    {
        let name = update.name();
        let outcome = handle_one(update);
        proof {
            seen = seen.push(outcome);
        }
        outcomes.push((name, outcome));
    }
    assert(outcomes_of(all, f, seen));
    assert(outcome_views(outcomes@) =~= named_outcomes(all, seen));
    collect_rejects(outcomes)
}

/// Handles the updates of one type of resources. A handler keeps what it wants of them and may
/// reject some.
pub trait Handler<T>: Send + Sync + 'static {
    fn handle(&self, res: Vec<XdsUpdate<T>>) -> Result<(), Vec<RejectedConfig>>;
}

/// `decode` can give this outcome for these bytes.
pub open spec fn can_decode<T, D: Fn(&[u8]) -> Result<T, prost::DecodeError>>(
    decode: D,
    payload: Seq<u8>,
    outcome: Result<T, prost::DecodeError>,
) -> bool {
    exists|bytes: &[u8]|
        bytes@ == payload && #[trigger] call_ensures(decode, (bytes,), outcome)
}

/// `decoded` is what the resource gives when its payload goes through `decode`.
pub open spec fn is_decoding<T, D: Fn(&[u8]) -> Result<T, prost::DecodeError>>(
    resource: Resource,
    decode: D,
    decoded: Result<XdsResource<T>, AdsError>,
) -> bool {
    match resource.resource {
        None => decoded == Err::<XdsResource<T>, AdsError>(AdsError::MissingResource()),
        Some(payload) => match decoded {
            Ok(r) => r.name == resource.name && can_decode(
                decode,
                payload.value@,
                Ok(r.resource),
            ),
            Err(e) => e matches AdsError::Decode(cause) && can_decode::<T, D>(
                decode,
                payload.value@,
                Err(cause),
            ),
        },
    }
}

/// Decodes the payload of a resource.
pub fn decode_proto<T, D: Fn(&[u8]) -> Result<T, prost::DecodeError>>(
    resource: &Resource,
    decode: &D,
) -> (decoded: Result<XdsResource<T>, AdsError>)
    requires
        forall|bytes: &[u8]| call_requires(*decode, (bytes,)),
    ensures
        is_decoding(*resource, *decode, decoded),
{
    match &resource.resource {
        None => Err(AdsError::MissingResource()),
        Some(payload) => {
            let bytes = payload.value.as_slice();
            let message = decode(bytes);
            assert(can_decode(*decode, payload.value@, message));
            match message {
                Ok(message) => Ok(XdsResource { name: resource.name.clone(), resource: message }),
                Err(cause) => Err(AdsError::Decode(cause)),
            }
        },
    }
}

/// `decoded` is what the resources give, one for one.
pub open spec fn all_decode<T, D: Fn(&[u8]) -> Result<T, prost::DecodeError>>(
    resources: Seq<Resource>,
    decode: D,
    decoded: Seq<XdsResource<T>>,
) -> bool {
    &&& decoded.len() == resources.len()
    &&& forall|i: int|
        #![trigger decoded[i]]
        0 <= i < decoded.len() ==> is_decoding(resources[i], decode, Ok(decoded[i]))
}

/// Some resource gives the error, and those before it decode.
pub open spec fn fails_with<T, D: Fn(&[u8]) -> Result<T, prost::DecodeError>>(
    resources: Seq<Resource>,
    decode: D,
    error: AdsError,
) -> bool {
    exists|decoded: Seq<XdsResource<T>>|
        #![trigger decoded.len()]
        decoded.len() < resources.len() && all_decode(
            resources.take(decoded.len() as int),
            decode,
            decoded,
        ) && is_decoding::<T, D>(resources[decoded.len() as int], decode, Err(error))
}

/// Decodes a list of resources up to the first that fails.
pub fn decode_all<T, D: Fn(&[u8]) -> Result<T, prost::DecodeError>>(
    resources: &Vec<Resource>,
    decode: &D,
) -> (decoded: Result<Vec<XdsResource<T>>, AdsError>)
    requires
        forall|bytes: &[u8]| call_requires(*decode, (bytes,)),
    ensures
        match decoded {
            Ok(list) => all_decode(resources@, *decode, list@),
            Err(error) => fails_with::<T, D>(resources@, *decode, error),
        },
{
    let mut list: Vec<XdsResource<T>> = Vec::new();
    let mut i: usize = 0;
    while i < resources.len()
        invariant
            i <= resources@.len(),
            list@.len() == i,
            forall|bytes: &[u8]| call_requires(*decode, (bytes,)),
            forall|j: int|
                #![trigger list@[j]]
                0 <= j < i ==> is_decoding(resources@[j], *decode, Ok(list@[j])),
        decreases resources@.len() - i,
    {
        match decode_proto(&resources[i], decode) {
            Ok(r) => {
                list.push(r);
            },
            Err(error) => {
                assert(all_decode(resources@.take(i as int), *decode, list@));
                return Err(error);
            },
        }
        i = i + 1;
    }
    Ok(list)
}

/// What a handler is given for a response: what it brings, then what it removes.
pub open spec fn updates_of<T>(
    decoded: Seq<XdsResource<T>>,
    removed: Seq<String>,
) -> Seq<XdsUpdate<T>> {
    decoded.map_values(|r: XdsResource<T>| XdsUpdate::Update(r)) + removed.map_values(
        |n: String| XdsUpdate::<T>::Remove(n),
    )
}

/// Puts the updates for a handler together.
pub fn make_updates<T>(decoded: Vec<XdsResource<T>>, removed: Vec<String>) -> (updates: Vec<
    XdsUpdate<T>,
>)
    ensures
        updates@ == updates_of(decoded@, removed@),
        updates@.len() == decoded@.len() + removed@.len(),
        forall|i: int|
            0 <= i < decoded@.len() ==> #[trigger] updates@[i] == XdsUpdate::Update(decoded@[i]),
        forall|j: int|
            decoded@.len() <= j < updates@.len() ==> #[trigger] updates@[j]
                == XdsUpdate::<T>::Remove(removed@[j - decoded@.len()]),
{
    let ghost all = updates_of(decoded@, removed@);
    let ghost brought = decoded@;
    let ghost gone = removed@;
    let mut updates: Vec<XdsUpdate<T>> = Vec::new();
    for r in iter: decoded
        invariant
            iter.seq() == brought,
            all == updates_of(brought, gone),
            updates@ =~= all.take(iter.index() as int),
    {
        updates.push(XdsUpdate::Update(r));
    }
    for n in iter: removed
        invariant
            iter.seq() == gone,
            all == updates_of(brought, gone),
            updates@ =~= all.take(brought.len() + iter.index()),
    {
        updates.push(XdsUpdate::Remove(n));
    }
    assert(all.take(all.len() as int) =~= all);
    updates
}

/// What came of a response that was handled.
pub struct Handled {
    /// The answer of the handler.
    pub verdict: Result<(), Vec<RejectedConfig>>,
    /// Whom to notify, now that the response has been handled, and of what.
    pub waiters: Vec<DemandEvent>,
}

/// Handles responses of one type, whatever the type is.
pub trait RawHandler: Send + Sync + 'static {
    /// Whether the handler can give this verdict on the response.
    spec fn may_answer(
        &self,
        response: DeltaDiscoveryResponse,
        verdict: Result<(), Vec<RejectedConfig>>,
    ) -> bool;

    /// Whether a payload of the response can fail to decode with this error.
    spec fn may_fail(&self, response: DeltaDiscoveryResponse, error: AdsError) -> bool;

    /// Takes note of a response in the state and has it handled. Where a payload does not decode
    /// nothing is done.
    fn handle(&self, state: &mut State, response: DeltaDiscoveryResponse) -> (handled: Result<
        Handled,
        AdsError,
    >)
        ensures
            match handled {
                Ok(h) => {
                    &&& self.may_answer(response, h.verdict)
                    &&& final(state)@ == old(state)@.after_response(response)
                    &&& demand_views(h.waiters@) == waiters_for(
                        old(state)@.pending,
                        response.mentioned_keys(),
                    )
                },
                Err(error) => self.may_fail(response, error) && final(state)@ == old(state)@,
            },
    ;
}

/// Makes a handler of one type of resources a handler of responses.
#[verifier::reject_recursive_types(T)]
pub struct HandlerWrapper<T, H, D: Fn(&[u8]) -> Result<T, prost::DecodeError>> {
    h: H,
    decode: D,
    resources: PhantomData<T>,
}

impl<T, H, D: Fn(&[u8]) -> Result<T, prost::DecodeError>> HandlerWrapper<T, H, D> {
    #[verifier::type_invariant]
    spec fn decodes_anything(self) -> bool {
        forall|bytes: &[u8]| call_requires(self.decode, (bytes,))
    }

    /// The handler of the resources.
    pub closed spec fn handler(self) -> H {
        self.h
    }

    /// How payloads are decoded.
    pub closed spec fn decoder(self) -> D {
        self.decode
    }

    /// Wraps a handler, with the function that decodes the payloads for it.
    pub fn new(h: H, decode: D) -> (wrapper: Self)
        requires
            forall|bytes: &[u8]| call_requires(decode, (bytes,)),
        ensures
            wrapper.handler() == h,
            wrapper.decoder() == decode,
    {
        HandlerWrapper { h, decode, resources: PhantomData }
    }
}

/// The payloads of the response decode, and the handler can give this verdict when it is handed
/// what they decode to, followed by what the response removes.
pub open spec fn answers<T, H: Handler<T>, D: Fn(&[u8]) -> Result<T, prost::DecodeError>>(
    handler: H,
    decode: D,
    response: DeltaDiscoveryResponse,
    verdict: Result<(), Vec<RejectedConfig>>,
) -> bool {
    exists|decoded: Seq<XdsResource<T>>, updates: Vec<XdsUpdate<T>>|
        #![trigger updates_of(decoded, response.removed_resources@), updates@]
        all_decode(response.resources@, decode, decoded) && updates@ == updates_of(
            decoded,
            response.removed_resources@,
        ) && call_ensures(H::handle, (&handler, updates), verdict)
}

impl<
    T: Send + Sync + 'static,
    H: Handler<T>,
    D: Fn(&[u8]) -> Result<T, prost::DecodeError> + Send + Sync + 'static,
> RawHandler for HandlerWrapper<T, H, D> {
    open spec fn may_answer(
        &self,
        response: DeltaDiscoveryResponse,
        verdict: Result<(), Vec<RejectedConfig>>,
    ) -> bool {
        answers(self.handler(), self.decoder(), response, verdict)
    }

    open spec fn may_fail(&self, response: DeltaDiscoveryResponse, error: AdsError) -> bool {
        fails_with::<T, D>(response.resources@, self.decoder(), error)
    }

    fn handle(&self, state: &mut State, response: DeltaDiscoveryResponse) -> (handled: Result<
        Handled,
        AdsError,
    >) {
        proof {
            use_type_invariant(self);
        }
        let decoded = match decode_all(&response.resources, &self.decode) {
            Ok(list) => list,
            Err(error) => {
                return Err(error);
            },
        };
        let (removed, waiters) = state.handle_response(&response);
        let ghost brought = decoded@;
        let updates = make_updates(decoded, removed);
        assert(updates@ == updates_of(brought, response.removed_resources@));
        let verdict = self.h.handle(updates);
        Ok(Handled { verdict, waiters })
    }
}

/// A handler of responses in a box, so that handlers of several types of resources can stand in
/// one table.
pub struct Boxed<X: ?Sized> {
    inner: Box<X>,
}

/// A handler of responses whose type is not known.
pub type BoxedHandler = Boxed<dyn RawHandler>;

impl<X: RawHandler + ?Sized> Boxed<X> {
    /// Holds a handler of responses.
    fn hold(inner: Box<X>) -> (boxed: Self)
        ensures
            forall|response: DeltaDiscoveryResponse, verdict: Result<(), Vec<RejectedConfig>>|
                #[trigger] boxed.may_answer(response, verdict) == inner.may_answer(
                    response,
                    verdict,
                ),
            forall|response: DeltaDiscoveryResponse, error: AdsError| #[trigger]
                boxed.may_fail(response, error) == inner.may_fail(response, error),
    {
        Boxed { inner }
    }
}

impl<X: RawHandler + ?Sized> RawHandler for Boxed<X> {
    closed spec fn may_answer(
        &self,
        response: DeltaDiscoveryResponse,
        verdict: Result<(), Vec<RejectedConfig>>,
    ) -> bool {
        self.inner.may_answer(response, verdict)
    }

    closed spec fn may_fail(&self, response: DeltaDiscoveryResponse, error: AdsError) -> bool {
        self.inner.may_fail(response, error)
    }

    fn handle(&self, state: &mut State, response: DeltaDiscoveryResponse) -> (handled: Result<
        Handled,
        AdsError,
    >) {
        self.inner.handle(state, response)
    }
}

/// `boxed` answers and fails as the handler of resources does on what the payloads decode to.
pub open spec fn handles_for<T, H: Handler<T>, D: Fn(&[u8]) -> Result<T, prost::DecodeError>>(
    boxed: BoxedHandler,
    handler: H,
    decode: D,
) -> bool {
    &&& forall|response: DeltaDiscoveryResponse, verdict: Result<(), Vec<RejectedConfig>>|
        #[trigger] boxed.may_answer(response, verdict) == answers(
            handler,
            decode,
            response,
            verdict,
        )
    &&& forall|response: DeltaDiscoveryResponse, error: AdsError| #[trigger]
        boxed.may_fail(response, error) == fails_with::<T, D>(response.resources@, decode, error)
}

impl BoxedHandler {
    /// Makes a handler of responses of a handler of one type of resources.
    pub fn new<
        T: Send + Sync + 'static,
        H: Handler<T>,
        D: Fn(&[u8]) -> Result<T, prost::DecodeError> + Send + Sync + 'static,
    >(h: H, decode: D) -> (boxed: Self)
        requires
            forall|bytes: &[u8]| call_requires(decode, (bytes,)),
        ensures
            handles_for(boxed, h, decode),
    {
        Boxed::hold(Box::new(HandlerWrapper::new(h, decode)))
    }
}

/// `sent` is what sending the notification to each waiter can give.
pub open spec fn sent_to(events: Seq<DemandEvent>, sent: Seq<Result<(), ()>>) -> bool {
    &&& sent.len() == events.len()
    &&& forall|i: int|
        #![trigger sent[i]]
        0 <= i < events.len() ==> call_ensures(
            tokio::sync::oneshot::Sender::<()>::send,
            (events[i].0, ()),
            sent[i],
        )
}

/// What each waiter waited for, and whether its notification could be sent.
pub open spec fn deliveries(events: Seq<DemandEvent>, sent: Seq<Result<(), ()>>) -> Seq<
    (ResourceKey, bool),
> {
    Seq::new(events.len(), |i: int| (events[i].1, sent[i] is Ok))
}

/// Notifies the waiters, in order. Tells of each what it waited for and whether the notification
/// could be sent.
pub fn notify_waiters(waiters: Vec<DemandEvent>) -> (delivered: Vec<(ResourceKey, bool)>)
    ensures
        exists|sent: Seq<Result<(), ()>>| #[trigger]
            sent_to(waiters@, sent) && delivered@ == deliveries(waiters@, sent),
{
    let ghost all = waiters@;
    let ghost mut sent: Seq<Result<(), ()>> = Seq::empty();
    let mut delivered: Vec<(ResourceKey, bool)> = Vec::new();
    for event in iter: waiters
        invariant
            iter.seq() == all,
            sent_to(all.take(iter.index() as int), sent),
            delivered@ =~= deliveries(all.take(iter.index() as int), sent),
    {
        let (waiter, key) = event;
        let outcome = waiter.send(());
        proof {
            sent = sent.push(outcome);
        }
        delivered.push((key, outcome.is_ok()));
    }
    assert(all.take(all.len() as int) =~= all);
    assert(sent_to(all, sent));
    delivered
}

/// Nothing is rejected exactly where no outcome is a rejection.
pub proof fn law_accepted_when_nothing_is_rejected(outcomes: Seq<OutcomeView>)
    ensures
        rejections(outcomes).len() == 0 <==> (forall|i: int|
            0 <= i < outcomes.len() ==> (#[trigger] outcomes[i]).rejection is None),
    decreases outcomes.len(),
{
    if outcomes.len() > 0 {
        let earlier = outcomes.drop_last();
        law_accepted_when_nothing_is_rejected(earlier);
        if rejections(outcomes).len() == 0 {
            assert forall|i: int| 0 <= i < outcomes.len() implies (
            #[trigger] outcomes[i]).rejection is None by {
                if i < earlier.len() {
                    assert(earlier[i] == outcomes[i]);
                }
            }
        }
        if forall|i: int| 0 <= i < outcomes.len() ==> (#[trigger] outcomes[i]).rejection is None {
            assert forall|i: int| 0 <= i < earlier.len() implies (
            #[trigger] earlier[i]).rejection is None by {
                assert(earlier[i] == outcomes[i]);
            }
            assert(outcomes[outcomes.len() - 1].rejection is None);
        }
    }
}

/// Every update that is rejected is listed under its name with its reason.
pub proof fn law_every_rejection_is_listed(outcomes: Seq<OutcomeView>, i: int)
    requires
        0 <= i < outcomes.len(),
        outcomes[i].rejection is Some,
    ensures
        rejections(outcomes).contains(
            RejectionView { name: outcomes[i].name, reason: outcomes[i].rejection->0 },
        ),
    decreases outcomes.len(),
{
    let listed = RejectionView { name: outcomes[i].name, reason: outcomes[i].rejection->0 };
    let earlier = outcomes.drop_last();
    if i < outcomes.len() - 1 {
        assert(earlier[i] == outcomes[i]);
        law_every_rejection_is_listed(earlier, i);
        let j = choose|j: int|
            0 <= j < rejections(earlier).len() && rejections(earlier)[j] == listed;
        assert(rejections(outcomes)[j] == listed);
    } else {
        assert(rejections(outcomes)[rejections(earlier).len() as int] == listed);
    }
}

/// The rejections come in the order of the updates: those of a first part of the updates come
/// before those of the rest.
pub proof fn law_rejections_keep_their_order(first: Seq<OutcomeView>, second: Seq<OutcomeView>)
    ensures
        rejections(first + second) == rejections(first) + rejections(second),
    decreases second.len(),
{
    if second.len() == 0 {
        assert(first + second =~= first);
        assert(rejections(first) + rejections(second) =~= rejections(first));
    } else {
        assert((first + second).drop_last() =~= first + second.drop_last());
        law_rejections_keep_their_order(first, second.drop_last());
        assert(rejections(first + second) =~= rejections(first) + rejections(second));
    }
}

/// A handler is told of everything that a response mentions, by name: first of what the response
/// brings, then of what it removes, each in the order of the response.
pub proof fn law_updates_name_what_is_mentioned<
    T,
    D: Fn(&[u8]) -> Result<T, prost::DecodeError>,
>(response: DeltaDiscoveryResponse, decode: D, decoded: Seq<XdsResource<T>>)
    requires
        all_decode(response.resources@, decode, decoded),
    ensures
        updates_of(decoded, response.removed_resources@).map_values(
            |u: XdsUpdate<T>| u.subject(),
        ) == resource_names(response.resources@) + texts(response.removed_resources@),
{
    let names = updates_of(decoded, response.removed_resources@).map_values(
        |u: XdsUpdate<T>| u.subject(),
    );
    let mentioned = resource_names(response.resources@) + texts(response.removed_resources@);
    assert forall|i: int| 0 <= i < names.len() implies names[i] == mentioned[i] by {
        if i < decoded.len() {
            assert(is_decoding(response.resources@[i], decode, Ok(decoded[i])));
        }
    }
    assert(names =~= mentioned);
}

/// Where every resource has a payload and no payload can fail to decode, decoding does not fail.
pub proof fn law_decodable_payloads_do_not_fail<
    T,
    D: Fn(&[u8]) -> Result<T, prost::DecodeError>,
>(resources: Seq<Resource>, decode: D, error: AdsError)
    requires
        forall|i: int|
            #![trigger resources[i]]
            0 <= i < resources.len() ==> {
                &&& resources[i].resource matches Some(payload)
                &&& forall|cause: prost::DecodeError| !#[trigger] can_decode::<T, D>(
                    decode,
                    payload.value@,
                    Err(cause),
                )
            },
    ensures
        !fails_with::<T, D>(resources, decode, error),
{
}

/// Where a resource has no payload, the handler of its type gives no verdict.
pub proof fn law_missing_payloads_are_not_answered<
    T,
    H: Handler<T>,
    D: Fn(&[u8]) -> Result<T, prost::DecodeError>,
>(
    handler: H,
    decode: D,
    response: DeltaDiscoveryResponse,
    i: int,
    verdict: Result<(), Vec<RejectedConfig>>,
)
    requires
        0 <= i < response.resources@.len(),
        response.resources@[i].resource is None,
    ensures
        !answers(handler, decode, response, verdict),
{
    assert forall|decoded: Seq<XdsResource<T>>| #[trigger]
        all_decode(response.resources@, decode, decoded) implies false by {
        assert(is_decoding(response.resources@[i], decode, Ok(decoded[i])));
    }
}

/// A payload decodes to the message that it encodes, under the name of its resource, where the
/// decoder gives back only that message for its bytes. Nothing else that the resource holds counts.
pub proof fn law_decoding_undoes_encoding<T, D: Fn(&[u8]) -> Result<T, prost::DecodeError>>(
    resource: Resource,
    decode: D,
    message: T,
    decoded: Result<XdsResource<T>, AdsError>,
)
    requires
        resource.resource matches Some(payload) && forall|outcome: Result<T, prost::DecodeError>|
            #[trigger] can_decode(decode, payload.value@, outcome) ==> outcome == Ok::<
                T,
                prost::DecodeError,
            >(message),
        is_decoding(resource, decode, decoded),
    ensures
        decoded == Ok::<XdsResource<T>, AdsError>(
            XdsResource { name: resource.name, resource: message },
        ),
{
}

/// Only the name and the bytes of the payload count for what a resource decodes to: the version,
/// the aliases and the type that the payload names make no difference.
pub proof fn law_only_name_and_payload_count<T, D: Fn(&[u8]) -> Result<T, prost::DecodeError>>(
    one: Resource,
    other: Resource,
    decode: D,
    decoded: Result<XdsResource<T>, AdsError>,
)
    requires
        one.name == other.name,
        one.resource is Some <==> other.resource is Some,
        one.resource is Some ==> one.resource->0.value@ == other.resource->0.value@,
    ensures
        is_decoding(one, decode, decoded) == is_decoding(other, decode, decoded),
{
}

/// A handler is given one update for each decoded resource, which holds the whole of it, and after
/// these one removal for each removed name, all in order and nothing else.
pub proof fn law_handler_is_given_resources_and_removals<T>(
    decoded: Seq<XdsResource<T>>,
    removed: Seq<String>,
    i: int,
)
    ensures
        updates_of(decoded, removed).len() == decoded.len() + removed.len(),
        0 <= i < decoded.len() ==> (updates_of(decoded, removed)[i] matches XdsUpdate::Update(r)
            && r.name == decoded[i].name && r.resource == decoded[i].resource),
        0 <= i < removed.len() ==> (updates_of(decoded, removed)[decoded.len() + i] matches
            XdsUpdate::Remove(n) && n == removed[i]),
{
}

/// Where a handler gives a verdict on a response, it was handed a list with an update for each
/// resource, with the name of the resource and with a message that the decoder gives for the bytes
/// of its payload, and after these a removal for each removed name.
pub proof fn law_verdict_is_on_the_whole_response<
    T,
    H: Handler<T>,
    D: Fn(&[u8]) -> Result<T, prost::DecodeError>,
>(
    handler: H,
    decode: D,
    response: DeltaDiscoveryResponse,
    verdict: Result<(), Vec<RejectedConfig>>,
)
    requires
        answers(handler, decode, response, verdict),
    ensures
        exists|updates: Vec<XdsUpdate<T>>|
            {
                &&& #[trigger] call_ensures(H::handle, (&handler, updates), verdict)
                &&& updates@.len() == response.resources@.len() + response.removed_resources@.len()
                &&& forall|i: int|
                    #![trigger response.resources@[i]]
                    0 <= i < response.resources@.len() ==> {
                        &&& response.resources@[i].resource is Some
                        &&& updates@[i] matches XdsUpdate::Update(r)
                        &&& r.name == response.resources@[i].name
                        &&& exists|bytes: &[u8]|
                            bytes@ == response.resources@[i].resource->0.value@
                                && #[trigger] call_ensures(decode, (bytes,), Ok(r.resource))
                    }
                &&& forall|j: int|
                    #![trigger response.removed_resources@[j]]
                    0 <= j < response.removed_resources@.len() ==> updates@[
                    response.resources@.len() + j] == XdsUpdate::<T>::Remove(
                        response.removed_resources@[j],
                    )
            },
{
    let (decoded, updates) = choose|decoded: Seq<XdsResource<T>>, updates: Vec<XdsUpdate<T>>|
        #![trigger updates_of(decoded, response.removed_resources@), updates@]
        all_decode(response.resources@, decode, decoded) && updates@ == updates_of(
            decoded,
            response.removed_resources@,
        ) && call_ensures(H::handle, (&handler, updates), verdict);
    assert forall|i: int|
        #![trigger response.resources@[i]]
        0 <= i < response.resources@.len() implies {
        &&& response.resources@[i].resource is Some
        &&& updates@[i] matches XdsUpdate::Update(r)
        &&& r.name == response.resources@[i].name
        &&& exists|bytes: &[u8]|
            bytes@ == response.resources@[i].resource->0.value@ && #[trigger] call_ensures(
                decode,
                (bytes,),
                Ok(r.resource),
            )
    } by {
        assert(is_decoding(response.resources@[i], decode, Ok(decoded[i])));
        law_handler_is_given_resources_and_removals(decoded, response.removed_resources@, i);
    }
    assert forall|j: int|
        #![trigger response.removed_resources@[j]]
        0 <= j < response.removed_resources@.len() implies updates@[response.resources@.len() + j]
        == XdsUpdate::<T>::Remove(response.removed_resources@[j]) by {
        law_handler_is_given_resources_and_removals(decoded, response.removed_resources@, j);
    }
    assert(call_ensures(H::handle, (&handler, updates), verdict));
}

/// A resource without a payload gives the error that says so. With a payload it gives what the
/// decoder gives for all of its bytes: the message under the name of the resource, or the error.
pub proof fn law_payload_goes_through_the_decoder<
    T,
    D: Fn(&[u8]) -> Result<T, prost::DecodeError>,
>(resource: Resource, decode: D, decoded: Result<XdsResource<T>, AdsError>)
    requires
        is_decoding(resource, decode, decoded),
    ensures
        resource.resource is None <==> (decoded matches Err(e) && e is MissingResource),
        decoded matches Ok(r) ==> r.name == resource.name && exists|bytes: &[u8]|
            bytes@ == resource.resource->0.value@ && #[trigger] call_ensures(
                decode,
                (bytes,),
                Ok(r.resource),
            ),
        decoded matches Err(e) ==> e is MissingResource || (e matches AdsError::Decode(cause)
            && exists|bytes: &[u8]|
            bytes@ == resource.resource->0.value@ && #[trigger] call_ensures(
                decode,
                (bytes,),
                Err(cause),
            )),
{
}

/// Where decoding a list succeeds, every resource of it decoded, in its place.
pub proof fn law_decoded_lists_are_complete<T, D: Fn(&[u8]) -> Result<T, prost::DecodeError>>(
    resources: Seq<Resource>,
    decode: D,
    decoded: Seq<XdsResource<T>>,
    i: int,
)
    requires
        all_decode(resources, decode, decoded),
    ensures
        decoded.len() == resources.len(),
        0 <= i < resources.len() ==> {
            &&& decoded[i].name == resources[i].name
            &&& resources[i].resource is Some
            &&& exists|bytes: &[u8]|
                bytes@ == resources[i].resource->0.value@ && #[trigger] call_ensures(
                    decode,
                    (bytes,),
                    Ok(decoded[i].resource),
                )
        },
{
    if 0 <= i < resources.len() {
        assert(is_decoding(resources[i], decode, Ok(decoded[i])));
    }
}

/// Where decoding a list fails, the error is of one resource, which has no payload or one that the
/// decoder gives the error for, and all resources before it decode.
pub proof fn law_failure_is_of_the_first_that_fails<
    T,
    D: Fn(&[u8]) -> Result<T, prost::DecodeError>,
>(resources: Seq<Resource>, decode: D, error: AdsError)
    requires
        fails_with::<T, D>(resources, decode, error),
    ensures
        exists|i: int|
            {
                &&& 0 <= i < resources.len()
                &&& match (#[trigger] resources[i]).resource {
                    None => error is MissingResource,
                    Some(payload) => error matches AdsError::Decode(cause) && exists|bytes: &[u8]|
                        bytes@ == payload.value@ && #[trigger] call_ensures(
                            decode,
                            (bytes,),
                            Err::<T, prost::DecodeError>(cause),
                        ),
                }
                &&& forall|j: int|
                    0 <= j < i ==> ((#[trigger] resources[j]).resource matches Some(payload)
                        && exists|bytes: &[u8], message: T|
                        bytes@ == payload.value@ && #[trigger] call_ensures(
                            decode,
                            (bytes,),
                            Ok::<T, prost::DecodeError>(message),
                        ))
            },
{
    let decoded = choose|decoded: Seq<XdsResource<T>>|
        #![trigger decoded.len()]
        decoded.len() < resources.len() && all_decode(
            resources.take(decoded.len() as int),
            decode,
            decoded,
        ) && is_decoding::<T, D>(resources[decoded.len() as int], decode, Err(error));
    let i = decoded.len() as int;
    assert forall|j: int| 0 <= j < i implies ((#[trigger] resources[j]).resource matches Some(
        payload,
    ) && exists|bytes: &[u8], message: T|
        bytes@ == payload.value@ && #[trigger] call_ensures(
            decode,
            (bytes,),
            Ok::<T, prost::DecodeError>(message),
        )) by {
        assert(resources.take(i)[j] == resources[j]);
        assert(is_decoding(resources.take(i)[j], decode, Ok(decoded[j])));
    }
    assert(is_decoding::<T, D>(resources[i], decode, Err(error)));
}

/// A wrapper answers and fails as its handler and its decoder do, on every response.
pub proof fn law_wrapper_answers_for_its_handler<
    T: Send + Sync + 'static,
    H: Handler<T>,
    D: Fn(&[u8]) -> Result<T, prost::DecodeError> + Send + Sync + 'static,
>(
    wrapper: HandlerWrapper<T, H, D>,
    response: DeltaDiscoveryResponse,
    verdict: Result<(), Vec<RejectedConfig>>,
    error: AdsError,
)
    ensures
        wrapper.may_answer(response, verdict) ==> answers(
            wrapper.handler(),
            wrapper.decoder(),
            response,
            verdict,
        ),
        wrapper.may_fail(response, error) ==> fails_with::<T, D>(
            response.resources@,
            wrapper.decoder(),
            error,
        ),
{
}

/// One outcome is listed exactly where it is a rejection, with its name and its reason.
pub proof fn law_one_rejection_is_listed_whole(outcome: OutcomeView)
    ensures
        outcome.rejection is None ==> rejections(seq![outcome]).len() == 0,
        outcome.rejection matches Some(reason) ==> {
            &&& rejections(seq![outcome]).len() == 1
            &&& rejections(seq![outcome])[0].name == outcome.name
            &&& rejections(seq![outcome])[0].reason == reason
        },
        rejections(Seq::empty()).len() == 0,
{
    reveal_with_fuel(rejections, 2);
    assert(seq![outcome].drop_last() =~= Seq::empty());
    assert(seq![outcome].last() == outcome);
}

/// When updates are processed one by one, each is handed to the function and counts with what the
/// function gives for it. All are accepted exactly where the function rejects none, and every
/// rejection is listed with the name of the update and the reason that the function gave.
pub proof fn law_every_update_counts<T, F: FnMut(XdsUpdate<T>) -> Result<(), String>>(
    updates: Seq<XdsUpdate<T>>,
    handle_one: F,
    outcomes: Seq<Result<(), String>>,
    verdict: Result<(), Vec<RejectedConfig>>,
    i: int,
)
    requires
        outcomes_of(updates, handle_one, outcomes),
        is_verdict(verdict, named_outcomes(updates, outcomes)),
    ensures
        outcomes.len() == updates.len(),
        0 <= i < updates.len() ==> call_ensures(handle_one, (updates[i],), outcomes[i]),
        verdict is Ok <==> (forall|j: int|
            0 <= j < outcomes.len() ==> (#[trigger] outcomes[j]) is Ok),
        0 <= i < updates.len() && outcomes[i] is Err ==> {
            &&& verdict is Err
            &&& exists|k: int|
                {
                    &&& 0 <= k < verdict->Err_0@.len()
                    &&& (#[trigger] verdict->Err_0@[k])@.name == updates[i].subject()
                    &&& verdict->Err_0@[k]@.reason == outcomes[i]->Err_0@
                }
        },
{
    let named = named_outcomes(updates, outcomes);
    law_accepted_when_nothing_is_rejected(named);
    assert forall|j: int| 0 <= j < outcomes.len() implies (named[j].rejection is None <==> (
    #[trigger] outcomes[j]) is Ok) by {}
    if verdict is Ok {
        assert forall|j: int| 0 <= j < outcomes.len() implies (#[trigger] outcomes[j]) is Ok by {
            assert(named[j].rejection is None);
        }
    } else if forall|j: int| 0 <= j < outcomes.len() ==> (#[trigger] outcomes[j]) is Ok {
        assert forall|j: int| 0 <= j < named.len() implies (
        #[trigger] named[j]).rejection is None by {
            assert(outcomes[j] is Ok);
        }
        assert(rejection_views(verdict->Err_0@).len() == 0);
    }
    if 0 <= i < updates.len() && outcomes[i] is Err {
        law_every_rejection_is_listed(named, i);
        let listed = RejectionView { name: named[i].name, reason: named[i].rejection->0 };
        let all = rejections(named);
        let k = choose|k: int| 0 <= k < all.len() && all[k] == listed;
        assert(rejection_views(verdict->Err_0@)[k] == listed);
        assert(verdict->Err_0@[k]@ == listed);
    }
}

/// Whatever is rejected is listed in the order in which it was processed, and nothing is listed
/// that was not rejected.
pub proof fn law_only_rejections_are_listed(outcomes: Seq<OutcomeView>, k: int)
    requires
        0 <= k < rejections(outcomes).len(),
    ensures
        exists|i: int|
            {
                &&& 0 <= i < outcomes.len()
                &&& (#[trigger] outcomes[i]).rejection == Some(rejections(outcomes)[k].reason)
                &&& outcomes[i].name == rejections(outcomes)[k].name
            },
    decreases outcomes.len(),
{
    let earlier = outcomes.drop_last();
    if k < rejections(earlier).len() {
        law_only_rejections_are_listed(earlier, k);
        let i = choose|i: int|
            {
                &&& 0 <= i < earlier.len()
                &&& (#[trigger] earlier[i]).rejection == Some(rejections(earlier)[k].reason)
                &&& earlier[i].name == rejections(earlier)[k].name
            };
        assert(outcomes[i] == earlier[i]);
    } else {
        assert(outcomes[outcomes.len() - 1] == outcomes.last());
    }
}

/// A verdict on named outcomes lists as many rejections as there are, with their names and reasons
/// in their places.
pub proof fn law_verdict_lists_the_rejections(
    verdict: Result<(), Vec<RejectedConfig>>,
    outcomes: Seq<(String, Result<(), String>)>,
    i: int,
)
    requires
        is_verdict(verdict, outcome_views(outcomes)),
    ensures
        verdict is Ok <==> (forall|j: int|
            0 <= j < outcomes.len() ==> (#[trigger] outcomes[j]).1 is Ok),
        verdict matches Err(rejects) ==> {
            &&& rejects@.len() == rejections(outcome_views(outcomes)).len()
            &&& 0 <= i < rejects@.len() ==> rejects@[i]@ == rejections(outcome_views(outcomes))[i]
        },
        outcome_views(outcomes).len() == outcomes.len(),
        0 <= i < outcomes.len() ==> outcome_views(outcomes)[i].name == outcomes[i].0@ && match
            outcomes[i].1 {
            Ok(_) => outcome_views(outcomes)[i].rejection is None,
            Err(reason) => outcome_views(outcomes)[i].rejection == Some(reason@),
        },
{
    let views = outcome_views(outcomes);
    law_accepted_when_nothing_is_rejected(views);
    if verdict is Ok {
        assert forall|j: int| 0 <= j < outcomes.len() implies (
        #[trigger] outcomes[j]).1 is Ok by {
            assert(views[j].rejection is None);
        }
    } else if forall|j: int| 0 <= j < outcomes.len() ==> (#[trigger] outcomes[j]).1 is Ok {
        assert forall|j: int| 0 <= j < views.len() implies (
        #[trigger] views[j]).rejection is None by {
            assert(outcomes[j].1 is Ok);
        }
    }
    if let Err(rejects) = verdict {
        assert(rejection_views(rejects@).len() == rejects@.len());
        if 0 <= i < rejects@.len() {
            assert(rejection_views(rejects@)[i] == rejects@[i]@);
        }
    }
}

/// Where notifications were sent, one was sent to every waiter, and of each it is told what it
/// waited for and whether it could be told.
pub proof fn law_every_waiter_is_told(
    events: Seq<DemandEvent>,
    sent: Seq<Result<(), ()>>,
    i: int,
)
    requires
        sent_to(events, sent),
    ensures
        sent.len() == events.len(),
        deliveries(events, sent).len() == events.len(),
        0 <= i < events.len() ==> {
            &&& call_ensures(
                tokio::sync::oneshot::Sender::<()>::send,
                (events[i].0, ()),
                sent[i],
            )
            &&& deliveries(events, sent)[i].0 == events[i].1
            &&& deliveries(events, sent)[i].1 <==> sent[i] is Ok
        },
{
}

/// A boxed handler that stands for a handler of resources gives only verdicts and errors that the
/// handler and the decoder give.
pub proof fn law_boxed_handler_stands_for_its_handler<
    T,
    H: Handler<T>,
    D: Fn(&[u8]) -> Result<T, prost::DecodeError>,
>(
    boxed: BoxedHandler,
    handler: H,
    decode: D,
    response: DeltaDiscoveryResponse,
    verdict: Result<(), Vec<RejectedConfig>>,
    error: AdsError,
)
    requires
        handles_for(boxed, handler, decode),
    ensures
        boxed.may_answer(response, verdict) <==> answers(handler, decode, response, verdict),
        boxed.may_fail(response, error) <==> fails_with::<T, D>(
            response.resources@,
            decode,
            error,
        ),
{
}

/// Each update has its outcome in its own place, under its own name.
pub proof fn law_named_outcomes_keep_their_places<T>(
    updates: Seq<XdsUpdate<T>>,
    outcomes: Seq<Result<(), String>>,
    i: int,
)
    ensures
        named_outcomes(updates, outcomes).len() == updates.len(),
        0 <= i < updates.len() ==> {
            let named = named_outcomes(updates, outcomes)[i];
            &&& match updates[i] {
                XdsUpdate::Update(r) => named.name == r.name@,
                XdsUpdate::Remove(n) => named.name == n@,
            }
            &&& match outcomes[i] {
                Ok(_) => named.rejection is None,
                Err(reason) => named.rejection == Some(reason@),
            }
        },
{
}

/// A verdict is an acceptance exactly where nothing was rejected, and else the list of all
/// rejections, each in its place.
pub proof fn law_verdict_is_the_list_of_rejections(
    verdict: Result<(), Vec<RejectedConfig>>,
    outcomes: Seq<OutcomeView>,
    k: int,
)
    requires
        is_verdict(verdict, outcomes),
    ensures
        verdict is Ok <==> (forall|i: int|
            0 <= i < outcomes.len() ==> (#[trigger] outcomes[i]).rejection is None),
        verdict matches Err(rejects) ==> {
            &&& rejects@.len() == rejections(outcomes).len()
            &&& 0 <= k < rejects@.len() ==> rejects@[k]@ == rejections(outcomes)[k]
        },
{
    law_accepted_when_nothing_is_rejected(outcomes);
    if let Err(rejects) = verdict {
        assert(rejection_views(rejects@).len() == rejects@.len());
        if 0 <= k < rejects@.len() {
            assert(rejection_views(rejects@)[k] == rejects@[k]@);
        }
    }
}

/// The updates that are made hold each decoded resource and each removed name once, in order.
pub proof fn law_made_updates_are_complete<T>(
    decoded: Vec<XdsResource<T>>,
    removed: Vec<String>,
    updates: Vec<XdsUpdate<T>>,
    i: int,
)
    requires
        call_ensures(make_updates::<T>, (decoded, removed), updates),
    ensures
        updates@.len() == decoded@.len() + removed@.len(),
        0 <= i < decoded@.len() ==> updates@[i] == XdsUpdate::Update(decoded@[i]),
        0 <= i < removed@.len() ==> updates@[decoded@.len() + i] == XdsUpdate::<T>::Remove(
            removed@[i],
        ),
{
    law_handler_is_given_resources_and_removals(decoded@, removed@, i);
}

} // verus!
