//! The client: what it sends, and what it does with what it receives.
use crate::config::{Config, ConfigView};
use crate::demand::Demander;
use crate::handler::{
    BoxedHandler,
    Handler,
    RawHandler,
    answers,
    deliveries,
    fails_with,
    handles_for,
    law_every_waiter_is_told,
    notify_waiters,
    rejection_views,
    sent_to,
};
use crate::message::{
    DeltaDiscoveryRequest,
    DeltaDiscoveryResponse,
    Node,
    RequestView,
    Status,
    StatusView,
    law_empty_request_says_nothing,
    law_request_is_all_of_its_fields,
};
use crate::node::{NodeEnvironment, build_node};
use crate::resource::{
    AdsError,
    KeyView,
    RejectedConfig,
    RejectionView,
    ResourceKey,
    law_key_is_type_and_name,
    law_rejection_is_told_whole,
};
use crate::state::{
    DemandEvent,
    State,
    StateEvent,
    StateView,
    Waiter,
    demand_views,
    last_said,
    law_demand_is_answered,
    law_known_after_response,
    law_known_is_what_was_last_said,
    law_only_mentioned_waiters_are_notified,
    waiters_for,
    waiting_for,
};
use crate::table::Table;
use crate::text::{
    joined,
    law_joined_runs_are_separated,
    law_one_part_is_joined_alone,
    text_values,
    texts,
};
use vstd::prelude::*;

verus! {

/// What the client answers to a message.
#[derive(Clone, Copy, Debug, PartialEq, Eq, Structural)]
pub enum XdsSignal {
    /// There is nothing to answer.
    Nothing,
    /// The response is accepted.
    Ack,
    /// The response is rejected.
    Nack,
}

impl XdsSignal {
    /// Writes the signal in capitals.
    pub fn to_string(&self) -> (text: String)
        ensures
            text@ == match self {
                XdsSignal::Nothing => "NONE"@,
                XdsSignal::Ack => "ACK"@,
                XdsSignal::Nack => "NACK"@,
            },
    {
        match self {
            XdsSignal::Nothing => "NONE".to_owned(),
            XdsSignal::Ack => "ACK".to_owned(),
            XdsSignal::Nack => "NACK".to_owned(),
        }
    }
}

/// The text that tells the server what was rejected.
pub open spec fn rejection_text(rejects: Seq<RejectionView>) -> Seq<char> {
    joined(rejects.map_values(|r: RejectionView| r.text()), "; "@)
}

/// The signal that a verdict gives.
pub open spec fn signal_of(verdict: Result<(), Vec<RejectedConfig>>) -> XdsSignal {
    match verdict {
        Ok(_) => XdsSignal::Ack,
        Err(_) => XdsSignal::Nack,
    }
}

/// The request that answers a response: it names the type and the nonce of the response, and an
/// error where the verdict is a rejection.
pub open spec fn answer(
    type_url: Seq<char>,
    nonce: Seq<char>,
    verdict: Result<(), Vec<RejectedConfig>>,
) -> RequestView {
    RequestView {
        type_url,
        response_nonce: nonce,
        error_detail: match verdict {
            Ok(_) => None,
            Err(rejects) => Some(
                StatusView { code: 0, message: rejection_text(rejection_views(rejects@)) },
            ),
        },
        ..RequestView::empty()
    }
}

/// Writes what was rejected, with semicolons between.
pub fn join_rejects(rejects: &Vec<RejectedConfig>) -> (text: String)
    ensures
        text@ == rejection_text(rejection_views(rejects@)),
{
    let ghost parts = rejection_views(rejects@).map_values(|r: RejectionView| r.text());
    let mut text = String::new();
    let mut i: usize = 0;
    assert(joined(parts.take(0), "; "@) =~= Seq::empty());
    while i < rejects.len()
        invariant
            parts == rejection_views(rejects@).map_values(|r: RejectionView| r.text()),
            i <= rejects@.len(),
            text@ == joined(parts.take(i as int), "; "@),
        decreases rejects@.len() - i,
    {
        proof {
            assert(parts.take(i + 1).drop_last() =~= parts.take(i as int));
            assert(parts[i as int] == rejects@[i as int]@.text());
        }
        if i > 0 {
            text.append("; ");
        }
        text.append(rejects[i].to_string().as_str());
        assert(text@ =~= joined(parts.take(i + 1), "; "@));
        i = i + 1;
    }
    assert(parts.take(i as int) =~= parts);
    text
}

/// Answers a response with the verdict on it.
pub fn answer_response(
    type_url: String,
    nonce: String,
    verdict: Result<(), Vec<RejectedConfig>>,
) -> (answered: (XdsSignal, DeltaDiscoveryRequest))
    ensures
        answered.0 == signal_of(verdict),
        answered.1@ == answer(type_url@, nonce@, verdict),
        answered.0 == XdsSignal::Nack <==> verdict is Err,
        answered.0 == XdsSignal::Ack <==> verdict is Ok,
        answered.1.error_detail is Some <==> verdict is Err,
        answered.1.type_url@ == type_url@,
        answered.1.response_nonce@ == nonce@,
{
    let (signal, error) = match verdict {
        Ok(_) => (XdsSignal::Ack, None),
        Err(rejects) => (
            XdsSignal::Nack,
            Some(Status { code: 0, message: join_rejects(&rejects) }),
        ),
    };
    let request = DeltaDiscoveryRequest {
        type_url,
        response_nonce: nonce,
        error_detail: error,
        ..DeltaDiscoveryRequest::default()
    };
    (signal, request)
}

/// A client.
pub struct ClientView {
    pub config: ConfigView,
    pub state: StateView,
    /// How many connections the client has begun.
    pub connection_id: nat,
}

impl ClientView {
    /// The names to subscribe to, and to unsubscribe from, when a connection begins. There is no
    /// way to subscribe to nothing; to subscribe to everything and at once to unsubscribe from it
    /// comes to the same.
    pub open spec fn initial_names(self) -> Seq<Seq<char>> {
        if self.config.on_demand {
            seq!["*"@]
        } else {
            Seq::empty()
        }
    }

    /// The names of the known resources of a type, each with a version that says nothing.
    pub open spec fn known_versions(self, type_url: Seq<char>) -> Map<Seq<char>, Seq<char>> {
        Map::new(
            |name: Seq<char>| self.state.known.contains(KeyView { type_url, name }),
            |name: Seq<char>| Seq::empty(),
        )
    }

    /// The request for a type with which a connection begins.
    pub open spec fn initial_request(
        self,
        environment: NodeEnvironment,
        type_url: Seq<char>,
    ) -> RequestView {
        RequestView {
            node: Some(environment.node(self.config.proxy_metadata)),
            type_url,
            resource_names_subscribe: self.initial_names(),
            resource_names_unsubscribe: self.initial_names(),
            initial_resource_versions: self.known_versions(type_url),
            ..RequestView::empty()
        }
    }

    /// The requests with which a connection begins: one for each watched type.
    pub open spec fn initial_requests(self, environment: NodeEnvironment) -> Seq<RequestView> {
        self.config.initial_watches.map_values(
            |type_url: Seq<char>| self.initial_request(environment, type_url),
        )
    }
}

/// The views of a list of requests.
pub open spec fn request_views(requests: Seq<DeltaDiscoveryRequest>) -> Seq<RequestView> {
    requests.map_values(|r: DeltaDiscoveryRequest| r@)
}

/// The request that subscribes to one resource.
pub open spec fn demand_request(key: KeyView) -> RequestView {
    RequestView {
        type_url: key.type_url,
        resource_names_subscribe: seq![key.name],
        ..RequestView::empty()
    }
}

/// What is to be done about a message: the waiters are notified first, then the request is sent.
pub struct Reaction {
    pub signal: XdsSignal,
    pub waiters: Vec<DemandEvent>,
    pub request: Option<DeltaDiscoveryRequest>,
}

impl Reaction {
    /// There is nothing to be done.
    pub open spec fn is_idle(self) -> bool {
        self.signal is Nothing && self.waiters@.len() == 0 && self.request is None
    }
}

/// What was done about a message, and the request that is left to be sent.
pub struct Outcome {
    pub signal: XdsSignal,
    /// What each notified waiter waited for, and whether its notification could be sent.
    pub delivered: Vec<(ResourceKey, bool)>,
    pub request: Option<DeltaDiscoveryRequest>,
}

/// What a connection brings to the client.
pub enum ConnectionEvent {
    /// The demand queue gives a request, or is closed.
    Demand(Option<DemandEvent>),
    /// The server sends a response, or has no more to send.
    Message(Option<DeltaDiscoveryResponse>),
}

/// A client of the delta variant of the aggregated discovery service.
///
/// What comes for a type of resources goes to the handler of the type, which keeps what it wants
/// of it. The client itself remembers only which resources it knows and who waits for what.
pub struct AdsClient {
    config: Config,
    state: State,
    connection_id: u32,
}

impl View for AdsClient {
    type V = ClientView;

    closed spec fn view(&self) -> ClientView {
        ClientView {
            config: self.config@,
            state: self.state@,
            connection_id: self.connection_id as nat,
        }
    }
}

impl AdsClient {
    /// Makes a client that has not connected yet.
    pub(crate) fn new(config: Config, state: State) -> (client: Self)
        ensures
            client@ == (ClientView { config: config@, state: state@, connection_id: 0 }),
    {
        AdsClient { config, state, connection_id: 0 }
    }

    /// How the client is configured.
    pub fn config(&self) -> (config: &Config)
        ensures
            config@ == self@.config,
    {
        &self.config
    }

    /// What asks for resources on demand, where the client allows it.
    pub fn demander(&self) -> (demander: Option<Demander>)
        ensures
            match demander {
                Some(d) => self@.config.on_demand && d.queue() == self@.state.demand_tx,
                None => !self@.config.on_demand,
            },
    {
        if self.config.on_demand() {
            Some(Demander::new(self.state.demand_sender().clone()))
        } else {
            None
        }
    }

    /// The end of the demand queue from which requests are taken.
    pub fn demand_queue(&mut self) -> (queue: &mut tokio::sync::mpsc::Receiver<DemandEvent>)
        ensures
            *queue == old(self)@.state.demand,
            final(self)@ == (ClientView {
                state: StateView { demand: *final(queue), ..old(self)@.state },
                ..old(self)@
            }),
    {
        self.state.demand_queue()
    }

    /// Counts one more connection and returns its number.
    pub fn next_connection(&mut self) -> (id: u32)
        requires
            old(self)@.connection_id < u32::MAX,
        ensures
            id == old(self)@.connection_id + 1,
            final(self)@ == (ClientView { connection_id: id as nat, ..old(self)@ }),
    {
        self.connection_id = self.connection_id + 1;
        self.connection_id
    }

    /// How many connections the client has begun.
    pub fn connection_id(&self) -> (id: u32)
        ensures
            id == self@.connection_id,
    {
        self.connection_id
    }

    /// How the client names itself to the server.
    pub fn node(&self, environment: &NodeEnvironment) -> (node: Node)
        ensures
            node@ == environment.node(self@.config.proxy_metadata),
    {
        build_node(environment, self.config.proxy_metadata())
    }

    /// The known resources of a type, each with a version that says nothing.
    fn initial_resource_versions(&self, type_url: &String) -> (versions: Table<String, String>)
        ensures
            text_values(versions@) == self@.known_versions(type_url@),
    {
        let names = self.state.known_names(type_url);
        let mut versions: Table<String, String> = Table::new();
        let mut i: usize = 0;
        while i < names.len()
            invariant
                i <= names@.len(),
                forall|name: Seq<char>| #[trigger]
                    versions@.contains_key(name) <==> exists|j: int|
                        0 <= j < i && #[trigger] texts(names@)[j] == name,
                forall|name: Seq<char>| #[trigger]
                    versions@.contains_key(name) ==> versions@[name]@ == Seq::<char>::empty(),
            decreases names@.len() - i,
        {
            let ghost before = versions@;
            versions.insert(names[i].clone(), String::new());
            proof {
                assert forall|name: Seq<char>| #[trigger]
                    versions@.contains_key(name) <==> exists|j: int|
                        0 <= j < i + 1 && #[trigger] texts(names@)[j] == name by {
                    assert(texts(names@)[i as int] == names@[i as int]@);
                    if before.contains_key(name) {
                        let j = choose|j: int| 0 <= j < i && #[trigger] texts(names@)[j] == name;
                        assert(0 <= j < i + 1 && texts(names@)[j] == name);
                    }
                }
            }
            i = i + 1;
        }
        proof {
            assert forall|name: Seq<char>| #[trigger]
                versions@.contains_key(name) <==> self@.state.known.contains(
                KeyView { type_url: type_url@, name },
            ) by {
                assert(texts(names@).contains(name) <==> exists|j: int|
                    0 <= j < i && #[trigger] texts(names@)[j] == name);
            }
            assert(text_values(versions@) =~= self@.known_versions(type_url@));
        }
        versions
    }

    /// The names to subscribe to, and to unsubscribe from, when a connection begins.
    fn initial_names(&self) -> (names: Vec<String>)
        ensures
            texts(names@) == self@.initial_names(),
    {
        let mut names: Vec<String> = Vec::new();
        if self.config.on_demand() {
            names.push("*".to_owned());
        }
        assert(texts(names@) =~= self@.initial_names());
        names
    }

    /// Makes the requests with which a connection begins: for each watched type, in order, the
    /// subscription to it and the resources that the client knows already.
    pub fn construct_initial_requests(&self, environment: &NodeEnvironment) -> (requests: Vec<
        DeltaDiscoveryRequest,
    >)
        ensures
            request_views(requests@) == self@.initial_requests(*environment),
            requests@.len() == self@.config.initial_watches.len(),
            forall|i: int|
                0 <= i < requests@.len() ==> {
                    &&& (#[trigger] requests@[i]).type_url@ == self@.config.initial_watches[i]
                    &&& requests@[i].node matches Some(node)
                    &&& node@ == environment.node(self@.config.proxy_metadata)
                    &&& requests@[i].error_detail is None
                    &&& requests@[i].response_nonce@.len() == 0
                },
    {
        let node = self.node(environment);
        let watches = self.config.initial_watches();
        let mut requests: Vec<DeltaDiscoveryRequest> = Vec::new();
        let mut i: usize = 0;
        while i < watches.len()
            invariant
                texts(watches@) == self@.config.initial_watches,
                node@ == environment.node(self@.config.proxy_metadata),
                i <= watches@.len(),
                request_views(requests@) =~= self@.initial_requests(*environment).take(i as int),
            decreases watches@.len() - i,
        {
            let ghost before = requests@;
            let request = DeltaDiscoveryRequest {
                type_url: watches[i].clone(),
                node: Some(node.clone()),
                initial_resource_versions: self.initial_resource_versions(&watches[i]),
                resource_names_subscribe: self.initial_names(),
                resource_names_unsubscribe: self.initial_names(),
                ..DeltaDiscoveryRequest::default()
            };
            proof {
                assert(texts(watches@)[i as int] == watches@[i as int]@);
                assert(request@ == self@.initial_request(*environment, watches@[i as int]@));
                assert(request_views(before.push(request)) =~= request_views(before).push(
                    request@,
                ));
            }
            requests.push(request);
            i = i + 1;
        }
        proof {
            assert(request_views(requests@) =~= self@.initial_requests(*environment));
            assert forall|j: int| 0 <= j < requests@.len() implies {
                &&& (#[trigger] requests@[j]).type_url@ == self@.config.initial_watches[j]
                &&& requests@[j].node matches Some(node)
                &&& node@ == environment.node(self@.config.proxy_metadata)
                &&& requests@[j].error_detail is None
                &&& requests@[j].response_nonce@.len() == 0
            } by {
                assert(request_views(requests@)[j] == requests@[j]@);
            }
        }
        requests
    }

    /// Has a message of the server handled and answers it. A response of a type that has no
    /// handler is accepted and changes nothing. Where a payload does not decode there is no
    /// answer, and nothing changes.
    pub fn handle_stream_event(&mut self, stream_event: Option<DeltaDiscoveryResponse>) -> (handled:
        Result<Reaction, AdsError>)
        ensures
            streamed(old(self)@, stream_event, final(self)@, handled),
    {
        let response = match stream_event {
            None => {
                return Ok(
                    Reaction { signal: XdsSignal::Nothing, waiters: Vec::new(), request: None },
                );
            },
            Some(response) => response,
        };
        let type_url = response.type_url.clone();
        let nonce = response.nonce.clone();
        let (verdict, waiters) = match self.config.handler(&type_url) {
            Some(h) => match h.handle(&mut self.state, response) {
                Ok(handled) => (handled.verdict, handled.waiters),
                Err(error) => {
                    return Err(error);
                },
            },
            None => (Ok(()), Vec::new()),
        };
        let (signal, request) = answer_response(type_url, nonce, verdict);
        Ok(Reaction { signal, waiters, request: Some(request) })
    }

    /// Notes a request on demand and makes the subscription for it.
    pub fn handle_demand_event(&mut self, demand_event: Option<DemandEvent>) -> (request: Option<
        DeltaDiscoveryRequest,
    >)
        ensures
            demanded(old(self)@, demand_event, final(self)@, request),
            demand_event matches Some(event) ==> {
                &&& request matches Some(r)
                &&& r.type_url@ == event.1.type_url@
                &&& r.resource_names_subscribe@.len() == 1
                &&& r.resource_names_subscribe@[0]@ == event.1.name@
                &&& r.resource_names_unsubscribe@.len() == 0
            },
    {
        match demand_event {
            None => None,
            Some((waiter, key)) => {
                let ResourceKey { name, type_url } = key.clone();
                self.state.handle_demand(key, waiter);
                let mut names: Vec<String> = Vec::new();
                names.push(name);
                assert(texts(names@) =~= seq![name@]);
                Some(
                    DeltaDiscoveryRequest {
                        type_url,
                        resource_names_subscribe: names,
                        ..DeltaDiscoveryRequest::default()
                    },
                )
            },
        }
    }

    /// Decides what is to be done about what a connection brings.
    pub fn on_event(&mut self, event: ConnectionEvent) -> (handled: Result<Reaction, AdsError>)
        ensures
            decided(old(self)@, event, final(self)@, handled),
    {
        match event {
            ConnectionEvent::Demand(demand_event) => {
                let request = self.handle_demand_event(demand_event);
                Ok(Reaction { signal: XdsSignal::Nothing, waiters: Vec::new(), request })
            },
            ConnectionEvent::Message(stream_event) => self.handle_stream_event(stream_event),
        }
    }

    /// Handles what a connection brings and notifies those who waited for it, once it has been
    /// handled. What is left to be done is to send the request.
    pub fn process(&mut self, event: ConnectionEvent) -> (processed: Result<Outcome, AdsError>)
        ensures
            processes(old(self)@, event, final(self)@, processed),
    {
        match self.on_event(event) {
            Ok(reaction) => {
                let Reaction { signal, waiters, request } = reaction;
                let delivered = notify_waiters(waiters);
                Ok(Outcome { signal, delivered, request })
            },
            Err(error) => Err(error),
        }
    }
}

/// What is left of a readiness signal after an answer to the server, and what is given out.
pub open spec fn ready_step(left: Option<Waiter>, signal: XdsSignal) -> (
    Option<Waiter>,
    Option<Waiter>,
) {
    if signal is Ack {
        (None, left)
    } else {
        (left, None)
    }
}

/// Gives out whom to tell that the client is ready, once the first response is accepted.
pub fn take_ready(signal: XdsSignal, initial_xds_tx: &mut Option<Waiter>) -> (ready: Option<
    Waiter,
>)
    ensures
        (*final(initial_xds_tx), ready) == ready_step(*old(initial_xds_tx), signal),
{
    if signal == XdsSignal::Ack {
        initial_xds_tx.take()
    } else {
        None
    }
}

/// Tells who waits for it that the client is ready, once the first response is accepted. Returns
/// whether it could be told, where it was its turn.
pub fn signal_ready(signal: XdsSignal, initial_xds_tx: &mut Option<Waiter>) -> (told: Option<
    Result<(), ()>,
>)
    ensures
        ready_told(*old(initial_xds_tx), signal, *final(initial_xds_tx), told),
{
    match take_ready(signal, initial_xds_tx) {
        Some(waiter) => Some(waiter.send(())),
        None => None,
    }
}

/// `told` is what telling the one whose turn it is can give, and nothing where it is nobody's.
pub open spec fn ready_told(
    before: Option<Waiter>,
    signal: XdsSignal,
    after: Option<Waiter>,
    told: Option<Result<(), ()>>,
) -> bool {
    &&& after == ready_step(before, signal).0
    &&& match (ready_step(before, signal).1, told) {
        (Some(waiter), Some(sent)) => call_ensures(
            tokio::sync::oneshot::Sender::<()>::send,
            (waiter, ()),
            sent,
        ),
        (None, None) => true,
        _ => false,
    }
}

/// How a client whose type has a handler can react to a response: the handler gives a verdict,
/// the state takes note of the response, those who waited for what it mentions are notified, and
/// the answer carries the verdict; or a payload does not decode, and nothing changes.
pub open spec fn reacts(
    before: ClientView,
    handler: BoxedHandler,
    response: DeltaDiscoveryResponse,
    after: ClientView,
    handled: Result<Reaction, AdsError>,
) -> bool {
    match handled {
        Ok(reaction) => exists|verdict: Result<(), Vec<RejectedConfig>>| #[trigger]
            handler.may_answer(response, verdict) && {
                &&& after == (ClientView {
                    state: before.state.after_response(response),
                    ..before
                })
                &&& reaction.signal == signal_of(verdict)
                &&& demand_views(reaction.waiters@) == waiters_for(
                    before.state.pending,
                    response.mentioned_keys(),
                )
                &&& reaction.request matches Some(request)
                &&& request@ == answer(response.type_url@, response.nonce@, verdict)
            },
        Err(error) => handler.may_fail(response, error) && after == before,
    }
}

/// How a client reacts to what the stream of the server brings: where there is no more, it does
/// nothing; a response of a type without a handler it accepts, and remembers nothing of it.
pub open spec fn streamed(
    before: ClientView,
    stream_event: Option<DeltaDiscoveryResponse>,
    after: ClientView,
    handled: Result<Reaction, AdsError>,
) -> bool {
    match stream_event {
        None => handled matches Ok(reaction) && reaction.is_idle() && after == before,
        Some(response) => if before.config.handlers.contains_key(response.type_url@) {
            reacts(
                before,
                before.config.handlers[response.type_url@],
                response,
                after,
                handled,
            )
        } else {
            &&& handled matches Ok(reaction)
            &&& reaction.signal is Ack
            &&& reaction.waiters@.len() == 0
            &&& reaction.request matches Some(request)
            &&& request@ == answer(response.type_url@, response.nonce@, Ok(()))
            &&& after == before
        },
    }
}

/// How a client reacts to what its demand queue brings: where the queue is closed, it does
/// nothing; a request it notes, and subscribes to the resource.
pub open spec fn demanded(
    before: ClientView,
    demand_event: Option<DemandEvent>,
    after: ClientView,
    request: Option<DeltaDiscoveryRequest>,
) -> bool {
    match demand_event {
        None => request is None && after == before,
        Some(event) => {
            &&& request matches Some(r)
            &&& r@ == demand_request(event.1@)
            &&& after == (ClientView {
                state: before.state.after_demand(event.1@, event.0),
                ..before
            })
        },
    }
}

/// What a client decides about what a connection brings.
pub open spec fn decided(
    before: ClientView,
    event: ConnectionEvent,
    after: ClientView,
    handled: Result<Reaction, AdsError>,
) -> bool {
    match event {
        ConnectionEvent::Demand(demand_event) => {
            &&& handled matches Ok(reaction)
            &&& reaction.signal is Nothing
            &&& reaction.waiters@.len() == 0
            &&& demanded(before, demand_event, after, reaction.request)
        },
        ConnectionEvent::Message(stream_event) => streamed(before, stream_event, after, handled),
    }
}

/// How a client processes what a connection brings: it does as it decides, and everybody whom it
/// decides to notify is sent the notification.
pub open spec fn processes(
    before: ClientView,
    event: ConnectionEvent,
    after: ClientView,
    processed: Result<Outcome, AdsError>,
) -> bool {
    match processed {
        Ok(outcome) => exists|reaction: Reaction, sent: Seq<Result<(), ()>>|
            #![trigger sent_to(reaction.waiters@, sent)]
            {
                &&& decided(before, event, after, Ok(reaction))
                &&& sent_to(reaction.waiters@, sent)
                &&& outcome.delivered@ == deliveries(reaction.waiters@, sent)
                &&& outcome.signal == reaction.signal
                &&& outcome.request == reaction.request
            },
        Err(error) => decided(before, event, after, Err(error)),
    }
}

/// Every answer names the type and the nonce of its response, subscribes to nothing, and carries
/// an error exactly where it rejects.
pub proof fn law_answer_matches_its_response(
    type_url: Seq<char>,
    nonce: Seq<char>,
    verdict: Result<(), Vec<RejectedConfig>>,
)
    ensures
        answer(type_url, nonce, verdict).type_url == type_url,
        answer(type_url, nonce, verdict).response_nonce == nonce,
        answer(type_url, nonce, verdict).resource_names_subscribe.len() == 0,
        answer(type_url, nonce, verdict).resource_names_unsubscribe.len() == 0,
        answer(type_url, nonce, verdict).error_detail is Some <==> signal_of(verdict) is Nack,
        answer(type_url, nonce, verdict).error_detail is None <==> signal_of(verdict) is Ack,
{
}

/// Every response that decodes is answered, with the type and the nonce of the response,
/// whatever its handler says.
pub proof fn law_every_response_is_answered(
    before: ClientView,
    response: DeltaDiscoveryResponse,
    after: ClientView,
    reaction: Reaction,
)
    requires
        streamed(before, Some(response), after, Ok(reaction)),
    ensures
        reaction.signal is Ack || reaction.signal is Nack,
        reaction.request matches Some(request) && request@.type_url == response.type_url@
            && request@.response_nonce == response.nonce@ && (request@.error_detail is Some
            <==> reaction.signal is Nack),
{
}

/// A response reaches the handler that was set for its type: the client signals and answers what
/// the handler says of the resources that the payloads decode to and of the names that the
/// response removes.
pub proof fn law_responses_reach_their_handler<
    T,
    H: Handler<T>,
    D: Fn(&[u8]) -> Result<T, prost::DecodeError>,
>(
    before: ClientView,
    handler: H,
    decode: D,
    response: DeltaDiscoveryResponse,
    after: ClientView,
    handled: Result<Reaction, AdsError>,
)
    requires
        before.config.handlers.contains_key(response.type_url@),
        handles_for(before.config.handlers[response.type_url@], handler, decode),
        streamed(before, Some(response), after, handled),
    ensures
        match handled {
            Ok(reaction) => exists|verdict: Result<(), Vec<RejectedConfig>>| #[trigger]
                answers(handler, decode, response, verdict) && reaction.signal == signal_of(verdict)
                    && reaction.request is Some && reaction.request->0@ == answer(
                    response.type_url@,
                    response.nonce@,
                    verdict,
                ),
            Err(error) => fails_with::<T, D>(response.resources@, decode, error),
        },
{
    if let Ok(reaction) = handled {
        let raw = before.config.handlers[response.type_url@];
        let verdict = choose|verdict: Result<(), Vec<RejectedConfig>>| #[trigger]
            raw.may_answer(response, verdict) && reaction.signal == signal_of(verdict)
                && reaction.request->0@ == answer(response.type_url@, response.nonce@, verdict);
        assert(answers(handler, decode, response, verdict));
    }
}

/// The configuration and the number of the connection stay as they are, whatever a connection
/// brings.
pub proof fn law_events_change_the_state_only(
    before: ClientView,
    stream_event: Option<DeltaDiscoveryResponse>,
    demand_event: Option<DemandEvent>,
    after: ClientView,
    handled: Result<Reaction, AdsError>,
    request: Option<DeltaDiscoveryRequest>,
)
    requires
        streamed(before, stream_event, after, handled) || demanded(
            before,
            demand_event,
            after,
            request,
        ),
    ensures
        after.config == before.config,
        after.connection_id == before.connection_id,
        after.state.demand == before.state.demand,
        after.state.demand_tx == before.state.demand_tx,
{
}

/// A connection begins with one request for each watched type, in the order of the watches. The
/// request names its type and exactly the resources of the type that the client knows.
pub proof fn law_connection_begins_with_what_is_known(
    client: ClientView,
    environment: NodeEnvironment,
    i: int,
    name: Seq<char>,
)
    requires
        0 <= i < client.config.initial_watches.len(),
    ensures
        client.initial_requests(environment).len() == client.config.initial_watches.len(),
        client.initial_requests(environment)[i].type_url == client.config.initial_watches[i],
        client.initial_requests(environment)[i].initial_resource_versions.contains_key(name)
            <==> client.state.known.contains(
            KeyView { type_url: client.config.initial_watches[i], name },
        ),
{
}

/// What a client on demand subscribes to when a connection begins it also unsubscribes from, and
/// a client that is not on demand names nothing: with no names it subscribes to all of the type.
pub proof fn law_on_demand_begins_with_nothing(
    client: ClientView,
    environment: NodeEnvironment,
    i: int,
)
    requires
        0 <= i < client.config.initial_watches.len(),
    ensures
        client.initial_requests(environment)[i].resource_names_subscribe
            == client.initial_requests(environment)[i].resource_names_unsubscribe,
        client.config.on_demand ==> client.initial_requests(
            environment,
        )[i].resource_names_subscribe == seq!["*"@],
        !client.config.on_demand ==> client.initial_requests(
            environment,
        )[i].resource_names_subscribe.len() == 0,
{
}

/// After a response of a watched type has been handled, a new connection begins with what the
/// response brought and without what it removed.
pub proof fn law_reconnecting_repeats_what_was_received(
    before: ClientView,
    response: DeltaDiscoveryResponse,
    after: ClientView,
    reaction: Reaction,
    environment: NodeEnvironment,
    i: int,
    name: Seq<char>,
)
    requires
        before.config.handlers.contains_key(response.type_url@),
        streamed(before, Some(response), after, Ok(reaction)),
        0 <= i < before.config.initial_watches.len(),
        before.config.initial_watches[i] == response.type_url@,
    ensures
        ({
            let key = KeyView { type_url: response.type_url@, name };
            let versions = after.initial_requests(environment)[i].initial_resource_versions;
            &&& response.added_keys().contains(key) ==> versions.contains_key(name)
            &&& response.removed_keys().contains(key) && !response.added_keys().contains(key)
                ==> !versions.contains_key(name)
        }),
{
    let key = KeyView { type_url: response.type_url@, name };
    law_known_after_response(before.state, response, key);
}

/// After a resource of a watched type has been asked for on demand, a new connection begins with
/// it.
pub proof fn law_reconnecting_repeats_what_was_demanded(
    before: ClientView,
    event: DemandEvent,
    after: ClientView,
    request: Option<DeltaDiscoveryRequest>,
    environment: NodeEnvironment,
    i: int,
)
    requires
        demanded(before, Some(event), after, request),
        0 <= i < before.config.initial_watches.len(),
        before.config.initial_watches[i] == event.1@.type_url,
    ensures
        after.initial_requests(environment)[i].initial_resource_versions.contains_key(
            event.1@.name,
        ),
{
}

/// Whatever has happened since, a new connection begins with those resources of a watched type
/// which the last event that speaks of them asked for or brought.
pub proof fn law_reconnecting_repeats_what_was_last_said(
    client: ClientView,
    events: Seq<StateEvent>,
    environment: NodeEnvironment,
    i: int,
    name: Seq<char>,
)
    requires
        0 <= i < client.config.initial_watches.len(),
    ensures
        ({
            let later = ClientView { state: client.state.after_events(events), ..client };
            let key = KeyView { type_url: client.config.initial_watches[i], name };
            later.initial_requests(environment)[i].initial_resource_versions.contains_key(name)
                <==> last_said(events, key, client.state.known.contains(key))
        }),
{
    let key = KeyView { type_url: client.config.initial_watches[i], name };
    law_known_is_what_was_last_said(client.state, events, key);
}

/// A response of a type that has a handler is taken note of in the same way whether it is
/// accepted or rejected.
pub proof fn law_rejected_responses_are_noted(
    before: ClientView,
    response: DeltaDiscoveryResponse,
    after: ClientView,
    reaction: Reaction,
)
    requires
        before.config.handlers.contains_key(response.type_url@),
        streamed(before, Some(response), after, Ok(reaction)),
    ensures
        after.state == before.state.after_response(response),
        demand_views(reaction.waiters@) == waiters_for(
            before.state.pending,
            response.mentioned_keys(),
        ),
{
}

/// By a response of a type with a handler, the notification is sent to everybody who waited for
/// what the response mentions, and to nobody else.
pub proof fn law_notifications_are_sent(
    before: ClientView,
    response: DeltaDiscoveryResponse,
    after: ClientView,
    outcome: Outcome,
)
    requires
        before.config.handlers.contains_key(response.type_url@),
        processes(before, ConnectionEvent::Message(Some(response)), after, Ok(outcome)),
    ensures
        exists|events: Seq<DemandEvent>, sent: Seq<Result<(), ()>>| #[trigger]
            sent_to(events, sent) && demand_views(events) == waiters_for(
                before.state.pending,
                response.mentioned_keys(),
            ) && outcome.delivered@ == deliveries(events, sent),
{
}

/// Everybody who asks for a resource on demand is sent the notification by the first response of
/// a type with a handler that mentions the resource, however many others ask for the same
/// resource before it comes. Until then everybody who asked waits on.
pub proof fn law_every_demander_is_notified(
    before: ClientView,
    event: DemandEvent,
    asked: ClientView,
    request: Option<DeltaDiscoveryRequest>,
    between: Seq<StateEvent>,
    waiting: ClientView,
    response: DeltaDiscoveryResponse,
    after: ClientView,
    outcome: Outcome,
)
    requires
        demanded(before, Some(event), asked, request),
        forall|i: int| 0 <= i < between.len() ==> !(#[trigger] between[i]).mentions(event.1@),
        waiting == (ClientView { state: asked.state.after_events(between), ..asked }),
        waiting.config.handlers.contains_key(response.type_url@),
        response.mentioned_keys().contains(event.1@),
        processes(waiting, ConnectionEvent::Message(Some(response)), after, Ok(outcome)),
    ensures
        waiting_for(waiting.state.pending, event.1@).contains(event.0),
        exists|i: int|
            {
                &&& 0 <= i < outcome.delivered@.len()
                &&& (#[trigger] outcome.delivered@[i]).0@ == event.1@
                &&& was_sent(event.0, outcome.delivered@[i].1)
            },
        !after.state.pending.contains_key(event.1@),
{
    law_demand_is_answered(before.state, event.1@, event.0, between, response);
    law_only_mentioned_waiters_are_notified(
        waiting.state.pending,
        response.mentioned_keys(),
        event.0,
        event.1@,
    );
    law_notifications_are_sent(waiting, response, after, outcome);
    let (events, sent) = choose|events: Seq<DemandEvent>, sent: Seq<Result<(), ()>>| #[trigger]
        sent_to(events, sent) && demand_views(events) == waiters_for(
            waiting.state.pending,
            response.mentioned_keys(),
        ) && outcome.delivered@ == deliveries(events, sent);
    let i = choose|i: int|
        0 <= i < demand_views(events).len() && demand_views(events)[i] == (event.0, event.1@);
    assert(events[i].0 == event.0 && events[i].1@ == event.1@);
    assert(call_ensures(
        tokio::sync::oneshot::Sender::<()>::send,
        (events[i].0, ()),
        sent[i],
    ));
    assert(was_sent(event.0, outcome.delivered@[i].1));
}

/// The notification was sent to the waiter, and `delivered` tells whether it could be delivered.
pub open spec fn was_sent(waiter: Waiter, delivered: bool) -> bool {
    exists|sent: Result<(), ()>|
        #![trigger call_ensures(tokio::sync::oneshot::Sender::<()>::send, (waiter, ()), sent)]
        call_ensures(tokio::sync::oneshot::Sender::<()>::send, (waiter, ()), sent) && delivered == (
        sent is Ok)
}

/// What is given out of a readiness signal in a run of answers, in order.
pub open spec fn ready_given(left: Option<Waiter>, signals: Seq<XdsSignal>) -> Seq<Waiter>
    decreases signals.len(),
{
    if signals.len() == 0 {
        Seq::empty()
    } else {
        let (left, given) = ready_step(left, signals.first());
        let later = ready_given(left, signals.drop_first());
        match given {
            Some(waiter) => seq![waiter] + later,
            None => later,
        }
    }
}

/// Readiness is signalled once on a connection, when the first response is accepted, and not at
/// all where none is.
pub proof fn law_ready_is_signalled_once(waiter: Waiter, signals: Seq<XdsSignal>)
    ensures
        ready_given(Some(waiter), signals) == if signals.contains(XdsSignal::Ack) {
            seq![waiter]
        } else {
            Seq::empty()
        },
        ready_given(None, signals) == Seq::<Waiter>::empty(),
    decreases signals.len(),
{
    if signals.len() > 0 {
        let rest = signals.drop_first();
        law_ready_is_signalled_once(waiter, rest);
        if signals.first() is Ack {
            assert(signals[0] == XdsSignal::Ack);
            assert(seq![waiter] + Seq::<Waiter>::empty() =~= seq![waiter]);
        } else {
            assert(signals.contains(XdsSignal::Ack) <==> rest.contains(XdsSignal::Ack)) by {
                if signals.contains(XdsSignal::Ack) {
                    let i = choose|i: int| 0 <= i < signals.len() && signals[i] == XdsSignal::Ack;
                    assert(rest[i - 1] == XdsSignal::Ack);
                }
                if rest.contains(XdsSignal::Ack) {
                    let i = choose|i: int| 0 <= i < rest.len() && rest[i] == XdsSignal::Ack;
                    assert(signals[i + 1] == XdsSignal::Ack);
                }
            }
        }
    }
}

/// The verdict alone decides the answer: it is a rejection with an error exactly where the verdict
/// is one, and else an acceptance without an error. The error tells what was rejected.
pub proof fn law_verdict_decides_the_answer(
    type_url: Seq<char>,
    nonce: Seq<char>,
    verdict: Result<(), Vec<RejectedConfig>>,
    name: Seq<char>,
)
    ensures
        signal_of(verdict) is Nack <==> verdict is Err,
        signal_of(verdict) is Ack <==> verdict is Ok,
        ({
            let request = answer(type_url, nonce, verdict);
            &&& request.error_detail is Some <==> verdict is Err
            &&& request.error_detail is None <==> verdict is Ok
            &&& verdict matches Err(rejects) ==> request.error_detail->0.message
                == rejection_text(rejection_views(rejects@)) && request.error_detail->0.code == 0
            &&& request.type_url == type_url
            &&& request.response_nonce == nonce
            &&& request.node is None
            &&& request.resource_names_subscribe.len() == 0
            &&& request.resource_names_unsubscribe.len() == 0
            &&& !request.initial_resource_versions.contains_key(name)
        }),
{
}

/// The views of rejected configurations stand in their places, one for each.
pub proof fn law_rejection_views_keep_their_places(rejects: Seq<RejectedConfig>, i: int)
    ensures
        rejection_views(rejects).len() == rejects.len(),
        0 <= i < rejects.len() ==> rejection_views(rejects)[i] == rejects[i]@,
{
}

/// One rejection is told by its name, a colon and its reason; nothing rejected is told by nothing.
pub proof fn law_one_rejection_is_told(rejection: RejectionView)
    ensures
        rejection_text(seq![rejection]) == rejection.name + ": "@ + rejection.reason,
        rejection_text(Seq::empty()).len() == 0,
{
    let parts = seq![rejection].map_values(|r: RejectionView| r.text());
    assert(parts =~= seq![rejection.text()]);
    law_one_part_is_joined_alone(rejection.text(), "; "@);
    law_rejection_is_told_whole(rejection);
    assert(Seq::<RejectionView>::empty().map_values(|r: RejectionView| r.text()) =~= Seq::empty());
}

/// Two runs of rejections are told one after the other, with a semicolon and a blank between them.
pub proof fn law_rejections_are_told_in_order(
    first: Seq<RejectionView>,
    second: Seq<RejectionView>,
)
    requires
        first.len() > 0,
        second.len() > 0,
    ensures
        rejection_text(first + second) == rejection_text(first) + "; "@ + rejection_text(second),
{
    let text = |r: RejectionView| r.text();
    assert((first + second).map_values(text) =~= first.map_values(text) + second.map_values(text));
    law_joined_runs_are_separated(first.map_values(text), second.map_values(text), "; "@);
}

/// The error of a rejection names every configuration that was rejected, with its reason.
pub proof fn law_every_rejection_is_told(
    type_url: Seq<char>,
    nonce: Seq<char>,
    rejects: Vec<RejectedConfig>,
    i: int,
)
    requires
        0 <= i < rejects@.len(),
    ensures
        answer(type_url, nonce, Err(rejects)).error_detail matches Some(status)
            && exists|before: Seq<char>, after: Seq<char>|
            status.message == #[trigger] (before + (rejects@[i]@.name + ": "@
                + rejects@[i]@.reason) + after),
{
    let all = rejection_views(rejects@);
    let one = all[i];
    let first = all.subrange(0, i);
    let second = all.subrange(i + 1, all.len() as int);
    let told = one.name + ": "@ + one.reason;
    law_rejection_views_keep_their_places(rejects@, i);
    law_one_rejection_is_told(one);
    let after = if second.len() > 0 {
        "; "@ + rejection_text(second)
    } else {
        Seq::empty()
    };
    let rest = seq![one] + second;
    if second.len() > 0 {
        law_rejections_are_told_in_order(seq![one], second);
    } else {
        assert(rest =~= seq![one]);
    }
    assert(rejection_text(rest) =~= told + after);
    assert(all =~= first + rest);
    let before = if first.len() > 0 {
        law_rejections_are_told_in_order(first, rest);
        rejection_text(first) + "; "@
    } else {
        assert(all =~= rest);
        Seq::empty()
    };
    assert(rejection_text(all) =~= before + told + after);
}

/// A response of a type with a handler is answered by what the handler says of it: with a
/// rejection and an error exactly where the handler rejects, and else with an acceptance without
/// an error, always under the type and the nonce of the response.
pub proof fn law_handler_decides_the_answer(
    before: ClientView,
    response: DeltaDiscoveryResponse,
    after: ClientView,
    reaction: Reaction,
)
    requires
        before.config.handlers.contains_key(response.type_url@),
        streamed(before, Some(response), after, Ok(reaction)),
    ensures
        exists|verdict: Result<(), Vec<RejectedConfig>>|
            {
                &&& #[trigger] before.config.handlers[response.type_url@].may_answer(
                    response,
                    verdict,
                )
                &&& reaction.signal is Nack <==> verdict is Err
                &&& reaction.signal is Ack <==> verdict is Ok
                &&& reaction.request matches Some(request)
                &&& request.type_url@ == response.type_url@
                &&& request.response_nonce@ == response.nonce@
                &&& request.error_detail is Some <==> verdict is Err
                &&& verdict matches Err(rejects) ==> request.error_detail->0.message@
                    == rejection_text(rejection_views(rejects@))
                &&& request.node is None
                &&& request.resource_names_subscribe@.len() == 0
                &&& request.resource_names_unsubscribe@.len() == 0
            },
        after.config == before.config,
        after.connection_id == before.connection_id,
        after.state == before.state.after_response(response),
{
    let handler = before.config.handlers[response.type_url@];
    let verdict = choose|verdict: Result<(), Vec<RejectedConfig>>| #[trigger]
        handler.may_answer(response, verdict) && reaction.signal == signal_of(verdict)
            && reaction.request->0@ == answer(response.type_url@, response.nonce@, verdict);
    let request = reaction.request->0;
    law_verdict_decides_the_answer(
        response.type_url@,
        response.nonce@,
        verdict,
        response.type_url@,
    );
    law_request_is_all_of_its_fields(request, 0, response.type_url@);
    assert(handler.may_answer(response, verdict));
}

/// A payload that does not decode changes nothing, and the error is one that the handler of the
/// type has for the response.
pub proof fn law_failed_decoding_changes_nothing(
    before: ClientView,
    response: DeltaDiscoveryResponse,
    after: ClientView,
    error: AdsError,
)
    requires
        streamed(before, Some(response), after, Err(error)),
    ensures
        after == before,
        before.config.handlers.contains_key(response.type_url@),
        before.config.handlers[response.type_url@].may_fail(response, error),
{
}

/// A response of a type without a handler is accepted, under its type and nonce, and changes
/// nothing and notifies nobody.
pub proof fn law_unknown_types_are_accepted(
    before: ClientView,
    response: DeltaDiscoveryResponse,
    after: ClientView,
    handled: Result<Reaction, AdsError>,
)
    requires
        !before.config.handlers.contains_key(response.type_url@),
        streamed(before, Some(response), after, handled),
    ensures
        after == before,
        handled matches Ok(reaction) && reaction.signal is Ack && reaction.waiters@.len() == 0 && (
        reaction.request matches Some(request) && request.type_url@ == response.type_url@
            && request.response_nonce@ == response.nonce@ && request.error_detail is None
            && request.node is None && request.resource_names_subscribe@.len() == 0
            && request.resource_names_unsubscribe@.len() == 0),
{
    let request = handled->Ok_0.request->0;
    law_verdict_decides_the_answer(
        response.type_url@,
        response.nonce@,
        Ok(()),
        response.type_url@,
    );
    law_request_is_all_of_its_fields(request, 0, response.type_url@);
}

/// Where a stream has no more to bring, or the demand queue is closed, nothing is answered, nobody
/// is notified and nothing changes.
pub proof fn law_ends_of_streams_change_nothing(
    before: ClientView,
    after: ClientView,
    handled: Result<Reaction, AdsError>,
)
    requires
        decided(before, ConnectionEvent::Message(None), after, handled) || decided(
            before,
            ConnectionEvent::Demand(None),
            after,
            handled,
        ),
    ensures
        after == before,
        handled matches Ok(reaction) && reaction.signal is Nothing && reaction.waiters@.len() == 0
            && reaction.request is None,
{
}

/// A demand makes a request that names the type of the resource and subscribes to exactly its
/// name. It unsubscribes from nothing, answers nothing and says nothing else.
pub proof fn law_demand_subscribes_to_its_resource(
    before: ClientView,
    event: DemandEvent,
    after: ClientView,
    request: Option<DeltaDiscoveryRequest>,
    name: Seq<char>,
)
    requires
        demanded(before, Some(event), after, request),
    ensures
        request matches Some(r) && {
            &&& r.type_url@ == event.1.type_url@
            &&& r.resource_names_subscribe@.len() == 1
            &&& r.resource_names_subscribe@[0]@ == event.1.name@
            &&& r.resource_names_unsubscribe@.len() == 0
            &&& r.response_nonce@.len() == 0
            &&& r.error_detail is None
            &&& r.node is None
            &&& !r.initial_resource_versions@.contains_key(name)
        },
        after.config == before.config,
        after.connection_id == before.connection_id,
        after.state == before.state.after_demand(event.1@, event.0),
{
    let r = request->0;
    law_request_is_all_of_its_fields(r, 0, name);
    law_key_is_type_and_name(event.1, event.1);
    law_empty_request_says_nothing(name);
}

/// Two demands make the same request exactly where they ask for the same resource.
pub proof fn law_different_demands_make_different_requests(one: KeyView, other: KeyView)
    ensures
        demand_request(one) == demand_request(other) <==> one == other,
{
    if demand_request(one) == demand_request(other) {
        assert(demand_request(one).resource_names_subscribe[0] == one.name);
        assert(demand_request(other).resource_names_subscribe[0] == other.name);
        assert(demand_request(one).type_url == one.type_url);
    }
}

/// On every connection, whatever its number and whatever the client knows, the request for each
/// watched type says who the client is, names the type and the resources of it that are known,
/// each with an empty version, and answers nothing. It subscribes to all and unsubscribes from all
/// where resources are asked for on demand only, and names nothing else.
pub proof fn law_initial_request_is_complete(
    client: ClientView,
    environment: NodeEnvironment,
    i: int,
    name: Seq<char>,
)
    requires
        0 <= i < client.config.initial_watches.len(),
    ensures
        client.initial_requests(environment).len() == client.config.initial_watches.len(),
        ({
            let request = client.initial_requests(environment)[i];
            &&& request.node matches Some(node)
            &&& node.id == environment.node(client.config.proxy_metadata).id
            &&& node.metadata == environment.node(client.config.proxy_metadata).metadata
            &&& request.type_url == client.config.initial_watches[i]
            &&& request.initial_resource_versions.contains_key(name)
                <==> client.state.known.contains(
                KeyView { type_url: client.config.initial_watches[i], name },
            )
            &&& request.initial_resource_versions.contains_key(name)
                ==> request.initial_resource_versions[name].len() == 0
            &&& client.config.on_demand ==> request.resource_names_subscribe.len() == 1
                && request.resource_names_subscribe[0] == "*"@
                && request.resource_names_unsubscribe.len() == 1
                && request.resource_names_unsubscribe[0] == "*"@
            &&& !client.config.on_demand ==> request.resource_names_subscribe.len() == 0
                && request.resource_names_unsubscribe.len() == 0
            &&& request.response_nonce.len() == 0
            &&& request.error_detail is None
        }),
{
}

/// A client that has the same configuration and knows the same resources begins every connection
/// with the same requests, whatever the number of the connection and whoever waits for what.
pub proof fn law_connections_begin_alike(
    one: ClientView,
    other: ClientView,
    environment: NodeEnvironment,
)
    requires
        one.config == other.config,
        one.state.known == other.state.known,
    ensures
        one.initial_requests(environment) == other.initial_requests(environment),
{
    assert forall|i: int| 0 <= i < one.config.initial_watches.len() implies one.initial_requests(
        environment,
    )[i] == other.initial_requests(environment)[i] by {
        let type_url = one.config.initial_watches[i];
        assert(one.known_versions(type_url) =~= other.known_versions(type_url));
    }
    assert(one.initial_requests(environment) =~= other.initial_requests(environment));
}

/// The views of requests stand in their places, one for each.
pub proof fn law_request_views_keep_their_places(requests: Seq<DeltaDiscoveryRequest>, i: int)
    ensures
        request_views(requests).len() == requests.len(),
        0 <= i < requests.len() ==> request_views(requests)[i] == requests[i]@,
{
}

/// An acceptance gives out what is left of a readiness signal, and leaves nothing; anything else
/// gives out nothing and leaves it. What is given out is told.
pub proof fn law_acceptance_signals_readiness(
    before: Option<Waiter>,
    signal: XdsSignal,
    after: Option<Waiter>,
    told: Option<Result<(), ()>>,
)
    ensures
        signal is Ack ==> ready_step(before, signal).0 is None && ready_step(before, signal).1
            == before,
        !(signal is Ack) ==> ready_step(before, signal).0 == before && ready_step(
            before,
            signal,
        ).1 is None,
        ready_told(before, signal, after, told) ==> {
            &&& after is Some <==> before is Some && !(signal is Ack)
            &&& after is Some ==> after == before
            &&& told is Some <==> before is Some && signal is Ack
            &&& told matches Some(sent) ==> call_ensures(
                tokio::sync::oneshot::Sender::<()>::send,
                (before->0, ()),
                sent,
            )
        },
{
}

/// Processing does what was decided: the signal and the request are those of the decision, as many
/// are told as were to be notified, and the error is that of the decision.
pub proof fn law_processing_follows_the_decision(
    before: ClientView,
    event: ConnectionEvent,
    after: ClientView,
    processed: Result<Outcome, AdsError>,
)
    requires
        processes(before, event, after, processed),
    ensures
        match processed {
            Ok(outcome) => exists|reaction: Reaction|
                {
                    &&& #[trigger] decided(before, event, after, Ok(reaction))
                    &&& outcome.signal == reaction.signal
                    &&& outcome.request == reaction.request
                    &&& outcome.delivered@.len() == reaction.waiters@.len()
                    &&& forall|i: int|
                        0 <= i < reaction.waiters@.len() ==> (#[trigger] outcome.delivered@[i]).0
                            == reaction.waiters@[i].1 && was_sent(
                            reaction.waiters@[i].0,
                            outcome.delivered@[i].1,
                        )
                },
            Err(error) => decided(before, event, after, Err(error)),
        },
{
    if let Ok(outcome) = processed {
        let (reaction, sent) = choose|reaction: Reaction, sent: Seq<Result<(), ()>>|
            #![trigger sent_to(reaction.waiters@, sent)]
            {
                &&& decided(before, event, after, Ok(reaction))
                &&& sent_to(reaction.waiters@, sent)
                &&& outcome.delivered@ == deliveries(reaction.waiters@, sent)
                &&& outcome.signal == reaction.signal
                &&& outcome.request == reaction.request
            };
        assert forall|i: int| 0 <= i < reaction.waiters@.len() implies (
        #[trigger] outcome.delivered@[i]).0 == reaction.waiters@[i].1 && was_sent(
            reaction.waiters@[i].0,
            outcome.delivered@[i].1,
        ) by {
            law_every_waiter_is_told(reaction.waiters@, sent, i);
            assert(call_ensures(
                tokio::sync::oneshot::Sender::<()>::send,
                (reaction.waiters@[i].0, ()),
                sent[i],
            ));
        }
        assert(decided(before, event, after, Ok(reaction)));
    }
}

/// What is decided of a message is what is done about the message, and what is decided of a demand
/// is to make its request and to notify nobody.
pub proof fn law_events_are_told_apart(
    before: ClientView,
    stream_event: Option<DeltaDiscoveryResponse>,
    demand_event: Option<DemandEvent>,
    after: ClientView,
    handled: Result<Reaction, AdsError>,
)
    ensures
        decided(before, ConnectionEvent::Message(stream_event), after, handled) ==> streamed(
            before,
            stream_event,
            after,
            handled,
        ),
        decided(before, ConnectionEvent::Demand(demand_event), after, handled) ==> (
        handled matches Ok(reaction) && reaction.signal is Nothing && reaction.waiters@.len() == 0
            && demanded(before, demand_event, after, reaction.request)),
{
}

/// A signal that is written tells which it is.
pub proof fn law_written_signal_tells_which_it_is(signal: XdsSignal, text: String)
    requires
        call_ensures(XdsSignal::to_string, (&signal,), text),
    ensures
        signal is Nothing ==> text@ == "NONE"@,
        signal is Ack ==> text@ == "ACK"@,
        signal is Nack ==> text@ == "NACK"@,
{
}

/// Whoever answers a response with a verdict signals and sends what the verdict says.
pub proof fn law_answers_carry_their_verdict(
    type_url: String,
    nonce: String,
    verdict: Result<(), Vec<RejectedConfig>>,
    answered: (XdsSignal, DeltaDiscoveryRequest),
)
    requires
        call_ensures(answer_response, (type_url, nonce, verdict), answered),
    ensures
        answered.0 is Nack <==> verdict is Err,
        answered.0 is Ack <==> verdict is Ok,
        answered.1.error_detail is Some <==> verdict is Err,
        answered.1.type_url@ == type_url@,
        answered.1.response_nonce@ == nonce@,
        verdict matches Err(rejects) ==> answered.1.error_detail->0.message@ == rejection_text(
            rejection_views(rejects@),
        ),
{
    law_verdict_decides_the_answer(type_url@, nonce@, verdict, nonce@);
    law_request_is_all_of_its_fields(answered.1, 0, nonce@);
}

/// The requests that are made for a connection carry, for each watched type in its place, the type,
/// the node and the known resources.
pub proof fn law_made_requests_are_complete(
    client: AdsClient,
    environment: NodeEnvironment,
    requests: Vec<DeltaDiscoveryRequest>,
    i: int,
    name: Seq<char>,
)
    requires
        call_ensures(AdsClient::construct_initial_requests, (&client, &environment), requests),
        0 <= i < client@.config.initial_watches.len(),
    ensures
        requests@.len() == client@.config.initial_watches.len(),
        requests@[i].type_url@ == client@.config.initial_watches[i],
        requests@[i].node matches Some(node) && node@ == environment.node(
            client@.config.proxy_metadata,
        ),
        requests@[i].initial_resource_versions@.contains_key(name) <==> client@.state.known.contains(
            KeyView { type_url: client@.config.initial_watches[i], name },
        ),
        requests@[i].error_detail is None,
        requests@[i].response_nonce@.len() == 0,
{
    law_request_views_keep_their_places(requests@, i);
    law_initial_request_is_complete(client@, environment, i, name);
    law_request_is_all_of_its_fields(requests@[i], i, name);
}

/// A client gives out what asks for resources on demand exactly where it is configured so, and it
/// puts requests into the client's own queue.
pub proof fn law_demander_asks_its_client(client: AdsClient, demander: Option<Demander>)
    requires
        call_ensures(AdsClient::demander, (&client,), demander),
    ensures
        demander is Some <==> client@.config.on_demand,
        demander matches Some(d) ==> d.queue() == client@.state.demand_tx,
{
}

} // verus!
