use std::collections::BTreeMap;
use std::sync::{Arc, Mutex};

use prost::Message;
use prost_types::value::Kind;
use prost_types::{Struct, Value};
use tokio::sync::oneshot;
use xds_client::client::{
    answer_response, join_rejects, signal_ready, take_ready, AdsClient, ConnectionEvent, XdsSignal,
};
use xds_client::config::{Config, ProxyConfig};
use xds_client::demand::Demander;
use xds_client::handler::{handle_single_resource, notify_waiters, Handler};
use xds_client::message::{Any, DeltaDiscoveryRequest, DeltaDiscoveryResponse, Resource, Status};
use xds_client::node::NodeEnvironment;
use xds_client::resource::{AdsError, RejectedConfig, ResourceKey, XdsUpdate};
use xds_client::retry::{plan_retry, Code, ConnectionEnd, ConnectionTerminationReason};
use xds_client::table::Table;

const ADDRESSES: &str = "type.googleapis.com/istio.workload.Address";
const TEXTS: &str = "type/text";
const NUMBERS: &str = "type/number";

/// Keeps what it is told, and refuses what is named `bad`.
struct Store<T> {
    kept: Arc<Mutex<BTreeMap<String, T>>>,
}

impl<T: Send + Sync + 'static> Handler<T> for Store<T> {
    fn handle(&self, res: Vec<XdsUpdate<T>>) -> Result<(), Vec<RejectedConfig>> {
        let mut kept = self.kept.lock().unwrap();
        handle_single_resource(res, |update| match update {
            XdsUpdate::Update(r) => {
                if r.name == "bad" {
                    Err("no good".to_string())
                } else {
                    kept.insert(r.name, r.resource);
                    Ok(())
                }
            }
            XdsUpdate::Remove(name) => {
                kept.remove(&name);
                Ok(())
            }
        })
    }
}

fn store<T>(kept: &Arc<Mutex<BTreeMap<String, T>>>) -> Store<T> {
    Store { kept: kept.clone() }
}

fn decode<T: Message + Default>(bytes: &[u8]) -> Result<T, prost::DecodeError> {
    T::decode(bytes)
}

fn proxy(on_demand: bool) -> ProxyConfig {
    let mut proxy_metadata: Table<String, String> = Table::new();
    proxy_metadata.insert("CLUSTER_ID".to_string(), "east".to_string());
    ProxyConfig {
        xds_address: Some("https://istiod:15012".to_string()),
        proxy_metadata,
        xds_on_demand: on_demand,
    }
}

struct Fixture {
    client: AdsClient,
    texts: Arc<Mutex<BTreeMap<String, String>>>,
    numbers: Arc<Mutex<BTreeMap<String, u64>>>,
}

fn fixture(on_demand: bool) -> Fixture {
    let texts = Arc::new(Mutex::new(BTreeMap::new()));
    let numbers = Arc::new(Mutex::new(BTreeMap::new()));
    let client = Config::new(proxy(on_demand))
        .with_watched_handler(TEXTS.to_string(), store(&texts), decode)
        .with_handler(NUMBERS.to_string(), store(&numbers), decode)
        .build();
    Fixture { client, texts, numbers }
}

fn environment() -> NodeEnvironment {
    NodeEnvironment {
        instance_ip: None,
        pod_name: Some("pod".to_string()),
        pod_namespace: Some("ns".to_string()),
        node_name: None,
    }
}

fn resource<T: Message>(type_url: &str, name: &str, payload: &T) -> Resource {
    Resource {
        name: name.to_string(),
        aliases: vec![],
        version: "0.0.1".to_string(),
        resource: Some(Any { type_url: type_url.to_string(), value: payload.encode_to_vec() }),
    }
}

fn response(
    type_url: &str,
    nonce: &str,
    resources: Vec<Resource>,
    removed: &[&str],
) -> DeltaDiscoveryResponse {
    DeltaDiscoveryResponse {
        system_version_info: "1.0.0".to_string(),
        resources,
        type_url: type_url.to_string(),
        removed_resources: removed.iter().map(|name| name.to_string()).collect(),
        nonce: nonce.to_string(),
    }
}

fn versions(request: &DeltaDiscoveryRequest) -> Vec<String> {
    let mut names: Vec<String> = Vec::new();
    for (name, version) in request.initial_resource_versions.entries() {
        assert_eq!(version, "");
        names.push(name.clone());
    }
    names.sort();
    names
}

#[test]
fn rejects_are_joined_with_semicolons() {
    let rejects = vec![
        RejectedConfig::new("a".to_string(), "x".to_string()),
        RejectedConfig::new("b".to_string(), "y".to_string()),
        RejectedConfig::new("c".to_string(), "".to_string()),
    ];
    assert_eq!(join_rejects(&rejects), "a: x; b: y; c: ");
    assert_eq!(join_rejects(&vec![]), "");
}

#[test]
fn answers_carry_type_nonce_and_error() {
    let (signal, request) = answer_response("t".to_string(), "n".to_string(), Ok(()));
    assert_eq!(signal, XdsSignal::Ack);
    assert_eq!(request.type_url, "t");
    assert_eq!(request.response_nonce, "n");
    assert!(request.error_detail.is_none());
    assert!(request.node.is_none());
    assert!(request.resource_names_subscribe.is_empty());
    assert!(request.resource_names_unsubscribe.is_empty());
    assert!(request.initial_resource_versions.entries().is_empty());
    let (signal, request) = answer_response(
        "t".to_string(),
        "n".to_string(),
        Err(vec![RejectedConfig::new("a".to_string(), "x".to_string())]),
    );
    assert_eq!(signal, XdsSignal::Nack);
    assert_eq!(request.error_detail, Some(Status { code: 0, message: "a: x".to_string() }));
}

#[test]
fn accepted_response_is_acknowledged() {
    let mut f = fixture(false);
    let reaction = f
        .client
        .handle_stream_event(Some(response(
            TEXTS,
            "n1",
            vec![resource(TEXTS, "a", &"one".to_string())],
            &[],
        )))
        .unwrap();
    assert_eq!(reaction.signal, XdsSignal::Ack);
    assert!(reaction.waiters.is_empty());
    let request = reaction.request.unwrap();
    assert_eq!(request.type_url, TEXTS);
    assert_eq!(request.response_nonce, "n1");
    assert!(request.error_detail.is_none());
    assert_eq!(f.texts.lock().unwrap().get("a"), Some(&"one".to_string()));
    assert!(f.numbers.lock().unwrap().is_empty());
}

#[test]
fn rejected_response_is_answered_and_noted() {
    let mut f = fixture(false);
    let reaction = f
        .client
        .handle_stream_event(Some(response(
            TEXTS,
            "n2",
            vec![
                resource(TEXTS, "bad", &"one".to_string()),
                resource(TEXTS, "good", &"two".to_string()),
            ],
            &[],
        )))
        .unwrap();
    assert_eq!(reaction.signal, XdsSignal::Nack);
    let request = reaction.request.unwrap();
    assert_eq!(request.response_nonce, "n2");
    assert_eq!(
        request.error_detail,
        Some(Status { code: 0, message: "bad: no good".to_string() })
    );
    assert_eq!(f.texts.lock().unwrap().get("good"), Some(&"two".to_string()));
    let requests = f.client.construct_initial_requests(&environment());
    assert_eq!(versions(&requests[0]), vec!["bad", "good"]);
}

#[test]
fn responses_go_to_the_handler_of_their_type() {
    let mut f = fixture(false);
    f.client
        .handle_stream_event(Some(response(
            NUMBERS,
            "n",
            vec![resource(NUMBERS, "a", &7u64)],
            &[],
        )))
        .unwrap();
    assert_eq!(f.numbers.lock().unwrap().get("a"), Some(&7u64));
    assert!(f.texts.lock().unwrap().is_empty());
}

#[test]
fn unknown_type_is_acknowledged_and_forgotten() {
    let mut f = fixture(false);
    let reaction = f
        .client
        .handle_stream_event(Some(response(
            "unknown",
            "n3",
            vec![resource("unknown", "a", &"one".to_string())],
            &[],
        )))
        .unwrap();
    assert_eq!(reaction.signal, XdsSignal::Ack);
    let request = reaction.request.unwrap();
    assert_eq!(request.type_url, "unknown");
    assert_eq!(request.response_nonce, "n3");
    assert!(request.error_detail.is_none());
    assert!(f.texts.lock().unwrap().is_empty());
}

#[test]
fn end_of_the_stream_needs_no_answer() {
    let mut f = fixture(false);
    let reaction = f.client.handle_stream_event(None).unwrap();
    assert_eq!(reaction.signal, XdsSignal::Nothing);
    assert!(reaction.waiters.is_empty());
    assert!(reaction.request.is_none());
}

#[test]
fn payload_that_does_not_decode_has_no_answer() {
    let mut f = fixture(false);
    let mut missing = resource(TEXTS, "a", &"one".to_string());
    missing.resource = None;
    let failed = f.client.handle_stream_event(Some(response(TEXTS, "n", vec![missing], &[])));
    assert!(matches!(failed, Err(AdsError::MissingResource())));
    let requests = f.client.construct_initial_requests(&environment());
    assert!(versions(&requests[0]).is_empty());
}

#[test]
fn connection_begins_with_the_watches() {
    let texts: Arc<Mutex<BTreeMap<String, String>>> = Arc::new(Mutex::new(BTreeMap::new()));
    let numbers: Arc<Mutex<BTreeMap<String, u64>>> = Arc::new(Mutex::new(BTreeMap::new()));
    let client = Config::new(proxy(false))
        .with_watched_handler(NUMBERS.to_string(), store(&numbers), decode)
        .with_handler(TEXTS.to_string(), store(&texts), decode)
        .watch("third".to_string())
        .build();
    assert_eq!(client.config().address(), "https://istiod:15012");
    let requests = client.construct_initial_requests(&environment());
    assert_eq!(requests.len(), 2);
    assert_eq!(requests[0].type_url, NUMBERS);
    assert_eq!(requests[1].type_url, "third");
    for request in &requests {
        let node = request.node.as_ref().unwrap();
        assert_eq!(node.id, "ztunnel~1.1.1.1~pod.ns~ns.svc.cluster.local");
        let metadata = node.metadata.as_ref().unwrap();
        assert_eq!(metadata.get(&"CLUSTER_ID".to_string()), Some(&"east".to_string()));
        assert_eq!(metadata.get(&"NAME".to_string()), Some(&"pod".to_string()));
        assert!(request.resource_names_subscribe.is_empty());
        assert!(request.resource_names_unsubscribe.is_empty());
        assert!(request.response_nonce.is_empty());
        assert!(request.error_detail.is_none());
        assert!(versions(request).is_empty());
    }
    assert!(client.demander().is_none());
}

#[test]
fn on_demand_client_begins_with_nothing() {
    let f = fixture(true);
    let requests = f.client.construct_initial_requests(&environment());
    assert_eq!(requests.len(), 1);
    assert_eq!(requests[0].resource_names_subscribe, vec!["*"]);
    assert_eq!(requests[0].resource_names_unsubscribe, vec!["*"]);
    assert!(f.client.config().on_demand());
}

#[test]
fn later_handler_takes_the_place_of_the_earlier() {
    let first: Arc<Mutex<BTreeMap<String, String>>> = Arc::new(Mutex::new(BTreeMap::new()));
    let second: Arc<Mutex<BTreeMap<String, String>>> = Arc::new(Mutex::new(BTreeMap::new()));
    let mut client = Config::new(proxy(false))
        .with_handler(TEXTS.to_string(), store(&first), decode)
        .with_handler(TEXTS.to_string(), store(&second), decode)
        .build();
    client
        .handle_stream_event(Some(response(
            TEXTS,
            "n",
            vec![resource(TEXTS, "a", &"one".to_string())],
            &[],
        )))
        .unwrap();
    assert!(first.lock().unwrap().is_empty());
    assert_eq!(second.lock().unwrap().len(), 1);
    assert!(client.construct_initial_requests(&environment()).is_empty());
}

#[test]
fn demand_is_queued_subscribed_and_answered() {
    let mut f = fixture(true);
    let demander = f.client.demander().unwrap();
    let (event, demanded) = demander.clone().demand(TEXTS.to_string(), "a".to_string());
    let mut receiver = demanded.into_receiver();
    demander.sender().try_send(event).unwrap();
    let event = f.client.demand_queue().try_recv().unwrap();
    assert_eq!(
        event.1,
        ResourceKey { name: "a".to_string(), type_url: TEXTS.to_string() }
    );
    let reaction = f.client.on_event(ConnectionEvent::Demand(Some(event))).unwrap();
    assert_eq!(reaction.signal, XdsSignal::Nothing);
    assert!(reaction.waiters.is_empty());
    let request = reaction.request.unwrap();
    assert_eq!(request.type_url, TEXTS);
    assert_eq!(request.resource_names_subscribe, vec!["a"]);
    assert!(request.resource_names_unsubscribe.is_empty());
    assert!(request.response_nonce.is_empty());
    assert_eq!(versions(&f.client.construct_initial_requests(&environment())[0]), vec!["a"]);

    let reaction = f
        .client
        .on_event(ConnectionEvent::Message(Some(response(
            TEXTS,
            "n",
            vec![resource(TEXTS, "a", &"one".to_string())],
            &[],
        ))))
        .unwrap();
    assert_eq!(f.texts.lock().unwrap().get("a"), Some(&"one".to_string()));
    assert!(receiver.try_recv().is_err());
    let asked = ResourceKey { name: "a".to_string(), type_url: TEXTS.to_string() };
    assert_eq!(notify_waiters(reaction.waiters), vec![(asked, true)]);
    assert_eq!(receiver.try_recv(), Ok(()));
}

#[test]
fn two_demands_for_one_resource_are_both_answered() {
    let mut f = fixture(true);
    let demander = f.client.demander().unwrap();
    let mut receivers = Vec::new();
    for _ in 0..2 {
        let (event, demanded) = demander.demand(TEXTS.to_string(), "a".to_string());
        receivers.push(demanded.into_receiver());
        let request = f.client.handle_demand_event(Some(event)).unwrap();
        assert_eq!(request.resource_names_subscribe, vec!["a"]);
    }
    for receiver in &mut receivers {
        assert_eq!(receiver.try_recv(), Err(oneshot::error::TryRecvError::Empty));
    }
    let reaction = f
        .client
        .handle_stream_event(Some(response(TEXTS, "n", vec![], &["a"])))
        .unwrap();
    assert_eq!(notify_waiters(reaction.waiters).len(), 2);
    for receiver in &mut receivers {
        assert_eq!(receiver.try_recv(), Ok(()));
    }
}

#[test]
fn closed_demand_queue_is_no_request() {
    let mut f = fixture(true);
    assert!(f.client.handle_demand_event(None).is_none());
    let reaction = f.client.on_event(ConnectionEvent::Demand(None)).unwrap();
    assert_eq!(reaction.signal, XdsSignal::Nothing);
    assert!(reaction.request.is_none());
}

#[test]
fn demand_can_take_a_given_channel() {
    let (tx, rx) = oneshot::channel::<()>();
    let (event, demanded) =
        Demander::demand_with(tx, rx, TEXTS.to_string(), "a".to_string());
    assert_eq!(event.1.to_string(), "type/text/a");
    event.0.send(()).unwrap();
    assert_eq!(demanded.into_receiver().try_recv(), Ok(()));
}

#[test]
fn demand_queue_holds_a_hundred_requests() {
    let f = fixture(true);
    let demander = f.client.demander().unwrap();
    for _ in 0..100 {
        let (event, _) = demander.demand(TEXTS.to_string(), "a".to_string());
        demander.sender().try_send(event).unwrap();
    }
    let (event, _) = demander.demand(TEXTS.to_string(), "a".to_string());
    assert!(demander.sender().try_send(event).is_err());
}

#[test]
fn readiness_is_given_out_once() {
    let (tx, mut rx) = oneshot::channel::<()>();
    let mut left = Some(tx);
    assert!(take_ready(XdsSignal::Nothing, &mut left).is_none());
    assert!(take_ready(XdsSignal::Nack, &mut left).is_none());
    assert!(left.is_some());
    let ready = take_ready(XdsSignal::Ack, &mut left);
    assert!(left.is_none());
    ready.unwrap().send(()).unwrap();
    assert_eq!(rx.try_recv(), Ok(()));
    assert!(take_ready(XdsSignal::Ack, &mut left).is_none());
}

#[test]
fn connections_are_counted() {
    let mut f = fixture(false);
    assert_eq!(f.client.connection_id(), 0);
    assert_eq!(f.client.next_connection(), 1);
    assert_eq!(f.client.next_connection(), 2);
    assert_eq!(f.client.connection_id(), 2);
}

#[test]
fn removed_resource_is_not_repeated() {
    let mut f = fixture(false);
    assert_eq!(f.client.next_connection(), 1);
    let initial = response(
        TEXTS,
        "first",
        vec![
            resource(TEXTS, "1.1.1.1", &"default".to_string()),
            resource(TEXTS, "127.0.0.1", &"local".to_string()),
        ],
        &[],
    );
    let reaction = f.client.on_event(ConnectionEvent::Message(Some(initial))).unwrap();
    assert_eq!(reaction.signal, XdsSignal::Ack);
    assert_eq!(f.texts.lock().unwrap().get("127.0.0.1"), Some(&"local".to_string()));

    let abort = ConnectionEnd::GrpcStatus {
        code: Code::Aborted,
        message: "Aborting for test.".to_string(),
    };
    let plan = plan_retry(10, &abort);
    assert_eq!(plan.reason, ConnectionTerminationReason::Error);
    assert!(plan.wait);
    assert_eq!(plan.backoff_millis, 20);
    assert_eq!(f.texts.lock().unwrap().get("127.0.0.1"), Some(&"local".to_string()));

    assert_eq!(f.client.next_connection(), 2);
    let requests = f.client.construct_initial_requests(&environment());
    assert_eq!(versions(&requests[0]), vec!["1.1.1.1", "127.0.0.1"]);

    let removal = response(TEXTS, "second", vec![], &["127.0.0.1"]);
    let reaction = f.client.on_event(ConnectionEvent::Message(Some(removal))).unwrap();
    assert_eq!(reaction.signal, XdsSignal::Ack);
    assert_eq!(reaction.request.unwrap().response_nonce, "second");
    assert_eq!(f.texts.lock().unwrap().get("127.0.0.1"), None);
    let requests = f.client.construct_initial_requests(&environment());
    assert_eq!(versions(&requests[0]), vec!["1.1.1.1"]);
}

/// Keeps workloads under their addresses.
struct Workloads {
    kept: Arc<Mutex<BTreeMap<String, Struct>>>,
}

impl Handler<Struct> for Workloads {
    fn handle(&self, res: Vec<XdsUpdate<Struct>>) -> Result<(), Vec<RejectedConfig>> {
        let mut kept = self.kept.lock().unwrap();
        handle_single_resource(res, |update| match update {
            XdsUpdate::Update(r) => match text_of(&r.resource, "address") {
                Some(address) => {
                    kept.insert(address, r.resource);
                    Ok(())
                }
                None => Err("no address".to_string()),
            },
            XdsUpdate::Remove(address) => {
                kept.remove(&address);
                Ok(())
            }
        })
    }
}

fn text_of(message: &Struct, field: &str) -> Option<String> {
    match message.fields.get(field)?.kind.as_ref()? {
        Kind::StringValue(text) => Some(text.clone()),
        _ => None,
    }
}

fn workload() -> Struct {
    let mut fields = BTreeMap::new();
    for (field, text) in [
        ("name", "1.1.1.1"),
        ("namespace", "default"),
        ("address", "127.0.0.1"),
        ("trust_domain", "local"),
        ("service_account", "default"),
        ("node", "default"),
    ] {
        fields.insert(
            field.to_string(),
            Value { kind: Some(Kind::StringValue(text.to_string())) },
        );
    }
    fields.insert("native_tunnel".to_string(), Value { kind: Some(Kind::BoolValue(true)) });
    Struct { fields }
}

#[test]
fn test_add_abort_remove() {
    let kept = Arc::new(Mutex::new(BTreeMap::new()));
    let mut client = Config::new(proxy(false))
        .with_watched_handler(ADDRESSES.to_string(), Workloads { kept: kept.clone() }, decode)
        .build();
    let ip = "127.0.0.1";
    assert_eq!(client.next_connection(), 1);
    assert!(versions(&client.construct_initial_requests(&environment())[0]).is_empty());
    let initial =
        response(ADDRESSES, "first", vec![resource(ADDRESSES, "1.1.1.1", &workload())], &[]);
    let outcome = client.process(ConnectionEvent::Message(Some(initial))).unwrap();
    assert_eq!(outcome.signal, XdsSignal::Ack);
    assert!(outcome.delivered.is_empty());
    assert_eq!(outcome.request.unwrap().response_nonce, "first");
    assert_eq!(kept.lock().unwrap().get(ip), Some(&workload()));

    let abort = ConnectionEnd::GrpcStatus {
        code: Code::Aborted,
        message: "Aborting for test.".to_string(),
    };
    let plan = plan_retry(10, &abort);
    assert_eq!(plan.reason, ConnectionTerminationReason::Error);
    assert!(plan.wait);
    assert_eq!(plan.backoff_millis, 20);
    assert_eq!(client.next_connection(), 2);
    let requests = client.construct_initial_requests(&environment());
    assert_eq!(versions(&requests[0]), vec!["1.1.1.1"]);
    assert_eq!(kept.lock().unwrap().get(ip), Some(&workload()));

    let removal = response(ADDRESSES, "second", vec![], &["127.0.0.1"]);
    let outcome = client.process(ConnectionEvent::Message(Some(removal))).unwrap();
    assert_eq!(outcome.signal, XdsSignal::Ack);
    assert_eq!(outcome.request.unwrap().response_nonce, "second");
    assert_eq!(kept.lock().unwrap().get(ip), None);
}

#[test]
fn processing_notifies_whoever_waits() {
    let mut f = fixture(true);
    let demander = f.client.demander().unwrap();
    let mut receivers = Vec::new();
    for name in ["a", "a", "b"] {
        let (event, demanded) = demander.demand(TEXTS.to_string(), name.to_string());
        receivers.push(demanded.into_receiver());
        let outcome = f.client.process(ConnectionEvent::Demand(Some(event))).unwrap();
        assert_eq!(outcome.signal, XdsSignal::Nothing);
        assert!(outcome.delivered.is_empty());
        assert_eq!(outcome.request.unwrap().resource_names_subscribe, vec![name]);
    }
    drop(receivers.remove(1));
    let message = response(TEXTS, "n", vec![resource(TEXTS, "a", &"one".to_string())], &[]);
    let outcome = f.client.process(ConnectionEvent::Message(Some(message))).unwrap();
    let asked = ResourceKey { name: "a".to_string(), type_url: TEXTS.to_string() };
    assert_eq!(outcome.delivered, vec![(asked.clone(), true), (asked, false)]);
    assert_eq!(receivers[0].try_recv(), Ok(()));
    assert_eq!(receivers[1].try_recv(), Err(oneshot::error::TryRecvError::Empty));
    let mut missing = resource(TEXTS, "b", &"one".to_string());
    missing.resource = None;
    let failed = f
        .client
        .process(ConnectionEvent::Message(Some(response(TEXTS, "n", vec![missing], &[]))));
    assert!(matches!(failed, Err(AdsError::MissingResource())));
    assert_eq!(receivers[1].try_recv(), Err(oneshot::error::TryRecvError::Empty));
}

#[test]
fn readiness_is_told_at_the_first_acceptance() {
    let (tx, mut rx) = oneshot::channel::<()>();
    let mut left = Some(tx);
    assert_eq!(signal_ready(XdsSignal::Nack, &mut left), None);
    assert_eq!(rx.try_recv(), Err(oneshot::error::TryRecvError::Empty));
    assert_eq!(signal_ready(XdsSignal::Ack, &mut left), Some(Ok(())));
    assert_eq!(rx.try_recv(), Ok(()));
    assert_eq!(signal_ready(XdsSignal::Ack, &mut left), None);
    let (tx, rx) = oneshot::channel::<()>();
    drop(rx);
    assert_eq!(signal_ready(XdsSignal::Ack, &mut Some(tx)), Some(Err(())));
}
