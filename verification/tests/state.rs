use tokio::sync::{mpsc, oneshot};
use xds_client::handler::notify_waiters;
use xds_client::message::{DeltaDiscoveryResponse, Resource};
use xds_client::resource::ResourceKey;
use xds_client::state::State;

const TYPE: &str = "type/address";

fn new_state() -> State {
    let (tx, rx) = mpsc::channel(100);
    State::new(tx, rx)
}

fn key(name: &str) -> ResourceKey {
    ResourceKey { name: name.to_string(), type_url: TYPE.to_string() }
}

fn response(type_url: &str, added: &[&str], removed: &[&str]) -> DeltaDiscoveryResponse {
    DeltaDiscoveryResponse {
        system_version_info: "1.0.0".to_string(),
        resources: added
            .iter()
            .map(|name| Resource {
                name: name.to_string(),
                aliases: vec![],
                version: "0.0.1".to_string(),
                resource: None,
            })
            .collect(),
        type_url: type_url.to_string(),
        removed_resources: removed.iter().map(|name| name.to_string()).collect(),
        nonce: "nonce".to_string(),
    }
}

fn known(state: &State, type_url: &str) -> Vec<String> {
    let mut names = state.known_names(&type_url.to_string());
    names.sort();
    names
}

#[test]
fn responses_add_and_remove() {
    let mut state = new_state();
    let (removed, waiters) = state.handle_response(&response(TYPE, &["a", "b", "c", "a"], &[]));
    assert!(removed.is_empty());
    assert!(waiters.is_empty());
    assert_eq!(known(&state, TYPE), vec!["a", "b", "c"]);
    let (removed, _) = state.handle_response(&response(TYPE, &["d"], &["b", "x"]));
    assert_eq!(removed, vec!["b", "x"]);
    assert_eq!(known(&state, TYPE), vec!["a", "c", "d"]);
}

#[test]
fn brought_goes_before_removed() {
    let mut state = new_state();
    state.handle_response(&response(TYPE, &["a"], &["a"]));
    assert_eq!(known(&state, TYPE), vec!["a"]);
}

#[test]
fn other_types_are_left_alone() {
    let mut state = new_state();
    state.handle_response(&response(TYPE, &["a"], &[]));
    state.handle_response(&response("other", &["a", "b"], &[]));
    state.handle_response(&response("other", &[], &["a"]));
    assert_eq!(known(&state, TYPE), vec!["a"]);
    assert_eq!(known(&state, "other"), vec!["b"]);
    assert!(known(&state, "third").is_empty());
}

#[test]
fn removed_name_does_not_forget_a_type() {
    let mut state = new_state();
    state.handle_response(&response(TYPE, &["a"], &[]));
    state.handle_response(&response("other", &[], &[TYPE]));
    assert_eq!(known(&state, TYPE), vec!["a"]);
}

#[test]
fn demand_waits_for_its_resource() {
    let mut state = new_state();
    let (tx, mut rx) = oneshot::channel::<()>();
    state.handle_demand(key("a"), tx);
    assert_eq!(known(&state, TYPE), vec!["a"]);
    let (_, waiters) = state.handle_response(&response(TYPE, &["b"], &["c"]));
    assert!(waiters.is_empty());
    let (_, waiters) = state.handle_response(&response("other", &["a"], &["a"]));
    assert!(waiters.is_empty());
    let (_, waiters) = state.handle_response(&response(TYPE, &["a", "a"], &[]));
    assert_eq!(waiters.len(), 1);
    assert_eq!(rx.try_recv(), Err(oneshot::error::TryRecvError::Empty));
    assert_eq!(notify_waiters(waiters), vec![(key("a"), true)]);
    assert_eq!(rx.try_recv(), Ok(()));
    let (_, waiters) = state.handle_response(&response(TYPE, &["a"], &[]));
    assert!(waiters.is_empty());
}

#[test]
fn removal_answers_a_demand() {
    let mut state = new_state();
    let (tx, mut rx) = oneshot::channel::<()>();
    state.handle_demand(key("a"), tx);
    let (removed, waiters) = state.handle_removes(&response(TYPE, &["a"], &["a"]));
    assert_eq!(removed, vec!["a"]);
    assert_eq!(notify_waiters(waiters), vec![(key("a"), true)]);
    assert_eq!(rx.try_recv(), Ok(()));
    assert!(known(&state, TYPE).is_empty());
}

#[test]
fn waiters_come_in_the_order_of_the_response() {
    let mut state = new_state();
    let mut receivers = Vec::new();
    for name in ["a", "b", "c", "b"] {
        let (tx, rx) = oneshot::channel::<()>();
        state.handle_demand(key(name), tx);
        receivers.push(rx);
    }
    let (_, waiters) = state.handle_response(&response(TYPE, &["b", "c"], &["c", "c"]));
    assert_eq!(
        notify_waiters(waiters),
        vec![(key("c"), true), (key("b"), true), (key("b"), true)]
    );
    assert_eq!(receivers[0].try_recv(), Err(oneshot::error::TryRecvError::Empty));
    for receiver in &mut receivers[1..] {
        assert_eq!(receiver.try_recv(), Ok(()));
    }
}

#[test]
fn all_who_ask_for_a_resource_are_notified() {
    let mut state = new_state();
    let (first, mut first_rx) = oneshot::channel::<()>();
    let (second, mut second_rx) = oneshot::channel::<()>();
    state.handle_demand(key("a"), first);
    state.handle_demand(key("a"), second);
    let (_, waiters) = state.handle_response(&response(TYPE, &["b"], &[]));
    assert!(waiters.is_empty());
    assert_eq!(first_rx.try_recv(), Err(oneshot::error::TryRecvError::Empty));
    assert_eq!(second_rx.try_recv(), Err(oneshot::error::TryRecvError::Empty));
    let (_, waiters) = state.handle_response(&response(TYPE, &["a"], &["a"]));
    assert_eq!(notify_waiters(waiters), vec![(key("a"), true), (key("a"), true)]);
    assert_eq!(first_rx.try_recv(), Ok(()));
    assert_eq!(second_rx.try_recv(), Ok(()));
}

#[test]
fn waiters_are_taken_in_the_order_of_asking() {
    let mut state = new_state();
    let (first, mut first_rx) = oneshot::channel::<()>();
    let (second, mut second_rx) = oneshot::channel::<()>();
    state.handle_demand(key("a"), first);
    state.handle_demand(key("a"), second);
    assert!(state.notify_on_demand(&key("b")).is_empty());
    let mut waiters = state.notify_on_demand(&key("a")).into_iter();
    waiters.next().unwrap().send(()).unwrap();
    assert_eq!(first_rx.try_recv(), Ok(()));
    assert_eq!(second_rx.try_recv(), Err(oneshot::error::TryRecvError::Empty));
    waiters.next().unwrap().send(()).unwrap();
    assert_eq!(second_rx.try_recv(), Ok(()));
    assert!(waiters.next().is_none());
    assert!(state.notify_on_demand(&key("a")).is_empty());
}

#[test]
fn dropped_receivers_are_told_apart() {
    let (kept, kept_rx) = oneshot::channel::<()>();
    let (lost, lost_rx) = oneshot::channel::<()>();
    drop(lost_rx);
    assert_eq!(
        notify_waiters(vec![(lost, key("lost")), (kept, key("kept"))]),
        vec![(key("lost"), false), (key("kept"), true)]
    );
    drop(kept_rx);
    assert!(notify_waiters(vec![]).is_empty());
}

#[test]
fn resources_are_noted_one_by_one() {
    let mut state = new_state();
    state.add_resource(TYPE.to_string(), "a".to_string());
    state.add_resource(TYPE.to_string(), "a".to_string());
    state.add_resource("other".to_string(), "a".to_string());
    assert_eq!(known(&state, TYPE), vec!["a"]);
    assert!(state.handle_resources(&response(TYPE, &["b"], &["a"])).is_empty());
    assert_eq!(known(&state, TYPE), vec!["a", "b"]);
}

#[test]
fn demand_queue_joins_its_two_ends() {
    let mut state = new_state();
    let (tx, _rx) = oneshot::channel::<()>();
    state.demand_sender().try_send((tx, key("a"))).unwrap();
    let (_, asked) = state.demand_queue().try_recv().unwrap();
    assert_eq!(asked, key("a"));
}
