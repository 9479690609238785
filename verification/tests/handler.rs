use std::sync::{Arc, Mutex};

use prost::Message;
use tokio::sync::{mpsc, oneshot};
use xds_client::handler::{
    collect_rejects, decode_all, decode_proto, handle_single_resource, make_updates, BoxedHandler,
    Handler, HandlerWrapper, RawHandler,
};
use xds_client::message::{Any, DeltaDiscoveryResponse, Resource};
use xds_client::resource::{AdsError, RejectedConfig, ResourceKey, XdsResource, XdsUpdate};
use xds_client::state::State;

const TYPE: &str = "type/text";

struct Recorder {
    seen: Arc<Mutex<Vec<XdsUpdate<String>>>>,
    refuse: Option<String>,
}

impl Handler<String> for Recorder {
    fn handle(&self, res: Vec<XdsUpdate<String>>) -> Result<(), Vec<RejectedConfig>> {
        let mut seen = self.seen.lock().unwrap();
        handle_single_resource(res, |update| {
            let refused = Some(update.name()) == self.refuse;
            seen.push(update);
            if refused {
                Err("refused".to_string())
            } else {
                Ok(())
            }
        })
    }
}

fn decode_text(bytes: &[u8]) -> Result<String, prost::DecodeError> {
    String::decode(bytes)
}

fn resource(name: &str, payload: Option<&str>) -> Resource {
    Resource {
        name: name.to_string(),
        aliases: vec![],
        version: "0.0.1".to_string(),
        resource: payload.map(|text| Any {
            type_url: TYPE.to_string(),
            value: text.to_string().encode_to_vec(),
        }),
    }
}

fn broken(name: &str) -> Resource {
    Resource {
        name: name.to_string(),
        aliases: vec![],
        version: "0.0.1".to_string(),
        resource: Some(Any { type_url: TYPE.to_string(), value: vec![0x0a, 0x05, 0x61] }),
    }
}

fn response(resources: Vec<Resource>, removed: Vec<String>) -> DeltaDiscoveryResponse {
    DeltaDiscoveryResponse {
        system_version_info: "1.0.0".to_string(),
        resources,
        type_url: TYPE.to_string(),
        removed_resources: removed,
        nonce: "nonce".to_string(),
    }
}

fn new_state() -> State {
    let (tx, rx) = mpsc::channel(100);
    State::new(tx, rx)
}

fn update(name: &str, text: &str) -> XdsUpdate<String> {
    XdsUpdate::Update(XdsResource { name: name.to_string(), resource: text.to_string() })
}

#[test]
fn every_update_is_processed_and_rejects_are_gathered() {
    let updates: Vec<XdsUpdate<u32>> = vec![
        XdsUpdate::Update(XdsResource { name: "a".to_string(), resource: 1 }),
        XdsUpdate::Update(XdsResource { name: "b".to_string(), resource: 2 }),
        XdsUpdate::Remove("c".to_string()),
        XdsUpdate::Update(XdsResource { name: "d".to_string(), resource: 4 }),
    ];
    let mut order: Vec<String> = Vec::new();
    let verdict = handle_single_resource(updates, |u| {
        order.push(u.name());
        match u {
            XdsUpdate::Update(r) if r.resource % 2 == 0 => Err(format!("even {}", r.resource)),
            _ => Ok(()),
        }
    });
    assert_eq!(order, vec!["a", "b", "c", "d"]);
    let rejects = verdict.unwrap_err();
    let texts: Vec<String> = rejects.iter().map(|r| r.to_string()).collect();
    assert_eq!(texts, vec!["b: even 2", "d: even 4"]);
}

#[test]
fn nothing_rejected_is_acceptance() {
    let updates: Vec<XdsUpdate<u32>> = vec![XdsUpdate::Remove("c".to_string())];
    assert!(handle_single_resource(updates, |_| Ok(())).is_ok());
    let none: Vec<XdsUpdate<u32>> = vec![];
    assert!(handle_single_resource(none, |_| Err("never".to_string())).is_ok());
    assert!(collect_rejects(vec![]).is_ok());
    assert!(collect_rejects(vec![("a".to_string(), Ok(()))]).is_ok());
}

#[test]
fn outcomes_keep_their_names_and_order() {
    let verdict = collect_rejects(vec![
        ("a".to_string(), Err("x".to_string())),
        ("b".to_string(), Ok(())),
        ("a".to_string(), Err("y".to_string())),
    ]);
    assert_eq!(
        verdict,
        Err(vec![
            RejectedConfig::new("a".to_string(), "x".to_string()),
            RejectedConfig::new("a".to_string(), "y".to_string()),
        ])
    );
}

#[test]
fn payload_is_decoded() {
    let decoded: XdsResource<String> =
        decode_proto(&resource("a", Some("hello")), &decode_text).unwrap();
    assert_eq!(decoded, XdsResource { name: "a".to_string(), resource: "hello".to_string() });
}

#[test]
fn only_name_and_payload_count() {
    let mut other = resource("a", Some("hello"));
    other.version = "9".to_string();
    other.aliases = vec!["b".to_string()];
    other.resource.as_mut().unwrap().type_url = "type/other".to_string();
    let decoded: XdsResource<String> = decode_proto(&other, &decode_text).unwrap();
    assert_eq!(decoded, XdsResource { name: "a".to_string(), resource: "hello".to_string() });
}

#[test]
fn missing_payload_is_an_error() {
    let failed: Result<XdsResource<String>, AdsError> =
        decode_proto(&resource("a", None), &decode_text);
    assert!(matches!(failed, Err(AdsError::MissingResource())));
}

#[test]
fn broken_payload_is_an_error() {
    let failed: Result<XdsResource<String>, AdsError> = decode_proto(&broken("a"), &decode_text);
    match failed {
        Err(AdsError::Decode(e)) => {
            assert_eq!(e, String::decode(&[0x0a, 0x05, 0x61][..]).unwrap_err())
        }
        _ => panic!("not a decode error"),
    }
}

#[test]
fn first_failure_stops_decoding() {
    let list: Result<Vec<XdsResource<String>>, AdsError> =
        decode_all(&vec![resource("a", Some("x")), resource("b", Some(""))], &decode_text);
    assert_eq!(
        list.unwrap(),
        vec![
            XdsResource { name: "a".to_string(), resource: "x".to_string() },
            XdsResource { name: "b".to_string(), resource: "".to_string() },
        ]
    );
    let failed: Result<Vec<XdsResource<String>>, AdsError> =
        decode_all(&vec![resource("a", Some("x")), resource("b", None), broken("c")], &decode_text);
    assert!(matches!(failed, Err(AdsError::MissingResource())));
}

#[test]
fn updates_come_before_removals() {
    let updates = make_updates(
        vec![XdsResource { name: "a".to_string(), resource: 1 }],
        vec!["b".to_string(), "c".to_string()],
    );
    assert_eq!(
        updates,
        vec![
            XdsUpdate::Update(XdsResource { name: "a".to_string(), resource: 1 }),
            XdsUpdate::Remove("b".to_string()),
            XdsUpdate::Remove("c".to_string()),
        ]
    );
}

#[test]
fn handler_is_told_of_everything() {
    let seen = Arc::new(Mutex::new(Vec::new()));
    let wrapper = HandlerWrapper::new(
        Recorder { seen: seen.clone(), refuse: Some("b".to_string()) },
        decode_text,
    );
    let mut state = new_state();
    let (tx, mut rx) = oneshot::channel::<()>();
    state.handle_demand(
        ResourceKey { name: "gone".to_string(), type_url: TYPE.to_string() },
        tx,
    );
    let handled = wrapper
        .handle(
            &mut state,
            response(
                vec![resource("a", Some("one")), resource("b", Some("two"))],
                vec!["gone".to_string()],
            ),
        )
        .unwrap();
    assert_eq!(
        *seen.lock().unwrap(),
        vec![update("a", "one"), update("b", "two"), XdsUpdate::Remove("gone".to_string())]
    );
    assert_eq!(
        handled.verdict,
        Err(vec![RejectedConfig::new("b".to_string(), "refused".to_string())])
    );
    assert_eq!(handled.waiters.len(), 1);
    assert!(rx.try_recv().is_err());
    let mut names = state.known_names(&TYPE.to_string());
    names.sort();
    assert_eq!(names, vec!["a", "b"]);
}

#[test]
fn failed_decoding_changes_nothing() {
    let seen = Arc::new(Mutex::new(Vec::new()));
    let boxed = BoxedHandler::new(Recorder { seen: seen.clone(), refuse: None }, decode_text);
    let mut state = new_state();
    state.add_resource(TYPE.to_string(), "old".to_string());
    let failed = boxed.handle(
        &mut state,
        response(vec![resource("a", Some("one")), broken("b")], vec!["old".to_string()]),
    );
    assert!(matches!(failed, Err(AdsError::Decode(_))));
    assert!(seen.lock().unwrap().is_empty());
    assert_eq!(state.known_names(&TYPE.to_string()), vec!["old"]);
}
