use prost::Message;
use xds_client::client::XdsSignal;
use xds_client::resource::{AdsError, RejectedConfig, ResourceKey, XdsResource, XdsUpdate};

#[test]
fn key_is_written_with_a_slash() {
    let key = ResourceKey { name: "1.1.1.1".to_string(), type_url: "type/address".to_string() };
    assert_eq!(key.to_string(), "type/address/1.1.1.1");
    assert_eq!(key.clone(), key);
}

#[test]
fn rejection_is_written_with_a_colon() {
    let rejected = RejectedConfig::new("foo".to_string(), "bad port".to_string());
    assert_eq!(rejected.to_string(), "foo: bad port");
}

#[test]
fn signals_are_written_in_capitals() {
    assert_eq!(XdsSignal::Nothing.to_string(), "NONE");
    assert_eq!(XdsSignal::Ack.to_string(), "ACK");
    assert_eq!(XdsSignal::Nack.to_string(), "NACK");
}

#[test]
fn update_has_the_name_of_its_resource() {
    let update: XdsUpdate<u32> =
        XdsUpdate::Update(XdsResource { name: "a".to_string(), resource: 7 });
    assert_eq!(update.name(), "a");
    let remove: XdsUpdate<u32> = XdsUpdate::Remove("b".to_string());
    assert_eq!(remove.name(), "b");
}

#[test]
fn errors_are_copied_whole() {
    let decode = String::decode(&[0x0a, 0x05, 0x61][..]).unwrap_err();
    let copy = AdsError::Decode(decode.clone()).clone();
    match copy {
        AdsError::Decode(e) => assert_eq!(e, decode),
        _ => panic!("not a decode error"),
    }
    let mut room = [0u8; 2];
    let encode = "hello".to_string().encode(&mut &mut room[..]).unwrap_err();
    match AdsError::Encode(encode.clone()).clone() {
        AdsError::Encode(e) => assert_eq!(e, encode),
        _ => panic!("not an encode error"),
    }
    match AdsError::UnknownResourceType("t".to_string()).clone() {
        AdsError::UnknownResourceType(t) => assert_eq!(t, "t"),
        _ => panic!("not an unknown type"),
    }
    assert!(matches!(AdsError::MissingResource().clone(), AdsError::MissingResource()));
}

#[test]
fn errors_have_texts() {
    let decode = String::decode(&[0x0a, 0x05, 0x61][..]).unwrap_err();
    let cause = decode.to_string();
    assert!(cause.starts_with("failed to decode Protobuf message: "));
    let error = AdsError::Decode(decode);
    assert_eq!(error.text(&cause), format!("decode: {cause}"));
    assert_eq!(error.to_string(), format!("decode: {cause}"));
    let mut room = [0u8; 2];
    let encode = "hello".to_string().encode(&mut &mut room[..]).unwrap_err();
    let error = AdsError::Encode(encode);
    assert_eq!(error.text("no room"), "encode: no room");
    assert_eq!(
        error.to_string(),
        "encode: failed to encode Protobuf message; insufficient buffer capacity \
         (required: 7, remaining: 2)"
    );
    assert_eq!(AdsError::MissingResource().text(""), "XDS payload without resource");
    assert_eq!(AdsError::MissingResource().to_string(), "XDS payload without resource");
    assert_eq!(
        AdsError::UnknownResourceType("type/x".to_string()).to_string(),
        "unknown resource type: type/x"
    );
}
