use dln_e2e_harness::codec::NostrKeys;
use dln_e2e_harness::control::{
    channel_to_close, close_channel_reply, close_channel_request, funding_txid, has_channel_with,
    has_ready_channel_with, list_channels_reply, list_channels_request, open_channel_reply,
    open_channel_request, ControlCall, ControlEvent, ControlPlane,
};
use dln_e2e_harness::events::EventDraft;
use dln_e2e_harness::grants::{control_grant, wallet_grant};
use dln_e2e_harness::outcome::Failure;
use nostr_sdk::{EventBuilder, JsonUtil, Keys, Kind, PublicKey, SecretKey, Tag};
use nwc::nostr::nips::nip04;
use serde_json::Value;

type Call = ControlCall<EventDraft, Value, Failure>;

fn json(text: &str) -> Value {
    serde_json::from_str(text).unwrap()
}

fn failed(chain: &[&str]) -> Failure {
    Failure { chain: chain.iter().map(|s| s.to_string()).collect() }
}

fn keys(k: &NostrKeys) -> Keys {
    Keys::new(SecretKey::from_slice(&k.secret).unwrap())
}

/// A controller's line to a service.
fn line() -> (NostrKeys, NostrKeys, ControlPlane) {
    let service = NostrKeys::generate();
    let controller = NostrKeys::generate();
    let plane =
        ControlPlane { secret: controller.secret.clone(), service: service.public.clone() };
    (service, controller, plane)
}

/// What `author` writes to `reader`, as the JSON of an event.
fn event(author: &NostrKeys, reader: &NostrKeys, kind: u16, plain: &str) -> String {
    let reader = PublicKey::from_hex(&reader.public).unwrap();
    let author = keys(author);
    let content = nip04::encrypt(author.secret_key(), &reader, plain).unwrap();
    EventBuilder::new(Kind::Custom(kind), content)
        .tag(Tag::public_key(reader))
        .sign_with_keys(&author)
        .unwrap()
        .as_json()
}

fn listening(plane: &ControlPlane) -> Call {
    Call::send_ncc_request(plane, &list_channels_request())
        .step(plane, ControlEvent::Published(Ok(())))
}

fn ended(call: Call) -> Result<Value, Failure> {
    match call {
        ControlCall::Done(r) => r,
        _ => panic!("the call is not done"),
    }
}

#[test]
fn generated_keys_belong_together() {
    let a = NostrKeys::generate();
    assert_eq!(a.secret.len(), 32);
    assert_eq!(keys(&a).public_key().to_hex(), a.public);
    assert_eq!(keys(&a).secret_key().to_secret_hex(), a.secret_hex());
    assert_ne!(a.public, NostrKeys::generate().public);
}

#[test]
fn a_request_is_encrypted_for_the_service() {
    let (service, controller, plane) = line();
    let payload = open_channel_request("02ab", "127.0.0.1:9735", 2_000_000, Some(500_000));
    let draft = match Call::send_ncc_request(&plane, &payload) {
        ControlCall::Publish(draft) => draft,
        _ => panic!("nothing to publish"),
    };
    assert_eq!(draft.kind, 23198);
    assert_eq!(draft.tags, vec![vec!["p".to_string(), service.public.clone()]]);
    assert_ne!(draft.content, payload.to_string());
    let peer = PublicKey::from_hex(&controller.public).unwrap();
    let plain = nip04::decrypt(keys(&service).secret_key(), &peer, &draft.content).unwrap();
    assert_eq!(json(&plain), payload);
}

#[test]
fn keys_that_encrypt_nothing_fail_at_once() {
    let plane = ControlPlane { secret: vec![1; 32], service: "ff".repeat(32) };
    let failure = ended(Call::send_ncc_request(&plane, &list_channels_request())).err().unwrap();
    assert_eq!(failure.chain.len(), 1);
    let plane = ControlPlane { secret: vec![0; 32], service: NostrKeys::generate().public };
    assert!(ended(Call::send_ncc_request(&plane, &list_channels_request())).is_err());
}

#[test]
fn the_service_answers() {
    let (service, controller, plane) = line();
    let reply = event(&service, &controller, 23199, r#"{"result":{"channels":[]}}"#);
    let call = listening(&plane).step(&plane, ControlEvent::Heard(reply));
    assert_eq!(ended(call).ok().unwrap(), json(r#"{"result":{"channels":[]}}"#));
}

#[test]
fn nobody_else_answers() {
    let (service, controller, plane) = line();
    let stranger = NostrKeys::generate();
    let call = listening(&plane)
        .step(&plane, ControlEvent::Heard(event(&stranger, &controller, 23199, "{}")))
        .step(&plane, ControlEvent::Heard(event(&service, &controller, 23195, "{}")))
        .step(&plane, ControlEvent::Heard("no event".to_string()));
    assert!(matches!(call, ControlCall::Listen));
    let reply = event(&service, &controller, 23199, "5");
    assert_eq!(ended(call.step(&plane, ControlEvent::Heard(reply))).ok().unwrap(), json("5"));
}

#[test]
fn calls_fail_with_their_own_words() {
    let (service, controller, plane) = line();
    let call = Call::send_ncc_request(&plane, &list_channels_request())
        .step(&plane, ControlEvent::Published(Err("relay down".to_string())));
    assert_eq!(ended(call).err().unwrap().chain, vec!["relay down"]);
    let call = listening(&plane).step(&plane, ControlEvent::TimedOut("elapsed".to_string()));
    assert_eq!(
        ended(call).err().unwrap().chain,
        vec!["timeout waiting for NCC response", "elapsed"]
    );
    let call = listening(&plane).step(&plane, ControlEvent::Ended);
    assert_eq!(
        ended(call).err().unwrap().chain,
        vec!["notification stream ended before NCC response"]
    );
    let garbled = event(&service, &controller, 23199, "not json");
    let call = listening(&plane).step(&plane, ControlEvent::Heard(garbled));
    assert_eq!(ended(call).err().unwrap().chain.len(), 1);
    let to_other = event(&service, &NostrKeys::generate(), 23199, "{}");
    let call = listening(&plane).step(&plane, ControlEvent::Heard(to_other));
    assert!(ended(call).is_err());
}

#[test]
fn requests_say_what_they_ask_for() {
    assert_eq!(
        open_channel_request("02ab", "h:1", 2_000_000, Some(500_000)),
        json(r#"{"method":"open_channel","params":{"pubkey":"02ab","host":"h:1","amount":2000000,"push_amount":500000}}"#)
    );
    assert_eq!(
        open_channel_request("02ab", "h:1", 7, None),
        json(r#"{"method":"open_channel","params":{"pubkey":"02ab","host":"h:1","amount":7}}"#)
    );
    assert_eq!(list_channels_request(), json(r#"{"method":"list_channels","params":{}}"#));
    assert_eq!(
        close_channel_request("c1", true),
        json(r#"{"method":"close_channel","params":{"id":"c1","force":true}}"#)
    );
}

#[test]
fn replies_that_report_errors_are_failures() {
    assert!(open_channel_reply(Ok(json("{}"))).is_ok());
    assert!(close_channel_reply(Ok(json(r#"{"error":null}"#))).is_ok());
    assert_eq!(
        open_channel_reply(Ok(json(r#"{"error":{"code":"X"}}"#))).err().unwrap().chain,
        vec![r#"open_channel error: {"code":"X"}"#]
    );
    assert_eq!(
        close_channel_reply(Err(failed(&["a", "b"]))).err().unwrap().chain,
        vec!["NCC close_channel failed", "a", "b"]
    );
    assert_eq!(
        list_channels_reply(Ok(json(r#"{"error":"no"}"#))).err().unwrap().chain,
        vec![r#"list_channels error: "no""#]
    );
    assert_eq!(
        list_channels_reply(Err(failed(&["a"]))).err().unwrap().chain,
        vec!["NCC list_channels failed", "a"]
    );
}

fn listed(text: &str) -> Result<Vec<Value>, Failure> {
    list_channels_reply(Ok(json(text)))
}

#[test]
fn channels_are_found_by_peer_and_state() {
    let channels = listed(
        r#"{"result":{"channels":[{"peer_pubkey":"aa","state":"pending"},
            {"peer_pubkey":"bb","state":"active"}]}}"#,
    );
    assert_eq!(channels.as_ref().ok().unwrap().len(), 2);
    assert!(has_channel_with(&channels, "aa"));
    assert!(!has_ready_channel_with(&channels, "aa"));
    assert!(has_channel_with(&channels, "bb"));
    assert!(has_ready_channel_with(&channels, "bb"));
    assert!(!has_channel_with(&channels, "cc"));
    let failed: Result<Vec<Value>, Failure> = Err(failed(&["x"]));
    assert!(!has_channel_with(&failed, "aa"));
    assert!(!has_ready_channel_with(&failed, "bb"));
    assert_eq!(listed("{}").ok().unwrap().len(), 0);
    assert_eq!(listed(r#"{"result":{"channels":5}}"#).ok().unwrap().len(), 0);
}

#[test]
fn the_first_channel_with_a_peer_gives_the_funding() {
    let list = |text: &str| listed(text).ok().unwrap();
    let two = list(
        r#"{"result":{"channels":[{"peer_pubkey":"aa"},{"peer_pubkey":"bb","funding_txid":"t1"},
            {"peer_pubkey":"bb","funding_txid":"t2"}]}}"#,
    );
    assert_eq!(funding_txid(&two, "bb"), Ok("t1".to_string()));
    assert_eq!(funding_txid(&two, "aa").unwrap_err(), "BTK channel has no funding_txid");
    assert_eq!(funding_txid(&two, "cc").unwrap_err(), "no BTK channel");
}

#[test]
fn the_first_channel_is_closed() {
    let list = |text: &str| listed(text).ok().unwrap();
    let two = list(r#"{"result":{"channels":[{"id":"c1"},{"id":"c2"}]}}"#);
    assert_eq!(channel_to_close(&two), Ok("c1".to_string()));
    assert_eq!(channel_to_close(&list("{}")).unwrap_err(), "no channels to close");
    assert_eq!(
        channel_to_close(&list(r#"{"result":{"channels":[{}]}}"#)).unwrap_err(),
        "channel id missing from list_channels response"
    );
}

#[test]
fn grants_name_the_service_and_the_grantee() {
    let grant = control_grant("aa", "bb");
    assert_eq!(grant.kind, 30078);
    assert_eq!(grant.tags, vec![vec!["d", "aa:bb"], vec!["p", "aa"]]);
    assert_eq!(
        grant.content,
        r#"{"control":{"close_channel":{"access_rate":null},"list_channels":{"access_rate":null},"open_channel":{"access_rate":null}}}"#
    );
    let grant = wallet_grant("aa", "cc");
    assert_eq!(grant.tags, vec![vec!["d", "aa:cc"], vec!["p", "aa"]]);
    assert_eq!(
        json(&grant.content),
        json(
            r#"{"methods":{"get_info":{"access_rate":null},"pay_invoice":{"access_rate":null},
                "get_balance":{"access_rate":null},"make_new_address":{"access_rate":null}}}"#
        )
    );
}

#[test]
fn a_control_request_waits_ten_seconds() {
    let service = NostrKeys::generate();
    let plane = ControlPlane { secret: NostrKeys::generate().secret, service: service.public };
    let call = ControlCall::send_ncc_request(&plane, &list_channels_request());
    assert!(call.listens_for().is_none());
    let call = call.step(&plane, ControlEvent::Published(Ok(())));
    assert_eq!(call.listens_for(), Some(10));
    let call = call.step(&plane, ControlEvent::Ended);
    assert!(call.listens_for().is_none());
}
