use gotify_stream::router::{decode_frame, select_event};
use serde_json::Value;

fn json(text: &str) -> Value {
    serde_json::from_str(text).unwrap()
}

#[test]
fn an_envelope_forwards_exactly_its_first_message() {
    let event = decode_frame("{\"messages\":[{\"title\":\"A\"}, {\"title\":\"B\"}]}").unwrap();
    assert_eq!(event, json("{\"title\":\"A\"}"));
}

#[test]
fn a_bare_event_is_forwarded_unchanged() {
    let event = decode_frame("{\"title\":\"C\"}").unwrap();
    assert_eq!(event, json("{\"title\":\"C\"}"));
}

#[test]
fn an_unparsable_frame_yields_no_event() {
    assert!(decode_frame("not json").is_none());
    assert!(decode_frame("{\"title\":").is_none());
    assert!(decode_frame("").is_none());
}

#[test]
fn an_empty_message_list_falls_back_to_the_envelope() {
    let event = decode_frame("{\"messages\":[]}").unwrap();
    assert_eq!(event, json("{\"messages\":[]}"));
}

#[test]
fn a_non_list_messages_field_falls_back_to_the_envelope() {
    let event = decode_frame("{\"messages\":5}").unwrap();
    assert_eq!(event, json("{\"messages\":5}"));
}

#[test]
fn a_non_object_payload_is_forwarded_unchanged() {
    let event = decode_frame("[1,2,3]").unwrap();
    assert_eq!(event, json("[1,2,3]"));
}

#[test]
fn select_event_takes_the_first_candidate() {
    let whole = json("{\"messages\":[1,2]}");
    let picked = select_event(whole, Some(vec![json("1"), json("2")]));
    assert_eq!(picked, json("1"));
}

#[test]
fn select_event_falls_back_without_candidates() {
    let whole = json("{\"title\":\"x\"}");
    assert_eq!(select_event(whole.clone(), Some(vec![])), whole);
    assert_eq!(select_event(whole.clone(), None), whole);
}
