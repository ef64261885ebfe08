use notify_relay::decode::decode;
use notify_relay::dispatch::complete_notify;
use notify_relay::dispatch::index_body;
use notify_relay::dispatch::plan_notify;
use notify_relay::dispatch::respond;
use notify_relay::dispatch::NotifierConfig;
use notify_relay::dispatch::SendOutcome;
use notify_relay::json::encode_payload;
use notify_relay::NotifyError;

#[test]
fn index_is_hello_world() {
    assert_eq!(index_body(), "Hello, world!");
}

#[test]
fn decode_reads_the_message_field() {
    let r = decode("{\"message\": \"hi there\"}").unwrap();
    assert_eq!(r.content, "hi there");
}

#[test]
fn decode_ignores_other_fields() {
    let r = decode("{\"level\": 3, \"message\": \"alert\", \"extra\": [1, 2]}").unwrap();
    assert_eq!(r.content, "alert");
}

#[test]
fn decode_twice_agrees() {
    let raw = "{\"message\": \"same\"}";
    let a = decode(raw).unwrap();
    let b = decode(raw).unwrap();
    assert_eq!(a.content, b.content);
}

#[test]
fn decode_rejects_malformed_json() {
    let e = decode("this is not json").unwrap_err();
    let text = e.render();
    assert!(text.starts_with("Could not parse request body: "));
}

#[test]
fn decode_rejects_missing_message() {
    let e = decode("{\"msg\": \"x\"}").unwrap_err();
    assert_eq!(
        e.render(),
        "Could not parse request body: missing field `message`"
    );
}

#[test]
fn decode_rejects_non_string_message() {
    let e = decode("{\"message\": 5}").unwrap_err();
    assert!(e.render().starts_with("Could not parse request body: "));
}

#[test]
fn payload_is_the_plain_envelope() {
    assert_eq!(encode_payload("hello"), "{\"content\":\"hello\"}");
}

#[test]
fn payload_escapes_quotes_and_backslashes() {
    assert_eq!(encode_payload("a\"b\\c"), "{\"content\":\"a\\\"b\\\\c\"}");
}

#[test]
fn payload_escapes_control_characters() {
    assert_eq!(
        encode_payload("a\nb\tc\r\u{0008}\u{000c}\u{0001}\u{001f}"),
        "{\"content\":\"a\\nb\\tc\\r\\b\\f\\u0001\\u001f\"}"
    );
}

#[test]
fn payload_keeps_unicode_as_is() {
    assert_eq!(encode_payload("héλλo ✓"), "{\"content\":\"héλλo ✓\"}");
}

#[test]
fn payload_parses_back_to_the_message() {
    let messages = [
        "plain",
        "",
        "with \"quotes\" and \\slashes\\",
        "line\nbreak and tab\there",
        "control \u{0001} and \u{001f} bytes",
        "ünïcödé ✓ λ",
    ];
    for m in messages {
        let payload = encode_payload(m);
        let v: serde_json::Value = serde_json::from_str(&payload).unwrap();
        let obj = v.as_object().unwrap();
        assert_eq!(obj.len(), 1);
        assert_eq!(obj.get("content").and_then(|c| c.as_str()), Some(m));
    }
}

#[test]
fn plan_sends_the_payload_to_the_configured_url() {
    let config = NotifierConfig {
        webhook_url: Some(String::from("http://example.test/hook")),
    };
    let req = plan_notify("{\"message\": \"ping\"}", &config).unwrap();
    assert_eq!(req.url, "http://example.test/hook");
    assert_eq!(req.body, "{\"content\":\"ping\"}");
}

#[test]
fn plan_escapes_the_message_on_the_way_out() {
    let config = NotifierConfig {
        webhook_url: Some(String::from("http://example.test/hook")),
    };
    let req = plan_notify("{\"message\": \"say \\\"hi\\\"\\n\"}", &config).unwrap();
    assert_eq!(req.body, "{\"content\":\"say \\\"hi\\\"\\n\"}");
}

#[test]
fn plan_without_url_reports_the_fixed_error() {
    let config = NotifierConfig { webhook_url: None };
    let e = plan_notify("{\"message\": \"ping\"}", &config).unwrap_err();
    let body = respond(Err(e));
    assert_eq!(body, "No webhook URL configured and smtp not supported yet");
}

#[test]
fn plan_with_bad_body_never_sends() {
    let config = NotifierConfig {
        webhook_url: Some(String::from("http://example.test/hook")),
    };
    let e = plan_notify("{{", &config).unwrap_err();
    let body = respond(Err(e));
    assert!(body.starts_with("Could not parse request body: "));
}

#[test]
fn delivered_ok_yields_the_exact_success_text() {
    let r = complete_notify(SendOutcome::Delivered(String::from("OK")));
    let body = respond(r);
    assert_eq!(body, "Sent something successfully. Return of webhook: 'OK'");
}

#[test]
fn transport_failure_yields_the_transport_prefix() {
    let r = complete_notify(SendOutcome::TransportFailed(String::from(
        "connection refused",
    )));
    let body = respond(r);
    assert_eq!(body, "Could not notify webhook: connection refused");
    assert!(body.starts_with("Could not notify webhook:"));
}

#[test]
fn unreadable_response_yields_the_text_response_prefix() {
    let r = complete_notify(SendOutcome::BodyUnreadable(String::from("bad bytes")));
    let body = respond(r);
    assert_eq!(body, "Could not notify webhook (text response): bad bytes");
}

#[test]
fn serialization_error_renders_its_fixed_prefix() {
    let e = NotifyError::Serialization(String::from("detail"));
    assert_eq!(
        e.render(),
        "Could not notify webhook (error parsing message to json): detail"
    );
}

#[test]
fn respond_passes_success_through() {
    let body = respond(Ok(String::from("done")));
    assert_eq!(body, "done");
}
