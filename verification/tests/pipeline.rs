use warpgen::errors::{MalformedResponseError, TransportError, WarpError};
use warpgen::payload::{build_registration_payload, escape_json_string, registration_url};
use warpgen::response::{parse_registration_response, RegistrationResult};
use warpgen::timestamp::{format_timestamp, Timestamp};
use warpgen::warp::WarpConfig;

fn sample_config() -> WarpConfig {
    WarpConfig::new(
        "PRIVATEKEY=".to_string(),
        "PUBLICKEY=".to_string(),
        "10.0.0.2/32".to_string(),
        "fd00::2/128".to_string(),
        "PEERKEY=".to_string(),
        "engage.cloudflareclient.com:2408".to_string(),
    )
}

#[test]
fn render_matches_exact_template() {
    let config = sample_config();
    let rendered = config.format_config().unwrap();
    let expected = "[Interface]\n\
                    PrivateKey = PRIVATEKEY=\n\
                    Address = 10.0.0.2/32, fd00::2/128\n\
                    DNS = 1.1.1.1, 2606:4700:4700::1111, 1.0.0.1, 2606:4700:4700::1001\n\
                    \n\
                    [Peer]\n\
                    PublicKey = PEERKEY=\n\
                    AllowedIPs = 0.0.0.0/0, ::/0\n\
                    Endpoint = engage.cloudflareclient.com:2408\n";
    assert_eq!(rendered, expected);
}

#[test]
fn render_changes_only_substituted_values() {
    let first = sample_config().format_config().unwrap();
    let second = WarpConfig::new(
        "PRIVATEKEY=".to_string(),
        "PUBLICKEY=".to_string(),
        "10.9.9.9/32".to_string(),
        "fd00::9/128".to_string(),
        "OTHERPEER=".to_string(),
        "203.0.113.1:2408".to_string(),
    )
    .format_config()
    .unwrap();
    let expected_second = "[Interface]\n\
                           PrivateKey = PRIVATEKEY=\n\
                           Address = 10.9.9.9/32, fd00::9/128\n\
                           DNS = 1.1.1.1, 2606:4700:4700::1111, 1.0.0.1, 2606:4700:4700::1001\n\
                           \n\
                           [Peer]\n\
                           PublicKey = OTHERPEER=\n\
                           AllowedIPs = 0.0.0.0/0, ::/0\n\
                           Endpoint = 203.0.113.1:2408\n";
    assert_ne!(first, second);
    assert_eq!(second, expected_second);
}

#[test]
fn parse_full_response_extracts_all_fields() {
    let body = "{\"result\":{\"config\":{\"interface\":{\"addresses\":{\"v4\":\"10.0.0.2\",\"v6\":\"fd00::2\"}},\"peers\":[{\"public_key\":\"PEERKEY==\",\"endpoint\":{\"host\":\"162.159.192.1:2408\"}}]}}}";
    let parsed = parse_registration_response(body).unwrap();
    assert_eq!(
        parsed,
        RegistrationResult {
            address_v4: "10.0.0.2".to_string(),
            address_v6: "fd00::2".to_string(),
            peer_public_key: "PEERKEY==".to_string(),
            peer_endpoint: "162.159.192.1:2408".to_string(),
        }
    );
}

#[test]
fn parse_ignores_peers_after_the_first() {
    let body = "{\"result\":{\"config\":{\"interface\":{\"addresses\":{\"v4\":\"10.0.0.2\",\"v6\":\"fd00::2\"}},\"peers\":[{\"public_key\":\"FIRST=\",\"endpoint\":{\"host\":\"first:1\"}},{\"public_key\":\"SECOND=\",\"endpoint\":{\"host\":\"second:2\"}}]}}}";
    let parsed = parse_registration_response(body).unwrap();
    assert_eq!(parsed.peer_public_key, "FIRST=");
    assert_eq!(parsed.peer_endpoint, "first:1");
}

#[test]
fn parse_empty_peers_fails_with_no_peers() {
    let body = "{\"result\":{\"config\":{\"interface\":{\"addresses\":{\"v4\":\"10.0.0.2\",\"v6\":\"fd00::2\"}},\"peers\":[]}}}";
    assert_eq!(
        parse_registration_response(body),
        Err(MalformedResponseError::NoPeers)
    );
}

#[test]
fn parse_invalid_json_fails() {
    assert_eq!(
        parse_registration_response("this is { not json"),
        Err(MalformedResponseError::InvalidJson)
    );
    assert_eq!(
        parse_registration_response(""),
        Err(MalformedResponseError::InvalidJson)
    );
}

#[test]
fn parse_missing_fields_fails() {
    // no v6
    let body = "{\"result\":{\"config\":{\"interface\":{\"addresses\":{\"v4\":\"10.0.0.2\"}},\"peers\":[{\"public_key\":\"K=\",\"endpoint\":{\"host\":\"h:1\"}}]}}}";
    assert_eq!(
        parse_registration_response(body),
        Err(MalformedResponseError::MissingField)
    );
    // v4 has the wrong type
    let body = "{\"result\":{\"config\":{\"interface\":{\"addresses\":{\"v4\":7,\"v6\":\"fd00::2\"}},\"peers\":[{\"public_key\":\"K=\",\"endpoint\":{\"host\":\"h:1\"}}]}}}";
    assert_eq!(
        parse_registration_response(body),
        Err(MalformedResponseError::MissingField)
    );
    // peers is not an array
    let body = "{\"result\":{\"config\":{\"interface\":{\"addresses\":{\"v4\":\"10.0.0.2\",\"v6\":\"fd00::2\"}},\"peers\":7}}}";
    assert_eq!(
        parse_registration_response(body),
        Err(MalformedResponseError::MissingField)
    );
    // first peer has no endpoint host
    let body = "{\"result\":{\"config\":{\"interface\":{\"addresses\":{\"v4\":\"10.0.0.2\",\"v6\":\"fd00::2\"}},\"peers\":[{\"public_key\":\"K=\",\"endpoint\":{}}]}}}";
    assert_eq!(
        parse_registration_response(body),
        Err(MalformedResponseError::MissingField)
    );
    // result envelope absent
    let body = "{\"config\":{}}";
    assert_eq!(
        parse_registration_response(body),
        Err(MalformedResponseError::MissingField)
    );
}

#[test]
fn parse_keeps_last_of_duplicate_keys() {
    // serde_json's object keeps the last value under a repeated key; the
    // parsed tree then carries each key once.
    let body = "{\"result\":{\"config\":{\"interface\":{\"addresses\":{\"v4\":\"1.1.1.1\",\"v4\":\"2.2.2.2\",\"v6\":\"fd00::2\"}},\"peers\":[{\"public_key\":\"K=\",\"endpoint\":{\"host\":\"h:1\"}}]}}}";
    let parsed = parse_registration_response(body).unwrap();
    assert_eq!(parsed.address_v4, "2.2.2.2");
}

#[test]
fn generated_public_key_rederives_from_private_key() {
    let mut config = WarpConfig::default();
    config.generate_keys();
    let private: wireguard_keys::Privkey = config.private_key.parse().unwrap();
    let rederived = private.pubkey();
    assert_eq!(rederived.to_base64(), config.public_key);
    // the stored public key itself decodes as a key
    let decoded = wireguard_keys::Pubkey::from_base64(&config.public_key).unwrap();
    assert_eq!(decoded.to_base64(), config.public_key);
}

#[test]
fn consecutive_requests_use_fresh_keypairs() {
    let mut first = WarpConfig::default();
    first.generate_keys();
    let mut second = WarpConfig::default();
    second.generate_keys();
    assert_ne!(first.private_key, second.private_key);
}

#[test]
fn timestamp_formats_with_zero_milliseconds() {
    let ts = Timestamp::new(2023, 1, 2, 3, 4, 5).unwrap();
    assert_eq!(format_timestamp(&ts), "2023-01-02T03:04:05.000Z");
    let ts = Timestamp::new(9999, 12, 31, 23, 59, 59).unwrap();
    assert_eq!(format_timestamp(&ts), "9999-12-31T23:59:59.000Z");
}

#[test]
fn timestamp_rejects_out_of_range_fields() {
    assert!(Timestamp::new(10000, 1, 1, 0, 0, 0).is_none());
    assert!(Timestamp::new(-1, 1, 1, 0, 0, 0).is_none());
    assert!(Timestamp::new(2023, 0, 1, 0, 0, 0).is_none());
    assert!(Timestamp::new(2023, 13, 1, 0, 0, 0).is_none());
    assert!(Timestamp::new(2023, 1, 32, 0, 0, 0).is_none());
    assert!(Timestamp::new(2023, 1, 1, 24, 0, 0).is_none());
    assert!(Timestamp::new(2023, 1, 1, 0, 60, 0).is_none());
    assert!(Timestamp::new(2023, 1, 1, 0, 0, 60).is_none());
    assert!(Timestamp::new(0, 1, 1, 0, 0, 0).is_some());
}

#[test]
fn payload_has_exact_shape() {
    let ts = Timestamp::new(2023, 6, 7, 8, 9, 10).unwrap();
    let payload = build_registration_payload("KEY+abc/0123=", &ts);
    assert_eq!(
        payload,
        "{\"install_id\":\"\",\"tos\":\"2023-06-07T08:09:10.000Z\",\"key\":\"KEY+abc/0123=\",\"fcm_token\":\"\",\"type\":\"ios\",\"locale\":\"en_US\"}"
    );
    // the payload is itself JSON that decodes back to the same key
    let value: serde_json::Value = serde_json::from_str(&payload).unwrap();
    assert_eq!(value.get("key").unwrap().as_str().unwrap(), "KEY+abc/0123=");
    assert_eq!(value.get("type").unwrap().as_str().unwrap(), "ios");
    assert_eq!(value.get("locale").unwrap().as_str().unwrap(), "en_US");
    assert_eq!(value.get("install_id").unwrap().as_str().unwrap(), "");
    assert_eq!(value.get("fcm_token").unwrap().as_str().unwrap(), "");
    assert_eq!(
        value.get("tos").unwrap().as_str().unwrap(),
        "2023-06-07T08:09:10.000Z"
    );
}

#[test]
fn escaping_handles_quotes_backslashes_and_controls() {
    assert_eq!(escape_json_string("plain"), "plain");
    assert_eq!(escape_json_string("a\"b"), "a\\\"b");
    assert_eq!(escape_json_string("a\\b"), "a\\\\b");
    assert_eq!(escape_json_string("a\nb"), "a\\u000ab");
    assert_eq!(escape_json_string(""), "");
    // a string with every escape class round-trips through serde_json
    let tricky = "q\"b\\n\nend\u{1}";
    let literal = format!("\"{}\"", escape_json_string(tricky));
    let back: serde_json::Value = serde_json::from_str(&literal).unwrap();
    assert_eq!(back.as_str().unwrap(), tricky);
}

#[test]
fn transport_failure_aborts_pipeline_with_transport_error() {
    let mut config = WarpConfig::default();
    config.generate_keys();
    let key_before = config.private_key.clone();
    let outcome = Err(TransportError {
        message: "connection refused".to_string(),
    });
    let result = config.complete_registration(outcome);
    match result {
        Err(WarpError::Transport(e)) => assert_eq!(e.message, "connection refused"),
        _ => panic!("expected a transport error"),
    }
    assert_eq!(config.private_key, key_before);
    assert_eq!(config.address_v4, "");
}

#[test]
fn malformed_body_aborts_pipeline_without_config() {
    let mut config = WarpConfig::default();
    config.generate_keys();
    let result = config.complete_registration(Ok("{\"result\":{}}".to_string()));
    assert_eq!(
        result,
        Err(WarpError::MalformedResponse(
            MalformedResponseError::MissingField
        ))
    );
    assert_eq!(config.address_v4, "");
    let result = config.complete_registration(Ok("no json".to_string()));
    assert_eq!(
        result,
        Err(WarpError::MalformedResponse(
            MalformedResponseError::InvalidJson
        ))
    );
}

#[test]
fn pipeline_renders_mocked_registration_response() {
    let body = "{\"result\":{\"config\":{\"interface\":{\"addresses\":{\"v4\":\"10.0.0.2\",\"v6\":\"fd00::2\"}},\"peers\":[{\"public_key\":\"PEERKEY==\",\"endpoint\":{\"host\":\"162.159.192.1:2408\"}}]}}}";
    let mut config = WarpConfig::default();
    let now = Timestamp::new(2023, 1, 1, 0, 0, 0).unwrap();
    let payload = config.prepare_registration(&now);
    assert!(payload.contains(&config.public_key));
    let rendered = config.complete_registration(Ok(body.to_string())).unwrap();
    assert!(rendered.starts_with("[Interface]\n"));
    assert!(rendered.contains(&format!("PrivateKey = {}\n", config.private_key)));
    assert!(rendered.contains("Address = 10.0.0.2, fd00::2\n"));
    assert!(rendered.contains("\n[Peer]\n"));
    assert!(rendered.contains("PublicKey = PEERKEY==\n"));
    assert!(rendered.contains("Endpoint = 162.159.192.1:2408\n"));
    assert!(rendered.ends_with("\n"));
}

#[test]
fn error_messages_name_each_failure() {
    assert_eq!(
        MalformedResponseError::NoPeers.message(),
        "no peers found in configuration"
    );
    assert_eq!(
        MalformedResponseError::InvalidJson.message(),
        "response body is not valid JSON"
    );
    assert_eq!(
        MalformedResponseError::MissingField.message(),
        "required field missing from response"
    );
    assert_eq!(
        WarpError::Transport(TransportError {
            message: "dns failure".to_string()
        })
        .message(),
        "dns failure"
    );
    assert_eq!(
        WarpError::MalformedResponse(MalformedResponseError::NoPeers).message(),
        "no peers found in configuration"
    );
    assert_eq!(WarpError::KeyGeneration.message(), "key generation failed");
    assert_eq!(WarpError::Render.message(), "rendering failed");
}

#[test]
fn current_time_is_well_formed() {
    let now = warpgen::timestamp::current_timestamp().unwrap();
    assert!(now.is_wf());
    assert!(now.year >= 2023);
    let rendered = format_timestamp(&now);
    assert_eq!(rendered.len(), 24);
    assert!(rendered.ends_with(".000Z"));
}

#[test]
fn registration_url_is_fixed() {
    assert_eq!(
        registration_url(),
        "https://api.cloudflareclient.com/v0i1909051800/reg"
    );
}
