use xmip_core_context::property::{
    header, header_folds_case, header_prefix, ALL, HEADER_CASE_FOLDING, HTTP_AUTHORIZATION,
    HTTP_COOKIE, HTTP_FORWARDED, HTTP_X_FORWARDED_FOR, PARTY, PEER_ADDRESS,
};

#[test]
fn no_two_names_are_one() {
    let mut sorted = ALL.to_vec();
    sorted.sort_unstable();
    sorted.dedup();
    assert_eq!(sorted.len(), ALL.len());
}

#[test]
fn a_header_travels_under_its_protocol_and_its_name() {
    assert_eq!(header("http", "Content-Type"), "http.header.content-type");
    assert_eq!(header("AMQP", "x-priority"), "amqp.header.x-priority");
    assert_eq!(header("kafka", "Trace-Id"), "kafka.header.Trace-Id");
    assert_eq!(header_prefix("http"), "http.header.");
    assert!(header("http", "x-api-key").starts_with(&header_prefix("http")));
}

#[test]
fn http_folds_a_header_names_case_and_kafka_keeps_it() {
    assert_eq!(header("http", "Trace-Id"), header("http", "trace-id"));
    assert_eq!(header("HTTP", "Trace-Id"), header("http", "TRACE-ID"));
    assert_ne!(header("kafka", "Trace-Id"), header("kafka", "trace-id"));
    for protocol in ["kafka", "amqp", "nats", "mqtt"] {
        assert!(!header_folds_case(protocol), "{protocol}");
    }
    for (protocol, clause) in HEADER_CASE_FOLDING.iter() {
        assert!(header_folds_case(protocol));
        assert_eq!(*protocol, protocol.to_ascii_lowercase());
        assert!(!clause.is_empty());
    }
}

#[test]
fn the_well_known_http_headers_are_the_builders_names() {
    for (constant, name) in [
        (HTTP_AUTHORIZATION, "Authorization"),
        (HTTP_COOKIE, "Cookie"),
        (HTTP_FORWARDED, "Forwarded"),
        (HTTP_X_FORWARDED_FOR, "X-Forwarded-For"),
    ] {
        assert_eq!(constant, header("http", name));
    }
}

#[test]
fn every_listed_protocol_folds_in_any_case() {
    assert!(header_folds_case("HTTP"));
    assert!(header_folds_case("WebSocket"));
    assert!(header_folds_case("Sip"));
    assert!(header_folds_case("pop3"));
    assert!(!header_folds_case("http2"));
    assert!(!header_folds_case(""));
    assert!(!header_folds_case("htt"));
}

#[test]
fn the_prefix_is_the_protocol_in_lower_case() {
    assert_eq!(header_prefix("SMTP"), "smtp.header.");
    assert_eq!(header_prefix("Kafka"), "kafka.header.");
    assert_eq!(header_prefix(""), ".header.");
}

#[test]
fn only_ascii_letters_fold() {
    assert_eq!(header("MIME", "Ä-Über-X"), "mime.header.Ä-Über-x");
    assert_eq!(header("nats", "Ä-Über-X"), "nats.header.Ä-Über-X");
    assert_eq!(header("sip", ""), "sip.header.");
}

#[test]
fn a_non_folding_protocol_keeps_every_spelling_apart() {
    assert_ne!(header("amqp", "X-Priority"), header("amqp", "x-priority"));
    assert_eq!(header("AMQP", "X-Priority"), header("amqp", "X-Priority"));
}

#[test]
fn names_outside_headers_are_plain() {
    assert_eq!(PEER_ADDRESS, "peer.address");
    assert_eq!(PARTY, "xmip.party");
    assert_eq!(ALL.len(), 24);
}
