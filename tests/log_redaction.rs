use eth_alive::redact::{redact_url, INVALID_URL};

#[test]
fn redact_keeps_scheme_and_host() {
    assert_eq!(
        redact_url("https://eth-mainnet.alchemyapi.io/v2/SECRET"),
        "https://eth-mainnet.alchemyapi.io/[REDACTED]"
    );
    assert_eq!(redact_url("http://127.0.0.1:8545"), "http://127.0.0.1/[REDACTED]");
    assert_eq!(redact_url("HTTPS://Node.Example.COM/key?x=1"), "https://node.example.com/[REDACTED]");
}

#[test]
fn redact_rejects_what_is_no_url_with_host() {
    assert_eq!(redact_url("not a url"), INVALID_URL);
    assert_eq!(redact_url(""), "[INVALID URL]");
    assert_eq!(redact_url("mailto:ops@example.com"), "[INVALID URL]");
}
