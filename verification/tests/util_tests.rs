use moveforge::client::{
    fork_url_for, gas_from_simulation, next_poll_action, parse_sequence_number, PollAction,
    MAX_POLL_ATTEMPTS,
};
use moveforge::clock::{DateTime, Utc};
use moveforge::node::LocalNode;
use moveforge::numfmt::{parse_u64, u64_to_dec, u64_to_hex, u64_to_hex_padded};

#[test]
fn test_decimal_rendering() {
    assert_eq!(u64_to_dec(0), "0");
    assert_eq!(u64_to_dec(7), "7");
    assert_eq!(u64_to_dec(42), "42");
    assert_eq!(u64_to_dec(1000000), "1000000");
    assert_eq!(u64_to_dec(u64::MAX), "18446744073709551615");
}

#[test]
fn test_hex_rendering() {
    assert_eq!(u64_to_hex(0), "0");
    assert_eq!(u64_to_hex(10), "a");
    assert_eq!(u64_to_hex(255), "ff");
    assert_eq!(u64_to_hex(0x5208), "5208");
    assert_eq!(u64_to_hex(u64::MAX), "ffffffffffffffff");
}

#[test]
fn test_hex_padded_rendering() {
    let h = u64_to_hex_padded(255, 64);
    assert_eq!(h.len(), 64);
    assert!(h.starts_with(&"0".repeat(62)));
    assert!(h.ends_with("ff"));
    assert_eq!(u64_to_hex_padded(0xdead, 8), "0000dead");
    assert_eq!(u64_to_hex_padded(1, 0), "");
}

#[test]
fn test_parse_u64() {
    assert_eq!(parse_u64("0"), Some(0));
    assert_eq!(parse_u64("21000"), Some(21000));
    assert_eq!(parse_u64("007"), Some(7));
    assert_eq!(parse_u64("18446744073709551615"), Some(u64::MAX));
    assert_eq!(parse_u64("18446744073709551616"), None);
    assert_eq!(parse_u64(""), None);
    assert_eq!(parse_u64("12a"), None);
    assert_eq!(parse_u64("-1"), None);
    assert_eq!(parse_u64(" 1"), None);
}

#[test]
fn test_gas_from_simulation() {
    assert_eq!(gas_from_simulation(Some("21000")), 21000);
    assert_eq!(gas_from_simulation(Some("not a number")), 0);
    assert_eq!(gas_from_simulation(None), 0);
}

#[test]
fn test_parse_sequence_number() {
    assert_eq!(parse_sequence_number(Some("5")), Some(5));
    assert_eq!(parse_sequence_number(Some("abc")), None);
    assert_eq!(parse_sequence_number(None), None);
}

#[test]
fn test_fork_url_for_networks() {
    assert_eq!(
        fork_url_for("testnet"),
        "https://aptos.testnet.porto.movementlabs.xyz/v1"
    );
    assert_eq!(fork_url_for("mainnet"), "https://mainnet.movementnetwork.xyz/v1");
    assert_eq!(fork_url_for("http://localhost:9999"), "http://localhost:9999");
}

#[test]
fn test_poll_policy() {
    assert_eq!(next_poll_action(0), PollAction::Retry);
    assert_eq!(next_poll_action(MAX_POLL_ATTEMPTS - 1), PollAction::Retry);
    assert_eq!(next_poll_action(MAX_POLL_ATTEMPTS), PollAction::GiveUp);
    assert_eq!(next_poll_action(MAX_POLL_ATTEMPTS + 5), PollAction::GiveUp);
}

#[test]
fn test_datetime_renders_seconds() {
    let t = DateTime { secs: 42 };
    assert_eq!(t.to_rfc3339(), "42");
    let t0 = DateTime { secs: 0 };
    assert_eq!(t0.to_rfc3339(), "0");
}

#[test]
fn test_clock_now_renders_digits() {
    let rendered = Utc::now().to_rfc3339();
    assert!(parse_u64(&rendered).is_some());
}

#[test]
fn test_node_creation() {
    let node = LocalNode::new(8545, None, true);
    assert_eq!(node.port, 8545);
    assert!(node.parallel);
    assert!(node.fork_url.is_none());
    assert_eq!(node.get_state().current_block_number(), 0);
}

#[test]
fn test_node_with_fork() {
    let node = LocalNode::new(
        8545,
        Some("https://aptos.testnet.porto.movementlabs.xyz/v1".to_string()),
        true,
    );
    assert_eq!(node.port, 8545);
    assert_eq!(
        node.fork_url.as_deref(),
        Some("https://aptos.testnet.porto.movementlabs.xyz/v1")
    );
    assert_eq!(
        node.state.fork_url.as_deref(),
        Some("https://aptos.testnet.porto.movementlabs.xyz/v1")
    );
}
