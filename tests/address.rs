use local_lambdas::address::{
    derive_address, get_http_address_from_name, get_http_port_from_name,
    get_pipe_address_from_name,
};
use local_lambdas::entities::CommunicationMode;

#[test]
fn test_http_port_generation_deterministic() {
    let port1 = get_http_port_from_name("test_pipe");
    let port2 = get_http_port_from_name("test_pipe");
    assert_eq!(port1, port2, "Port generation should be deterministic");
}

#[test]
fn test_http_port_in_range() {
    let port = get_http_port_from_name("test_pipe");
    assert!(port >= 9000 && port < 10000, "Port should be in range 9000-9999");
}

#[test]
fn test_different_names_different_ports() {
    let port1 = get_http_port_from_name("pipe_a");
    let port2 = get_http_port_from_name("pipe_b");
    assert_ne!(port1, port2, "Different pipe names should likely produce different ports");
}

#[test]
fn test_http_address_format() {
    let addr = get_http_address_from_name("test");
    assert!(addr.starts_with("127.0.0.1:"));
    let port_str = addr.split(':').nth(1).unwrap();
    let port: u16 = port_str.parse().unwrap();
    assert!(port >= 9000 && port < 10000, "Port should be in 9000-9999 range");
}

fn reference_hash(name: &str) -> u32 {
    let mut acc: u32 = 0;
    for b in name.bytes() {
        acc = acc.wrapping_mul(31).wrapping_add(b as u32);
    }
    acc
}

#[test]
fn port_exact_values() {
    // "a" hashes to 97; "ab" to 97 * 31 + 98 = 3105.
    assert_eq!(get_http_port_from_name("a"), 9097);
    assert_eq!(get_http_port_from_name("ab"), 9105);
    assert_eq!(get_http_port_from_name(""), 9000);
    let long = "a_rather_long_endpoint_name_that_overflows_32_bits";
    assert_eq!(get_http_port_from_name(long) as u32, 9000 + reference_hash(long) % 1000);
}

#[test]
fn http_address_exact() {
    assert_eq!(get_http_address_from_name("a"), "127.0.0.1:9097");
    assert_eq!(get_http_address_from_name(""), "127.0.0.1:9000");
}

#[test]
fn pipe_address_exact() {
    assert_eq!(get_pipe_address_from_name("svc"), "/tmp/svc");
}

#[test]
fn derive_address_by_mode_is_deterministic() {
    let a = derive_address("worker", CommunicationMode::Pipe);
    let b = derive_address("worker", CommunicationMode::Pipe);
    assert_eq!(a, b);
    assert_eq!(a, "/tmp/worker");
    let h1 = derive_address("worker", CommunicationMode::Http);
    let h2 = derive_address("worker", CommunicationMode::Http);
    assert_eq!(h1, h2);
    assert_eq!(h1, get_http_address_from_name("worker"));
}
