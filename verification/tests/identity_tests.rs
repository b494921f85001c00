use rs_api::identity::resolve_identity;

#[test]
fn forwarded_header_takes_first_entry() {
    let id = resolve_identity(Some("203.0.113.5, 10.0.0.1"), Some("198.51.100.9"));
    assert_eq!(id, "203.0.113.5");
}

#[test]
fn no_header_falls_back_to_peer_address() {
    let id = resolve_identity(None, Some("198.51.100.9"));
    assert_eq!(id, "198.51.100.9");
}

#[test]
fn neither_header_nor_peer_gives_unknown() {
    let id = resolve_identity(None, None);
    assert_eq!(id, "unknown");
}

#[test]
fn forwarded_entry_is_trimmed() {
    let id = resolve_identity(Some("  203.0.113.5\t , 10.0.0.1, 172.16.0.3"), None);
    assert_eq!(id, "203.0.113.5");
}

#[test]
fn single_entry_header_is_used_whole() {
    let id = resolve_identity(Some("192.0.2.44"), Some("198.51.100.9"));
    assert_eq!(id, "192.0.2.44");
}

#[test]
fn empty_header_resolves_to_empty_identity() {
    let id = resolve_identity(Some(""), Some("198.51.100.9"));
    assert_eq!(id, "");
}

#[test]
fn all_whitespace_first_entry_resolves_empty() {
    let id = resolve_identity(Some("   ,10.0.0.1"), Some("198.51.100.9"));
    assert_eq!(id, "");
}

#[test]
fn header_beats_peer_even_when_peer_present() {
    let id = resolve_identity(Some("10.9.8.7"), Some("198.51.100.9"));
    assert_eq!(id, "10.9.8.7");
}
