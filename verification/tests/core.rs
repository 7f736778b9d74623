use mkpclient::discovery_folder::{strip_service_suffix, DiscoveryFolder, SERVER_TTL_MS};
use mkpclient::drivers::{CredEvent, DiscoveryEvent};
use mkpclient::ingest::{ingest_credentials, ingest_discovery};
use mkpclient::state::credentials::{Credentials, PairingEntry};
use mkpclient::persist::{SavedView, SavedViewKey, SearchHistoryItem, SEARCH_HISTORY_LIMIT};
use mkpclient::persist_store::{parse_stored_line, push_search_history_items, sanitise, strip_local_suffix};
use mkpclient::runtime::{next_timeout_ms, IDLE_TIMEOUT_MS};
use mkpclient::state::discovery::{Discovery, ServerAd};
use mkpclient::text::{nonempty, to_lowercase, trim_text};
use mkpclient::tls::{
    base64_encode, cert_fingerprint, cert_pem_to_der, check_pinned, der_to_cert_pem, try_cert_pem_to_der,
    try_key_pem_to_der,
};

#[test]
fn base64_matches_the_standard_vectors() {
    assert_eq!(base64_encode(b""), "");
    assert_eq!(base64_encode(b"f"), "Zg==");
    assert_eq!(base64_encode(b"fo"), "Zm8=");
    assert_eq!(base64_encode(b"foo"), "Zm9v");
    assert_eq!(base64_encode(b"foob"), "Zm9vYg==");
    assert_eq!(base64_encode(b"fooba"), "Zm9vYmE=");
    assert_eq!(base64_encode(b"foobar"), "Zm9vYmFy");
    assert_eq!(base64_encode(&[0xff, 0xfe, 0x3e]), "//4+");
}

#[test]
fn base64_length_is_four_per_started_triple() {
    for n in 0..20usize {
        let data: Vec<u8> = (0..n).map(|i| i as u8).collect();
        assert_eq!(base64_encode(&data).len(), 4 * ((n + 2) / 3));
    }
}

#[test]
fn pem_framing_wraps_the_body_at_sixty_four_columns() {
    let der: Vec<u8> = (0..100u8).collect();
    let pem = der_to_cert_pem(&der);
    let lines: Vec<&str> = pem.lines().collect();
    assert_eq!(lines[0], "-----BEGIN CERTIFICATE-----");
    assert_eq!(*lines.last().unwrap(), "-----END CERTIFICATE-----");
    assert_eq!(lines[1].len(), 64);
    assert_eq!(lines[2].len(), 64);
    assert_eq!(lines[3].len(), 136 - 128);
    assert_eq!(lines.len(), 5);
    assert!(pem.ends_with("-----END CERTIFICATE-----\n"));
}

#[test]
fn pem_round_trips_through_the_parser() {
    let der: Vec<u8> = (0..200u16).map(|i| (i * 7) as u8).collect();
    let pem = der_to_cert_pem(&der);
    assert_eq!(try_cert_pem_to_der(&pem), Some(der.clone()));
    assert_eq!(cert_pem_to_der(&pem), der);
}

#[test]
fn text_without_a_certificate_gives_none() {
    assert_eq!(try_cert_pem_to_der("no pem here"), None);
    assert_eq!(try_key_pem_to_der("no pem here"), None);
}

#[test]
fn fingerprint_is_lowercase_hex_of_sha256() {
    assert_eq!(
        cert_fingerprint(b"abc"),
        "ba7816bf8f01cfea414140de5dae2223b00361a396177a9cb410ff61f20015ad"
    );
    assert_eq!(cert_fingerprint(b"").len(), 64);
}

#[test]
fn pinned_check_accepts_the_same_certificate_only() {
    assert_eq!(check_pinned(b"abc", b"abc"), Ok(()));
    let err = check_pinned(b"abc", b"").unwrap_err();
    assert_eq!(
        err,
        format!(
            "Server cert mismatch: expected {}, got {}",
            cert_fingerprint(b"abc"),
            cert_fingerprint(b"")
        )
    );
}

#[test]
fn sanitise_makes_one_safe_segment() {
    assert_eq!(sanitise("living-room"), "living-room");
    assert_eq!(sanitise("a/b\\c"), "a_b_c");
    assert_eq!(sanitise("..hidden"), "hidden");
    assert_eq!(sanitise("../etc"), "_etc");
    assert_eq!(sanitise("nul\0byte"), "nul_byte");
    assert_eq!(sanitise("..."), "");
}

#[test]
fn stored_lines_are_trimmed_and_empty_ones_ignored() {
    assert_eq!(parse_stored_line("  study \n"), Some("study".to_string()));
    assert_eq!(parse_stored_line(" \n\t"), None);
    assert_eq!(parse_stored_line(""), None);
}

fn item(query: &str, ts: i64) -> SearchHistoryItem {
    SearchHistoryItem { query: query.to_string(), search_type: "songs".to_string(), ts }
}

#[test]
fn history_push_puts_newest_first_and_drops_the_repeat() {
    let items = vec![item("a", 1), item("b", 2), item("c", 3)];
    let out = push_search_history_items(&items, item("b", 9));
    let qs: Vec<(&str, i64)> = out.iter().map(|i| (i.query.as_str(), i.ts)).collect();
    assert_eq!(qs, vec![("b", 9), ("a", 1), ("c", 3)]);
}

#[test]
fn history_push_keeps_the_newest_ten() {
    let items: Vec<SearchHistoryItem> = (0..SEARCH_HISTORY_LIMIT as u64).map(|i| item(&format!("q{i}"), i as i64)).collect();
    let out = push_search_history_items(&items, item("new", 99));
    assert_eq!(out.len(), SEARCH_HISTORY_LIMIT);
    assert_eq!(out[0].query, "new");
    assert_eq!(out[SEARCH_HISTORY_LIMIT - 1].query, format!("q{}", SEARCH_HISTORY_LIMIT - 2));
}

#[test]
fn same_query_of_another_kind_is_a_separate_entry() {
    let items = vec![SearchHistoryItem { query: "x".to_string(), search_type: "albums".to_string(), ts: 1 }];
    let out = push_search_history_items(&items, item("x", 2));
    assert_eq!(out.len(), 2);
}

#[test]
fn service_suffix_is_stripped_for_display() {
    assert_eq!(strip_service_suffix("Study._mkplay._tcp.local"), "Study");
    assert_eq!(strip_service_suffix("Study"), "Study");
    assert_eq!(strip_service_suffix("._mkplay._tcp.local"), "");
}

fn server(name: &str, port: u16) -> ServerAd {
    ServerAd { name: name.to_string(), host: format!("{name}.local"), ip: 0x7f00_0001, port }
}

#[test]
fn folder_adds_refreshes_and_ignores_repeats() {
    let mut f = DiscoveryFolder::new();
    assert!(matches!(f.observe(server("foo", 4242), 0), Some(DiscoveryEvent::Added(a)) if a.name == "foo"));
    assert!(f.observe(server("foo", 4242), 10).is_none());
    assert!(matches!(f.observe(server("foo", 4243), 20), Some(DiscoveryEvent::Refreshed(a)) if a.port == 4243));
}

#[test]
fn folder_expires_servers_unseen_past_the_ttl() {
    let mut f = DiscoveryFolder::new();
    f.observe(server("old", 1), 0);
    f.observe(server("new", 2), 10_000);
    assert_eq!(f.next_expiry(), Some(SERVER_TTL_MS));
    assert!(f.sweep(SERVER_TTL_MS).is_empty());
    let removed = f.sweep(SERVER_TTL_MS + 1);
    assert_eq!(removed.len(), 1);
    assert!(matches!(&removed[0], DiscoveryEvent::Removed { name } if name == "old"));
    assert_eq!(f.next_expiry(), Some(10_000 + SERVER_TTL_MS));
}

#[test]
fn sleep_runs_to_the_deadline_or_the_idle_timeout() {
    assert_eq!(next_timeout_ms(Some(150), 100), 50);
    assert_eq!(next_timeout_ms(Some(50), 100), 0);
    assert_eq!(next_timeout_ms(None, 100), IDLE_TIMEOUT_MS);
}

#[test]
fn text_helpers() {
    assert_eq!(nonempty(String::new()), None);
    assert_eq!(nonempty("x".to_string()), Some("x".to_string()));
    assert_eq!(trim_text("  a b "), "a b");
    assert_eq!(to_lowercase("AbC"), "abc");
}

#[test]
fn saved_view_key_drops_the_cursor() {
    let a = SavedView::Playlist {
        playlist_id: "p1".to_string(),
        selected: 3,
        offset: 1,
        selected_id: "s".to_string(),
    };
    let b = SavedView::Playlist { playlist_id: "p1".to_string(), selected: 9, offset: 0, selected_id: String::new() };
    assert!(a.key().same(&b.key()));
    let c = SavedView::Playlist { playlist_id: "p2".to_string(), selected: 3, offset: 1, selected_id: "s".to_string() };
    assert!(!a.key().same(&c.key()));
    assert!(matches!(a.key(), SavedViewKey::Playlist { playlist_id } if playlist_id == "p1"));
}

#[test]
fn stored_hosts_drop_the_local_suffix() {
    assert_eq!(strip_local_suffix("study.local"), "study");
    assert_eq!(strip_local_suffix("study"), "study");
    assert_eq!(strip_local_suffix(".local"), "");
    assert_eq!(strip_local_suffix("local"), "local");
}

fn pairing(fp: &str) -> PairingEntry {
    PairingEntry {
        fingerprint: fp.to_string(),
        host: "den.local".to_string(),
        server_cert_pem: String::new(),
        client_cert_pem: String::new(),
        client_key_pem: String::new(),
    }
}

#[test]
fn forgetting_a_saved_pairing_removes_only_it() {
    let mut c = Credentials::new();
    ingest_credentials(&mut c, CredEvent::Saved(pairing("aa")));
    ingest_credentials(&mut c, CredEvent::Saved(pairing("bb")));
    ingest_credentials(&mut c, CredEvent::Saved(pairing("aa")));
    assert_eq!(c.entries.len(), 2);
    ingest_credentials(&mut c, CredEvent::Deleted { fingerprint: "aa".to_string() });
    assert!(!c.contains(&"aa".to_string()));
    assert!(c.contains(&"bb".to_string()));
    assert!(!c.loaded);
}

#[test]
fn a_removed_server_is_no_longer_listed() {
    let ad = |name: &str, ip: u32| ServerAd { name: name.to_string(), host: format!("{name}.local"), ip, port: 7 };
    let mut d = Discovery::new();
    ingest_discovery(&mut d, DiscoveryEvent::Added(ad("den", 1)));
    ingest_discovery(&mut d, DiscoveryEvent::Added(ad("loft", 2)));
    ingest_discovery(&mut d, DiscoveryEvent::Refreshed(ad("den", 3)));
    assert_eq!(d.servers.len(), 2);
    assert_eq!(d.servers[0].ip, 3);
    ingest_discovery(&mut d, DiscoveryEvent::Removed { name: "den".to_string() });
    let names: Vec<&str> = d.servers.iter().map(|s| s.name.as_str()).collect();
    assert_eq!(names, vec!["loft"]);
}

#[test]
fn trimming_drops_unicode_white_space_at_both_ends_only() {
    assert_eq!(trim_text("\u{3000}\u{a0} a\u{2003}b \t\r\n\u{85}"), "a\u{2003}b");
    assert_eq!(trim_text(" \u{2028} "), "");
    assert_eq!(trim_text("x"), "x");
}

#[test]
fn discovery_admits_ipv4_services_with_a_port() {
    use_admission();
}

fn use_admission() {
    let e = mkpclient::discovery_folder::admitted_endpoint(Some(0x0a00_0001), 7).unwrap();
    assert_eq!((e.ip, e.port), (0x0a00_0001, 7));
    assert!(mkpclient::discovery_folder::admitted_endpoint(Some(0x0a00_0001), 0).is_none());
    assert!(mkpclient::discovery_folder::admitted_endpoint(None, 7).is_none());
    assert_eq!(mkpclient::discovery_folder::query_netmask(0x7f00_0001), 0xff00_0000);
    assert_eq!(mkpclient::discovery_folder::query_netmask(0xc0a8_0105), 0xffff_ff00);
}
