use pubky_ffi::client::{
    classify_host, host_public_key, prepare_host, raw_host, resolved_host, select_engine, Engine,
    HostKind, PubkyHttpClient,
};
use pubky_ffi::error::ErrorKind;
use pubky_ffi::http::{method_from_name, method_or_get, parse_method, Method};
use pubky_ffi::keys::{Keypair, PublicKey};

const Z32: &str = "yg4gxe7z1r7mr6orids9fh95y7gxhdsxjqi6nngsxxtakqaxr5no";

#[test]
fn resolved_host_names_its_key() {
    let key = PublicKey::try_from_z32(Z32).unwrap();
    let host = resolved_host(&key);
    assert_eq!(host, format!("_pubky.{}", Z32));
    assert_eq!(classify_host(&host), HostKind::ResolvedPubky);
    assert_eq!(host_public_key(&host), Some(key));
}

#[test]
fn raw_host_names_its_key() {
    let key = Keypair::random().public_key();
    let host = raw_host(&key);
    assert_eq!(host, key.z32());
    assert_eq!(classify_host(&host), HostKind::Pubky);
    assert_eq!(host_public_key(&host), Some(key));
}

#[test]
fn display_form_never_routes_as_key() {
    let shown = Keypair::random().public_key().to_display_string();
    assert_eq!(classify_host(&shown), HostKind::Icann);
    assert_eq!(classify_host(&format!("_pubky.{}", shown)), HostKind::Icann);
    assert_eq!(host_public_key(&shown), None);
    assert_eq!(host_public_key(&format!("_pubky.{}", shown)), None);
}

#[test]
fn conventional_hosts_name_no_key() {
    for host in ["example.com", "", "localhost", "127.0.0.1"] {
        assert_eq!(classify_host(host), HostKind::Icann);
        assert_eq!(host_public_key(host), None);
        assert_eq!(prepare_host(host).unwrap(), None);
    }
}

#[test]
fn label_fallback_names_no_key() {
    assert_eq!(classify_host("_pubky.invalid"), HostKind::Pubky);
    assert_eq!(host_public_key("_pubky.invalid"), None);
    assert_eq!(prepare_host("_pubky.invalid").unwrap(), Some("invalid".to_string()));
    assert_eq!(prepare_host("_pubky.").unwrap(), Some(String::new()));
}

#[test]
fn prepare_host_refuses_display_form() {
    let shown = format!("pubky{}", Z32);
    for host in [shown.clone(), format!("_pubky.{}", shown)] {
        let e = prepare_host(&host).unwrap_err();
        assert_eq!(e.kind, ErrorKind::Validation);
        assert_eq!(e.code(), 6);
        assert_eq!(e.message, "pubky prefix is not allowed in transport hosts; use raw z32");
    }
}

#[test]
fn prepare_host_answers_raw_key_token() {
    assert_eq!(prepare_host(Z32).unwrap(), Some(Z32.to_string()));
    assert_eq!(prepare_host(&format!("_pubky.{}", Z32)).unwrap(), Some(Z32.to_string()));
}

#[test]
fn prepare_request_reads_the_host_of_a_url() {
    let client = PubkyHttpClient::new(1u8, 2u8);
    let url = format!("https://{}/pub/app/file.txt", Z32);
    assert_eq!(client.prepare_request(&url).unwrap(), Some(Z32.to_string()));
    let resolved = format!("https://_pubky.{}/pub/", Z32);
    assert_eq!(client.prepare_request(&resolved).unwrap(), Some(Z32.to_string()));
    assert_eq!(client.prepare_request("https://example.com/x").unwrap(), None);
    assert_eq!(client.prepare_request("data:text/plain,Stuff").unwrap(), None);
    // behind the reserved label, what is no key is a raw key host by fallback
    assert_eq!(
        client.prepare_request("https://_pubky.invalid/x").unwrap(),
        Some("invalid".to_string())
    );
    let shown = format!("https://pubky{}/pub/", Z32);
    assert_eq!(client.prepare_request(&shown).unwrap_err().kind, ErrorKind::Validation);
    let bad = client.prepare_request("not a url").unwrap_err();
    assert_eq!(bad.kind, ErrorKind::Validation);
    assert_eq!(bad.message, "Invalid URL: relative URL without a base");
}

#[test]
fn request_selects_engine_by_host() {
    let client = PubkyHttpClient::new("pinned", "ca");
    let key_url = format!("https://{}/pub/", Z32);
    let rb = client.request(Method::Put, &key_url);
    assert_eq!(rb.route, Engine::KeyPinned);
    assert_eq!(*rb.engine, "pinned");
    assert_eq!(rb.method, Method::Put);
    assert_eq!(rb.url, key_url);
    let resolved = client.request(Method::Get, &format!("https://_pubky.{}/", Z32));
    assert_eq!(resolved.route, Engine::KeyPinned);
    let web = client.request(Method::Get, "https://example.com/index.html");
    assert_eq!(web.route, Engine::CaVerified);
    assert_eq!(*web.engine, "ca");
    assert_eq!(web.url, "https://example.com/index.html");
    let unreadable = client.request(Method::Get, "::nothing::");
    assert_eq!(unreadable.route, Engine::KeyPinned);
}

#[test]
fn select_engine_by_kind() {
    assert_eq!(select_engine(None), Engine::KeyPinned);
    assert_eq!(select_engine(Some("example.com")), Engine::CaVerified);
    assert_eq!(select_engine(Some(Z32)), Engine::KeyPinned);
    assert_eq!(select_engine(Some("_pubky.invalid")), Engine::KeyPinned);
}

#[test]
fn methods_are_read_in_any_case() {
    assert_eq!(parse_method("get"), Some(Method::Get));
    assert_eq!(parse_method("Post"), Some(Method::Post));
    assert_eq!(parse_method("PUT"), Some(Method::Put));
    assert_eq!(parse_method("delete"), Some(Method::Delete));
    assert_eq!(parse_method("patch"), Some(Method::Patch));
    assert_eq!(parse_method("head"), Some(Method::Head));
    assert_eq!(parse_method("options"), Some(Method::Options));
    assert_eq!(parse_method("trace"), None);
    assert_eq!(parse_method(""), None);
    assert_eq!(method_from_name("get"), None);
    assert_eq!(method_from_name("GET"), Some(Method::Get));
    assert_eq!(method_or_get("trace"), Method::Get);
    assert_eq!(method_or_get("delete"), Method::Delete);
}
