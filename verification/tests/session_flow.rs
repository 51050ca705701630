use pubky_ffi::capabilities::Capabilities;
use pubky_ffi::error::{Error, ErrorKind};
use pubky_ffi::http::Method;
use pubky_ffi::keys::{Keypair, PublicKey};
use pubky_ffi::session::{
    PubkySession, PubkySigner, ServerReply, SessionReply, SigninAction, SigninEvent, SigninState,
    Validity,
};
use pubky_ffi::storage::{
    accept_listing, exists_from_status, Address, Entry, PublicStorage, ReadOp, StorageOp,
};
use std::collections::BTreeMap;

fn homeserver() -> PublicKey {
    Keypair::from_secret_key(&[42u8; 32]).public_key()
}

fn granted(text: &str) -> ServerReply {
    ServerReply::Granted { capabilities: text.to_string() }
}

fn session_with(caps: &str) -> PubkySession {
    let signer = PubkySigner::new(Keypair::from_secret_key(&[1u8; 32]));
    let requested = Capabilities::parse("/:rw").unwrap();
    signer.complete(&homeserver(), &requested, granted(caps)).unwrap()
}

#[test]
fn signup_yields_session_within_request() {
    let keypair = Keypair::random();
    let signer = PubkySigner::new(keypair);
    assert_eq!(signer.public_key(), keypair.public_key());
    let requested = Capabilities::parse("/pub/:rw").unwrap();
    let session = signer.complete(&homeserver(), &requested, granted("/pub/app/:rw")).unwrap();
    assert_eq!(session.public_key(), keypair.public_key());
    assert_eq!(session.homeserver(), homeserver());
    assert_eq!(session.capabilities().to_text(), "/pub/app/:rw");
    assert!(session.capabilities().is_within(&requested));
    assert!(!session.is_consumed());
}

#[test]
fn signup_failures_by_category() {
    let signer = PubkySigner::new(Keypair::from_secret_key(&[1u8; 32]));
    let requested = Capabilities::parse("/pub/:r").unwrap();
    let hs = homeserver();
    let beyond = signer.complete(&hs, &requested, granted("/pub/:rw")).unwrap_err();
    assert_eq!(beyond.kind, ErrorKind::Authentication);
    assert_eq!(beyond.message, "homeserver granted capabilities beyond the request");
    let unreadable = signer.complete(&hs, &requested, granted("pub:r")).unwrap_err();
    assert_eq!(unreadable.kind, ErrorKind::Parse);
    assert_eq!(unreadable.message, "invalid capability entry: pub:r");
    let rejected = signer
        .complete(&hs, &requested, ServerReply::Rejected { message: "bad token".to_string() })
        .unwrap_err();
    assert_eq!(rejected.kind, ErrorKind::Authentication);
    assert_eq!(rejected.message, "bad token");
    let failed = signer
        .complete(&hs, &requested, ServerReply::Failed { message: "timeout".to_string() })
        .unwrap_err();
    assert_eq!(failed.kind, ErrorKind::Request);
    assert_eq!(failed.message, "timeout");
    let cancelled = signer.complete(&hs, &requested, ServerReply::Cancelled).unwrap_err();
    assert_eq!(cancelled.kind, ErrorKind::Request);
    assert_eq!(cancelled.message, "cancelled");
}

#[test]
fn signin_walks_resolve_then_ask() {
    let keypair = Keypair::from_secret_key(&[5u8; 32]);
    let signer = PubkySigner::new(keypair);
    let requested = Capabilities::parse("/:rw").unwrap();
    let (state, action) =
        signer.signin_step(false, &requested, SigninState::Start, SigninEvent::Begin);
    assert_eq!(state, SigninState::Resolving);
    assert_eq!(action, SigninAction::Resolve { user: keypair.public_key() });
    let (state, action) = signer.signin_step(
        false,
        &requested,
        state,
        SigninEvent::Resolved { homeserver: Some(homeserver()) },
    );
    assert_eq!(state, SigninState::Asking { homeserver: homeserver() });
    assert_eq!(action, SigninAction::Ask { homeserver: homeserver() });
    let (state, action) = signer.signin_step(
        false,
        &requested,
        state,
        SigninEvent::Replied { reply: granted("/:rw") },
    );
    assert_eq!(action, SigninAction::Stop);
    match &state {
        SigninState::Done { session } => {
            assert_eq!(session.public_key(), keypair.public_key());
            assert_eq!(session.homeserver(), homeserver());
            assert_eq!(session.capabilities().to_text(), "/:rw");
        },
        other => panic!("signin did not end with a session: {:?}", other),
    }
    // a signin that has ended stays as it is
    let (again, action) = signer.signin_step(false, &requested, state, SigninEvent::Cancelled);
    assert!(matches!(again, SigninState::Done { .. }));
    assert_eq!(action, SigninAction::Stop);
}

#[test]
fn signin_of_unpublished_identity_is_not_registered() {
    let signer = PubkySigner::new(Keypair::from_secret_key(&[5u8; 32]));
    let requested = Capabilities::parse("/:rw").unwrap();
    let (state, action) = signer.signin_step(
        false,
        &requested,
        SigninState::Resolving,
        SigninEvent::Resolved { homeserver: None },
    );
    assert_eq!(action, SigninAction::Stop);
    match state {
        SigninState::Failed { error } => {
            assert_eq!(error.kind, ErrorKind::Authentication);
            assert_eq!(error.message, "not registered");
        },
        other => panic!("unexpected state {:?}", other),
    }
}

#[test]
fn blocking_signin_waits_for_the_record() {
    let keypair = Keypair::from_secret_key(&[5u8; 32]);
    let signer = PubkySigner::new(keypair);
    let requested = Capabilities::parse("/:rw").unwrap();
    let asking = SigninState::Asking { homeserver: homeserver() };
    let (state, action) = signer.signin_step(
        true,
        &requested,
        asking,
        SigninEvent::Replied { reply: granted("/pub/:r") },
    );
    assert!(matches!(state, SigninState::Confirming { .. }));
    assert_eq!(action, SigninAction::Resolve { user: keypair.public_key() });
    // the resolver does not know the record yet: ask again
    let (state, action) =
        signer.signin_step(true, &requested, state, SigninEvent::Resolved { homeserver: None });
    assert!(matches!(state, SigninState::Confirming { .. }));
    assert_eq!(action, SigninAction::Resolve { user: keypair.public_key() });
    // the resolver names another homeserver: ask again
    let other = Keypair::from_secret_key(&[43u8; 32]).public_key();
    let (state, _) = signer.signin_step(
        true,
        &requested,
        state,
        SigninEvent::Resolved { homeserver: Some(other) },
    );
    assert!(matches!(state, SigninState::Confirming { .. }));
    let (state, action) = signer.signin_step(
        true,
        &requested,
        state,
        SigninEvent::Resolved { homeserver: Some(homeserver()) },
    );
    assert!(matches!(state, SigninState::Done { .. }));
    assert_eq!(action, SigninAction::Stop);
}

#[test]
fn cancelled_signin_yields_no_session() {
    let signer = PubkySigner::new(Keypair::from_secret_key(&[5u8; 32]));
    let requested = Capabilities::parse("/:rw").unwrap();
    let running = [
        SigninState::Start,
        SigninState::Resolving,
        SigninState::Asking { homeserver: homeserver() },
        SigninState::Confirming { session: session_with("/:rw") },
    ];
    for state in running {
        let (next, action) = signer.signin_step(true, &requested, state, SigninEvent::Cancelled);
        assert_eq!(action, SigninAction::Stop);
        match next {
            SigninState::Failed { error } => {
                assert_eq!(error, Error::new(ErrorKind::Request, "cancelled"))
            },
            other => panic!("cancelled signin went on: {:?}", other),
        }
    }
}

#[test]
fn signin_rejects_an_event_out_of_turn() {
    let signer = PubkySigner::new(Keypair::from_secret_key(&[5u8; 32]));
    let requested = Capabilities::parse("/:rw").unwrap();
    let (next, action) = signer.signin_step(
        false,
        &requested,
        SigninState::Start,
        SigninEvent::Replied { reply: granted("/:rw") },
    );
    assert_eq!(action, SigninAction::Stop);
    match next {
        SigninState::Failed { error } => assert_eq!(error.kind, ErrorKind::Validation),
        other => panic!("unexpected state {:?}", other),
    }
}

#[test]
fn revalidate_tells_invalid_from_failure() {
    let session = session_with("/:rw");
    assert!(session.begin_revalidate().is_ok());
    assert_eq!(session.revalidated(SessionReply::Accepted).unwrap(), Validity::Valid);
    assert_eq!(session.revalidated(SessionReply::Unknown).unwrap(), Validity::Invalid);
    let e = session
        .revalidated(SessionReply::Failed { message: "connection reset".to_string() })
        .unwrap_err();
    assert_eq!(e.kind, ErrorKind::Request);
    assert_eq!(e.message, "connection reset");
    assert_eq!(session.capabilities().to_text(), "/:rw");
}

#[test]
fn signout_consumes_the_handle() {
    let mut session = session_with("/pub/:rw");
    assert!(session.signout().is_ok());
    assert!(session.is_consumed());
    assert!(session.signed_out(SessionReply::Accepted).is_ok());
    assert!(session.signed_out(SessionReply::Unknown).is_ok());
    assert_eq!(
        session.signed_out(SessionReply::Failed { message: "down".to_string() }).unwrap_err().kind,
        ErrorKind::Request
    );
    let message = "session handle was consumed by signout";
    let again = session.signout().unwrap_err();
    assert_eq!(again.kind, ErrorKind::Validation);
    assert_eq!(again.message, message);
    assert_eq!(session.begin_revalidate().unwrap_err().message, message);
    assert_eq!(session.revalidated(SessionReply::Accepted).unwrap_err().message, message);
    assert_eq!(session.storage().unwrap_err().message, message);
    assert_eq!(session.capabilities().to_text(), "/pub/:rw");
}

#[test]
fn storage_checks_capabilities_locally() {
    let session = session_with("/pub/app/:rw,/pub/read/:r");
    let storage = session.storage().unwrap();
    let put = storage.request(StorageOp::Put, "/pub/app/note.txt").unwrap();
    assert_eq!(put.method, Method::Put);
    assert_eq!(put.owner, session.public_key());
    assert_eq!(put.path, "/pub/app/note.txt");
    assert_eq!(put.host, format!("_pubky.{}", session.public_key().z32()));
    assert_eq!(storage.request(StorageOp::Get, "/pub/read/a").unwrap().method, Method::Get);
    assert_eq!(storage.request(StorageOp::Exists, "/pub/read/a").unwrap().method, Method::Head);
    assert_eq!(storage.request(StorageOp::List, "/pub/read/").unwrap().method, Method::Get);
    assert_eq!(storage.request(StorageOp::Delete, "/pub/app/x").unwrap().method, Method::Delete);
    for (op, path) in [
        (StorageOp::Put, "/pub/read/a"),
        (StorageOp::Delete, "/pub/read/a"),
        (StorageOp::Get, "/priv/a"),
        (StorageOp::List, "/pub/"),
    ] {
        let e = storage.request(op, path).unwrap_err();
        assert_eq!(e.kind, ErrorKind::Validation);
        assert_eq!(
            e.message,
            "no capability of the session grants this operation on this path"
        );
    }
    let relative = storage.request(StorageOp::Get, "pub/app/x").unwrap_err();
    assert_eq!(relative.kind, ErrorKind::Validation);
    assert_eq!(relative.message, "path must start with '/'");
    assert_eq!(storage.request(StorageOp::Get, "").unwrap_err().message, "path must start with '/'");
}

#[test]
fn address_forms_are_read_and_written() {
    let key = Keypair::from_secret_key(&[8u8; 32]).public_key();
    let raw = format!("{}/pub/app/note.txt", key.z32());
    let shown = format!("pubky{}/pub/app/note.txt", key.z32());
    for text in [&raw, &shown] {
        let address = Address::parse(text).unwrap();
        assert_eq!(address.owner, key);
        assert_eq!(address.path, "/pub/app/note.txt");
        assert_eq!(address.to_display_string(), shown);
        assert_eq!(
            address.to_transport_url(),
            format!("https://_pubky.{}/pub/app/note.txt", key.z32())
        );
    }
    assert_eq!(Address::parse(&key.z32()).unwrap_err().kind, ErrorKind::Validation);
    assert_eq!(Address::parse("").unwrap_err().kind, ErrorKind::Validation);
    assert_eq!(Address::parse("nokey/pub/x").unwrap_err().kind, ErrorKind::Parse);
    assert_eq!(Address::parse("/pub/x").unwrap_err().kind, ErrorKind::Parse);
}

#[test]
fn public_storage_only_reads() {
    let key = Keypair::from_secret_key(&[8u8; 32]).public_key();
    let storage = PublicStorage::new();
    let address = format!("pubky{}/pub/app/", key.z32());
    let get = storage.request(ReadOp::Get, &address).unwrap();
    assert_eq!(get.method, Method::Get);
    assert_eq!(get.owner, key);
    assert_eq!(get.path, "/pub/app/");
    assert_eq!(get.host, format!("_pubky.{}", key.z32()));
    assert_eq!(storage.request(ReadOp::Exists, &address).unwrap().method, Method::Head);
    assert_eq!(storage.request(ReadOp::List, &address).unwrap().method, Method::Get);
    assert_eq!(storage.request(ReadOp::Get, "junk").unwrap_err().kind, ErrorKind::Validation);
    assert_eq!(ReadOp::Get.as_storage_op(), StorageOp::Get);
    assert_eq!(ReadOp::Exists.as_storage_op(), StorageOp::Exists);
    assert_eq!(ReadOp::List.as_storage_op(), StorageOp::List);
}

#[test]
fn exists_from_status_by_status() {
    assert_eq!(exists_from_status(200), Ok(true));
    assert_eq!(exists_from_status(204), Ok(true));
    assert_eq!(exists_from_status(299), Ok(true));
    assert_eq!(exists_from_status(404), Ok(false));
    for status in [0u16, 199, 300, 401, 403, 500] {
        assert_eq!(exists_from_status(status).unwrap_err().kind, ErrorKind::Request);
    }
}

fn entry(owner: PublicKey, path: &str) -> Entry {
    Entry { owner, path: path.to_string() }
}

#[test]
fn listing_keeps_prefix_order_and_limit() {
    let key = Keypair::from_secret_key(&[8u8; 32]).public_key();
    let sent = vec![
        entry(key, "/pub/app/a.txt"),
        entry(key, "/pub/other/x"),
        entry(key, "/pub/app/dir/"),
        entry(key, "/pub/app/b.txt"),
        entry(key, "/pub/ap"),
    ];
    let all = accept_listing("/pub/app/", None, &sent);
    let paths: Vec<&str> = all.iter().map(|e| e.path.as_str()).collect();
    assert_eq!(paths, vec!["/pub/app/a.txt", "/pub/app/dir/", "/pub/app/b.txt"]);
    let two = accept_listing("/pub/app/", Some(2), &sent);
    let paths: Vec<&str> = two.iter().map(|e| e.path.as_str()).collect();
    assert_eq!(paths, vec!["/pub/app/a.txt", "/pub/app/dir/"]);
    assert!(accept_listing("/pub/app/", Some(0), &sent).is_empty());
    assert_eq!(accept_listing("/pub/app/", Some(9), &sent).len(), 3);
    assert!(accept_listing("/none/", None, &sent).is_empty());
    assert!(all[1].is_dir());
    assert!(!all[0].is_dir());
    assert_eq!(all[0].to_pubky_url(), format!("pubky://{}/pub/app/a.txt", key.z32()));
    assert_eq!(all[0].clone(), all[0]);
}

/// A homeserver that lives in the test: it grants what is asked of it and
/// keeps objects in a map.
struct FakeHomeserver {
    objects: BTreeMap<String, Vec<u8>>,
}

impl FakeHomeserver {
    fn status_of(&self, path: &str) -> u16 {
        if self.objects.contains_key(path) {
            200
        } else {
            404
        }
    }
}

#[test]
fn end_to_end_signup_put_get_signout() {
    let mut server = FakeHomeserver { objects: BTreeMap::new() };
    let keypair = Keypair::random();
    let signer = PubkySigner::new(keypair);
    let requested = Capabilities::parse("/pub/:rw").unwrap();
    let mut session =
        signer.complete(&homeserver(), &requested, granted("/pub/:rw")).unwrap();
    assert!(session.capabilities().is_within(&requested));

    let path = "/pub/app/note.txt";
    let storage = session.storage().unwrap();
    // exists is false before any put
    let check = storage.request(StorageOp::Exists, path).unwrap();
    assert_eq!(exists_from_status(server.status_of(&check.path)), Ok(false));
    // put, then exists and get
    let put = storage.request(StorageOp::Put, path).unwrap();
    server.objects.insert(put.path.clone(), b"hello".to_vec());
    assert_eq!(exists_from_status(server.status_of(&check.path)), Ok(true));
    let get = storage.request(StorageOp::Get, path).unwrap();
    assert_eq!(server.objects.get(&get.path).unwrap(), b"hello");
    // anyone reads the same bytes by the display address, without credentials
    let address = format!("{}{}", keypair.public_key().to_display_string(), path);
    let public = PublicStorage::new().request(ReadOp::Get, &address).unwrap();
    assert_eq!(public.owner, keypair.public_key());
    assert_eq!(public.host, get.host);
    assert_eq!(server.objects.get(&public.path).unwrap(), b"hello");
    // delete, then exists is false again
    let delete = storage.request(StorageOp::Delete, path).unwrap();
    server.objects.remove(&delete.path);
    assert_eq!(exists_from_status(server.status_of(&check.path)), Ok(false));
    // signout succeeds once; every later call on the handle is refused
    assert!(session.signout().is_ok());
    assert!(session.signed_out(SessionReply::Accepted).is_ok());
    let message = "session handle was consumed by signout";
    assert_eq!(session.storage().unwrap_err().message, message);
    assert_eq!(session.signout().unwrap_err().message, message);
    assert_eq!(session.revalidated(SessionReply::Accepted).unwrap_err().message, message);
}
