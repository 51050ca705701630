use pubky_ffi::capabilities::Capabilities;
use pubky_ffi::client::{Engine, PubkyHttpClient};
use pubky_ffi::error::{
    contains_nul, sanitize, Error, ErrorKind, FfiBytesResult, FfiHttpResponse, FfiResult,
};
use pubky_ffi::ffi;
use pubky_ffi::ffi::{
    FfiHttpClient, FfiKeypair, FfiPubky, FfiPublicKey, FfiPublicStorage, FfiSession,
    FfiSessionStorage, FfiSigner,
};
use pubky_ffi::http::{headers_from_json, headers_from_members, Method};
use pubky_ffi::json_api;
use pubky_ffi::json_api::{Envelope, Network, Reply};
use pubky_ffi::keys::{Keypair, PublicKey};
use pubky_ffi::runtime::{
    get_http_client, get_http_client_testnet, get_or_build, get_pubky, get_pubky_testnet,
    Environment, Pubky,
};
use pubky_ffi::session::{PubkySession, PubkySigner, ServerReply, SessionReply};
use pubky_ffi::storage::{Entry, PublicStorage, ReadOp, StorageOp};

const Z32: &str = "yg4gxe7z1r7mr6orids9fh95y7gxhdsxjqi6nngsxxtakqaxr5no";
const SECRET_HEX: &str = "0101010101010101010101010101010101010101010101010101010101010101";

fn error(kind: ErrorKind, message: &str) -> Error {
    Error::new(kind, message)
}

fn session(caps: &str) -> PubkySession {
    let signer = PubkySigner::new(Keypair::from_secret_key(&[1u8; 32]));
    let hs = Keypair::from_secret_key(&[42u8; 32]).public_key();
    let reply = ServerReply::Granted { capabilities: caps.to_string() };
    signer.complete(&hs, &Capabilities::parse("/:rw").unwrap(), reply).unwrap()
}

fn failure(e: &Envelope) -> &str {
    match e {
        Envelope::Failure { error, .. } => error.as_str(),
        other => panic!("expected a failure, got {:?}", other),
    }
}

fn code_of(e: &Envelope) -> i32 {
    match e {
        Envelope::Failure { code, .. } => *code,
        Envelope::Success { .. } => 0,
    }
}

#[test]
fn error_codes_are_the_closed_set() {
    assert_eq!(ErrorKind::Request.code(), 1);
    assert_eq!(ErrorKind::Pkarr.code(), 2);
    assert_eq!(ErrorKind::Parse.code(), 3);
    assert_eq!(ErrorKind::Authentication.code(), 4);
    assert_eq!(ErrorKind::Build.code(), 5);
    assert_eq!(ErrorKind::Validation.code(), 6);
    assert_eq!(Error::validation("x").code(), 6);
}

#[test]
fn results_replace_text_with_a_zero_byte() {
    assert!(contains_nul("a\0b"));
    assert!(!contains_nul("ab"));
    assert!(!contains_nul(""));
    assert_eq!(sanitize("a\0b".to_string(), "fallback"), "fallback");
    assert_eq!(sanitize("ab".to_string(), "fallback"), "ab");
    let ok = FfiResult::success("data".to_string());
    assert_eq!(ok, FfiResult { data: Some("data".to_string()), error: None, code: 0 });
    assert_eq!(FfiResult::success("da\0ta".to_string()).data, Some(String::new()));
    assert_eq!(FfiResult::success_empty(), FfiResult { data: None, error: None, code: 0 });
    let failed = FfiResult::error("boom".to_string(), 7);
    assert_eq!(failed, FfiResult { data: None, error: Some("boom".to_string()), code: 7 });
    assert_eq!(
        FfiResult::error("bo\0om".to_string(), 7).error,
        Some("Unknown error".to_string())
    );
    let reported = FfiResult::from_pubky_error(error(ErrorKind::Authentication, "denied"));
    assert_eq!(reported, FfiResult { data: None, error: Some("denied".to_string()), code: 4 });
    assert_eq!(FfiResult::from_pubky_error(error(ErrorKind::Validation, "v")).code, 6);
}

#[test]
fn bytes_and_http_results() {
    let ok = FfiBytesResult::success(vec![1, 2, 3]);
    assert_eq!(ok, FfiBytesResult { data: Some(vec![1, 2, 3]), len: 3, error: None, code: 0 });
    let failed = FfiBytesResult::error("no".to_string(), 1);
    assert_eq!(
        failed,
        FfiBytesResult { data: None, len: 0, error: Some("no".to_string()), code: 1 }
    );
    let response = FfiHttpResponse::success(200, "body".to_string(), "{\"a\":\"b\"}".to_string());
    assert_eq!(response.status, 200);
    assert_eq!(response.body, Some("body".to_string()));
    assert_eq!(response.headers, Some("{\"a\":\"b\"}".to_string()));
    assert_eq!(response.code, 0);
    let broken = FfiHttpResponse::success(200, "bo\0dy".to_string(), "{\0}".to_string());
    assert_eq!(broken.body, Some(String::new()));
    assert_eq!(broken.headers, Some("{}".to_string()));
    let failed = FfiHttpResponse::error("down".to_string(), 1);
    assert_eq!(failed.status, 0);
    assert_eq!(failed.body, None);
    assert_eq!(failed.headers, None);
    assert_eq!(failed.error, Some("down".to_string()));
    assert_eq!(failed.code, 1);
}

#[test]
fn keypair_handles() {
    assert!(ffi::pubky_keypair_from_secret_key(None).is_none());
    assert!(ffi::pubky_keypair_from_secret_key(Some(&[1u8; 31])).is_none());
    assert!(ffi::pubky_keypair_from_secret_key(Some(&[1u8; 33])).is_none());
    let handle = ffi::pubky_keypair_from_secret_key(Some(&[1u8; 32])).unwrap();
    assert_eq!(handle.0, Keypair::from_secret_key(&[1u8; 32]));
    let secret = ffi::pubky_keypair_secret_key(Some(&handle));
    assert_eq!(secret.data, Some(vec![1u8; 32]));
    assert_eq!(secret.len, 32);
    assert_eq!(ffi::pubky_keypair_secret_key(None).code, 6);
    assert_eq!(ffi::pubky_keypair_secret_key(None).error, Some("Null keypair pointer".to_string()));
    let public = ffi::pubky_keypair_public_key(Some(&handle)).unwrap();
    assert_eq!(public.0, handle.0.public_key());
    assert!(ffi::pubky_keypair_public_key(None).is_none());
}

#[test]
fn random_keypair_handles_differ() {
    let a = ffi::pubky_keypair_random();
    let b = ffi::pubky_keypair_random();
    assert_ne!(a.0.secret_key(), b.0.secret_key());
    assert_eq!(a.0, Keypair::from_secret_key(&a.0.secret_key()));
}

#[test]
fn recovery_file_handles() {
    let handle = FfiKeypair(Keypair::from_secret_key(&[2u8; 32]));
    let missing = ffi::pubky_keypair_create_recovery_file(None, Some("pw"));
    assert_eq!(missing.error, Some("Null keypair pointer".to_string()));
    let no_pass = ffi::pubky_keypair_create_recovery_file(Some(&handle), None);
    assert_eq!(no_pass.error, Some("Invalid passphrase".to_string()));
    assert_eq!(no_pass.code, 6);
    let file = ffi::pubky_keypair_create_recovery_file(Some(&handle), Some("pw"));
    assert_eq!(file.code, 0);
    let bytes = file.data.unwrap();
    assert_eq!(file.len, bytes.len());
    let back = ffi::pubky_keypair_from_recovery_file(Some(&bytes), Some("pw")).unwrap();
    assert_eq!(back.0, handle.0);
    assert!(ffi::pubky_keypair_from_recovery_file(Some(&bytes), Some("other")).is_none());
    assert!(ffi::pubky_keypair_from_recovery_file(None, Some("pw")).is_none());
    assert!(ffi::pubky_keypair_from_recovery_file(Some(&bytes), None).is_none());
}

#[test]
fn public_key_handles() {
    let handle = ffi::pubky_public_key_from_z32(Some(Z32)).unwrap();
    assert_eq!(ffi::pubky_public_key_z32(Some(&handle)).data, Some(Z32.to_string()));
    assert_eq!(ffi::pubky_public_key_bytes(Some(&handle)).data, Some(handle.0.to_bytes().to_vec()));
    assert_eq!(ffi::pubky_public_key_bytes(Some(&handle)).len, 32);
    assert!(ffi::pubky_public_key_from_z32(None).is_none());
    assert!(ffi::pubky_public_key_from_z32(Some("nokey")).is_none());
    assert_eq!(ffi::pubky_public_key_z32(None).error, Some("Null public key pointer".to_string()));
    assert_eq!(ffi::pubky_public_key_bytes(None).code, 6);
}

#[test]
fn facade_and_signer_handles() {
    let pubky = FfiPubky(Pubky::new(PubkyHttpClient::new(0u8, 1u8)));
    let keypair = FfiKeypair(Keypair::from_secret_key(&[3u8; 32]));
    let signer = ffi::pubky_signer(Some(&pubky), Some(&keypair)).unwrap();
    assert_eq!(signer.0, PubkySigner::new(keypair.0));
    assert!(ffi::pubky_signer::<u8>(None, Some(&keypair)).is_none());
    assert!(ffi::pubky_signer::<u8>(Some(&pubky), None).is_none());
    assert_eq!(ffi::pubky_signer_public_key(Some(&signer)).unwrap().0, keypair.0.public_key());
    assert!(ffi::pubky_signer_public_key(None).is_none());
    assert!(ffi::pubky_public_storage(Some(&pubky)).is_some());
    assert!(ffi::pubky_public_storage::<u8>(None).is_none());
    let user = FfiPublicKey(keypair.0.public_key());
    assert_eq!(ffi::pubky_get_homeserver_of_plan(Some(&pubky), Some(&user)).unwrap(), user.0);
    let refused = ffi::pubky_get_homeserver_of_plan(Some(&pubky), None).unwrap_err();
    assert_eq!(refused.error, Some("Null pointer".to_string()));
    assert_eq!(refused.code, 6);
    let found = ffi::pubky_get_homeserver_of_result(Some(user.0));
    assert_eq!(found.data, Some(user.0.z32()));
    assert_eq!(ffi::pubky_get_homeserver_of_result(None), FfiResult::success_empty());
}

#[test]
fn signup_and_signin_plans_of_handles() {
    let signer = FfiSigner(PubkySigner::new(Keypair::from_secret_key(&[3u8; 32])));
    let hs = FfiPublicKey(PublicKey::try_from_z32(Z32).unwrap());
    let plan = ffi::pubky_signer_signup_plan(Some(&signer), Some(&hs), Some("token"), true).unwrap();
    assert_eq!(plan.user, signer.0.public_key());
    assert_eq!(plan.homeserver, hs.0);
    assert_eq!(plan.token, Some("token".to_string()));
    assert_eq!(ffi::pubky_signer_signup_plan(Some(&signer), Some(&hs), None, true).unwrap().token, None);
    for refused in [
        ffi::pubky_signer_signup_plan(None, Some(&hs), None, true),
        ffi::pubky_signer_signup_plan(Some(&signer), None, None, true),
        ffi::pubky_signer_signup_plan(Some(&signer), Some(&hs), None, false),
    ] {
        assert_eq!(refused.unwrap_err().error, Some("Null pointer".to_string()));
    }
    assert_eq!(ffi::pubky_signer_signin_plan(Some(&signer), true).unwrap(), signer.0.public_key());
    assert_eq!(ffi::pubky_signer_signin_plan(None, true).unwrap_err().code, 6);
    assert_eq!(ffi::pubky_signer_signin_plan(Some(&signer), false).unwrap_err().code, 6);
    let by_text = ffi::signer_signup_plan(Some(&signer), Some(Z32)).unwrap();
    assert_eq!(by_text.homeserver, hs.0);
    assert_eq!(by_text.token, None);
    assert!(ffi::signer_signup_plan(Some(&signer), Some("junk")).is_none());
    assert!(ffi::signer_signup_plan(None, Some(Z32)).is_none());
    assert!(ffi::signer_signup_plan(Some(&signer), None).is_none());
    let opened = ffi::session_result(Ok(session("/:rw"))).ok().unwrap();
    assert_eq!(opened.0, session("/:rw"));
    let failed = ffi::session_result(Err(error(ErrorKind::Authentication, "no"))).err().unwrap();
    assert_eq!(failed.code, 4);
    assert_eq!(failed.error, Some("no".to_string()));
}

#[test]
fn session_handles() {
    let handle = FfiSession(session("/pub/:rw,/x:r"));
    assert_eq!(ffi::pubky_session_public_key(Some(&handle)).unwrap().0, handle.0.public_key());
    assert!(ffi::pubky_session_public_key(None).is_none());
    assert_eq!(
        ffi::pubky_session_capabilities(Some(&handle)).data,
        Some("/pub/:rw,/x:r".to_string())
    );
    assert_eq!(
        ffi::pubky_session_capabilities(None).error,
        Some("Null session pointer".to_string())
    );
    assert!(ffi::pubky_session_storage(Some(&handle)).is_some());
    assert!(ffi::pubky_session_storage(None).is_none());
    assert!(ffi::pubky_session_revalidate_plan(Some(&handle)).is_ok());
    assert_eq!(ffi::pubky_session_revalidate_plan(None).unwrap_err().code, 6);
    let valid = ffi::pubky_session_revalidate_result(&handle, SessionReply::Accepted);
    assert_eq!(valid.data, Some("valid".to_string()));
    let invalid = ffi::pubky_session_revalidate_result(&handle, SessionReply::Unknown);
    assert_eq!(invalid.data, Some("invalid".to_string()));
    assert_eq!(invalid.code, 0);
    let failed = ffi::pubky_session_revalidate_result(
        &handle,
        SessionReply::Failed { message: "down".to_string() },
    );
    assert_eq!(failed.code, 1);
    assert_eq!(failed.error, Some("down".to_string()));

    assert_eq!(
        ffi::pubky_session_signout(None).err().unwrap().error,
        Some("Null session pointer".to_string())
    );
    let mut done = handle;
    let identity = done.0.public_key();
    assert_eq!(ffi::pubky_session_signout(Some(&mut done)), Ok(()));
    assert!(done.0.is_consumed());
    assert_eq!(done.0.public_key(), identity);
    assert_eq!(done.0.capabilities().to_text(), "/pub/:rw,/x:r");
    assert_eq!(ffi::pubky_session_signout_result(&done, SessionReply::Accepted), FfiResult::success_empty());
    assert_eq!(
        ffi::pubky_session_signout_result(&done, SessionReply::Failed { message: "x".to_string() }).code,
        1
    );
    // a consumed handle is refused everywhere, with the validation code
    assert!(ffi::pubky_session_public_key(Some(&done)).is_none());
    let caps = ffi::pubky_session_capabilities(Some(&done));
    assert_eq!(caps.code, 6);
    assert_eq!(caps.data, None);
    assert_eq!(caps.error, Some("session handle was consumed by signout".to_string()));
    assert!(ffi::pubky_session_storage(Some(&done)).is_none());
    assert_eq!(ffi::pubky_session_revalidate_plan(Some(&done)).unwrap_err().code, 6);
    assert_eq!(ffi::pubky_session_revalidate_result(&done, SessionReply::Accepted).code, 6);
    let again = ffi::pubky_session_signout(Some(&mut done)).unwrap_err();
    assert!(done.0.is_consumed());
    assert_eq!(again.code, 6);
    assert_eq!(again.error, Some("session handle was consumed by signout".to_string()));
}

#[test]
fn storage_plans_of_handles() {
    let storage = FfiSessionStorage(session("/pub/app/:rw").storage().unwrap());
    let plan =
        ffi::session_storage_plan(Some(&storage), StorageOp::Put, Some("/pub/app/a")).unwrap();
    assert_eq!(plan.method, Method::Put);
    assert_eq!(plan.path, "/pub/app/a");
    let null = ffi::session_storage_plan(None, StorageOp::Get, Some("/pub/app/a")).unwrap_err();
    assert_eq!(null.error, Some("Null storage pointer".to_string()));
    let no_path = ffi::session_storage_plan(Some(&storage), StorageOp::Get, None).unwrap_err();
    assert_eq!(no_path.error, Some("Invalid path".to_string()));
    assert_eq!(no_path.code, 6);
    let denied =
        ffi::session_storage_plan(Some(&storage), StorageOp::Put, Some("/priv/a")).unwrap_err();
    assert_eq!(denied.code, 6);

    let public = FfiPublicStorage(PublicStorage::new());
    let address = format!("pubky{}/pub/x", Z32);
    let read = ffi::public_storage_plan(Some(&public), ReadOp::Get, Some(&address)).unwrap();
    assert_eq!(read.path, "/pub/x");
    assert_eq!(read.owner.z32(), Z32);
    assert_eq!(read.host, format!("_pubky.{}", Z32));
    assert_eq!(
        ffi::public_storage_plan(None, ReadOp::Get, Some(&address)).unwrap_err().error,
        Some("Null storage pointer".to_string())
    );
    assert_eq!(
        ffi::public_storage_plan(Some(&public), ReadOp::Get, None).unwrap_err().error,
        Some("Invalid address".to_string())
    );
    assert_eq!(
        ffi::public_storage_plan(Some(&public), ReadOp::Get, Some("nothing")).unwrap_err().code,
        6
    );
    assert_eq!(
        ffi::public_storage_plan(Some(&public), ReadOp::Get, Some("bad/pub")).unwrap_err().code,
        3
    );
}

#[test]
fn bodies_of_writes() {
    assert_eq!(ffi::put_bytes_body(Some(&[1, 2]), 2).unwrap(), vec![1, 2]);
    assert_eq!(ffi::put_bytes_body(Some(&[1, 2]), 0).unwrap(), Vec::<u8>::new());
    assert_eq!(ffi::put_bytes_body(None, 0).unwrap(), Vec::<u8>::new());
    let refused = ffi::put_bytes_body(None, 3).unwrap_err();
    assert_eq!(refused.error, Some("Null body pointer with non-zero length".to_string()));
    assert_eq!(ffi::request_bytes_body(Some(&[9]), 1), Some(vec![9]));
    assert_eq!(ffi::request_bytes_body(Some(&[9]), 0), None);
    assert_eq!(ffi::request_bytes_body(None, 5), None);
    assert_eq!(ffi::put_json_body(Some("{ \"a\" : [1, 2] }")).unwrap(), "{\"a\":[1,2]}");
    assert_eq!(
        ffi::put_json_body(None).unwrap_err().error,
        Some("Invalid JSON body".to_string())
    );
    let bad = ffi::put_json_body(Some("{")).unwrap_err();
    assert_eq!(bad.code, 6);
    assert!(bad.error.unwrap().starts_with("Invalid JSON: "));
}

#[test]
fn reports_of_outcomes() {
    assert_eq!(ffi::text_result(Ok("t".to_string())), FfiResult::success("t".to_string()));
    assert_eq!(ffi::text_result(Err(error(ErrorKind::Parse, "p"))).code, 3);
    assert_eq!(ffi::empty_result(Ok(())), FfiResult::success_empty());
    assert_eq!(ffi::empty_result(Err(error(ErrorKind::Build, "b"))).code, 5);
    assert_eq!(ffi::bytes_result(Ok(vec![7])), FfiBytesResult::success(vec![7]));
    let failed = ffi::bytes_result(Err(error(ErrorKind::Authentication, "a")));
    assert_eq!(failed.code, 4);
    assert_eq!(ffi::bytes_result(Err(error(ErrorKind::Request, "r"))).code, 1);
    assert_eq!(failed.error, Some("a".to_string()));
    assert_eq!(ffi::exists_result(Ok(200)).data, Some("true".to_string()));
    assert_eq!(ffi::exists_result(Ok(404)).data, Some("false".to_string()));
    assert_eq!(ffi::exists_result(Ok(500)).code, 1);
    assert_eq!(ffi::exists_result(Err(error(ErrorKind::Pkarr, "r"))).code, 2);
    assert_eq!(ffi::status_of(Ok(())), 0);
    assert_eq!(ffi::status_of(Err(error(ErrorKind::Request, "r"))), 1);
    assert_eq!(ffi::status_of(Err(error(ErrorKind::Validation, "v"))), 6);
    assert_eq!(ffi::text_or_nothing(Ok("t".to_string())), Some("t".to_string()));
    assert_eq!(ffi::text_or_nothing(Ok("t\0".to_string())), None);
    assert_eq!(ffi::text_or_nothing(Err(error(ErrorKind::Request, "r"))), None);
    let full = ffi::http_response(Ok((201, "b".to_string(), "{}".to_string())));
    assert_eq!(full.status, 201);
    let down = ffi::http_response(Err(error(ErrorKind::Parse, "x")));
    assert_eq!(down.code, 3);
    assert_eq!(ffi::http_response(Err(error(ErrorKind::Request, "r"))).code, 1);
    assert_eq!(down.error, Some("x".to_string()));
}

#[test]
fn list_urls_of_entries() {
    let key = PublicKey::try_from_z32(Z32).unwrap();
    let sent = vec![
        Entry { owner: key, path: "/pub/a/1".to_string() },
        Entry { owner: key, path: "/pub/b/1".to_string() },
        Entry { owner: key, path: "/pub/a/2".to_string() },
    ];
    let urls = ffi::list_urls("/pub/a/", 10, &sent);
    assert_eq!(
        urls,
        vec![format!("pubky://{}/pub/a/1", Z32), format!("pubky://{}/pub/a/2", Z32)]
    );
    assert_eq!(ffi::list_urls("/pub/a/", 1, &sent).len(), 1);
    assert!(ffi::list_urls("/pub/a/", 0, &sent).is_empty());
}

#[test]
fn client_request_plans() {
    let client = FfiHttpClient(PubkyHttpClient::new("pinned", "ca"));
    let url = format!("https://{}/pub/", Z32);
    let headers = "{\"X-A\":\"1\",\"n\":2,\"X-B\":\"two\"}";
    let plan = ffi::pubky_http_client_request_plan(Some(&client), Some("post"), Some(&url), Some(headers))
        .ok()
        .unwrap();
    assert_eq!(plan.request.method, Method::Post);
    assert_eq!(plan.request.url, url);
    assert_eq!(plan.request.route, Engine::KeyPinned);
    assert_eq!(*plan.request.engine, "pinned");
    assert_eq!(
        plan.headers,
        vec![("X-A".to_string(), "1".to_string()), ("X-B".to_string(), "two".to_string())]
    );
    let web = ffi::pubky_http_client_request_plan(Some(&client), Some("GET"), Some("https://a.com/"), None)
        .ok()
        .unwrap();
    assert_eq!(*web.request.engine, "ca");
    assert!(web.headers.is_empty());
    let messages = [
        (ffi::pubky_http_client_request_plan::<&str>(None, Some("GET"), Some("u"), None), "Null client pointer"),
        (ffi::pubky_http_client_request_plan(Some(&client), None, Some("u"), None), "Invalid or null method"),
        (ffi::pubky_http_client_request_plan(Some(&client), Some("GET"), None, None), "Invalid or null URL"),
        (
            ffi::pubky_http_client_request_plan(Some(&client), Some("Fetch"), Some("u"), None),
            "Unsupported HTTP method: Fetch",
        ),
    ];
    for (plan, message) in messages {
        let refused = plan.err().unwrap();
        assert_eq!(refused.error, Some(message.to_string()));
        assert_eq!(refused.code, 6);
    }
    let plain = ffi::http_request_plan(Some("nonsense"), Some("https://a.com/")).unwrap();
    assert_eq!(plain.method, Method::Get);
    assert_eq!(plain.engine, Engine::CaVerified);
    assert_eq!(ffi::http_request_plan(Some("put"), Some(&url)).unwrap().method, Method::Put);
    assert!(ffi::http_request_plan(Some("GET"), Some("no url")).is_none());
    assert!(ffi::http_request_plan(None, Some("https://a.com/")).is_none());
    assert!(ffi::http_request_plan(Some("GET"), None).is_none());
}

#[test]
fn headers_are_the_string_members() {
    assert!(headers_from_json(None).is_empty());
    assert!(headers_from_json(Some("not json")).is_empty());
    assert!(headers_from_json(Some("[1]")).is_empty());
    assert_eq!(
        headers_from_json(Some("{\"a\":\"x\",\"b\":null,\"c\":\"y\",\"d\":{}}")),
        vec![("a".to_string(), "x".to_string()), ("c".to_string(), "y".to_string())]
    );
    let members = vec![
        ("k".to_string(), None),
        ("a".to_string(), Some("1".to_string())),
        ("b".to_string(), Some("2".to_string())),
    ];
    assert_eq!(
        headers_from_members(members),
        vec![("a".to_string(), "1".to_string()), ("b".to_string(), "2".to_string())]
    );
}

#[test]
fn environment_builds_once() {
    let mut env: Environment<u8> = Environment::new();
    let mut builds = 0;
    let first = get_pubky(&mut env, || {
        builds += 1;
        Ok(Pubky::new(PubkyHttpClient::new(1, 2)))
    })
    .unwrap();
    assert_eq!(first.client.http, 1);
    let second = get_pubky(&mut env, || {
        builds += 1;
        Ok(Pubky::new(PubkyHttpClient::new(3, 4)))
    })
    .unwrap();
    assert_eq!(second.client.http, 1);
    assert_eq!(second.client.icann_http, 2);
    assert_eq!(builds, 1);
    assert!(env.pubky_testnet.is_none());
    assert!(env.http_client.is_none());

    let failed = get_pubky_testnet(&mut env, || Err("no testnet".to_string()));
    assert_eq!(failed.err(), Some("no testnet".to_string()));
    assert!(env.pubky_testnet.is_none());
    let testnet = get_pubky_testnet(&mut env, || Ok(Pubky::new(PubkyHttpClient::new(5, 6))));
    assert_eq!(testnet.ok().unwrap().client.icann_http, 6);
    assert!(env.pubky_testnet.is_some());

    let client = get_http_client(&mut env, || Ok(PubkyHttpClient::new(7, 8))).ok().unwrap();
    assert_eq!(client.http, 7);
    let kept = get_http_client(&mut env, || Err("unused".to_string())).ok().unwrap();
    assert_eq!(kept.icann_http, 8);
    let other = get_http_client_testnet(&mut env, || Ok(PubkyHttpClient::new(9, 10)));
    assert_eq!(other.ok().unwrap().http, 9);
    assert_eq!(env.pubky.as_ref().unwrap().client.http, 1);

    let mut slot: Option<String> = None;
    assert_eq!(get_or_build(&mut slot, || Err("e".to_string())), Err("e".to_string()));
    assert_eq!(slot, None);
    assert_eq!(get_or_build(&mut slot, || Ok("v".to_string())), Ok("v".to_string()));
    assert_eq!(get_or_build(&mut slot, || Ok("w".to_string())), Ok("v".to_string()));
}

#[test]
fn json_keypair_operations() {
    match json_api::pubky_keypair_random() {
        Envelope::Success { data: Reply::Keypair { secret_key, public_key } } => {
            assert_eq!(secret_key.len(), 64);
            let again = json_api::pubky_keypair_from_secret_key(Some(&secret_key));
            assert_eq!(again, Envelope::Success { data: Reply::PublicKey { public_key } });
        },
        other => panic!("unexpected envelope {:?}", other),
    }
    let public = Keypair::from_secret_key(&[1u8; 32]).public_key().to_display_string();
    assert_eq!(
        json_api::pubky_keypair_from_secret_key(Some(SECRET_HEX)),
        Envelope::Success { data: Reply::PublicKey { public_key: public } }
    );
    assert_eq!(failure(&json_api::pubky_keypair_from_secret_key(None)), "Invalid secret key string");
    assert_eq!(
        failure(&json_api::pubky_keypair_from_secret_key(Some("xyz"))),
        "Invalid hex encoding for secret key"
    );
    assert_eq!(
        failure(&json_api::pubky_keypair_from_secret_key(Some("0101"))),
        "Secret key must be exactly 32 bytes"
    );
    let gone = json_api::secret_keypair(None, "gone").unwrap_err();
    assert_eq!(gone, error(ErrorKind::Validation, "gone"));
    assert_eq!(json_api::secret_keypair(Some("xyz"), "gone").unwrap_err().kind, ErrorKind::Parse);
    assert_eq!(
        json_api::secret_keypair(Some("0101"), "gone").unwrap_err().kind,
        ErrorKind::Validation
    );
    assert_eq!(code_of(&json_api::pubky_keypair_from_secret_key(None)), 6);
    assert_eq!(code_of(&json_api::pubky_keypair_from_secret_key(Some("xyz"))), 3);
    assert_eq!(code_of(&json_api::pubky_keypair_from_secret_key(Some("0101"))), 6);
    assert_eq!(code_of(&json_api::pubky_keypair_from_secret_key(Some(SECRET_HEX))), 0);
    assert_eq!(json_api::network_of(0), Network::Mainnet);
    assert_eq!(json_api::network_of(1), Network::Testnet);
    assert_eq!(json_api::network_of(-5), Network::Testnet);
}

#[test]
fn json_signup_and_signin_plans() {
    let shown = format!("pubky{}", Z32);
    let plan = json_api::pubky_signup_plan(Some(SECRET_HEX), Some(&shown), Some("tok"), 1).unwrap();
    assert_eq!(plan.keypair, Keypair::from_secret_key(&[1u8; 32]));
    assert_eq!(plan.homeserver.z32(), Z32);
    assert_eq!(plan.token, Some("tok".to_string()));
    assert_eq!(plan.network, Network::Testnet);
    let raw = json_api::pubky_signup_plan(Some(SECRET_HEX), Some(Z32), None, 0).unwrap();
    assert_eq!(raw.homeserver, plan.homeserver);
    assert_eq!(raw.token, None);
    assert_eq!(raw.network, Network::Mainnet);
    let e = json_api::pubky_signup_plan(None, None, None, 0).unwrap_err();
    assert_eq!(failure(&e), "Invalid secret key");
    let e = json_api::pubky_signup_plan(Some(SECRET_HEX), None, None, 0).unwrap_err();
    assert_eq!(failure(&e), "Invalid homeserver public key");
    let e = json_api::pubky_signup_plan(Some("zz"), Some("junk"), None, 0).unwrap_err();
    assert_eq!(failure(&e), "Invalid hex encoding for secret key");
    let e = json_api::pubky_signup_plan(Some("00"), Some(Z32), None, 0).unwrap_err();
    assert_eq!(failure(&e), "Secret key must be exactly 32 bytes");
    let e = json_api::pubky_signup_plan(Some(SECRET_HEX), Some("junk"), None, 0).unwrap_err();
    assert!(failure(&e).starts_with("Invalid homeserver public key: "));
    let (keypair, network) = json_api::pubky_signin_plan(Some(SECRET_HEX), 0).unwrap();
    assert_eq!(keypair, plan.keypair);
    assert_eq!(network, Network::Mainnet);
    assert_eq!(failure(&json_api::pubky_signin_plan(None, 0).unwrap_err()), "Invalid secret key");
    let reply = json_api::session_reply(Ok(session("/pub/:rw")));
    let identity = Keypair::from_secret_key(&[1u8; 32]).public_key().to_display_string();
    assert_eq!(
        reply,
        Envelope::Success {
            data: Reply::Session { public_key: identity, capabilities: "/pub/:rw".to_string() }
        }
    );
    let failed = json_api::session_reply(Err(error(ErrorKind::Authentication, "denied")));
    assert_eq!(failure(&failed), "denied");
}

#[test]
fn json_storage_plans() {
    let plan = json_api::pubky_put_plan(Some(SECRET_HEX), Some("/pub/a"), Some("hello"), 0).unwrap();
    assert_eq!(plan.path, "/pub/a");
    assert_eq!(plan.content, Some("hello".to_string()));
    let read = json_api::path_plan(Some(SECRET_HEX), Some("/pub/a"), 2).unwrap();
    assert_eq!(read.content, None);
    assert_eq!(read.network, Network::Testnet);
    assert_eq!(
        failure(&json_api::pubky_put_plan(None, Some("/p"), Some("c"), 0).unwrap_err()),
        "Invalid secret key"
    );
    assert_eq!(
        failure(&json_api::pubky_put_plan(Some(SECRET_HEX), None, Some("c"), 0).unwrap_err()),
        "Invalid path"
    );
    assert_eq!(
        failure(&json_api::pubky_put_plan(Some(SECRET_HEX), Some("/p"), None, 0).unwrap_err()),
        "Invalid content"
    );
    assert_eq!(
        failure(&json_api::pubky_put_plan(Some("0"), Some("/p"), Some("c"), 0).unwrap_err()),
        "Invalid hex encoding for secret key"
    );
    assert_eq!(
        failure(&json_api::path_plan(None, Some("/p"), 0).unwrap_err()),
        "Invalid secret key"
    );
    assert_eq!(
        failure(&json_api::path_plan(Some(SECRET_HEX), None, 0).unwrap_err()),
        "Invalid path"
    );
    assert_eq!(json_api::simple_reply(Ok(())), json_api::success_simple());
    assert_eq!(json_api::success_simple(), Envelope::Success { data: Reply::Null });
    assert_eq!(failure(&json_api::simple_reply(Err(error(ErrorKind::Request, "r")))), "r");
    assert_eq!(
        json_api::content_reply(Ok("c".to_string())),
        Envelope::Success { data: Reply::Content { content: "c".to_string() } }
    );
    assert_eq!(failure(&json_api::content_reply(Err(error(ErrorKind::Request, "x")))), "x");
    assert_eq!(failure(&json_api::error_response("m")), "m");
}

#[test]
fn json_public_reads_and_listings() {
    let address = format!("pubky{}/pub/app/", Z32);
    let plan = json_api::public_plan(Some(&address), 0, 0).unwrap();
    assert_eq!(plan.address.path, "/pub/app/");
    assert_eq!(plan.limit, None);
    assert_eq!(json_api::public_plan(Some(&address), 5, 1).unwrap().limit, Some(5));
    assert_eq!(failure(&json_api::public_plan(None, 0, 0).unwrap_err()), "Invalid address");
    assert!(json_api::public_plan(Some("junk"), 0, 0).is_err());
    let key = PublicKey::try_from_z32(Z32).unwrap();
    let sent = vec![
        Entry { owner: key, path: "/pub/app/dir/".to_string() },
        Entry { owner: key, path: "/other".to_string() },
        Entry { owner: key, path: "/pub/app/f".to_string() },
    ];
    match json_api::entries_reply("/pub/app/", Some(5), Ok(sent)) {
        Envelope::Success { data: Reply::Entries { entries } } => {
            assert_eq!(entries.len(), 2);
            assert_eq!(entries[0].url, format!("pubky://{}/pub/app/dir/", Z32));
            assert_eq!(entries[0].path, "/pub/app/dir/");
            assert_eq!(entries[0].owner, format!("pubky{}", Z32));
            assert!(entries[0].is_dir);
            assert_eq!(entries[1].path, "/pub/app/f");
            assert!(!entries[1].is_dir);
        },
        other => panic!("unexpected envelope {:?}", other),
    }
    let failed = json_api::entries_reply("/", None, Err(error(ErrorKind::Request, "down")));
    assert_eq!(failure(&failed), "down");
}

#[test]
fn json_http_request_plans() {
    let url = format!("https://_pubky.{}/pub/", Z32);
    let plan = json_api::pubky_http_request_plan(
        Some("put"),
        Some(&url),
        Some("body"),
        Some("{\"h\":\"v\"}"),
        0,
    )
    .unwrap();
    assert_eq!(plan.method, Method::Put);
    assert_eq!(plan.url, url);
    assert_eq!(plan.engine, Engine::KeyPinned);
    assert_eq!(plan.headers, vec![("h".to_string(), "v".to_string())]);
    assert_eq!(plan.body, Some("body".to_string()));
    let web =
        json_api::pubky_http_request_plan(Some("GET"), Some("https://a.com/"), None, None, 0).unwrap();
    assert_eq!(web.engine, Engine::CaVerified);
    assert_eq!(web.body, None);
    let cases = [
        (json_api::pubky_http_request_plan(None, Some("u"), None, None, 0), "Invalid method"),
        (json_api::pubky_http_request_plan(Some("GET"), None, None, None, 0), "Invalid URL"),
        (
            json_api::pubky_http_request_plan(Some("yank"), Some("https://a.com/"), None, None, 0),
            "Unsupported HTTP method: yank",
        ),
        (
            json_api::pubky_http_request_plan(Some("GET"), Some("no url"), None, None, 0),
            "Invalid URL: relative URL without a base",
        ),
    ];
    for (plan, message) in cases {
        assert_eq!(failure(&plan.unwrap_err()), message);
    }
    let reply = json_api::http_reply(Ok((200, vec![], "b".to_string())));
    assert_eq!(
        reply,
        Envelope::Success { data: Reply::Http { status: 200, headers: vec![], body: "b".to_string() } }
    );
    assert_eq!(failure(&json_api::http_reply(Err(error(ErrorKind::Request, "r")))), "r");
}

#[test]
fn json_resolution_and_auth() {
    let (key, network) = json_api::pubky_resolve_homeserver_plan(Some(Z32), 1).unwrap();
    assert_eq!(key.z32(), Z32);
    assert_eq!(network, Network::Testnet);
    assert_eq!(
        failure(&json_api::pubky_resolve_homeserver_plan(None, 0).unwrap_err()),
        "Invalid public key"
    );
    assert!(failure(&json_api::pubky_resolve_homeserver_plan(Some("junk"), 0).unwrap_err())
        .starts_with("Invalid public key: "));
    assert_eq!(
        json_api::homeserver_reply(Some(key)),
        Envelope::Success {
            data: Reply::Homeserver { homeserver: Some(format!("pubky{}", Z32)) }
        }
    );
    assert_eq!(
        json_api::homeserver_reply(None),
        Envelope::Success { data: Reply::Homeserver { homeserver: None } }
    );
    let (caps, _) = json_api::pubky_auth_start_plan(Some("/pub/app/:rw,/pub/foo/:r"), 0).unwrap();
    assert_eq!(caps.len(), 2);
    assert!(json_api::pubky_auth_start_plan(None, 0).unwrap().0.is_empty());
    assert_eq!(
        failure(&json_api::pubky_auth_start_plan(Some("pub:r"), 0).unwrap_err()),
        "Invalid capabilities: invalid capability entry: pub:r"
    );
    let address = format!("pubky{}/pub/app/file", Z32);
    assert_eq!(
        json_api::pubky_resolve_address(Some(&address)),
        Envelope::Success {
            data: Reply::Url { url: format!("https://_pubky.{}/pub/app/file", Z32) }
        }
    );
    assert_eq!(failure(&json_api::pubky_resolve_address(None)), "Invalid address");
    assert!(failure(&json_api::pubky_resolve_address(Some("junk")))
        .starts_with("Failed to resolve address: "));
}

#[test]
fn json_failures_carry_a_code_of_the_closed_set() {
    assert_eq!(
        json_api::error_response("m"),
        Envelope::Failure { error: "m".to_string(), code: 6 }
    );
    assert_eq!(
        json_api::failed(ErrorKind::Build, "b".to_string()),
        Envelope::Failure { error: "b".to_string(), code: 5 }
    );
    assert_eq!(
        json_api::failure(error(ErrorKind::Pkarr, "p")),
        Envelope::Failure { error: "p".to_string(), code: 2 }
    );
    // what is refused before anything is sent is a validation failure,
    // or a parse failure where a key, a secret or a capability does not read
    let e = json_api::pubky_signup_plan(None, None, None, 0).unwrap_err();
    assert_eq!(code_of(&e), 6);
    let e = json_api::pubky_signup_plan(Some("zz"), Some(Z32), None, 0).unwrap_err();
    assert_eq!(code_of(&e), 3);
    let e = json_api::pubky_signup_plan(Some("00"), Some(Z32), None, 0).unwrap_err();
    assert_eq!(code_of(&e), 6);
    let e = json_api::pubky_signup_plan(Some(SECRET_HEX), Some("junk"), None, 0).unwrap_err();
    assert_eq!(code_of(&e), 3);
    assert_eq!(code_of(&json_api::pubky_put_plan(Some(SECRET_HEX), None, None, 0).unwrap_err()), 6);
    assert_eq!(code_of(&json_api::public_plan(None, 0, 0).unwrap_err()), 6);
    assert_eq!(code_of(&json_api::public_plan(Some("nothing"), 0, 0).unwrap_err()), 6);
    assert_eq!(code_of(&json_api::public_plan(Some("bad/pub"), 0, 0).unwrap_err()), 3);
    let e = json_api::pubky_http_request_plan(Some("yank"), Some("https://a.com/"), None, None, 0);
    assert_eq!(code_of(&e.unwrap_err()), 6);
    let e = json_api::pubky_http_request_plan(Some("GET"), Some("no url"), None, None, 0);
    assert_eq!(code_of(&e.unwrap_err()), 6);
    assert_eq!(code_of(&json_api::pubky_resolve_homeserver_plan(Some("junk"), 0).unwrap_err()), 3);
    assert_eq!(code_of(&json_api::pubky_auth_start_plan(Some("pub:r"), 0).unwrap_err()), 3);
    assert_eq!(code_of(&json_api::pubky_resolve_address(None)), 6);
    assert_eq!(code_of(&json_api::pubky_resolve_address(Some("bad/pub"))), 3);
    // what failed later is reported under its own category
    assert_eq!(code_of(&json_api::simple_reply(Err(error(ErrorKind::Request, "r")))), 1);
    assert_eq!(code_of(&json_api::content_reply(Err(error(ErrorKind::Authentication, "a")))), 4);
    assert_eq!(code_of(&json_api::session_reply(Err(error(ErrorKind::Authentication, "a")))), 4);
    assert_eq!(code_of(&json_api::http_reply(Err(error(ErrorKind::Build, "b")))), 5);
    assert_eq!(code_of(&json_api::entries_reply("/", None, Err(error(ErrorKind::Pkarr, "p")))), 2);
}
