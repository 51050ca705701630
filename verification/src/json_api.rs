//! The text-based boundary: every operation takes strings that may be
//! missing and answers an envelope, a success with data or a failure with a
//! message. What is decided before anything is sent, and how each outcome is
//! shaped, is decided here; writing the envelope out as JSON is the caller's
//! side of the boundary.

use vstd::prelude::*;
use crate::capabilities::{parse_text, Capabilities, CapabilityView};
use crate::client::{route, url_read, Engine};
use crate::encoding::{hex_text, secret_from_hex, secret_hex_outcome, secret_to_hex};
use crate::error::{Error, ErrorKind};
use crate::http::{headers_of, headers_view, method_named, uppercased, Header, Method};
use crate::keys::{
    display_marker, key_text, public_of_secret, z32_read, z32_text, Keypair, PublicKey,
};
use crate::session::PubkySession;
use crate::storage::{address_fault, address_read, entry_views, listing, Address, Entry};
use crate::text::concat;

verus! {

/// The network that an operation works on.
#[derive(Clone, Copy, Debug, PartialEq, Eq, Structural)]
pub enum Network {
    /// The main network.
    Mainnet,
    /// A local test network.
    Testnet,
}

/// The network that a flag selects: the test network for any flag other
/// than zero.
pub fn network_of(testnet: i32) -> (network: Network)
    ensures
        network == (if testnet != 0 {
            Network::Testnet
        } else {
            Network::Mainnet
        }),
{
    if testnet != 0 {
        Network::Testnet
    } else {
        Network::Mainnet
    }
}

/// One entry of a listing, as it is reported.
#[derive(Debug, PartialEq, Eq)]
pub struct EntryInfo {
    /// The URL of the entry.
    pub url: String,
    /// The path of the entry.
    pub path: String,
    /// The owner of the entry, in display form.
    pub owner: String,
    /// Whether the entry is a directory.
    pub is_dir: bool,
}

/// The data of a success.
#[derive(Debug, PartialEq, Eq)]
pub enum Reply {
    /// No data.
    Null,
    /// A fresh keypair: the secret in hexadecimal, the public key in display
    /// form.
    Keypair { secret_key: String, public_key: String },
    /// A public key in display form.
    PublicKey { public_key: String },
    /// A session: its identity in display form and its capabilities as text.
    Session { public_key: String, capabilities: String },
    /// The content of an object.
    Content { content: String },
    /// The entries of a listing.
    Entries { entries: Vec<EntryInfo> },
    /// An HTTP response.
    Http { status: u16, headers: Vec<Header>, body: String },
    /// A homeserver in display form, where one is published.
    Homeserver { homeserver: Option<String> },
    /// The URL at which an authorization is to be approved.
    AuthorizationUrl { authorization_url: String },
    /// A transport URL.
    Url { url: String },
}

/// What every operation answers.
#[derive(Debug, PartialEq, Eq)]
pub enum Envelope {
    /// The operation succeeded with this data.
    Success { data: Reply },
    /// The operation failed with this message, under this code of the
    /// closed set.
    Failure { error: String, code: i32 },
}

/// Whether `e` is the failure with `message` under the code of `kind`.
pub open spec fn is_failure(e: Envelope, message: Seq<char>, kind: ErrorKind) -> bool {
    e matches Envelope::Failure { error, code } && code == kind.spec_code() && error@ == message
}

/// The failure of a category with a message.
pub fn failed(kind: ErrorKind, message: String) -> (e: Envelope)
    ensures
        is_failure(e, message@, kind),
{
    Envelope::Failure { error: message, code: kind.code() }
}

/// The failure that reports `err`: its message under its category's code.
pub fn failure(err: Error) -> (e: Envelope)
    ensures
        is_failure(e, err.message@, err.kind),
{
    failed(err.kind, err.message)
}

/// The failure with `message` for input that is refused before anything is
/// done: a validation failure.
pub fn error_response(message: &str) -> (e: Envelope)
    ensures
        is_failure(e, message@, ErrorKind::Validation),
        e matches Envelope::Failure { error, code } && code == 6 && error@ == message@,
{
    failed(ErrorKind::Validation, message.to_owned())
}

/// The success with `data`.
pub fn success_response(data: Reply) -> (e: Envelope)
    ensures
        e == (Envelope::Success { data }),
{
    Envelope::Success { data }
}

/// The success without data.
pub fn success_simple() -> (e: Envelope)
    ensures
        e == (Envelope::Success { data: Reply::Null }),
{
    success_response(Reply::Null)
}

/// Reports an operation that answers nothing.
pub fn simple_reply(outcome: Result<(), Error>) -> (e: Envelope)
    ensures
        match outcome {
            Ok(()) => e == (Envelope::Success { data: Reply::Null }),
            Err(err) => is_failure(e, err.message@, err.kind),
        },
{
    match outcome {
        Ok(()) => success_simple(),
        Err(err) => failure(err),
    }
}

/// Reports an operation that answers the content of an object.
pub fn content_reply(outcome: Result<String, Error>) -> (e: Envelope)
    ensures
        match outcome {
            Ok(text) => e matches Envelope::Success { data: Reply::Content { content } }
                && content@ == text@,
            Err(err) => is_failure(e, err.message@, err.kind),
        },
{
    match outcome {
        Ok(content) => success_response(Reply::Content { content }),
        Err(err) => failure(err),
    }
}

/// What the reading of a secret that may be missing answers: the secret, or
/// the category and the message of the refusal. A missing secret is a
/// validation failure with `missing`.
pub open spec fn secret_outcome(text: Option<Seq<char>>, missing: Seq<char>) -> Result<
    Seq<u8>,
    (ErrorKind, Seq<char>),
> {
    match text {
        None => Err((ErrorKind::Validation, missing)),
        Some(t) => match secret_hex_outcome(t) {
            Ok(secret) => Ok(secret),
            Err(ErrorKind::Parse) => Err(
                (ErrorKind::Parse, "Invalid hex encoding for secret key"@),
            ),
            Err(_) => Err((ErrorKind::Validation, "Secret key must be exactly 32 bytes"@)),
        },
    }
}

/// The text of a string that may be missing.
pub open spec fn opt_text(text: Option<&str>) -> Option<Seq<char>> {
    match text {
        Some(t) => Some(t@),
        None => None,
    }
}

/// Reads the keypair whose secret a caller handed over in hexadecimal.
/// Missing text is refused with `missing`; text that is not hexadecimal and
/// text that does not hold 32 bytes are refused each with its own message.
pub fn secret_keypair(text: Option<&str>, missing: &str) -> (r: Result<Keypair, Error>)
    ensures
        match secret_outcome(opt_text(text), missing@) {
            Ok(secret) => r matches Ok(k) && k.secret() == secret && k.public()
                == public_of_secret(secret),
            Err(fault) => r matches Err(e) && e.kind == fault.0 && e.message@ == fault.1,
        },
{
    match text {
        None => Err(Error::validation(missing)),
        Some(t) => match secret_from_hex(t) {
            Ok(secret) => Ok(Keypair::from_secret_key(&secret)),
            Err(e) => Err(e),
        },
    }
}

/// A fresh keypair, reported with its secret in hexadecimal and its public
/// key in display form.
pub fn pubky_keypair_random() -> (e: Envelope)
    ensures
        e matches Envelope::Success { data: Reply::Keypair { secret_key, public_key } }
            && secret_key@.len() == 64 && (exists|secret: Seq<u8>|
            #![trigger hex_text(secret)]
            secret_key@ == hex_text(secret) && public_key@ == display_marker() + z32_text(
                public_of_secret(secret),
            )),
{
    let keypair = Keypair::random();
    let secret = keypair.secret_key();
    let secret_key = secret_to_hex(&secret);
    let public_key = keypair.public_key().to_display_string();
    assert(secret_key@ == hex_text(keypair.secret()));
    success_response(Reply::Keypair { secret_key, public_key })
}

/// The public key of the keypair whose secret a caller handed over.
pub fn pubky_keypair_from_secret_key(secret_hex: Option<&str>) -> (e: Envelope)
    ensures
        match secret_outcome(opt_text(secret_hex), "Invalid secret key string"@) {
            Ok(secret) => e matches Envelope::Success { data: Reply::PublicKey { public_key } }
                && public_key@ == display_marker() + z32_text(public_of_secret(secret)),
            Err(fault) => is_failure(e, fault.1, fault.0),
        },
{
    match secret_keypair(secret_hex, "Invalid secret key string") {
        Ok(keypair) => success_response(
            Reply::PublicKey { public_key: keypair.public_key().to_display_string() },
        ),
        Err(error) => failure(error),
    }
}

/// What a signup has to send.
#[derive(Debug, PartialEq, Eq)]
pub struct SignupPlan {
    /// The keypair that signs up.
    pub keypair: Keypair,
    /// The homeserver to sign up at.
    pub homeserver: PublicKey,
    /// The signup token, where the caller has one.
    pub token: Option<String>,
    /// The network to work on.
    pub network: Network,
}

/// Decides whether a signup can go out. The arguments are checked in this
/// order: the secret must be there, the homeserver must be there, the secret
/// must be 64 hexadecimal digits, and the homeserver must read as a key, in
/// display form or raw.
pub fn pubky_signup_plan(
    secret_hex: Option<&str>,
    homeserver: Option<&str>,
    token: Option<&str>,
    testnet: i32,
) -> (r: Result<SignupPlan, Envelope>)
    ensures
        secret_hex is None ==> (r matches Err(f)
            && is_failure(f, "Invalid secret key"@, ErrorKind::Validation)),
        secret_hex is Some && homeserver is None ==> (r matches Err(f)
            && is_failure(f, "Invalid homeserver public key"@, ErrorKind::Validation)),
        homeserver matches Some(h) ==> secret_hex is Some ==> match secret_outcome(
            opt_text(secret_hex),
            "Invalid secret key"@,
        ) {
            Err(fault) => r matches Err(f) && is_failure(f, fault.1, fault.0),
            Ok(secret) => match z32_read(key_text(h@)) {
                Err(words) => r matches Err(f)
                    && is_failure(f, "Invalid homeserver public key: "@ + words, ErrorKind::Parse),
                Ok(key) => r matches Ok(plan) && plan.keypair.secret() == secret
                    && plan.homeserver@ == key && plan.network == (if testnet != 0 {
                    Network::Testnet
                } else {
                    Network::Mainnet
                }) && (match token {
                    Some(t) => plan.token matches Some(p) && p@ == t@,
                    None => plan.token is None,
                }),
            },
        },
{
    if secret_hex.is_none() {
        return Err(error_response("Invalid secret key"));
    }
    let h = match homeserver {
        None => return Err(error_response("Invalid homeserver public key")),
        Some(h) => h,
    };
    let keypair = match secret_keypair(secret_hex, "Invalid secret key") {
        Err(error) => return Err(failure(error)),
        Ok(keypair) => keypair,
    };
    let homeserver = match PublicKey::parse(h) {
        Err(e) => {
            let error = concat("Invalid homeserver public key: ", e.message.as_str());
            return Err(failed(ErrorKind::Parse, error));
        },
        Ok(key) => key,
    };
    let token = match token {
        Some(t) => Some(t.to_owned()),
        None => None,
    };
    Ok(SignupPlan { keypair, homeserver, token, network: network_of(testnet) })
}

/// Decides whether a signin can go out: the secret must be there and must be
/// 64 hexadecimal digits.
pub fn pubky_signin_plan(secret_hex: Option<&str>, testnet: i32) -> (r: Result<
    (Keypair, Network),
    Envelope,
>)
    ensures
        match secret_outcome(opt_text(secret_hex), "Invalid secret key"@) {
            Err(fault) => r matches Err(f) && is_failure(f, fault.1, fault.0),
            Ok(secret) => r matches Ok(plan) && plan.0.secret() == secret && plan.1 == (
            if testnet != 0 {
                Network::Testnet
            } else {
                Network::Mainnet
            }),
        },
{
    match secret_keypair(secret_hex, "Invalid secret key") {
        Err(error) => Err(failure(error)),
        Ok(keypair) => Ok((keypair, network_of(testnet))),
    }
}

/// Reports how a signup or a signin ended: the identity of the session in
/// display form and its capabilities as text, or the failure's message.
pub fn session_reply(outcome: Result<PubkySession, Error>) -> (e: Envelope)
    ensures
        match outcome {
            Ok(s) => e matches Envelope::Success { data: Reply::Session { public_key, capabilities } }
                && public_key@ == display_marker() + z32_text(s@.public_key) && capabilities@
                == crate::capabilities::format(s@.capabilities),
            Err(err) => is_failure(e, err.message@, err.kind),
        },
{
    match outcome {
        Ok(session) => success_response(
            Reply::Session {
                public_key: session.public_key().to_display_string(),
                capabilities: session.capabilities().to_text(),
            },
        ),
        Err(err) => failure(err),
    }
}

/// What an operation on a signed-in identity's storage has to do: sign in
/// with the keypair, then work on the path.
#[derive(Debug, PartialEq, Eq)]
pub struct StoragePlan {
    /// The keypair to sign in with.
    pub keypair: Keypair,
    /// The path to work on.
    pub path: String,
    /// The content to write, for a write.
    pub content: Option<String>,
    /// The network to work on.
    pub network: Network,
}

/// Decides whether a read or a removal can go out. The arguments are checked
/// in this order: the secret must be there, the path must be there, and the
/// secret must be 64 hexadecimal digits.
pub fn path_plan(secret_hex: Option<&str>, path: Option<&str>, testnet: i32) -> (r: Result<
    StoragePlan,
    Envelope,
>)
    ensures
        secret_hex is None ==> (r matches Err(f)
            && is_failure(f, "Invalid secret key"@, ErrorKind::Validation)),
        secret_hex is Some && path is None ==> (r matches Err(f)
            && is_failure(f, "Invalid path"@, ErrorKind::Validation)),
        path matches Some(p) ==> secret_hex is Some ==> match secret_outcome(
            opt_text(secret_hex),
            "Invalid secret key"@,
        ) {
            Err(fault) => r matches Err(f) && is_failure(f, fault.1, fault.0),
            Ok(secret) => r matches Ok(plan) && plan.keypair.secret() == secret && plan.path@
                == p@ && plan.content is None && plan.network == (if testnet != 0 {
                Network::Testnet
            } else {
                Network::Mainnet
            }),
        },
{
    if secret_hex.is_none() {
        return Err(error_response("Invalid secret key"));
    }
    let p = match path {
        None => return Err(error_response("Invalid path")),
        Some(p) => p,
    };
    match secret_keypair(secret_hex, "Invalid secret key") {
        Err(error) => Err(failure(error)),
        Ok(keypair) => Ok(
            StoragePlan { keypair, path: p.to_owned(), content: None, network: network_of(testnet) },
        ),
    }
}

/// Decides whether a write can go out. The arguments are checked in this
/// order: the secret, the path and the content must be there, and the secret
/// must be 64 hexadecimal digits.
pub fn pubky_put_plan(
    secret_hex: Option<&str>,
    path: Option<&str>,
    content: Option<&str>,
    testnet: i32,
) -> (r: Result<StoragePlan, Envelope>)
    ensures
        secret_hex is None ==> (r matches Err(f)
            && is_failure(f, "Invalid secret key"@, ErrorKind::Validation)),
        secret_hex is Some && path is None ==> (r matches Err(f)
            && is_failure(f, "Invalid path"@, ErrorKind::Validation)),
        secret_hex is Some && path is Some && content is None ==> (r matches Err(f)
            && is_failure(f, "Invalid content"@, ErrorKind::Validation)),
        path matches Some(p) ==> content matches Some(c) ==> secret_hex is Some
            ==> match secret_outcome(opt_text(secret_hex), "Invalid secret key"@) {
            Err(fault) => r matches Err(f) && is_failure(f, fault.1, fault.0),
            Ok(secret) => r matches Ok(plan) && plan.keypair.secret() == secret && plan.path@
                == p@ && (plan.content matches Some(sent) && sent@ == c@) && plan.network == (
            if testnet != 0 {
                Network::Testnet
            } else {
                Network::Mainnet
            }),
        },
{
    if secret_hex.is_none() {
        return Err(error_response("Invalid secret key"));
    }
    let p = match path {
        None => return Err(error_response("Invalid path")),
        Some(p) => p,
    };
    let c = match content {
        None => return Err(error_response("Invalid content")),
        Some(c) => c,
    };
    match secret_keypair(secret_hex, "Invalid secret key") {
        Err(error) => Err(failure(error)),
        Ok(keypair) => Ok(
            StoragePlan {
                keypair,
                path: p.to_owned(),
                content: Some(c.to_owned()),
                network: network_of(testnet),
            },
        ),
    }
}

/// What a read of public storage has to ask for.
#[derive(Debug, PartialEq, Eq)]
pub struct PublicPlan {
    /// The address to read.
    pub address: Address,
    /// The most entries to list, where the caller set a limit.
    pub limit: Option<u16>,
    /// The network to work on.
    pub network: Network,
}

/// Decides whether a read of public storage can go out: the address must be
/// there and must read as one. A limit of zero stands for no limit.
pub fn public_plan(address: Option<&str>, limit: u16, testnet: i32) -> (r: Result<
    PublicPlan,
    Envelope,
>)
    ensures
        address is None ==> (r matches Err(f)
            && is_failure(f, "Invalid address"@, ErrorKind::Validation)),
        address matches Some(a) ==> match address_read(a@) {
            Err(kind) => r matches Err(f) && is_failure(f, address_fault(a@), kind),
            Ok(parts) => r matches Ok(plan) && plan.address.owner@ == parts.0
                && plan.address.path@ == parts.1 && plan.limit == (if limit > 0 {
                Some(limit)
            } else {
                None::<u16>
            }) && plan.network == (if testnet != 0 {
                Network::Testnet
            } else {
                Network::Mainnet
            }),
        },
{
    let a = match address {
        None => return Err(error_response("Invalid address")),
        Some(a) => a,
    };
    match Address::parse(a) {
        Err(e) => Err(failure(e)),
        Ok(address) => Ok(
            PublicPlan {
                address,
                limit: if limit > 0 {
                    Some(limit)
                } else {
                    None
                },
                network: network_of(testnet),
            },
        ),
    }
}

/// What an entry is reported as.
pub open spec fn info_of(e: crate::storage::EntryView) -> (Seq<char>, Seq<char>, Seq<char>, bool) {
    (
        "pubky://"@ + z32_text(e.owner) + e.path,
        e.path,
        display_marker() + z32_text(e.owner),
        e.path.len() > 0 && e.path.last() == '/',
    )
}

/// What a reported entry holds.
pub open spec fn info_view(i: EntryInfo) -> (Seq<char>, Seq<char>, Seq<char>, bool) {
    (i.url@, i.path@, i.owner@, i.is_dir)
}

/// Reports a listing of `dir`: of what the homeserver sent, the entries
/// under `dir`, in order and no more than the limit, each with its URL, its
/// path, its owner in display form and whether it is a directory.
pub fn entries_reply(dir: &str, limit: Option<u16>, outcome: Result<Vec<Entry>, Error>) -> (e:
    Envelope)
    ensures
        match outcome {
            Err(err) => is_failure(e, err.message@, err.kind),
            Ok(sent) => e matches Envelope::Success { data: Reply::Entries { entries } }
                && entries@.len() == listing(dir@, limit, entry_views(sent@)).len() && (forall|
                i: int,
            |
                0 <= i < entries@.len() ==> info_view(#[trigger] entries@[i]) == info_of(
                    listing(dir@, limit, entry_views(sent@))[i],
                )),
        },
{
    match outcome {
        Err(err) => failure(err),
        Ok(sent) => {
            let shown = crate::storage::accept_listing(dir, limit, &sent);
            let ghost wanted = listing(dir@, limit, entry_views(sent@));
            let mut entries: Vec<EntryInfo> = Vec::new();
            let n: usize = shown.len();
            let mut i: usize = 0;
            while i < n
                invariant
                    n == shown@.len(),
                    i <= n,
                    entries@.len() == i,
                    entry_views(shown@) == wanted,
                    forall|j: int|
                        0 <= j < i ==> info_view(#[trigger] entries@[j]) == info_of(wanted[j]),
                decreases n - i,
            {
                let entry = &shown[i];
                proof {
                    assert(wanted[i as int] == shown@[i as int]@);
                }
                entries.push(
                    EntryInfo {
                        url: entry.to_pubky_url(),
                        path: entry.path.clone(),
                        owner: entry.owner.to_display_string(),
                        is_dir: entry.is_dir(),
                    },
                );
                i = i + 1;
            }
            success_response(Reply::Entries { entries })
        },
    }
}

/// What an HTTP request has to send.
#[derive(Debug, PartialEq, Eq)]
pub struct HttpPlan {
    /// The method.
    pub method: Method,
    /// The URL, as given.
    pub url: String,
    /// The engine that the URL is routed to.
    pub engine: Engine,
    /// The headers to set.
    pub headers: Vec<Header>,
    /// The body, where the caller gave one.
    pub body: Option<String>,
    /// The network to work on.
    pub network: Network,
}

/// Decides whether an HTTP request can go out. The arguments are checked in
/// this order: the method and the URL must be there, the method must be one
/// of the seven that are known, and the URL must read as one. The request is
/// then routed by its URL; headers are read from their JSON text; method,
/// URL and body pass through unchanged.
pub fn pubky_http_request_plan(
    method: Option<&str>,
    url: Option<&str>,
    body: Option<&str>,
    headers_json: Option<&str>,
    testnet: i32,
) -> (r: Result<HttpPlan, Envelope>)
    ensures
        method is None ==> (r matches Err(f)
            && is_failure(f, "Invalid method"@, ErrorKind::Validation)),
        method is Some && url is None ==> (r matches Err(f)
            && is_failure(f, "Invalid URL"@, ErrorKind::Validation)),
        method matches Some(m) ==> url matches Some(u) ==> match method_named(uppercased(m@)) {
            None => r matches Err(f)
                && is_failure(f, "Unsupported HTTP method: "@ + m@, ErrorKind::Validation),
            Some(known) => match url_read(u@) {
                Err(words) => r matches Err(f)
                    && is_failure(f, "Invalid URL: "@ + words, ErrorKind::Validation),
                Ok(_) => r matches Ok(plan) && plan.method == known && plan.url@ == u@
                    && plan.engine == route(u@) && headers_view(plan.headers@) == headers_of(
                    opt_text(headers_json),
                ) && (match body {
                    Some(b) => plan.body matches Some(sent) && sent@ == b@,
                    None => plan.body is None,
                }) && plan.network == (if testnet != 0 {
                    Network::Testnet
                } else {
                    Network::Mainnet
                }),
            },
        },
{
    let m = match method {
        None => return Err(error_response("Invalid method")),
        Some(m) => m,
    };
    let u = match url {
        None => return Err(error_response("Invalid URL")),
        Some(u) => u,
    };
    let known = match crate::http::parse_method(m) {
        None => {
            return Err(failed(ErrorKind::Validation, concat("Unsupported HTTP method: ", m)));
        },
        Some(known) => known,
    };
    let engine = match crate::client::route_url(u) {
        Err(words) => {
            return Err(failed(ErrorKind::Validation, concat("Invalid URL: ", words.as_str())));
        },
        Ok(engine) => engine,
    };
    let headers = crate::http::headers_from_json(headers_json);
    let body = match body {
        Some(b) => Some(b.to_owned()),
        None => None,
    };
    Ok(HttpPlan { method: known, url: u.to_owned(), engine, headers, body, network: network_of(testnet) })
}

/// Reports an HTTP response: its status, its headers and its body.
pub fn http_reply(outcome: Result<(u16, Vec<Header>, String), Error>) -> (e: Envelope)
    ensures
        match outcome {
            Ok(answer) => e == (Envelope::Success {
                data: Reply::Http { status: answer.0, headers: answer.1, body: answer.2 },
            }),
            Err(err) => is_failure(e, err.message@, err.kind),
        },
{
    match outcome {
        Ok(answer) => success_response(
            Reply::Http { status: answer.0, headers: answer.1, body: answer.2 },
        ),
        Err(err) => failure(err),
    }
}

/// Decides whether a homeserver can be looked up: the key must be there and
/// must read as one, in display form or raw.
pub fn pubky_resolve_homeserver_plan(public_key: Option<&str>, testnet: i32) -> (r: Result<
    (PublicKey, Network),
    Envelope,
>)
    ensures
        public_key is None ==> (r matches Err(f)
            && is_failure(f, "Invalid public key"@, ErrorKind::Validation)),
        public_key matches Some(t) ==> match z32_read(key_text(t@)) {
            Err(words) => r matches Err(f)
                && is_failure(f, "Invalid public key: "@ + words, ErrorKind::Parse),
            Ok(key) => r matches Ok(plan) && plan.0@ == key && plan.1 == (if testnet != 0 {
                Network::Testnet
            } else {
                Network::Mainnet
            }),
        },
{
    let t = match public_key {
        None => return Err(error_response("Invalid public key")),
        Some(t) => t,
    };
    match PublicKey::parse(t) {
        Err(e) => Err(
            failed(ErrorKind::Parse, concat("Invalid public key: ", e.message.as_str())),
        ),
        Ok(key) => Ok((key, network_of(testnet))),
    }
}

/// Reports what the resolver answered: the homeserver in display form, or
/// none. That none is published is a success.
pub fn homeserver_reply(homeserver: Option<PublicKey>) -> (e: Envelope)
    ensures
        match homeserver {
            Some(key) => e matches Envelope::Success {
                data: Reply::Homeserver { homeserver: Some(shown) },
            } && shown@ == display_marker() + z32_text(key@),
            None => e == (Envelope::Success { data: Reply::Homeserver { homeserver: None } }),
        },
{
    match homeserver {
        Some(key) => success_response(
            Reply::Homeserver { homeserver: Some(key.to_display_string()) },
        ),
        None => success_response(Reply::Homeserver { homeserver: None }),
    }
}

/// Decides whether an authorization flow can start: the capabilities, the
/// empty text standing for missing ones, must read as a set.
pub fn pubky_auth_start_plan(capabilities: Option<&str>, testnet: i32) -> (r: Result<
    (Capabilities, Network),
    Envelope,
>)
    ensures
        match parse_text(
            match capabilities {
                Some(c) => c@,
                None => Seq::<char>::empty(),
            },
        ) {
            Err(entry) => r matches Err(f)
                && is_failure(
                    f,
                    "Invalid capabilities: "@ + (crate::capabilities::bad_entry_prefix() + entry),
                    ErrorKind::Parse,
                ),
            Ok(caps) => r matches Ok(plan) && plan.0@ == caps && plan.1 == (if testnet != 0 {
                Network::Testnet
            } else {
                Network::Mainnet
            }),
        },
{
    proof {
        reveal_strlit("");
        assert(""@ =~= Seq::<char>::empty());
    }
    let text = match capabilities {
        Some(c) => c,
        None => "",
    };
    match Capabilities::parse(text) {
        Err(e) => Err(
            failed(ErrorKind::Parse, concat("Invalid capabilities: ", e.message.as_str())),
        ),
        Ok(caps) => Ok((caps, network_of(testnet))),
    }
}

/// Resolves an address to its transport URL.
pub fn pubky_resolve_address(address: Option<&str>) -> (e: Envelope)
    ensures
        address is None ==> (is_failure(e, "Invalid address"@, ErrorKind::Validation)),
        address matches Some(a) ==> match address_read(a@) {
            Ok(parts) => e matches Envelope::Success { data: Reply::Url { url } } && url@
                == "https://"@ + crate::client::reserved_prefix() + z32_text(parts.0) + parts.1,
            Err(kind) => is_failure(e, "Failed to resolve address: "@ + address_fault(a@), kind),
        },
{
    let a = match address {
        None => return error_response("Invalid address"),
        Some(a) => a,
    };
    match Address::parse(a) {
        Ok(parsed) => success_response(Reply::Url { url: parsed.to_transport_url() }),
        Err(e) => {
            let error = concat("Failed to resolve address: ", e.message.as_str());
            failed(e.kind, error)
        },
    }
}

} // verus!
