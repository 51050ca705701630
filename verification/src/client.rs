//! Host classification and transport routing.
//!
//! A request goes out through one of two engines. Which one is decided by the
//! host of its URL alone: a host that names a key is served under key-pinned
//! trust, every other host under certificate-authority trust. A key in display
//! form is never a transport host.

use vstd::prelude::*;
use crate::error::{Error, ErrorKind};
use crate::keys::{
    display_marker, is_prefixed_form, is_too_short, is_z32_char, is_z32_of, lemma_display_form,
    lemma_short_text_is_not_display_form, z32_key, z32_text, PublicKey,
};
use crate::text::{concat, strip_prefix};

verus! {

/// What a host is, for routing.
#[derive(Clone, Copy, Debug, PartialEq, Eq, Structural)]
pub enum HostKind {
    /// The reserved label, then a raw key: the key is resolved out of band.
    ResolvedPubky,
    /// A conventional host name.
    Icann,
    /// A raw key as host; also the reserved label followed by anything that
    /// is neither a raw key nor a key in display form.
    Pubky,
}

/// The label that marks a host whose remainder is a raw key, with its dot.
pub open spec fn reserved_prefix() -> Seq<char> {
    seq!['_', 'p', 'u', 'b', 'k', 'y', '.']
}

/// The host without the reserved label, where it carries one.
pub open spec fn transport_name(host: Seq<char>) -> Seq<char> {
    if reserved_prefix().is_prefix_of(host) {
        host.skip(7)
    } else {
        host
    }
}

/// The kind of a host. The reserved label is looked for first; then, on
/// either side, the display form before the raw key.
pub open spec fn classify(host: Seq<char>) -> HostKind {
    if reserved_prefix().is_prefix_of(host) {
        let rest = host.skip(7);
        if is_prefixed_form(rest) {
            HostKind::Icann
        } else if z32_key(rest) is Some {
            HostKind::ResolvedPubky
        } else {
            HostKind::Pubky
        }
    } else if is_prefixed_form(host) || z32_key(host) is None {
        HostKind::Icann
    } else {
        HostKind::Pubky
    }
}

/// The key that a host names: the one read from its transport name, unless
/// that name is in display form.
pub open spec fn host_key(host: Seq<char>) -> Option<Seq<u8>> {
    if is_prefixed_form(transport_name(host)) {
        None
    } else {
        z32_key(transport_name(host))
    }
}

/// The bytes of a key that may be absent.
pub open spec fn key_view(key: Option<PublicKey>) -> Option<Seq<u8>> {
    match key {
        Some(k) => Some(k@),
        None => None,
    }
}

/// The text of a string that may be absent.
pub open spec fn text_view(text: Option<String>) -> Option<Seq<char>> {
    match text {
        Some(t) => Some(t@),
        None => None,
    }
}

/// Classifies a host name. A host whose transport name takes fewer than 52
/// bytes names no key: it is conventional, or, behind the reserved label, a
/// raw key host by fallback.
pub fn classify_host(host: &str) -> (kind: HostKind)
    ensures
        kind == classify(host@),
        is_too_short(transport_name(host@)) ==> kind == short_host_kind(host@),
{
    proof {
        reveal_strlit("_pubky.");
        assert("_pubky."@ =~= reserved_prefix());
        if is_too_short(transport_name(host@)) {
            lemma_short_text_is_not_display_form(transport_name(host@));
        }
    }
    match strip_prefix(host, "_pubky.") {
        Some(pk_host) => {
            if PublicKey::is_pubky_prefixed(pk_host) {
                return HostKind::Icann;
            }
            if PublicKey::try_from_z32(pk_host).is_ok() {
                return HostKind::ResolvedPubky;
            }
            HostKind::Pubky
        },
        None => {
            if PublicKey::is_pubky_prefixed(host) || PublicKey::try_from_z32(host).is_err() {
                return HostKind::Icann;
            }
            HostKind::Pubky
        },
    }
}

/// The key that a host names, if it names one.
pub fn host_public_key(host: &str) -> (key: Option<PublicKey>)
    ensures
        key_view(key) == host_key(host@),
        is_too_short(transport_name(host@)) ==> key is None,
{
    proof {
        reveal_strlit("_pubky.");
        assert("_pubky."@ =~= reserved_prefix());
    }
    let name = match strip_prefix(host, "_pubky.") {
        Some(rest) => rest,
        None => host,
    };
    if PublicKey::is_pubky_prefixed(name) {
        return None;
    }
    match PublicKey::try_from_z32(name) {
        Ok(key) => Some(key),
        Err(_) => None,
    }
}

/// What `prepare_host` answers: a refusal where the transport name is in
/// display form; else the transport name as raw-key token for a host that
/// classifies as a key host, resolved or raw, and nothing for a conventional
/// host.
pub open spec fn prepared(host: Seq<char>) -> Result<Option<Seq<char>>, ErrorKind> {
    let name = transport_name(host);
    if is_prefixed_form(name) {
        Err(ErrorKind::Validation)
    } else {
        match classify(host) {
            HostKind::Icann => Ok(None),
            _ => Ok(Some(name)),
        }
    }
}

/// The kind of a host whose transport name is too short to hold a key: a
/// raw key host by fallback behind the reserved label, a conventional host
/// without it.
pub open spec fn short_host_kind(host: Seq<char>) -> HostKind {
    if reserved_prefix().is_prefix_of(host) {
        HostKind::Pubky
    } else {
        HostKind::Icann
    }
}

/// The outcome of a preparation, by its views.
pub open spec fn prepared_view(r: Result<Option<String>, Error>) -> Result<
    Option<Seq<char>>,
    ErrorKind,
> {
    match r {
        Ok(token) => Ok(text_view(token)),
        Err(e) => Err(e.kind),
    }
}

/// Checks a host before a request goes out. A key in display form, with or
/// without the reserved label in front, is refused with a validation error.
/// Otherwise the answer is the raw-key token, which is the transport name,
/// for every host that classifies as a key host, resolved or raw, the
/// fallback behind the reserved label included; and nothing for a
/// conventional host.
pub fn prepare_host(host: &str) -> (r: Result<Option<String>, Error>)
    ensures
        prepared_view(r) == prepared(host@),
        r is Err <==> is_prefixed_form(transport_name(host@)),
        r matches Err(e) ==> e.kind == ErrorKind::Validation && e.message@
            == "pubky prefix is not allowed in transport hosts; use raw z32"@,
        r matches Ok(token) ==> (token is None <==> classify(host@) == HostKind::Icann),
        is_too_short(transport_name(host@)) ==> (r matches Ok(token) && text_view(token) == (
        if reserved_prefix().is_prefix_of(host@) {
            Some(transport_name(host@))
        } else {
            None
        })),
{
    proof {
        reveal_strlit("_pubky.");
        assert("_pubky."@ =~= reserved_prefix());
        if is_too_short(transport_name(host@)) {
            lemma_short_text_is_not_display_form(transport_name(host@));
        }
    }
    let stripped = strip_prefix(host, "_pubky.");
    let name = match stripped {
        Some(rest) => rest,
        None => host,
    };
    if PublicKey::is_pubky_prefixed(name) {
        return Err(
            Error::validation("pubky prefix is not allowed in transport hosts; use raw z32"),
        );
    }
    if stripped.is_some() || PublicKey::try_from_z32(name).is_ok() {
        return Ok(Some(name.to_owned()));
    }
    Ok(None)
}

/// The host `_pubky.<key>` under which a key is reached once it has been
/// resolved. It classifies as a resolved key host and names this key.
pub fn resolved_host(key: &PublicKey) -> (host: String)
    ensures
        host@ == reserved_prefix() + z32_text(key@),
        classify(host@) == HostKind::ResolvedPubky,
        host_key(host@) == Some(key@),
{
    let raw = key.z32();
    proof {
        reveal_strlit("_pubky.");
        assert("_pubky."@ =~= reserved_prefix());
        lemma_resolved_key_host(raw@, key@);
    }
    concat("_pubky.", raw.as_str())
}

/// The host that is the raw key itself. It classifies as a raw key host and
/// names this key.
pub fn raw_host(key: &PublicKey) -> (host: String)
    ensures
        host@ == z32_text(key@),
        classify(host@) == HostKind::Pubky,
        host_key(host@) == Some(key@),
{
    let raw = key.z32();
    proof {
        lemma_raw_key_host(raw@, key@);
    }
    raw
}

/// A canonical key text does not begin with the reserved label.
pub proof fn lemma_key_text_has_no_label(text: Seq<char>)
    requires
        text.len() > 0 ==> is_z32_char(text[0]) || text[0] == 'p',
    ensures
        !reserved_prefix().is_prefix_of(text),
        transport_name(text) == text,
{
    if reserved_prefix().is_prefix_of(text) {
        assert(text.subrange(0, 7)[0] == reserved_prefix()[0]);
    }
}

/// The reserved label in front of a text gives that text back as the
/// transport name.
pub proof fn lemma_label_is_stripped(text: Seq<char>)
    ensures
        reserved_prefix().is_prefix_of(reserved_prefix() + text),
        (reserved_prefix() + text).skip(7) == text,
        transport_name(reserved_prefix() + text) == text,
{
    let host = reserved_prefix() + text;
    assert(host.subrange(0, 7) =~= reserved_prefix());
    assert(host.skip(7) =~= text);
}

/// The reserved label, a dot and the canonical text of a key classify as a
/// resolved key host that names the key.
pub proof fn lemma_resolved_key_host(text: Seq<char>, key: Seq<u8>)
    requires
        is_z32_of(text, key),
    ensures
        classify(reserved_prefix() + text) == HostKind::ResolvedPubky,
        host_key(reserved_prefix() + text) == Some(key),
        prepared(reserved_prefix() + text) matches Ok(Some(host)) && host == text,
{
    lemma_label_is_stripped(text);
    lemma_display_form(text, key);
}

/// A key in display form never routes as a key host, with the reserved label
/// in front or without it, and is refused as a transport host.
pub proof fn lemma_display_form_is_conventional(text: Seq<char>)
    requires
        is_prefixed_form(text),
    ensures
        classify(text) == HostKind::Icann,
        classify(reserved_prefix() + text) == HostKind::Icann,
        host_key(text) is None,
        host_key(reserved_prefix() + text) is None,
        prepared(text) is Err,
        prepared(reserved_prefix() + text) is Err,
{
    assert(text.subrange(0, 5)[0] == display_marker()[0]);
    lemma_key_text_has_no_label(text);
    lemma_label_is_stripped(text);
}

/// The canonical text of a key classifies as a raw key host that names the
/// key. Such a text is never in display form.
pub proof fn lemma_raw_key_host(text: Seq<char>, key: Seq<u8>)
    requires
        is_z32_of(text, key),
    ensures
        !is_prefixed_form(text),
        classify(text) == HostKind::Pubky,
        host_key(text) == Some(key),
        prepared(text) matches Ok(Some(host)) && host == text,
{
    lemma_display_form(text, key);
    lemma_key_text_has_no_label(text);
}

/// The reserved label in front of what is neither a raw key nor a key in
/// display form falls back to a raw key host that names no key; its raw-key
/// token is what follows the label.
pub proof fn lemma_label_fallback(rest: Seq<char>)
    requires
        !is_prefixed_form(rest),
        z32_key(rest) is None,
    ensures
        classify(reserved_prefix() + rest) == HostKind::Pubky,
        host_key(reserved_prefix() + rest) is None,
        prepared(reserved_prefix() + rest) matches Ok(Some(token)) && token == rest,
{
    lemma_label_is_stripped(rest);
}

/// A host is given a raw-key token exactly where it classifies as a key
/// host, resolved or raw; the token is its transport name. A conventional
/// host is given none, unless its transport name is in display form, which
/// is refused.
pub proof fn lemma_token_follows_kind(host: Seq<char>)
    ensures
        prepared(host) is Err <==> is_prefixed_form(transport_name(host)),
        prepared(host) matches Ok(Some(token)) ==> token == transport_name(host) && classify(host)
            != HostKind::Icann,
        prepared(host) matches Ok(None) ==> classify(host) == HostKind::Icann,
        classify(host) != HostKind::Icann ==> (prepared(host) matches Ok(Some(token)) && token
            == transport_name(host)),
{
}

/// The two transport engines.
#[derive(Clone, Copy, Debug, PartialEq, Eq, Structural)]
pub enum Engine {
    /// Trusts a peer certificate bound to the key in the host.
    KeyPinned,
    /// Trusts a certificate-authority chain.
    CaVerified,
}

/// The engine for a kind of host.
pub open spec fn engine_for(kind: HostKind) -> Engine {
    match kind {
        HostKind::Icann => Engine::CaVerified,
        HostKind::ResolvedPubky => Engine::KeyPinned,
        HostKind::Pubky => Engine::KeyPinned,
    }
}

/// What `url::Url::parse` makes of a text: the host of the URL it reads,
/// which may be absent, or the words of its refusal.
pub uninterp spec fn url_read(url: Seq<char>) -> Result<Option<Seq<char>>, Seq<char>>;

/// The views of what the URL wrapper hands out.
pub open spec fn host_view(r: Result<Option<String>, String>) -> Result<
    Option<Seq<char>>,
    Seq<char>,
> {
    match r {
        Ok(host) => Ok(text_view(host)),
        Err(message) => Err(message@),
    }
}

/// Calls `url::Url::parse` and, on the URL it read, `Url::host_str`; hands
/// out the host, or the text of the parse error. `url_read` names the result.
#[verifier::external_body]
fn url_host(url: &str) -> (r: Result<Option<String>, String>)
    ensures
        host_view(r) == url_read(url@),
{
    url::Url::parse(url).map(|u| u.host_str().map(str::to_owned)).map_err(|e| e.to_string())
}

/// The engine that a URL is sent through: the one for its host's kind, and
/// the key-pinned one where no host can be read from it.
pub open spec fn route(url: Seq<char>) -> Engine {
    match url_read(url) {
        Ok(Some(host)) => engine_for(classify(host)),
        _ => Engine::KeyPinned,
    }
}

/// The engine for a host that has been read from a URL, if one was read.
pub fn select_engine(host: Option<&str>) -> (engine: Engine)
    ensures
        engine == match host {
            Some(h) => engine_for(classify(h@)),
            None => Engine::KeyPinned,
        },
{
    match host {
        Some(h) => match classify_host(h) {
            HostKind::Icann => Engine::CaVerified,
            HostKind::ResolvedPubky => Engine::KeyPinned,
            HostKind::Pubky => Engine::KeyPinned,
        },
        None => Engine::KeyPinned,
    }
}

/// A client that holds the two engines and routes each request to one.
pub struct PubkyHttpClient<E> {
    /// The key-pinned engine.
    pub http: E,
    /// The certificate-authority engine.
    pub icann_http: E,
}

/// A request that has been routed: the engine to send it through, beside the
/// method and the URL as they were given.
pub struct RequestBuilder<'a, E> {
    /// The engine that was selected.
    pub engine: &'a E,
    /// Which of the two engines it is.
    pub route: Engine,
    /// The method, as given.
    pub method: crate::http::Method,
    /// The URL, as given.
    pub url: String,
}

impl<E> PubkyHttpClient<E> {
    /// A client over the two engines.
    pub fn new(http: E, icann_http: E) -> (client: PubkyHttpClient<E>)
        ensures
            client.http == http,
            client.icann_http == icann_http,
    {
        PubkyHttpClient { http, icann_http }
    }

    /// Checks a URL before a request goes out. A URL that cannot be read is
    /// refused with a validation error that holds the reader's words. A URL
    /// whose host, without the reserved label, is a key in display form is
    /// refused with a validation error. Otherwise the answer is the raw-key
    /// token, the host without the reserved label, where the host classifies
    /// as a key host, resolved or raw, and nothing where it classifies as a
    /// conventional host or the URL has no host.
    pub fn prepare_request(&self, url: &str) -> (r: Result<Option<String>, Error>)
        ensures
            url_read(url@) matches Err(words) ==> (r matches Err(e) && e.kind
                == ErrorKind::Validation && e.message@ == "Invalid URL: "@ + words),
            url_read(url@) matches Ok(Some(host)) ==> prepared_view(r) == prepared(host),
            url_read(url@) matches Ok(Some(host)) ==> (r is Err <==> is_prefixed_form(
                transport_name(host),
            )),
            url_read(url@) matches Ok(Some(host)) ==> (r matches Err(e) ==> e.message@
                == "pubky prefix is not allowed in transport hosts; use raw z32"@),
            url_read(url@) matches Ok(Some(host)) ==> (r matches Ok(token) ==> (token is None
                <==> classify(host) == HostKind::Icann)),
            url_read(url@) matches Ok(None) ==> r matches Ok(None),
    {
        match url_host(url) {
            Err(words) => Err(
                Error { kind: ErrorKind::Validation, message: concat("Invalid URL: ", words.as_str()) },
            ),
            Ok(Some(host)) => prepare_host(host.as_str()),
            Ok(None) => Ok(None),
        }
    }

    /// Routes a request: selects the engine by the host of the URL. Method
    /// and URL pass through unchanged.
    pub fn request<'a>(&'a self, method: crate::http::Method, url: &str) -> (rb: RequestBuilder<
        'a,
        E,
    >)
        ensures
            rb.route == route(url@),
            rb.engine == (if route(url@) == Engine::KeyPinned {
                &self.http
            } else {
                &self.icann_http
            }),
            rb.method == method,
            rb.url@ == url@,
    {
        let host = match url_host(url) {
            Ok(host) => host,
            Err(_) => None,
        };
        let which = match &host {
            Some(h) => select_engine(Some(h.as_str())),
            None => select_engine(None),
        };
        let engine = match which {
            Engine::KeyPinned => &self.http,
            Engine::CaVerified => &self.icann_http,
        };
        RequestBuilder { engine, route: which, method, url: url.to_owned() }
    }
}

/// Routes a URL that must read as one: the engine for its host, or the
/// reader's words where it does not read.
pub fn route_url(url: &str) -> (r: Result<Engine, String>)
    ensures
        match url_read(url@) {
            Ok(_) => r matches Ok(engine) && engine == route(url@),
            Err(words) => r matches Err(w) && w@ == words,
        },
{
    match url_host(url) {
        Err(words) => Err(words),
        Ok(Some(host)) => Ok(select_engine(Some(host.as_str()))),
        Ok(None) => Ok(select_engine(None)),
    }
}

} // verus!
