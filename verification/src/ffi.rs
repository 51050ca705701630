//! The handle-based boundary: what each operation decides about its
//! arguments before anything is done, and how each outcome is reported.
//!
//! A foreign caller hands over handles and strings that may be missing. Here
//! a missing argument is `None`; the caller's side of the boundary turns
//! pointers into options and reports back what these functions answer.

use vstd::prelude::*;
use crate::client::PubkyHttpClient;
use crate::error::{c_text, Error, ErrorKind, FfiBytesResult, FfiResult};
use crate::keys::{
    is_z32_of, passphrase_fits, public_of_secret, read_err, read_ok, recovery_read, z32_read,
    Keypair, PublicKey,
};
use crate::runtime::Pubky;
use crate::session::{PubkySession, PubkySigner};
use crate::storage::{PublicStorage, SessionStorage};

verus! {

/// A handle to a client.
pub struct FfiHttpClient<E>(pub PubkyHttpClient<E>);

/// A handle to a facade.
pub struct FfiPubky<E>(pub Pubky<E>);

/// A handle to a signer.
pub struct FfiSigner(pub PubkySigner);

/// A handle to a session.
pub struct FfiSession(pub PubkySession);

/// A handle to the storage of a session.
pub struct FfiSessionStorage(pub SessionStorage);

/// A handle to public storage.
pub struct FfiPublicStorage(pub PublicStorage);

/// A handle to a keypair.
pub struct FfiKeypair(pub Keypair);

/// A handle to a public key.
pub struct FfiPublicKey(pub PublicKey);

/// A refusal before anything was done. A missing handle, a missing string
/// and a string that cannot be read are malformed input that is caught
/// locally: a validation failure, with its code.
pub fn rejected(message: &str) -> (r: FfiResult)
    ensures
        r.data is None,
        r.error matches Some(m) && m@ == c_text(message@, "Unknown error"@),
        r.code == ErrorKind::Validation.spec_code(),
        r.code == 6,
{
    FfiResult::from_pubky_error(Error::validation(message))
}

/// A refusal before anything was done, for an operation that answers bytes.
pub fn rejected_bytes(message: &str) -> (r: FfiBytesResult)
    ensures
        r.data is None,
        r.len == 0,
        r.error matches Some(m) && m@ == c_text(message@, "Unknown error"@),
        r.code == ErrorKind::Validation.spec_code(),
        r.code == 6,
{
    FfiBytesResult::error(message.to_owned(), ErrorKind::Validation.code())
}

/// A fresh keypair, whose secret is drawn at random.
pub fn pubky_keypair_random() -> (handle: FfiKeypair)
    ensures
        handle.0.public() == public_of_secret(handle.0.secret()),
{
    FfiKeypair(Keypair::random())
}

/// The keypair of a secret that is handed over as bytes: only 32 bytes make
/// a secret.
pub fn pubky_keypair_from_secret_key(secret: Option<&[u8]>) -> (handle: Option<FfiKeypair>)
    ensures
        handle is Some <==> (secret matches Some(bytes) && bytes@.len() == 32),
        handle matches Some(k) ==> k.0.secret() == secret->0@ && k.0.public() == public_of_secret(
            secret->0@,
        ),
{
    match secret {
        None => None,
        Some(bytes) => {
            if bytes.len() != 32 {
                return None;
            }
            let mut array: [u8; 32] = [0u8; 32];
            let mut i: usize = 0;
            while i < 32
                invariant
                    i <= 32,
                    bytes@.len() == 32,
                    forall|j: int| 0 <= j < i ==> array@[j] == bytes@[j],
                decreases 32 - i,
            {
                array[i] = bytes[i];
                i = i + 1;
            }
            assert(array@ =~= bytes@);
            Some(FfiKeypair(Keypair::from_secret_key(&array)))
        },
    }
}

/// The bytes of an array, as a vector.
fn to_vec(bytes: &[u8; 32]) -> (v: Vec<u8>)
    ensures
        v@ == bytes@,
{
    let mut v: Vec<u8> = Vec::new();
    let mut i: usize = 0;
    while i < 32
        invariant
            i <= 32,
            v@.len() == i,
            forall|j: int| 0 <= j < i ==> v@[j] == bytes@[j],
        decreases 32 - i,
    {
        v.push(bytes[i]);
        i = i + 1;
    }
    assert(v@ =~= bytes@);
    v
}

/// The secret of a keypair.
pub fn pubky_keypair_secret_key(keypair: Option<&FfiKeypair>) -> (r: FfiBytesResult)
    ensures
        match keypair {
            Some(k) => r.code == 0 && r.error is None && r.len == 32 && (
            r.data matches Some(d) && d@ == k.0.secret()),
            None => r.code == 6 && r.data is None && r.len == 0 && (
            r.error matches Some(m) && m@ == c_text("Null keypair pointer"@, "Unknown error"@)),
        },
{
    match keypair {
        None => rejected_bytes("Null keypair pointer"),
        Some(k) => {
            let secret = k.0.secret_key();
            FfiBytesResult::success(to_vec(&secret))
        },
    }
}

/// The public key of a keypair.
pub fn pubky_keypair_public_key(keypair: Option<&FfiKeypair>) -> (handle: Option<FfiPublicKey>)
    ensures
        handle is Some <==> keypair is Some,
        handle matches Some(p) ==> (keypair matches Some(k) && p.0@ == k.0.public()),
{
    match keypair {
        None => None,
        Some(k) => Some(FfiPublicKey(k.0.public_key())),
    }
}

/// Seals a keypair in a recovery file under a passphrase. A missing keypair
/// and a missing passphrase are refused; so is, with a validation failure, a
/// passphrase of more than 4,294,967,295 bytes.
pub fn pubky_keypair_create_recovery_file(keypair: Option<&FfiKeypair>, passphrase: Option<&str>) -> (r:
    FfiBytesResult)
    ensures
        keypair is None ==> r.code == 6 && r.data is None && (r.error matches Some(m) && m@
            == c_text("Null keypair pointer"@, "Unknown error"@)),
        keypair is Some && passphrase is None ==> r.code == 6 && r.data is None && (
        r.error matches Some(m) && m@ == c_text("Invalid passphrase"@, "Unknown error"@)),
        keypair matches Some(k) ==> passphrase matches Some(words) ==> if passphrase_fits(words@) {
            r.code == 0 && r.error is None && (r.data matches Some(file) && recovery_read(
                file@,
                words@,
            ) == read_ok(k.0.secret()) && r.len == file@.len())
        } else {
            r.code == 6 && r.data is None && r.len == 0 && (r.error matches Some(m) && m@
                == c_text(crate::keys::long_passphrase_message(), "Unknown error"@))
        },
{
    match keypair {
        None => rejected_bytes("Null keypair pointer"),
        Some(k) => match passphrase {
            None => rejected_bytes("Invalid passphrase"),
            Some(words) => match k.0.create_recovery_file(words) {
                Ok(file) => FfiBytesResult::success(file),
                Err(e) => bytes_result(Err(e)),
            },
        },
    }
}

/// Opens a recovery file under a passphrase. A missing argument, a
/// passphrase of more than 4,294,967,295 bytes and a file that does not open
/// all answer nothing.
pub fn pubky_keypair_from_recovery_file(file: Option<&[u8]>, passphrase: Option<&str>) -> (handle: Option<
    FfiKeypair,
>)
    ensures
        handle is Some <==> (file is Some && passphrase is Some && passphrase_fits(
            passphrase->0@,
        ) && recovery_read(file->0@, passphrase->0@) is Ok),
        handle matches Some(k) ==> recovery_read(file->0@, passphrase->0@) == read_ok(k.0.secret()),
{
    match (file, passphrase) {
        (Some(bytes), Some(words)) => match Keypair::from_recovery_file(bytes, words) {
            Ok(keypair) => Some(FfiKeypair(keypair)),
            Err(_) => None,
        },
        _ => None,
    }
}

/// The canonical text of a public key.
pub fn pubky_public_key_z32(public_key: Option<&FfiPublicKey>) -> (r: FfiResult)
    ensures
        match public_key {
            Some(p) => r.code == 0 && r.error is None && (r.data matches Some(d) && is_z32_of(
                d@,
                p.0@,
            )),
            None => r.code == 6 && r.data is None && (r.error matches Some(m) && m@ == c_text(
                "Null public key pointer"@,
                "Unknown error"@,
            )),
        },
{
    match public_key {
        None => rejected("Null public key pointer"),
        Some(p) => {
            let text = p.0.z32();
            proof {
                crate::keys::lemma_z32_text_is_ascii(text@);
                lemma_ascii_has_no_nul(text@);
            }
            FfiResult::success(text)
        },
    }
}

/// Text of z-base-32 letters holds no zero byte.
proof fn lemma_ascii_has_no_nul(text: Seq<char>)
    requires
        forall|i: int| 0 <= i < text.len() ==> crate::keys::is_z32_char(#[trigger] text[i]),
    ensures
        !crate::error::has_nul(text),
{
    assert forall|i: int| 0 <= i < text.len() implies crate::error::is_plain(
        #[trigger] text[i],
    ) by {
        assert(crate::keys::is_z32_char(text[i]));
    }
    crate::error::lemma_plain_text_has_no_nul(text);
}

/// The bytes of a public key.
pub fn pubky_public_key_bytes(public_key: Option<&FfiPublicKey>) -> (r: FfiBytesResult)
    ensures
        match public_key {
            Some(p) => r.code == 0 && r.error is None && r.len == 32 && (
            r.data matches Some(d) && d@ == p.0@),
            None => r.code == 6 && r.data is None && r.len == 0 && (
            r.error matches Some(m) && m@ == c_text(
                "Null public key pointer"@,
                "Unknown error"@,
            )),
        },
{
    match public_key {
        None => rejected_bytes("Null public key pointer"),
        Some(p) => {
            let bytes = p.0.to_bytes();
            FfiBytesResult::success(to_vec(&bytes))
        },
    }
}

/// Reads a public key from raw z-base-32 text. Missing text and text that
/// holds no key both answer nothing.
pub fn pubky_public_key_from_z32(text: Option<&str>) -> (handle: Option<FfiPublicKey>)
    ensures
        handle is Some <==> (text is Some && z32_read(text->0@) is Ok),
        handle matches Some(p) ==> z32_read(text->0@) == read_ok(p.0@),
{
    match text {
        None => None,
        Some(t) => match PublicKey::try_from_z32(t) {
            Ok(key) => Some(FfiPublicKey(key)),
            Err(_) => None,
        },
    }
}

/// Whether `r` is the refusal with `message`: no data, the message, and the
/// code of a validation failure.
pub open spec fn is_rejection(r: FfiResult, message: Seq<char>) -> bool {
    &&& r.data is None
    &&& r.error matches Some(m)
    &&& m@ == c_text(message, "Unknown error"@)
    &&& r.code == 6
}

/// Whether `r` reports the failure `e`: no data, the failure's message, and
/// the code of its category.
pub open spec fn reports(r: FfiResult, e: Error) -> bool {
    &&& r.data is None
    &&& r.error matches Some(m)
    &&& m@ == c_text(e.message@, "Unknown error"@)
    &&& r.code == e.kind.spec_code()
}

/// Whether `r` reports that a session handle was used after its signout: a
/// validation failure with the message for a consumed handle.
pub open spec fn is_consumed_report(r: FfiResult) -> bool {
    &&& r.data is None
    &&& r.error matches Some(m)
    &&& m@ == c_text(crate::session::consumed_message(), "Unknown error"@)
    &&& r.code == 6
}

/// The public key of a signer.
pub fn pubky_signer_public_key(signer: Option<&FfiSigner>) -> (handle: Option<FfiPublicKey>)
    ensures
        handle is Some <==> signer is Some,
        handle matches Some(p) ==> (signer matches Some(s) && p.0@ == s.0.keypair().public()),
{
    match signer {
        None => None,
        Some(s) => Some(FfiPublicKey(s.0.public_key())),
    }
}

/// A signer from a facade and a keypair; nothing where either is missing.
pub fn pubky_signer<E>(pubky: Option<&FfiPubky<E>>, keypair: Option<&FfiKeypair>) -> (handle: Option<
    FfiSigner,
>)
    ensures
        handle is Some <==> pubky is Some && keypair is Some,
        handle matches Some(s) ==> (keypair matches Some(k) && s.0.keypair() == k.0),
{
    match (pubky, keypair) {
        (Some(p), Some(k)) => Some(FfiSigner(p.0.signer(k.0))),
        _ => None,
    }
}

/// Public storage from a facade; nothing where the facade is missing.
pub fn pubky_public_storage<E>(pubky: Option<&FfiPubky<E>>) -> (handle: Option<FfiPublicStorage>)
    ensures
        handle is Some <==> pubky is Some,
{
    match pubky {
        Some(p) => Some(FfiPublicStorage(p.0.public_storage())),
        None => None,
    }
}

/// Decides whether the homeserver of a user can be looked up: both handles
/// must be there. The answer is the key to resolve.
pub fn pubky_get_homeserver_of_plan<E>(pubky: Option<&FfiPubky<E>>, user: Option<&FfiPublicKey>) -> (r:
    Result<PublicKey, FfiResult>)
    ensures
        r is Ok <==> pubky is Some && user is Some,
        r matches Ok(key) ==> (user matches Some(u) && key@ == u.0@),
        r matches Err(refusal) ==> is_rejection(refusal, "Null pointer"@),
{
    match (pubky, user) {
        (Some(_), Some(u)) => Ok(u.0),
        _ => Err(rejected("Null pointer")),
    }
}

/// Reports what the resolver answered: the canonical text of the homeserver,
/// or success without data where none is published.
pub fn pubky_get_homeserver_of_result(homeserver: Option<PublicKey>) -> (r: FfiResult)
    ensures
        r.code == 0,
        r.error is None,
        match homeserver {
            Some(key) => r.data matches Some(d) && is_z32_of(d@, key@),
            None => r.data is None,
        },
{
    match homeserver {
        Some(key) => {
            let handle = FfiPublicKey(key);
            pubky_public_key_z32(Some(&handle))
        },
        None => FfiResult::success_empty(),
    }
}

/// What a signup has to send: who signs up, where, and with which token.
#[derive(Debug, PartialEq, Eq)]
pub struct SignupPlan {
    /// The identity that signs up.
    pub user: PublicKey,
    /// The homeserver to sign up at.
    pub homeserver: PublicKey,
    /// The signup token, where the caller has one.
    pub token: Option<String>,
}

/// Decides whether a signup can go out: the signer, the homeserver and,
/// where the caller wants a detailed result, the place for the session must
/// be there.
pub fn pubky_signer_signup_plan(
    signer: Option<&FfiSigner>,
    homeserver: Option<&FfiPublicKey>,
    token: Option<&str>,
    has_place: bool,
) -> (r: Result<SignupPlan, FfiResult>)
    ensures
        r is Ok <==> signer is Some && homeserver is Some && has_place,
        r matches Ok(plan) ==> (signer matches Some(s) && plan.user@ == s.0.keypair().public()) && (
        homeserver matches Some(h) && plan.homeserver@ == h.0@) && (match token {
            Some(t) => plan.token matches Some(p) && p@ == t@,
            None => plan.token is None,
        }),
        r matches Err(refusal) ==> is_rejection(refusal, "Null pointer"@),
{
    match (signer, homeserver) {
        (Some(s), Some(h)) => {
            if !has_place {
                return Err(rejected("Null pointer"));
            }
            let token = match token {
                Some(t) => Some(t.to_owned()),
                None => None,
            };
            Ok(SignupPlan { user: s.0.public_key(), homeserver: h.0, token })
        },
        _ => Err(rejected("Null pointer")),
    }
}

/// Decides whether a signin can go out: the signer and, where the caller
/// wants a detailed result, the place for the session must be there.
pub fn pubky_signer_signin_plan(signer: Option<&FfiSigner>, has_place: bool) -> (r: Result<PublicKey, FfiResult>)
    ensures
        r is Ok <==> signer is Some && has_place,
        r matches Ok(user) ==> (signer matches Some(s) && user@ == s.0.keypair().public()),
        r matches Err(refusal) ==> is_rejection(refusal, "Null pointer"@),
{
    match signer {
        Some(s) => {
            if !has_place {
                return Err(rejected("Null pointer"));
            }
            Ok(s.0.public_key())
        },
        None => Err(rejected("Null pointer")),
    }
}

/// Reports how a signup or a signin ended: the session handle, or the
/// failure under its category's code.
pub fn session_result(outcome: Result<PubkySession, Error>) -> (r: Result<FfiSession, FfiResult>)
    ensures
        match outcome {
            Ok(session) => r matches Ok(handle) && handle.0 == session,
            Err(e) => r matches Err(report) && reports(report, e),
        },
{
    match outcome {
        Ok(session) => Ok(FfiSession(session)),
        Err(e) => Err(FfiResult::from_pubky_error(e)),
    }
}

/// The identity of a session; nothing where the session is missing or has
/// been signed out.
pub fn pubky_session_public_key(session: Option<&FfiSession>) -> (handle: Option<FfiPublicKey>)
    ensures
        handle is Some <==> (session matches Some(s) && !s.0@.consumed),
        handle matches Some(p) ==> (session matches Some(s) && p.0@ == s.0@.public_key),
{
    match session {
        None => None,
        Some(s) => {
            if s.0.is_consumed() {
                None
            } else {
                Some(FfiPublicKey(s.0.public_key()))
            }
        },
    }
}

/// The capabilities of a session, as text. A missing session is refused; a
/// session that has been signed out is refused as a consumed handle.
pub fn pubky_session_capabilities(session: Option<&FfiSession>) -> (r: FfiResult)
    ensures
        match session {
            Some(s) => if s.0@.consumed {
                is_consumed_report(r)
            } else {
                r.code == 0 && r.error is None && (r.data matches Some(d) && d@ == c_text(
                    crate::capabilities::format(s.0@.capabilities),
                    Seq::<char>::empty(),
                ))
            },
            None => is_rejection(r, "Null session pointer"@),
        },
{
    match session {
        None => rejected("Null session pointer"),
        Some(s) => {
            if s.0.is_consumed() {
                FfiResult::from_pubky_error(crate::session::handle_consumed())
            } else {
                FfiResult::success(s.0.capabilities().to_text())
            }
        },
    }
}

/// The storage of a session; nothing where the session is missing or has
/// been signed out.
pub fn pubky_session_storage(session: Option<&FfiSession>) -> (handle: Option<FfiSessionStorage>)
    ensures
        handle is Some <==> (session matches Some(s) && !s.0@.consumed),
        handle matches Some(st) ==> (session matches Some(s) && st.0.owner() == s.0@.public_key
            && st.0.capabilities() == s.0@.capabilities),
{
    match session {
        None => None,
        Some(s) => match s.0.storage() {
            Ok(storage) => Some(FfiSessionStorage(storage)),
            Err(_) => None,
        },
    }
}

/// Begins a signout. A session that is there and has not been signed out
/// is consumed where it stands, with everything else as it was, and the
/// caller then tells the homeserver. A missing handle is refused; a handle
/// that has been consumed before is refused as consumed, and stays so.
pub fn pubky_session_signout(session: Option<&mut FfiSession>) -> (r: Result<(), FfiResult>)
    ensures
        r is Ok <==> (session matches Some(s) && !s.0@.consumed),
        session matches Some(s) ==> final(s).0@.consumed,
        session matches Some(s) ==> final(s).0@.public_key == s.0@.public_key,
        session matches Some(s) ==> final(s).0@.homeserver == s.0@.homeserver,
        session matches Some(s) ==> final(s).0@.capabilities == s.0@.capabilities,
        session is None ==> (r matches Err(refusal) && is_rejection(
            refusal,
            "Null session pointer"@,
        )),
        r matches Err(refusal) ==> session is Some ==> is_consumed_report(refusal),
{
    match session {
        None => Err(rejected("Null session pointer")),
        Some(handle) => match handle.0.signout() {
            Ok(()) => Ok(()),
            Err(e) => Err(FfiResult::from_pubky_error(e)),
        },
    }
}

/// Reports how a signout ended on the homeserver's side.
pub fn pubky_session_signout_result(session: &FfiSession, reply: crate::session::SessionReply) -> (r: FfiResult)
    ensures
        match reply {
            crate::session::SessionReply::Failed { message } => r.code == 1 && r.data is None && (
            r.error matches Some(m) && m@ == c_text(message@, "Unknown error"@)),
            _ => r.code == 0 && r.data is None && r.error is None,
        },
{
    match session.0.signed_out(reply) {
        Ok(()) => FfiResult::success_empty(),
        Err(e) => FfiResult::from_pubky_error(e),
    }
}

/// Decides whether a session can be revalidated: it must be there and must
/// not have been signed out.
pub fn pubky_session_revalidate_plan(session: Option<&FfiSession>) -> (r: Result<(), FfiResult>)
    ensures
        r is Ok <==> (session matches Some(s) && !s.0@.consumed),
        session is None ==> (r matches Err(refusal) && is_rejection(
            refusal,
            "Null session pointer"@,
        )),
        r matches Err(refusal) ==> session is Some ==> is_consumed_report(refusal),
{
    match session {
        None => Err(rejected("Null session pointer")),
        Some(s) => match s.0.begin_revalidate() {
            Ok(()) => Ok(()),
            Err(e) => Err(FfiResult::from_pubky_error(e)),
        },
    }
}

/// Reports a revalidation: `valid` for a session that the homeserver still
/// knows, `invalid` for one that it has forgotten, the failure otherwise.
pub fn pubky_session_revalidate_result(session: &FfiSession, reply: crate::session::SessionReply) -> (r:
    FfiResult)
    ensures
        !session.0@.consumed ==> match reply {
            crate::session::SessionReply::Accepted => r.code == 0 && r.error is None && (
            r.data matches Some(d) && d@ == "valid"@),
            crate::session::SessionReply::Unknown => r.code == 0 && r.error is None && (
            r.data matches Some(d) && d@ == "invalid"@),
            crate::session::SessionReply::Failed { message } => r.code == 1 && r.data is None && (
            r.error matches Some(m) && m@ == c_text(message@, "Unknown error"@)),
        },
        session.0@.consumed ==> is_consumed_report(r),
{
    match session.0.revalidated(reply) {
        Ok(crate::session::Validity::Valid) => {
            proof {
                reveal_strlit("valid");
                crate::error::lemma_plain_text_has_no_nul("valid"@);
            }
            FfiResult::success("valid".to_owned())
        },
        Ok(crate::session::Validity::Invalid) => {
            proof {
                reveal_strlit("invalid");
                crate::error::lemma_plain_text_has_no_nul("invalid"@);
            }
            FfiResult::success("invalid".to_owned())
        },
        Err(e) => FfiResult::from_pubky_error(e),
    }
}

/// Decides whether an operation of authenticated storage can go out: the
/// storage and the path must be there, the path must be absolute, and a
/// capability of the session must grant the operation on it. Nothing is sent
/// otherwise.
pub fn session_storage_plan(
    storage: Option<&FfiSessionStorage>,
    op: crate::storage::StorageOp,
    path: Option<&str>,
) -> (r: Result<crate::storage::StorageRequest, FfiResult>)
    ensures
        storage is None ==> (r matches Err(refusal) && is_rejection(
            refusal,
            "Null storage pointer"@,
        )),
        storage is Some && path is None ==> (r matches Err(refusal) && is_rejection(
            refusal,
            "Invalid path"@,
        )),
        storage matches Some(st) ==> path matches Some(p) ==> {
            &&& r is Ok <==> crate::storage::is_absolute(p@) && crate::capabilities::allows(
                st.0.capabilities(),
                p@,
                crate::storage::needs(op),
            )
            &&& r matches Ok(q) ==> q.method == crate::storage::method_of(op) && q.owner@
                == st.0.owner() && q.path@ == p@ && q.host@ == crate::client::reserved_prefix()
                + crate::keys::z32_text(st.0.owner())
            &&& r matches Err(refusal) ==> refusal.code == 6 && refusal.data is None && (
            refusal.error matches Some(m) && m@ == c_text(
                if crate::storage::is_absolute(p@) {
                    "no capability of the session grants this operation on this path"@
                } else {
                    "path must start with '/'"@
                },
                "Unknown error"@,
            ))
        },
{
    match storage {
        None => Err(rejected("Null storage pointer")),
        Some(st) => match path {
            None => Err(rejected("Invalid path")),
            Some(p) => match st.0.request(op, p) {
                Ok(q) => Ok(q),
                Err(e) => Err(FfiResult::from_pubky_error(e)),
            },
        },
    }
}

/// Decides whether a write to authenticated storage can go out. The
/// arguments are judged in this order: the storage must be there, the path
/// must be there, the body must have been accepted, and the path must be one
/// that the session may write to.
pub fn session_put_plan(
    storage: Option<&FfiSessionStorage>,
    path: Option<&str>,
    body: Result<Vec<u8>, FfiResult>,
) -> (r: Result<(crate::storage::StorageRequest, Vec<u8>), FfiResult>)
    ensures
        storage is None ==> (r matches Err(refusal) && is_rejection(
            refusal,
            "Null storage pointer"@,
        )),
        storage is Some && path is None ==> (r matches Err(refusal) && is_rejection(
            refusal,
            "Invalid path"@,
        )),
        storage matches Some(st) ==> path matches Some(p) ==> match body {
            Err(refusal) => r matches Err(given) && given == refusal,
            Ok(bytes) => {
                &&& r is Ok <==> crate::storage::is_absolute(p@) && crate::capabilities::allows(
                    st.0.capabilities(),
                    p@,
                    crate::capabilities::Access::Write,
                )
                &&& r matches Ok(plan) ==> plan.1 == bytes && plan.0.method
                    == crate::http::Method::Put && plan.0.owner@ == st.0.owner() && plan.0.path@
                    == p@ && plan.0.host@ == crate::client::reserved_prefix()
                    + crate::keys::z32_text(st.0.owner())
                &&& r matches Err(refusal) ==> refusal.code == 6 && refusal.data is None && (
                refusal.error matches Some(m) && m@ == c_text(
                    if crate::storage::is_absolute(p@) {
                        "no capability of the session grants this operation on this path"@
                    } else {
                        "path must start with '/'"@
                    },
                    "Unknown error"@,
                ))
            },
        },
{
    if storage.is_none() {
        return Err(rejected("Null storage pointer"));
    }
    if path.is_none() {
        return Err(rejected("Invalid path"));
    }
    match body {
        Err(refusal) => Err(refusal),
        Ok(bytes) => match session_storage_plan(storage, crate::storage::StorageOp::Put, path) {
            Ok(request) => Ok((request, bytes)),
            Err(refusal) => Err(refusal),
        },
    }
}

/// Decides whether a read of public storage can go out: the storage and the
/// address must be there, and the address must read as one.
pub fn public_storage_plan(
    storage: Option<&FfiPublicStorage>,
    op: crate::storage::ReadOp,
    address: Option<&str>,
) -> (r: Result<crate::storage::StorageRequest, FfiResult>)
    ensures
        storage is None ==> (r matches Err(refusal) && is_rejection(
            refusal,
            "Null storage pointer"@,
        )),
        storage is Some && address is None ==> (r matches Err(refusal) && is_rejection(
            refusal,
            "Invalid address"@,
        )),
        address matches Some(a) ==> storage is Some ==> match crate::storage::address_read(a@) {
            Ok(parts) => r matches Ok(q) && q.owner@ == parts.0 && q.path@ == parts.1 && q.method
                == crate::storage::method_of(crate::storage::as_storage_op(op)) && q.host@
                == crate::client::reserved_prefix() + crate::keys::z32_text(parts.0),
            Err(kind) => r matches Err(refusal) && refusal.code == kind.spec_code()
                && refusal.data is None && (refusal.error matches Some(m) && m@ == c_text(
                crate::storage::address_fault(a@),
                "Unknown error"@,
            )),
        },
{
    match storage {
        None => Err(rejected("Null storage pointer")),
        Some(st) => match address {
            None => Err(rejected("Invalid address")),
            Some(a) => match st.0.request(op, a) {
                Ok(q) => Ok(q),
                Err(e) => Err(FfiResult::from_pubky_error(e)),
            },
        },
    }
}

/// The body of a write that is handed over as bytes and a length. Missing
/// bytes with a length other than zero are refused; missing bytes and a
/// length of zero both stand for the empty body.
pub fn put_bytes_body(body: Option<&[u8]>, len: usize) -> (r: Result<Vec<u8>, FfiResult>)
    ensures
        r is Err <==> body is None && len > 0,
        r matches Err(refusal) ==> is_rejection(refusal, "Null body pointer with non-zero length"@),
        r matches Ok(bytes) ==> bytes@ == match body {
            Some(given) => if len == 0 {
                Seq::<u8>::empty()
            } else {
                given@
            },
            None => Seq::<u8>::empty(),
        },
{
    match body {
        None => {
            if len > 0 {
                Err(rejected("Null body pointer with non-zero length"))
            } else {
                Ok(Vec::new())
            }
        },
        Some(given) => {
            if len == 0 {
                Ok(Vec::new())
            } else {
                Ok(vstd::slice::slice_to_vec(given))
            }
        },
    }
}

/// The body of a write that is handed over as text: the text must be there.
pub fn put_text_body(body: Option<&str>) -> (r: Result<String, FfiResult>)
    ensures
        match body {
            Some(text) => r matches Ok(sent) && sent@ == text@,
            None => r matches Err(refusal) && is_rejection(refusal, "Invalid body"@),
        },
{
    match body {
        Some(text) => Ok(text.to_owned()),
        None => Err(rejected("Invalid body")),
    }
}

/// The body of a write that is handed over as JSON text: the text must be
/// there and must be JSON; it is sent as `serde_json` writes it out again.
pub fn put_json_body(json: Option<&str>) -> (r: Result<String, FfiResult>)
    ensures
        json is None ==> (r matches Err(refusal) && is_rejection(refusal, "Invalid JSON body"@)),
        json matches Some(text) ==> match crate::http::json_read(text@) {
            Ok(body) => r matches Ok(sent) && sent@ == body,
            Err(words) => r matches Err(refusal) && is_rejection(refusal, "Invalid JSON: "@ + words),
        },
{
    match json {
        None => Err(rejected("Invalid JSON body")),
        Some(text) => match crate::http::json_normalize(text) {
            Ok(body) => Ok(body),
            Err(words) => {
                let message = crate::text::concat("Invalid JSON: ", words.as_str());
                Err(rejected(message.as_str()))
            },
        },
    }
}

/// Reports an operation that answers text.
pub fn text_result(outcome: Result<String, Error>) -> (r: FfiResult)
    ensures
        match outcome {
            Ok(text) => r.code == 0 && r.error is None && (r.data matches Some(d) && d@ == c_text(
                text@,
                Seq::<char>::empty(),
            )),
            Err(e) => reports(r, e),
        },
{
    match outcome {
        Ok(text) => FfiResult::success(text),
        Err(e) => FfiResult::from_pubky_error(e),
    }
}

/// Reports an operation that answers nothing.
pub fn empty_result(outcome: Result<(), Error>) -> (r: FfiResult)
    ensures
        match outcome {
            Ok(()) => r.code == 0 && r.error is None && r.data is None,
            Err(e) => reports(r, e),
        },
{
    match outcome {
        Ok(()) => FfiResult::success_empty(),
        Err(e) => FfiResult::from_pubky_error(e),
    }
}

/// Reports an operation that answers bytes: the bytes, or the failure under
/// its category's code.
pub fn bytes_result(outcome: Result<Vec<u8>, Error>) -> (r: FfiBytesResult)
    ensures
        match outcome {
            Ok(bytes) => r.code == 0 && r.error is None && r.len == bytes@.len() && (
            r.data matches Some(d) && d@ == bytes@),
            Err(e) => r.code == e.kind.spec_code() && r.data is None && r.len == 0 && (
            r.error matches Some(m) && m@ == c_text(e.message@, "Unknown error"@)),
        },
{
    match outcome {
        Ok(bytes) => FfiBytesResult::success(bytes),
        Err(e) => {
            let code: i32 = e.kind.code();
            FfiBytesResult::error(e.message, code)
        },
    }
}

/// Reports an existence check from the status that the homeserver answered:
/// `true` or `false`, or the failure.
pub fn exists_result(outcome: Result<u16, Error>) -> (r: FfiResult)
    ensures
        match outcome {
            Ok(status) => match crate::storage::existence(status) {
                Some(true) => r.code == 0 && r.error is None && (r.data matches Some(d) && d@
                    == "true"@),
                Some(false) => r.code == 0 && r.error is None && (r.data matches Some(d) && d@
                    == "false"@),
                None => r.code == 1 && r.data is None && (r.error matches Some(m) && m@ == c_text(
                    "unexpected status for an existence check"@,
                    "Unknown error"@,
                )),
            },
            Err(e) => reports(r, e),
        },
{
    match outcome {
        Err(e) => FfiResult::from_pubky_error(e),
        Ok(status) => match crate::storage::exists_from_status(status) {
            Ok(true) => {
                proof {
                    reveal_strlit("true");
                    crate::error::lemma_plain_text_has_no_nul("true"@);
                }
                FfiResult::success("true".to_owned())
            },
            Ok(false) => {
                proof {
                    reveal_strlit("false");
                    crate::error::lemma_plain_text_has_no_nul("false"@);
                }
                FfiResult::success("false".to_owned())
            },
            Err(e) => FfiResult::from_pubky_error(e),
        },
    }
}

/// The URLs of a listing of `dir`: of what the homeserver sent, the entries
/// under `dir`, in order, and no more than `limit` of them.
pub fn list_urls(dir: &str, limit: u16, entries: &Vec<crate::storage::Entry>) -> (urls: Vec<String>)
    ensures
        urls@.len() == crate::storage::listing(
            dir@,
            Some(limit),
            crate::storage::entry_views(entries@),
        ).len(),
        urls@.len() <= limit,
        forall|i: int|
            0 <= i < urls@.len() ==> (#[trigger] urls@[i])@ == "pubky://"@ + crate::keys::z32_text(
                crate::storage::listing(
                    dir@,
                    Some(limit),
                    crate::storage::entry_views(entries@),
                )[i].owner,
            ) + crate::storage::listing(
                dir@,
                Some(limit),
                crate::storage::entry_views(entries@),
            )[i].path,
{
    let shown = crate::storage::accept_listing(dir, Some(limit), entries);
    let ghost wanted = crate::storage::listing(
        dir@,
        Some(limit),
        crate::storage::entry_views(entries@),
    );
    let mut urls: Vec<String> = Vec::new();
    let n: usize = shown.len();
    let mut i: usize = 0;
    while i < n
        invariant
            n == shown@.len(),
            i <= n,
            urls@.len() == i,
            crate::storage::entry_views(shown@) == wanted,
            forall|j: int|
                0 <= j < i ==> (#[trigger] urls@[j])@ == "pubky://"@ + crate::keys::z32_text(
                    wanted[j].owner,
                ) + wanted[j].path,
        decreases n - i,
    {
        let url = shown[i].to_pubky_url();
        proof {
            assert(wanted[i as int] == shown@[i as int]@);
        }
        urls.push(url);
        i = i + 1;
    }
    urls
}

/// A request through a client handle, ready to be sent.
pub struct ClientRequest<'a, E> {
    /// The routed request.
    pub request: crate::client::RequestBuilder<'a, E>,
    /// The headers to set.
    pub headers: Vec<crate::http::Header>,
}

/// Decides whether a request through a client handle can go out: the client,
/// the method and the URL must be there, and the method must be one of the
/// seven that are known. The request is then routed by its URL, and the
/// headers are read from their JSON text.
pub fn pubky_http_client_request_plan<'a, E>(
    client: Option<&'a FfiHttpClient<E>>,
    method: Option<&str>,
    url: Option<&str>,
    headers: Option<&str>,
) -> (r: Result<ClientRequest<'a, E>, FfiResult>)
    ensures
        client is None ==> (r matches Err(refusal) && is_rejection(refusal, "Null client pointer"@)),
        client is Some && method is None ==> (r matches Err(refusal) && is_rejection(
            refusal,
            "Invalid or null method"@,
        )),
        client is Some && method is Some && url is None ==> (r matches Err(refusal)
            && is_rejection(refusal, "Invalid or null URL"@)),
        client matches Some(c) ==> method matches Some(m) ==> url matches Some(u)
            ==> match crate::http::method_named(crate::http::uppercased(m@)) {
            None => r matches Err(refusal) && is_rejection(
                refusal,
                "Unsupported HTTP method: "@ + m@,
            ),
            Some(known) => r matches Ok(plan) && plan.request.method == known && plan.request.url@
                == u@ && plan.request.route == crate::client::route(u@) && plan.request.engine == (
            if crate::client::route(u@) == crate::client::Engine::KeyPinned {
                &c.0.http
            } else {
                &c.0.icann_http
            }) && crate::http::headers_view(plan.headers@) == crate::http::headers_of(
                match headers {
                    Some(h) => Some(h@),
                    None => None,
                },
            ),
        },
{
    let c = match client {
        None => return Err(rejected("Null client pointer")),
        Some(c) => c,
    };
    let m = match method {
        None => return Err(rejected("Invalid or null method")),
        Some(m) => m,
    };
    let u = match url {
        None => return Err(rejected("Invalid or null URL")),
        Some(u) => u,
    };
    let known = match crate::http::parse_method(m) {
        None => {
            let message = crate::text::concat("Unsupported HTTP method: ", m);
            return Err(rejected(message.as_str()));
        },
        Some(known) => known,
    };
    let request = c.0.request(known, u);
    let headers = crate::http::headers_from_json(headers);
    Ok(ClientRequest { request, headers })
}

/// The body of a request that is handed over as bytes and a length: missing
/// bytes and a length of zero both stand for no body.
pub fn request_bytes_body(body: Option<&[u8]>, len: usize) -> (r: Option<Vec<u8>>)
    ensures
        r is Some <==> body is Some && len > 0,
        r matches Some(bytes) ==> (body matches Some(given) && bytes@ == given@),
{
    match body {
        None => None,
        Some(given) => {
            if len == 0 {
                None
            } else {
                Some(vstd::slice::slice_to_vec(given))
            }
        },
    }
}

/// Reports a request that answers status, body and headers, or the failure
/// under its category's code.
pub fn http_response(outcome: Result<(u16, String, String), Error>) -> (r:
    crate::error::FfiHttpResponse)
    ensures
        match outcome {
            Ok(answer) => r.code == 0 && r.error is None && r.status == answer.0 && (
            r.body matches Some(b) && b@ == c_text(answer.1@, Seq::<char>::empty())) && (
            r.headers matches Some(h) && h@ == c_text(answer.2@, "{}"@)),
            Err(e) => r.code == e.kind.spec_code() && r.status == 0 && r.body is None
                && r.headers is None && (r.error matches Some(m) && m@ == c_text(
                e.message@,
                "Unknown error"@,
            )),
        },
{
    match outcome {
        Ok(answer) => crate::error::FfiHttpResponse::success(answer.0, answer.1, answer.2),
        Err(e) => {
            let code: i32 = e.kind.code();
            crate::error::FfiHttpResponse::error(e.message, code)
        },
    }
}

/// Decides whether a signup without a token can go out, for a caller that
/// names the homeserver by its text: the signer and the text must be there,
/// and the text must read as a key, in display form or raw.
pub fn signer_signup_plan(signer: Option<&FfiSigner>, homeserver: Option<&str>) -> (r: Option<
    SignupPlan,
>)
    ensures
        r is Some <==> signer is Some && (homeserver matches Some(h) && z32_read(
            crate::keys::key_text(h@),
        ) is Ok),
        r matches Some(plan) ==> plan.token is None && (signer matches Some(s) && plan.user@
            == s.0.keypair().public()) && (homeserver matches Some(h) && z32_read(
            crate::keys::key_text(h@),
        ) == read_ok(plan.homeserver@)),
{
    match (signer, homeserver) {
        (Some(s), Some(h)) => match PublicKey::parse(h) {
            Ok(key) => Some(SignupPlan { user: s.0.public_key(), homeserver: key, token: None }),
            Err(_) => None,
        },
        _ => None,
    }
}

/// Reports an operation that answers nothing by a status: 0 for success,
/// the code of the failure's category otherwise.
pub fn status_of(outcome: Result<(), Error>) -> (status: i32)
    ensures
        match outcome {
            Ok(()) => status == 0,
            Err(e) => status == e.kind.spec_code(),
        },
{
    match outcome {
        Ok(()) => 0,
        Err(e) => e.kind.code(),
    }
}

/// Reports an operation that answers text to a caller that takes text or
/// nothing: nothing for a failure, and nothing for text that holds a zero
/// byte.
pub fn text_or_nothing(outcome: Result<String, Error>) -> (r: Option<String>)
    ensures
        r is Some <==> (outcome matches Ok(text) && !crate::error::has_nul(text@)),
        r matches Some(given) ==> (outcome matches Ok(text) && given@ == text@),
{
    match outcome {
        Err(_) => None,
        Ok(text) => {
            if crate::error::contains_nul(text.as_str()) {
                None
            } else {
                Some(text)
            }
        },
    }
}

/// What a plain HTTP request has to send.
#[derive(Debug, PartialEq, Eq)]
pub struct PlainRequest {
    /// The method.
    pub method: crate::http::Method,
    /// The URL, as given.
    pub url: String,
    /// The engine that the URL is routed to.
    pub engine: crate::client::Engine,
}

/// Decides whether a plain HTTP request can go out: method and URL must be
/// there and the URL must read as one. A method name that is no method's
/// stands for GET.
pub fn http_request_plan(method: Option<&str>, url: Option<&str>) -> (r: Option<PlainRequest>)
    ensures
        r is Some <==> method is Some && (url matches Some(u) && crate::client::url_read(u@) is Ok),
        r matches Some(plan) ==> (url matches Some(u) && plan.url@ == u@ && plan.engine
            == crate::client::route(u@)) && (method matches Some(m) && plan.method
            == match crate::http::method_named(crate::http::uppercased(m@)) {
            Some(known) => known,
            None => crate::http::Method::Get,
        }),
{
    match (method, url) {
        (Some(m), Some(u)) => match crate::client::route_url(u) {
            Ok(engine) => Some(
                PlainRequest { method: crate::http::method_or_get(m), url: u.to_owned(), engine },
            ),
            Err(_) => None,
        },
        _ => None,
    }
}

} // verus!
