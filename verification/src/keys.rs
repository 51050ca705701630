//! Identity: public keys, keypairs, their text forms and the recovery file.
//!
//! A public key is 32 bytes that name a point of the Ed25519 curve. Its
//! canonical text is 52 letters of z-base-32; its display form puts the marker
//! `pubky` in front of that text. The curve arithmetic, the z-base-32 codec and
//! the recovery file's cipher are the work of `pkarr` and `pubky-common`; this
//! module states what it relies on and proves the rest.

use vstd::prelude::*;
use vstd::utf8::encode_utf8;
use crate::error::{Error, ErrorKind};
use vstd::string::StringExecFns;
use crate::text::skip_chars;

verus! {

/// Whether `c` is one of the thirty-two letters of z-base-32.
pub open spec fn is_z32_char(c: char) -> bool {
    ||| c == 'y' || c == 'b' || c == 'n' || c == 'd' || c == 'r' || c == 'f' || c == 'g' || c == '8'
    ||| c == 'e' || c == 'j' || c == 'k' || c == 'm' || c == 'c' || c == 'p' || c == 'q' || c == 'x'
    ||| c == 'o' || c == 't' || c == '1' || c == 'u' || c == 'w' || c == 'i' || c == 's' || c == 'z'
    ||| c == 'a' || c == '3' || c == '4' || c == '5' || c == 'h' || c == '7' || c == '6' || c == '9'
}

/// The marker that opens the display form of a key.
pub open spec fn display_marker() -> Seq<char> {
    seq!['p', 'u', 'b', 'k', 'y']
}

/// Whether `text` is in display form: the marker, then what takes 52 bytes.
pub open spec fn is_prefixed_form(text: Seq<char>) -> bool {
    &&& display_marker().is_prefix_of(text)
    &&& encode_utf8(text.skip(5)).len() == 52
}

/// Whether 32 bytes name a point of the Ed25519 curve, as
/// `pkarr::PublicKey::try_from` decides it.
pub uninterp spec fn is_ed25519_key(bytes: Seq<u8>) -> bool;

/// What `PublicKey::try_from_z32` of `pubky-common` makes of `text`: the bytes
/// of the key it reads, or the words of its refusal.
pub uninterp spec fn z32_read(text: Seq<char>) -> Result<Seq<u8>, Seq<char>>;

/// The key bytes that are read from `text`, if any are.
pub open spec fn z32_key(text: Seq<char>) -> Option<Seq<u8>> {
    match z32_read(text) {
        Ok(key) => Some(key),
        Err(_) => None,
    }
}

/// The z-base-32 text that `pkarr::PublicKey::to_z32` writes for key bytes.
pub uninterp spec fn z32_text(key: Seq<u8>) -> Seq<char>;

/// The public key bytes that `pkarr::Keypair::from_secret_key` derives from a
/// secret.
pub uninterp spec fn public_of_secret(secret: Seq<u8>) -> Seq<u8>;

/// What `decrypt_recovery_file` of `pubky-common` makes of a file under a
/// passphrase: the secret it recovers, or the words of its refusal.
pub uninterp spec fn recovery_read(file: Seq<u8>, passphrase: Seq<char>) -> Result<
    Seq<u8>,
    Seq<char>,
>;

/// A reading that succeeded with `bytes`.
pub open spec fn read_ok(bytes: Seq<u8>) -> Result<Seq<u8>, Seq<char>> {
    Ok(bytes)
}

/// A reading that was refused with `message`.
pub open spec fn read_err(message: Seq<char>) -> Result<Seq<u8>, Seq<char>> {
    Err(message)
}

/// The views of what a reading wrapper hands out.
pub open spec fn read_view(r: Result<[u8; 32], String>) -> Result<Seq<u8>, Seq<char>> {
    match r {
        Ok(bytes) => Ok(bytes@),
        Err(message) => Err(message@),
    }
}

/// Whether `text` takes fewer bytes than the text of a key does.
pub open spec fn is_too_short(text: Seq<char>) -> bool {
    encode_utf8(text).len() < 52
}

/// Whether `text` is the canonical text of the key `key`: 52 letters of
/// z-base-32 that read back as `key`.
pub open spec fn is_z32_of(text: Seq<char>, key: Seq<u8>) -> bool {
    &&& text == z32_text(key)
    &&& text.len() == 52
    &&& forall|i: int| 0 <= i < text.len() ==> is_z32_char(#[trigger] text[i])
    &&& z32_key(text) == Some(key)
}

/// Calls `pkarr::PublicKey::try_from(&[u8; 32])` and reports whether it
/// succeeded. That function accepts exactly the bytes that decompress to a
/// curve point; `is_ed25519_key` names its verdict.
#[verifier::external_body]
fn key_is_valid(bytes: &[u8; 32]) -> (ok: bool)
    ensures
        ok == is_ed25519_key(bytes@),
{
    pkarr::PublicKey::try_from(bytes).is_ok()
}

/// Calls `PublicKey::try_from_z32` of `pubky-common` and hands out the bytes
/// of the key it read, or the text of its error. `z32_read` names the result.
/// A key that was read has passed the same curve check as in `key_is_valid`,
/// and its bytes are those that were decoded. Text of fewer than 52 bytes is
/// decoded as it stands and gives fewer than 32 bytes, so it is refused.
#[verifier::external_body]
fn z32_decode(text: &str) -> (key: Result<[u8; 32], String>)
    ensures
        read_view(key) == z32_read(text@),
        key matches Ok(b) ==> is_ed25519_key(b@),
        key is Ok ==> !is_too_short(text@),
{
    pubky_common::crypto::PublicKey::try_from_z32(text).map(|k| k.to_bytes()).map_err(
        |e| e.to_string(),
    )
}

/// Calls `pkarr::PublicKey::to_z32` on the key with these bytes. The text is
/// the z-base-32 encoding of the 32 bytes: 52 letters of that alphabet, which
/// `try_from_z32` reads back as the same bytes.
#[verifier::external_body]
fn z32_encode(bytes: &[u8; 32]) -> (text: String)
    requires
        is_ed25519_key(bytes@),
    ensures
        text@ == z32_text(bytes@),
        text@.len() == 52,
        forall|i: int| 0 <= i < text@.len() ==> is_z32_char(#[trigger] text@[i]),
        z32_read(text@) == read_ok(bytes@),
{
    pkarr::PublicKey::try_from(bytes).map(|k| k.to_z32()).unwrap_or_default()
}

/// Calls `PublicKey::is_pubky_prefixed` of `pubky-common`: whether the text
/// starts with `pubky` and the rest is 52 bytes long.
#[verifier::external_body]
fn has_display_marker(text: &str) -> (yes: bool)
    ensures
        yes == is_prefixed_form(text@),
{
    pubky_common::crypto::PublicKey::is_pubky_prefixed(text)
}

/// Calls `pkarr::Keypair::from_secret_key` and hands out the bytes of the
/// public key of that keypair. `public_of_secret` names them; they always
/// name a curve point.
#[verifier::external_body]
fn derive_public(secret: &[u8; 32]) -> (public: [u8; 32])
    ensures
        public@ == public_of_secret(secret@),
        is_ed25519_key(public@),
{
    pkarr::Keypair::from_secret_key(secret).public_key().to_bytes()
}

/// Calls `pkarr::Keypair::random` and hands out the secret it drew from the
/// operating system's random source. Nothing is known of it.
#[verifier::external_body]
fn random_secret() -> (secret: [u8; 32]) {
    pkarr::Keypair::random().secret_key()
}

/// Whether a passphrase is one that the key derivation takes: its text is
/// no longer than 4,294,967,295 bytes.
pub open spec fn passphrase_fits(passphrase: Seq<char>) -> bool {
    encode_utf8(passphrase).len() <= 0xFFFF_FFFF
}

/// Calls `create_recovery_file` of `pubky-common`. The file is sealed under a
/// fresh nonce, so two calls differ; every outcome opens again, under the same
/// passphrase, to the secret that went in. The key derivation that it starts
/// with refuses a longer passphrase than `passphrase_fits` admits, and the
/// outside function does not return then.
#[verifier::external_body]
fn seal_recovery_file(secret: &[u8; 32], passphrase: &str) -> (file: Vec<u8>)
    requires
        passphrase_fits(passphrase@),
    ensures
        recovery_read(file@, passphrase@) == read_ok(secret@),
{
    let keypair = pubky_common::crypto::Keypair::from_secret(secret);
    pubky_common::recovery_file::create_recovery_file(&keypair, passphrase)
}

/// Calls `decrypt_recovery_file` of `pubky-common` and hands out the secret of
/// the keypair it recovered, or the text of its error. `recovery_read` names
/// the result. It starts with the same key derivation as the sealing, and
/// does not return on a longer passphrase than `passphrase_fits` admits.
#[verifier::external_body]
fn open_recovery_file(file: &[u8], passphrase: &str) -> (secret: Result<[u8; 32], String>)
    requires
        passphrase_fits(passphrase@),
    ensures
        read_view(secret) == recovery_read(file@, passphrase@),
{
    pubky_common::recovery_file::decrypt_recovery_file(file, passphrase).map(|k| k.secret()).map_err(
        |e| e.to_string(),
    )
}

/// A public key: 32 bytes that name a curve point.
#[derive(Clone, Copy, Debug, PartialEq, Eq, Hash)]
pub struct PublicKey {
    bytes: [u8; 32],
}

impl View for PublicKey {
    type V = Seq<u8>;

    closed spec fn view(&self) -> Seq<u8> {
        self.bytes@
    }
}

impl PublicKey {
    /// Every key names a curve point.
    #[verifier::type_invariant]
    pub closed spec fn is_valid(self) -> bool {
        is_ed25519_key(self.bytes@)
    }

    /// The key with these bytes, where they name a curve point.
    pub fn from_bytes(bytes: [u8; 32]) -> (key: Option<PublicKey>)
        ensures
            key is Some <==> is_ed25519_key(bytes@),
            key matches Some(k) ==> k@ == bytes@ && k.is_valid(),
    {
        if key_is_valid(&bytes) {
            Some(PublicKey { bytes })
        } else {
            None
        }
    }

    /// Whether `text` is in display form: the marker `pubky`, then 52 bytes.
    pub fn is_pubky_prefixed(text: &str) -> (yes: bool)
        ensures
            yes == is_prefixed_form(text@),
    {
        has_display_marker(text)
    }

    /// Whether this key and `other` are the same key.
    pub fn same(&self, other: &PublicKey) -> (same: bool)
        ensures
            same == (self@ == other@),
    {
        let mut i: usize = 0;
        while i < 32
            invariant
                i <= 32,
                forall|j: int| 0 <= j < i ==> self.bytes@[j] == other.bytes@[j],
            decreases 32 - i,
        {
            if self.bytes[i] != other.bytes[i] {
                return false;
            }
            i = i + 1;
        }
        assert(self.bytes@ =~= other.bytes@);
        true
    }

    /// The 32 bytes of this key.
    pub fn to_bytes(&self) -> (bytes: [u8; 32])
        ensures
            bytes@ == self@,
            self.is_valid(),
    {
        proof {
            use_type_invariant(self);
        }
        self.bytes
    }

    /// The canonical text of this key. Reading it back gives this key.
    pub fn z32(&self) -> (text: String)
        ensures
            is_z32_of(text@, self@),
            self.is_valid(),
    {
        proof {
            use_type_invariant(self);
        }
        z32_encode(&self.bytes)
    }

    /// Reads a key from its raw z-base-32 text, as the outside reader reads
    /// it. Text that it refuses is a parse error with the reader's words;
    /// text of fewer than 52 bytes is always refused.
    pub fn try_from_z32(text: &str) -> (r: Result<PublicKey, Error>)
        ensures
            r matches Ok(k) ==> z32_read(text@) == read_ok(k@) && k.is_valid(),
            is_too_short(text@) ==> r is Err,
            r matches Err(e) ==> e.kind == ErrorKind::Parse && z32_read(text@) == read_err(
                e.message@,
            ),
    {
        match z32_decode(text) {
            Ok(bytes) => Ok(PublicKey { bytes }),
            Err(message) => Err(Error { kind: ErrorKind::Parse, message }),
        }
    }

    /// Reads a key from either text form: the display form, whose marker is
    /// dropped first, or the raw text.
    pub fn parse(text: &str) -> (r: Result<PublicKey, Error>)
        ensures
            r matches Ok(k) ==> z32_read(key_text(text@)) == read_ok(k@) && k.is_valid(),
            r matches Err(e) ==> e.kind == ErrorKind::Parse && z32_read(key_text(text@))
                == read_err(e.message@),
    {
        if PublicKey::is_pubky_prefixed(text) {
            let rest = skip_chars(text, 5);
            PublicKey::try_from_z32(rest)
        } else {
            PublicKey::try_from_z32(text)
        }
    }

    /// The display form of this key: the marker, then the canonical text.
    pub fn to_display_string(&self) -> (text: String)
        ensures
            text@ == display_marker() + z32_text(self@),
            is_prefixed_form(text@),
            z32_key(key_text(text@)) == Some(self@),
            self.is_valid(),
    {
        let raw = self.z32();
        let mut text = "pubky".to_owned();
        text.append(raw.as_str());
        proof {
            reveal_strlit("pubky");
            assert("pubky"@ =~= display_marker());
            lemma_display_form(raw@, self@);
        }
        text
    }
}

/// The text that holds the key in either form: `text` without the marker
/// where it is in display form, `text` itself otherwise.
pub open spec fn key_text(text: Seq<char>) -> Seq<char> {
    if is_prefixed_form(text) {
        text.skip(5)
    } else {
        text
    }
}

/// A canonical key text is plain ASCII, so it takes as many bytes as it has
/// letters.
pub proof fn lemma_z32_text_is_ascii(text: Seq<char>)
    requires
        forall|i: int| 0 <= i < text.len() ==> is_z32_char(#[trigger] text[i]),
    ensures
        vstd::utf8::is_ascii_chars(text),
        encode_utf8(text).len() == text.len(),
{
    assert forall|i: int| 0 <= i < text.len() implies (0 <= (#[trigger] text[i]) as nat) && (
    text[i] as nat) < 128 by {
        assert(is_z32_char(text[i]));
    }
    vstd::utf8::is_ascii_chars_encode_utf8(text);
}

/// Dropping characters from the front of a text does not make it take more
/// bytes.
pub proof fn lemma_skip_takes_no_more_bytes(text: Seq<char>, n: int)
    requires
        0 <= n <= text.len(),
    ensures
        encode_utf8(text.skip(n)).len() <= encode_utf8(text).len(),
    decreases n,
{
    if n == 0 {
        assert(text.skip(0) =~= text);
    } else {
        lemma_skip_takes_no_more_bytes(text, n - 1);
        let before = text.skip(n - 1);
        assert(before.drop_first() =~= text.skip(n));
    }
}

/// A text that is too short for a key is not in display form.
pub proof fn lemma_short_text_is_not_display_form(text: Seq<char>)
    requires
        is_too_short(text),
    ensures
        !is_prefixed_form(text),
{
    if display_marker().is_prefix_of(text) {
        lemma_skip_takes_no_more_bytes(text, 5);
    }
}

/// The marker in front of a canonical key text is in display form, and
/// dropping the marker gives the canonical text back.
pub proof fn lemma_display_form(raw: Seq<char>, key: Seq<u8>)
    requires
        is_z32_of(raw, key),
    ensures
        is_prefixed_form(display_marker() + raw),
        key_text(display_marker() + raw) == raw,
        !is_prefixed_form(raw),
        key_text(raw) == raw,
{
    let shown = display_marker() + raw;
    assert(shown.skip(5) =~= raw);
    assert(shown.subrange(0, 5) =~= display_marker());
    lemma_z32_text_is_ascii(raw);
    let tail = raw.skip(5);
    assert forall|i: int| 0 <= i < tail.len() implies is_z32_char(#[trigger] tail[i]) by {
        assert(tail[i] == raw[i + 5]);
    }
    lemma_z32_text_is_ascii(tail);
}

/// A keypair: a secret and the public key derived from it.
#[derive(Clone, Copy, Debug, PartialEq, Eq)]
pub struct Keypair {
    secret: [u8; 32],
    public: PublicKey,
}

impl Keypair {
    /// The public key is the one that the secret derives.
    #[verifier::type_invariant]
    pub closed spec fn is_valid(self) -> bool {
        &&& self.public@ == public_of_secret(self.secret@)
        &&& self.public.is_valid()
    }

    /// The secret of this keypair.
    pub closed spec fn secret(self) -> Seq<u8> {
        self.secret@
    }

    /// The public key of this keypair.
    pub closed spec fn public(self) -> Seq<u8> {
        self.public@
    }

    /// A keypair whose secret is drawn from the operating system's random
    /// source.
    pub fn random() -> (keypair: Keypair)
        ensures
            keypair.is_valid(),
            keypair.public() == public_of_secret(keypair.secret()),
    {
        let secret = random_secret();
        Keypair::from_secret_key(&secret)
    }

    /// The keypair of this secret. The same secret gives the same keypair.
    pub fn from_secret_key(secret: &[u8; 32]) -> (keypair: Keypair)
        ensures
            keypair.is_valid(),
            keypair.secret() == secret@,
            keypair.public() == public_of_secret(secret@),
    {
        let public = derive_public(secret);
        Keypair { secret: *secret, public: PublicKey { bytes: public } }
    }

    /// The 32 bytes of the secret.
    pub fn secret_key(&self) -> (secret: [u8; 32])
        ensures
            secret@ == self.secret(),
    {
        self.secret
    }

    /// The public key of this keypair.
    pub fn public_key(&self) -> (key: PublicKey)
        ensures
            key@ == self.public(),
            key@ == public_of_secret(self.secret()),
            key.is_valid(),
    {
        proof {
            use_type_invariant(self);
        }
        self.public
    }

    /// Seals the secret in a recovery file under `passphrase`. The file opens
    /// again, under the same passphrase, to this keypair. A passphrase of
    /// more than 4,294,967,295 bytes is refused with a validation error.
    pub fn create_recovery_file(&self, passphrase: &str) -> (r: Result<Vec<u8>, Error>)
        ensures
            r is Ok <==> passphrase_fits(passphrase@),
            r matches Ok(file) ==> recovery_read(file@, passphrase@) == read_ok(self.secret()),
            r matches Err(e) ==> e.kind == ErrorKind::Validation && e.message@
                == long_passphrase_message(),
    {
        if !passphrase_is_short_enough(passphrase) {
            return Err(long_passphrase());
        }
        Ok(seal_recovery_file(&self.secret, passphrase))
    }

    /// Opens a recovery file. A passphrase of more than 4,294,967,295 bytes
    /// is refused with a validation error. Otherwise the file is opened, and
    /// where it does not open under `passphrase`, that is an authentication
    /// error with the words of the refusal.
    pub fn from_recovery_file(file: &[u8], passphrase: &str) -> (r: Result<Keypair, Error>)
        ensures
            !passphrase_fits(passphrase@) ==> (r matches Err(e) && e.kind == ErrorKind::Validation
                && e.message@ == long_passphrase_message()),
            passphrase_fits(passphrase@) ==> (r matches Ok(k) ==> recovery_read(
                file@,
                passphrase@,
            ) == read_ok(k.secret()) && k.is_valid()),
            passphrase_fits(passphrase@) ==> (r matches Err(e) ==> e.kind
                == ErrorKind::Authentication && recovery_read(file@, passphrase@) == read_err(
                e.message@,
            )),
    {
        if !passphrase_is_short_enough(passphrase) {
            return Err(long_passphrase());
        }
        match open_recovery_file(file, passphrase) {
            Ok(secret) => Ok(Keypair::from_secret_key(&secret)),
            Err(message) => Err(Error { kind: ErrorKind::Authentication, message }),
        }
    }
}

/// The message of the refusal of a passphrase that is too long.
pub open spec fn long_passphrase_message() -> Seq<char> {
    "passphrase must not be longer than 4294967295 bytes"@
}

/// The refusal of a passphrase that is too long.
fn long_passphrase() -> (e: Error)
    ensures
        e.kind == ErrorKind::Validation,
        e.message@ == long_passphrase_message(),
{
    Error::validation("passphrase must not be longer than 4294967295 bytes")
}

/// Whether a passphrase is one that the key derivation takes.
pub fn passphrase_is_short_enough(passphrase: &str) -> (yes: bool)
    ensures
        yes == passphrase_fits(passphrase@),
{
    passphrase.as_bytes().len() <= 0xFFFF_FFFF
}

} // verus!
