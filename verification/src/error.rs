//! Failure taxonomy, the numeric codes that cross the language boundary, and
//! the plain-value shape of every boundary-facing outcome.
//!
//! An outcome that leaves the library is either a payload or a message with
//! one code of a closed set. Text that is handed to a C caller cannot hold a
//! zero byte; the constructors here replace such text by a fixed fallback.

use vstd::prelude::*;
use vstd::string::StringSliceAdditionalSpecFns;
use vstd::utf8::encode_utf8;

verus! {

/// The closed set of failure categories.
#[derive(Clone, Copy, Debug, PartialEq, Eq, Structural)]
pub enum ErrorKind {
    /// Transport or network failure, including a failed peer-trust check.
    Request,
    /// The key-to-host resolution overlay failed.
    Pkarr,
    /// An encoding-level failure: key strings, JSON.
    Parse,
    /// A rejected credential, passphrase or signup token.
    Authentication,
    /// A malformed client or request construction.
    Build,
    /// Malformed input caught locally before any I/O.
    Validation,
}

impl ErrorKind {
    /// The numeric code of this category.
    pub open spec fn spec_code(self) -> int {
        match self {
            ErrorKind::Request => 1,
            ErrorKind::Pkarr => 2,
            ErrorKind::Parse => 3,
            ErrorKind::Authentication => 4,
            ErrorKind::Build => 5,
            ErrorKind::Validation => 6,
        }
    }

    /// The numeric code of this category.
    pub fn code(self) -> (code: i32)
        ensures
            code == self.spec_code(),
    {
        match self {
            ErrorKind::Request => 1,
            ErrorKind::Pkarr => 2,
            ErrorKind::Parse => 3,
            ErrorKind::Authentication => 4,
            ErrorKind::Build => 5,
            ErrorKind::Validation => 6,
        }
    }
}

/// A failure: its category and a message for the caller.
#[derive(Clone, Debug, PartialEq, Eq)]
pub struct Error {
    /// The category.
    pub kind: ErrorKind,
    /// What went wrong, in words.
    pub message: String,
}

impl Error {
    /// A failure of `kind` with the text of `message`.
    pub fn new(kind: ErrorKind, message: &str) -> (e: Error)
        ensures
            e.kind == kind,
            e.message@ == message@,
    {
        Error { kind, message: message.to_owned() }
    }

    /// A local validation failure.
    pub fn validation(message: &str) -> (e: Error)
        ensures
            e.kind == ErrorKind::Validation,
            e.message@ == message@,
    {
        Error::new(ErrorKind::Validation, message)
    }

    /// The numeric code of this failure.
    pub fn code(&self) -> (code: i32)
        ensures
            code == self.kind.spec_code(),
    {
        self.kind.code()
    }
}

/// Whether the UTF-8 form of `text` holds a zero byte.
pub open spec fn has_nul(text: Seq<char>) -> bool {
    encode_utf8(text).contains(0u8)
}

/// What a C caller is handed for `text`: the text itself, or `fallback` where
/// the text holds a zero byte.
pub open spec fn c_text(text: Seq<char>, fallback: Seq<char>) -> Seq<char> {
    if has_nul(text) {
        fallback
    } else {
        text
    }
}

/// Whether `c` is a plain ASCII character other than the zero character.
pub open spec fn is_plain(c: char) -> bool {
    '\0' < c && c <= '\u{7f}'
}

/// Text of plain ASCII characters other than the zero character holds no
/// zero byte.
pub proof fn lemma_plain_text_has_no_nul(text: Seq<char>)
    requires
        forall|i: int| 0 <= i < text.len() ==> is_plain(#[trigger] text[i]),
    ensures
        !has_nul(text),
{
    assert(vstd::utf8::is_ascii_chars(text)) by {
        assert forall|i: int| 0 <= i < text.len() implies '\0' <= #[trigger] text[i]
            <= '\u{7f}' by {
            assert(is_plain(text[i]));
        }
    }
    vstd::utf8::is_ascii_chars_encode_utf8(text);
    let bytes = encode_utf8(text);
    if bytes.contains(0u8) {
        let i = choose|i: int| 0 <= i < bytes.len() && bytes[i] == 0u8;
        assert(is_plain(text[i]));
        assert(bytes[i] == text[i] as u8);
    }
}

/// Whether `text` holds a zero byte.
pub fn contains_nul(text: &str) -> (found: bool)
    ensures
        found == has_nul(text@),
{
    let bytes = text.as_bytes();
    let n: usize = bytes.len();
    let mut i: usize = 0;
    while i < n
        invariant
            n == bytes@.len(),
            bytes@ == encode_utf8(text@),
            i <= n,
            forall|j: int| 0 <= j < i ==> bytes@[j] != 0u8,
        decreases n - i,
    {
        if bytes[i] == 0u8 {
            return true;
        }
        i = i + 1;
    }
    false
}

/// `text`, or the text of `fallback` where `text` holds a zero byte.
pub fn sanitize(text: String, fallback: &str) -> (out: String)
    ensures
        out@ == c_text(text@, fallback@),
{
    if contains_nul(text.as_str()) {
        fallback.to_owned()
    } else {
        text
    }
}

/// A textual outcome: data on success, a message and a code on failure.
#[derive(Clone, Debug, PartialEq, Eq)]
pub struct FfiResult {
    /// The payload, on success with data.
    pub data: Option<String>,
    /// The message, on failure.
    pub error: Option<String>,
    /// 0 on success, the failure's code otherwise.
    pub code: i32,
}

impl FfiResult {
    /// Success with `data`; data that holds a zero byte becomes the empty text.
    pub fn success(data: String) -> (r: FfiResult)
        ensures
            r.data matches Some(d) && d@ == c_text(data@, Seq::<char>::empty()),
            r.error is None,
            r.code == 0,
    {
        proof {
            reveal_strlit("");
        }
        FfiResult { data: Some(sanitize(data, "")), error: None, code: 0 }
    }

    /// Success without data.
    pub fn success_empty() -> (r: FfiResult)
        ensures
            r.data is None,
            r.error is None,
            r.code == 0,
    {
        FfiResult { data: None, error: None, code: 0 }
    }

    /// Failure with `message` and `code`; a message that holds a zero byte
    /// becomes "Unknown error".
    pub fn error(message: String, code: i32) -> (r: FfiResult)
        ensures
            r.data is None,
            r.error matches Some(m) && m@ == c_text(message@, "Unknown error"@),
            r.code == code,
    {
        FfiResult { data: None, error: Some(sanitize(message, "Unknown error")), code }
    }

    /// The failure that reports `err`: its message under its category's code.
    pub fn from_pubky_error(err: Error) -> (r: FfiResult)
        ensures
            r.data is None,
            r.error matches Some(m) && m@ == c_text(err.message@, "Unknown error"@),
            r.code == err.kind.spec_code(),
    {
        let code: i32 = err.kind.code();
        FfiResult::error(err.message, code)
    }
}

/// A binary outcome: bytes on success, a message and a code on failure.
#[derive(Clone, Debug, PartialEq, Eq)]
pub struct FfiBytesResult {
    /// The payload, on success.
    pub data: Option<Vec<u8>>,
    /// The number of payload bytes; 0 on failure.
    pub len: usize,
    /// The message, on failure.
    pub error: Option<String>,
    /// 0 on success, the failure's code otherwise.
    pub code: i32,
}

impl FfiBytesResult {
    /// Success with `data`, whose length is reported beside it.
    pub fn success(data: Vec<u8>) -> (r: FfiBytesResult)
        ensures
            r.data matches Some(d) && d@ == data@,
            r.len == data@.len(),
            r.error is None,
            r.code == 0,
    {
        let len: usize = data.len();
        FfiBytesResult { data: Some(data), len, error: None, code: 0 }
    }

    /// Failure with `message` and `code`; a message that holds a zero byte
    /// becomes "Unknown error".
    pub fn error(message: String, code: i32) -> (r: FfiBytesResult)
        ensures
            r.data is None,
            r.len == 0,
            r.error matches Some(m) && m@ == c_text(message@, "Unknown error"@),
            r.code == code,
    {
        FfiBytesResult {
            data: None,
            len: 0,
            error: Some(sanitize(message, "Unknown error")),
            code,
        }
    }
}

/// A full HTTP outcome: status, body and headers on success, a message and a
/// code on failure.
#[derive(Clone, Debug, PartialEq, Eq)]
pub struct FfiHttpResponse {
    /// The HTTP status; 0 on failure.
    pub status: u16,
    /// The response body as text, on success.
    pub body: Option<String>,
    /// The response headers as a JSON object, on success.
    pub headers: Option<String>,
    /// The message, on failure.
    pub error: Option<String>,
    /// 0 on success, the failure's code otherwise.
    pub code: i32,
}

impl FfiHttpResponse {
    /// Success. A body that holds a zero byte becomes the empty text, headers
    /// that hold one become the empty JSON object.
    pub fn success(status: u16, body: String, headers: String) -> (r: FfiHttpResponse)
        ensures
            r.status == status,
            r.body matches Some(b) && b@ == c_text(body@, Seq::<char>::empty()),
            r.headers matches Some(h) && h@ == c_text(headers@, "{}"@),
            r.error is None,
            r.code == 0,
    {
        proof {
            reveal_strlit("");
        }
        FfiHttpResponse {
            status,
            body: Some(sanitize(body, "")),
            headers: Some(sanitize(headers, "{}")),
            error: None,
            code: 0,
        }
    }

    /// Failure with `message` and `code`; a message that holds a zero byte
    /// becomes "Unknown error".
    pub fn error(message: String, code: i32) -> (r: FfiHttpResponse)
        ensures
            r.status == 0,
            r.body is None,
            r.headers is None,
            r.error matches Some(m) && m@ == c_text(message@, "Unknown error"@),
            r.code == code,
    {
        FfiHttpResponse {
            status: 0,
            body: None,
            headers: None,
            error: Some(sanitize(message, "Unknown error")),
            code,
        }
    }
}

} // verus!
