//! Path-addressed storage: what may be asked of a homeserver, and what its
//! answers mean.
//!
//! Authenticated storage belongs to a session and checks every path against
//! the session's capabilities before anything is sent. Public storage is
//! addressed by an identity and a path and can only read.

use vstd::prelude::*;
use crate::capabilities::{allows, Access, Capabilities, CapabilityView};
use crate::client::{reserved_prefix, resolved_host};
use crate::error::{Error, ErrorKind};
use crate::http::Method;
use crate::keys::{key_text, read_err, read_ok, z32_read, z32_text, PublicKey};
use crate::session::{consumed_message, handle_consumed, PubkySession};
use crate::text::{concat, ends_with_char, has_prefix, to_chars};
use vstd::string::StrSliceExecFns;

verus! {

/// The operations of authenticated storage.
#[derive(Clone, Copy, Debug, PartialEq, Eq, Structural)]
pub enum StorageOp {
    /// Read an object.
    Get,
    /// Ask whether an object exists.
    Exists,
    /// List a directory.
    List,
    /// Write an object.
    Put,
    /// Remove an object.
    Delete,
}

/// The operations of public storage. There is none that writes.
#[derive(Clone, Copy, Debug, PartialEq, Eq, Structural)]
pub enum ReadOp {
    /// Read an object.
    Get,
    /// Ask whether an object exists.
    Exists,
    /// List a directory.
    List,
}

/// The access that an operation needs.
pub open spec fn needs(op: StorageOp) -> Access {
    match op {
        StorageOp::Put => Access::Write,
        StorageOp::Delete => Access::Write,
        _ => Access::Read,
    }
}

/// The method that carries an operation.
pub open spec fn method_of(op: StorageOp) -> Method {
    match op {
        StorageOp::Get => Method::Get,
        StorageOp::Exists => Method::Head,
        StorageOp::List => Method::Get,
        StorageOp::Put => Method::Put,
        StorageOp::Delete => Method::Delete,
    }
}

/// The operation of authenticated storage that a read operation is.
pub open spec fn as_storage_op(op: ReadOp) -> StorageOp {
    match op {
        ReadOp::Get => StorageOp::Get,
        ReadOp::Exists => StorageOp::Exists,
        ReadOp::List => StorageOp::List,
    }
}

/// Whether a path is absolute: it starts with a slash.
pub open spec fn is_absolute(path: Seq<char>) -> bool {
    path.len() > 0 && path[0] == '/'
}

/// A request to a homeserver's storage, ready to be sent.
#[derive(Debug, PartialEq, Eq)]
pub struct StorageRequest {
    /// The method.
    pub method: Method,
    /// The identity whose data is addressed.
    pub owner: PublicKey,
    /// The transport host: the reserved label and the owner's key.
    pub host: String,
    /// The absolute path.
    pub path: String,
}

/// Authenticated storage: the data of one identity under the capabilities
/// of one session.
#[derive(Debug, PartialEq, Eq)]
pub struct SessionStorage {
    owner: PublicKey,
    capabilities: Capabilities,
}

/// Public storage: anyone's public data, read without credentials.
#[derive(Clone, Copy, Debug, PartialEq, Eq)]
pub struct PublicStorage {}

impl PubkySession {
    /// The storage of this session. A signed-out handle is refused.
    pub fn storage(&self) -> (r: Result<SessionStorage, Error>)
        ensures
            r is Err <==> self@.consumed,
            r matches Err(e) ==> e.kind == ErrorKind::Validation && e.message@
                == consumed_message(),
            r matches Ok(s) ==> s.owner() == self@.public_key && s.capabilities()
                == self@.capabilities,
    {
        if self.is_consumed() {
            return Err(handle_consumed());
        }
        let capabilities = self.capabilities().clone();
        Ok(SessionStorage { owner: self.public_key(), capabilities })
    }
}

impl SessionStorage {
    /// The identity whose data this storage holds.
    pub closed spec fn owner(self) -> Seq<u8> {
        self.owner@
    }

    /// The capabilities that every operation is checked against.
    pub closed spec fn capabilities(self) -> Seq<CapabilityView> {
        self.capabilities@
    }

    /// Checks an operation on a path and names the request to send. The check
    /// is local: nothing is sent for a path that is not absolute, nor for an
    /// operation that no capability of the session grants on the path; both
    /// are validation errors.
    pub fn request(&self, op: StorageOp, path: &str) -> (r: Result<StorageRequest, Error>)
        ensures
            r is Ok <==> is_absolute(path@) && allows(self.capabilities(), path@, needs(op)),
            r matches Ok(q) ==> q.method == method_of(op) && q.owner@ == self.owner() && q.host@
                == reserved_prefix() + z32_text(self.owner()) && q.path@ == path@,
            r matches Err(e) ==> e.kind == ErrorKind::Validation,
            r matches Err(e) ==> !is_absolute(path@) ==> e.message@ == "path must start with '/'"@,
            r matches Err(e) ==> is_absolute(path@) ==> e.message@
                == "no capability of the session grants this operation on this path"@,
    {
        let chars = to_chars(path);
        if chars.len() == 0 || chars[0] != '/' {
            return Err(Error::validation("path must start with '/'"));
        }
        let access = match op {
            StorageOp::Put => Access::Write,
            StorageOp::Delete => Access::Write,
            _ => Access::Read,
        };
        if !self.capabilities.allows(path, access) {
            return Err(
                Error::validation(
                    "no capability of the session grants this operation on this path",
                ),
            );
        }
        Ok(
            StorageRequest {
                method: op.method(),
                owner: self.owner,
                host: resolved_host(&self.owner),
                path: path.to_owned(),
            },
        )
    }
}

impl StorageOp {
    /// The method that carries this operation.
    pub fn method(self) -> (method: Method)
        ensures
            method == method_of(self),
    {
        match self {
            StorageOp::Get => Method::Get,
            StorageOp::Exists => Method::Head,
            StorageOp::List => Method::Get,
            StorageOp::Put => Method::Put,
            StorageOp::Delete => Method::Delete,
        }
    }
}

/// Whether `at` is where the first slash of `text` stands.
pub open spec fn is_first_slash(text: Seq<char>, at: int) -> bool {
    &&& 0 <= at < text.len()
    &&& text[at] == '/'
    &&& forall|j: int| 0 <= j < at ==> text[j] != '/'
}

/// Whether `text` holds a slash.
pub open spec fn has_slash(text: Seq<char>) -> bool {
    exists|at: int| is_first_slash(text, at)
}

/// Where the first slash of `text` stands.
pub open spec fn first_slash(text: Seq<char>) -> int {
    choose|at: int| is_first_slash(text, at)
}

/// An addressed resource: an identity and an absolute path.
#[derive(Debug, PartialEq, Eq)]
pub struct Address {
    /// The identity whose data is addressed.
    pub owner: PublicKey,
    /// The absolute path.
    pub path: String,
}

/// What an address reads as: its text is split at its first slash; what
/// stands before names the identity, in display form or as a raw key, and
/// what follows, slash included, is the path.
pub open spec fn address_read(text: Seq<char>) -> Result<(Seq<u8>, Seq<char>), ErrorKind> {
    if !has_slash(text) {
        Err(ErrorKind::Validation)
    } else {
        let at = first_slash(text);
        match z32_read(key_text(text.subrange(0, at))) {
            Ok(key) => Ok((key, text.subrange(at, text.len() as int))),
            Err(_) => Err(ErrorKind::Parse),
        }
    }
}

/// What is said of an address that does not read: that it has no slash, or
/// the key reader's words on what stands before the slash.
pub open spec fn address_fault(text: Seq<char>) -> Seq<char> {
    if !has_slash(text) {
        "address must hold a key and an absolute path"@
    } else {
        match z32_read(key_text(text.subrange(0, first_slash(text)))) {
            Ok(_) => Seq::empty(),
            Err(words) => words,
        }
    }
}

impl Address {
    /// Reads an address in display form, `pubky<key>/<path>`, or in transport
    /// form, `<key>/<path>`. An address without a slash is a validation
    /// error; one whose identity cannot be read is a parse error.
    pub fn parse(text: &str) -> (r: Result<Address, Error>)
        ensures
            r matches Ok(a) ==> (address_read(text@) matches Ok(parts) && parts.0 == a.owner@
                && parts.1 == a.path@) && is_absolute(a.path@),
            r matches Err(e) ==> (address_read(text@) matches Err(kind) && kind == e.kind)
                && e.message@ == address_fault(text@),
    {
        let chars = to_chars(text);
        let n: usize = chars.len();
        let mut at: usize = 0;
        while at < n && chars[at] != '/'
            invariant
                at <= n,
                n == chars@.len(),
                forall|j: int| 0 <= j < at ==> chars@[j] != '/',
            decreases n - at,
        {
            at = at + 1;
        }
        if at == n {
            proof {
                if has_slash(chars@) {
                    let w = first_slash(chars@);
                    assert(chars@[w] == '/');
                }
            }
            return Err(Error::validation("address must hold a key and an absolute path"));
        }
        proof {
            assert(is_first_slash(chars@, at as int));
            let w = first_slash(chars@);
            assert(is_first_slash(chars@, w));
            assert(w == at) by {
                if w < at {
                    assert(chars@[w] != '/');
                }
                if at < w {
                    assert(chars@[at as int] != '/');
                }
            }
        }
        let key_part = text.substring_char(0, at);
        let path_part = text.substring_char(at, n);
        match PublicKey::parse(key_part) {
            Ok(owner) => Ok(Address { owner, path: path_part.to_owned() }),
            Err(e) => Err(e),
        }
    }

    /// The display form of this address: the owner's display form, then the
    /// path.
    pub fn to_display_string(&self) -> (text: String)
        ensures
            text@ == crate::keys::display_marker() + z32_text(self.owner@) + self.path@,
    {
        let shown = self.owner.to_display_string();
        concat(shown.as_str(), self.path.as_str())
    }

    /// The transport URL of this address: `https://_pubky.<key><path>`.
    pub fn to_transport_url(&self) -> (url: String)
        ensures
            url@ == "https://"@ + reserved_prefix() + z32_text(self.owner@) + self.path@,
    {
        let host = resolved_host(&self.owner);
        let front = concat("https://", host.as_str());
        let url = concat(front.as_str(), self.path.as_str());
        assert(url@ =~= "https://"@ + reserved_prefix() + z32_text(self.owner@) + self.path@);
        url
    }
}

impl ReadOp {
    /// The operation of authenticated storage that this is.
    pub fn as_storage_op(self) -> (op: StorageOp)
        ensures
            op == as_storage_op(self),
            needs(op) == Access::Read,
    {
        match self {
            ReadOp::Get => StorageOp::Get,
            ReadOp::Exists => StorageOp::Exists,
            ReadOp::List => StorageOp::List,
        }
    }
}

impl PublicStorage {
    /// Public storage. It holds no credentials.
    pub fn new() -> PublicStorage {
        PublicStorage {  }
    }

    /// Names the request that reads at an address. The address is read as
    /// `Address::parse` reads it, and its errors are handed on.
    pub fn request(&self, op: ReadOp, address: &str) -> (r: Result<StorageRequest, Error>)
        ensures
            r matches Ok(q) ==> (address_read(address@) matches Ok(parts) && parts.0 == q.owner@
                && parts.1 == q.path@) && q.method == method_of(as_storage_op(op)) && q.host@
                == reserved_prefix() + z32_text(q.owner@),
            r matches Err(e) ==> (address_read(address@) matches Err(kind) && kind == e.kind)
                && e.message@ == address_fault(address@),
    {
        match Address::parse(address) {
            Ok(a) => Ok(
                StorageRequest {
                    method: op.as_storage_op().method(),
                    owner: a.owner,
                    host: resolved_host(&a.owner),
                    path: a.path,
                },
            ),
            Err(e) => Err(e),
        }
    }
}

/// What a status means for the existence of an object: any success means it
/// exists, 404 means it does not, and nothing else answers the question.
pub open spec fn existence(status: u16) -> Option<bool> {
    if 200 <= status < 300 {
        Some(true)
    } else if status == 404 {
        Some(false)
    } else {
        None
    }
}

/// Turns the status of an existence check into its answer; a status that
/// does not answer the question is a request error.
pub fn exists_from_status(status: u16) -> (r: Result<bool, Error>)
    ensures
        r matches Ok(b) ==> existence(status) == Some(b),
        r matches Err(e) ==> existence(status) is None && e.kind == ErrorKind::Request
            && e.message@ == "unexpected status for an existence check"@,
{
    if 200 <= status && status < 300 {
        Ok(true)
    } else if status == 404 {
        Ok(false)
    } else {
        Err(Error::new(ErrorKind::Request, "unexpected status for an existence check"))
    }
}

/// One entry of a directory listing.
#[derive(Debug, PartialEq, Eq)]
pub struct Entry {
    /// The identity whose data the entry is.
    pub owner: PublicKey,
    /// The absolute path of the entry.
    pub path: String,
}

/// What an entry is.
pub struct EntryView {
    /// The identity whose data the entry is.
    pub owner: Seq<u8>,
    /// The absolute path of the entry.
    pub path: Seq<char>,
}

impl View for Entry {
    type V = EntryView;

    open spec fn view(&self) -> EntryView {
        EntryView { owner: self.owner@, path: self.path@ }
    }
}

impl Clone for Entry {
    fn clone(&self) -> (copy: Entry)
        ensures
            copy@ == self@,
    {
        Entry { owner: self.owner, path: self.path.clone() }
    }
}

impl Entry {
    /// Whether the entry is a directory: its path ends with a slash.
    pub fn is_dir(&self) -> (yes: bool)
        ensures
            yes == (self.path@.len() > 0 && self.path@.last() == '/'),
    {
        ends_with_char(self.path.as_str(), '/')
    }

    /// The URL of the entry: `pubky://<key><path>`.
    pub fn to_pubky_url(&self) -> (url: String)
        ensures
            url@ == "pubky://"@ + z32_text(self.owner@) + self.path@,
    {
        let raw = self.owner.z32();
        let front = concat("pubky://", raw.as_str());
        concat(front.as_str(), self.path.as_str())
    }
}

/// The views of a run of entries.
pub open spec fn entry_views(entries: Seq<Entry>) -> Seq<EntryView> {
    entries.map_values(|e: Entry| e@)
}

/// The entries under `dir`: those whose path begins with it, in order.
pub open spec fn under(dir: Seq<char>, entries: Seq<EntryView>) -> Seq<EntryView>
    decreases entries.len(),
{
    if entries.len() == 0 {
        Seq::<EntryView>::empty()
    } else if dir.is_prefix_of(entries.last().path) {
        under(dir, entries.drop_last()).push(entries.last())
    } else {
        under(dir, entries.drop_last())
    }
}

/// The first `limit` of `entries`, or all of them where there are fewer.
pub open spec fn truncated(entries: Seq<EntryView>, limit: int) -> Seq<EntryView> {
    if entries.len() <= limit {
        entries
    } else {
        entries.take(limit)
    }
}

/// What a listing of `dir` shows of what the homeserver sent: the entries
/// under `dir`, in the homeserver's order, cut at the limit where one is set.
pub open spec fn listing(dir: Seq<char>, limit: Option<u16>, entries: Seq<EntryView>) -> Seq<
    EntryView,
> {
    match limit {
        Some(most) => truncated(under(dir, entries), most as int),
        None => under(dir, entries),
    }
}

/// Every entry of a listing lies under the directory and comes from what the
/// homeserver sent, in the same order; a listing is no longer than its limit.
pub proof fn lemma_listing(dir: Seq<char>, limit: Option<u16>, entries: Seq<EntryView>)
    ensures
        forall|i: int|
            0 <= i < listing(dir, limit, entries).len() ==> dir.is_prefix_of(
                #[trigger] listing(dir, limit, entries)[i].path,
            ),
        limit matches Some(most) ==> listing(dir, limit, entries).len() <= most,
        listing(dir, limit, entries).len() <= entries.len(),
{
    lemma_under(dir, entries);
    let all = under(dir, entries);
    let shown = listing(dir, limit, entries);
    assert forall|i: int| 0 <= i < shown.len() implies dir.is_prefix_of(#[trigger] shown[i].path) by {
        assert(shown[i] == all[i]);
    }
}

/// Every entry under a directory has a path that begins with it, and there
/// are no more of them than entries.
pub proof fn lemma_under(dir: Seq<char>, entries: Seq<EntryView>)
    ensures
        forall|i: int|
            0 <= i < under(dir, entries).len() ==> dir.is_prefix_of(
                #[trigger] under(dir, entries)[i].path,
            ),
        under(dir, entries).len() <= entries.len(),
    decreases entries.len(),
{
    if entries.len() > 0 {
        lemma_under(dir, entries.drop_last());
    }
}

/// Shows of a homeserver's listing what belongs in a listing of `dir`: only
/// entries whose path begins with `dir`, in the order in which they came, and
/// no more than `limit` of them.
pub fn accept_listing(dir: &str, limit: Option<u16>, entries: &Vec<Entry>) -> (shown: Vec<Entry>)
    ensures
        entry_views(shown@) == listing(dir@, limit, entry_views(entries@)),
        forall|i: int| 0 <= i < shown@.len() ==> dir@.is_prefix_of(#[trigger] shown@[i].path@),
        limit matches Some(most) ==> shown@.len() <= most,
{
    let ghost all = entry_views(entries@);
    let mut shown: Vec<Entry> = Vec::new();
    let n: usize = entries.len();
    let mut i: usize = 0;
    proof {
        assert(all.take(0) =~= Seq::<EntryView>::empty());
    }
    while i < n
        invariant
            n == entries@.len(),
            i <= n,
            all == entry_views(entries@),
            entry_views(shown@) =~= listing(dir@, limit, all.take(i as int)),
        decreases n - i,
    {
        let entry = &entries[i];
        let ghost seen = all.take(i as int);
        let ghost next = all.take(i + 1);
        proof {
            assert(next.drop_last() =~= seen);
            assert(next.last() == entry@);
            lemma_under(dir@, seen);
        }
        let room = match limit {
            Some(most) => shown.len() < most as usize,
            None => true,
        };
        let ghost before = entry_views(shown@);
        let ghost found = under(dir@, seen);
        let fits = has_prefix(entry.path.as_str(), dir);
        if fits && room {
            shown.push(entry.clone());
        }
        proof {
            let after = entry_views(shown@);
            if fits {
                assert(under(dir@, next) == found.push(entry@));
                if room {
                    assert(after =~= before.push(entry@));
                    assert(before =~= found);
                } else {
                    let most = limit->0 as int;
                    assert(found.len() >= most);
                    assert(found.push(entry@).take(most) =~= found.take(most));
                    assert(before =~= found.take(most));
                }
            } else {
                assert(under(dir@, next) == found);
            }
            assert(after =~= listing(dir@, limit, next));
        }
        i = i + 1;
    }
    proof {
        assert(all.take(n as int) =~= all);
        lemma_listing(dir@, limit, all);
        assert forall|k: int| 0 <= k < shown@.len() implies dir@.is_prefix_of(
            #[trigger] shown@[k].path@,
        ) by {
            assert(entry_views(shown@)[k].path == shown@[k].path@);
        }
    }
    shown
}

impl StorageRequest {
    /// The URL that the request goes to: `https://<host><path>`.
    pub fn to_url(&self) -> (url: String)
        ensures
            url@ == "https://"@ + self.host@ + self.path@,
    {
        let front = concat("https://", self.host.as_str());
        concat(front.as_str(), self.path.as_str())
    }
}

/// Whether a status reports success.
pub open spec fn is_success(status: u16) -> bool {
    200 <= status < 300
}

/// Turns the status of a read, a write or a removal into its outcome: any
/// status but a success is a request error that holds the homeserver's words.
pub fn check_status(status: u16, message: String) -> (r: Result<(), Error>)
    ensures
        r is Ok <==> is_success(status),
        r matches Err(e) ==> e.kind == ErrorKind::Request && e.message@ == message@,
{
    if 200 <= status && status < 300 {
        Ok(())
    } else {
        Err(Error { kind: ErrorKind::Request, message })
    }
}

/// The scheme in front of an entry's URL.
pub open spec fn entry_scheme() -> Seq<char> {
    "pubky://"@
}

/// What the URL of an entry reads as: behind the scheme stands an address in
/// transport form. A URL without the scheme is a validation error.
pub open spec fn entry_read(url: Seq<char>) -> Result<(Seq<u8>, Seq<char>), ErrorKind> {
    match crate::text::stripped(url, entry_scheme()) {
        None => Err(ErrorKind::Validation),
        Some(rest) => address_read(rest),
    }
}

/// The message of the refusal of an entry's URL that lacks the scheme.
pub open spec fn no_scheme_message() -> Seq<char> {
    "an entry's URL must start with pubky://"@
}

/// What is said of an entry's URL that does not read: that it lacks the
/// scheme, or what is said of the address behind the scheme.
pub open spec fn entry_fault(url: Seq<char>) -> Seq<char> {
    match crate::text::stripped(url, entry_scheme()) {
        None => no_scheme_message(),
        Some(rest) => address_fault(rest),
    }
}

/// What is said of a listing that does not read: what is said of its first
/// line, from the top, that does not read.
pub open spec fn entries_fault(lines: Seq<Seq<char>>) -> Seq<char>
    decreases lines.len(),
{
    if lines.len() == 0 {
        Seq::empty()
    } else if entries_read(lines.drop_last()) is Err {
        entries_fault(lines.drop_last())
    } else {
        entry_fault(lines.last())
    }
}

/// What the lines of a listing read as: one entry for each line that is not
/// empty, in order; the first line that does not read fails the listing.
pub open spec fn entries_read(lines: Seq<Seq<char>>) -> Result<Seq<EntryView>, ErrorKind>
    decreases lines.len(),
{
    if lines.len() == 0 {
        Ok(Seq::<EntryView>::empty())
    } else {
        match entries_read(lines.drop_last()) {
            Err(kind) => Err(kind),
            Ok(before) => if lines.last().len() == 0 {
                Ok(before)
            } else {
                match entry_read(lines.last()) {
                    Ok(parts) => Ok(before.push(EntryView { owner: parts.0, path: parts.1 })),
                    Err(kind) => Err(kind),
                }
            },
        }
    }
}

/// The texts of `lines`.
pub open spec fn line_texts(lines: Seq<String>) -> Seq<Seq<char>> {
    lines.map_values(|l: String| l@)
}

impl Entry {
    /// Reads an entry from its URL, `pubky://<key><path>`.
    pub fn from_url(url: &str) -> (r: Result<Entry, Error>)
        ensures
            r matches Ok(e) ==> (entry_read(url@) matches Ok(parts) && parts.0 == e.owner@
                && parts.1 == e.path@),
            r matches Err(e) ==> (entry_read(url@) matches Err(kind) && kind == e.kind)
                && e.message@ == entry_fault(url@),
    {
        match crate::text::strip_prefix(url, "pubky://") {
            None => Err(Error::validation("an entry's URL must start with pubky://")),
            Some(rest) => match Address::parse(rest) {
                Ok(address) => Ok(Entry { owner: address.owner, path: address.path }),
                Err(e) => Err(e),
            },
        }
    }
}

/// Reads the entries of a listing from the lines that a homeserver sent.
pub fn entries_from_lines(lines: &Vec<String>) -> (r: Result<Vec<Entry>, Error>)
    ensures
        r matches Ok(entries) ==> (entries_read(line_texts(lines@)) matches Ok(read) && read
            == entry_views(entries@)),
        r matches Err(e) ==> (entries_read(line_texts(lines@)) matches Err(kind) && kind == e.kind)
            && e.message@ == entries_fault(line_texts(lines@)),
{
    let ghost all = line_texts(lines@);
    let mut entries: Vec<Entry> = Vec::new();
    let n: usize = lines.len();
    let mut i: usize = 0;
    proof {
        assert(all.take(0) =~= Seq::<Seq<char>>::empty());
        assert(entry_views(entries@) =~= Seq::<EntryView>::empty());
    }
    while i < n
        invariant
            n == lines@.len(),
            all == line_texts(lines@),
            i <= n,
            entries_read(all.take(i as int)) == Ok::<Seq<EntryView>, ErrorKind>(
                entry_views(entries@),
            ),
        decreases n - i,
    {
        let line = lines[i].as_str();
        proof {
            assert(all.take(i + 1).drop_last() =~= all.take(i as int));
            assert(all.take(i + 1).last() == line@);
        }
        if line.unicode_len() > 0 {
            match Entry::from_url(line) {
                Err(e) => {
                    proof {
                        lemma_bad_line_fails(all, i + 1);
                    }
                    return Err(e);
                },
                Ok(entry) => {
                    let ghost before = entry_views(entries@);
                    entries.push(entry);
                    proof {
                        assert(entry_views(entries@) =~= before.push(entry@));
                    }
                },
            }
        }
        i = i + 1;
    }
    proof {
        assert(all.take(n as int) =~= all);
    }
    Ok(entries)
}

/// A listing whose first lines do not read does not read, and what is said
/// of it is what is said of those lines.
proof fn lemma_bad_line_fails(lines: Seq<Seq<char>>, upto: int)
    requires
        0 <= upto <= lines.len(),
        entries_read(lines.take(upto)) is Err,
    ensures
        entries_read(lines) == entries_read(lines.take(upto)),
        entries_fault(lines) == entries_fault(lines.take(upto)),
    decreases lines.len() - upto,
{
    if upto == lines.len() {
        assert(lines.take(upto) =~= lines);
    } else {
        assert(lines.take(upto + 1).drop_last() =~= lines.take(upto));
        lemma_bad_line_fails(lines, upto + 1);
    }
}

} // verus!
