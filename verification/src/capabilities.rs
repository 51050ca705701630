//! Capabilities: path-scoped read and write grants, and their text form.
//!
//! One capability is written `<path>:<flags>`, the flags being `r` and `w` in
//! any order and combination. A set of capabilities is written as its entries
//! joined by commas, in order. No two entries of a set share a path.

use vstd::prelude::*;
use vstd::string::StrSliceExecFns;
use vstd::string::StringExecFns;
use crate::error::{Error, ErrorKind};
use crate::text::{concat, same_text, to_chars};

verus! {

/// What a capability is: a path and the two permission flags.
pub struct CapabilityView {
    /// The path prefix that the grant covers.
    pub path: Seq<char>,
    /// Whether reading is granted.
    pub read: bool,
    /// Whether writing is granted.
    pub write: bool,
}

/// A path-scoped grant.
#[derive(Debug, PartialEq, Eq)]
pub struct Capability {
    path: String,
    read: bool,
    write: bool,
}

impl View for Capability {
    type V = CapabilityView;

    closed spec fn view(&self) -> CapabilityView {
        CapabilityView { path: self.path@, read: self.read, write: self.write }
    }
}

impl Clone for Capability {
    fn clone(&self) -> (copy: Capability)
        ensures
            copy@ == self@,
    {
        proof {
            use_type_invariant(self);
        }
        Capability { path: self.path.clone(), read: self.read, write: self.write }
    }
}

/// Whether a path may scope a capability: it starts with a slash.
pub open spec fn is_scope(path: Seq<char>) -> bool {
    path.len() > 0 && path[0] == '/'
}

/// The flag letters of a capability: `r` where it reads, then `w` where it
/// writes.
pub open spec fn flags_text(c: CapabilityView) -> Seq<char> {
    (if c.read {
        seq!['r']
    } else {
        Seq::<char>::empty()
    }) + (if c.write {
        seq!['w']
    } else {
        Seq::<char>::empty()
    })
}

/// The text of one capability: its path, a colon, its flag letters.
pub open spec fn entry_text(c: CapabilityView) -> Seq<char> {
    c.path + seq![':'] + flags_text(c)
}

/// The text of a sequence of capabilities: the entries in order, joined by
/// commas.
pub open spec fn format(caps: Seq<CapabilityView>) -> Seq<char>
    decreases caps.len(),
{
    if caps.len() == 0 {
        Seq::<char>::empty()
    } else if caps.len() == 1 {
        entry_text(caps[0])
    } else {
        format(caps.drop_last()) + seq![','] + entry_text(caps.last())
    }
}

/// The views of a run of capabilities.
pub open spec fn views(caps: Seq<Capability>) -> Seq<CapabilityView> {
    caps.map_values(|c: Capability| c@)
}

/// Whether a path can stand in the text of a set: it starts with a slash and
/// holds no comma, the sign that parts the entries of that text.
pub open spec fn is_capability_path(path: Seq<char>) -> bool {
    is_scope(path) && !path.contains(',')
}

/// Whether `chars` holds a comma.
fn holds_comma(chars: &Vec<char>) -> (yes: bool)
    ensures
        yes == chars@.contains(','),
{
    let n: usize = chars.len();
    let mut i: usize = 0;
    while i < n
        invariant
            n == chars@.len(),
            i <= n,
            forall|j: int| 0 <= j < i ==> chars@[j] != ',',
        decreases n - i,
    {
        if chars[i] == ',' {
            return true;
        }
        i = i + 1;
    }
    false
}

impl Capability {
    /// Every capability is scoped by a path that starts with a slash and
    /// holds no comma.
    #[verifier::type_invariant]
    pub closed spec fn is_valid(self) -> bool {
        is_capability_path(self.path@)
    }

    /// A capability on `path` with the given flags. Fails with a validation
    /// error where the path does not start with a slash, and where it holds
    /// a comma: the text of a set parts its entries by commas, so such a
    /// path could not be read back from it.
    pub fn new(path: &str, read: bool, write: bool) -> (r: Result<Capability, Error>)
        ensures
            r is Ok <==> is_capability_path(path@),
            r matches Ok(c) ==> c@ == (CapabilityView { path: path@, read, write }),
            r matches Err(e) ==> e.kind == ErrorKind::Validation && e.message@ == (if !is_scope(
                path@,
            ) {
                "capability path must start with '/'"@
            } else {
                "capability path must not hold ','"@
            }),
    {
        let chars = to_chars(path);
        if chars.len() == 0 || chars[0] != '/' {
            return Err(Error::validation("capability path must start with '/'"));
        }
        if holds_comma(&chars) {
            return Err(Error::validation("capability path must not hold ','"));
        }
        Ok(Capability { path: path.to_owned(), read, write })
    }

    /// The path prefix that this grant covers.
    pub fn path(&self) -> (path: &str)
        ensures
            path@ == self@.path,
            is_scope(path@),
            !path@.contains(','),
    {
        proof {
            use_type_invariant(self);
        }
        self.path.as_str()
    }

    /// Whether reading is granted.
    pub fn can_read(&self) -> (yes: bool)
        ensures
            yes == self@.read,
    {
        self.read
    }

    /// Whether writing is granted.
    pub fn can_write(&self) -> (yes: bool)
        ensures
            yes == self@.write,
    {
        self.write
    }

    /// The text of this capability: `<path>:<flags>`.
    pub fn to_text(&self) -> (text: String)
        ensures
            text@ == entry_text(self@),
    {
        let mut text = concat(self.path.as_str(), ":");
        proof {
            reveal_strlit(":");
            reveal_strlit("r");
            reveal_strlit("w");
            assert(":"@ =~= seq![':']);
            assert("r"@ =~= seq!['r']);
            assert("w"@ =~= seq!['w']);
        }
        if self.read {
            text.append("r");
        }
        if self.write {
            text.append("w");
        }
        assert(text@ =~= entry_text(self@));
        text
    }
}

/// Writes capabilities as text: the entries in order, joined by commas.
pub fn format_capabilities(caps: &[Capability]) -> (text: String)
    ensures
        text@ == format(views(caps@)),
{
    let mut text = String::new();
    let n: usize = caps.len();
    let mut i: usize = 0;
    proof {
        reveal_strlit(",");
        assert(","@ =~= seq![',']);
        assert(views(caps@).take(0) =~= Seq::<CapabilityView>::empty());
    }
    while i < n
        invariant
            n == caps@.len(),
            i <= n,
            ","@ == seq![','],
            text@ == format(views(caps@).take(i as int)),
        decreases n - i,
    {
        let entry = caps[i].to_text();
        let ghost before = views(caps@).take(i as int);
        let ghost after = views(caps@).take(i + 1);
        proof {
            assert(after.drop_last() =~= before);
            assert(after.last() == caps@[i as int]@);
        }
        if i > 0 {
            text.append(",");
        }
        text.append(entry.as_str());
        proof {
            if i == 0 {
                assert(before.len() == 0);
                assert(text@ =~= entry_text(after[0]));
            }
        }
        i = i + 1;
    }
    proof {
        assert(views(caps@).take(n as int) =~= views(caps@));
    }
    text
}

/// The index of the last `c` in `text`, or -1 where `text` holds none.
pub open spec fn last_index_of(text: Seq<char>, c: char) -> int
    decreases text.len(),
{
    if text.len() == 0 {
        -1
    } else if text.last() == c {
        text.len() - 1
    } else {
        last_index_of(text.drop_last(), c)
    }
}

/// Whether every letter of `flags` is `r` or `w`.
pub open spec fn all_flags(flags: Seq<char>) -> bool {
    forall|i: int| 0 <= i < flags.len() ==> flags[i] == 'r' || flags[i] == 'w'
}

/// What one entry reads as: it is split at its last colon into a path, which
/// must start with a slash, and flag letters, which must all be `r` or `w`.
pub open spec fn parse_entry(entry: Seq<char>) -> Option<CapabilityView> {
    let colon = last_index_of(entry, ':');
    if colon < 0 {
        None
    } else {
        let path = entry.subrange(0, colon);
        let flags = entry.subrange(colon + 1, entry.len() as int);
        if is_scope(path) && all_flags(flags) {
            Some(CapabilityView { path, read: flags.contains('r'), write: flags.contains('w') })
        } else {
            None
        }
    }
}

/// The index of the first capability on `path` in `caps`, or -1.
pub open spec fn position(caps: Seq<CapabilityView>, path: Seq<char>) -> int
    decreases caps.len(),
{
    if caps.len() == 0 {
        -1
    } else {
        let before = position(caps.drop_last(), path);
        if before >= 0 {
            before
        } else if caps.last().path == path {
            caps.len() - 1
        } else {
            -1
        }
    }
}

/// `caps` with `c` taken in: where `caps` already holds a capability on the
/// same path, that one gains the flags of `c`; otherwise `c` is put last.
pub open spec fn inserted(caps: Seq<CapabilityView>, c: CapabilityView) -> Seq<CapabilityView> {
    let at = position(caps, c.path);
    if 0 <= at < caps.len() {
        caps.update(
            at,
            CapabilityView {
                path: c.path,
                read: caps[at].read || c.read,
                write: caps[at].write || c.write,
            },
        )
    } else {
        caps.push(c)
    }
}

/// What a non-empty text reads as: its entries, split at commas, taken in one
/// after the other; or the first entry, from the left, that cannot be read.
pub open spec fn parse_entries(text: Seq<char>) -> Result<Seq<CapabilityView>, Seq<char>>
    decreases text.len(),
{
    let comma = last_index_of(text, ',');
    let front = if 0 <= comma < text.len() {
        parse_entries(text.subrange(0, comma))
    } else {
        Ok(Seq::<CapabilityView>::empty())
    };
    let entry = if 0 <= comma < text.len() {
        text.subrange(comma + 1, text.len() as int)
    } else {
        text
    };
    match front {
        Err(bad) => Err(bad),
        Ok(caps) => match parse_entry(entry) {
            Some(c) => Ok(inserted(caps, c)),
            None => Err(entry),
        },
    }
}

/// What a text reads as: nothing for the empty text, else its entries.
pub open spec fn parse_text(text: Seq<char>) -> Result<Seq<CapabilityView>, Seq<char>> {
    if text.len() == 0 {
        Ok(Seq::<CapabilityView>::empty())
    } else {
        parse_entries(text)
    }
}

/// Whether `caps` is a set of capabilities: no two share a path, and every
/// path starts with a slash and holds no comma.
pub open spec fn is_set(caps: Seq<CapabilityView>) -> bool {
    distinct_paths(caps) && scoped(caps) && comma_free(caps)
}

/// Whether no two capabilities of `caps` share a path.
pub open spec fn distinct_paths(caps: Seq<CapabilityView>) -> bool {
    forall|i: int, j: int| 0 <= i < j < caps.len() ==> caps[i].path != caps[j].path
}

/// Whether every capability of `caps` has a path that starts with a slash.
pub open spec fn scoped(caps: Seq<CapabilityView>) -> bool {
    forall|i: int| 0 <= i < caps.len() ==> is_scope(#[trigger] caps[i].path)
}

/// Where `last_index_of` points: at an occurrence with none behind it, or
/// nowhere when there is no occurrence.
pub proof fn lemma_last_index_of(text: Seq<char>, c: char)
    ensures
        -1 <= last_index_of(text, c) < text.len(),
        last_index_of(text, c) >= 0 ==> text[last_index_of(text, c)] == c,
        forall|j: int| last_index_of(text, c) < j < text.len() ==> text[j] != c,
    decreases text.len(),
{
    if text.len() > 0 && text.last() != c {
        lemma_last_index_of(text.drop_last(), c);
        let at = last_index_of(text.drop_last(), c);
        assert forall|j: int| at < j < text.len() implies text[j] != c by {
            if j < text.len() - 1 {
                assert(text.drop_last()[j] == text[j]);
            }
        }
    }
}

/// An index that holds `c` with no `c` behind it is the last index of `c`;
/// `at` is -1 for a text without `c`.
pub proof fn lemma_last_index_is(text: Seq<char>, c: char, at: int)
    requires
        -1 <= at < text.len(),
        at >= 0 ==> text[at] == c,
        forall|j: int| at < j < text.len() ==> text[j] != c,
    ensures
        last_index_of(text, c) == at,
{
    lemma_last_index_of(text, c);
}

/// Where `position` points: at the first capability on the path, or nowhere
/// when there is none.
pub proof fn lemma_position(caps: Seq<CapabilityView>, path: Seq<char>)
    ensures
        -1 <= position(caps, path) < caps.len(),
        position(caps, path) >= 0 ==> caps[position(caps, path)].path == path,
        forall|j: int| 0 <= j < position(caps, path) ==> caps[j].path != path,
        position(caps, path) < 0 ==> forall|j: int| 0 <= j < caps.len() ==> caps[j].path != path,
    decreases caps.len(),
{
    if caps.len() > 0 {
        lemma_position(caps.drop_last(), path);
        let before = position(caps.drop_last(), path);
        assert forall|j: int| 0 <= j < caps.len() - 1 implies caps.drop_last()[j] == caps[j] by {}
        if before < 0 {
            assert forall|j: int| 0 <= j < caps.len() - 1 implies caps[j].path != path by {
                assert(caps.drop_last()[j].path != path);
            }
        } else {
            assert forall|j: int| 0 <= j < before implies caps[j].path != path by {
                assert(caps.drop_last()[j].path != path);
            }
        }
    }
}

/// Taking a capability in keeps the paths distinct and scoped, and free of
/// commas where they were.
pub proof fn lemma_inserted_keeps_order(caps: Seq<CapabilityView>, c: CapabilityView)
    requires
        distinct_paths(caps),
        scoped(caps),
        is_scope(c.path),
    ensures
        distinct_paths(inserted(caps, c)),
        scoped(inserted(caps, c)),
        position(caps, c.path) < 0 ==> inserted(caps, c) == caps.push(c),
        comma_free(caps) && !c.path.contains(',') ==> comma_free(inserted(caps, c)),
{
    lemma_position(caps, c.path);
    let out = inserted(caps, c);
    let at = position(caps, c.path);
    assert forall|i: int, j: int| 0 <= i < j < out.len() implies out[i].path != out[j].path by {
        if at >= 0 {
            assert(out[i].path == caps[i].path);
            assert(out[j].path == caps[j].path);
        } else if j < caps.len() {
            assert(out[i] == caps[i] && out[j] == caps[j]);
        } else {
            assert(out[i] == caps[i]);
        }
    }
    assert forall|i: int| 0 <= i < out.len() implies is_scope(#[trigger] out[i].path) by {
        if i < caps.len() {
            assert(is_scope(caps[i].path));
        }
    }
    if comma_free(caps) && !c.path.contains(',') {
        assert forall|i: int| 0 <= i < out.len() implies !(#[trigger] out[i].path).contains(
            ',',
        ) by {
            if i < caps.len() {
                assert(!caps[i].path.contains(','));
                assert(out[i].path == caps[i].path);
            }
        }
    }
}

/// Reads the entry that `chars` holds from `start` up to `end`. `text` is the
/// text that `chars` was taken from.
fn read_entry(text: &str, chars: &Vec<char>, start: usize, end: usize) -> (r: Option<Capability>)
    requires
        chars@ == text@,
        start <= end <= chars@.len(),
        forall|j: int| start <= j < end ==> chars@[j] != ',',
    ensures
        r is Some <==> parse_entry(chars@.subrange(start as int, end as int)) is Some,
        r matches Some(c) ==> parse_entry(chars@.subrange(start as int, end as int)) == Some(c@),
{
    let ghost entry = chars@.subrange(start as int, end as int);
    let mut colon: usize = end;
    while colon > start && chars[colon - 1] != ':'
        invariant
            start <= colon <= end <= chars@.len(),
            forall|j: int| colon <= j < end ==> chars@[j] != ':',
        decreases colon,
    {
        colon = colon - 1;
    }
    if colon == start {
        proof {
            lemma_last_index_is(entry, ':', -1);
        }
        return None;
    }
    let at: usize = colon - 1;
    proof {
        lemma_last_index_is(entry, ':', at - start);
    }
    let ghost path = entry.subrange(0, at - start);
    let ghost flags = entry.subrange(at - start + 1, entry.len() as int);
    assert(path =~= chars@.subrange(start as int, at as int));
    assert(flags =~= chars@.subrange(colon as int, end as int));
    if at == start || chars[start] != '/' {
        return None;
    }
    assert(is_scope(path));
    assert(parse_entry(entry) is Some <==> all_flags(flags));
    let mut read = false;
    let mut write = false;
    let mut i: usize = colon;
    while i < end
        invariant
            colon <= i <= end <= chars@.len(),
            flags == chars@.subrange(colon as int, end as int),
            parse_entry(entry) is Some <==> all_flags(flags),
            entry == chars@.subrange(start as int, end as int),
            forall|j: int| 0 <= j < i - colon ==> flags[j] == 'r' || flags[j] == 'w',
            read == flags.take(i - colon).contains('r'),
            write == flags.take(i - colon).contains('w'),
        decreases end - i,
    {
        let c = chars[i];
        let ghost seen = flags.take(i - colon);
        let ghost next = flags.take(i - colon + 1);
        proof {
            assert(flags[i - colon] == c);
            assert(next =~= seen.push(c));
            assert forall|x: char| next.contains(x) <==> seen.contains(x) || x == c by {
                if seen.contains(x) {
                    let k = choose|k: int| 0 <= k < seen.len() && seen[k] == x;
                    assert(next[k] == x);
                }
                if x == c {
                    assert(next[next.len() - 1] == x);
                }
                if next.contains(x) {
                    let k = choose|k: int| 0 <= k < next.len() && next[k] == x;
                    if k < seen.len() {
                        assert(seen[k] == x);
                    }
                }
            }
        }
        if c == 'r' {
            read = true;
        } else if c == 'w' {
            write = true;
        } else {
            assert(!all_flags(flags));
            return None;
        }
        i = i + 1;
    }
    proof {
        assert(flags.take(end - colon) =~= flags);
        assert(all_flags(flags));
    }
    let path_text = text.substring_char(start, at);
    proof {
        if path_text@.contains(',') {
            let k = choose|k: int| 0 <= k < path_text@.len() && path_text@[k] == ',';
            assert(chars@[start + k] == ',');
        }
    }
    Some(Capability { path: path_text.to_owned(), read, write })
}

/// The index of the first capability on `path` among `items`.
fn find_path(items: &Vec<Capability>, path: &str) -> (at: Option<usize>)
    ensures
        at is None <==> position(views(items@), path@) < 0,
        at matches Some(i) ==> i == position(views(items@), path@),
{
    let n: usize = items.len();
    let mut i: usize = 0;
    while i < n
        invariant
            n == items@.len(),
            i <= n,
            forall|j: int| 0 <= j < i ==> views(items@)[j].path != path@,
        decreases n - i,
    {
        if same_text(items[i].path(), path) {
            proof {
                assert(views(items@)[i as int].path == path@);
                lemma_position(views(items@), path@);
            }
            return Some(i);
        }
        i = i + 1;
    }
    proof {
        lemma_position(views(items@), path@);
    }
    None
}

/// Takes `cap` in: merges its flags into the capability on the same path, or
/// puts it last.
fn take_in(items: &mut Vec<Capability>, cap: Capability)
    ensures
        views(final(items)@) == inserted(views(old(items)@), cap@),
{
    let ghost before = views(items@);
    proof {
        lemma_position(before, cap@.path);
    }
    match find_path(items, cap.path()) {
        Some(i) => {
            let merged = Capability {
                path: cap.path().to_owned(),
                read: items[i].can_read() || cap.can_read(),
                write: items[i].can_write() || cap.can_write(),
            };
            items.set(i, merged);
            assert(views(items@) =~= inserted(before, cap@));
        },
        None => {
            items.push(cap);
            assert(views(items@) =~= inserted(before, cap@));
        },
    }
}

/// What has been read of `text` before the entry that begins at `start`.
pub open spec fn read_before(text: Seq<char>, start: int) -> Result<Seq<CapabilityView>, Seq<char>> {
    if start == 0 {
        Ok(Seq::<CapabilityView>::empty())
    } else {
        parse_entries(text.subrange(0, start - 1))
    }
}

/// The words that open the message of a parse error; the offending entry
/// follows them.
pub open spec fn bad_entry_prefix() -> Seq<char> {
    "invalid capability entry: "@
}

/// An entry that cannot be read fails the whole text, whatever follows it.
pub proof fn lemma_failure_stands(text: Seq<char>, end: int)
    requires
        0 <= end <= text.len(),
        end < text.len() ==> text[end] == ',',
        parse_entries(text.subrange(0, end)) is Err,
    ensures
        parse_entries(text) == parse_entries(text.subrange(0, end)),
    decreases text.len(),
{
    if end == text.len() {
        assert(text.subrange(0, end) =~= text);
    } else {
        lemma_last_index_of(text, ',');
        let comma = last_index_of(text, ',');
        assert(comma >= end);
        if comma > end {
            let shorter = text.subrange(0, comma);
            assert(shorter.subrange(0, end) =~= text.subrange(0, end));
            lemma_failure_stands(shorter, end);
        }
    }
}

/// A set of capabilities: in order, no two on the same path.
#[derive(Debug, PartialEq, Eq)]
pub struct Capabilities {
    items: Vec<Capability>,
}

impl View for Capabilities {
    type V = Seq<CapabilityView>;

    closed spec fn view(&self) -> Seq<CapabilityView> {
        views(self.items@)
    }
}

impl Clone for Capabilities {
    fn clone(&self) -> (copy: Capabilities)
        ensures
            copy@ == self@,
    {
        proof {
            use_type_invariant(self);
        }
        let mut items: Vec<Capability> = Vec::new();
        let n: usize = self.items.len();
        let mut i: usize = 0;
        while i < n
            invariant
                n == self.items@.len(),
                i <= n,
                items@.len() == i,
                forall|j: int| 0 <= j < i ==> (#[trigger] items@[j])@ == self.items@[j]@,
            decreases n - i,
        {
            let cap = self.items[i].clone();
            items.push(cap);
            i = i + 1;
        }
        assert(views(items@) =~= views(self.items@));
        Capabilities { items }
    }
}

impl Capabilities {
    /// No two capabilities share a path, and every path starts with a slash
    /// and holds no comma.
    #[verifier::type_invariant]
    pub closed spec fn is_valid(self) -> bool {
        is_set(views(self.items@))
    }

    /// The empty set.
    pub fn new() -> (caps: Capabilities)
        ensures
            caps@ == Seq::<CapabilityView>::empty(),
    {
        let caps = Capabilities { items: Vec::new() };
        assert(caps@ =~= Seq::<CapabilityView>::empty());
        caps
    }

    /// Takes `cap` in: where the set already holds a capability on the same
    /// path, that one gains the flags of `cap`; otherwise `cap` is put last.
    pub fn with(self, cap: Capability) -> (out: Capabilities)
        ensures
            out@ == inserted(self@, cap@),
    {
        proof {
            use_type_invariant(&self);
            use_type_invariant(&cap);
            lemma_inserted_keeps_order(views(self.items@), cap@);
        }
        let mut items = self.items;
        take_in(&mut items, cap);
        Capabilities { items }
    }

    /// Reads a set from its text. The empty text is the empty set. Otherwise
    /// the text is split at commas and each entry at its last colon; an entry
    /// on a path that is already present adds its flags to that capability.
    /// The first entry that has no colon, whose path does not start with a
    /// slash, or that holds a flag other than `r` and `w`, is reported in a
    /// parse error.
    pub fn parse(text: &str) -> (r: Result<Capabilities, Error>)
        ensures
            r matches Ok(caps) ==> (parse_text(text@) matches Ok(read) && read == caps@),
            r matches Err(e) ==> e.kind == ErrorKind::Parse && (parse_text(text@) matches Err(
                entry,
            ) && e.message@ == bad_entry_prefix() + entry),
    {
        let chars = to_chars(text);
        let n: usize = chars.len();
        let mut caps = Capabilities::new();
        if n == 0 {
            return Ok(caps);
        }
        let mut start: usize = 0;
        loop
            invariant
                chars@ == text@,
                n == chars@.len(),
                n > 0,
                start <= n,
                start > 0 ==> chars@[start - 1] == ',',
                read_before(chars@, start as int) == Ok::<Seq<CapabilityView>, Seq<char>>(caps@),
            decreases n - start,
        {
            let mut end: usize = start;
            while end < n && chars[end] != ','
                invariant
                    start <= end <= n,
                    n == chars@.len(),
                    forall|j: int| start <= j < end ==> chars@[j] != ',',
                decreases n - end,
            {
                end = end + 1;
            }
            let ghost front = chars@.subrange(0, end as int);
            proof {
                lemma_last_index_is(front, ',', start - 1);
                if start > 0 {
                    assert(front.subrange(0, start - 1) =~= chars@.subrange(0, start - 1));
                    assert(front.subrange(start as int, front.len() as int) =~= chars@.subrange(
                        start as int,
                        end as int,
                    ));
                } else {
                    assert(front =~= chars@.subrange(start as int, end as int));
                }
                if end == n {
                    assert(front =~= chars@);
                }
            }
            match read_entry(text, &chars, start, end) {
                None => {
                    proof {
                        lemma_failure_stands(chars@, end as int);
                    }
                    let entry = text.substring_char(start, end);
                    let message = concat("invalid capability entry: ", entry);
                    return Err(Error { kind: ErrorKind::Parse, message });
                },
                Some(cap) => {
                    caps = caps.with(cap);
                },
            }
            if end == n {
                return Ok(caps);
            }
            start = end + 1;
        }
    }

    /// The text of this set: its entries in order, joined by commas. Reading
    /// the text gives this set back.
    pub fn to_text(&self) -> (text: String)
        ensures
            text@ == format(self@),
            is_set(self@),
            parse_text(text@) matches Ok(read) && read == self@,
    {
        proof {
            use_type_invariant(self);
            lemma_parse_format(self@);
        }
        format_capabilities(self.items.as_slice())
    }

    /// The number of capabilities.
    pub fn len(&self) -> (n: usize)
        ensures
            n == self@.len(),
    {
        self.items.len()
    }

    /// Whether the set is empty.
    pub fn is_empty(&self) -> (empty: bool)
        ensures
            empty == (self@.len() == 0),
    {
        self.items.len() == 0
    }

    /// The capability at `index`.
    pub fn get(&self, index: usize) -> (cap: Option<&Capability>)
        ensures
            cap is Some <==> index < self@.len(),
            cap matches Some(c) ==> c@ == self@[index as int],
    {
        if index < self.items.len() {
            Some(&self.items[index])
        } else {
            None
        }
    }

    /// The capabilities, in order.
    pub fn as_slice(&self) -> (items: &[Capability])
        ensures
            views(items@) == self@,
    {
        self.items.as_slice()
    }
}

/// Whether no path of `caps` holds a comma.
pub open spec fn comma_free(caps: Seq<CapabilityView>) -> bool {
    forall|i: int| 0 <= i < caps.len() ==> !(#[trigger] caps[i].path).contains(',')
}

/// Reading the text of one capability gives that capability back. Its text
/// holds a comma only where its path does.
pub proof fn lemma_entry_round_trip(c: CapabilityView)
    requires
        is_scope(c.path),
    ensures
        parse_entry(entry_text(c)) == Some(c),
        entry_text(c).len() > 0,
        !c.path.contains(',') ==> last_index_of(entry_text(c), ',') == -1,
{
    let entry = entry_text(c);
    let flags = flags_text(c);
    let at = c.path.len() as int;
    assert(entry[at] == ':');
    assert forall|j: int| at < j < entry.len() implies entry[j] != ':' by {
        assert(entry[j] == flags[j - at - 1]);
    }
    lemma_last_index_is(entry, ':', at);
    assert(entry.subrange(0, at) =~= c.path);
    assert(entry.subrange(at + 1, entry.len() as int) =~= flags);
    assert(all_flags(flags));
    if c.read {
        assert(flags[0] == 'r');
    }
    if c.write {
        assert(flags[flags.len() - 1] == 'w');
    }
    assert(flags.contains('r') == c.read);
    assert(flags.contains('w') == c.write);
    if !c.path.contains(',') {
        assert forall|j: int| 0 <= j < entry.len() implies entry[j] != ',' by {
            if j < at {
                assert(entry[j] == c.path[j]);
                assert(c.path.contains(c.path[j]));
            } else if j > at {
                assert(entry[j] == flags[j - at - 1]);
            }
        }
        lemma_last_index_is(entry, ',', -1);
    }
}

/// Reading the text of a set gives the set back: for every set of
/// capabilities, `parse_text(format(caps)) == Ok(caps)`.
pub proof fn lemma_parse_format(caps: Seq<CapabilityView>)
    requires
        is_set(caps),
    ensures
        parse_text(format(caps)) matches Ok(read) && read == caps,
        caps.len() > 0 ==> format(caps).len() > 0,
    decreases caps.len(),
{
    if caps.len() == 0 {
        assert(caps =~= Seq::<CapabilityView>::empty());
    } else if caps.len() == 1 {
        let c = caps[0];
        assert(is_scope(c.path));
        assert(!c.path.contains(','));
        lemma_entry_round_trip(c);
        assert(position(Seq::<CapabilityView>::empty(), c.path) == -1);
        assert(inserted(Seq::<CapabilityView>::empty(), c) =~= caps);
    } else {
        let front = caps.drop_last();
        let last = caps.last();
        assert forall|i: int| 0 <= i < front.len() implies front[i] == caps[i] by {}
        assert(distinct_paths(front));
        assert(scoped(front)) by {
            assert forall|i: int| 0 <= i < front.len() implies is_scope(
                #[trigger] front[i].path,
            ) by {
                assert(is_scope(caps[i].path));
            }
        }
        assert(comma_free(front)) by {
            assert forall|i: int| 0 <= i < front.len() implies !(#[trigger] front[i].path).contains(
                ',',
            ) by {
                assert(!caps[i].path.contains(','));
            }
        }
        lemma_parse_format(front);
        assert(is_scope(last.path));
        assert(!last.path.contains(','));
        lemma_entry_round_trip(last);
        let head = format(front);
        let entry = entry_text(last);
        let text = format(caps);
        let comma = head.len() as int;
        assert(text == head + seq![','] + entry);
        assert(text[comma] == ',');
        lemma_last_index_of(entry, ',');
        assert forall|j: int| comma < j < text.len() implies text[j] != ',' by {
            assert(text[j] == entry[j - comma - 1]);
        }
        lemma_last_index_is(text, ',', comma);
        assert(text.subrange(0, comma) =~= head);
        assert(text.subrange(comma + 1, text.len() as int) =~= entry);
        lemma_position(front, last.path);
        assert(position(front, last.path) < 0) by {
            if position(front, last.path) >= 0 {
                let at = position(front, last.path);
                assert(caps[at].path == caps[caps.len() - 1].path);
            }
        }
        assert(inserted(front, last) =~= caps);
    }
}

/// What an operation on a path needs.
#[derive(Clone, Copy, Debug, PartialEq, Eq, Structural)]
pub enum Access {
    /// Reading: get, exists, list.
    Read,
    /// Writing: put, delete.
    Write,
}

/// Whether `c` grants `access` on `path`: the path falls under the
/// capability's path and the capability carries the flag.
pub open spec fn grants(c: CapabilityView, path: Seq<char>, access: Access) -> bool {
    &&& c.path.is_prefix_of(path)
    &&& match access {
        Access::Read => c.read,
        Access::Write => c.write,
    }
}

/// Whether some capability of `caps` grants `access` on `path`.
pub open spec fn allows(caps: Seq<CapabilityView>, path: Seq<char>, access: Access) -> bool {
    exists|i: int| 0 <= i < caps.len() && grants(#[trigger] caps[i], path, access)
}

/// Whether `granted` stays within `requested`: whatever flag a granted
/// capability carries, `requested` allows on that capability's path.
pub open spec fn within(granted: Seq<CapabilityView>, requested: Seq<CapabilityView>) -> bool {
    forall|i: int|
        0 <= i < granted.len() ==> {
            &&& (#[trigger] granted[i]).read ==> allows(requested, granted[i].path, Access::Read)
            &&& granted[i].write ==> allows(requested, granted[i].path, Access::Write)
        }
}

impl Capability {
    /// Whether this capability grants `access` on `path`.
    pub fn grants(&self, path: &str, access: Access) -> (yes: bool)
        ensures
            yes == grants(self@, path@, access),
    {
        let flag = match access {
            Access::Read => self.read,
            Access::Write => self.write,
        };
        flag && crate::text::has_prefix(path, self.path.as_str())
    }
}

impl Capabilities {
    /// Whether some capability of this set grants `access` on `path`.
    pub fn allows(&self, path: &str, access: Access) -> (yes: bool)
        ensures
            yes == allows(self@, path@, access),
    {
        let n: usize = self.items.len();
        let mut i: usize = 0;
        while i < n
            invariant
                n == self.items@.len(),
                i <= n,
                forall|j: int| 0 <= j < i ==> !grants(#[trigger] self@[j], path@, access),
            decreases n - i,
        {
            if self.items[i].grants(path, access) {
                assert(grants(self@[i as int], path@, access));
                return true;
            }
            i = i + 1;
        }
        false
    }

    /// Whether this set stays within `requested`.
    pub fn is_within(&self, requested: &Capabilities) -> (yes: bool)
        ensures
            yes == within(self@, requested@),
    {
        let n: usize = self.items.len();
        let mut i: usize = 0;
        while i < n
            invariant
                n == self.items@.len(),
                i <= n,
                within(self@.take(i as int), requested@),
            decreases n - i,
        {
            let cap = &self.items[i];
            let path = cap.path();
            let ghost c = self@[i as int];
            let read_ok = !cap.can_read() || requested.allows(path, Access::Read);
            let write_ok = !cap.can_write() || requested.allows(path, Access::Write);
            if !(read_ok && write_ok) {
                return false;
            }
            proof {
                let next = self@.take(i + 1);
                let seen = self@.take(i as int);
                assert forall|j: int| 0 <= j < next.len() implies {
                    &&& (#[trigger] next[j]).read ==> allows(requested@, next[j].path, Access::Read)
                    &&& next[j].write ==> allows(requested@, next[j].path, Access::Write)
                } by {
                    if j < i {
                        assert(next[j] == seen[j]);
                    }
                }
            }
            i = i + 1;
        }
        proof {
            assert(self@.take(n as int) =~= self@);
        }
        true
    }
}

} // verus!
