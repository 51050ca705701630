//! Small verified helpers over text, seen as a sequence of characters.

use vstd::prelude::*;
use vstd::std_specs::iter::IteratorSpec;
use vstd::string::StrSliceExecFns;

verus! {

/// The characters of `text`, in order.
pub fn to_chars(text: &str) -> (chars: Vec<char>)
    ensures
        chars@ == text@,
{
    let mut chars: Vec<char> = Vec::new();
    let iter = text.chars();
    for c in it: iter
        invariant
            it.seq() == text@,
            chars@ == it.seq().take(it.index()),
    {
        chars.push(c);
    }
    chars
}

/// `text` without its first `n` characters.
pub fn skip_chars(text: &str, n: usize) -> (rest: &str)
    requires
        n <= text@.len(),
    ensures
        rest@ == text@.skip(n as int),
{
    let len: usize = text.unicode_len();
    text.substring_char(n, len)
}

/// Whether `a` and `b` hold the same characters.
pub fn same_chars(a: &Vec<char>, b: &Vec<char>) -> (same: bool)
    ensures
        same == (a@ == b@),
{
    if a.len() != b.len() {
        return false;
    }
    let n: usize = a.len();
    let mut i: usize = 0;
    while i < n
        invariant
            n == a@.len(),
            n == b@.len(),
            i <= n,
            forall|j: int| 0 <= j < i ==> a@[j] == b@[j],
        decreases n - i,
    {
        if a[i] != b[i] {
            return false;
        }
        i = i + 1;
    }
    assert(a@ =~= b@);
    true
}

/// Whether `a` and `b` are the same text.
pub fn same_text(a: &str, b: &str) -> (same: bool)
    ensures
        same == (a@ == b@),
{
    let x = to_chars(a);
    let y = to_chars(b);
    same_chars(&x, &y)
}

/// Whether `chars` begins with `prefix`.
pub fn starts_with(chars: &Vec<char>, prefix: &Vec<char>) -> (yes: bool)
    ensures
        yes == prefix@.is_prefix_of(chars@),
{
    if prefix.len() > chars.len() {
        return false;
    }
    let n: usize = prefix.len();
    let mut i: usize = 0;
    while i < n
        invariant
            n == prefix@.len(),
            n <= chars@.len(),
            i <= n,
            forall|j: int| 0 <= j < i ==> chars@[j] == prefix@[j],
        decreases n - i,
    {
        if chars[i] != prefix[i] {
            assert(chars@.subrange(0, n as int)[i as int] != prefix@[i as int]);
            return false;
        }
        i = i + 1;
    }
    assert(prefix@ =~= chars@.subrange(0, n as int));
    true
}

/// What is left of `text` behind `prefix`, where `text` begins with it.
pub open spec fn stripped(text: Seq<char>, prefix: Seq<char>) -> Option<Seq<char>> {
    if prefix.is_prefix_of(text) {
        Some(text.skip(prefix.len() as int))
    } else {
        None
    }
}

/// What is left of `text` behind `prefix`, where `text` begins with it.
pub fn strip_prefix<'a>(text: &'a str, prefix: &str) -> (rest: Option<&'a str>)
    ensures
        rest is Some <==> stripped(text@, prefix@) is Some,
        rest matches Some(r) ==> stripped(text@, prefix@) == Some(r@),
{
    let chars = to_chars(text);
    let head = to_chars(prefix);
    if starts_with(&chars, &head) {
        Some(text.substring_char(head.len(), chars.len()))
    } else {
        None
    }
}

/// Whether `text` begins with `prefix`.
pub fn has_prefix(text: &str, prefix: &str) -> (yes: bool)
    ensures
        yes == prefix@.is_prefix_of(text@),
{
    let chars = to_chars(text);
    let head = to_chars(prefix);
    starts_with(&chars, &head)
}

/// Whether the last character of `text` is `c`.
pub fn ends_with_char(text: &str, c: char) -> (yes: bool)
    ensures
        yes == (text@.len() > 0 && text@.last() == c),
{
    let chars = to_chars(text);
    let n: usize = chars.len();
    n > 0 && chars[n - 1] == c
}

/// The text of `a` followed by the text of `b`.
pub fn concat(a: &str, b: &str) -> (out: String)
    ensures
        out@ == a@ + b@,
{
    let mut out = a.to_owned();
    vstd::string::StringExecFns::append(&mut out, b);
    out
}

} // verus!
