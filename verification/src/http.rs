//! HTTP methods and headers as the boundary hands them over.

use vstd::prelude::*;
use crate::error::{Error, ErrorKind};
use crate::text::same_text;

verus! {

/// The methods that a request can carry.
#[derive(Clone, Copy, Debug, PartialEq, Eq, Structural)]
pub enum Method {
    /// GET
    Get,
    /// POST
    Post,
    /// PUT
    Put,
    /// DELETE
    Delete,
    /// PATCH
    Patch,
    /// HEAD
    Head,
    /// OPTIONS
    Options,
}

/// The upper-case form of a text, as `str::to_uppercase` gives it.
pub uninterp spec fn uppercased(text: Seq<char>) -> Seq<char>;

/// Calls `str::to_uppercase`: each character is replaced by its upper-case
/// form under the Unicode rules. `uppercased` names the result.
#[verifier::external_body]
fn to_uppercase(text: &str) -> (upper: String)
    ensures
        upper@ == uppercased(text@),
{
    text.to_uppercase()
}

/// The method with this exact upper-case name.
pub open spec fn method_named(name: Seq<char>) -> Option<Method> {
    if name == "GET"@ {
        Some(Method::Get)
    } else if name == "POST"@ {
        Some(Method::Post)
    } else if name == "PUT"@ {
        Some(Method::Put)
    } else if name == "DELETE"@ {
        Some(Method::Delete)
    } else if name == "PATCH"@ {
        Some(Method::Patch)
    } else if name == "HEAD"@ {
        Some(Method::Head)
    } else if name == "OPTIONS"@ {
        Some(Method::Options)
    } else {
        None
    }
}

/// The method with this exact upper-case name, if there is one.
pub fn method_from_name(name: &str) -> (method: Option<Method>)
    ensures
        method == method_named(name@),
{
    if same_text(name, "GET") {
        Some(Method::Get)
    } else if same_text(name, "POST") {
        Some(Method::Post)
    } else if same_text(name, "PUT") {
        Some(Method::Put)
    } else if same_text(name, "DELETE") {
        Some(Method::Delete)
    } else if same_text(name, "PATCH") {
        Some(Method::Patch)
    } else if same_text(name, "HEAD") {
        Some(Method::Head)
    } else if same_text(name, "OPTIONS") {
        Some(Method::Options)
    } else {
        None
    }
}

/// Reads a method from its name in any case.
pub fn parse_method(text: &str) -> (method: Option<Method>)
    ensures
        method == method_named(uppercased(text@)),
{
    let upper = to_uppercase(text);
    method_from_name(upper.as_str())
}

/// Reads a method from its name in any case; a name that is no method's
/// stands for GET.
pub fn method_or_get(text: &str) -> (method: Method)
    ensures
        method == match method_named(uppercased(text@)) {
            Some(m) => m,
            None => Method::Get,
        },
{
    match parse_method(text) {
        Some(m) => m,
        None => Method::Get,
    }
}

/// One member of a JSON object as the header reader sees it: its name, and
/// its value where that is a string.
pub type Member = (String, Option<String>);

/// What a member is.
pub open spec fn member_view(m: Member) -> (Seq<char>, Option<Seq<char>>) {
    (
        m.0@,
        match m.1 {
            Some(v) => Some(v@),
            None => None,
        },
    )
}

/// What a list of members is, where there is one.
pub open spec fn members_view(r: Option<Vec<Member>>) -> Option<
    Seq<(Seq<char>, Option<Seq<char>>)>,
> {
    match r {
        Some(members) => Some(members@.map_values(|m: Member| member_view(m))),
        None => None,
    }
}

/// What `serde_json::from_str` reads from a text as a JSON object: its
/// members in the order in which the object hands them out, each with its
/// value where that is a string; nothing where the text is no JSON object.
pub uninterp spec fn json_object_read(text: Seq<char>) -> Option<
    Seq<(Seq<char>, Option<Seq<char>>)>,
>;

/// Calls `serde_json::from_str` for a `Map<String, Value>` and hands out the
/// members of the object it read, each value by `Value::as_str`.
/// `json_object_read` names the result.
#[verifier::external_body]
fn json_object_members(text: &str) -> (r: Option<Vec<Member>>)
    ensures
        members_view(r) == json_object_read(text@),
{
    let map = serde_json::from_str::<serde_json::Map<String, serde_json::Value>>(text).ok()?;
    Some(map.into_iter().map(|(k, v)| (k, v.as_str().map(str::to_owned))).collect())
}

/// What `serde_json` makes of a text: the text of the JSON value that it
/// reads from it, written out again, or the words of its refusal.
pub uninterp spec fn json_read(text: Seq<char>) -> Result<Seq<char>, Seq<char>>;

/// The views of what the JSON wrapper hands out.
pub open spec fn json_view(r: Result<String, String>) -> Result<Seq<char>, Seq<char>> {
    match r {
        Ok(text) => Ok(text@),
        Err(words) => Err(words@),
    }
}

/// Calls `serde_json::from_str` for a `Value` and, on the value it read,
/// `serde_json::to_string`; hands out the text, or the text of the error.
/// `json_read` names the result.
#[verifier::external_body]
pub(crate) fn json_normalize(text: &str) -> (r: Result<String, String>)
    ensures
        json_view(r) == json_read(text@),
{
    serde_json::from_str::<serde_json::Value>(text).and_then(|v| serde_json::to_string(&v)).map_err(
        |e| e.to_string(),
    )
}

/// Reads a text as JSON and writes the value out again. Text that is no
/// JSON is a parse error that holds the reader's words.
pub fn json_text(text: &str) -> (r: Result<String, Error>)
    ensures
        match json_read(text@) {
            Ok(body) => r matches Ok(written) && written@ == body,
            Err(words) => r matches Err(e) && e.kind == ErrorKind::Parse && e.message@ == words,
        },
{
    match json_normalize(text) {
        Ok(body) => Ok(body),
        Err(words) => Err(Error { kind: ErrorKind::Parse, message: words }),
    }
}

/// A header: a name and a value.
pub type Header = (String, String);

/// What a header is.
pub open spec fn header_view(h: Header) -> (Seq<char>, Seq<char>) {
    (h.0@, h.1@)
}

/// What a list of headers is.
pub open spec fn headers_view(headers: Seq<Header>) -> Seq<(Seq<char>, Seq<char>)> {
    headers.map_values(|h: Header| header_view(h))
}

/// The headers among the members of an object: those whose value is a
/// string, in order.
pub open spec fn string_members(members: Seq<(Seq<char>, Option<Seq<char>>)>) -> Seq<
    (Seq<char>, Seq<char>),
>
    decreases members.len(),
{
    if members.len() == 0 {
        Seq::<(Seq<char>, Seq<char>)>::empty()
    } else {
        match members.last().1 {
            Some(value) => string_members(members.drop_last()).push((members.last().0, value)),
            None => string_members(members.drop_last()),
        }
    }
}

/// The headers that an optional JSON text stands for: none where the text is
/// missing or is no JSON object, else the members whose value is a string.
pub open spec fn headers_of(text: Option<Seq<char>>) -> Seq<(Seq<char>, Seq<char>)> {
    match text {
        None => Seq::<(Seq<char>, Seq<char>)>::empty(),
        Some(t) => match json_object_read(t) {
            None => Seq::<(Seq<char>, Seq<char>)>::empty(),
            Some(members) => string_members(members),
        },
    }
}

/// Keeps of the members of an object those whose value is a string.
pub fn headers_from_members(members: Vec<Member>) -> (headers: Vec<Header>)
    ensures
        headers_view(headers@) == string_members(members@.map_values(|m: Member| member_view(m))),
{
    let ghost all = members@.map_values(|m: Member| member_view(m));
    let mut headers: Vec<Header> = Vec::new();
    let n: usize = members.len();
    let mut i: usize = 0;
    proof {
        assert(all.take(0) =~= Seq::<(Seq<char>, Option<Seq<char>>)>::empty());
    }
    while i < n
        invariant
            n == members@.len(),
            i <= n,
            all == members@.map_values(|m: Member| member_view(m)),
            headers_view(headers@) =~= string_members(all.take(i as int)),
        decreases n - i,
    {
        let ghost before = headers_view(headers@);
        let ghost next = all.take(i + 1);
        proof {
            assert(next.drop_last() =~= all.take(i as int));
            assert(next.last() == member_view(members@[i as int]));
        }
        let member = &members[i];
        match &member.1 {
            Some(value) => {
                headers.push((member.0.clone(), value.clone()));
                assert(headers_view(headers@) =~= before.push((member.0@, value@)));
            },
            None => {},
        }
        i = i + 1;
    }
    proof {
        assert(all.take(n as int) =~= all);
    }
    headers
}

/// Reads the headers that a caller handed over as a JSON object. Missing
/// text and text that is no JSON object stand for no headers; a member whose
/// value is no string is left out.
pub fn headers_from_json(text: Option<&str>) -> (headers: Vec<Header>)
    ensures
        headers_view(headers@) == headers_of(
            match text {
                Some(t) => Some(t@),
                None => None,
            },
        ),
{
    match text {
        None => {
            let headers: Vec<Header> = Vec::new();
            assert(headers_view(headers@) =~= Seq::<(Seq<char>, Seq<char>)>::empty());
            headers
        },
        Some(t) => match json_object_members(t) {
            None => {
                let headers: Vec<Header> = Vec::new();
                assert(headers_view(headers@) =~= Seq::<(Seq<char>, Seq<char>)>::empty());
                headers
            },
            Some(members) => headers_from_members(members),
        },
    }
}

} // verus!
