//! Requests and responses as plain values: what policies and the proxy read
//! of a request, and what they answer with.

use crate::text::{equal, lowercase, starts_with, to_lowercase};
use vstd::prelude::*;
use vstd::string::StringSliceAdditionalSpecFns;
use vstd::utf8::{decode_utf8, valid_utf8};

verus! {

/// One header line: a name and the bytes of its value.
pub struct Header {
    pub name: String,
    pub value: Vec<u8>,
}

pub struct HeaderView {
    pub name: Seq<char>,
    pub value: Seq<u8>,
}

impl View for Header {
    type V = HeaderView;

    open spec fn view(&self) -> HeaderView {
        HeaderView { name: self.name@, value: self.value@ }
    }
}

impl DeepView for Header {
    type V = HeaderView;

    open spec fn deep_view(&self) -> HeaderView {
        self@
    }
}

impl Clone for Header {
    fn clone(&self) -> (r: Self)
        ensures
            r@ == self@,
    {
        Header { name: self.name.clone(), value: self.value.clone() }
    }
}

/// The head of a request: the body is not part of it, since no policy reads it.
pub struct Request {
    pub method: String,
    pub path: String,
    /// The raw query string, without the question mark; empty where there is none.
    pub query: String,
    pub headers: Vec<Header>,
}

pub struct RequestView {
    pub method: Seq<char>,
    pub path: Seq<char>,
    pub query: Seq<char>,
    pub headers: Seq<HeaderView>,
}

impl View for Request {
    type V = RequestView;

    open spec fn view(&self) -> RequestView {
        RequestView {
            method: self.method@,
            path: self.path@,
            query: self.query@,
            headers: self.headers.deep_view(),
        }
    }
}

/// A response: its status, its headers and the bytes of its body.
pub struct Response {
    pub status: u16,
    pub headers: Vec<Header>,
    pub body: Vec<u8>,
}

pub struct ResponseView {
    pub status: u16,
    pub headers: Seq<HeaderView>,
    pub body: Seq<u8>,
}

impl View for Response {
    type V = ResponseView;

    open spec fn view(&self) -> ResponseView {
        ResponseView {
            status: self.status,
            headers: self.headers.deep_view(),
            body: self.body@,
        }
    }
}

/// Header names are compared without regard to ASCII case.
pub open spec fn is_named(header: HeaderView, name: Seq<char>) -> bool {
    lowercase(header.name) == lowercase(name)
}

/// Whether the header's name, in small letters, begins with `prefix`.
pub open spec fn has_prefix(header: HeaderView, prefix: Seq<char>) -> bool {
    prefix.is_prefix_of(lowercase(header.name))
}

/// The value of the first header called `name`.
pub open spec fn first_value(headers: Seq<HeaderView>, name: Seq<char>) -> Option<Seq<u8>>
    decreases headers.len(),
{
    if headers.len() == 0 {
        None
    } else if is_named(headers[0], name) {
        Some(headers[0].value)
    } else {
        first_value(headers.drop_first(), name)
    }
}

/// The headers that are not called `name`, in their order.
pub open spec fn without_name(headers: Seq<HeaderView>, name: Seq<char>) -> Seq<HeaderView>
    decreases headers.len(),
{
    if headers.len() == 0 {
        headers
    } else if is_named(headers.last(), name) {
        without_name(headers.drop_last(), name)
    } else {
        without_name(headers.drop_last(), name).push(headers.last())
    }
}

/// The headers whose name does not begin with `prefix`, in their order.
pub open spec fn without_prefix(headers: Seq<HeaderView>, prefix: Seq<char>) -> Seq<HeaderView>
    decreases headers.len(),
{
    if headers.len() == 0 {
        headers
    } else if has_prefix(headers.last(), prefix) {
        without_prefix(headers.drop_last(), prefix)
    } else {
        without_prefix(headers.drop_last(), prefix).push(headers.last())
    }
}

/// The headers with `name` set to `value`: every earlier header of that name
/// is gone, and the new one stands last.
pub open spec fn with_header(
    headers: Seq<HeaderView>,
    name: Seq<char>,
    value: Seq<u8>,
) -> Seq<HeaderView> {
    without_name(headers, name).push(HeaderView { name, value })
}

/// What is left by `without_prefix` was there before, and none of it has the prefix.
pub proof fn lemma_without_prefix(headers: Seq<HeaderView>, prefix: Seq<char>)
    ensures
        forall|i: int|
            0 <= i < without_prefix(headers, prefix).len() ==> {
                &&& !has_prefix(#[trigger] without_prefix(headers, prefix)[i], prefix)
                &&& headers.contains(without_prefix(headers, prefix)[i])
            },
        forall|i: int|
            0 <= i < headers.len() && !has_prefix(#[trigger] headers[i], prefix)
                ==> without_prefix(headers, prefix).contains(headers[i]),
    decreases headers.len(),
{
    if headers.len() > 0 {
        let front = headers.drop_last();
        lemma_without_prefix(front, prefix);
        let kept = without_prefix(front, prefix);
        let all = without_prefix(headers, prefix);
        assert forall|i: int| 0 <= i < all.len() implies {
            &&& !has_prefix(#[trigger] all[i], prefix)
            &&& headers.contains(all[i])
        } by {
            if i < kept.len() {
                assert(all[i] == kept[i]);
                let j = choose|j: int| 0 <= j < front.len() && front[j] == kept[i];
                assert(headers[j] == kept[i]);
            } else {
                assert(all[i] == headers.last());
                assert(headers[headers.len() - 1] == all[i]);
            }
        }
        assert forall|i: int|
            0 <= i < headers.len() && !has_prefix(#[trigger] headers[i], prefix) implies all.contains(
            headers[i],
        ) by {
            if i < front.len() {
                assert(front[i] == headers[i]);
                let j = choose|j: int| 0 <= j < kept.len() && kept[j] == front[i];
                assert(all[j] == headers[i]);
            } else {
                assert(all[all.len() - 1] == headers[i]);
            }
        }
    }
}

/// Nothing that `without_name` leaves is called `name`, and all of it was there before.
pub proof fn lemma_without_name(headers: Seq<HeaderView>, name: Seq<char>)
    ensures
        forall|i: int|
            0 <= i < without_name(headers, name).len() ==> {
                &&& !is_named(#[trigger] without_name(headers, name)[i], name)
                &&& headers.contains(without_name(headers, name)[i])
            },
    decreases headers.len(),
{
    if headers.len() > 0 {
        let front = headers.drop_last();
        lemma_without_name(front, name);
        let kept = without_name(front, name);
        let all = without_name(headers, name);
        assert forall|i: int| 0 <= i < all.len() implies {
            &&& !is_named(#[trigger] all[i], name)
            &&& headers.contains(all[i])
        } by {
            if i < kept.len() {
                assert(all[i] == kept[i]);
                let j = choose|j: int| 0 <= j < front.len() && front[j] == kept[i];
                assert(headers[j] == kept[i]);
            } else {
                assert(all[i] == headers.last());
                assert(headers[headers.len() - 1] == all[i]);
            }
        }
    }
}

/// The bytes of `s` in UTF-8.
pub fn bytes_of(s: &str) -> (r: Vec<u8>)
    ensures
        r@ == s.spec_bytes(),
{
    s.as_bytes_vec()
}

/// `std::str::from_utf8`: the text that the bytes encode, where they are
/// well-formed UTF-8, and nothing otherwise.
#[verifier::external_body]
pub(crate) fn decode_text(value: &Vec<u8>) -> (r: Option<String>)
    ensures
        r is Some <==> valid_utf8(value@),
        r matches Some(s) ==> s@ == decode_utf8(value@),
{
    match std::str::from_utf8(value.as_slice()) {
        Ok(s) => Some(s.to_string()),
        Err(_) => None,
    }
}

/// Whether a character is a tab or a printable character of ASCII.
pub open spec fn is_visible_char(c: char) -> bool {
    c == '\t' || (c >= ' ' && c < '\u{7f}')
}

/// Whether a text holds tabs and printable characters of ASCII only.
pub open spec fn is_visible_text(text: Seq<char>) -> bool {
    forall|i: int| 0 <= i < text.len() ==> is_visible_char(#[trigger] text[i])
}

/// The text of a header's value, where the value is one: tabs and printable
/// characters of ASCII.
pub open spec fn header_text(value: Seq<u8>) -> Option<Seq<char>> {
    if valid_utf8(value) && is_visible_text(decode_utf8(value)) {
        Some(decode_utf8(value))
    } else {
        None
    }
}

/// Reads the value of a header as a text.
pub fn read_header_text(value: &Vec<u8>) -> (r: Option<String>)
    ensures
        r is Some <==> header_text(value@) is Some,
        r matches Some(text) ==> header_text(value@) == Some(text@),
{
    let text = match decode_text(value) {
        Some(text) => text,
        None => {
            return None;
        },
    };
    let v = crate::text::chars_of(text.as_str());
    let mut i: usize = 0;
    while i < v.len()
        invariant
            i <= v.len(),
            v@ == text@,
            text@ == decode_utf8(value@),
            forall|j: int| 0 <= j < i ==> is_visible_char(#[trigger] v@[j]),
        decreases v.len() - i,
    {
        let c = v[i];
        if !(c == '\t' || (c >= ' ' && c < '\u{7f}')) {
            assert(!is_visible_char(text@[i as int]));
            return None;
        }
        i += 1;
    }
    Some(text)
}

/// Whether `header` is called `name`, whatever the case of either.
pub fn header_is_named(header: &Header, name: &str) -> (r: bool)
    ensures
        r == is_named(header@, name@),
{
    let a = to_lowercase(header.name.as_str());
    let b = to_lowercase(name);
    equal(a.as_str(), b.as_str())
}

/// Whether the name of `header`, in small letters, begins with `prefix`.
pub fn header_has_prefix(header: &Header, prefix: &str) -> (r: bool)
    ensures
        r == has_prefix(header@, prefix@),
{
    let a = to_lowercase(header.name.as_str());
    starts_with(a.as_str(), prefix)
}

/// The value of the first header called `name`.
pub fn header_value(headers: &Vec<Header>, name: &str) -> (r: Option<Vec<u8>>)
    ensures
        r is Some <==> first_value(headers.deep_view(), name@) is Some,
        r matches Some(value) ==> first_value(headers.deep_view(), name@) == Some(value@),
{
    let mut i: usize = 0;
    assert(headers.deep_view().skip(0) == headers.deep_view());
    while i < headers.len()
        invariant
            i <= headers.len(),
            first_value(headers.deep_view(), name@) == first_value(
                headers.deep_view().skip(i as int),
                name@,
            ),
        decreases headers.len() - i,
    {
        assert(headers.deep_view().skip(i as int)[0] == headers[i as int]@);
        if header_is_named(&headers[i], name) {
            return Some(headers[i].value.clone());
        }
        assert(headers.deep_view().skip(i as int).drop_first() == headers.deep_view().skip(i + 1));
        i += 1;
    }
    None
}

/// The headers whose name, in small letters, does not begin with `prefix`.
pub fn remove_prefixed(headers: &Vec<Header>, prefix: &str) -> (r: Vec<Header>)
    ensures
        r.deep_view() == without_prefix(headers.deep_view(), prefix@),
{
    let mut r: Vec<Header> = Vec::new();
    let mut i: usize = 0;
    assert(r.deep_view() == without_prefix(headers.deep_view().take(0), prefix@));
    while i < headers.len()
        invariant
            i <= headers.len(),
            r.deep_view() == without_prefix(headers.deep_view().take(i as int), prefix@),
        decreases headers.len() - i,
    {
        let ghost before = r.deep_view();
        assert(headers.deep_view().take(i + 1).drop_last() == headers.deep_view().take(i as int));
        assert(headers.deep_view().take(i + 1).last() == headers[i as int]@);
        if !header_has_prefix(&headers[i], prefix) {
            r.push(headers[i].clone());
            assert(r.deep_view() == before.push(headers[i as int]@));
        }
        i += 1;
    }
    assert(headers.deep_view().take(headers.len() as int) == headers.deep_view());
    r
}

/// The headers that are not called `name`.
pub fn remove_named(headers: &Vec<Header>, name: &str) -> (r: Vec<Header>)
    ensures
        r.deep_view() == without_name(headers.deep_view(), name@),
{
    let mut r: Vec<Header> = Vec::new();
    let mut i: usize = 0;
    assert(r.deep_view() == without_name(headers.deep_view().take(0), name@));
    while i < headers.len()
        invariant
            i <= headers.len(),
            r.deep_view() == without_name(headers.deep_view().take(i as int), name@),
        decreases headers.len() - i,
    {
        let ghost before = r.deep_view();
        assert(headers.deep_view().take(i + 1).drop_last() == headers.deep_view().take(i as int));
        assert(headers.deep_view().take(i + 1).last() == headers[i as int]@);
        if !header_is_named(&headers[i], name) {
            r.push(headers[i].clone());
            assert(r.deep_view() == before.push(headers[i as int]@));
        }
        i += 1;
    }
    assert(headers.deep_view().take(headers.len() as int) == headers.deep_view());
    r
}

/// The headers with `name` set to `value`.
pub fn set_header(headers: &Vec<Header>, name: &str, value: Vec<u8>) -> (r: Vec<Header>)
    ensures
        r.deep_view() == with_header(headers.deep_view(), name@, value@),
{
    let mut r = remove_named(headers, name);
    let ghost before = r.deep_view();
    let header = Header { name: name.to_owned(), value };
    r.push(header);
    assert(r.deep_view() == before.push(header@));
    r
}

impl Response {
    /// A response with a status and a body of text, and no header.
    pub fn plain(status: u16, body: &str) -> (r: Response)
        ensures
            r@ == (ResponseView { status, headers: Seq::empty(), body: body.spec_bytes() }),
    {
        let r = Response { status, headers: Vec::new(), body: bytes_of(body) };
        assert(r.headers.deep_view() == Seq::<HeaderView>::empty());
        r
    }
}

/// Whether a character may stand in the value of a header: a tab, or any
/// character that is no control character.
pub open spec fn is_value_char(c: char) -> bool {
    c == '\t' || (c >= ' ' && c != '\u{7f}')
}

/// Whether a text may stand as the value of a header.
pub open spec fn is_value_text(text: Seq<char>) -> bool {
    forall|i: int| 0 <= i < text.len() ==> is_value_char(#[trigger] text[i])
}

/// Whether a text may stand as the value of a header.
pub fn is_header_text(text: &str) -> (r: bool)
    ensures
        r == is_value_text(text@),
{
    let v = crate::text::chars_of(text);
    let mut i: usize = 0;
    while i < v.len()
        invariant
            i <= v.len(),
            v@ == text@,
            forall|j: int| 0 <= j < i ==> is_value_char(#[trigger] v@[j]),
        decreases v.len() - i,
    {
        let c = v[i];
        if !(c == '\t' || (c >= ' ' && c != '\u{7f}')) {
            return false;
        }
        i += 1;
    }
    true
}

/// A copy of the headers.
pub fn copy_headers(headers: &Vec<Header>) -> (r: Vec<Header>)
    ensures
        r.deep_view() == headers.deep_view(),
{
    let mut r: Vec<Header> = Vec::new();
    let mut i: usize = 0;
    while i < headers.len()
        invariant
            i <= headers.len(),
            r.len() == i,
            forall|j: int| 0 <= j < i ==> #[trigger] r[j]@ == headers[j]@,
        decreases headers.len() - i,
    {
        r.push(headers[i].clone());
        i += 1;
    }
    assert(r.deep_view() =~= headers.deep_view());
    r
}

} // verus!
