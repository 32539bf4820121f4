//! Requests of the remote protocol: the request line, the headers, the
//! caller's permissions and a body of exactly the declared length.
use itertools::Itertools;
use vstd::prelude::*;
use vstd::utf8::{decode_utf8, valid_utf8};

use crate::auth::{get_permissions, holds, permissions_for, Key, Permission};
use crate::response::{response_text, Response};
use crate::text::{chars_of, parse_usize, parsed_usize, pieces, split_first, split_once, string_of, trim, trimmed};

verus! {

/// The SHA-256 digest of the UTF-8 bytes of `s`, written in hex.
pub uninterp spec fn sha256_hex(s: Seq<char>) -> Seq<char>;

/// Relies on `sha256::digest`: the SHA-256 digest of the text's bytes, in hex.
#[verifier::external_body]
fn hash_key(s: &str) -> (r: String)
    ensures
        r@ == sha256_hex(s@),
{
    sha256::digest(s)
}

/// Relies on `str::split` at spaces and `Itertools::collect_tuple`: the
/// three pieces of the line, when it has exactly three.
#[verifier::external_body]
fn three_pieces(line: &str) -> (r: Option<(String, String, String)>)
    ensures
        r is Some <==> pieces(line@, ' ').len() == 3,
        r matches Some((a, b, c)) ==> a@ == pieces(line@, ' ')[0] && b@ == pieces(line@, ' ')[1]
            && c@ == pieces(line@, ' ')[2],
{
    let t: Option<(&str, &str, &str)> = line.split(' ').collect_tuple();
    match t {
        Some((a, b, c)) => Some((a.to_string(), b.to_string(), c.to_string())),
        None => None,
    }
}

/// Relies on `String::from_utf8`: the text that the bytes encode, when they
/// are valid UTF-8.
#[verifier::external_body]
fn utf8_text(bytes: Vec<u8>) -> (r: Option<String>)
    ensures
        r is Some <==> valid_utf8(bytes@),
        r matches Some(s) ==> s@ == decode_utf8(bytes@),
{
    String::from_utf8(bytes).ok()
}

/// The method with its path, and the protocol, of a request line made of
/// three pieces separated by single spaces.
pub open spec fn request_line_parts(line: Seq<char>) -> Option<(Seq<char>, Seq<char>)> {
    let p = pieces(line, ' ');
    if p.len() == 3 {
        Some((p[0] + seq![' '] + p[1], p[2]))
    } else {
        None
    }
}

/// The name and value of a header line, both trimmed; none without a colon.
pub open spec fn header_of(line: Seq<char>) -> Option<(Seq<char>, Seq<char>)> {
    match split_first(line, ':') {
        Some((k, v)) => Some((trimmed(k), trimmed(v))),
        None => None,
    }
}

/// The headers of the given lines, in order; lines without a colon are passed over.
pub open spec fn parsed_headers(lines: Seq<Seq<char>>) -> Seq<(Seq<char>, Seq<char>)>
    decreases lines.len(),
{
    if lines.len() == 0 {
        Seq::empty()
    } else {
        let p = parsed_headers(lines.drop_last());
        match header_of(lines.last()) {
            Some(h) => p.push(h),
            None => p,
        }
    }
}

/// The value of the last header named `k`.
pub open spec fn header_value(hs: Seq<(Seq<char>, Seq<char>)>, k: Seq<char>) -> Option<Seq<char>>
    decreases hs.len(),
{
    if hs.len() == 0 {
        None
    } else if hs.last().0 == k {
        Some(hs.last().1)
    } else {
        header_value(hs.drop_last(), k)
    }
}

/// The views of a header list.
pub open spec fn header_views(hs: Seq<(String, String)>) -> Seq<(Seq<char>, Seq<char>)> {
    hs.map_values(|h: (String, String)| (h.0@, h.1@))
}

/// The views of a list of strings.
pub open spec fn string_views(v: Seq<String>) -> Seq<Seq<char>> {
    v.map_values(|s: String| s@)
}

/// The hash under which a request's `Key` header is looked up; the empty
/// secret's without one.
pub open spec fn key_hash(hs: Seq<(Seq<char>, Seq<char>)>) -> Seq<char> {
    match header_value(hs, "Key"@) {
        Some(v) => sha256_hex(v),
        None => sha256_hex(Seq::empty()),
    }
}

/// The declared body length: none without the header, an error when its
/// value is no number.
pub open spec fn content_length_of(hs: Seq<(Seq<char>, Seq<char>)>) -> Result<Option<usize>, ()> {
    match header_value(hs, "Content-Length"@) {
        None => Ok(None),
        Some(v) => match parsed_usize(v) {
            Some(n) => Ok(Some(n)),
            None => Err(()),
        },
    }
}

/// The text of the first `n` bytes available, when there are that many and
/// they are valid UTF-8.
pub open spec fn body_text(available: Seq<u8>, n: nat) -> Option<Seq<char>> {
    if available.len() >= n && valid_utf8(available.take(n as int)) {
        Some(decode_utf8(available.take(n as int)))
    } else {
        None
    }
}

/// A request up to its body: what the request line and headers say.
#[derive(Debug)]
pub struct RequestHead {
    pub method: String,
    pub protocol: String,
    pub headers: Vec<(String, String)>,
    pub permissions: Vec<Permission>,
    pub content_length: Option<usize>,
}

/// A whole request.
#[derive(Debug)]
pub struct Request {
    pub method: String,
    pub protocol: String,
    pub headers: Vec<(String, String)>,
    pub permissions: Vec<Permission>,
    pub body: Option<String>,
}

/// Splits a request line into the method with its path, and the protocol.
pub fn method_and_procol_from_line(line: String) -> (r: Result<(String, String), String>)
    ensures
        r is Ok <==> request_line_parts(line@) is Some,
        r matches Ok((m, p)) ==> request_line_parts(line@) == Some((m@, p@)),
        r matches Err(e) ==> e@ == "Failed to process method"@,
{
    match three_pieces(line.as_str()) {
        Some((a, b, c)) => {
            let mut m = a;
            m.append(" ");
            m.append(b.as_str());
            proof {
                reveal_strlit(" ");
            }
            assert(m@ =~= pieces(line@, ' ')[0] + seq![' '] + pieces(line@, ' ')[1]);
            Ok((m, c))
        },
        None => Err("Failed to process method".to_owned()),
    }
}

/// The name and value of one header line, trimmed.
fn parse_header_line(line: &String) -> (r: Option<(String, String)>)
    ensures
        match header_of(line@) {
            Some((k, v)) => r matches Some((a, b)) && a@ == k && b@ == v,
            None => r is None,
        },
{
    let cs = chars_of(line.as_str());
    match split_once(&cs, ':') {
        Some((k, v)) => Some((string_of(&trim(&k)), string_of(&trim(&v)))),
        None => None,
    }
}

/// The value of the last header named `k`.
fn find_header(hs: &Vec<(String, String)>, k: &String) -> (r: Option<String>)
    ensures
        match header_value(header_views(hs@), k@) {
            Some(v) => r matches Some(s) && s@ == v,
            None => r is None,
        },
{
    let mut i: usize = hs.len();
    assert(hs@.take(hs.len() as int) =~= hs@);
    while i > 0
        invariant
            i <= hs.len(),
            header_value(header_views(hs@), k@) == header_value(
                header_views(hs@.take(i as int)),
                k@,
            ),
        decreases i,
    {
        assert(header_views(hs@.take(i as int)).drop_last() =~= header_views(
            hs@.take(i as int - 1),
        ));
        if hs[i - 1].0 == *k {
            return Some(hs[i - 1].1.clone());
        }
        i = i - 1;
    }
    None
}

/// Reads the request line and the header lines (each as read, line ending
/// included) and resolves the caller's permissions from the `Key` header.
pub fn parse_head(request_line: String, header_lines: &Vec<String>, keys: &Vec<Key>) -> (r: Result<
    RequestHead,
    String,
>)
    ensures
        request_line_parts(request_line@) is None ==> (r matches Err(e) && e@
            == "Failed to process method"@),
        request_line_parts(request_line@) matches Some((m, p)) ==> {
            let hs = parsed_headers(string_views(header_lines@));
            match content_length_of(hs) {
                Err(_) => r matches Err(e) && e@ == "Unable to parse Content-Length"@,
                Ok(n) => r matches Ok(h) && h.method@ == m && h.protocol@ == p && header_views(
                    h.headers@,
                ) == hs && h.permissions@ == permissions_for(keys@, key_hash(hs))
                    && h.content_length == n,
            }
        },
{
    let (method, protocol) = match method_and_procol_from_line(request_line) {
        Ok(mp) => mp,
        Err(e) => {
            return Err(e);
        },
    };
    let mut headers: Vec<(String, String)> = Vec::new();
    let mut i: usize = 0;
    while i < header_lines.len()
        invariant
            i <= header_lines.len(),
            header_views(headers@) == parsed_headers(string_views(header_lines@.take(i as int))),
        decreases header_lines.len() - i,
    {
        assert(string_views(header_lines@.take(i as int + 1)).drop_last() =~= string_views(
            header_lines@.take(i as int),
        ));
        match parse_header_line(&header_lines[i]) {
            Some(h) => {
                let ghost before = headers@;
                headers.push(h);
                assert(header_views(headers@) =~= header_views(before).push((h.0@, h.1@)));
            },
            None => {},
        }
        i = i + 1;
    }
    assert(header_lines@.take(header_lines.len() as int) =~= header_lines@);
    let key_name = "Key".to_owned();
    let hash = match find_header(&headers, &key_name) {
        Some(v) => hash_key(v.as_str()),
        None => {
            let h = hash_key("");
            proof {
                reveal_strlit("");
                assert(""@ =~= Seq::<char>::empty());
            }
            h
        },
    };
    let permissions = get_permissions(&hash, keys);
    let length_name = "Content-Length".to_owned();
    let content_length = match find_header(&headers, &length_name) {
        None => None,
        Some(v) => match parse_usize(&chars_of(v.as_str())) {
            Some(n) => Some(n),
            None => {
                return Err("Unable to parse Content-Length".to_owned());
            },
        },
    };
    Ok(RequestHead { method, protocol, headers, permissions, content_length })
}

impl Request {
    /// Completes a request with its body: exactly the declared number of
    /// bytes from those available, whatever follows them.
    pub fn from_head(head: RequestHead, available: &Vec<u8>) -> (r: Result<Request, String>)
        ensures
            r matches Ok(q) ==> q.method == head.method && q.protocol == head.protocol
                && q.headers == head.headers && q.permissions == head.permissions,
            match head.content_length {
                None => r matches Ok(q) && q.body is None,
                Some(n) => match body_text(available@, n as nat) {
                    Some(t) => r matches Ok(q) && q.body matches Some(b) && b@ == t,
                    None => r matches Err(e) && (if available@.len() < n {
                        e@ == "Unable to read promised body"@
                    } else {
                        e@ == "Unable to parse body to a String"@
                    }),
                },
            },
    {
        let body = match head.content_length {
            None => None,
            Some(n) => {
                if available.len() < n {
                    return Err("Unable to read promised body".to_owned());
                }
                let mut bytes: Vec<u8> = Vec::new();
                let mut i: usize = 0;
                while i < n
                    invariant
                        i <= n,
                        n <= available.len(),
                        bytes@ == available@.take(i as int),
                    decreases n - i,
                {
                    bytes.push(available[i]);
                    i = i + 1;
                    assert(bytes@ =~= available@.take(i as int));
                }
                match utf8_text(bytes) {
                    Some(t) => Some(t),
                    None => {
                        return Err("Unable to parse body to a String".to_owned());
                    },
                }
            },
        };
        Ok(
            Request {
                method: head.method,
                protocol: head.protocol,
                headers: head.headers,
                permissions: head.permissions,
                body,
            },
        )
    }
}

impl Request {
    /// Refuses, with the forbidden response's text, a request that does not
    /// hold every required permission.
    pub fn check_permissions(&self, required_permissions: &Vec<Permission>) -> (r: Result<(), String>)
        ensures
            r is Ok <==> forall|k: int|
                0 <= k < required_permissions@.len() ==> self.permissions@.contains(
                    #[trigger] required_permissions@[k],
                ),
            r matches Err(e) ==> e@ == response_text(Response::Forbidden),
    {
        let mut i: usize = 0;
        while i < required_permissions.len()
            invariant
                i <= required_permissions.len(),
                forall|k: int|
                    0 <= k < i ==> self.permissions@.contains(#[trigger] required_permissions@[k]),
            decreases required_permissions.len() - i,
        {
            if !holds(&self.permissions, required_permissions[i]) {
                return Err(Response::Forbidden.get_responce());
            }
            i = i + 1;
        }
        Ok(())
    }
}

/// A body is read as exactly the declared number of bytes: bytes buffered
/// after them change nothing.
pub proof fn body_ignores_what_follows(available: Seq<u8>, extra: Seq<u8>, n: nat)
    requires
        available.len() >= n,
    ensures
        body_text(available + extra, n) == body_text(available, n),
{
    assert((available + extra).take(n as int) =~= available.take(n as int));
}

} // verus!
