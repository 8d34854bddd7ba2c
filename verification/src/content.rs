//! Which document answers a request for embedded content.
//!
//! The host looks paths up in its store of embedded files and hands each
//! result to [`file_response`], which answers with the reply to send, with
//! one more path to look up, or with not-found.

use vstd::prelude::*;
use vstd::string::*;

verus! {

/// The status of every reply that serves a document.
pub const STATUS_OK: u16 = 200;

/// An embedded file as the host's store resolves it.
#[derive(Debug, Clone, PartialEq, Eq)]
pub struct Asset {
    pub bytes: Vec<u8>,
    pub mime_type: String,
}

/// One header line of a reply.
#[derive(Debug, Clone, PartialEq, Eq)]
pub struct Header {
    pub name: String,
    pub value: String,
}

impl View for Header {
    type V = (Seq<char>, Seq<char>);

    open spec fn view(&self) -> (Seq<char>, Seq<char>) {
        (self.name@, self.value@)
    }
}

/// A reply that serves a document.
#[derive(Debug, Clone, PartialEq, Eq)]
pub struct Reply {
    pub status: u16,
    pub headers: Vec<Header>,
    pub body: Vec<u8>,
}

/// The mathematical value of a [`Reply`].
pub struct ReplyView {
    pub status: u16,
    pub headers: Seq<(Seq<char>, Seq<char>)>,
    pub body: Seq<u8>,
}

impl View for Reply {
    type V = ReplyView;

    open spec fn view(&self) -> ReplyView {
        ReplyView {
            status: self.status,
            headers: self.headers@.map_values(|header: Header| header@),
            body: self.body@,
        }
    }
}

/// Which lookup a result belongs to.
#[derive(Debug, Clone, Copy, PartialEq, Eq, Structural)]
pub enum Lookup {
    /// The path that was requested.
    Requested,
    /// The default document.
    Fallback,
}

/// What to do with the result of a lookup.
#[derive(Debug, Clone, PartialEq, Eq)]
pub enum Resolution {
    /// Send this reply.
    Serve(Reply),
    /// Look `path` up and come back with the result as the given lookup.
    Retry { lookup: Lookup, path: String },
    /// Reject the request as not found.
    NotFound,
}

/// The mathematical value of a [`Resolution`].
pub enum ResolutionView {
    Serve(ReplyView),
    Retry { lookup: Lookup, path: Seq<char> },
    NotFound,
}

impl View for Resolution {
    type V = ResolutionView;

    open spec fn view(&self) -> ResolutionView {
        match self {
            Resolution::Serve(reply) => ResolutionView::Serve(reply@),
            Resolution::Retry { lookup, path } => ResolutionView::Retry {
                lookup: *lookup,
                path: path@,
            },
            Resolution::NotFound => ResolutionView::NotFound,
        }
    }
}

/// The path of the default document.
pub open spec fn fallback_path() -> Seq<char> {
    "/index.html"@
}

/// The headers that every served reply carries: byte ranges are accepted,
/// any origin may read the reply and any page may frame it.
pub open spec fn permissive_headers() -> Seq<(Seq<char>, Seq<char>)> {
    seq![
        ("accept-ranges"@, "bytes"@),
        ("access-control-allow-origin"@, "*"@),
        ("content-security-policy"@, "frame-ancestors *"@),
        ("x-frame-options"@, "ALLOW-FROM *"@),
    ]
}

/// The headers of the reply for a lookup: the permissive ones, and for the
/// requested path itself the content type of what was found, in third place.
pub open spec fn reply_headers(lookup: Lookup, mime_type: Seq<char>) -> Seq<
    (Seq<char>, Seq<char>),
> {
    match lookup {
        Lookup::Requested => permissive_headers().insert(2, ("content-type"@, mime_type)),
        Lookup::Fallback => permissive_headers(),
    }
}

/// The answer to the result of a lookup. What was found is served. A
/// requested path that is absent leads to the default document, and an
/// absent default document to not-found.
pub open spec fn resolution(lookup: Lookup, found: Option<(Seq<u8>, Seq<char>)>) -> ResolutionView {
    match (found, lookup) {
        (Some((bytes, mime_type)), _) => ResolutionView::Serve(
            ReplyView {
                status: STATUS_OK,
                headers: reply_headers(lookup, mime_type),
                body: bytes,
            },
        ),
        (None, Lookup::Requested) => ResolutionView::Retry {
            lookup: Lookup::Fallback,
            path: fallback_path(),
        },
        (None, Lookup::Fallback) => ResolutionView::NotFound,
    }
}

/// What a lookup found, as plain values.
pub open spec fn found_view(found: Option<Asset>) -> Option<(Seq<u8>, Seq<char>)> {
    match found {
        Some(asset) => Some((asset.bytes@, asset.mime_type@)),
        None => None,
    }
}

fn header(name: &str, value: &str) -> (line: Header)
    ensures
        line@ == (name@, value@),
{
    Header { name: String::from_str(name), value: String::from_str(value) }
}

/// Answers the result of a lookup.
pub fn file_response(lookup: Lookup, found: Option<Asset>) -> (answer: Resolution)
    ensures
        answer@ == resolution(lookup, found_view(found)),
{
    match found {
        Some(asset) => {
            let mut headers: Vec<Header> = Vec::new();
            headers.push(header("accept-ranges", "bytes"));
            headers.push(header("access-control-allow-origin", "*"));
            match lookup {
                Lookup::Requested => {
                    headers.push(Header { name: String::from_str("content-type"), value: asset.mime_type });
                },
                Lookup::Fallback => {},
            }
            headers.push(header("content-security-policy", "frame-ancestors *"));
            headers.push(header("x-frame-options", "ALLOW-FROM *"));
            let reply = Reply { status: STATUS_OK, headers, body: asset.bytes };
            assert(reply@.headers =~= reply_headers(lookup, asset.mime_type@));
            Resolution::Serve(reply)
        },
        None => match lookup {
            Lookup::Requested => Resolution::Retry {
                lookup: Lookup::Fallback,
                path: String::from_str("/index.html"),
            },
            Lookup::Fallback => Resolution::NotFound,
        },
    }
}

/// Every reply that serves a document, the default document included, has
/// status 200, carries each of the permissive headers, and has what was
/// found as its body.
pub proof fn law_served_reply_is_permissive(lookup: Lookup, bytes: Seq<u8>, mime_type: Seq<char>)
    ensures
        resolution(lookup, Some((bytes, mime_type))) matches ResolutionView::Serve(reply)
            && reply.status == 200 && reply.body == bytes && forall|i: int|
            0 <= i < permissive_headers().len() ==> reply.headers.contains(
                #[trigger] permissive_headers()[i],
            ),
{
    let headers = reply_headers(lookup, mime_type);
    let permissive = permissive_headers();
    assert forall|i: int| 0 <= i < permissive.len() implies headers.contains(
        #[trigger] permissive[i],
    ) by {
        if lookup is Requested && i >= 2 {
            assert(headers[i + 1] == permissive[i]);
        } else {
            assert(headers[i] == permissive[i]);
        }
    }
}

/// A request takes at most two lookups: only the requested path is ever
/// answered with another path, that path is the default document, and the
/// default document is answered with a reply or with not-found.
pub proof fn law_fallback_is_final(lookup: Lookup, found: Option<(Seq<u8>, Seq<char>)>)
    ensures
        resolution(lookup, found) is Retry <==> lookup is Requested && found.is_none(),
        resolution(lookup, found) is Retry ==> resolution(lookup, found)
            == (ResolutionView::Retry { lookup: Lookup::Fallback, path: fallback_path() }),
        resolution(lookup, found) is NotFound <==> lookup is Fallback && found.is_none(),
{
}

} // verus!
