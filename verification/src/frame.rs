//! Frames of the control channel, the local origin's response type, header
//! hygiene, and the routing of inbound frames.
use vstd::prelude::*;
use crate::text::{chars_equal, chars_start_with, lower_chars, lower_seq, starts_with_seq};
use crate::status::reason_phrase_spec;
use crate::status::reason_phrase;
use vstd::string::StringExecFns;

verus! {

/// One tagged message on the control channel.
#[derive(Debug, Clone)]
pub enum TunnelFrame {
    Auth { token: String },
    AuthAck { ok: bool, reason: Option<String> },
    HttpRequest {
        id: String,
        method: String,
        url: String,
        headers: Vec<(String, String)>,
        body: Option<Vec<u8>>,
    },
    HttpResponse {
        id: String,
        status: u16,
        status_text: String,
        headers: Vec<(String, String)>,
        body: Option<Vec<u8>>,
    },
    Ping,
    Pong,
    Error { id: Option<String>, message: String },
}

/// What the local origin answered: status, phrase, headers and body.
#[derive(Debug, Clone)]
pub struct LocalResponse {
    pub status: u16,
    pub status_text: String,
    pub headers: Vec<(String, String)>,
    pub body: Option<Vec<u8>>,
}

/// The characters of a header list.
pub open spec fn header_views(hs: Seq<(String, String)>) -> Seq<(Seq<char>, Seq<char>)> {
    hs.map_values(|p: (String, String)| (p.0@, p.1@))
}

pub open spec fn kw_connection() -> Seq<char> {
    seq!['c', 'o', 'n', 'n', 'e', 'c', 't', 'i', 'o', 'n']
}

pub open spec fn kw_upgrade() -> Seq<char> {
    seq!['u', 'p', 'g', 'r', 'a', 'd', 'e']
}

pub open spec fn kw_keep_alive() -> Seq<char> {
    seq!['k', 'e', 'e', 'p', '-', 'a', 'l', 'i', 'v', 'e']
}

pub open spec fn kw_te() -> Seq<char> {
    seq!['t', 'e']
}

pub open spec fn kw_trailer() -> Seq<char> {
    seq!['t', 'r', 'a', 'i', 'l', 'e', 'r']
}

pub open spec fn kw_transfer_encoding() -> Seq<char> {
    seq!['t', 'r', 'a', 'n', 's', 'f', 'e', 'r', '-', 'e', 'n', 'c', 'o', 'd', 'i', 'n', 'g']
}

pub open spec fn kw_proxy_prefix() -> Seq<char> {
    seq!['p', 'r', 'o', 'x', 'y', '-']
}

/// A hop-by-hop header name: one that describes the connection rather than
/// the message and must not be forwarded. Names compare case-insensitively.
pub open spec fn is_hop_by_hop(name: Seq<char>) -> bool {
    let l = lower_seq(name);
    ||| l == kw_connection()
    ||| l == kw_upgrade()
    ||| l == kw_keep_alive()
    ||| l == kw_te()
    ||| l == kw_trailer()
    ||| l == kw_transfer_encoding()
    ||| starts_with_seq(l, kw_proxy_prefix())
}

/// Whether a header name is hop-by-hop, executable form.
pub fn is_hop_by_hop_name(name: &str) -> (r: bool)
    ensures
        r == is_hop_by_hop(name@),
{
    let l = lower_chars(name);
    let conn: Vec<char> = vec!['c', 'o', 'n', 'n', 'e', 'c', 't', 'i', 'o', 'n'];
    let upg: Vec<char> = vec!['u', 'p', 'g', 'r', 'a', 'd', 'e'];
    let ka: Vec<char> = vec!['k', 'e', 'e', 'p', '-', 'a', 'l', 'i', 'v', 'e'];
    let te: Vec<char> = vec!['t', 'e'];
    let tr: Vec<char> = vec!['t', 'r', 'a', 'i', 'l', 'e', 'r'];
    let tenc: Vec<char> = vec![
        't', 'r', 'a', 'n', 's', 'f', 'e', 'r', '-', 'e', 'n', 'c', 'o', 'd', 'i', 'n', 'g',
    ];
    let pfx: Vec<char> = vec!['p', 'r', 'o', 'x', 'y', '-'];
    proof {
        assert(conn@ =~= kw_connection());
        assert(upg@ =~= kw_upgrade());
        assert(ka@ =~= kw_keep_alive());
        assert(te@ =~= kw_te());
        assert(tr@ =~= kw_trailer());
        assert(tenc@ =~= kw_transfer_encoding());
        assert(pfx@ =~= kw_proxy_prefix());
    }
    if chars_equal(&l, &conn) {
        return true;
    }
    if chars_equal(&l, &upg) {
        return true;
    }
    if chars_equal(&l, &ka) {
        return true;
    }
    if chars_equal(&l, &te) {
        return true;
    }
    if chars_equal(&l, &tr) {
        return true;
    }
    if chars_equal(&l, &tenc) {
        return true;
    }
    chars_start_with(&l, &pfx)
}

/// The header list with every hop-by-hop header removed; every other header
/// is kept, byte for byte and in order.
pub open spec fn strip_hop_spec(hs: Seq<(Seq<char>, Seq<char>)>) -> Seq<(Seq<char>, Seq<char>)>
    decreases hs.len(),
{
    if hs.len() == 0 {
        Seq::empty()
    } else {
        let rest = strip_hop_spec(hs.drop_last());
        if is_hop_by_hop(hs.last().0) {
            rest
        } else {
            rest.push(hs.last())
        }
    }
}

/// Every end-to-end header of the input survives the stripping, value and
/// all.
pub proof fn lemma_strip_keeps_end_to_end(hs: Seq<(Seq<char>, Seq<char>)>, i: int)
    requires
        0 <= i < hs.len(),
        !is_hop_by_hop(hs[i].0),
    ensures
        strip_hop_spec(hs).contains(hs[i]),
    decreases hs.len(),
{
    let rest = strip_hop_spec(hs.drop_last());
    if i == hs.len() - 1 {
        assert(strip_hop_spec(hs) == rest.push(hs.last()));
        assert(strip_hop_spec(hs)[rest.len() as int] == hs[i]);
    } else {
        assert(hs.drop_last()[i] == hs[i]);
        lemma_strip_keeps_end_to_end(hs.drop_last(), i);
        let k = choose|k: int| 0 <= k < rest.len() && rest[k] == hs[i];
        if is_hop_by_hop(hs.last().0) {
            assert(strip_hop_spec(hs)[k] == hs[i]);
        } else {
            assert(strip_hop_spec(hs) == rest.push(hs.last()));
            assert(strip_hop_spec(hs)[k] == hs[i]);
        }
    }
}

/// Only end-to-end headers of the input appear after the stripping.
pub proof fn lemma_strip_only_end_to_end(hs: Seq<(Seq<char>, Seq<char>)>)
    ensures
        forall|k: int|
            0 <= k < strip_hop_spec(hs).len() ==> !is_hop_by_hop(#[trigger] strip_hop_spec(
                hs,
            )[k].0) && hs.contains(strip_hop_spec(hs)[k]),
    decreases hs.len(),
{
    if hs.len() > 0 {
        let rest = strip_hop_spec(hs.drop_last());
        lemma_strip_only_end_to_end(hs.drop_last());
        assert forall|k: int| 0 <= k < rest.len() implies hs.contains(rest[k]) by {
            let j = choose|j: int| 0 <= j < hs.drop_last().len() && hs.drop_last()[j] == rest[k];
            assert(hs[j] == rest[k]);
        }
        if !is_hop_by_hop(hs.last().0) {
            assert(strip_hop_spec(hs) == rest.push(hs.last()));
            assert(hs[hs.len() - 1] == hs.last());
        }
    }
}

/// Remove the hop-by-hop headers from a header list.
pub fn strip_hop_by_hop(headers: &Vec<(String, String)>) -> (r: Vec<(String, String)>)
    ensures
        header_views(r@) == strip_hop_spec(header_views(headers@)),
{
    let n = headers.len();
    let mut out: Vec<(String, String)> = Vec::new();
    let mut i: usize = 0;
    while i < n
        invariant
            n == headers@.len(),
            i <= n,
            header_views(out@) == strip_hop_spec(header_views(headers@).subrange(0, i as int)),
        decreases n - i,
    {
        let ghost pre = header_views(out@);
        let name_is_hop = is_hop_by_hop_name(headers[i].0.as_str());
        if !name_is_hop {
            let pair = (headers[i].0.clone(), headers[i].1.clone());
            out.push(pair);
        }
        i = i + 1;
        proof {
            let hv = header_views(headers@);
            assert(hv.subrange(0, i as int).drop_last() =~= hv.subrange(0, i - 1));
            assert(hv.subrange(0, i as int).last() == hv[i - 1]);
            if !name_is_hop {
                assert(header_views(out@) =~= pre.push(hv[i - 1]));
            }
        }
    }
    proof {
        assert(header_views(headers@).subrange(0, n as int) =~= header_views(headers@));
    }
    out
}

/// Build the outbound response frame for a response of the local origin:
/// the status and body are carried byte-exactly, the headers minus the
/// hop-by-hop ones, and the status text is the standard reason phrase.
pub fn response_to_frame(request_id: &str, response: &LocalResponse) -> (f: TunnelFrame)
    ensures
        ({
            &&& f matches TunnelFrame::HttpResponse { id, status, status_text, headers, body }
            &&& id@ == request_id@
            &&& status == response.status
            &&& status_text@ == reason_phrase_spec(response.status)
            &&& header_views(headers@) == strip_hop_spec(header_views(response.headers@))
            &&& body_view(body) == body_view(response.body)
        }),
{
    TunnelFrame::HttpResponse {
        id: String::from_str(request_id),
        status: response.status,
        status_text: String::from_str(reason_phrase(response.status)),
        headers: strip_hop_by_hop(&response.headers),
        body: clone_body(&response.body),
    }
}

/// The bytes of an optional body.
pub open spec fn body_view(b: Option<Vec<u8>>) -> Option<Seq<u8>> {
    match b {
        Some(v) => Some(v@),
        None => None,
    }
}

/// Copy an optional body, byte for byte.
pub fn clone_body(body: &Option<Vec<u8>>) -> (r: Option<Vec<u8>>)
    ensures
        body_view(r) == body_view(*body),
{
    match body {
        Some(b) => {
            let mut c: Vec<u8> = Vec::new();
            let n = b.len();
            let mut i: usize = 0;
            while i < n
                invariant
                    n == b@.len(),
                    i <= n,
                    c@ == b@.subrange(0, i as int),
                decreases n - i,
            {
                c.push(b[i]);
                i = i + 1;
            }
            proof {
                assert(b@.subrange(0, n as int) =~= b@);
            }
            Some(c)
        },
        None => None,
    }
}

/// What the control-channel reader does with one inbound frame while the
/// session is established.
#[derive(Debug)]
pub enum RouteAction {
    /// Hand the request to the forwarder stream.
    DeliverRequest {
        id: String,
        method: String,
        url: String,
        headers: Vec<(String, String)>,
        body: Option<Vec<u8>>,
    },
    /// Answer a `Ping` with a `Pong` on the writer.
    ReplyPong,
    /// A `Pong` (or any liveness signal) arrived: reset the liveness deadline.
    ResetLiveness,
    /// The remote cancelled an in-flight request: abort it, send no frame.
    CancelRequest { id: String },
    /// The frame has no meaning here: drop it, the session continues.
    Ignore,
}

/// Route one inbound frame of an established session: requests go to the
/// forwarder, `Ping` is answered with `Pong`, `Pong` resets the liveness
/// deadline, a remote `Error` naming a request cancels it, and everything
/// else is dropped.
pub fn route_inbound_frame(frame: TunnelFrame) -> (a: RouteAction)
    ensures
        (frame matches TunnelFrame::HttpRequest { id, method, url, headers, body } ==> a
            matches RouteAction::DeliverRequest {
            id: rid,
            method: rmethod,
            url: rurl,
            headers: rheaders,
            body: rbody,
        } && rid == id && rmethod == method && rurl == url && rheaders == headers && rbody
            == body),
        frame is Ping ==> a is ReplyPong,
        frame is Pong ==> a is ResetLiveness,
        (frame matches TunnelFrame::Error { id: Some(id), message } ==> a
            matches RouteAction::CancelRequest { id: rid } && rid == id),
        (frame matches TunnelFrame::Error { id: None, message } ==> a is Ignore),
        frame is Auth ==> a is Ignore,
        frame is AuthAck ==> a is Ignore,
        frame is HttpResponse ==> a is Ignore,
{
    match frame {
        TunnelFrame::HttpRequest { id, method, url, headers, body } => {
            RouteAction::DeliverRequest { id, method, url, headers, body }
        },
        TunnelFrame::Ping => RouteAction::ReplyPong,
        TunnelFrame::Pong => RouteAction::ResetLiveness,
        TunnelFrame::Error { id: Some(id), message: _ } => RouteAction::CancelRequest { id },
        _ => RouteAction::Ignore,
    }
}

} // verus!
