//! The HTTP layer: a minimal recognizer of the first line. A request line
//! is a known method, a path and an `HTTP/` version, space-separated; a
//! status line opens with `HTTP/` and carries a status token. The `Host`
//! header names the request's host when present. Anything else is not
//! HTTP.

use vstd::prelude::*;
use vstd::string::*;
use crate::render::{ascii_chars, ascii_to_string};

verus! {

/// A decoded HTTP message summary.
pub enum HttpPacket {
    /// A request: method, path and host.
    Request { method: String, path: String, host: String },
    /// A response: its status token.
    Response { status: String },
}

/// The index of the first line break (carriage return or line feed) at or
/// after `i`, or the length.
pub open spec fn spec_find_eol(p: Seq<u8>, i: int) -> int
    decreases p.len() - i,
{
    if i < 0 || i >= p.len() {
        p.len() as int
    } else if p[i] == 13 || p[i] == 10 {
        i
    } else {
        spec_find_eol(p, i + 1)
    }
}

/// The index of the first space in `[i, end)`, if any.
pub open spec fn spec_find_sp(p: Seq<u8>, i: int, end: int) -> Option<int>
    recommends
        end <= p.len(),
    decreases end - i,
{
    if i < 0 || i >= end || end > p.len() {
        None
    } else if p[i] == 32 {
        Some(i)
    } else {
        spec_find_sp(p, i + 1, end)
    }
}

/// Whether every byte is visible ASCII.
pub open spec fn spec_visible(s: Seq<u8>) -> bool {
    forall|i: int| 0 <= i < s.len() ==> 33 <= #[trigger] s[i] <= 126
}

/// The bytes of `HTTP/`.
pub open spec fn spec_http_marker() -> Seq<u8> {
    seq![72u8, 84u8, 84u8, 80u8, 47u8]
}

/// Whether the characters spell a known request method.
pub open spec fn spec_is_method(m: Seq<char>) -> bool {
    ||| m == "GET"@
    ||| m == "POST"@
    ||| m == "PUT"@
    ||| m == "DELETE"@
    ||| m == "HEAD"@
    ||| m == "OPTIONS"@
    ||| m == "PATCH"@
    ||| m == "TRACE"@
    ||| m == "CONNECT"@
}

/// The first space of the first line, or minus one.
pub open spec fn spec_req_s1(p: Seq<u8>) -> int {
    match spec_find_sp(p, 0, spec_find_eol(p, 0)) {
        Some(i) => i,
        None => -1,
    }
}

/// The second space of the first line, or minus one.
pub open spec fn spec_req_s2(p: Seq<u8>) -> int {
    match spec_find_sp(p, spec_req_s1(p) + 1, spec_find_eol(p, 0)) {
        Some(i) => i,
        None => -1,
    }
}

/// Whether the payload opens with a well-formed request line: a known
/// visible method, a nonempty visible path, and an `HTTP/` version up to
/// the end of the line.
pub open spec fn spec_http_request_shape(p: Seq<u8>) -> bool {
    let e = spec_find_eol(p, 0);
    let s1 = spec_req_s1(p);
    let s2 = spec_req_s2(p);
    &&& s1 > 0
    &&& s2 > s1 + 1
    &&& s2 + 6 <= e
    &&& p.subrange(s2 + 1, s2 + 6) == spec_http_marker()
    &&& spec_visible(p.subrange(0, s1))
    &&& spec_visible(p.subrange(s1 + 1, s2))
    &&& spec_is_method(ascii_chars(p.subrange(0, s1)))
}

/// The end of the response status token: the next space after the first,
/// or the end of the line.
pub open spec fn spec_resp_e2(p: Seq<u8>) -> int {
    let e = spec_find_eol(p, 0);
    match spec_find_sp(p, spec_req_s1(p) + 1, e) {
        Some(i) => i,
        None => e,
    }
}

/// Whether the payload opens with a well-formed status line: `HTTP/`,
/// then a space and a nonempty visible status token.
pub open spec fn spec_http_response_shape(p: Seq<u8>) -> bool {
    let e = spec_find_eol(p, 0);
    let s1 = spec_req_s1(p);
    &&& e >= 5
    &&& p.subrange(0, 5) == spec_http_marker()
    &&& s1 >= 5
    &&& spec_resp_e2(p) > s1 + 1
    &&& spec_visible(p.subrange(s1 + 1, spec_resp_e2(p)))
}

/// The bytes of a line-feed followed by `Host: `.
pub open spec fn spec_host_marker() -> Seq<u8> {
    seq![10u8, 72u8, 111u8, 115u8, 116u8, 58u8, 32u8]
}

/// The host named by the first `Host: ` header line at or after `i`:
/// the rest of that line when it is printable ASCII, `Unknown` otherwise
/// and when no such line exists.
pub open spec fn spec_find_host(p: Seq<u8>, i: int) -> Seq<char>
    decreases p.len() - i,
{
    if i < 0 || i + 7 > p.len() {
        "Unknown"@
    } else if p.subrange(i, i + 7) == spec_host_marker() {
        let e = spec_find_eol(p, i + 7);
        let v = p.subrange(i + 7, e);
        if forall|k: int| 0 <= k < v.len() ==> 32 <= #[trigger] v[k] <= 126 {
            ascii_chars(v)
        } else {
            "Unknown"@
        }
    } else {
        spec_find_host(p, i + 1)
    }
}

fn find_eol(p: &[u8], from: usize) -> (e: usize)
    requires
        from <= p@.len(),
    ensures
        e as int == spec_find_eol(p@, from as int),
        from <= e <= p@.len(),
{
    let n = p.len();
    let mut i: usize = from;
    let mut done = false;
    while i < n && !done
        invariant
            from <= i <= n,
            n == p@.len(),
            done ==> p@[i as int] == 13 || p@[i as int] == 10,
            spec_find_eol(p@, from as int) == spec_find_eol(p@, i as int),
        decreases n - i, (if done {
            0int
        } else {
            1int
        }),
    {
        if p[i] == 13 || p[i] == 10 {
            done = true;
        } else {
            i = i + 1;
        }
    }
    i
}

fn find_sp(p: &[u8], from: usize, end: usize) -> (r: Option<usize>)
    requires
        from <= end <= p@.len(),
    ensures
        match r {
            Some(i) => from <= i < end && Some(i as int) == spec_find_sp(
                p@,
                from as int,
                end as int,
            ),
            None => spec_find_sp(p@, from as int, end as int) is None,
        },
{
    let mut i: usize = from;
    while i < end
        invariant
            from <= i <= end <= p@.len(),
            spec_find_sp(p@, from as int, end as int) == spec_find_sp(
                p@,
                i as int,
                end as int,
            ),
        decreases end - i,
    {
        if p[i] == 32 {
            return Some(i);
        }
        i = i + 1;
    }
    None
}

fn check_visible(p: &[u8], from: usize, to: usize) -> (r: bool)
    requires
        from <= to <= p@.len(),
    ensures
        r == spec_visible(p@.subrange(from as int, to as int)),
{
    let mut i: usize = from;
    let mut ok = true;
    while i < to
        invariant
            from <= i <= to <= p@.len(),
            ok == (forall|k: int| from <= k < i ==> 33 <= #[trigger] p@[k] <= 126),
        decreases to - i,
    {
        if p[i] < 33 || p[i] > 126 {
            ok = false;
        }
        i = i + 1;
    }
    proof {
        let v = p@.subrange(from as int, to as int);
        if ok {
            assert(forall|k: int| 0 <= k < v.len() ==> 33 <= #[trigger] v[k] <= 126) by {
                assert(forall|k: int| 0 <= k < v.len() ==> v[k] == p@[from + k]);
            }
        } else {
            let w = choose|k: int| from <= k < to && !(33 <= #[trigger] p@[k] <= 126);
            assert(v[w - from] == p@[w]);
            assert(!spec_visible(v));
        }
    }
    ok
}

fn is_method(m: &String) -> (r: bool)
    ensures
        r == spec_is_method(m@),
{
    let g1 = String::from_str("GET");
    let g2 = String::from_str("POST");
    let g3 = String::from_str("PUT");
    let g4 = String::from_str("DELETE");
    let g5 = String::from_str("HEAD");
    let g6 = String::from_str("OPTIONS");
    let g7 = String::from_str("PATCH");
    let g8 = String::from_str("TRACE");
    let g9 = String::from_str("CONNECT");
    *m == g1 || *m == g2 || *m == g3 || *m == g4 || *m == g5 || *m == g6 || *m == g7 || *m == g8
        || *m == g9
}

fn find_host(p: &[u8], from: usize) -> (host: String)
    requires
        from <= p@.len(),
    ensures
        host@ == spec_find_host(p@, from as int),
{
    let n = p.len();
    let mut i: usize = from;
    while n >= 7 && i <= n - 7
        invariant
            from <= i,
            i <= n + 1,
            n == p@.len(),
            spec_find_host(p@, from as int) == spec_find_host(p@, i as int),
        decreases n - i,
    {
        if p[i] == 10 && p[i + 1] == 72 && p[i + 2] == 111 && p[i + 3] == 115 && p[i + 4] == 116
            && p[i + 5] == 58 && p[i + 6] == 32 {
            proof {
                assert(p@.subrange(i as int, i as int + 7) =~= spec_host_marker());
            }
            let e = find_eol(p, i + 7);
            let ok = check_visible32(p, i + 7, e);
            if ok {
                let v = &p[i + 7..e];
                proof {
                    assert(v@ =~= p@.subrange(i as int + 7, e as int));
                    assert(forall|k: int| 0 <= k < v@.len() ==> v@[k] == p@[i + 7 + k]);
                }
                return ascii_to_string(v);
            } else {
                return String::from_str("Unknown");
            }
        }
        proof {
            assert(p@.subrange(i as int, i as int + 7) != spec_host_marker()) by {
                if p@.subrange(i as int, i as int + 7) == spec_host_marker() {
                    assert(p@.subrange(i as int, i as int + 7)[0] == 10u8);
                    assert(p@.subrange(i as int, i as int + 7)[1] == 72u8);
                    assert(p@.subrange(i as int, i as int + 7)[2] == 111u8);
                    assert(p@.subrange(i as int, i as int + 7)[3] == 115u8);
                    assert(p@.subrange(i as int, i as int + 7)[4] == 116u8);
                    assert(p@.subrange(i as int, i as int + 7)[5] == 58u8);
                    assert(p@.subrange(i as int, i as int + 7)[6] == 32u8);
                }
            }
        }
        i = i + 1;
    }
    String::from_str("Unknown")
}

fn check_visible32(p: &[u8], from: usize, to: usize) -> (r: bool)
    requires
        from <= to <= p@.len(),
    ensures
        ({
            let v = p@.subrange(from as int, to as int);
            r == (forall|k: int| 0 <= k < v.len() ==> 32 <= #[trigger] v[k] <= 126)
        }),
{
    let mut i: usize = from;
    let mut ok = true;
    while i < to
        invariant
            from <= i <= to <= p@.len(),
            ok == (forall|k: int| from <= k < i ==> 32 <= #[trigger] p@[k] <= 126),
        decreases to - i,
    {
        if p[i] < 32 || p[i] > 126 {
            ok = false;
        }
        i = i + 1;
    }
    proof {
        let v = p@.subrange(from as int, to as int);
        if ok {
            assert(forall|k: int| 0 <= k < v.len() ==> 32 <= #[trigger] v[k] <= 126) by {
                assert(forall|k: int| 0 <= k < v.len() ==> v[k] == p@[from + k]);
            }
        } else {
            let w = choose|k: int| from <= k < to && !(32 <= #[trigger] p@[k] <= 126);
            assert(v[w - from] == p@[w]);
        }
    }
    ok
}

/// Decoder of the HTTP layer.
pub struct HttpProcessor;

impl HttpProcessor {
    /// Creates the decoder.
    pub fn new() -> (p: HttpProcessor) {
        HttpProcessor
    }

    /// Recognizes the payload's first line. A well-formed request line
    /// yields the method, the path and the `Host` header's value; a
    /// well-formed status line yields the status token; anything else
    /// fails.
    pub fn process(&self, payload: &[u8]) -> (r: Result<HttpPacket, String>)
        ensures
            r is Ok <==> spec_http_request_shape(payload@) || spec_http_response_shape(
                payload@,
            ),
            r matches Err(e) ==> e@ == "Failed to parse HTTP packet"@,
            r matches Ok(p) ==> match p {
                HttpPacket::Request { method, path, host } => {
                    &&& spec_http_request_shape(payload@)
                    &&& method@ == ascii_chars(payload@.subrange(0, spec_req_s1(payload@)))
                    &&& path@ == ascii_chars(
                        payload@.subrange(spec_req_s1(payload@) + 1, spec_req_s2(payload@)),
                    )
                    &&& host@ == spec_find_host(payload@, spec_find_eol(payload@, 0))
                },
                HttpPacket::Response { status } => {
                    &&& !spec_http_request_shape(payload@)
                    &&& spec_http_response_shape(payload@)
                    &&& status@ == ascii_chars(
                        payload@.subrange(spec_req_s1(payload@) + 1, spec_resp_e2(payload@)),
                    )
                },
            },
    {
        let e = find_eol(payload, 0);
        if let Some(s1) = find_sp(payload, 0, e) {
            if let Some(s2) = find_sp(payload, s1 + 1, e) {
                if s1 > 0 && s2 > s1 + 1 && e >= 6 && s2 <= e - 6 && payload[s2 + 1] == 72 && payload[s2
                    + 2] == 84 && payload[s2 + 3] == 84 && payload[s2 + 4] == 80 && payload[s2
                    + 5] == 47 {
                    proof {
                        assert(payload@.subrange(s2 as int + 1, s2 as int + 6)
                            =~= spec_http_marker());
                    }
                    let mv = check_visible(payload, 0, s1);
                    let pv = check_visible(payload, s1 + 1, s2);
                    if mv && pv {
                        let mb = &payload[0..s1];
                        proof {
                            assert(mb@ =~= payload@.subrange(0, s1 as int));
                            assert(forall|k: int| 0 <= k < mb@.len() ==> mb@[k] == payload@[k]);
                        }
                        let method = ascii_to_string(mb);
                        if is_method(&method) {
                            let pb = &payload[s1 + 1..s2];
                            proof {
                                assert(pb@ =~= payload@.subrange(s1 as int + 1, s2 as int));
                                assert(forall|k: int|
                                    0 <= k < pb@.len() ==> pb@[k] == payload@[s1 + 1 + k]);
                            }
                            let path = ascii_to_string(pb);
                            let host = find_host(payload, e);
                            return Ok(HttpPacket::Request { method, path, host });
                        }
                    }
                }
            }
        }
        // Not a request line; try a status line.
        if e >= 5 && payload[0] == 72 && payload[1] == 84 && payload[2] == 84 && payload[3] == 80
            && payload[4] == 47 {
            proof {
                assert(payload@.subrange(0, 5) =~= spec_http_marker());
            }
            if let Some(s1) = find_sp(payload, 0, e) {
                if s1 >= 5 {
                    let e2 = match find_sp(payload, s1 + 1, e) {
                        Some(x) => x,
                        None => e,
                    };
                    if e2 > s1 + 1 {
                        let sv = check_visible(payload, s1 + 1, e2);
                        if sv {
                            let sb = &payload[s1 + 1..e2];
                            proof {
                                assert(sb@ =~= payload@.subrange(s1 as int + 1, e2 as int));
                                assert(forall|k: int|
                                    0 <= k < sb@.len() ==> sb@[k] == payload@[s1 + 1 + k]);
                            }
                            let status = ascii_to_string(sb);
                            return Ok(HttpPacket::Response { status });
                        }
                    }
                }
            }
        }
        Err(String::from_str("Failed to parse HTTP packet"))
    }
}

impl HttpPacket {
    /// The request method, or `Response`.
    pub fn get_method(&self) -> (s: String)
        ensures
            match self {
                HttpPacket::Request { method, .. } => s@ == method@,
                HttpPacket::Response { .. } => s@ == "Response"@,
            },
    {
        match self {
            HttpPacket::Request { method, .. } => method.clone(),
            HttpPacket::Response { .. } => String::from_str("Response"),
        }
    }

    /// The request path, or the response status token.
    pub fn get_path(&self) -> (s: String)
        ensures
            match self {
                HttpPacket::Request { path, .. } => s@ == path@,
                HttpPacket::Response { status } => s@ == status@,
            },
    {
        match self {
            HttpPacket::Request { path, .. } => path.clone(),
            HttpPacket::Response { status } => status.clone(),
        }
    }

    /// The request host, or `Server`.
    pub fn get_host(&self) -> (s: String)
        ensures
            match self {
                HttpPacket::Request { host, .. } => s@ == host@,
                HttpPacket::Response { .. } => s@ == "Server"@,
            },
    {
        match self {
            HttpPacket::Request { host, .. } => host.clone(),
            HttpPacket::Response { .. } => String::from_str("Server"),
        }
    }
}

} // verus!
