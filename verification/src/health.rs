//! The minimal health-check exchange.
//!
//! A service is probed with one bounded-timeout TCP connection, one GET of
//! its health endpoint, and one read of the reply; success is a response
//! bearing a 200 status. The socket work happens outside the crate; the URL
//! parsing, the request text and the verdict on the bytes read back are
//! decided here.

use vstd::prelude::*;
use vstd::string::StringExecFns;
use vstd::string::StrSliceExecFns;

verus! {

/// Whether the text begins with the scheme prefix the probe strips.
pub open spec fn has_http_prefix(s: Seq<char>) -> bool {
    s.len() >= 7 && s.subrange(0, 7) == "http://"@
}

/// The URL with its scheme prefix removed, when it has one.
pub open spec fn strip_http(s: Seq<char>) -> Seq<char> {
    if has_http_prefix(s) {
        s.skip(7)
    } else {
        s
    }
}

/// Index of the first slash; the length when there is none.
pub open spec fn slash_index(s: Seq<char>) -> int
    decreases s.len(),
{
    if s.len() == 0 {
        0
    } else if s[0] == '/' {
        0
    } else {
        1 + slash_index(s.skip(1))
    }
}

/// The host and port of a health URL: everything between the scheme prefix
/// and the first slash.
pub open spec fn url_host_port(s: Seq<char>) -> Seq<char> {
    let t = strip_http(s);
    t.take(slash_index(t))
}

/// The request path of a health URL: the first slash and everything after
/// it; just the root when there is no slash.
pub open spec fn url_path(s: Seq<char>) -> Seq<char> {
    let t = strip_http(s);
    if slash_index(t) < t.len() {
        t.skip(slash_index(t))
    } else {
        "/"@
    }
}

/// `slash_index` is exactly the position with no slash before it and a
/// slash at it (or the length, when there is no slash at all).
proof fn lemma_slash_index_is(s: Seq<char>, i: int)
    requires
        0 <= i <= s.len(),
        forall|j: int| 0 <= j < i ==> s[j] != '/',
        i < s.len() ==> s[i] == '/',
    ensures
        slash_index(s) == i,
    decreases i,
{
    if s.len() == 0 || i == 0 {
    } else {
        assert(forall|j: int| 0 <= j < i - 1 ==> s.skip(1)[j] == s[j + 1]);
        lemma_slash_index_is(s.skip(1), i - 1);
    }
}

/// Whether the URL starts with the scheme prefix.
fn detect_http_prefix(url: &str) -> (r: bool)
    requires
        url.is_ascii(),
    ensures
        r == has_http_prefix(url@),
{
    proof {
        reveal_strlit("http://");
        assert("http://"@ =~= seq!['h', 't', 't', 'p', ':', '/', '/']);
    }
    if url.unicode_len() < 7 {
        return false;
    }
    let r = url.get_char(0) == 'h' && url.get_char(1) == 't' && url.get_char(2) == 't'
        && url.get_char(3) == 'p' && url.get_char(4) == ':' && url.get_char(5) == '/'
        && url.get_char(6) == '/';
    proof {
        if r {
            assert(url@.subrange(0, 7) =~= "http://"@);
        } else {
            if url@.subrange(0, 7) == "http://"@ {
                assert(url@[0] == url@.subrange(0, 7)[0]);
                assert(url@[1] == url@.subrange(0, 7)[1]);
                assert(url@[2] == url@.subrange(0, 7)[2]);
                assert(url@[3] == url@.subrange(0, 7)[3]);
                assert(url@[4] == url@.subrange(0, 7)[4]);
                assert(url@[5] == url@.subrange(0, 7)[5]);
                assert(url@[6] == url@.subrange(0, 7)[6]);
                assert(false);
            }
        }
    }
    r
}

/// Parse a health URL as the probe does: strip the scheme prefix, then cut
/// at the first slash into the host-and-port part and the request path; a
/// URL without a slash keeps everything as host and port and probes the
/// root path.
pub fn split_health_url(url: &str) -> (r: (String, String))
    requires
        url.is_ascii(),
    ensures
        r.0@ == url_host_port(url@),
        r.1@ == url_path(url@),
{
    let n = url.unicode_len();
    let start: usize = if detect_http_prefix(url) {
        7
    } else {
        0
    };
    let ghost t = strip_http(url@);
    proof {
        assert(t =~= url@.skip(start as int));
    }
    let mut i: usize = start;
    while i < n && url.get_char(i) != '/'
        invariant
            url.is_ascii(),
            start <= i <= n,
            n == url@.len(),
            start == 0 || start == 7,
            start <= n,
            t == url@.skip(start as int),
            forall|j: int| 0 <= j < i - start ==> t[j] != '/',
        decreases n - i,
    {
        proof {
            assert(t[i - start] == url@[i as int]);
        }
        i = i + 1;
    }
    proof {
        if i < n {
            assert(t[i - start] == url@[i as int]);
        }
        lemma_slash_index_is(t, i - start);
    }
    let host_port = String::from_str(url.substring_ascii(start, i));
    proof {
        assert(url@.subrange(start as int, i as int) =~= t.take(slash_index(t)));
    }
    let path = if i < n {
        let p = String::from_str(url.substring_ascii(i, n));
        proof {
            assert(url@.subrange(i as int, n as int) =~= t.skip(slash_index(t)));
        }
        p
    } else {
        String::from_str("/")
    };
    (host_port, path)
}

/// The one request the probe writes: GET on the path, close after the
/// response.
pub open spec fn health_request_text(host_port: Seq<char>, path: Seq<char>) -> Seq<char> {
    "GET "@ + path + " HTTP/1.1\r\nHost: "@ + host_port + "\r\nConnection: close\r\n\r\n"@
}

/// Build the request text for one health probe.
pub fn health_request(host_port: &str, path: &str) -> (r: String)
    ensures
        r@ == health_request_text(host_port@, path@),
{
    let mut r = String::from_str("GET ");
    r.append(path);
    r.append(" HTTP/1.1\r\nHost: ");
    r.append(host_port);
    r.append("\r\nConnection: close\r\n\r\n");
    r
}

/// The status digits that mark success: the bytes of `200`.
pub open spec fn status_digits() -> Seq<u8> {
    seq![50u8, 48u8, 48u8]
}

/// Whether `pat` occurs somewhere in `s`.
pub open spec fn contains_seq(s: Seq<u8>, pat: Seq<u8>) -> bool {
    exists|i: int| 0 <= i && i + pat.len() <= s.len() && #[trigger] s.subrange(i, i + pat.len())
        == pat
}

/// Decide success from the bytes read back: something was read and it
/// carries the digits of a 200 status somewhere. (The probe's two textual
/// checks, a full `200 OK` and a bare `200`, come to exactly this.)
pub fn response_indicates_healthy(resp: &Vec<u8>) -> (r: bool)
    ensures
        r == (resp@.len() > 0 && contains_seq(resp@, status_digits())),
{
    let n = resp.len();
    if n < 3 {
        proof {
            if contains_seq(resp@, status_digits()) {
                let i = choose|i: int|
                    0 <= i && i + status_digits().len() <= resp@.len() && #[trigger] resp@.subrange(
                        i,
                        i + status_digits().len(),
                    ) == status_digits();
                assert(false);
            }
        }
        return false;
    }
    let mut i: usize = 0;
    while i <= n - 3
        invariant
            3 <= n == resp@.len(),
            i <= n - 2,
            forall|j: int| 0 <= j < i ==> #[trigger] resp@.subrange(j, j + 3) != status_digits(),
        decreases n - i,
    {
        if resp[i] == 50 && resp[i + 1] == 48 && resp[i + 2] == 48 {
            proof {
                assert(resp@.subrange(i as int, i as int + 3) =~= status_digits());
            }
            return true;
        }
        proof {
            let s = resp@.subrange(i as int, i as int + 3);
            assert(s[0] == resp@[i as int] && s[1] == resp@[i as int + 1] && s[2] == resp@[
                i as int + 2
            ]);
            assert(s != status_digits());
        }
        i = i + 1;
    }
    proof {
        if contains_seq(resp@, status_digits()) {
            let k = choose|k: int|
                0 <= k && k + status_digits().len() <= resp@.len() && #[trigger] resp@.subrange(
                    k,
                    k + status_digits().len(),
                ) == status_digits();
            assert(resp@.subrange(k, k + 3) != status_digits());
            assert(false);
        }
    }
    false
}

/// The engine's health endpoint.
pub fn engine_health_url() -> (s: String)
    ensures
        s@ == "http://127.0.0.1:8001/health"@,
{
    String::from_str("http://127.0.0.1:8001/health")
}

/// The proxy's health endpoint.
pub fn litellm_health_url() -> (s: String)
    ensures
        s@ == "http://127.0.0.1:4000/health"@,
{
    String::from_str("http://127.0.0.1:4000/health")
}

} // verus!
