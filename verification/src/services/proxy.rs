//! The local proxy that lets VLC reach the web player: whether it runs,
//! where each request goes, and what is answered.
//!
//! Listening, forwarding and answering are done by the caller.
use vstd::prelude::*;
use vstd::string::{StrSliceExecFns, StringExecFns};

verus! {

/// The address the proxy listens on.
pub const PROXY_ADDRESS: &'static str = "127.0.0.1:4000";

/// Whether the proxy runs.
#[derive(Debug)]
pub struct ProxyServerManager {
    running: bool,
}

impl Default for ProxyServerManager {
    fn default() -> (r: Self)
        ensures
            !r.is_running(),
    {
        Self::new()
    }
}

impl ProxyServerManager {
    pub closed spec fn is_running(&self) -> bool {
        self.running
    }

    /// A proxy that does not run.
    pub fn new() -> (r: Self)
        ensures
            !r.is_running(),
    {
        ProxyServerManager { running: false }
    }

    /// Whether starting has anything to do: a running proxy is left as is.
    pub fn needs_start(&self) -> (r: bool)
        ensures
            r == !self.is_running(),
    {
        !self.running
    }

    /// Starts the proxy: a running proxy is left as is; otherwise `bound`
    /// is whether listening on [`PROXY_ADDRESS`] worked (or the error, as
    /// text).
    pub fn start(&mut self, bound: Result<(), String>) -> (r: Result<(), String>)
        ensures
            old(self).is_running() ==> r is Ok && final(self).is_running(),
            !old(self).is_running() ==> match bound {
                Ok(_) => r is Ok && final(self).is_running(),
                Err(e) => (r matches Err(m) && m@ == "failed to start proxy on 127.0.0.1:4000: "@ + e@)
                    && !final(self).is_running(),
            },
    {
        if self.running {
            return Ok(());
        }
        match bound {
            Ok(_) => {
                self.running = true;
                Ok(())
            },
            Err(e) => Err("failed to start proxy on 127.0.0.1:4000: ".to_owned().concat(e.as_str())),
        }
    }

    /// Stops the proxy. Returns whether it ran, that is whether its worker
    /// is to be told to shut down and joined.
    pub fn stop(&mut self) -> (r: bool)
        ensures
            r == old(self).is_running(),
            !final(self).is_running(),
    {
        let was = self.running;
        self.running = false;
        was
    }
}

/// The body of an answer.
#[derive(Debug)]
pub enum ResponseBody {
    /// No body.
    Empty,
    /// A text body, sent as `text/plain; charset=UTF-8`.
    Text(String),
    /// Bytes passed on unchanged.
    Data(Vec<u8>),
}

/// An answer to one request.
#[derive(Debug)]
pub struct ProxyResponse {
    pub status: u16,
    pub body: ResponseBody,
    /// The `Content-Type` to pass on, if any.
    pub content_type: Option<String>,
    /// Whether the CORS headers of [`cors_headers`] are added.
    pub cors: bool,
}

/// What to do with one request.
#[derive(Debug)]
pub enum ProxyRoute {
    /// Answer at once.
    Respond(ProxyResponse),
    /// Forward it to this address.
    Forward { target_url: String },
}

/// What the upstream server answered.
#[derive(Debug)]
pub struct Upstream {
    pub status: u16,
    pub content_type: Option<String>,
    pub body: Vec<u8>,
}

/// Whether the request path is under the proxy's prefix.
pub open spec fn proxied_path(url: Seq<char>) -> bool {
    url.len() >= 4 && url.subrange(0, 4) == "/vlc"@
}

/// The upstream path: the request path without its prefix, `/` when
/// nothing is left.
pub open spec fn target_path_spec(url: Seq<char>) -> Seq<char> {
    if url == "/vlc"@ {
        "/"@
    } else {
        url.subrange(4, url.len() as int)
    }
}

pub open spec fn not_found_text() -> Seq<char> {
    "Not Found. Use /vlc path for VLC proxy."@
}

/// Decides what to do with a request for `url`: paths outside the prefix
/// are not found, `OPTIONS` requests are answered for CORS, and the rest
/// is forwarded upstream.
pub fn route_request(url: &str, is_options: bool) -> (r: ProxyRoute)
    ensures
        !proxied_path(url@) ==> (r matches ProxyRoute::Respond(resp) && resp.status == 404
            && !resp.cors && resp.content_type is None && (resp.body matches ResponseBody::Text(t)
            && t@ == not_found_text())),
        proxied_path(url@) && is_options ==> (r matches ProxyRoute::Respond(resp) && resp.status == 200
            && resp.cors && resp.content_type is None && resp.body is Empty),
        proxied_path(url@) && !is_options ==> (r matches ProxyRoute::Forward { target_url }
            && target_url@ == "http://127.0.0.1:3999"@ + target_path_spec(url@)),
{
    proof {
        reveal_strlit("/vlc");
    }
    let n = url.unicode_len();
    let mut under_prefix = n >= 4;
    if under_prefix {
        under_prefix = url.get_char(0) == '/' && url.get_char(1) == 'v' && url.get_char(2) == 'l'
            && url.get_char(3) == 'c';
        assert(under_prefix == proxied_path(url@)) by {
            if under_prefix {
                assert(url@.subrange(0, 4) =~= "/vlc"@);
            }
            if proxied_path(url@) {
                assert(url@.subrange(0, 4)[1] == url@[1]);
                assert(url@.subrange(0, 4)[2] == url@[2]);
                assert(url@.subrange(0, 4)[3] == url@[3]);
                assert(url@.subrange(0, 4)[0] == url@[0]);
            }
        }
    }
    if !under_prefix {
        return ProxyRoute::Respond(
            ProxyResponse {
                status: 404,
                body: ResponseBody::Text("Not Found. Use /vlc path for VLC proxy.".to_owned()),
                content_type: None,
                cors: false,
            },
        );
    }
    if is_options {
        return ProxyRoute::Respond(
            ProxyResponse { status: 200, body: ResponseBody::Empty, content_type: None, cors: true },
        );
    }
    let rest = url.substring_char(4, n);
    let target_url = if n == 4 {
        proof {
            assert(url@ =~= "/vlc"@);
        }
        "http://127.0.0.1:3999".to_owned().concat("/")
    } else {
        proof {
            assert(url@ != "/vlc"@);
        }
        "http://127.0.0.1:3999".to_owned().concat(rest)
    };
    ProxyRoute::Forward { target_url }
}

pub open spec fn proxy_error_text(err: Seq<char>) -> Seq<char> {
    "Proxy error: "@ + err
}

/// The answer to a forwarded request: what upstream answered, or a
/// `502` naming the error met forwarding it. Both carry the CORS headers.
pub fn forwarded_response(upstream: Result<Upstream, String>) -> (r: ProxyResponse)
    ensures
        r.cors,
        match upstream {
            Ok(up) => r.status == up.status && r.content_type == up.content_type && r.body
                == ResponseBody::Data(up.body),
            Err(e) => r.status == 502 && r.content_type is None && (r.body matches ResponseBody::Text(t)
                && t@ == proxy_error_text(e@)),
        },
{
    match upstream {
        Ok(up) => ProxyResponse {
            status: up.status,
            body: ResponseBody::Data(up.body),
            content_type: up.content_type,
            cors: true,
        },
        Err(e) => ProxyResponse {
            status: 502,
            body: ResponseBody::Text("Proxy error: ".to_owned().concat(e.as_str())),
            content_type: None,
            cors: true,
        },
    }
}

/// The CORS headers added to proxied answers, as name/value pairs.
pub open spec fn cors_headers_spec() -> Seq<(Seq<char>, Seq<char>)> {
    seq![
        ("Access-Control-Allow-Origin"@, "*"@),
        ("Access-Control-Allow-Methods"@, "GET, POST, OPTIONS"@),
        ("Access-Control-Allow-Headers"@, "Content-Type, Authorization"@),
    ]
}

/// The CORS headers added to proxied answers.
pub fn cors_headers() -> (r: Vec<(String, String)>)
    ensures
        r@.map_values(|h: (String, String)| (h.0@, h.1@)) == cors_headers_spec(),
{
    let mut headers: Vec<(String, String)> = Vec::new();
    headers.push(("Access-Control-Allow-Origin".to_owned(), "*".to_owned()));
    headers.push(("Access-Control-Allow-Methods".to_owned(), "GET, POST, OPTIONS".to_owned()));
    headers.push(("Access-Control-Allow-Headers".to_owned(), "Content-Type, Authorization".to_owned()));
    assert(headers@.map_values(|h: (String, String)| (h.0@, h.1@)) =~= cors_headers_spec());
    headers
}

} // verus!

verus! {

/// Every forwarded request goes to the upstream origin, at the request's
/// path without the proxy prefix.
pub proof fn law_forward_target(url: Seq<char>)
    requires
        proxied_path(url),
    ensures
        ("http://127.0.0.1:3999"@ + target_path_spec(url)).subrange(0, 21) == "http://127.0.0.1:3999"@,
        url != "/vlc"@ ==> "/vlc"@ + target_path_spec(url) == url,
{
    reveal_strlit("http://127.0.0.1:3999");
    reveal_strlit("/vlc");
    assert(("http://127.0.0.1:3999"@ + target_path_spec(url)).subrange(0, 21) =~= "http://127.0.0.1:3999"@);
    if url != "/vlc"@ {
        assert("/vlc"@ + target_path_spec(url) =~= url);
    }
}

} // verus!
