use vstd::prelude::*;
use vstd::string::*;
use vstd::utf8::*;
use crate::error::ClientError;
use crate::path::{decoded, id_segment, inspect_path_spec, is_delimiter, lemma_encoded_has_no_delimiter, lemma_segment_round_trip};

verus! {

/// Host used when the configuration names none: the engine's local socket.
pub const DEFAULT_HOST: &'static str = "unix:///var/run/docker.sock";

/// hyper's parsed URI, carried through opaque.
#[verifier::external_type_specification]
#[verifier::external_body]
pub struct ExUri(hyper::Uri);

/// hyper's URI parse failure, carried through opaque.
#[verifier::external_type_specification]
#[verifier::external_body]
pub struct ExUriError(hyper::error::UriError);

/// Scheme prefix that selects a Unix domain socket.
pub const UNIX_SCHEME: &'static str = "unix://";

/// One of the three ways of reaching the engine, fixed once resolved.
#[derive(Debug)]
pub enum ConnectionTarget {
    /// A Unix domain socket at a filesystem path.
    UnixSocket { path: String },
    /// Plain TCP; `host` is the base address (`tcp://<host>:<port>`).
    Tcp { host: String },
    /// Mutually authenticated TLS, with `cert.pem`, `key.pem` and `ca.pem`
    /// under `cert_dir`.
    Tls { host: String, cert_dir: String },
}

/// A target as mathematical values.
pub enum TargetView {
    UnixSocket(Seq<char>),
    Tcp(Seq<char>),
    Tls(Seq<char>, Seq<char>),
}

impl View for ConnectionTarget {
    type V = TargetView;

    open spec fn view(&self) -> TargetView {
        match self {
            ConnectionTarget::UnixSocket { path } => TargetView::UnixSocket(path@),
            ConnectionTarget::Tcp { host } => TargetView::Tcp(host@),
            ConnectionTarget::Tls { host, cert_dir } => TargetView::Tls(host@, cert_dir@),
        }
    }
}

/// `s` begins with `p`.
pub open spec fn starts_with(s: Seq<char>, p: Seq<char>) -> bool {
    p.len() <= s.len() && s.subrange(0, p.len() as int) == p
}

/// The target that a host string and an optional certificate directory
/// select.
pub open spec fn resolved(host: Seq<char>, cert_dir: Option<Seq<char>>) -> TargetView {
    if starts_with(host, UNIX_SCHEME@) {
        TargetView::UnixSocket(host.subrange(UNIX_SCHEME@.len() as int, host.len() as int))
    } else {
        match cert_dir {
            Some(d) => TargetView::Tls(host, d),
            None => TargetView::Tcp(host),
        }
    }
}

/// The view of an optional string.
pub open spec fn opt_view(s: Option<&str>) -> Option<Seq<char>> {
    match s {
        Some(x) => Some(x@),
        None => None,
    }
}

/// Relies on std's `str::strip_prefix`: the rest of `s` after `p`, present
/// exactly when `s` starts with `p`.
#[verifier::external_body]
fn strip_prefix<'a>(s: &'a str, p: &str) -> (r: Option<&'a str>)
    ensures
        r is Some <==> starts_with(s@, p@),
        r is Some ==> r->0@ == s@.subrange(p@.len() as int, s@.len() as int),
{
    s.strip_prefix(p)
}

/// Whether hyper's parser accepts a text as a URI.
pub uninterp spec fn uri_parses(s: Seq<char>) -> bool;

/// The URI that hyper's parser makes of a text it accepts.
pub uninterp spec fn parsed_uri(s: Seq<char>) -> hyper::Uri;

/// Relies on hyper's `Uri` parser (`FromStr`): whether it accepts the text,
/// and the URI it makes of it, depend on the text alone.
#[verifier::external_body]
fn parse_uri(s: &str) -> (r: Result<hyper::Uri, hyper::error::UriError>)
    ensures
        r is Ok <==> uri_parses(s@),
        r is Ok ==> r->Ok_0 == parsed_uri(s@),
{
    s.parse()
}

/// The URI that hyperlocal makes of a socket path and a request path.
pub uninterp spec fn socket_uri(socket: Seq<char>, path: Seq<char>) -> hyper::Uri;

/// Relies on hyperlocal's `Uri::new` and its conversion into hyper's `Uri`:
/// the socket path travels hex-encoded in the authority and the request path
/// follows unchanged. The conversion unwraps hyper's parser, which accepts
/// every such text whose request path starts with `/`.
#[verifier::external_body]
fn unix_uri(socket: &str, path: &str) -> (r: hyper::Uri)
    requires
        starts_with(path@, "/"@),
    ensures
        r == socket_uri(socket@, path@),
{
    hyperlocal::Uri::new(socket, path).into()
}

/// Text handed to the URI parser for a request path: the base address
/// followed by the path over TCP and TLS; the path alone over a socket,
/// whose own address travels beside it.
pub open spec fn target_text(t: TargetView, path: Seq<char>) -> Seq<char> {
    match t {
        TargetView::UnixSocket(_) => path,
        TargetView::Tcp(host) => host + path,
        TargetView::Tls(host, _) => host + path,
    }
}

/// The URI of a request path on a target, when `uri` succeeds: hyperlocal's
/// URI of the socket and the path, or hyper's parse of the base address
/// followed by the path.
pub open spec fn uri_of(t: TargetView, path: Seq<char>) -> hyper::Uri {
    match t {
        TargetView::UnixSocket(socket) => socket_uri(socket, path),
        _ => parsed_uri(target_text(t, path)),
    }
}

/// Whether `uri` succeeds for a request path.
pub open spec fn uri_ok(t: TargetView, path: Seq<char>) -> bool {
    match t {
        TargetView::UnixSocket(_) => starts_with(path, "/"@),
        _ => uri_parses(target_text(t, path)),
    }
}

/// What precedes the request path in the text handed to the URI parser.
pub open spec fn target_base(t: TargetView) -> Seq<char> {
    match t {
        TargetView::UnixSocket(_) => Seq::empty(),
        TargetView::Tcp(host) => host,
        TargetView::Tls(host, _) => host,
    }
}

/// On every kind of target, the inspect request for `id` carries the
/// identifier as one segment that holds no delimiter and that a server
/// decodes back to the identifier's exact bytes.
pub proof fn lemma_inspect_target_round_trip(t: TargetView, id: Seq<char>)
    ensures
        target_text(t, inspect_path_spec(id)) == target_base(t) + ("/containers/"@ + id_segment(id)
            + "/json"@),
        decoded(id_segment(id)) == encode_utf8(id),
        forall|i: int|
            0 <= i < id_segment(id).len() ==> !is_delimiter(#[trigger] id_segment(id)[i]),
{
    lemma_segment_round_trip(encode_utf8(id));
    lemma_encoded_has_no_delimiter(encode_utf8(id));
    match t {
        TargetView::UnixSocket(_) => {
            assert(Seq::<char>::empty() + inspect_path_spec(id) =~= inspect_path_spec(id));
        },
        _ => {},
    }
}

/// The three certificate files of a TLS configuration.
pub struct CertFiles {
    pub cert: String,
    pub key: String,
    pub ca: String,
}

impl ConnectionTarget {
    /// Selects the connection mechanism: a `unix://` host names a socket
    /// path; any other host is a base address, reached over TLS when a
    /// certificate directory is given and over plain TCP otherwise. With no
    /// host the local engine socket is used.
    pub fn resolve(host: Option<&str>, cert_dir: Option<&str>) -> (r: ConnectionTarget)
        ensures
            host is Some ==> r@ == resolved(host->0@, opt_view(cert_dir)),
            host is None ==> r@ == resolved(DEFAULT_HOST@, opt_view(cert_dir)),
    {
        let h: &str = match host {
            Some(h) => h,
            None => DEFAULT_HOST,
        };
        match strip_prefix(h, UNIX_SCHEME) {
            Some(rest) => ConnectionTarget::UnixSocket { path: rest.to_owned() },
            None => match cert_dir {
                Some(d) => ConnectionTarget::Tls { host: h.to_owned(), cert_dir: d.to_owned() },
                None => ConnectionTarget::Tcp { host: h.to_owned() },
            },
        }
    }

    /// Paths of the client certificate, private key and authority bundle
    /// under a TLS target's directory; `None` for the other targets.
    pub fn cert_files(&self) -> (r: Option<CertFiles>)
        ensures
            match self@ {
                TargetView::Tls(_, d) => r is Some && r->0.cert@ == d + "/cert.pem"@
                    && r->0.key@ == d + "/key.pem"@ && r->0.ca@ == d + "/ca.pem"@,
                _ => r is None,
            },
    {
        match self {
            ConnectionTarget::Tls { cert_dir, .. } => {
                let mut cert = cert_dir.clone();
                cert.append("/cert.pem");
                let mut key = cert_dir.clone();
                key.append("/key.pem");
                let mut ca = cert_dir.clone();
                ca.append("/ca.pem");
                Some(CertFiles { cert, key, ca })
            },
            _ => None,
        }
    }

    fn parse_joined(host: &String, path: &str) -> (r: Result<hyper::Uri, ClientError>)
        ensures
            r is Ok <==> uri_parses(host@ + path@),
            r is Ok ==> r->Ok_0 == parsed_uri(host@ + path@),
            r is Err ==> r->Err_0 == ClientError::Uri,
    {
        let mut text = host.clone();
        text.append(path);
        match parse_uri(text.as_str()) {
            Ok(u) => Ok(u),
            Err(_) => Err(ClientError::Uri),
        }
    }

    /// The full URI of a request path on this target. Over TCP and TLS the
    /// base address and the path must parse together; over a socket the path
    /// must start with `/`. Otherwise `ClientError::Uri`.
    pub fn uri(&self, path: &str) -> (r: Result<hyper::Uri, ClientError>)
        ensures
            r is Ok <==> uri_ok(self@, path@),
            r is Ok ==> r->Ok_0 == uri_of(self@, path@),
            r is Err ==> r->Err_0 == ClientError::Uri,
    {
        match self {
            ConnectionTarget::UnixSocket { path: socket } => {
                match strip_prefix(path, "/") {
                    Some(_) => Ok(unix_uri(socket.as_str(), path)),
                    None => Err(ClientError::Uri),
                }
            },
            ConnectionTarget::Tcp { host } => Self::parse_joined(host, path),
            ConnectionTarget::Tls { host, .. } => Self::parse_joined(host, path),
        }
    }
}

} // verus!
