//! Origins, and requests in the form that an origin is asked in.

use vstd::prelude::*;
use vstd::utf8::encode_utf8;

use crate::text::{decimal, decimal_text, same_text};
use crate::uri::{Uri, UriView};

verus! {

/// The version that a request asks for.
#[derive(Clone, Copy, Debug, PartialEq, Eq, Structural)]
pub enum HttpVersion {
    Http09,
    Http10,
    Http11,
    Http2,
    Http3,
}

/// The part of a request head that routing and normalization read.
#[derive(Debug)]
pub struct RequestHead {
    /// Whether the method is `CONNECT`.
    pub is_connect: bool,
    pub version: HttpVersion,
    pub uri: Uri,
    /// The value of the `Host` header, where the request has one.
    pub host: Option<Vec<u8>>,
}

/// What a [`RequestHead`] stands for.
pub ghost struct HeadView {
    pub is_connect: bool,
    pub version: HttpVersion,
    pub uri: UriView,
    pub host: Option<Seq<u8>>,
}

impl View for RequestHead {
    type V = HeadView;

    open spec fn view(&self) -> HeadView {
        HeadView {
            is_connect: self.is_connect,
            version: self.version,
            uri: self.uri@,
            host: match self.host {
                Some(host) => Some(host@),
                None => None,
            },
        }
    }
}

/// The origin that a connection belongs to. Connections are pooled by it and by
/// nothing else.
#[derive(Debug)]
pub struct PoolKey {
    scheme: String,
    authority: String,
    host: String,
    port: Option<u16>,
}

/// What a [`PoolKey`] stands for.
pub ghost struct OriginView {
    pub scheme: Seq<char>,
    pub authority: Seq<char>,
    pub host: Seq<char>,
    pub port: Option<u16>,
}

impl View for PoolKey {
    type V = OriginView;

    closed spec fn view(&self) -> OriginView {
        OriginView {
            scheme: self.scheme@,
            authority: self.authority@,
            host: self.host@,
            port: self.port,
        }
    }
}

/// Why a request target cannot be routed.
#[derive(Clone, Copy, Debug, PartialEq, Eq, Structural)]
pub enum NormalizeError {
    AbsoluteUriRequired,
}

impl OriginView {
    /// The origin as it is written in diagnostics.
    pub open spec fn text(self) -> Seq<char> {
        self.scheme + "://"@ + self.authority
    }

    /// The root of the origin.
    pub open spec fn root(self) -> UriView {
        UriView {
            scheme: Some(self.scheme),
            authority: Some(self.authority),
            host: Some(self.host),
            port: self.port,
            path_and_query: Some("/"@),
        }
    }
}

/// The scheme under which a bare `CONNECT` authority is routed.
pub open spec fn tunnel_scheme(port: Option<u16>) -> Seq<char> {
    if port == Some(443u16) {
        "https"@
    } else {
        "http"@
    }
}

/// `uri` made absolute, where that is possible: a bare authority is enough for
/// `CONNECT`, and for nothing else.
pub open spec fn absolute_target(uri: UriView, is_connect: bool) -> Option<UriView> {
    if uri.scheme is Some && uri.authority is Some {
        Some(uri)
    } else if uri.authority is Some && is_connect {
        Some(
            UriView {
                scheme: Some(tunnel_scheme(uri.port)),
                path_and_query: Some("/"@),
                ..uri
            },
        )
    } else {
        None
    }
}

/// The origin of an absolute URI.
pub open spec fn origin_of(uri: UriView) -> OriginView
    recommends
        uri.wf(),
        uri.scheme is Some,
{
    OriginView {
        scheme: uri.scheme->0,
        authority: uri.authority->0,
        host: uri.host->0,
        port: uri.port,
    }
}

/// The port that `Host` names: none where the authority has none, or where the
/// scheme implies it.
pub open spec fn explicit_port(uri: UriView) -> Option<u16> {
    let secure = uri.scheme == Some("https"@);
    match uri.port {
        Some(port) => if port == (if secure {
            443u16
        } else {
            80u16
        }) {
            None
        } else {
            Some(port)
        },
        None => None,
    }
}

/// The `Host` value for an absolute URI.
pub open spec fn host_value(uri: UriView) -> Seq<char>
    recommends
        uri.host is Some,
{
    match explicit_port(uri) {
        Some(port) => uri.host->0 + ":"@ + decimal(port as nat),
        None => uri.host->0,
    }
}

/// A request as an HTTP/1 origin is asked: in origin form, or in authority form
/// for `CONNECT`, with a `Host` header unless the client was told to add none.
pub open spec fn http1_request(head: HeadView, set_host: bool) -> HeadView {
    HeadView {
        host: if set_host && head.host is None {
            Some(encode_utf8(host_value(head.uri)))
        } else {
            head.host
        },
        uri: if head.is_connect {
            head.uri.authority_form()
        } else {
            head.uri.origin_form()
        },
        ..head
    }
}

/// Finds the origin of a request target. A bare authority of a `CONNECT` request
/// is made absolute on the way.
pub fn extract_pool_key(uri: &mut Uri, is_connect: bool) -> (key: Result<PoolKey, NormalizeError>)
    ensures
        match absolute_target(old(uri)@, is_connect) {
            Some(target) => {
                &&& final(uri)@ == target
                &&& key matches Ok(key) && key@ == origin_of(target)
            },
            None => {
                &&& final(uri)@ == old(uri)@
                &&& key == Err::<PoolKey, _>(NormalizeError::AbsoluteUriRequired)
            },
        },
{
    proof {
        use_type_invariant(&*uri);
    }
    let authority = match uri.authority() {
        Some(authority) => authority.to_owned(),
        None => {
            return Err(NormalizeError::AbsoluteUriRequired);
        },
    };
    let host = match uri.host() {
        Some(host) => host.to_owned(),
        None => {
            return Err(NormalizeError::AbsoluteUriRequired);
        },
    };
    let port = uri.port();
    let scheme = match uri.scheme() {
        Some(scheme) => scheme.to_owned(),
        None => {
            if !is_connect {
                return Err(NormalizeError::AbsoluteUriRequired);
            }
            let tunnel: &'static str = match port {
                Some(443) => "https",
                _ => "http",
            };
            *uri = uri.with_scheme(tunnel.to_owned());
            tunnel.to_owned()
        },
    };
    Ok(PoolKey { scheme, authority, host, port })
}

/// The origin as it is written in diagnostics.
pub fn pool_key_origin(key: &PoolKey) -> (origin: String)
    ensures
        origin@ == key@.text(),
{
    let mut origin = key.scheme.clone();
    origin.append("://");
    origin.append(key.authority.as_str());
    origin
}

/// The root of the origin, which a connection is opened for.
pub fn pool_key_uri(key: PoolKey) -> (uri: Uri)
    ensures
        uri@ == key@.root(),
        uri@.wf(),
{
    Uri::absolute(key.scheme, key.authority, key.host, key.port, "/".to_owned())
}

impl PoolKey {
    /// Copies the key.
    pub fn duplicate(&self) -> (key: Self)
        ensures
            key@ == self@,
    {
        PoolKey {
            scheme: self.scheme.clone(),
            authority: self.authority.clone(),
            host: self.host.clone(),
            port: self.port,
        }
    }

    /// The scheme of the origin.
    pub fn scheme(&self) -> (scheme: &str)
        ensures
            scheme@ == self@.scheme,
    {
        self.scheme.as_str()
    }

    /// The authority of the origin, as the request wrote it.
    pub fn authority(&self) -> (authority: &str)
        ensures
            authority@ == self@.authority,
    {
        self.authority.as_str()
    }

    /// Whether connections to the origin run over TLS.
    pub fn is_https(&self) -> (secure: bool)
        ensures
            secure == (self@.scheme == "https"@),
    {
        same_text(self.scheme.as_str(), "https")
    }
}

/// The `Host` value for an absolute URI.
fn host_header(uri: &Uri) -> (value: Vec<u8>)
    requires
        uri@.host is Some,
    ensures
        value@ == encode_utf8(host_value(uri@)),
{
    let secure = match uri.scheme() {
        Some(scheme) => same_text(scheme, "https"),
        None => false,
    };
    let implied: u16 = if secure {
        443
    } else {
        80
    };
    let mut value = match uri.host() {
        Some(host) => host.to_owned(),
        None => String::new(),
    };
    if let Some(port) = uri.port() {
        if port != implied {
            value.append(":");
            value.append(decimal_text(port as u128).as_str());
        }
    }
    assert(value@ =~= host_value(uri@));
    value.as_str().as_bytes_vec()
}

/// Puts a request into the form that an HTTP/1 origin is asked in.
pub fn normalize_h1_request(head: &mut RequestHead, set_host: bool)
    requires
        old(head)@.uri.host is Some,
    ensures
        final(head)@ == http1_request(old(head)@, set_host),
{
    proof {
        use_type_invariant(&head.uri);
    }
    if set_host && head.host.is_none() {
        head.host = Some(host_header(&head.uri));
    }
    if head.is_connect {
        head.uri = head.uri.authority_form();
    } else {
        head.uri = head.uri.origin_form();
    }
}

/// An origin is its own normal form: the root of an origin is routed to that
/// origin, whatever the method.
pub proof fn root_is_routed_to_its_origin(origin: OriginView, is_connect: bool)
    ensures
        origin.root().wf(),
        absolute_target(origin.root(), is_connect) == Some(origin.root()),
        origin_of(origin.root()) == origin,
{
}

/// Making a target absolute is done once: an absolute target is left alone, and
/// so keeps its origin when a request is sent again.
pub proof fn absolute_target_is_stable(uri: UriView, is_connect: bool)
    requires
        uri.wf(),
        absolute_target(uri, is_connect) is Some,
    ensures
        absolute_target(absolute_target(uri, is_connect)->0, is_connect) == absolute_target(
            uri,
            is_connect,
        ),
        (absolute_target(uri, is_connect)->0).wf(),
        (absolute_target(uri, is_connect)->0).scheme is Some,
        (absolute_target(uri, is_connect)->0).host is Some,
{
}

/// A request that names its own `Host` keeps it.
pub proof fn explicit_host_is_kept(head: HeadView, set_host: bool)
    requires
        head.host is Some,
    ensures
        http1_request(head, set_host).host == head.host,
{
}

/// On the wire a request other than `CONNECT` shows its path and query alone,
/// and a `CONNECT` request shows its authority alone.
pub proof fn http1_target_on_the_wire(head: HeadView, set_host: bool)
    requires
        head.uri.wf(),
        head.uri.scheme is Some,
    ensures
        http1_request(head, set_host).uri.text() == (if head.is_connect {
            head.uri.authority->0
        } else {
            head.uri.path_and_query->0
        }),
{
    let sent = http1_request(head, set_host).uri;
    if head.is_connect {
        assert(sent.text() =~= head.uri.authority->0);
    } else {
        assert(sent.text() =~= head.uri.path_and_query->0);
    }
}

/// A target is routed exactly where it has an authority, and a scheme unless the
/// method is `CONNECT`. It keeps its authority; a scheme that it has, and its path,
/// stay as they are, and one that it has not is the one that the port speaks for,
/// with the root as its path. The key is made of the target's scheme, authority, host
/// and port, and of nothing else.
pub proof fn targets_are_routed_to_their_authority(
    uri: &mut Uri,
    is_connect: bool,
    key: Result<PoolKey, NormalizeError>,
)
    requires
        old(uri)@.wf(),
        call_ensures(extract_pool_key, (uri, is_connect), key),
    ensures
        key is Ok <==> old(uri)@.authority is Some && (old(uri)@.scheme is Some || is_connect),
        key is Err ==> final(uri)@ == old(uri)@,
        key matches Ok(key) ==> {
            &&& final(uri)@.authority == old(uri)@.authority
            &&& final(uri)@.host == old(uri)@.host
            &&& final(uri)@.port == old(uri)@.port
            &&& old(uri)@.scheme is Some ==> final(uri)@.scheme == old(uri)@.scheme
                && final(uri)@.path_and_query == old(uri)@.path_and_query
            &&& old(uri)@.scheme is None ==> {
                &&& final(uri)@.path_and_query == Some("/"@)
                &&& final(uri)@.scheme == Some(
                    if old(uri)@.port == Some(443u16) {
                        "https"@
                    } else {
                        "http"@
                    },
                )
            }
            &&& Some(key@.scheme) == final(uri)@.scheme
            &&& Some(key@.authority) == final(uri)@.authority
            &&& Some(key@.host) == final(uri)@.host
            &&& key@.port == final(uri)@.port
        },
{
}

/// Normalization touches the target and a missing `Host`, and nothing else. The
/// target is cut down to the authority for `CONNECT` and to the path otherwise. `Host`
/// is added exactly where there is none and the client adds one: it is the host of the
/// target, with its port unless the scheme implies that port.
pub proof fn http1_requests_are_cut_down(head: &mut RequestHead, set_host: bool)
    requires
        old(head)@.uri.wf(),
        old(head)@.uri.scheme is Some,
        call_ensures(normalize_h1_request, (head, set_host), ()),
    ensures
        final(head)@.is_connect == old(head)@.is_connect,
        final(head)@.version == old(head)@.version,
        final(head)@.uri.scheme is None,
        final(head)@.is_connect ==> {
            &&& final(head)@.uri.path_and_query is None
            &&& final(head)@.uri.authority == old(head)@.uri.authority
            &&& final(head)@.uri.host == old(head)@.uri.host
            &&& final(head)@.uri.port == old(head)@.uri.port
        },
        !final(head)@.is_connect ==> {
            &&& final(head)@.uri.authority is None
            &&& final(head)@.uri.host is None
            &&& final(head)@.uri.port is None
            &&& final(head)@.uri.path_and_query == old(head)@.uri.path_and_query
        },
        old(head)@.host is Some || !set_host ==> final(head)@.host == old(head)@.host,
        old(head)@.host is None && set_host ==> {
            let host = old(head)@.uri.host->0;
            let implied: u16 = if old(head)@.uri.scheme == Some("https"@) {
                443
            } else {
                80
            };
            final(head)@.host == Some(
                match old(head)@.uri.port {
                    Some(port) => if port == implied {
                        encode_utf8(host)
                    } else {
                        encode_utf8(host + ":"@ + decimal(port as nat))
                    },
                    None => encode_utf8(host),
                },
            )
        },
{
}

/// An origin is written as its scheme and its authority, and its root has its
/// components with the root path. Copies and getters tell the same.
pub proof fn origins_are_made_of_their_parts(
    key: PoolKey,
    text: String,
    root: Uri,
    copy: PoolKey,
    secure: bool,
)
    requires
        call_ensures(pool_key_origin, (&key,), text),
        call_ensures(pool_key_uri, (key,), root),
        call_ensures(PoolKey::duplicate, (&key,), copy),
        call_ensures(PoolKey::is_https, (&key,), secure),
    ensures
        text@ == key@.scheme + "://"@ + key@.authority,
        root@.scheme == Some(key@.scheme),
        root@.authority == Some(key@.authority),
        root@.host == Some(key@.host),
        root@.port == key@.port,
        root@.path_and_query == Some("/"@),
        copy@ == key@,
        secure <==> key@.scheme == "https"@,
{
}

} // verus!
