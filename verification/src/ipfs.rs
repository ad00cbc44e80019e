//! Configuration for the remote content-addressed service: the API and
//! gateway endpoints, the fixed hashing options used on upload, and the read
//! path's request-URL construction.
//!
//! Everything here works on plain values. The one place the `url` crate is
//! consulted — splitting an endpoint text into its parts — sits behind a
//! single trusted wrapper; the decisions taken on those parts (default port,
//! credential selection) are verified.

use vstd::prelude::*;
use vstd::string::StringSliceAdditionalSpecFns;

use crate::content_id::ContentId;

verus! {

/// A connection to an IPFS remote: an API endpoint and a gateway endpoint,
/// each an absolute URL, the former carrying credentials if the service
/// needs them.
pub struct IpfsRemote {
    /// Url pointing to an IPFS api.
    pub api_url: String,
    /// Url pointing to an IPFS gateway.
    pub gateway_url: String,
}

impl Default for IpfsRemote {
    /// The stock local-daemon configuration.
    fn default() -> (r: Self)
        ensures
            r.api_url@ == "http://127.0.0.1:5001"@,
            r.gateway_url@ == "http://127.0.0.1:8080"@,
    {
        IpfsRemote {
            api_url: "http://127.0.0.1:5001".to_owned(),
            gateway_url: "http://127.0.0.1:8080".to_owned(),
        }
    }
}

impl Clone for IpfsRemote {
    fn clone(&self) -> (r: Self)
        ensures
            r.api_url@ == self.api_url@,
            r.gateway_url@ == self.gateway_url@,
    {
        IpfsRemote { api_url: self.api_url.clone(), gateway_url: self.gateway_url.clone() }
    }
}

/// A wrapper around a gateway url.
pub struct IpfsGateway(pub String);

impl Default for IpfsGateway {
    fn default() -> (r: Self)
        ensures
            r.0@ == "http://127.0.0.1:8080"@,
    {
        IpfsGateway("http://127.0.0.1:8080".to_owned())
    }
}

impl From<IpfsRemote> for IpfsGateway {
    fn from(remote: IpfsRemote) -> (r: Self) {
        IpfsGateway(remote.gateway_url.clone())
    }
}

impl vstd::std_specs::convert::FromSpecImpl<IpfsRemote> for IpfsGateway {
    open spec fn obeys_from_spec() -> bool {
        true
    }

    open spec fn from_spec(t: IpfsRemote) -> Self {
        IpfsGateway(t.gateway_url)
    }
}

/// Decimal digit text of a number.
pub open spec fn decimal_digits(n: nat) -> Seq<u8>
    decreases n,
{
    if n < 10 {
        seq![(48 + n) as u8]
    } else {
        decimal_digits(n / 10) + seq![(48 + n % 10) as u8]
    }
}

/// Append the decimal text of `n`.
fn push_decimal(out: &mut Vec<u8>, n: u16)
    ensures
        final(out)@ == old(out)@ + decimal_digits(n as nat),
    decreases n,
{
    if n < 10 {
        out.push((48 + n) as u8);
        proof {
            assert(out@ =~= old(out)@ + decimal_digits(n as nat));
        }
    } else {
        push_decimal(out, n / 10);
        out.push((48 + n % 10) as u8);
        proof {
            assert(out@ =~= old(out)@ + decimal_digits(n as nat));
        }
    }
}

/// The bytes of the URL the gateway resolves a block from, under subdomain
/// addressing: the gateway's scheme in front, the content identifier as a
/// subdomain of the gateway host, the gateway's explicit port if it names
/// one, and an optional sub-path for structured content.
pub open spec fn gateway_request_url(
    cid: Seq<u8>,
    scheme: Seq<char>,
    host: Seq<char>,
    port: Option<u16>,
    path: Option<Seq<u8>>,
) -> Seq<u8> {
    let head = vstd::utf8::encode_utf8(scheme) + "://".spec_bytes() + cid + ".ipfs.".spec_bytes()
        + vstd::utf8::encode_utf8(host);
    let with_port = match port {
        None => head,
        Some(p) => head + ":".spec_bytes() + decimal_digits(p as nat),
    };
    match path {
        None => with_port,
        Some(pb) => with_port + "/".spec_bytes() + pb,
    }
}

impl IpfsGateway {
    /// Build the request URL for fetching `cid` (optionally a sub-path of
    /// it) through this gateway. Fails exactly when the gateway URL is not
    /// a usable absolute URL naming a host.
    pub fn request_url(&self, cid: &ContentId, path: Option<&Vec<u8>>) -> (r: Result<
        Vec<u8>,
        IpfsError,
    >)
        ensures
            !url_text_ok(self.0@) ==> r == Err::<Vec<u8>, IpfsError>(IpfsError::Url),
            url_text_ok(self.0@) && url_host_of(self.0@) is None ==> r == Err::<
                Vec<u8>,
                IpfsError,
            >(IpfsError::Url),
            url_text_ok(self.0@) ==> (url_host_of(self.0@) matches Some(h) ==> (r matches Ok(v)
                && v@ == gateway_request_url(
                cid@,
                url_scheme_of(self.0@),
                h,
                url_port_of(self.0@),
                match path {
                    Some(p) => Some(p@),
                    None => None,
                },
            ))),
    {
        let parts = match parse_url_text(self.0.as_str()) {
            Some(p) => p,
            None => {
                return Err(IpfsError::Url);
            },
        };
        let host = match parts.host {
            Some(h) => h,
            None => {
                return Err(IpfsError::Url);
            },
        };
        let mut out: Vec<u8> = Vec::new();
        let scheme = text_bytes(parts.scheme.as_str());
        crate::manifest::push_bytes(&mut out, scheme.as_slice());
        let sep = text_bytes("://");
        crate::manifest::push_bytes(&mut out, sep.as_slice());
        crate::manifest::push_bytes(&mut out, cid.as_bytes().as_slice());
        let infix = text_bytes(".ipfs.");
        crate::manifest::push_bytes(&mut out, infix.as_slice());
        let host_bytes = text_bytes(host.as_str());
        crate::manifest::push_bytes(&mut out, host_bytes.as_slice());
        match parts.port {
            None => {},
            Some(p) => {
                let colon = text_bytes(":");
                crate::manifest::push_bytes(&mut out, colon.as_slice());
                push_decimal(&mut out, p);
            },
        }
        match path {
            None => {
                proof {
                    assert(out@ =~= gateway_request_url(
                        cid@,
                        url_scheme_of(self.0@),
                        host@,
                        url_port_of(self.0@),
                        None,
                    ));
                }
                Ok(out)
            },
            Some(pb) => {
                let slash = text_bytes("/");
                crate::manifest::push_bytes(&mut out, slash.as_slice());
                crate::manifest::push_bytes(&mut out, pb.as_slice());
                proof {
                    assert(out@ =~= gateway_request_url(
                        cid@,
                        url_scheme_of(self.0@),
                        host@,
                        url_port_of(self.0@),
                        Some(pb@),
                    ));
                }
                Ok(out)
            },
        }
    }
}

/// The options every content upload is made with: version-1 identifiers
/// over the fixed hash function, pinned so the remote keeps the object.
pub struct AddOptions {
    pub pin: bool,
    pub cid_version: u32,
    pub only_hash: bool,
    pub hash: String,
}

/// Options for hashing a file without storing it: the identifier is
/// computed under the same parameters as a real upload, nothing is kept.
pub fn hash_file_request() -> (r: AddOptions)
    ensures
        !r.pin,
        r.cid_version == 1,
        r.only_hash,
        r.hash@ == "blake3"@,
{
    AddOptions { pin: false, cid_version: 1, only_hash: true, hash: "blake3".to_owned() }
}

/// Options for a real upload: the object is stored and pinned against
/// garbage collection.
pub fn add_file_request() -> (r: AddOptions)
    ensures
        r.pin,
        r.cid_version == 1,
        !r.only_hash,
        r.hash@ == "blake3"@,
{
    AddOptions { pin: true, cid_version: 1, only_hash: false, hash: "blake3".to_owned() }
}

/// Failures while preparing a client for the remote endpoints.
#[derive(PartialEq, Eq, Structural, Debug)]
pub enum IpfsError {
    /// The endpoint text is not a usable absolute URL, or names no host.
    Url,
}

/// The parts of a parsed absolute URL that endpoint resolution reads.
pub struct UrlParts {
    pub scheme: String,
    pub username: String,
    pub password: Option<String>,
    pub host: Option<String>,
    pub port: Option<u16>,
}

/// Whether a text parses as an absolute URL.
pub uninterp spec fn url_text_ok(s: Seq<char>) -> bool;

/// The scheme of a parsed absolute URL.
pub uninterp spec fn url_scheme_of(s: Seq<char>) -> Seq<char>;

/// The user name embedded in a parsed absolute URL; empty when none.
pub uninterp spec fn url_username_of(s: Seq<char>) -> Seq<char>;

/// The password embedded in a parsed absolute URL, if any.
pub uninterp spec fn url_password_of(s: Seq<char>) -> Option<Seq<char>>;

/// The host of a parsed absolute URL, if it has one.
pub uninterp spec fn url_host_of(s: Seq<char>) -> Option<Seq<char>>;

/// The explicit port of a parsed absolute URL, if it names one.
pub uninterp spec fn url_port_of(s: Seq<char>) -> Option<u16>;

/// Relies on url::Url::parse to split an endpoint text into scheme, user
/// information, host and port; the parse and every accessor depend on the
/// text alone.
#[verifier::external_body]
fn parse_url_text(s: &str) -> (r: Option<UrlParts>)
    ensures
        r is Some <==> url_text_ok(s@),
        r matches Some(p) ==> ({
            &&& p.scheme@ == url_scheme_of(s@)
            &&& p.username@ == url_username_of(s@)
            &&& (match p.password {
                Some(pw) => Some(pw@),
                None => None::<Seq<char>>,
            }) == url_password_of(s@)
            &&& (match p.host {
                Some(h) => Some(h@),
                None => None::<Seq<char>>,
            }) == url_host_of(s@)
            &&& p.port == url_port_of(s@)
        }),
{
    match url::Url::parse(s) {
        Ok(u) => Some(UrlParts {
            scheme: u.scheme().to_string(),
            username: u.username().to_string(),
            password: u.password().map(|p| p.to_string()),
            host: u.host_str().map(|h| h.to_string()),
            port: u.port(),
        }),
        Err(_) => None,
    }
}

/// A resolved API endpoint: where the content-store client connects, and
/// with which credentials.
pub struct ApiEndpoint {
    pub scheme: String,
    pub host: String,
    pub port: u16,
    pub credentials: Option<(String, String)>,
}

/// The port the API listens on when the endpoint names none.
pub const DEFAULT_API_PORT: u16 = 5001;

/// Resolve parsed endpoint parts into a connectable API endpoint: a host is
/// required, the port falls back to the daemon default, and credentials are
/// taken exactly when the URL embeds a password.
pub fn resolve_endpoint(parts: UrlParts) -> (r: Result<ApiEndpoint, IpfsError>)
    ensures
        parts.host is None ==> r == Err::<ApiEndpoint, IpfsError>(IpfsError::Url),
        parts.host matches Some(h) ==> r matches Ok(e) && {
            &&& e.scheme == parts.scheme
            &&& e.host == h
            &&& e.port == (match parts.port {
                Some(p) => p,
                None => DEFAULT_API_PORT,
            })
            &&& e.credentials == (match parts.password {
                Some(pw) => Some((parts.username, pw)),
                None => None::<(String, String)>,
            })
        },
{
    let UrlParts { scheme, username, password, host, port } = parts;
    let host = match host {
        Some(h) => h,
        None => {
            return Err(IpfsError::Url);
        },
    };
    let port = match port {
        Some(p) => p,
        None => DEFAULT_API_PORT,
    };
    let credentials = match password {
        Some(pw) => Some((username, pw)),
        None => None,
    };
    Ok(ApiEndpoint { scheme, host, port, credentials })
}

/// The value of a resolved endpoint's credentials.
pub open spec fn credentials_view(c: Option<(String, String)>) -> Option<(Seq<char>, Seq<char>)> {
    match c {
        Some(p) => Some((p.0@, p.1@)),
        None => None,
    }
}

/// The credentials an endpoint text embeds: its user name together with its
/// password, exactly when it has a password.
pub open spec fn spec_credentials(
    username: Seq<char>,
    password: Option<Seq<char>>,
) -> Option<(Seq<char>, Seq<char>)> {
    match password {
        Some(pw) => Some((username, pw)),
        None => None,
    }
}

/// Resolve a remote's API URL into a connectable endpoint, as the
/// content-store client is built from it: its scheme and host, its port or
/// the daemon default, and its embedded credentials if it has a password.
pub fn api_endpoint(remote: &IpfsRemote) -> (r: Result<ApiEndpoint, IpfsError>)
    ensures
        !url_text_ok(remote.api_url@) ==> r == Err::<ApiEndpoint, IpfsError>(IpfsError::Url),
        url_text_ok(remote.api_url@) && url_host_of(remote.api_url@) is None ==> r == Err::<
            ApiEndpoint,
            IpfsError,
        >(IpfsError::Url),
        url_text_ok(remote.api_url@) ==> (url_host_of(remote.api_url@) matches Some(h) ==> (
        r matches Ok(e) && {
            &&& e.scheme@ == url_scheme_of(remote.api_url@)
            &&& e.host@ == h
            &&& e.port == (match url_port_of(remote.api_url@) {
                Some(p) => p,
                None => DEFAULT_API_PORT,
            })
            &&& credentials_view(e.credentials) == spec_credentials(
                url_username_of(remote.api_url@),
                url_password_of(remote.api_url@),
            )
        })),
        r matches Err(e) ==> e == IpfsError::Url,
{
    match parse_url_text(remote.api_url.as_str()) {
        None => Err(IpfsError::Url),
        Some(parts) => resolve_endpoint(parts),
    }
}

/// The bytes of a text, for assembling request URLs.
pub fn text_bytes(s: &str) -> (r: Vec<u8>)
    ensures
        r@ == s.spec_bytes(),
{
    vstd::slice::slice_to_vec(s.as_bytes())
}

} // verus!
