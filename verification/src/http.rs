//! The HTTP client and the outgoing requests of the relay, as reqwest builds
//! them. Each value carries, as ghost state, what was put into it; only the
//! functions of this module make or change such a value, and each says what
//! it adds.

use vstd::prelude::*;

verus! {

#[verifier::external_type_specification]
#[verifier::external_body]
pub struct ExClient(reqwest::Client);

#[verifier::external_type_specification]
#[verifier::external_body]
pub struct ExClientBuilder(reqwest::ClientBuilder);

#[verifier::external_type_specification]
#[verifier::external_body]
pub struct ExError(reqwest::Error);

#[verifier::external_type_specification]
#[verifier::external_body]
pub struct ExRequestBuilder(reqwest::RequestBuilder);

/// A client configuration, with the whole-request timeout it was given.
pub struct HttpClientBuilder {
    builder: reqwest::ClientBuilder,
    timeout_secs: Ghost<Option<u64>>,
}

/// An HTTP client, with the whole-request timeout it was built with.
pub struct HttpClient {
    client: reqwest::Client,
    timeout_secs: Ghost<Option<u64>>,
}

/// A GET request being built: the target it was started with, the query
/// pairs appended to it, and the basic-auth credentials added to it, each
/// in the order in which they were added.
pub struct HttpGet {
    builder: reqwest::RequestBuilder,
    target: Ghost<Seq<char>>,
    query: Ghost<Seq<(Seq<char>, Seq<char>)>>,
    basic_auth: Ghost<Seq<(Seq<char>, Seq<char>)>>,
}

impl HttpClientBuilder {
    /// The whole-request timeout, in seconds; `None` for no timeout.
    pub closed spec fn timeout(self) -> Option<u64> {
        self.timeout_secs@
    }
}

impl HttpClient {
    /// The whole-request timeout, in seconds; `None` for no timeout.
    pub closed spec fn timeout(self) -> Option<u64> {
        self.timeout_secs@
    }
}

impl HttpGet {
    /// The URL text the request was started with.
    pub closed spec fn target(self) -> Seq<char> {
        self.target@
    }

    /// The query pairs appended to the request's URL, in order.
    pub closed spec fn query(self) -> Seq<(Seq<char>, Seq<char>)> {
        self.query@
    }

    /// The (user name, password) pairs sent as `Authorization: Basic`
    /// headers, in order.
    pub closed spec fn basic_auth(self) -> Seq<(Seq<char>, Seq<char>)> {
        self.basic_auth@
    }

    /// The reqwest builder, ready to send.
    pub fn into_builder(self) -> reqwest::RequestBuilder {
        self.builder
    }
}

/// Calls `reqwest::Client::builder`: a configuration with the crate's
/// defaults, among them no whole-request timeout.
#[verifier::external_body]
pub(crate) fn client_builder() -> (b: HttpClientBuilder)
    ensures
        b.timeout() is None,
{
    HttpClientBuilder { builder: reqwest::Client::builder(), timeout_secs: Ghost(None) }
}

/// Calls `reqwest::ClientBuilder::timeout` with a duration of `secs` whole
/// seconds: it sets the whole-request timeout and keeps the rest.
#[verifier::external_body]
pub(crate) fn builder_timeout(b: HttpClientBuilder, secs: u64) -> (r: HttpClientBuilder)
    ensures
        r.timeout() == Some(secs),
{
    HttpClientBuilder {
        builder: b.builder.timeout(std::time::Duration::from_secs(secs)),
        timeout_secs: Ghost(Some(secs)),
    }
}

/// Calls `reqwest::ClientBuilder::build`. It fails when a TLS backend or the
/// system resolver configuration cannot be loaded, which depends on the
/// machine, so when it succeeds is not stated; a client it builds has the
/// configured timeout.
#[verifier::external_body]
pub(crate) fn builder_build(b: HttpClientBuilder) -> (r: Result<HttpClient, reqwest::Error>)
    ensures
        r matches Ok(c) ==> c.timeout() == b.timeout(),
{
    match b.builder.build() {
        Ok(client) => Ok(HttpClient { client, timeout_secs: Ghost(b.timeout_secs@) }),
        Err(e) => Err(e),
    }
}

/// Calls `reqwest::Client::get`: starts a GET request to `url`, with no
/// query pairs and no credentials added yet. A URL that does not parse is
/// kept in the builder as an error, which sending reports.
#[verifier::external_body]
pub(crate) fn http_get(client: &HttpClient, url: &str) -> (r: HttpGet)
    ensures
        r.target() == url@,
        r.query() == Seq::<(Seq<char>, Seq<char>)>::empty(),
        r.basic_auth() == Seq::<(Seq<char>, Seq<char>)>::empty(),
{
    HttpGet {
        builder: client.client.get(url),
        target: Ghost(url@),
        query: Ghost(Seq::empty()),
        basic_auth: Ghost(Seq::empty()),
    }
}

/// Calls `reqwest::RequestBuilder::query` with the one pair `(key, value)`,
/// which is appended URL-encoded to the request's query string.
#[verifier::external_body]
pub(crate) fn http_query(req: HttpGet, key: &str, value: &str) -> (r: HttpGet)
    ensures
        r.target() == req.target(),
        r.query() == req.query().push((key@, value@)),
        r.basic_auth() == req.basic_auth(),
{
    HttpGet {
        builder: req.builder.query(&[(key, value)]),
        target: req.target,
        query: Ghost(req.query@.push((key@, value@))),
        basic_auth: req.basic_auth,
    }
}

/// Calls `reqwest::RequestBuilder::basic_auth` with a user name and a
/// password, which appends an `Authorization: Basic` header.
#[verifier::external_body]
pub(crate) fn http_basic_auth(req: HttpGet, username: &str, password: &str) -> (r: HttpGet)
    ensures
        r.target() == req.target(),
        r.query() == req.query(),
        r.basic_auth() == req.basic_auth().push((username@, password@)),
{
    HttpGet {
        builder: req.builder.basic_auth(username, Some(password)),
        target: req.target,
        query: req.query,
        basic_auth: Ghost(req.basic_auth@.push((username@, password@))),
    }
}

} // verus!
