//! The subset of the AdGuard Home API that the relay uses: the client
//! configuration, the `check_host` request it sends and the answer it reads.

use vstd::prelude::*;

use crate::http::{
    builder_build, builder_timeout, client_builder, http_basic_auth, http_get, http_query, HttpClient,
    HttpGet,
};
use crate::text::{chars_of, concat, string_from_chars, trim_end_char, trim_end_matches};

verus! {

/// Timeout, in seconds, of every request to AdGuard Home.
pub const REQUEST_TIMEOUT_SECS: u64 = 5;

/// Individual matched rule entry returned by AdGuard Home when a rule fired.
pub struct AdguardMatchedRule {
    pub text: String,
    pub filter_list_id: u64,
}

/// Raw response payload returned by AdGuard Home's `check_host` endpoint.
pub struct AdguardCheckHostResponse {
    pub reason: String,
    pub rule: String,
    pub rules: Vec<AdguardMatchedRule>,
    pub service_name: String,
    pub cname: String,
    pub ip_addrs: Vec<String>,
}

/// Errors of an AdGuard lookup: the request could not be sent, the answer had
/// another status than 200, or its body could not be decoded.
#[derive(Debug)]
pub enum AdguardError {
    Transport(reqwest::Error),
    UnexpectedStatus { status: u16 },
    Decode(reqwest::Error),
}

/// Thin client for AdGuard Home's `check_host` endpoint.
pub struct AdguardClient {
    base_url: String,
    username: Option<String>,
    password: Option<String>,
    client: HttpClient,
}

/// The HTTP request that asks AdGuard Home for its decision on one name:
/// a GET of `url` with the query pair `name=<name>`, with basic
/// authentication when both credentials are configured.
pub struct CheckHostRequest {
    pub url: String,
    pub name: String,
    pub basic_auth: Option<(String, String)>,
}

/// The path of the filtering decision endpoint below the base URL.
pub open spec fn check_host_path() -> Seq<char> {
    "/control/filtering/check_host"@
}

impl AdguardClient {
    /// The base URL, without trailing slashes.
    pub closed spec fn base(self) -> Seq<char> {
        self.base_url@
    }

    /// The configured user name.
    pub closed spec fn user(self) -> Option<String> {
        self.username
    }

    /// The configured password.
    pub closed spec fn pass(self) -> Option<String> {
        self.password
    }

    /// The whole-request timeout of the HTTP client, in seconds.
    pub closed spec fn timeout(self) -> Option<u64> {
        self.client.timeout()
    }

    /// The credentials sent with each request: both or none.
    pub open spec fn credentials(self) -> Option<(String, String)> {
        match (self.user(), self.pass()) {
            (Some(u), Some(p)) => Some((u, p)),
            _ => None,
        }
    }

    /// Creates a new client that talks to the configured AdGuard base URL.
    /// Fails only when the HTTP client cannot be built on this machine.
    pub fn new(base_url: String, username: Option<String>, password: Option<String>) -> (r: Result<
        Self,
        reqwest::Error,
    >)
        ensures
            r matches Ok(c) ==> c.base() == trim_end_char(base_url@, '/') && c.user() == username
                && c.pass() == password && c.timeout() == Some(REQUEST_TIMEOUT_SECS),
    {
        let builder = builder_timeout(client_builder(), REQUEST_TIMEOUT_SECS);
        let client = match builder_build(builder) {
            Ok(c) => c,
            Err(e) => return Err(e),
        };
        let trimmed = string_from_chars(&trim_end_matches(&chars_of(base_url.as_str()), '/'));
        Ok(AdguardClient { base_url: trimmed, username, password, client })
    }

    /// The request that checks `domain` against AdGuard Home's filtering
    /// decision endpoint.
    pub fn check_host_request(&self, domain: &str) -> (r: CheckHostRequest)
        ensures
            r.url@ == self.base() + check_host_path(),
            r.name@ == domain@,
            r.basic_auth == self.credentials(),
    {
        let url = concat(self.base_url.as_str(), "/control/filtering/check_host");
        let basic_auth = match (&self.username, &self.password) {
            (Some(u), Some(p)) => Some((u.clone(), p.clone())),
            _ => None,
        };
        CheckHostRequest { url, name: domain.to_owned(), basic_auth }
    }

    /// The HTTP request of [`AdguardClient::check_host_request`], built on
    /// this client: a GET of the endpoint URL with the one query pair
    /// `name=<domain>`, and one basic-auth header exactly when both
    /// credentials are configured. Sending it, and reading the answer, is
    /// left to the caller.
    pub fn check_host_builder(&self, domain: &str) -> (r: HttpGet)
        ensures
            r.target() == self.base() + check_host_path(),
            r.query() == seq![("name"@, domain@)],
            r.basic_auth() == (match self.credentials() {
                Some((u, p)) => seq![(u@, p@)],
                None => Seq::<(Seq<char>, Seq<char>)>::empty(),
            }),
    {
        let request = self.check_host_request(domain);
        let call = http_get(&self.client, request.url.as_str());
        let call = http_query(call, "name", request.name.as_str());
        match &request.basic_auth {
            Some((username, password)) => http_basic_auth(
                call,
                username.as_str(),
                password.as_str(),
            ),
            None => call,
        }
    }
}

/// Accepts only a 200 answer; any other status is an error that carries it.
pub fn check_host_status(status: u16) -> (r: Result<(), AdguardError>)
    ensures
        status == 200 ==> r is Ok,
        status != 200 ==> (r matches Err(AdguardError::UnexpectedStatus { status: s }) && s
            == status),
{
    if status == 200 {
        Ok(())
    } else {
        Err(AdguardError::UnexpectedStatus { status })
    }
}

} // verus!
