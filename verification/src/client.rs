//! The client: its configuration, the URLs of its endpoints and the
//! classification of the gateway's answers. Sending requests is left to the
//! caller's HTTP runtime.

use crate::error::Error;
use crate::text::{opt_str_view, opt_view};
use crate::urls::{
    join_url, joined_url, parse_url, parsed_url, pop_empty_segment, push_segment, segment_fits,
    url_popped_if_empty, url_pushed,
};
use reqwest::Client as HttpClient;
use reqwest::ClientBuilder as HttpClientBuilder;
use reqwest::Error as TransportError;
use std::time::Duration;
use vstd::prelude::*;

verus! {

/// The HTTP client of `reqwest`, carried opaquely.
#[verifier::external_type_specification]
#[verifier::external_body]
pub struct ExHttpClient(HttpClient);

/// The builder of the HTTP client of `reqwest`, carried opaquely.
#[verifier::external_type_specification]
#[verifier::external_body]
pub struct ExHttpClientBuilder(HttpClientBuilder);

/// The request timeout that a `reqwest::ClientBuilder` holds (`None`: no
/// timeout).
pub uninterp spec fn builder_timeout(b: HttpClientBuilder) -> Option<Duration>;

/// The request timeout that a `reqwest::Client` applies to each request
/// (`None`: no timeout).
pub uninterp spec fn pool_timeout(c: HttpClient) -> Option<Duration>;

/// `Clone` of `reqwest::Client`: the clone shares the configuration and the
/// connection pool (an `Arc`), so it applies the same timeout.
pub assume_specification[ <HttpClient as Clone>::clone ](c: &HttpClient) -> (res: HttpClient)
    ensures
        pool_timeout(res) == pool_timeout(*c),
;

/// `reqwest::Client::builder`: reqwest documents that a new builder has no
/// timeout by default.
#[verifier::external_body]
fn http_builder() -> (res: HttpClientBuilder)
    ensures
        builder_timeout(res) is None,
{
    reqwest::Client::builder()
}

/// `reqwest::ClientBuilder::timeout`: sets the timeout applied to each
/// request, from connecting until the response body has finished.
#[verifier::external_body]
fn http_builder_timeout(b: HttpClientBuilder, timeout: Duration) -> (res: HttpClientBuilder)
    ensures
        builder_timeout(res) == Some(timeout),
{
    b.timeout(timeout)
}

/// `reqwest::ClientBuilder::build`: the client it builds applies the
/// builder's timeout. Whether the build succeeds depends on the machine (TLS
/// back end, resolver); nothing is claimed of that.
#[verifier::external_body]
fn http_build(b: HttpClientBuilder) -> (res: Result<HttpClient, TransportError>)
    ensures
        res matches Ok(h) ==> pool_timeout(h) == builder_timeout(b),
{
    b.build()
}

/// What a [`ClientBuilder`] holds.
#[verifier::ext_equal]
pub struct ClientSettings {
    /// Base URL, as given.
    pub base_url: Seq<char>,
    /// Bearer token.
    pub api_key: Option<Seq<char>>,
    /// Global timeout of each HTTP request.
    pub timeout: Option<Duration>,
}

/// What a [`Client`] holds.
pub struct ClientState {
    /// Serialization of the parsed base URL.
    pub base_url: Seq<char>,
    /// Bearer token.
    pub api_key: Option<Seq<char>>,
    /// Timeout that its HTTP connection pool applies to each request.
    pub timeout: Option<Duration>,
}

/// The settings of a builder started on `base_url`: no token, no timeout.
pub open spec fn initial_settings(base_url: Seq<char>) -> ClientSettings {
    ClientSettings { base_url, api_key: None, timeout: None }
}

/// `s` with the bearer token `key`.
pub open spec fn settings_with_key(s: ClientSettings, key: Seq<char>) -> ClientSettings {
    ClientSettings { api_key: Some(key), ..s }
}

/// `s` with the timeout `timeout`.
pub open spec fn settings_with_timeout(s: ClientSettings, timeout: Duration) -> ClientSettings {
    ClientSettings { timeout: Some(timeout), ..s }
}

/// The settings that `Client::new` builds a client from.
pub open spec fn new_client_settings(base_url: Seq<char>, api_key: Option<Seq<char>>) -> ClientSettings {
    ClientSettings { base_url, api_key, timeout: None }
}

/// `Client::new(base_url, api_key)` builds from the settings that
/// `Client::builder(base_url)`, then `api_key(key)` when a token is given,
/// hold: the two ways of creating a client agree.
pub proof fn law_new_agrees_with_builder(base_url: Seq<char>, api_key: Option<Seq<char>>)
    ensures
        new_client_settings(base_url, api_key) == (match api_key {
            Some(k) => settings_with_key(initial_settings(base_url), k),
            None => initial_settings(base_url),
        }),
{
}

/// The message of the error given for a base URL whose path cannot take
/// segments.
pub open spec fn cannot_be_base_text() -> Seq<char> {
    "base URL cannot have path segments"@
}

/// The URL of the endpoint at `path` under `base`: `Err` holds the message
/// of the invalid URL.
pub open spec fn endpoint_url(base: Seq<char>, path: Seq<char>) -> Result<Seq<char>, Seq<char>> {
    joined_url(base, path)
}

/// The message of the error given for a URL and path segment too long to
/// append.
pub open spec fn too_long_text() -> Seq<char> {
    "URL or path segment too long"@
}

/// `url` with `segment` appended as a path segment, or the message of the
/// invalid-URL error: too long (see `segment_fits`), or a URL that cannot
/// take path segments.
pub open spec fn with_segment(url: Seq<char>, segment: Seq<char>) -> Result<Seq<char>, Seq<char>> {
    if !segment_fits(url, segment) {
        Err(too_long_text())
    } else {
        match url_pushed(url, segment) {
            Some(next) => Ok(next),
            None => Err(cannot_be_base_text()),
        }
    }
}

/// `url` with each of `segments` appended in turn as a path segment, or the
/// message of the first invalid-URL error.
pub open spec fn with_segments(url: Seq<char>, segments: Seq<Seq<char>>) -> Result<Seq<char>, Seq<char>>
    decreases segments.len(),
{
    if segments.len() == 0 {
        Ok(url)
    } else {
        match with_segment(url, segments[0]) {
            Ok(next) => with_segments(next, segments.drop_first()),
            Err(m) => Err(m),
        }
    }
}

/// The URL of the endpoint at `path` under `base`, with one trailing empty
/// segment dropped (so that a trailing slash does not double), followed by
/// the path segments `segments`.
pub open spec fn segments_endpoint_url(base: Seq<char>, path: Seq<char>, segments: Seq<Seq<char>>) -> Result<
    Seq<char>,
    Seq<char>,
> {
    match joined_url(base, path) {
        Err(m) => Err(m),
        Ok(u) => match url_popped_if_empty(u) {
            None => Err(cannot_be_base_text()),
            Some(p) => with_segments(p, segments),
        },
    }
}

/// The URL of the endpoint at `path` under `base`, followed by the path
/// segment `segment`.
pub open spec fn segment_endpoint_url(base: Seq<char>, path: Seq<char>, segment: Seq<char>) -> Result<
    Seq<char>,
    Seq<char>,
> {
    segments_endpoint_url(base, path, seq![segment])
}

/// The URL of an endpoint is the WHATWG join of its path onto the parsed
/// base URL, whatever the base URL's scheme, and nothing else.
pub proof fn law_endpoint_is_join(base: Seq<char>, path: Seq<char>)
    ensures
        endpoint_url(base, path) == joined_url(base, path),
{
}

/// The URL of a resource by id is the endpoint's URL with one trailing empty
/// segment removed, then the id pushed as a segment, for every id: it is
/// `Ok(v)` exactly when each of these steps succeeds (and the two fit the
/// length bound), `v` being the last step's result; it agrees with the
/// several-segment form on one segment.
pub proof fn law_segment_pushed_onto_popped_endpoint(base: Seq<char>, path: Seq<char>, segment: Seq<char>)
    ensures
        segment_endpoint_url(base, path, segment) == segments_endpoint_url(base, path, seq![segment]),
        segment_endpoint_url(base, path, segment) matches Ok(v) ==> (joined_url(base, path) matches Ok(
            u,
        ) && url_popped_if_empty(u) matches Some(p) && segment_fits(p, segment) && url_pushed(
            p,
            segment,
        ) == Some(v)),
        joined_url(base, path) matches Ok(u) ==> (url_popped_if_empty(u) matches Some(p) ==> (
        segment_fits(p, segment) ==> (url_pushed(p, segment) matches Some(v) ==> segment_endpoint_url(
            base,
            path,
            segment,
        ) == Ok::<Seq<char>, Seq<char>>(v)))),
{
    reveal_with_fuel(with_segments, 2);
    assert(seq![segment].drop_first() =~= Seq::<Seq<char>>::empty());
}

/// The URL of a resource by two ids is the endpoint's URL with one trailing
/// empty segment removed, then the first id pushed, then the second.
pub proof fn law_two_segments_pushed_in_order(
    base: Seq<char>,
    path: Seq<char>,
    first: Seq<char>,
    second: Seq<char>,
)
    ensures
        segments_endpoint_url(base, path, seq![first, second]) matches Ok(v) ==> (joined_url(
            base,
            path,
        ) matches Ok(u) && url_popped_if_empty(u) matches Some(p) && url_pushed(p, first) matches Some(
            q,
        ) && url_pushed(q, second) == Some(v)),
{
    reveal_with_fuel(with_segments, 3);
    assert(seq![first, second].drop_first() =~= seq![second]);
    assert(seq![second].drop_first() =~= Seq::<Seq<char>>::empty());
}

/// A status is a success exactly when it lies in `200..=299`: every other
/// status (`1xx`, `3xx`, `4xx` such as `429`, `5xx`) is an API error.
pub proof fn law_success_is_exactly_2xx(status: u16)
    ensures
        is_success(status) <==> (200 <= status && status <= 299),
{
}

/// `res` is the URL that `expected` describes, or the invalid-URL error with
/// its message.
pub open spec fn url_outcome(res: Result<String, Error>, expected: Result<Seq<char>, Seq<char>>) -> bool {
    match expected {
        Ok(u) => res matches Ok(s) && s@ == u,
        Err(m) => res matches Err(Error::InvalidUrl(x)) && x@ == m,
    }
}

/// `res` is what building a client from `settings` may give: the invalid-URL
/// error exactly when the base URL does not parse, else a client holding the
/// parsed base URL, the token and, in its HTTP connection pool, the timeout;
/// or the transport error of the HTTP client.
pub open spec fn build_outcome(settings: ClientSettings, res: &Result<Client, Error>) -> bool {
    match parsed_url(settings.base_url) {
        Err(m) => res matches Err(Error::InvalidUrl(x)) && x@ == m,
        Ok(u) => match res {
            Ok(c) => c@.base_url == u && c@.api_key == settings.api_key && c@.timeout
                == settings.timeout,
            Err(e) => e is Transport,
        },
    }
}

/// Whether an HTTP status code means success (`2xx`).
pub open spec fn is_success(status: u16) -> bool {
    200 <= status < 300
}

/// Whether the gateway's answer with this status is a success, as
/// `reqwest::StatusCode::is_success` decides (`200..=299`).
pub fn is_success_status(status: u16) -> (ok: bool)
    ensures
        ok == is_success(status),
{
    200 <= status && status < 300
}

/// `url` with `segment` appended as a path segment; the invalid-URL error
/// when they are too long together or `url` cannot take path segments.
fn append_segment(url: &str, segment: &str) -> (res: Result<String, Error>)
    ensures
        url_outcome(res, with_segment(url@, segment@)),
{
    if url.unicode_len() > 0x40_0000 || segment.unicode_len() > 0x40_0000 - url.unicode_len() {
        return Err(Error::InvalidUrl(String::from_str("URL or path segment too long")));
    }
    match push_segment(url, segment) {
        Some(u) => Ok(u),
        None => Err(Error::InvalidUrl(String::from_str("base URL cannot have path segments"))),
    }
}

/// Async client of `OpenGateLLM`: the parsed base URL, the HTTP connection
/// pool and the optional bearer token. A clone shares the connection pool.
#[derive(Debug)]
pub struct Client {
    base_url: String,
    http: HttpClient,
    api_key: Option<String>,
}

impl Clone for Client {
    /// A client with the same base URL, token and timeout, sharing the HTTP
    /// connection pool.
    fn clone(&self) -> (res: Self)
        ensures
            res@ == self@,
    {
        let api_key = match &self.api_key {
            Some(k) => Some(k.clone()),
            None => None,
        };
        Client { base_url: self.base_url.clone(), http: self.http.clone(), api_key }
    }
}

impl View for Client {
    type V = ClientState;

    closed spec fn view(&self) -> ClientState {
        ClientState {
            base_url: self.base_url@,
            api_key: opt_view(self.api_key),
            timeout: pool_timeout(self.http),
        }
    }
}

impl Client {
    /// Creates a client from a base URL (`scheme://host[:port]`) and an
    /// optional bearer token.
    pub fn new(base_url: &str, api_key: Option<&str>) -> (res: Result<Client, Error>)
        ensures
            build_outcome(new_client_settings(base_url@, opt_str_view(api_key)), &res),
    {
        let mut builder = ClientBuilder::new(base_url);
        if let Some(k) = api_key {
            builder = builder.api_key(k);
        }
        builder.build()
    }

    /// Starts a builder to configure the client.
    pub fn builder(base_url: &str) -> (res: ClientBuilder)
        ensures
            res@ == initial_settings(base_url@),
    {
        ClientBuilder::new(base_url)
    }

    /// The serialization of the parsed base URL.
    pub fn base_url(&self) -> (res: &str)
        ensures
            res@ == self@.base_url,
    {
        self.base_url.as_str()
    }

    /// The HTTP connection pool that the client was built with.
    pub closed spec fn http_pool(&self) -> HttpClient {
        self.http
    }

    /// The HTTP connection pool.
    pub fn http(&self) -> (res: &HttpClient)
        ensures
            *res == self.http_pool(),
    {
        &self.http
    }

    /// The bearer token, if any.
    pub fn api_key(&self) -> (res: Option<&str>)
        ensures
            opt_str_view(res) == self@.api_key,
    {
        match &self.api_key {
            Some(k) => Some(k.as_str()),
            None => None,
        }
    }

    /// The URL of the endpoint at `path`, resolved against the base URL.
    pub fn endpoint(&self, path: &str) -> (res: Result<String, Error>)
        ensures
            url_outcome(res, endpoint_url(self@.base_url, path@)),
    {
        match join_url(self.base_url.as_str(), path) {
            Ok(u) => Ok(u),
            Err(m) => Err(Error::InvalidUrl(m)),
        }
    }

    /// The URL of the endpoint at `base_path` followed by the path segment
    /// `segment`, escaped; a trailing slash of `base_path` does not double.
    pub fn endpoint_with_segment(&self, base_path: &str, segment: &str) -> (res: Result<String, Error>)
        ensures
            url_outcome(res, segment_endpoint_url(self@.base_url, base_path@, segment@)),
    {
        let url = self.endpoint(base_path)?;
        let popped = match pop_empty_segment(url.as_str()) {
            Some(p) => p,
            None => {
                return Err(Error::InvalidUrl(String::from_str("base URL cannot have path segments")));
            },
        };
        proof {
            reveal_with_fuel(with_segments, 2);
        }
        append_segment(popped.as_str(), segment)
    }

    /// The URL of the endpoint at `base_path` followed by each of `segments`
    /// as an escaped path segment.
    pub fn endpoint_with_segments(&self, base_path: &str, segments: &[&str]) -> (res: Result<String, Error>)
        ensures
            url_outcome(
                res,
                segments_endpoint_url(
                    self@.base_url,
                    base_path@,
                    segments@.map_values(|s: &str| s@),
                ),
            ),
    {
        let ghost all = segments@.map_values(|s: &str| s@);
        let joined = self.endpoint(base_path)?;
        let mut url = match pop_empty_segment(joined.as_str()) {
            Some(p) => p,
            None => {
                return Err(Error::InvalidUrl(String::from_str("base URL cannot have path segments")));
            },
        };
        let ghost start = url@;
        let mut i: usize = 0;
        assert(all.skip(0) =~= all);
        while i < segments.len()
            invariant
                i <= segments@.len(),
                all == segments@.map_values(|s: &str| s@),
                joined_url(self@.base_url, base_path@) is Ok,
                url_popped_if_empty(joined_url(self@.base_url, base_path@)->Ok_0) == Some(start),
                with_segments(url@, all.skip(i as int)) == with_segments(start, all),
            decreases segments@.len() - i,
        {
            assert(all.skip(i as int).drop_first() =~= all.skip(i + 1));
            url = append_segment(url.as_str(), segments[i])?;
            i = i + 1;
        }
        assert(all.skip(i as int) =~= Seq::<Seq<char>>::empty());
        Ok(url)
    }
}

/// Builder of a [`Client`] with options (timeout, token).
#[derive(Debug, Clone)]
pub struct ClientBuilder {
    base_url: String,
    api_key: Option<String>,
    timeout: Option<Duration>,
}

impl View for ClientBuilder {
    type V = ClientSettings;

    closed spec fn view(&self) -> ClientSettings {
        ClientSettings {
            base_url: self.base_url@,
            api_key: opt_view(self.api_key),
            timeout: self.timeout,
        }
    }
}

impl ClientBuilder {
    /// A builder for the gateway at `base_url`, without token or timeout.
    pub fn new(base_url: &str) -> (res: Self)
        ensures
            res@ == initial_settings(base_url@),
    {
        ClientBuilder { base_url: base_url.to_owned(), api_key: None, timeout: None }
    }

    /// Sets the bearer token.
    pub fn api_key(self, key: &str) -> (res: Self)
        ensures
            res@ == settings_with_key(self@, key@),
    {
        ClientBuilder { api_key: Some(key.to_owned()), ..self }
    }

    /// Sets the global timeout of each HTTP request.
    pub fn timeout(self, timeout: Duration) -> (res: Self)
        ensures
            res@ == settings_with_timeout(self@, timeout),
    {
        ClientBuilder { timeout: Some(timeout), ..self }
    }

    /// Builds the [`Client`]: parses the base URL, then builds the HTTP
    /// connection pool with the timeout.
    pub fn build(self) -> (res: Result<Client, Error>)
        ensures
            build_outcome(self@, &res),
    {
        let base_url = match parse_url(self.base_url.as_str()) {
            Ok(u) => u,
            Err(m) => return Err(Error::InvalidUrl(m)),
        };
        let mut rb = http_builder();
        if let Some(t) = self.timeout {
            rb = http_builder_timeout(rb, t);
        }
        let http = match http_build(rb) {
            Ok(h) => h,
            Err(e) => return Err(Error::Transport(e)),
        };
        Ok(Client { base_url, http, api_key: self.api_key })
    }
}

} // verus!
