//! The Board API client: its configuration, the HTTP requests that each
//! operation makes, and how each operation reads the response it gets.
//!
//! Sending a request and reading the response body is left to the caller;
//! the client decides what to send and what the answer means.

use std::time::Duration;
use vstd::prelude::*;
use vstd::string::{StrSliceExecFns, StringExecFns};
use crate::error::BoardApiError;
use crate::text::{push_char, trim, trimmed};
use crate::types::{ApiError, ApiInfo, DeviceCode, Paste, PasteId};

verus! {

/// `reqwest::Client`, carried opaquely: a pool of HTTP connections.
#[verifier::external_type_specification]
#[verifier::external_body]
pub struct ExReqwestClient(reqwest::Client);

/// `reqwest::ClientBuilder`, carried opaquely.
#[verifier::external_type_specification]
#[verifier::external_body]
pub struct ExReqwestClientBuilder(reqwest::ClientBuilder);

/// `Duration` is `Copy`: its `clone` gives back the same duration.
pub assume_specification[ <Duration as Clone>::clone ](d: &Duration) -> (r: Duration)
    ensures
        r == *d,
;

/// `reqwest::Client::clone` gives a handle to the same connection pool.
/// Nothing is stated of the opaque result.
pub assume_specification[ <reqwest::Client as Clone>::clone ](c: &reqwest::Client) -> reqwest::Client;

/// Calls `reqwest::Client::builder`, which starts a client configuration
/// with reqwest's defaults. Nothing is stated of the opaque result.
#[verifier::external_body]
fn client_builder() -> reqwest::ClientBuilder {
    reqwest::Client::builder()
}

/// Calls `reqwest::ClientBuilder::timeout`, which sets the total timeout of
/// each request that the built client sends. Nothing is stated of the opaque
/// result.
#[verifier::external_body]
fn builder_timeout(builder: reqwest::ClientBuilder, timeout: Duration) -> reqwest::ClientBuilder {
    builder.timeout(timeout)
}

/// Calls `reqwest::ClientBuilder::user_agent` with the user agent as a
/// `&String`, which sets the `User-Agent` header of each request that the
/// built client sends. Where the text is not a valid header value (a byte
/// below 32 other than tab, or 127), the builder keeps an error that `build`
/// then returns; that is not stated, as nothing is stated of the opaque
/// result.
#[verifier::external_body]
fn builder_user_agent(builder: reqwest::ClientBuilder, user_agent: &String) -> reqwest::ClientBuilder {
    builder.user_agent(user_agent)
}

/// Calls `reqwest::ClientBuilder::build`, which makes the connection pool or
/// fails (for instance when the TLS backend or the resolver cannot be set
/// up). Whether it succeeds is not stated.
#[verifier::external_body]
fn builder_build(builder: reqwest::ClientBuilder) -> Result<reqwest::Client, reqwest::Error> {
    builder.build()
}

/// What `std::time::Duration::from_secs` returns for `secs`: the duration
/// of `secs` whole seconds.
pub uninterp spec fn duration_of_secs(secs: u64) -> Duration;

/// Calls `std::time::Duration::from_secs`; its result is
/// `duration_of_secs(secs)`.
#[verifier::external_body]
fn duration_from_secs(secs: u64) -> (r: Duration)
    ensures
        r == duration_of_secs(secs),
{
    Duration::from_secs(secs)
}

/// The base URL that a default configuration uses.
pub open spec fn default_base_url() -> Seq<char> {
    "https://board-api.pybash.xyz"@
}

/// The user agent that a default configuration uses.
pub open spec fn default_user_agent() -> Seq<char> {
    "board-cli/0.1.0"@
}

/// Configuration of the Board API client.
#[derive(Debug, Clone)]
pub struct BoardClientConfig {
    /// Base URL of the API.
    pub base_url: String,
    /// Total timeout of each request (30 seconds by default).
    pub timeout: Duration,
    /// User agent sent with each request.
    pub user_agent: String,
    /// Device code that authenticates requests, once known.
    pub device_code: Option<DeviceCode>,
    /// App password sent along with the device code (an empty value where
    /// none is configured).
    pub app_password: Option<String>,
}

impl Default for BoardClientConfig {
    /// The default configuration: the public Board API, a 30 s timeout, the
    /// `board-cli/0.1.0` user agent, and neither device code nor app
    /// password.
    fn default() -> (r: Self)
        ensures
            r.base_url@ == default_base_url(),
            r.timeout == duration_of_secs(30),
            r.user_agent@ == default_user_agent(),
            r.device_code is None,
            r.app_password is None,
    {
        BoardClientConfig {
            base_url: "https://board-api.pybash.xyz".to_owned(),
            timeout: duration_from_secs(30),
            user_agent: "board-cli/0.1.0".to_owned(),
            device_code: None,
            app_password: None,
        }
    }
}

/// The value of the `App-Password` header: the app password, or empty.
pub open spec fn app_password_value(c: BoardClientConfig) -> Seq<char> {
    match c.app_password {
        Some(p) => p@,
        None => Seq::empty(),
    }
}

/// `base` followed by `/` and `path`: the URL of an endpoint.
pub open spec fn endpoint(base: Seq<char>, path: Seq<char>) -> Seq<char> {
    base + seq!['/'] + path
}

/// HTTP request methods that the client uses.
#[derive(Debug, Clone, Copy, PartialEq, Eq)]
pub enum HttpMethod {
    Get,
    Post,
    Put,
}

/// An HTTP request to send on the client's behalf.
#[derive(Debug, Clone)]
pub struct HttpRequest {
    /// The method.
    pub method: HttpMethod,
    /// The full URL.
    pub url: String,
    /// The total timeout of the request.
    pub timeout: Duration,
    /// Header names and values, in order.
    pub headers: Vec<(String, String)>,
    /// The body, if any.
    pub body: Option<String>,
}

/// The headers of a request that needs no device code: the user agent, the
/// device code where one is set, then the app password (empty where none is
/// configured).
pub open spec fn common_header_views(c: BoardClientConfig) -> Seq<(Seq<char>, Seq<char>)> {
    match c.device_code {
        Some(d) => auth_header_views(c, d@),
        None => seq![("User-Agent"@, c.user_agent@), ("App-Password"@, app_password_value(c))],
    }
}

/// The headers of an authenticated request with device code `code`: the
/// user agent, the device code, then the app password (empty where none is
/// configured).
pub open spec fn auth_header_views(c: BoardClientConfig, code: Seq<char>) -> Seq<(Seq<char>, Seq<char>)> {
    seq![("User-Agent"@, c.user_agent@), ("Device-Code"@, code), ("App-Password"@, app_password_value(c))]
}

/// The headers of a request as pairs of character sequences.
pub open spec fn header_views(headers: Seq<(String, String)>) -> Seq<(Seq<char>, Seq<char>)> {
    headers.map_values(|h: (String, String)| (h.0@, h.1@))
}

/// An HTTP response as the client reads it: its status, its body, and the
/// body read as an API error object, where it is one.
#[derive(Debug, Clone)]
pub struct HttpResponse {
    /// The status code.
    pub status: u16,
    /// The body text.
    pub body: String,
    /// The body parsed as an [`ApiError`], or `None` where it does not parse
    /// as one.
    pub api_error: Option<ApiError>,
}

/// Whether a status code reports success (the 2xx range).
pub open spec fn is_success(status: u16) -> bool {
    200 <= status <= 299
}

/// Whether a status code reports success (the 2xx range), as
/// `reqwest::StatusCode::is_success` decides it.
pub fn status_is_success(status: u16) -> (r: bool)
    ensures
        r == is_success(status),
{
    200 <= status && status <= 299
}

/// The error that an unsuccessful response stands for: the API's own error
/// object where the body is one, else the body text with the status code.
pub open spec fn response_error(response: HttpResponse) -> BoardApiError {
    match response.api_error {
        Some(e) => BoardApiError::Api { message: e.error, status: e.status },
        None => BoardApiError::Api { message: response.body, status: response.status },
    }
}

/// The message of a response body that did not parse as JSON.
pub open spec fn json_error_message(error: Seq<char>, body: Seq<char>) -> Seq<char> {
    "JSON parse error: "@ + error + " - Response: "@ + body
}

/// What `serde_json::from_str::<Vec<String>>` gives for `text`: the list of
/// strings, or the text of its error.
pub uninterp spec fn json_string_list(text: Seq<char>) -> Result<Seq<Seq<char>>, Seq<char>>;

/// Calls `serde_json::from_str::<Vec<String>>`; its result, with the error
/// given by its text, is `json_string_list(text@)`.
#[verifier::external_body]
fn parse_json_string_list(text: &str) -> (r: Result<Vec<String>, String>)
    ensures
        match r {
            Ok(v) => json_string_list(text@) == Ok::<Seq<Seq<char>>, Seq<char>>(
                v@.map_values(|s: String| s@),
            ),
            Err(m) => json_string_list(text@) == Err::<Seq<Seq<char>>, Seq<char>>(m@),
        },
{
    match serde_json::from_str::<Vec<String>>(text) {
        Ok(v) => Ok(v),
        Err(e) => Err(e.to_string()),
    }
}

/// The path of the URL that `url::Url::parse` makes of `text`, or `None`
/// where it refuses `text`.
pub uninterp spec fn url_path(text: Seq<char>) -> Option<Seq<char>>;

/// Calls `url::Url::parse` and hands back the path of the URL it gives
/// (`Url::path`, a part of the parsed URL); whether it parses and the path
/// are `url_path(text@)`. Which `ParseError` a refusal carries is not
/// stated.
#[verifier::external_body]
fn parse_url_path(text: &str) -> (r: Result<String, url::ParseError>)
    ensures
        match r {
            Ok(p) => url_path(text@) == Some(p@),
            Err(_) => url_path(text@) is None,
        },
{
    match url::Url::parse(text) {
        Ok(u) => Ok(u.path().to_string()),
        Err(e) => Err(e),
    }
}

/// The index of the last `c` in `s`, or -1.
pub open spec fn last_index_of(s: Seq<char>, c: char) -> int
    decreases s.len(),
{
    if s.len() == 0 {
        -1
    } else if s.last() == c {
        s.len() - 1
    } else {
        last_index_of(s.drop_last(), c)
    }
}

/// The last segment of a URL path, as `url::Url::path_segments` followed by
/// `last` finds it: the text after the last `/`, for a path that starts
/// with `/`; none for another path.
pub open spec fn last_path_segment(path: Seq<char>) -> Option<Seq<char>> {
    if path.len() > 0 && path[0] == '/' {
        Some(path.subrange(last_index_of(path, '/') + 1, path.len() as int))
    } else {
        None
    }
}

/// Returns the last segment of a URL path: the text after its last `/`,
/// where the path starts with `/`.
pub fn path_last_segment(path: &str) -> (r: Option<String>)
    ensures
        match r {
            Some(s) => last_path_segment(path@) == Some(s@),
            None => last_path_segment(path@) is None,
        },
{
    let n = path.unicode_len();
    if n == 0 || path.get_char(0) != '/' {
        return None;
    }
    let mut j: usize = n;
    assert(path@.subrange(0, n as int) =~= path@);
    while j > 0 && path.get_char(j - 1) != '/'
        invariant
            n == path@.len(),
            0 < n,
            path@[0] == '/',
            j <= n,
            last_index_of(path@, '/') == last_index_of(path@.subrange(0, j as int), '/'),
            forall|k: int| j <= k < n ==> path@[k] != '/',
        decreases j,
    {
        assert(path@.subrange(0, j as int).drop_last() =~= path@.subrange(0, j - 1));
        j = j - 1;
    }
    assert(j > 0) by {
        if j == 0 {
            assert(path@[0] != '/');
        }
    }
    assert(path@.subrange(0, j as int).last() == path@[j - 1]);
    Some(path.substring_char(j, n).to_owned())
}

/// The Board API client.
#[derive(Debug, Clone)]
pub struct BoardClient {
    client: reqwest::Client,
    config: BoardClientConfig,
}

impl View for BoardClient {
    type V = BoardClientConfig;

    closed spec fn view(&self) -> BoardClientConfig {
        self.config
    }
}

/// Whether two configurations agree on everything but the device code.
pub open spec fn same_settings(a: BoardClientConfig, b: BoardClientConfig) -> bool {
    &&& a.base_url == b.base_url
    &&& a.timeout == b.timeout
    &&& a.user_agent == b.user_agent
    &&& a.app_password == b.app_password
}

impl BoardClient {
    /// The HTTP connection pool of this client.
    pub closed spec fn http_client(&self) -> reqwest::Client {
        self.client
    }

    /// Creates a client with the default configuration.
    pub fn new() -> (r: Result<Self, BoardApiError>)
        ensures
            match r {
                Ok(c) => {
                    &&& c@.base_url@ == default_base_url()
                    &&& c@.timeout == duration_of_secs(30)
                    &&& c@.user_agent@ == default_user_agent()
                    &&& c@.device_code is None
                    &&& c@.app_password is None
                },
                Err(e) => e is Request,
            },
    {
        Self::with_config(BoardClientConfig::default())
    }

    /// Creates a client with the given configuration; fails where the HTTP
    /// connection pool cannot be built. The pool is built with the
    /// configured timeout and user agent, and both go with each request
    /// that the client makes as well (see [`HttpRequest`]).
    pub fn with_config(config: BoardClientConfig) -> (r: Result<Self, BoardApiError>)
        ensures
            match r {
                Ok(c) => c@ == config,
                Err(e) => e is Request,
            },
    {
        let builder = builder_timeout(client_builder(), config.timeout);
        let builder = builder_user_agent(builder, &config.user_agent);
        match builder_build(builder) {
            Ok(client) => Ok(BoardClient { client, config }),
            Err(e) => Err(BoardApiError::Request(e)),
        }
    }

    /// The HTTP connection pool that requests of this client go through.
    pub fn http(&self) -> (r: &reqwest::Client)
        ensures
            *r == self.http_client(),
    {
        &self.client
    }

    /// Sets the device code that authenticates requests.
    pub fn set_device_code(&mut self, device_code: DeviceCode)
        ensures
            final(self)@ == (BoardClientConfig { device_code: Some(device_code), ..old(self)@ }),
            final(self).http_client() == old(self).http_client(),
    {
        self.config.device_code = Some(device_code);
    }

    /// Sets the app password sent with authenticated requests.
    pub fn set_app_password(&mut self, app_password: Option<String>)
        ensures
            final(self)@ == (BoardClientConfig { app_password, ..old(self)@ }),
            final(self).http_client() == old(self).http_client(),
    {
        self.config.app_password = app_password;
    }

    /// The device code, if one is set.
    pub fn device_code(&self) -> (r: Option<&DeviceCode>)
        ensures
            match r {
                Some(d) => self@.device_code == Some(*d),
                None => self@.device_code is None,
            },
    {
        self.config.device_code.as_ref()
    }

    /// The URL of the endpoint `path` under the base URL.
    fn endpoint_url(&self, path: &str) -> (r: String)
        ensures
            r@ == endpoint(self@.base_url@, path@),
    {
        let mut url = self.config.base_url.clone();
        push_char(&mut url, '/');
        url.append(path);
        url
    }

    /// The URL of the root endpoint: the base URL followed by `/`.
    fn root_url(&self) -> (r: String)
        ensures
            r@ == endpoint(self@.base_url@, seq![]),
    {
        let mut url = self.config.base_url.clone();
        push_char(&mut url, '/');
        assert(url@ =~= endpoint(self@.base_url@, seq![]));
        url
    }

    /// The full URL of a paste: the base URL, `/` and the paste ID.
    pub fn build_paste_url(&self, paste_id: &PasteId) -> (r: String)
        ensures
            r@ == endpoint(self@.base_url@, paste_id@),
    {
        self.endpoint_url(paste_id.as_str())
    }

    /// The `App-Password` header.
    fn app_password_header(&self) -> (r: (String, String))
        ensures
            r.0@ == "App-Password"@,
            r.1@ == app_password_value(self@),
    {
        let password = match &self.config.app_password {
            Some(p) => p.clone(),
            None => String::new(),
        };
        ("App-Password".to_owned(), password)
    }

    /// The headers of a request that needs no device code: `User-Agent`,
    /// `Device-Code` where one is set, and `App-Password`.
    fn common_headers(&self) -> (r: Vec<(String, String)>)
        ensures
            header_views(r@) == common_header_views(self@),
    {
        let mut headers = Vec::new();
        headers.push(("User-Agent".to_owned(), self.config.user_agent.clone()));
        if let Some(d) = &self.config.device_code {
            headers.push(("Device-Code".to_owned(), d.0.clone()));
        }
        headers.push(self.app_password_header());
        assert(header_views(headers@) =~= common_header_views(self@));
        headers
    }

    /// The headers that authenticate a request, `User-Agent`, `Device-Code`
    /// and `App-Password`; `NoDeviceCode` where no device code is set.
    fn auth_headers(&self) -> (r: Result<Vec<(String, String)>, BoardApiError>)
        ensures
            match self@.device_code {
                None => r matches Err(BoardApiError::NoDeviceCode),
                Some(d) => r matches Ok(h) && header_views(h@) == auth_header_views(self@, d@),
            },
    {
        match &self.config.device_code {
            None => Err(BoardApiError::NoDeviceCode),
            Some(d) => {
                let mut headers = Vec::new();
                headers.push(("User-Agent".to_owned(), self.config.user_agent.clone()));
                headers.push(("Device-Code".to_owned(), d.0.clone()));
                headers.push(self.app_password_header());
                assert(header_views(headers@) =~= auth_header_views(self@, d@));
                Ok(headers)
            },
        }
    }

    /// Reads a text response: its body where the status reports success,
    /// else the error it stands for.
    pub fn handle_text_response(response: HttpResponse) -> (r: Result<String, BoardApiError>)
        ensures
            r == (if is_success(response.status) {
                Ok(response.body)
            } else {
                Err(response_error(response))
            }),
    {
        if !status_is_success(response.status) {
            return match response.api_error {
                Some(api_error) => Err(
                    BoardApiError::Api { message: api_error.error, status: api_error.status },
                ),
                None => Err(BoardApiError::Api { message: response.body, status: response.status }),
            };
        }
        Ok(response.body)
    }

    /// Reads a JSON response, given what its body parsed to (the value, or
    /// the text of the parse error): the value where the status reports
    /// success and the body parsed, a `Parse` error where it did not, and
    /// the error the response stands for where the status is not a success.
    pub fn handle_json_response<T>(response: HttpResponse, parsed: Result<T, String>) -> (r:
        Result<T, BoardApiError>)
        ensures
            !is_success(response.status) ==> r == Err::<T, BoardApiError>(response_error(response)),
            is_success(response.status) ==> match parsed {
                Ok(v) => r == Ok::<T, BoardApiError>(v),
                Err(m) => r matches Err(BoardApiError::Parse(msg)) && msg@ == json_error_message(
                    m@,
                    response.body@,
                ),
            },
    {
        if !status_is_success(response.status) {
            return match response.api_error {
                Some(api_error) => Err(
                    BoardApiError::Api { message: api_error.error, status: api_error.status },
                ),
                None => Err(BoardApiError::Api { message: response.body, status: response.status }),
            };
        }
        match parsed {
            Ok(v) => Ok(v),
            Err(m) => {
                let mut msg = "JSON parse error: ".to_owned();
                msg.append(m.as_str());
                msg.append(" - Response: ");
                msg.append(response.body.as_str());
                Err(BoardApiError::Parse(msg))
            },
        }
    }
    /// The request that registers a new device: `POST` to `/device`, with
    /// the user agent, the device code where one is set and the app password,
    /// within the configured timeout.
    pub fn register_device_request(&self) -> (r: HttpRequest)
        ensures
            r.method == HttpMethod::Post,
            r.url@ == endpoint(self@.base_url@, "device"@),
            r.timeout == self@.timeout,
            header_views(r.headers@) == common_header_views(self@),
            r.body is None,
    {
        HttpRequest {
            method: HttpMethod::Post,
            url: self.endpoint_url("device"),
            timeout: self.config.timeout,
            headers: self.common_headers(),
            body: None,
        }
    }

    /// Reads the answer to a device registration: the new device code is
    /// the trimmed body, and the client keeps it for later requests.
    pub fn register_device_response(&mut self, response: HttpResponse) -> (r: Result<
        DeviceCode,
        BoardApiError,
    >)
        ensures
            final(self).http_client() == old(self).http_client(),
            !is_success(response.status) ==> r == Err::<DeviceCode, BoardApiError>(
                response_error(response),
            ) && final(self)@ == old(self)@,
            is_success(response.status) ==> (r matches Ok(d) && d@ == trimmed(response.body@)
                && same_settings(final(self)@, old(self)@) && final(self)@.device_code is Some
                && final(self)@.device_code->0@ == d@),
    {
        let text = Self::handle_text_response(response)?;
        let code = trim(text.as_str());
        let kept = DeviceCode::new(code.clone());
        self.config.device_code = Some(kept);
        Ok(DeviceCode::new(code))
    }

    /// The request for the API's description of itself: `GET` of `/`, with
    /// the user agent, the device code where one is set and the app password,
    /// within the configured timeout.
    pub fn api_info_request(&self) -> (r: HttpRequest)
        ensures
            r.method == HttpMethod::Get,
            r.url@ == endpoint(self@.base_url@, seq![]),
            r.timeout == self@.timeout,
            header_views(r.headers@) == common_header_views(self@),
            r.body is None,
    {
        HttpRequest {
            method: HttpMethod::Get,
            url: self.root_url(),
            timeout: self.config.timeout,
            headers: self.common_headers(),
            body: None,
        }
    }

    /// Reads the API's description of itself, given what the body parsed to.
    pub fn api_info_response(response: HttpResponse, parsed: Result<ApiInfo, String>) -> (r: Result<
        ApiInfo,
        BoardApiError,
    >)
        ensures
            !is_success(response.status) ==> r == Err::<ApiInfo, BoardApiError>(
                response_error(response),
            ),
            is_success(response.status) ==> match parsed {
                Ok(v) => r == Ok::<ApiInfo, BoardApiError>(v),
                Err(m) => r matches Err(BoardApiError::Parse(msg)) && msg@ == json_error_message(
                    m@,
                    response.body@,
                ),
            },
    {
        Self::handle_json_response(response, parsed)
    }

    /// The request that creates a paste of `content`: `PUT` of `/` with the
    /// authentication headers and a plain-text body; `NoDeviceCode` where no device code
    /// is set.
    pub fn create_paste_request(&self, content: &str) -> (r: Result<HttpRequest, BoardApiError>)
        ensures
            self@.device_code is None ==> r matches Err(BoardApiError::NoDeviceCode),
            self@.device_code matches Some(d) ==> (r matches Ok(req) && req.method == HttpMethod::Put
                && req.url@ == endpoint(self@.base_url@, seq![]) && req.timeout == self@.timeout
                && header_views(req.headers@)
                == auth_header_views(self@, d@).push(("Content-Type"@, "text/plain"@))
                && req.body is Some && req.body->0@ == content@),
    {
        let mut headers = self.auth_headers()?;
        let ghost auth = headers@;
        headers.push(("Content-Type".to_owned(), "text/plain".to_owned()));
        assert(header_views(headers@) =~= header_views(auth).push(("Content-Type"@, "text/plain"@)));
        let req = HttpRequest {
            method: HttpMethod::Put,
            url: self.root_url(),
            timeout: self.config.timeout,
            headers,
            body: Some(content.to_owned()),
        };
        Ok(req)
    }

    /// Makes the paste that a creation answered with, from the trimmed
    /// paste URL of the answer and what `url::Url::parse` made of its path:
    /// the paste ID is the last segment of that path.
    pub fn paste_from_url(content: &str, paste_url: String, path: Result<String, url::ParseError>) -> (r:
        Result<Paste, BoardApiError>)
        ensures
            match path {
                Err(e) => r == Err::<Paste, BoardApiError>(BoardApiError::InvalidUrl(e)),
                Ok(p) => match last_path_segment(p@) {
                    None => r matches Err(BoardApiError::Parse(m)) && m@
                        == "Could not extract paste ID from URL"@,
                    Some(seg) => r matches Ok(paste) && paste.id@ == seg && paste.content@
                        == content@ && paste.url == paste_url,
                },
            },
    {
        let p = match path {
            Err(e) => {
                return Err(BoardApiError::InvalidUrl(e));
            },
            Ok(p) => p,
        };
        match path_last_segment(p.as_str()) {
            None => Err(BoardApiError::Parse("Could not extract paste ID from URL".to_owned())),
            Some(seg) => Ok(Paste::new(PasteId::new(seg), content.to_owned(), paste_url)),
        }
    }

    /// Reads the answer to a paste creation: the trimmed body is the URL of
    /// the new paste, and the last segment of its path is the paste ID.
    pub fn create_paste_response(content: &str, response: HttpResponse) -> (r: Result<
        Paste,
        BoardApiError,
    >)
        ensures
            !is_success(response.status) ==> r == Err::<Paste, BoardApiError>(
                response_error(response),
            ),
            is_success(response.status) ==> match url_path(trimmed(response.body@)) {
                None => r matches Err(BoardApiError::InvalidUrl(_)),
                Some(p) => match last_path_segment(p) {
                    None => r matches Err(BoardApiError::Parse(m)) && m@
                        == "Could not extract paste ID from URL"@,
                    Some(seg) => r matches Ok(paste) && paste.id@ == seg && paste.content@
                        == content@ && paste.url@ == trimmed(response.body@),
                },
            },
    {
        let text = Self::handle_text_response(response)?;
        let paste_url = trim(text.as_str());
        let path = parse_url_path(paste_url.as_str());
        Self::paste_from_url(content, paste_url, path)
    }

    /// The request for the content of a paste: `GET` of `/<id>` with the
    /// authentication headers; `NoDeviceCode` where no device code is set.
    pub fn get_paste_request(&self, paste_id: &PasteId) -> (r: Result<HttpRequest, BoardApiError>)
        ensures
            self@.device_code is None ==> r matches Err(BoardApiError::NoDeviceCode),
            self@.device_code matches Some(d) ==> (r matches Ok(req) && req.method == HttpMethod::Get
                && req.url@ == endpoint(self@.base_url@, paste_id@) && req.timeout == self@.timeout
                && header_views(req.headers@)
                == auth_header_views(self@, d@) && req.body is None),
    {
        let headers = self.auth_headers()?;
        Ok(
            HttpRequest {
                method: HttpMethod::Get,
                url: self.build_paste_url(paste_id),
                timeout: self.config.timeout,
                headers,
                body: None,
            },
        )
    }

    /// Reads the content of a paste: the body, where the status is a
    /// success.
    pub fn get_paste_response(response: HttpResponse) -> (r: Result<String, BoardApiError>)
        ensures
            r == (if is_success(response.status) {
                Ok(response.body)
            } else {
                Err(response_error(response))
            }),
    {
        Self::handle_text_response(response)
    }

    /// The request for the IDs of all pastes of the device: `GET` of `/all`
    /// with the authentication headers; `NoDeviceCode` where no device code is set.
    pub fn list_pastes_request(&self) -> (r: Result<HttpRequest, BoardApiError>)
        ensures
            self@.device_code is None ==> r matches Err(BoardApiError::NoDeviceCode),
            self@.device_code matches Some(d) ==> (r matches Ok(req) && req.method == HttpMethod::Get
                && req.url@ == endpoint(self@.base_url@, "all"@) && req.timeout == self@.timeout
                && header_views(req.headers@)
                == auth_header_views(self@, d@) && req.body is None),
    {
        let headers = self.auth_headers()?;
        Ok(
            HttpRequest {
                method: HttpMethod::Get,
                url: self.endpoint_url("all"),
                timeout: self.config.timeout,
                headers,
                body: None,
            },
        )
    }

    /// Turns each string into a paste ID, in order.
    pub fn paste_ids_from_strings(ids: Vec<String>) -> (r: Vec<PasteId>)
        ensures
            r@.len() == ids@.len(),
            forall|i: int| 0 <= i < ids@.len() ==> #[trigger] r@[i]@ == ids@[i]@,
    {
        let mut out: Vec<PasteId> = Vec::new();
        let mut i: usize = 0;
        while i < ids.len()
            invariant
                i <= ids@.len(),
                out@.len() == i,
                forall|k: int| 0 <= k < i ==> #[trigger] out@[k]@ == ids@[k]@,
            decreases ids@.len() - i,
        {
            out.push(PasteId::new(ids[i].clone()));
            i = i + 1;
        }
        out
    }

    /// Reads the list of paste IDs: the body parses as a JSON array of
    /// strings, each an ID.
    pub fn list_pastes_response(response: HttpResponse) -> (r: Result<Vec<PasteId>, BoardApiError>)
        ensures
            !is_success(response.status) ==> r == Err::<Vec<PasteId>, BoardApiError>(
                response_error(response),
            ),
            is_success(response.status) ==> match json_string_list(response.body@) {
                Ok(list) => r matches Ok(ids) && ids@.len() == list.len() && forall|i: int|
                    0 <= i < list.len() ==> #[trigger] ids@[i]@ == list[i],
                Err(m) => r matches Err(BoardApiError::Parse(msg)) && msg@ == json_error_message(
                    m,
                    response.body@,
                ),
            },
    {
        let parsed = parse_json_string_list(response.body.as_str());
        let ghost body = response.body@;
        let ids = Self::handle_json_response(response, parsed)?;
        proof {
            if let Ok(list) = json_string_list(body) {
                assert(list.len() == ids@.len());
                assert forall|i: int| 0 <= i < list.len() implies list[i] == ids@[i]@ by {
                    assert(list[i] == ids@.map_values(|s: String| s@)[i]);
                }
            }
        }
        Ok(Self::paste_ids_from_strings(ids))
    }

    /// Gathers the pastes whose content was fetched, given the IDs and, for
    /// each, what fetching its content gave: in order, each paste with its
    /// content and its URL; an ID whose fetch failed is left out.
    pub fn collect_pastes(&self, ids: &Vec<PasteId>, fetched: &Vec<Result<String, BoardApiError>>) -> (r:
        Vec<Paste>)
        requires
            ids@.len() == fetched@.len(),
        ensures
            paste_views(r@) == fetched_pastes(self@.base_url@, ids@, fetched@),
    {
        let mut out: Vec<Paste> = Vec::new();
        let mut i: usize = 0;
        while i < ids.len()
            invariant
                i <= ids@.len(),
                ids@.len() == fetched@.len(),
                paste_views(out@) == fetched_pastes(
                    self@.base_url@,
                    ids@.take(i as int),
                    fetched@.take(i as int),
                ),
            decreases ids@.len() - i,
        {
            assert(ids@.take(i + 1).drop_last() =~= ids@.take(i as int));
            assert(fetched@.take(i + 1).drop_last() =~= fetched@.take(i as int));
            let ghost before = out@;
            match &fetched[i] {
                Ok(content) => {
                    let id = PasteId::new(ids[i].0.clone());
                    let url = self.build_paste_url(&id);
                    out.push(Paste::new(id, content.clone(), url));
                    assert(paste_views(out@) =~= paste_views(before).push(
                        (ids@[i as int]@, content@, endpoint(self@.base_url@, ids@[i as int]@)),
                    ));
                },
                Err(_) => {},
            }
            i = i + 1;
        }
        assert(ids@.take(ids@.len() as int) =~= ids@);
        assert(fetched@.take(fetched@.len() as int) =~= fetched@);
        out
    }
}

/// Where a client gets its device code.
#[derive(Debug)]
pub enum DeviceCodeSource {
    /// The configuration holds this code.
    Config(DeviceCode),
    /// The environment holds this code; it moves into the configuration.
    Environment(DeviceCode),
    /// There is none: register a new device.
    Register,
}

/// Decides where the device code comes from: the configuration first, then
/// the environment, else a new registration.
pub fn choose_device_code_source(config_code: Option<DeviceCode>, env_code: Option<String>) -> (r:
    DeviceCodeSource)
    ensures
        match config_code {
            Some(d) => r == DeviceCodeSource::Config(d),
            None => match env_code {
                Some(e) => r is Environment && r->Environment_0@ == e@,
                None => r is Register,
            },
        },
{
    match config_code {
        Some(d) => DeviceCodeSource::Config(d),
        None => match env_code {
            Some(e) => DeviceCodeSource::Environment(DeviceCode::new(e)),
            None => DeviceCodeSource::Register,
        },
    }
}


/// Each paste as the triple of its ID, content and URL.
pub open spec fn paste_views(pastes: Seq<Paste>) -> Seq<(Seq<char>, Seq<char>, Seq<char>)> {
    pastes.map_values(|p: Paste| (p.id@, p.content@, p.url@))
}

/// The pastes that fetching the contents of `ids` yields, as triples of ID,
/// content and URL: in order, those whose fetch succeeded, each with the URL
/// under `base`.
pub open spec fn fetched_pastes(
    base: Seq<char>,
    ids: Seq<PasteId>,
    fetched: Seq<Result<String, BoardApiError>>,
) -> Seq<(Seq<char>, Seq<char>, Seq<char>)>
    decreases ids.len(),
{
    if ids.len() == 0 {
        seq![]
    } else {
        let rest = fetched_pastes(base, ids.drop_last(), fetched.drop_last());
        match fetched.last() {
            Ok(c) => rest.push((ids.last()@, c@, endpoint(base, ids.last()@))),
            Err(_) => rest,
        }
    }
}

/// Gathering fetched pastes keeps at most one paste per ID, all of them
/// when every fetch succeeded, none when every fetch failed; and each kept
/// paste has the URL that `build_paste_url` gives its ID.
pub proof fn lemma_fetched_pastes(
    base: Seq<char>,
    ids: Seq<PasteId>,
    fetched: Seq<Result<String, BoardApiError>>,
)
    requires
        ids.len() == fetched.len(),
    ensures
        fetched_pastes(base, ids, fetched).len() <= ids.len(),
        (forall|i: int| 0 <= i < fetched.len() ==> #[trigger] fetched[i] is Ok) ==> fetched_pastes(
            base,
            ids,
            fetched,
        ).len() == ids.len(),
        (forall|i: int| 0 <= i < fetched.len() ==> #[trigger] fetched[i] is Err) ==> fetched_pastes(
            base,
            ids,
            fetched,
        ).len() == 0,
        forall|k: int|
            0 <= k < fetched_pastes(base, ids, fetched).len() ==> #[trigger] fetched_pastes(
                base,
                ids,
                fetched,
            )[k].2 == endpoint(base, fetched_pastes(base, ids, fetched)[k].0),
    decreases ids.len(),
{
    if ids.len() > 0 {
        lemma_fetched_pastes(base, ids.drop_last(), fetched.drop_last());
        let rest = fetched_pastes(base, ids.drop_last(), fetched.drop_last());
        if forall|i: int| 0 <= i < fetched.len() ==> #[trigger] fetched[i] is Ok {
            assert forall|i: int| 0 <= i < fetched.drop_last().len() implies #[trigger] fetched.drop_last()[i] is Ok by {
                assert(fetched[i] is Ok);
            }
            assert(fetched[fetched.len() - 1] is Ok);
        }
        if forall|i: int| 0 <= i < fetched.len() ==> #[trigger] fetched[i] is Err {
            assert forall|i: int| 0 <= i < fetched.drop_last().len() implies #[trigger] fetched.drop_last()[i] is Err by {
                assert(fetched[i] is Err);
            }
            assert(fetched[fetched.len() - 1] is Err);
        }
    }
}


/// The positions of the fetches that succeeded, in increasing order.
pub open spec fn succeeded_positions(fetched: Seq<Result<String, BoardApiError>>) -> Seq<int>
    decreases fetched.len(),
{
    if fetched.len() == 0 {
        seq![]
    } else {
        let rest = succeeded_positions(fetched.drop_last());
        if fetched.last() is Ok {
            rest.push(fetched.len() - 1)
        } else {
            rest
        }
    }
}

/// Whether `got` is, in order, one paste per position in `pos`: the ID at
/// that position, the content fetched there (which succeeded), and that ID's
/// URL under `base`; with the positions increasing and every successful
/// fetch among them.
pub open spec fn gathered_at(
    got: Seq<(Seq<char>, Seq<char>, Seq<char>)>,
    base: Seq<char>,
    ids: Seq<PasteId>,
    fetched: Seq<Result<String, BoardApiError>>,
    pos: Seq<int>,
) -> bool {
    &&& pos.len() == got.len()
    &&& forall|k: int|
        0 <= k < pos.len() ==> {
            &&& 0 <= #[trigger] pos[k] < ids.len()
            &&& fetched[pos[k]] is Ok
            &&& got[k] == (ids[pos[k]]@, fetched[pos[k]]->Ok_0@, endpoint(base, ids[pos[k]]@))
        }
    &&& forall|k1: int, k2: int| 0 <= k1 < k2 < pos.len() ==> #[trigger] pos[k1] < #[trigger] pos[k2]
    &&& forall|i: int|
        0 <= i < ids.len() && #[trigger] fetched[i] is Ok ==> exists|k: int|
            0 <= k < pos.len() && #[trigger] pos[k] == i
}

/// Each gathered paste carries the content fetched for its own ID: the
/// gathered pastes correspond, in order, to the successful fetches, each
/// being the ID at its position, the content fetched there, and that ID's
/// URL under `base`; no successful fetch is left out.
pub proof fn lemma_each_paste_has_its_own_content(
    base: Seq<char>,
    ids: Seq<PasteId>,
    fetched: Seq<Result<String, BoardApiError>>,
)
    requires
        ids.len() == fetched.len(),
    ensures
        exists|pos: Seq<int>| #[trigger]
            gathered_at(fetched_pastes(base, ids, fetched), base, ids, fetched, pos),
{
    lemma_succeeded_positions(base, ids, fetched);
    let pos = succeeded_positions(fetched);
    let got = fetched_pastes(base, ids, fetched);
    assert forall|k1: int, k2: int| 0 <= k1 < k2 < pos.len() implies #[trigger] pos[k1] < #[trigger] pos[k2] by {
        assert(pos[k1] < pos[k2]);
    }
    assert(gathered_at(got, base, ids, fetched, pos));
}

/// `succeeded_positions` lines up with the gathered pastes.
proof fn lemma_succeeded_positions(
    base: Seq<char>,
    ids: Seq<PasteId>,
    fetched: Seq<Result<String, BoardApiError>>,
)
    requires
        ids.len() == fetched.len(),
    ensures
        ({
            let pos = succeeded_positions(fetched);
            let got = fetched_pastes(base, ids, fetched);
            &&& pos.len() == got.len()
            &&& forall|k: int|
                0 <= k < pos.len() ==> {
                    &&& 0 <= #[trigger] pos[k] < ids.len()
                    &&& fetched[pos[k]] is Ok
                    &&& got[k] == (
                        ids[pos[k]]@,
                        fetched[pos[k]]->Ok_0@,
                        endpoint(base, ids[pos[k]]@),
                    )
                }
            &&& forall|k1: int, k2: int| 0 <= k1 < k2 < pos.len() ==> pos[k1] < pos[k2]
            &&& forall|i: int|
                0 <= i < ids.len() && #[trigger] fetched[i] is Ok ==> exists|k: int|
                    0 <= k < pos.len() && #[trigger] pos[k] == i
        }),
    decreases ids.len(),
{
    if ids.len() > 0 {
        let ids1 = ids.drop_last();
        let f1 = fetched.drop_last();
        lemma_succeeded_positions(base, ids1, f1);
        let pos1 = succeeded_positions(f1);
        let got1 = fetched_pastes(base, ids1, f1);
        let pos = succeeded_positions(fetched);
        let got = fetched_pastes(base, ids, fetched);
        let n = ids.len() - 1;
        assert forall|k: int| 0 <= k < pos1.len() implies pos[k] == pos1[k] && got[k] == got1[k]
            && ids[pos1[k]] == ids1[pos1[k]] && fetched[pos1[k]] == f1[pos1[k]] by {
            assert(0 <= pos1[k] < ids1.len());
        }
        assert forall|k: int| 0 <= k < pos.len() implies {
            &&& 0 <= #[trigger] pos[k] < ids.len()
            &&& fetched[pos[k]] is Ok
            &&& got[k] == (ids[pos[k]]@, fetched[pos[k]]->Ok_0@, endpoint(base, ids[pos[k]]@))
        } by {
            if k < pos1.len() {
                assert(pos[k] == pos1[k]);
                assert(0 <= pos1[k] < ids1.len());
            } else {
                assert(fetched.last() is Ok);
                assert(pos[k] == n);
            }
        }
        assert forall|k1: int, k2: int| 0 <= k1 < k2 < pos.len() implies pos[k1] < pos[k2] by {
            assert(pos[k1] == pos1[k1]);
            assert(0 <= pos1[k1] < ids1.len());
            if k2 < pos1.len() {
                assert(pos[k2] == pos1[k2]);
            } else {
                assert(pos[k2] == n);
            }
        }
        assert forall|i: int| 0 <= i < ids.len() && #[trigger] fetched[i] is Ok implies exists|k: int|
            0 <= k < pos.len() && #[trigger] pos[k] == i by {
            if i < n {
                assert(f1[i] is Ok);
                let k = choose|k: int| 0 <= k < pos1.len() && #[trigger] pos1[k] == i;
                assert(pos[k] == i);
            } else {
                assert(pos[pos.len() - 1] == i);
            }
        }
    }
}

} // verus!
