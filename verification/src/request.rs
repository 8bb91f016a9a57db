//! From a command's arguments to the HTTP request that is to be sent.
//!
//! A request is prepared in full before anything is sent: the arguments are
//! checked, the URL is resolved and the headers are chosen by the provider's
//! profile. What comes out is plain data for the host to put on the wire.

use vstd::prelude::*;
use crate::method::{method_of, parse_method, Method};
use crate::provider::{AuthScheme, Provider};
use crate::text::{contains_char, text_of};

verus! {

/// Seconds after which the host gives up on a request.
pub const TIMEOUT_SECS: u64 = 30;

/// A header line of a request.
#[derive(Debug, PartialEq, Eq)]
pub struct Header {
    pub name: String,
    pub value: String,
}

/// A header line as text.
pub struct HeaderView {
    pub name: Seq<char>,
    pub value: Seq<char>,
}

impl View for Header {
    type V = HeaderView;

    open spec fn view(&self) -> HeaderView {
        HeaderView { name: self.name@, value: self.value@ }
    }
}

/// A request ready to be sent: nothing in it is left to decide.
#[derive(Debug, PartialEq, Eq)]
pub struct PreparedRequest {
    pub method: Method,
    /// The absolute URL, query string included.
    pub url: String,
    /// The token to authenticate with by HTTP bearer authentication, where
    /// the provider takes the key so. It is attached before the headers.
    pub bearer_token: Option<String>,
    /// The headers, in the order in which they are to be attached.
    pub headers: Vec<Header>,
    /// The payload, passed through as the caller gave it.
    pub body: Option<String>,
    /// Seconds the host waits before it gives up.
    pub timeout_secs: u64,
}

/// A prepared request as text.
pub struct RequestView {
    pub method: Method,
    pub url: Seq<char>,
    pub bearer_token: Option<Seq<char>>,
    pub headers: Seq<HeaderView>,
    pub body: Option<Seq<char>>,
    pub timeout_secs: u64,
}

/// A list of header lines as text.
pub open spec fn header_views(headers: Seq<Header>) -> Seq<HeaderView> {
    headers.map_values(|h: Header| h@)
}

impl View for PreparedRequest {
    type V = RequestView;

    open spec fn view(&self) -> RequestView {
        RequestView {
            method: self.method,
            url: self.url@,
            bearer_token: text_of(self.bearer_token),
            headers: header_views(self.headers@),
            body: text_of(self.body),
            timeout_secs: self.timeout_secs,
        }
    }
}

/// Why no request was prepared.
#[derive(Clone, Copy, Debug, PartialEq, Eq, Structural)]
pub enum RequestError {
    /// The API key for the provider was empty.
    MissingApiKey(Provider),
    /// The method is none of GET, POST, PUT, PATCH and DELETE.
    UnsupportedMethod,
}

impl RequestError {
    /// The text by which the error is reported.
    pub open spec fn spec_message(self) -> Seq<char> {
        match self {
            RequestError::MissingApiKey(provider) => provider.spec_missing_key_message(),
            RequestError::UnsupportedMethod => "Unsupported method"@,
        }
    }

    /// The text reported to the caller, as a string of its own.
    pub fn message(self) -> (text: String)
        ensures
            text@ == self.spec_message(),
    {
        match self {
            RequestError::MissingApiKey(provider) => String::from_str(
                provider.missing_key_message(),
            ),
            RequestError::UnsupportedMethod => String::from_str("Unsupported method"),
        }
    }
}

/// The base URL in force: the caller's, or else the provider's own.
pub open spec fn spec_base(provider: Provider, base_url: Option<Seq<char>>) -> Seq<char> {
    match base_url {
        Some(base) => base,
        None => provider.spec_default_base_url(),
    }
}

/// What joins the API key to a path: `&` after a query string, else `?`.
pub open spec fn spec_key_separator(path: Seq<char>) -> Seq<char> {
    if path.contains('?') {
        seq!['&']
    } else {
        seq!['?']
    }
}

/// The URL a request goes to. The path follows the base as it is; where the
/// provider takes the key in the query string, `key=<api_key>` follows the
/// path.
pub open spec fn spec_url(
    provider: Provider,
    api_key: Seq<char>,
    base_url: Option<Seq<char>>,
    path: Seq<char>,
) -> Seq<char> {
    let plain = spec_base(provider, base_url) + path;
    match provider.spec_auth_scheme() {
        AuthScheme::QueryKey => plain + spec_key_separator(path) + "key="@ + api_key,
        _ => plain,
    }
}

/// The bearer token of a request: the API key, where the provider takes it
/// by bearer authentication.
pub open spec fn spec_bearer_token(provider: Provider, api_key: Seq<char>) -> Option<Seq<char>> {
    match provider.spec_auth_scheme() {
        AuthScheme::Bearer => Some(api_key),
        _ => None,
    }
}

/// The header that carries the API key, for providers that take it in a
/// header of their own.
pub open spec fn spec_auth_header(provider: Provider, api_key: Seq<char>) -> Option<HeaderView> {
    match provider.spec_auth_scheme() {
        AuthScheme::DeepLAuthKey => Some(
            HeaderView { name: "Authorization"@, value: "DeepL-Auth-Key "@ + api_key },
        ),
        _ => None,
    }
}

/// The header that announces a JSON payload.
pub open spec fn spec_json_header() -> HeaderView {
    HeaderView { name: "Content-Type"@, value: "application/json"@ }
}

/// The headers of a request: the key, where it goes in a header of its own,
/// then the content type, where the provider always wants it or a body is
/// sent.
pub open spec fn spec_headers(provider: Provider, api_key: Seq<char>, has_body: bool) -> Seq<
    HeaderView,
> {
    let auth = match spec_auth_header(provider, api_key) {
        Some(header) => seq![header],
        None => Seq::empty(),
    };
    if provider.spec_always_json() || has_body {
        auth.push(spec_json_header())
    } else {
        auth
    }
}

/// Whether a header of the given name is among `headers`.
pub open spec fn has_header(headers: Seq<HeaderView>, name: Seq<char>) -> bool {
    exists|i: int| 0 <= i < headers.len() && (#[trigger] headers[i]).name == name
}

/// The request that a command's arguments stand for, `method` being what the
/// method argument was recognized as. An empty key is reported first, an
/// unrecognized method second.
pub open spec fn spec_request(
    provider: Provider,
    api_key: Seq<char>,
    base_url: Option<Seq<char>>,
    method: Option<Method>,
    path: Seq<char>,
    body: Option<Seq<char>>,
) -> Result<RequestView, RequestError> {
    if api_key.len() == 0 {
        Err(RequestError::MissingApiKey(provider))
    } else {
        match method {
            None => Err(RequestError::UnsupportedMethod),
            Some(m) => Ok(
                RequestView {
                    method: m,
                    url: spec_url(provider, api_key, base_url, path),
                    bearer_token: spec_bearer_token(provider, api_key),
                    headers: spec_headers(provider, api_key, body is Some),
                    body: body,
                    timeout_secs: TIMEOUT_SECS,
                },
            ),
        }
    }
}

/// The outcome of preparing a request, as text.
pub open spec fn prepared(r: Result<PreparedRequest, RequestError>) -> Result<
    RequestView,
    RequestError,
> {
    match r {
        Ok(request) => Ok(request@),
        Err(e) => Err(e),
    }
}

/// Resolves the URL of a request.
pub fn resolve_url(provider: Provider, api_key: &str, base_url: Option<String>, path: &str) -> (url:
    String)
    ensures
        url@ == spec_url(provider, api_key@, text_of(base_url), path@),
{
    let base = match base_url {
        Some(base) => base,
        None => String::from_str(provider.default_base_url()),
    };
    let plain = base.concat(path);
    proof {
        reveal_strlit("&");
        reveal_strlit("?");
        assert("&"@ =~= seq!['&']);
        assert("?"@ =~= seq!['?']);
    }
    match provider.auth_scheme() {
        AuthScheme::QueryKey => {
            let separator = if contains_char(path, '?') {
                "&"
            } else {
                "?"
            };
            plain.concat(separator).concat("key=").concat(api_key)
        },
        _ => plain,
    }
}

/// Chooses the headers of a request.
pub fn request_headers(provider: Provider, api_key: &str, has_body: bool) -> (headers: Vec<Header>)
    ensures
        header_views(headers@) == spec_headers(provider, api_key@, has_body),
{
    let mut headers: Vec<Header> = Vec::new();
    match provider.auth_scheme() {
        AuthScheme::DeepLAuthKey => {
            headers.push(
                Header {
                    name: String::from_str("Authorization"),
                    value: String::from_str("DeepL-Auth-Key ").concat(api_key),
                },
            );
        },
        _ => {},
    }
    if provider.always_json() || has_body {
        headers.push(
            Header {
                name: String::from_str("Content-Type"),
                value: String::from_str("application/json"),
            },
        );
    }
    headers
}

/// Prepares a request whose method has been recognized already.
pub fn assemble_request(
    provider: Provider,
    api_key: String,
    base_url: Option<String>,
    method: Option<Method>,
    path: String,
    body: Option<String>,
) -> (r: Result<PreparedRequest, RequestError>)
    ensures
        prepared(r) == spec_request(
            provider,
            api_key@,
            text_of(base_url),
            method,
            path@,
            text_of(body),
        ),
{
    if api_key.as_str().is_empty() {
        return Err(RequestError::MissingApiKey(provider));
    }
    let method = match method {
        Some(m) => m,
        None => {
            return Err(RequestError::UnsupportedMethod);
        },
    };
    let url = resolve_url(provider, api_key.as_str(), base_url, path.as_str());
    let headers = request_headers(provider, api_key.as_str(), body.is_some());
    let bearer_token = match provider.auth_scheme() {
        AuthScheme::Bearer => Some(api_key),
        _ => None,
    };
    Ok(PreparedRequest { method, url, bearer_token, headers, body, timeout_secs: TIMEOUT_SECS })
}

/// Prepares a request from a command's arguments. An empty key is refused
/// whatever else is given; with a key, a method that is none of the five is
/// refused. Either way there is no request, so nothing is sent.
pub fn prepare_request(
    provider: Provider,
    api_key: String,
    base_url: Option<String>,
    method: String,
    path: String,
    body: Option<String>,
) -> (r: Result<PreparedRequest, RequestError>)
    ensures
        prepared(r) == spec_request(
            provider,
            api_key@,
            text_of(base_url),
            method_of(method@),
            path@,
            text_of(body),
        ),
        api_key@.len() == 0 ==> r == Err::<PreparedRequest, _>(
            RequestError::MissingApiKey(provider),
        ),
        api_key@.len() > 0 && method_of(method@) is None ==> r == Err::<PreparedRequest, _>(
            RequestError::UnsupportedMethod,
        ),
        api_key@.len() > 0 && method_of(method@) is Some ==> r is Ok,
{
    let recognized = parse_method(method.as_str());
    assemble_request(provider, api_key, base_url, recognized, path, body)
}

/// Prepares a request to an OpenAI-style API: the key is the bearer token,
/// and the JSON content type is announced with or without a body.
pub fn openai_request(
    api_key: String,
    base_url: Option<String>,
    method: String,
    path: String,
    body: Option<String>,
) -> (r: Result<PreparedRequest, RequestError>)
    ensures
        api_key@.len() == 0 ==> r == Err::<PreparedRequest, _>(
            RequestError::MissingApiKey(Provider::OpenAi),
        ),
        api_key@.len() > 0 && method_of(method@) is None ==> r == Err::<PreparedRequest, _>(
            RequestError::UnsupportedMethod,
        ),
        api_key@.len() > 0 ==> (method_of(method@) matches Some(m) ==> r matches Ok(request)
            && request@ == (RequestView {
            method: m,
            url: spec_base(Provider::OpenAi, text_of(base_url)) + path@,
            bearer_token: Some(api_key@),
            headers: seq![(HeaderView { name: "Content-Type"@, value: "application/json"@ })],
            body: text_of(body),
            timeout_secs: 30,
        })),
{
    prepare_request(Provider::OpenAi, api_key, base_url, method, path, body)
}

/// Prepares a request to DeepL: the key goes in a `DeepL-Auth-Key`
/// authorization header, and the JSON content type is announced only
/// together with a body.
pub fn deepl_request(
    api_key: String,
    base_url: Option<String>,
    method: String,
    path: String,
    body: Option<String>,
) -> (r: Result<PreparedRequest, RequestError>)
    ensures
        api_key@.len() == 0 ==> r == Err::<PreparedRequest, _>(
            RequestError::MissingApiKey(Provider::DeepL),
        ),
        api_key@.len() > 0 && method_of(method@) is None ==> r == Err::<PreparedRequest, _>(
            RequestError::UnsupportedMethod,
        ),
        api_key@.len() > 0 ==> (method_of(method@) matches Some(m) ==> r matches Ok(request)
            && request@ == (RequestView {
            method: m,
            url: spec_base(Provider::DeepL, text_of(base_url)) + path@,
            bearer_token: None,
            headers: if body is Some {
                seq![
                    (HeaderView { name: "Authorization"@, value: "DeepL-Auth-Key "@ + api_key@ }),
                    (HeaderView { name: "Content-Type"@, value: "application/json"@ }),
                ]
            } else {
                seq![
                    (HeaderView { name: "Authorization"@, value: "DeepL-Auth-Key "@ + api_key@ }),
                ]
            },
            body: text_of(body),
            timeout_secs: 30,
        })),
        r matches Ok(request) ==> has_header(request@.headers, "Content-Type"@) == (body is Some),
{
    proof {
        let auth = HeaderView { name: "Authorization"@, value: "DeepL-Auth-Key "@ + api_key@ };
        assert(seq![auth].push(spec_json_header()) =~= seq![auth, spec_json_header()]);
        lemma_content_type_announced(Provider::DeepL, api_key@, body is Some);
    }
    prepare_request(Provider::DeepL, api_key, base_url, method, path, body)
}

/// Prepares a request to Google Translate: the key goes in the URL as the
/// query parameter `key`, joined by `&` where the path has a query string
/// already and by `?` where it has none. Nothing else carries it, and the
/// JSON content type is announced only together with a body.
pub fn google_request(
    api_key: String,
    base_url: Option<String>,
    method: String,
    path: String,
    body: Option<String>,
) -> (r: Result<PreparedRequest, RequestError>)
    ensures
        api_key@.len() == 0 ==> r == Err::<PreparedRequest, _>(
            RequestError::MissingApiKey(Provider::Google),
        ),
        api_key@.len() > 0 && method_of(method@) is None ==> r == Err::<PreparedRequest, _>(
            RequestError::UnsupportedMethod,
        ),
        api_key@.len() > 0 ==> (method_of(method@) matches Some(m) ==> r matches Ok(request)
            && request@ == (RequestView {
            method: m,
            url: spec_base(Provider::Google, text_of(base_url)) + path@ + (if path@.contains('?') {
                seq!['&']
            } else {
                seq!['?']
            }) + "key="@ + api_key@,
            bearer_token: None,
            headers: if body is Some {
                seq![(HeaderView { name: "Content-Type"@, value: "application/json"@ })]
            } else {
                Seq::empty()
            },
            body: text_of(body),
            timeout_secs: 30,
        })),
{
    prepare_request(Provider::Google, api_key, base_url, method, path, body)
}

/// A request announces the JSON content type exactly when its provider
/// always wants it announced or a body is sent.
pub proof fn lemma_content_type_announced(provider: Provider, api_key: Seq<char>, has_body: bool)
    ensures
        has_header(spec_headers(provider, api_key, has_body), "Content-Type"@) == (
        provider.spec_always_json() || has_body),
{
    reveal_strlit("Authorization");
    reveal_strlit("Content-Type");
    let headers = spec_headers(provider, api_key, has_body);
    assert("Authorization"@ != "Content-Type"@) by {
        assert("Authorization"@[0] == 'A');
        assert("Content-Type"@[0] == 'C');
    }
    if provider.spec_always_json() || has_body {
        assert(headers[headers.len() - 1].name == "Content-Type"@);
    }
}

} // verus!
