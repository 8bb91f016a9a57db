//! The providers and what sets them apart: where they live, how they take
//! the API key, and when they are told that the payload is JSON.

use vstd::prelude::*;

verus! {

/// A translation provider the backend can forward a request to.
#[derive(Clone, Copy, Debug, PartialEq, Eq, Structural)]
pub enum Provider {
    OpenAi,
    DeepL,
    Google,
}

/// How a provider expects the API key to be presented.
#[derive(Clone, Copy, Debug, PartialEq, Eq, Structural)]
pub enum AuthScheme {
    /// HTTP bearer authentication, the key being the token.
    Bearer,
    /// `Authorization: DeepL-Auth-Key <key>`.
    DeepLAuthKey,
    /// `key=<key>` appended to the URL's query string.
    QueryKey,
}

impl Provider {
    /// The base URL used when the caller gives none.
    pub open spec fn spec_default_base_url(self) -> Seq<char> {
        match self {
            Provider::OpenAi => "https://api.openai.com"@,
            Provider::DeepL => "https://api-free.deepl.com"@,
            Provider::Google => "https://translation.googleapis.com"@,
        }
    }

    /// The way this provider takes the API key.
    pub open spec fn spec_auth_scheme(self) -> AuthScheme {
        match self {
            Provider::OpenAi => AuthScheme::Bearer,
            Provider::DeepL => AuthScheme::DeepLAuthKey,
            Provider::Google => AuthScheme::QueryKey,
        }
    }

    /// Whether the JSON content type is announced even when no body is sent.
    /// The other providers announce it only together with a body.
    pub open spec fn spec_always_json(self) -> bool {
        self == Provider::OpenAi
    }

    /// The text reported when the API key is empty.
    pub open spec fn spec_missing_key_message(self) -> Seq<char> {
        match self {
            Provider::OpenAi => "Missing OpenAI API key"@,
            Provider::DeepL => "Missing DeepL API key"@,
            Provider::Google => "Missing Google API key"@,
        }
    }

    /// The base URL used when the caller gives none.
    pub fn default_base_url(self) -> (url: &'static str)
        ensures
            url@ == self.spec_default_base_url(),
    {
        match self {
            Provider::OpenAi => "https://api.openai.com",
            Provider::DeepL => "https://api-free.deepl.com",
            Provider::Google => "https://translation.googleapis.com",
        }
    }

    /// The way this provider takes the API key.
    pub fn auth_scheme(self) -> (scheme: AuthScheme)
        ensures
            scheme == self.spec_auth_scheme(),
    {
        match self {
            Provider::OpenAi => AuthScheme::Bearer,
            Provider::DeepL => AuthScheme::DeepLAuthKey,
            Provider::Google => AuthScheme::QueryKey,
        }
    }

    /// Whether the JSON content type is announced even when no body is sent.
    pub fn always_json(self) -> (always: bool)
        ensures
            always == self.spec_always_json(),
    {
        match self {
            Provider::OpenAi => true,
            _ => false,
        }
    }

    /// The text reported when the API key is empty.
    pub fn missing_key_message(self) -> (text: &'static str)
        ensures
            text@ == self.spec_missing_key_message(),
    {
        match self {
            Provider::OpenAi => "Missing OpenAI API key",
            Provider::DeepL => "Missing DeepL API key",
            Provider::Google => "Missing Google API key",
        }
    }
}

} // verus!
