//! The fixed-variant transformation client: always posts to the
//! Shakespeare-style endpoint. Its response payload and success rule are
//! the same as the general transformation client's.

use vstd::prelude::*;

use crate::client_error::ClientError;

verus! {

/// The payload of a successful Shakespeare-style transformation response.
#[derive(Debug, PartialEq)]
pub struct ShakespeareResponse {
    pub success: ShakespeareSuccess,
    pub contents: ShakespeareTextContents,
}

/// The text block of a Shakespeare-style transformation response.
#[derive(Debug, PartialEq)]
pub struct ShakespeareTextContents {
    pub translated: String,
    pub text: String,
    pub translation: String,
}

/// The success indicator of a Shakespeare-style transformation response.
#[derive(Debug, PartialEq)]
pub struct ShakespeareSuccess {
    pub total: i64,
}

impl ShakespeareResponse {
    /// The translated text of this response, usable only when the success
    /// indicator is exactly 1.
    pub fn get_translation(&self) -> (r: Result<String, ClientError>)
        ensures
            match r {
                Ok(s) => self.success.total == 1 && s@ == self.contents.translated@,
                Err(e) => self.success.total != 1 && e == ClientError::TranslationAPIError,
            },
    {
        if self.success.total == 1 {
            Ok(self.contents.translated.clone())
        } else {
            Err(ClientError::TranslationAPIError)
        }
    }
}

/// The endpoint the fixed-variant client posts to by default.
pub const BASE_URL: &'static str = "https://api.funtranslations.com/translate/shakespeare.json";

/// The immutable configuration of the fixed-variant transformation client:
/// the endpoint it posts to and the optional credential attached to each
/// request (absent means the credential header is omitted entirely).
pub struct ShakespeareClient {
    pub base_url: String,
    pub api_token: Option<String>,
}

impl ShakespeareClient {
    /// A client against the public endpoint, with no credential.
    pub fn new() -> (c: Self)
        ensures
            c.base_url@ == BASE_URL@,
            c.api_token is None,
    {
        Self { base_url: String::from_str(BASE_URL), api_token: None }
    }

    /// A client against the given endpoint, with the given optional
    /// credential.
    pub fn new_with_base_url(base_url: String, api_token: Option<String>) -> (c: Self)
        ensures
            c.base_url@ == base_url@,
            c.api_token == api_token,
    {
        Self { base_url, api_token }
    }
}

} // verus!
