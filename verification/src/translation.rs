//! The transformation client boundary: the payload the text-transformation
//! API answers with, the two transformation variants, and the
//! classification of one transformation call's outcome.

use vstd::prelude::*;

use crate::client_error::ClientError;
use crate::upstream::FetchOutcome;

verus! {

/// The payload of a successful transformation response.
#[derive(Debug, PartialEq)]
pub struct TranslationResponse {
    pub success: TranslationSuccess,
    pub contents: TranslationTextContents,
}

/// The text block of a transformation response.
#[derive(Debug, PartialEq)]
pub struct TranslationTextContents {
    pub translated: String,
    pub text: String,
    pub translation: String,
}

/// The success indicator of a transformation response. Only `total == 1`
/// makes the translated text trustworthy.
#[derive(Debug, PartialEq)]
pub struct TranslationSuccess {
    pub total: i64,
}

impl TranslationResponse {
    /// The translated text of this response, usable only when the success
    /// indicator is exactly 1; any other value is an application-level
    /// failure even on a 200 response.
    pub fn get_translation(&self) -> (r: Result<String, ClientError>)
        ensures
            match r {
                Ok(s) => self.success.total == 1 && s@ == self.contents.translated@,
                Err(e) => self.success.total != 1 && e == ClientError::TranslationAPIError,
            },
    {
        if self.success.total == 1 {
            Ok(self.contents.translated.clone())
        } else {
            Err(ClientError::TranslationAPIError)
        }
    }
}

/// The two text-rewriting styles the transformation API offers.
#[derive(Clone, Copy, Debug, PartialEq, Eq, Structural)]
pub enum TranslationType {
    YODA,
    SHAKESPEARE,
}

impl TranslationType {
    /// The endpoint path suffix of this variant.
    pub open spec fn as_url_spec(self) -> Seq<char> {
        match self {
            TranslationType::YODA => "translate/yoda.json"@,
            TranslationType::SHAKESPEARE => "translate/shakespeare.json"@,
        }
    }

    /// The endpoint path suffix the transformation call is posted to.
    pub fn as_url(&self) -> (r: &'static str)
        ensures
            r@ == self.as_url_spec(),
    {
        match self {
            TranslationType::YODA => "translate/yoda.json",
            TranslationType::SHAKESPEARE => "translate/shakespeare.json",
        }
    }
}

/// How the transformation client classifies one call's outcome: a 200 with
/// a readable body is that body; a 200 whose body could not be read is a
/// deserialization error; a 429 is the rate-limit error; everything else,
/// including transport failure, is a generic upstream error.
pub open spec fn translation_fetch_result<T>(outcome: FetchOutcome<T>) -> Result<T, ClientError> {
    match outcome {
        FetchOutcome::TransportFailure => Err(ClientError::TranslationAPIError),
        FetchOutcome::Response { status, body } => {
            if status == 200 {
                match body {
                    Some(r) => Ok(r),
                    None => Err(ClientError::TranslationDeserializationError),
                }
            } else if status == 429 {
                Err(ClientError::TranslationTooManyRequestsError)
            } else {
                Err(ClientError::TranslationAPIError)
            }
        },
    }
}

/// Maps the outcome of one transformation call to the typed result of the
/// transformation client boundary.
pub fn interpret_translation_fetch<T>(outcome: FetchOutcome<T>) -> (r: Result<T, ClientError>)
    ensures
        r == translation_fetch_result(outcome),
{
    match outcome {
        FetchOutcome::TransportFailure => Err(ClientError::TranslationAPIError),
        FetchOutcome::Response { status, body } => {
            if status == 200 {
                match body {
                    Some(r) => Ok(r),
                    None => Err(ClientError::TranslationDeserializationError),
                }
            } else if status == 429 {
                Err(ClientError::TranslationTooManyRequestsError)
            } else {
                Err(ClientError::TranslationAPIError)
            }
        },
    }
}

} // verus!
