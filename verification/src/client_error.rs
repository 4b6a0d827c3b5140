//! The error taxonomy of the two upstream client boundaries.
//!
//! Each variant is produced by exactly one boundary: the `Pokemon*` variants
//! by the species fetch, the `Translation*` variants by the transformation
//! call. Nothing re-classifies an error once it is produced.

use vstd::prelude::*;

verus! {

#[derive(Clone, Copy, Debug, PartialEq, Eq, Structural)]
pub enum ClientError {
    /// The species API reported the requested name as absent (HTTP 404).
    PokemonNotFoundError,
    /// The species API answered 200 but the body could not be read as a species.
    PokemonDeserializationError,
    /// Transport failure or any other status from the species API.
    PokemonAPIError,
    /// The transformation API answered 200 but the body could not be trusted.
    TranslationDeserializationError,
    /// Transport failure or any other status from the transformation API.
    TranslationAPIError,
    /// The transformation API answered 429.
    TranslationTooManyRequestsError,
}

impl ClientError {
    /// The human-readable description of this error.
    pub open spec fn message_spec(self) -> Seq<char> {
        match self {
            ClientError::PokemonNotFoundError => "Failed to find pokemon"@,
            ClientError::PokemonDeserializationError => "Failed to deserialize pokemon data"@,
            ClientError::PokemonAPIError => "Failed to get pokemon"@,
            ClientError::TranslationDeserializationError => "Failed to deserialize shakespeare data"@,
            ClientError::TranslationAPIError => "Failed to get shakespeare translation"@,
            ClientError::TranslationTooManyRequestsError => "Failed to get shakespeare translation, too many requests"@,
        }
    }

    pub fn message(&self) -> (r: String)
        ensures
            r@ == self.message_spec(),
    {
        match self {
            ClientError::PokemonNotFoundError => String::from_str("Failed to find pokemon"),
            ClientError::PokemonDeserializationError => String::from_str("Failed to deserialize pokemon data"),
            ClientError::PokemonAPIError => String::from_str("Failed to get pokemon"),
            ClientError::TranslationDeserializationError => String::from_str("Failed to deserialize shakespeare data"),
            ClientError::TranslationAPIError => String::from_str("Failed to get shakespeare translation"),
            ClientError::TranslationTooManyRequestsError => String::from_str("Failed to get shakespeare translation, too many requests"),
        }
    }
}

} // verus!
