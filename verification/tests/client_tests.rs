//! The client-boundary classifications: how the species client and the
//! transformation client map HTTP outcomes to typed results.

use pokespeare::client_error::ClientError;
use pokespeare::pokemon::{interpret_species_fetch, FlavorTextEntry, Habitat, Language, Pokemon};
use pokespeare::shakespeare::{
    ShakespeareClient, ShakespeareResponse, ShakespeareSuccess, ShakespeareTextContents,
};
use pokespeare::translation::{
    interpret_translation_fetch, TranslationResponse, TranslationSuccess, TranslationTextContents,
    TranslationType,
};
use pokespeare::upstream::FetchOutcome;

fn charizard() -> Pokemon {
    Pokemon {
        id: 6,
        name: "charizard".into(),
        is_legendary: false,
        habitat: Habitat {
            name: "urban".into(),
            url: "https://pokeapi.co/api/v2/pokemon-habitat/8/".into(),
        },
        flavor_text_entries: vec![FlavorTextEntry {
            flavor_text: "Spits fire that is hot enough to melt boulders.\nKnown to cause forest fires unintentionally.".into(),
            language: Language {
                name: "en".into(),
                url: "https://pokeapi.co/api/v2/language/9/".into(),
            },
        }],
    }
}

fn shakespeare_hello_body() -> ShakespeareResponse {
    ShakespeareResponse {
        success: ShakespeareSuccess { total: 1 },
        contents: ShakespeareTextContents {
            translated: "world hello".into(),
            text: "hello world".into(),
            translation: "shakespeare".into(),
        },
    }
}

fn translation_hello_body() -> TranslationResponse {
    TranslationResponse {
        success: TranslationSuccess { total: 1 },
        contents: TranslationTextContents {
            translated: "world hello".into(),
            text: "hello world".into(),
            translation: "shakespeare".into(),
        },
    }
}

#[test]
fn it_error_on_404() {
    let res = interpret_species_fetch(FetchOutcome::Response { status: 404, body: None });
    if let Err(err) = res {
        assert_eq!(err, ClientError::PokemonNotFoundError);
    } else {
        unreachable!();
    }
}

#[test]
fn pokemon_client_it_errors_on_invalid_data() {
    let res = interpret_species_fetch(FetchOutcome::Response { status: 200, body: None });
    if let Err(err) = res {
        assert_eq!(err, ClientError::PokemonDeserializationError);
    } else {
        unreachable!();
    }
}

#[test]
fn it_correctly_deserializes_pokemon_species() {
    let generated_pokemon = charizard();
    let res = interpret_species_fetch(FetchOutcome::Response {
        status: 200,
        body: Some(generated_pokemon),
    })
    .unwrap();
    assert_eq!(res, charizard());
}

#[test]
fn pokemon_client_it_errors_on_transport_failure() {
    let res = interpret_species_fetch(FetchOutcome::<Pokemon>::TransportFailure);
    assert_eq!(res, Err(ClientError::PokemonAPIError));
}

#[test]
fn pokemon_client_it_errors_on_500_response() {
    let res = interpret_species_fetch(FetchOutcome::<Pokemon>::Response { status: 500, body: None });
    assert_eq!(res, Err(ClientError::PokemonAPIError));
}

#[test]
fn shakespeare_client_it_returns_an_api_error_on_500_response() {
    let response = interpret_translation_fetch(FetchOutcome::<ShakespeareResponse>::Response {
        status: 500,
        body: None,
    });
    if let Err(err) = response {
        assert_eq!(err, ClientError::TranslationAPIError);
    } else {
        assert!(false);
    }
}

#[test]
fn shakespeare_client_it_errors_on_invalid_data() {
    let response = interpret_translation_fetch(FetchOutcome::<ShakespeareResponse>::Response {
        status: 200,
        body: None,
    });
    if let Err(err) = response {
        assert_eq!(err, ClientError::TranslationDeserializationError);
    } else {
        assert!(false);
    }
}

#[test]
fn shakespeare_client_it_successfully_deserializes_a_response() {
    let expected_body = shakespeare_hello_body();
    let response = interpret_translation_fetch(FetchOutcome::Response {
        status: 200,
        body: Some(expected_body),
    })
    .unwrap();
    assert_eq!(response, shakespeare_hello_body());
}

#[test]
fn shakespeare_client_it_successfully_sends_an_api_key() {
    let api_token = "an_api_token";
    let client = ShakespeareClient::new_with_base_url(
        "https://example.invalid".into(),
        Some(api_token.into()),
    );
    assert_eq!(client.api_token.as_deref(), Some(api_token));
    let response = interpret_translation_fetch(FetchOutcome::Response {
        status: 200,
        body: Some(shakespeare_hello_body()),
    })
    .unwrap();
    assert_eq!(response, shakespeare_hello_body());
}

#[test]
fn shakespeare_client_it_successfully_gets_translation() {
    let response = interpret_translation_fetch(FetchOutcome::Response {
        status: 200,
        body: Some(shakespeare_hello_body()),
    })
    .unwrap();
    let translation = response.get_translation().unwrap();
    assert_eq!(translation, "world hello");
}

#[test]
fn shakespeare_client_it_stores_the_default_endpoint() {
    let client = ShakespeareClient::new();
    assert_eq!(
        client.base_url,
        "https://api.funtranslations.com/translate/shakespeare.json"
    );
    assert!(client.api_token.is_none());
}

#[test]
fn shakespeare_response_it_errors_on_zero_total() {
    let response = ShakespeareResponse {
        success: ShakespeareSuccess { total: 0 },
        contents: ShakespeareTextContents {
            translated: "world hello".into(),
            text: "hello world".into(),
            translation: "shakespeare".into(),
        },
    };
    assert_eq!(
        response.get_translation(),
        Err(ClientError::TranslationAPIError)
    );
}

#[test]
fn translation_client_it_returns_an_api_error_on_500_response() {
    assert_eq!(TranslationType::YODA.as_url(), "translate/yoda.json");
    let response = interpret_translation_fetch(FetchOutcome::<TranslationResponse>::Response {
        status: 500,
        body: None,
    });
    if let Err(err) = response {
        assert_eq!(err, ClientError::TranslationAPIError);
    } else {
        unreachable!();
    }
}

#[test]
fn translation_client_it_errors_on_invalid_data() {
    let response = interpret_translation_fetch(FetchOutcome::<TranslationResponse>::Response {
        status: 200,
        body: None,
    });
    if let Err(err) = response {
        assert_eq!(err, ClientError::TranslationDeserializationError);
    } else {
        unreachable!();
    }
}

#[test]
fn translation_client_it_successfully_deserializes_a_response() {
    assert_eq!(
        TranslationType::SHAKESPEARE.as_url(),
        "translate/shakespeare.json"
    );
    let response = interpret_translation_fetch(FetchOutcome::Response {
        status: 200,
        body: Some(translation_hello_body()),
    })
    .unwrap();
    assert_eq!(response, translation_hello_body());
}

#[test]
fn translation_client_it_successfully_gets_translation() {
    let response = interpret_translation_fetch(FetchOutcome::Response {
        status: 200,
        body: Some(translation_hello_body()),
    })
    .unwrap();
    let translation = response.get_translation().unwrap();
    assert_eq!(translation, "world hello");
}

#[test]
fn translation_client_it_errors_on_transport_failure() {
    let response = interpret_translation_fetch(FetchOutcome::<TranslationResponse>::TransportFailure);
    if let Err(err) = response {
        assert_eq!(err, ClientError::TranslationAPIError);
    } else {
        unreachable!();
    }
}

#[test]
fn translation_client_it_returns_too_many_requests_on_429() {
    let response = interpret_translation_fetch(FetchOutcome::<TranslationResponse>::Response {
        status: 429,
        body: None,
    });
    if let Err(err) = response {
        assert_eq!(err, ClientError::TranslationTooManyRequestsError);
    } else {
        unreachable!();
    }
}

#[test]
fn translation_response_it_errors_on_multiple_total() {
    let response = TranslationResponse {
        success: TranslationSuccess { total: 2 },
        contents: TranslationTextContents {
            translated: "world hello".into(),
            text: "hello world".into(),
            translation: "shakespeare".into(),
        },
    };
    assert_eq!(
        response.get_translation(),
        Err(ClientError::TranslationAPIError)
    );
}

#[test]
fn client_error_messages_are_exact() {
    assert_eq!(
        ClientError::PokemonNotFoundError.message(),
        "Failed to find pokemon"
    );
    assert_eq!(
        ClientError::PokemonDeserializationError.message(),
        "Failed to deserialize pokemon data"
    );
    assert_eq!(ClientError::PokemonAPIError.message(), "Failed to get pokemon");
    assert_eq!(
        ClientError::TranslationDeserializationError.message(),
        "Failed to deserialize shakespeare data"
    );
    assert_eq!(
        ClientError::TranslationAPIError.message(),
        "Failed to get shakespeare translation"
    );
    assert_eq!(
        ClientError::TranslationTooManyRequestsError.message(),
        "Failed to get shakespeare translation, too many requests"
    );
}
