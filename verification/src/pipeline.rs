//! The orchestration pipeline: variant selection, the outward response
//! payload, the fallback policy for failed transformation calls, and the
//! per-route decision functions that the HTTP surface drives.
//!
//! The pipeline is linear: fetch the species, select and normalize its
//! English description, select the transformation variant, call the
//! transformation API, and absorb any transformation failure by
//! substituting the untranslated text. The network calls themselves happen
//! outside; their outcomes come in as [`FetchOutcome`] values.

use vstd::prelude::*;

use crate::client_error::ClientError;
use crate::pokemon::{description_spec, interpret_species_fetch, species_fetch_result, Pokemon};
use crate::translation::{interpret_translation_fetch, TranslationResponse, TranslationType};
use crate::upstream::FetchOutcome;

verus! {

/// The outward payload of both endpoints: the species name, the (possibly
/// absent, possibly rewritten) description, the legendary flag and the
/// habitat name. Built once per request, never mutated afterwards.
#[derive(Debug, PartialEq)]
pub struct PokemonResponse {
    pub name: String,
    pub description: Option<String>,
    pub is_legendary: bool,
    pub habitat: String,
}

/// Whether an outward payload `r` reports species `p` with description `d`.
pub open spec fn response_matches(r: PokemonResponse, p: Pokemon, d: Option<Seq<char>>) -> bool {
    &&& r.name@ == p.name@
    &&& r.is_legendary == p.is_legendary
    &&& r.habitat@ == p.habitat.name@
    &&& match d {
        None => r.description is None,
        Some(s) => r.description matches Some(rd) && rd@ == s,
    }
}

impl PokemonResponse {
    /// The outward payload for a species, carrying its normalized English
    /// description untouched.
    pub fn from(pokemon: Pokemon) -> (r: Self)
        ensures
            response_matches(r, pokemon, description_spec(pokemon)),
    {
        let description = pokemon.get_description();
        Self {
            name: pokemon.name,
            description,
            is_legendary: pokemon.is_legendary,
            habitat: pokemon.habitat.name,
        }
    }
}

/// The transformation variant chosen for a species: the alternate style
/// for cave-dwelling or legendary species, the default style otherwise.
pub open spec fn variant_spec(p: Pokemon) -> TranslationType {
    if p.habitat.name@ == "cave"@ || p.is_legendary {
        TranslationType::YODA
    } else {
        TranslationType::SHAKESPEARE
    }
}

/// Variant selection is a pure function of the habitat name and the
/// legendary flag: a cave habitat or a legendary species selects the
/// alternate style, and nothing else does.
pub proof fn lemma_variant_selection_pure(p: Pokemon)
    ensures
        (p.habitat.name@ == "cave"@ || p.is_legendary) <==> variant_spec(p)
            == TranslationType::YODA,
        !(p.habitat.name@ == "cave"@ || p.is_legendary) <==> variant_spec(p)
            == TranslationType::SHAKESPEARE,
{
}

/// Selects the transformation variant for a species, from the
/// already-fetched species data alone.
pub fn select_translation_type(pokemon: &Pokemon) -> (t: TranslationType)
    ensures
        t == variant_spec(*pokemon),
{
    let cave = String::from_str("cave");
    if pokemon.habitat.name == cave || pokemon.is_legendary {
        TranslationType::YODA
    } else {
        TranslationType::SHAKESPEARE
    }
}

/// The trustworthy translated text carried by a transformation outcome:
/// present exactly when the call answered 200 with a readable payload
/// whose success indicator is 1.
pub open spec fn translated_text_of(outcome: FetchOutcome<TranslationResponse>) -> Option<
    Seq<char>,
> {
    match outcome {
        FetchOutcome::TransportFailure => None,
        FetchOutcome::Response { status, body } => match body {
            Some(resp) => if status == 200 && resp.success.total == 1 {
                Some(resp.contents.translated@)
            } else {
                None
            },
            None => None,
        },
    }
}

/// The description the pipeline reports after the transformation call:
/// the translated text when the call can be trusted, the untranslated
/// text `d` otherwise. Every transformation failure is absorbed here;
/// none propagates to the caller.
pub open spec fn fallback_description(
    d: Seq<char>,
    outcome: FetchOutcome<TranslationResponse>,
) -> Seq<char> {
    match translated_text_of(outcome) {
        Some(t) => t,
        None => d,
    }
}

/// When the transformation call is rate-limited (HTTP 429), the reported
/// description is exactly the normalized, untranslated text.
pub proof fn lemma_rate_limited_falls_back(d: Seq<char>, body: Option<TranslationResponse>)
    ensures
        fallback_description(d, FetchOutcome::Response { status: 429, body }) == d,
{
}

/// A 200 response whose payload cannot be trusted (success indicator other
/// than 1, or an unreadable body) falls back exactly as a rate-limited
/// call does.
pub proof fn lemma_malformed_payload_like_rate_limited(
    d: Seq<char>,
    resp: TranslationResponse,
    body: Option<TranslationResponse>,
)
    requires
        resp.success.total != 1,
    ensures
        fallback_description(d, FetchOutcome::Response { status: 200, body: Some(resp) })
            == fallback_description(d, FetchOutcome::Response { status: 429, body }),
        fallback_description(d, FetchOutcome::Response { status: 200, body: None })
            == fallback_description(d, FetchOutcome::Response { status: 429, body }),
{
}

/// Builds the outward payload once the transformation call has come back:
/// the translated text when the outcome can be trusted, the untranslated
/// `text` on any transformation failure.
pub fn conclude_translated(
    pokemon: &Pokemon,
    text: &str,
    outcome: FetchOutcome<TranslationResponse>,
) -> (r: PokemonResponse)
    ensures
        response_matches(r, *pokemon, Some(fallback_description(text@, outcome))),
{
    let description = match interpret_translation_fetch(outcome) {
        Ok(resp) => match resp.get_translation() {
            Ok(translated) => Some(translated),
            Err(_) => Some(String::from_str(text)),
        },
        Err(_) => Some(String::from_str(text)),
    };
    PokemonResponse {
        name: pokemon.name.clone(),
        description,
        is_legendary: pokemon.is_legendary,
        habitat: pokemon.habitat.name.clone(),
    }
}

/// What a route answers: a payload served with status 200, or an error
/// body served with the given status.
pub enum RouteReply {
    Success(PokemonResponse),
    Failure { status: u16, error: String },
}

/// The HTTP status a species-client error maps to: 404 for an absent
/// species, 500 for everything else.
pub open spec fn species_error_status(e: ClientError) -> u16 {
    if e == ClientError::PokemonNotFoundError {
        404
    } else {
        500
    }
}

/// The error body a species-client error maps to.
pub open spec fn species_error_message(e: ClientError) -> Seq<char> {
    if e == ClientError::PokemonNotFoundError {
        "Failed to find pokemon"@
    } else {
        "Failed to get pokemon"@
    }
}

/// Maps a species-client error to the status and error body the route
/// answers with.
pub fn species_error_reply(error: &ClientError) -> (r: (u16, String))
    ensures
        r.0 == species_error_status(*error),
        r.1@ == species_error_message(*error),
{
    match error {
        ClientError::PokemonNotFoundError => (404, String::from_str("Failed to find pokemon")),
        _ => (500, String::from_str("Failed to get pokemon")),
    }
}

/// The whole decision of the plain species route: classify the fetch
/// outcome, and either serve the species with its untranslated description
/// or map the error to a status and body. No transformation call is ever
/// involved.
pub fn species_route_reply(outcome: FetchOutcome<Pokemon>) -> (r: RouteReply)
    ensures
        match species_fetch_result(outcome) {
            Ok(p) => r matches RouteReply::Success(resp) && response_matches(
                resp,
                p,
                description_spec(p),
            ),
            Err(e) => r matches RouteReply::Failure { status, error } && status
                == species_error_status(e) && error@ == species_error_message(e),
        },
{
    match interpret_species_fetch(outcome) {
        Ok(pokemon) => RouteReply::Success(PokemonResponse::from(pokemon)),
        Err(e) => {
            let (status, error) = species_error_reply(&e);
            RouteReply::Failure { status, error }
        },
    }
}

/// The first decision of the translated route, taken from the species
/// fetch outcome alone.
pub enum TranslatedStep {
    /// The route is already decided: an error reply, or a success with no
    /// description. No transformation call is made.
    Done(RouteReply),
    /// A transformation call is required: post `text` to the endpoint of
    /// `translation_type`, then conclude with the call's outcome.
    Translate { pokemon: Pokemon, text: String, translation_type: TranslationType },
}

/// The first half of the translated route: classify the species fetch
/// outcome and decide whether a transformation call is needed. An absent
/// or unreadable species ends the route at once — in particular, a species
/// the upstream API reports as absent never causes a transformation call —
/// and so does a species with no English description.
pub fn translated_route_begin(outcome: FetchOutcome<Pokemon>) -> (step: TranslatedStep)
    ensures
        match species_fetch_result(outcome) {
            Err(e) => step matches TranslatedStep::Done(reply) && reply
                matches RouteReply::Failure { status, error } && status == species_error_status(e)
                && error@ == species_error_message(e),
            Ok(p) => match description_spec(p) {
                None => step matches TranslatedStep::Done(reply) && reply
                    matches RouteReply::Success(resp) && response_matches(resp, p, None),
                Some(d) => step matches TranslatedStep::Translate {
                    pokemon,
                    text,
                    translation_type,
                } && pokemon == p && text@ == d && translation_type == variant_spec(p),
            },
        },
{
    match interpret_species_fetch(outcome) {
        Err(e) => {
            let (status, error) = species_error_reply(&e);
            TranslatedStep::Done(RouteReply::Failure { status, error })
        },
        Ok(pokemon) => {
            let translation_type = select_translation_type(&pokemon);
            match pokemon.get_description() {
                Some(text) => TranslatedStep::Translate { pokemon, text, translation_type },
                None => TranslatedStep::Done(RouteReply::Success(PokemonResponse::from(pokemon))),
            }
        },
    }
}

} // verus!
