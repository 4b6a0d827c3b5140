//! The species record fetched from the upstream species API, the selection
//! of its English description, and the normalization of that text.

use vstd::prelude::*;

use crate::client_error::ClientError;
use crate::upstream::FetchOutcome;

verus! {

/// A species record, as the upstream species API reports it.
#[derive(Debug, PartialEq)]
pub struct Pokemon {
    pub id: i64,
    pub name: String,
    pub is_legendary: bool,
    pub habitat: Habitat,
    pub flavor_text_entries: Vec<FlavorTextEntry>,
}

/// The habitat a species lives in.
#[derive(Debug, PartialEq)]
pub struct Habitat {
    pub name: String,
    pub url: String,
}

/// One locale-tagged description of a species.
#[derive(Debug, PartialEq)]
pub struct FlavorTextEntry {
    pub flavor_text: String,
    pub language: Language,
}

/// The locale a description entry is written in.
#[derive(Debug, PartialEq)]
pub struct Language {
    pub name: String,
    pub url: String,
}

/// Whether a description entry is tagged with the English locale code.
pub open spec fn is_english(entry: FlavorTextEntry) -> bool {
    entry.language.name@ == "en"@
}

/// The index of the first English-locale entry, if any.
pub open spec fn english_index(entries: Seq<FlavorTextEntry>) -> Option<int>
    decreases entries.len(),
{
    if entries.len() == 0 {
        None
    } else if is_english(entries[0]) {
        Some(0int)
    } else {
        match english_index(entries.drop_first()) {
            None => None,
            Some(i) => Some(i + 1),
        }
    }
}

/// `english_index` returns exactly the position of the first English-locale
/// entry: `None` when there is none, and otherwise the least index whose
/// entry is English.
pub proof fn lemma_english_index_characterizes(entries: Seq<FlavorTextEntry>)
    ensures
        match english_index(entries) {
            None => forall|j: int| 0 <= j < entries.len() ==> !is_english(#[trigger] entries[j]),
            Some(i) => 0 <= i < entries.len() && is_english(entries[i]) && forall|j: int|
                0 <= j < i ==> !is_english(#[trigger] entries[j]),
        },
    decreases entries.len(),
{
    if entries.len() == 0 {
    } else if is_english(entries[0]) {
    } else {
        let rest = entries.drop_first();
        lemma_english_index_characterizes(rest);
        match english_index(rest) {
            None => {
                assert forall|j: int| 0 <= j < entries.len() implies !is_english(
                    #[trigger] entries[j],
                ) by {
                    if j > 0 {
                        assert(rest[j - 1] == entries[j]);
                        assert(!is_english(rest[j - 1]));
                    }
                }
            },
            Some(i) => {
                assert(english_index(entries) == Some(i + 1));
                assert(rest[i] == entries[i + 1]);
                assert forall|j: int| 0 <= j < i + 1 implies !is_english(
                    #[trigger] entries[j],
                ) by {
                    if j > 0 {
                        assert(rest[j - 1] == entries[j]);
                        assert(!is_english(rest[j - 1]));
                    }
                }
            },
        }
    }
}

/// One character of the normalization: embedded newline and form-feed
/// control characters become single spaces; everything else is kept.
pub open spec fn normalized_char(c: char) -> char {
    if c == '\n' || c == '\u{c}' {
        ' '
    } else {
        c
    }
}

/// The normalized form of a description text.
pub open spec fn normalize_text(s: Seq<char>) -> Seq<char> {
    s.map_values(|c: char| normalized_char(c))
}

/// Normalization replaces every newline and form feed with a single space
/// and leaves every other character in place, so the result contains no
/// newline or form-feed characters and keeps all word boundaries.
pub proof fn lemma_normalize_text_clean(s: Seq<char>)
    ensures
        normalize_text(s).len() == s.len(),
        forall|i: int|
            0 <= i < s.len() ==> #[trigger] normalize_text(s)[i] != '\n' && normalize_text(s)[i]
                != '\u{c}',
        forall|i: int|
            0 <= i < s.len() && (s[i] == '\n' || s[i] == '\u{c}') ==> #[trigger] normalize_text(
                s,
            )[i] == ' ',
        forall|i: int|
            0 <= i < s.len() && s[i] != '\n' && s[i] != '\u{c}' ==> #[trigger] normalize_text(s)[i]
                == s[i],
{
    assert forall|i: int| 0 <= i < s.len() implies #[trigger] normalize_text(s)[i]
        == normalized_char(s[i]) by {}
}

/// Relies on `String::push`: appends exactly one character at the end of
/// the string.
#[verifier::external_body]
fn push_char(s: &mut String, c: char)
    ensures
        final(s)@ == old(s)@.push(c),
{
    s.push(c);
}

/// Builds the normalized form of a description text: each newline or form
/// feed becomes a single space, every other character is kept.
pub fn normalize_description(text: &str) -> (r: String)
    ensures
        r@ == normalize_text(text@),
{
    let len = text.unicode_len();
    let mut out = String::new();
    let mut i: usize = 0;
    while i < len
        invariant
            len == text@.len(),
            i <= len,
            out@ == normalize_text(text@.subrange(0, i as int)),
        decreases len - i,
    {
        let c = text.get_char(i);
        let cn = if c == '\n' || c == '\u{c}' {
            ' '
        } else {
            c
        };
        push_char(&mut out, cn);
        proof {
            assert(out@ =~= normalize_text(text@.subrange(0, i + 1 as int)));
        }
        i += 1;
    }
    proof {
        assert(text@.subrange(0, len as int) =~= text@);
    }
    out
}

/// The description the pipeline reports for a species: the normalized text
/// of the first English-locale entry, or `None` when no entry is English.
pub open spec fn description_spec(p: Pokemon) -> Option<Seq<char>> {
    match english_index(p.flavor_text_entries@) {
        None => None,
        Some(i) => Some(normalize_text(p.flavor_text_entries@[i].flavor_text@)),
    }
}

impl Pokemon {
    /// Scans the description entries for the first one in the English
    /// locale and returns its normalized text; `None` when no entry is
    /// English (a valid state, not an error).
    pub fn get_description(&self) -> (r: Option<String>)
        ensures
            match r {
                Some(d) => description_spec(*self) == Some(d@),
                None => description_spec(*self) is None,
            },
    {
        let n = self.flavor_text_entries.len();
        let en = String::from_str("en");
        let mut i: usize = 0;
        while i < n
            invariant
                n == self.flavor_text_entries@.len(),
                i <= n,
                en@ == "en"@,
                forall|j: int| 0 <= j < i ==> !is_english(#[trigger] self.flavor_text_entries@[j]),
            decreases n - i,
        {
            if self.flavor_text_entries[i].language.name == en {
                proof {
                    lemma_english_index_characterizes(self.flavor_text_entries@);
                }
                return Some(normalize_description(self.flavor_text_entries[i].flavor_text.as_str()));
            }
            i += 1;
        }
        proof {
            lemma_english_index_characterizes(self.flavor_text_entries@);
        }
        None
    }
}

/// How the species client classifies one fetch outcome: a 200 with a
/// readable body is the species; a 200 whose body could not be read is a
/// deserialization error; a 404 means the species is absent; everything
/// else, including transport failure, is a generic upstream error.
pub open spec fn species_fetch_result(outcome: FetchOutcome<Pokemon>) -> Result<
    Pokemon,
    ClientError,
> {
    match outcome {
        FetchOutcome::TransportFailure => Err(ClientError::PokemonAPIError),
        FetchOutcome::Response { status, body } => {
            if status == 200 {
                match body {
                    Some(p) => Ok(p),
                    None => Err(ClientError::PokemonDeserializationError),
                }
            } else if status == 404 {
                Err(ClientError::PokemonNotFoundError)
            } else {
                Err(ClientError::PokemonAPIError)
            }
        },
    }
}

/// Maps the outcome of one species fetch to the typed result of the
/// species client boundary.
pub fn interpret_species_fetch(outcome: FetchOutcome<Pokemon>) -> (r: Result<Pokemon, ClientError>)
    ensures
        r == species_fetch_result(outcome),
{
    match outcome {
        FetchOutcome::TransportFailure => Err(ClientError::PokemonAPIError),
        FetchOutcome::Response { status, body } => {
            if status == 200 {
                match body {
                    Some(p) => Ok(p),
                    None => Err(ClientError::PokemonDeserializationError),
                }
            } else if status == 404 {
                Err(ClientError::PokemonNotFoundError)
            } else {
                Err(ClientError::PokemonAPIError)
            }
        },
    }
}

} // verus!
