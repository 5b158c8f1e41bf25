use crate::error::ConfigError;
use vstd::prelude::*;

verus! {

/// Whether `token` holds the character that parts the user from the secret.
pub open spec fn has_separator(token: Seq<char>) -> bool {
    token.contains(':')
}

/// Whether a token that may be absent can go on: an absent one always can.
pub open spec fn token_ok(token: Option<Seq<char>>) -> bool {
    token matches Some(t) ==> has_separator(t)
}

/// The view of a token that may be absent.
pub open spec fn token_view(token: Option<String>) -> Option<Seq<char>> {
    match token {
        Some(t) => Some(t@),
        None => None,
    }
}

/// The view of a borrowed token that may be absent.
pub open spec fn str_view(token: Option<&str>) -> Option<Seq<char>> {
    match token {
        Some(t) => Some(t@),
        None => None,
    }
}

/// Looks for the separator in `token`.
pub fn contains_separator(token: &str) -> (found: bool)
    ensures
        found == has_separator(token@),
{
    let mut found = false;
    for c in it: token.chars()
        invariant
            it.seq() == token@,
            found == exists|j: int| 0 <= j < it.index() && token@[j] == ':',
    {
        if c == ':' {
            found = true;
        }
    }
    found
}

/// Borrows a token that may be absent.
pub fn borrowed(token: &Option<String>) -> (b: Option<&str>)
    ensures
        str_view(b) == token_view(*token),
{
    match token {
        Some(t) => Some(t.as_str()),
        None => None,
    }
}

/// Checks a token that the caller supplied, before anything is loaded.
/// An absent token asks for no change and passes; a supplied one passes
/// unchanged if it holds the separator, and is refused if it does not.
pub fn validate_token(raw: Option<&str>) -> (r: Result<Option<&str>, ConfigError>)
    ensures
        token_ok(str_view(raw)) ==> r == Ok::<Option<&str>, ConfigError>(raw),
        !token_ok(str_view(raw)) ==> r == Err::<Option<&str>, ConfigError>(
            ConfigError::InvalidTokenFormat,
        ),
{
    let valid = match raw {
        Some(token) => contains_separator(token),
        None => true,
    };
    if valid {
        Ok(raw)
    } else {
        Err(ConfigError::InvalidTokenFormat)
    }
}

} // verus!
