use crate::error::DecodeError;
use crate::record::{Configuration, ConfigurationView, Timestamp};
use crate::token::contains_separator;
use vstd::bytes::*;
use vstd::prelude::*;
use vstd::slice::*;
use vstd::string::*;
use vstd::utf8::*;

verus! {

/// The layout that `encode` writes, named by the record's first byte.
pub const FORMAT_VERSION: u8 = 1;

/// Where the eight toggles start: behind the version and the two limits.
pub const TOGGLES_AT: usize = 3;

/// Where the seconds of the refresh time start (8 bytes).
pub const SECS_AT: usize = 11;

/// Where the nanoseconds of the refresh time start (4 bytes).
pub const NANOS_AT: usize = 19;

/// Where the token's length in bytes starts (8 bytes).
pub const TOKEN_LEN_AT: usize = 23;

/// Where the token starts: the length of all that stands before it.
pub const HEADER_LEN: usize = 31;

/// A toggle as its byte.
pub open spec fn toggle_byte(on: bool) -> u8 {
    if on {
        1
    } else {
        0
    }
}

/// A signed count of seconds as an unsigned one: shifted up by 2^63.
pub open spec fn biased(secs: i64) -> u64 {
    (secs + 0x8000_0000_0000_0000) as u64
}

/// The signed count that `biased` maps to `raw`.
pub open spec fn unbiased(raw: u64) -> i64 {
    (raw - 0x8000_0000_0000_0000) as i64
}

/// The stored form of a record: the fixed header, then the token in UTF-8.
/// Integers wider than a byte are little-endian.
pub open spec fn encoded(c: ConfigurationView) -> Seq<u8> {
    seq![
        FORMAT_VERSION,
        c.pins_to_show,
        c.tags_to_show,
        toggle_byte(c.private_new_pin),
        toggle_byte(c.toread_new_pin),
        toggle_byte(c.fuzzy_search),
        toggle_byte(c.tag_only_search),
        toggle_byte(c.auto_update_cache),
        toggle_byte(c.suggest_tags),
        toggle_byte(c.page_is_bookmarked),
        toggle_byte(c.show_url_vs_tags),
    ] + spec_u64_to_le_bytes(biased(c.update_time.secs)) + spec_u32_to_le_bytes(
        c.update_time.nanos,
    ) + spec_u64_to_le_bytes(encode_utf8(c.auth_token).len() as u64) + encode_utf8(c.auth_token)
}

/// The token length that the header of `bytes` announces.
pub open spec fn announced_len(bytes: Seq<u8>) -> u64 {
    spec_u64_from_le_bytes(bytes.subrange(TOKEN_LEN_AT as int, HEADER_LEN as int))
}

/// The bytes of `bytes` that hold the token.
pub open spec fn token_bytes(bytes: Seq<u8>) -> Seq<u8> {
    bytes.subrange(HEADER_LEN as int, HEADER_LEN + announced_len(bytes))
}

/// The record that `bytes` stores, or why they store none. Bytes after the
/// token are not looked at, so that a later layout may add fields there.
pub open spec fn decoded(bytes: Seq<u8>) -> Result<ConfigurationView, DecodeError> {
    if bytes.len() < HEADER_LEN {
        Err(DecodeError::Truncated)
    } else if bytes[0] != FORMAT_VERSION {
        Err(DecodeError::UnsupportedVersion)
    } else if exists|i: int| TOGGLES_AT <= i < SECS_AT && bytes[i] > 1 {
        Err(DecodeError::InvalidToggle)
    } else if bytes.len() - HEADER_LEN < announced_len(bytes) {
        Err(DecodeError::Truncated)
    } else if !valid_utf8(token_bytes(bytes)) {
        Err(DecodeError::InvalidText)
    } else {
        let c = ConfigurationView {
            auth_token: decode_utf8(token_bytes(bytes)),
            pins_to_show: bytes[1],
            tags_to_show: bytes[2],
            private_new_pin: bytes[3] == 1,
            toread_new_pin: bytes[4] == 1,
            fuzzy_search: bytes[5] == 1,
            tag_only_search: bytes[6] == 1,
            auto_update_cache: bytes[7] == 1,
            suggest_tags: bytes[8] == 1,
            page_is_bookmarked: bytes[9] == 1,
            show_url_vs_tags: bytes[10] == 1,
            update_time: Timestamp {
                secs: unbiased(
                    spec_u64_from_le_bytes(bytes.subrange(SECS_AT as int, NANOS_AT as int)),
                ),
                nanos: spec_u32_from_le_bytes(
                    bytes.subrange(NANOS_AT as int, TOKEN_LEN_AT as int),
                ),
            },
        };
        if c.wf() {
            Ok(c)
        } else {
            Err(DecodeError::InvalidToken)
        }
    }
}

fn toggle_to_byte(on: bool) -> (b: u8)
    ensures
        b == toggle_byte(on),
{
    if on {
        1
    } else {
        0
    }
}

fn bias(secs: i64) -> (raw: u64)
    ensures
        raw == biased(secs),
{
    (secs as i128 + 0x8000_0000_0000_0000i128) as u64
}

fn unbias(raw: u64) -> (secs: i64)
    ensures
        secs == unbiased(raw),
{
    (raw as i128 - 0x8000_0000_0000_0000i128) as i64
}

/// `core::str::from_utf8` of std: the text that `bytes` encode, if they are
/// UTF-8, and nothing if they are not.
#[verifier::external_body]
fn text_of(bytes: &[u8]) -> (text: Option<&str>)
    ensures
        text matches Some(s) ==> valid_utf8(bytes@) && s@ == decode_utf8(bytes@),
        text is None ==> !valid_utf8(bytes@),
{
    core::str::from_utf8(bytes).ok()
}

/// Writes `config` in its stored form.
pub fn encode(config: &Configuration) -> (bytes: Vec<u8>)
    ensures
        bytes@ == encoded(config@),
{
    let mut out: Vec<u8> = Vec::new();
    out.push(FORMAT_VERSION);
    out.push(config.pins_to_show);
    out.push(config.tags_to_show);
    out.push(toggle_to_byte(config.private_new_pin));
    out.push(toggle_to_byte(config.toread_new_pin));
    out.push(toggle_to_byte(config.fuzzy_search));
    out.push(toggle_to_byte(config.tag_only_search));
    out.push(toggle_to_byte(config.auto_update_cache));
    out.push(toggle_to_byte(config.suggest_tags));
    out.push(toggle_to_byte(config.page_is_bookmarked));
    out.push(toggle_to_byte(config.show_url_vs_tags));
    let mut secs = u64_to_le_bytes(bias(config.update_time.secs));
    out.append(&mut secs);
    let mut nanos = u32_to_le_bytes(config.update_time.nanos);
    out.append(&mut nanos);
    let mut token = config.auth_token.as_str().as_bytes_vec();
    let mut len = u64_to_le_bytes(token.len() as u64);
    out.append(&mut len);
    out.append(&mut token);
    assert(out@ =~= encoded(config@));
    out
}

/// Reads a record back from its stored form. Each error comes exactly on
/// the inputs that `decoded` names for it.
pub fn decode(bytes: &[u8]) -> (r: Result<Configuration, DecodeError>)
    ensures
        match r {
            Ok(c) => decoded(bytes@) == Ok::<ConfigurationView, DecodeError>(c@),
            Err(e) => decoded(bytes@) == Err::<ConfigurationView, DecodeError>(e),
        },
{
    if bytes.len() < HEADER_LEN {
        return Err(DecodeError::Truncated);
    }
    if bytes[0] != FORMAT_VERSION {
        return Err(DecodeError::UnsupportedVersion);
    }
    let mut i: usize = TOGGLES_AT;
    while i < SECS_AT
        invariant
            TOGGLES_AT <= i <= SECS_AT,
            bytes@.len() >= HEADER_LEN,
            bytes@[0] == FORMAT_VERSION,
            forall|j: int| TOGGLES_AT <= j < i ==> bytes@[j] <= 1,
        decreases SECS_AT - i,
    {
        if bytes[i] > 1 {
            assert(TOGGLES_AT <= i < SECS_AT && bytes@[i as int] > 1);
            return Err(DecodeError::InvalidToggle);
        }
        i += 1;
    }
    let secs = unbias(u64_from_le_bytes(slice_subrange(bytes, SECS_AT, NANOS_AT)));
    let nanos = u32_from_le_bytes(slice_subrange(bytes, NANOS_AT, TOKEN_LEN_AT));
    let announced = u64_from_le_bytes(slice_subrange(bytes, TOKEN_LEN_AT, HEADER_LEN));
    if ((bytes.len() - HEADER_LEN) as u64) < announced {
        return Err(DecodeError::Truncated);
    }
    let end = HEADER_LEN + announced as usize;
    let token = match text_of(slice_subrange(bytes, HEADER_LEN, end)) {
        Some(text) => text,
        None => {
            return Err(DecodeError::InvalidText);
        },
    };
    if !token.is_empty() && !contains_separator(token) {
        return Err(DecodeError::InvalidToken);
    }
    Ok(
        Configuration {
            auth_token: String::from_str(token),
            pins_to_show: bytes[1],
            tags_to_show: bytes[2],
            private_new_pin: bytes[3] == 1,
            toread_new_pin: bytes[4] == 1,
            fuzzy_search: bytes[5] == 1,
            tag_only_search: bytes[6] == 1,
            auto_update_cache: bytes[7] == 1,
            suggest_tags: bytes[8] == 1,
            page_is_bookmarked: bytes[9] == 1,
            show_url_vs_tags: bytes[10] == 1,
            update_time: Timestamp { secs, nanos },
        },
    )
}

/// Reading what `encode` wrote gives the record back, in every field, and
/// whatever bytes follow it.
pub proof fn decode_inverts_encode(c: ConfigurationView, rest: Seq<u8>)
    requires
        c.wf(),
        encode_utf8(c.auth_token).len() <= u64::MAX,
    ensures
        decoded(encoded(c) + rest) == Ok::<ConfigurationView, DecodeError>(c),
        decoded(encoded(c)) == Ok::<ConfigurationView, DecodeError>(c),
{
    lemma_stored_bytes_give_record(c, rest);
    lemma_stored_bytes_give_record(c, Seq::empty());
    assert(encoded(c) + Seq::<u8>::empty() =~= encoded(c));
}

proof fn lemma_stored_bytes_give_record(c: ConfigurationView, rest: Seq<u8>)
    requires
        c.wf(),
        encode_utf8(c.auth_token).len() <= u64::MAX,
    ensures
        decoded(encoded(c) + rest) == Ok::<ConfigurationView, DecodeError>(c),
{
    let b = encoded(c) + rest;
    let secs = spec_u64_to_le_bytes(biased(c.update_time.secs));
    let nanos = spec_u32_to_le_bytes(c.update_time.nanos);
    let token = encode_utf8(c.auth_token);
    let len = spec_u64_to_le_bytes(token.len() as u64);
    lemma_auto_spec_u64_to_from_le_bytes();
    lemma_auto_spec_u32_to_from_le_bytes();
    assert(b.subrange(SECS_AT as int, NANOS_AT as int) =~= secs);
    assert(b.subrange(NANOS_AT as int, TOKEN_LEN_AT as int) =~= nanos);
    assert(b.subrange(TOKEN_LEN_AT as int, HEADER_LEN as int) =~= len);
    assert(token_bytes(b) =~= token);
    encode_utf8_valid_utf8(c.auth_token);
    encode_utf8_decode_utf8(c.auth_token);
}

} // verus!
