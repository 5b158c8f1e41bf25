use pinboard_config::codec::{decode, encode, FORMAT_VERSION, HEADER_LEN};
use pinboard_config::error::DecodeError;
use pinboard_config::record::{Configuration, Timestamp};

fn stored_sample() -> Vec<u8> {
    let mut bytes = vec![1, 10, 10, 1, 0, 0, 0, 1, 0, 1, 1];
    bytes.extend_from_slice(&[1, 0, 0, 0, 0, 0, 0, 0x80]);
    bytes.extend_from_slice(&[2, 0, 0, 0]);
    bytes.extend_from_slice(&[3, 0, 0, 0, 0, 0, 0, 0]);
    bytes.extend_from_slice(b"u:s");
    bytes
}

fn record_sample() -> Configuration {
    let mut c = Configuration::with_token(String::from("u:s"));
    c.update_time = Timestamp { secs: 1, nanos: 2 };
    c
}

#[test]
fn layout_constants() {
    assert_eq!(FORMAT_VERSION, 1);
    assert_eq!(HEADER_LEN, 31);
}

#[test]
fn encode_writes_the_layout() {
    assert_eq!(encode(&record_sample()), stored_sample());
}

#[test]
fn encode_of_the_default_record() {
    let bytes = encode(&Configuration::new());
    assert_eq!(bytes.len(), 31);
    assert_eq!(&bytes[..11], &[1, 10, 10, 1, 0, 0, 0, 1, 0, 1, 1]);
    assert_eq!(&bytes[11..19], &[0, 0, 0, 0, 0, 0, 0, 0x80]);
    assert_eq!(&bytes[19..], &[0; 12]);
}

#[test]
fn decode_reads_the_layout() {
    assert_eq!(decode(&stored_sample()), Ok(record_sample()));
}

#[test]
fn decode_gives_back_what_encode_wrote() {
    let records = [
        Configuration::new(),
        record_sample(),
        Configuration {
            auth_token: String::from("üser:sécret\n= 日本"),
            pins_to_show: 0,
            tags_to_show: 255,
            private_new_pin: false,
            toread_new_pin: true,
            fuzzy_search: true,
            tag_only_search: true,
            auto_update_cache: false,
            suggest_tags: true,
            page_is_bookmarked: false,
            show_url_vs_tags: false,
            update_time: Timestamp { secs: -1, nanos: 1_999_999_999 },
        },
        Configuration {
            update_time: Timestamp { secs: i64::MIN, nanos: 0 },
            ..record_sample()
        },
        Configuration {
            update_time: Timestamp { secs: i64::MAX, nanos: u32::MAX },
            ..record_sample()
        },
    ];
    for record in records {
        assert_eq!(decode(&encode(&record)), Ok(record));
    }
}

#[test]
fn seconds_are_stored_shifted_by_two_to_the_63() {
    let at = |secs: i64| {
        let c = Configuration { update_time: Timestamp { secs, nanos: 0 }, ..record_sample() };
        encode(&c)[11..19].to_vec()
    };
    assert_eq!(at(i64::MIN), vec![0, 0, 0, 0, 0, 0, 0, 0]);
    assert_eq!(at(-1), vec![0xff, 0xff, 0xff, 0xff, 0xff, 0xff, 0xff, 0x7f]);
    assert_eq!(at(0), vec![0, 0, 0, 0, 0, 0, 0, 0x80]);
    assert_eq!(at(i64::MAX), vec![0xff, 0xff, 0xff, 0xff, 0xff, 0xff, 0xff, 0xff]);
}

#[test]
fn decode_ignores_bytes_after_the_token() {
    let mut bytes = stored_sample();
    bytes.extend_from_slice(&[9, 9, 9, 0xff]);
    assert_eq!(decode(&bytes), Ok(record_sample()));
}

#[test]
fn decode_refuses_a_short_header() {
    assert_eq!(decode(&[]), Err(DecodeError::Truncated));
    assert_eq!(decode(&stored_sample()[..30]), Err(DecodeError::Truncated));
}

#[test]
fn decode_refuses_an_unknown_version() {
    let mut bytes = stored_sample();
    bytes[0] = 2;
    assert_eq!(decode(&bytes), Err(DecodeError::UnsupportedVersion));
    bytes[0] = 0;
    assert_eq!(decode(&bytes), Err(DecodeError::UnsupportedVersion));
}

#[test]
fn decode_refuses_a_toggle_that_is_no_toggle() {
    for i in 3..11 {
        let mut bytes = stored_sample();
        bytes[i] = 2;
        assert_eq!(decode(&bytes), Err(DecodeError::InvalidToggle));
    }
}

#[test]
fn decode_refuses_a_token_that_ends_early() {
    assert_eq!(decode(&stored_sample()[..33]), Err(DecodeError::Truncated));
    let mut bytes = stored_sample();
    bytes[30] = 0xff;
    assert_eq!(decode(&bytes), Err(DecodeError::Truncated));
}

#[test]
fn decode_refuses_a_token_that_is_not_utf8() {
    let mut bytes = stored_sample();
    bytes[31] = 0xff;
    assert_eq!(decode(&bytes), Err(DecodeError::InvalidText));
}

#[test]
fn decode_refuses_a_token_without_separator() {
    let mut bytes = stored_sample();
    bytes[32] = b'-';
    assert_eq!(decode(&bytes), Err(DecodeError::InvalidToken));
}

#[test]
fn decode_takes_an_empty_token() {
    let bytes = encode(&Configuration::new());
    assert_eq!(decode(&bytes), Ok(Configuration::new()));
}

#[test]
fn version_is_judged_before_toggles() {
    let mut bytes = stored_sample();
    bytes[0] = 7;
    bytes[3] = 7;
    assert_eq!(decode(&bytes), Err(DecodeError::UnsupportedVersion));
}
