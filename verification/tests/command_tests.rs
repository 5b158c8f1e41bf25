use pinboard_config::codec::{decode, encode};
use pinboard_config::command::{conclude, load, load_or_bootstrap, run, Outcome, SubCommand};
use pinboard_config::error::{ConfigError, DecodeError, LoadError, PersistError};
use pinboard_config::present::show_config;
use pinboard_config::record::{Configuration, Timestamp};
use pinboard_config::update::PartialUpdateSet;

fn nothing(display: bool) -> SubCommand {
    SubCommand::Config {
        display,
        auth_token: None,
        number_pins: None,
        number_tags: None,
        shared: None,
        toread: None,
        fuzzy: None,
        tags_only: None,
        auto_update: None,
        suggest_tags: None,
        check_bookmarked_page: None,
        show_url_vs_tags: None,
    }
}

fn with_token(token: &str) -> SubCommand {
    SubCommand::Config {
        display: false,
        auth_token: Some(String::from(token)),
        number_pins: None,
        number_tags: None,
        shared: None,
        toread: None,
        fuzzy: None,
        tags_only: None,
        auto_update: None,
        suggest_tags: None,
        check_bookmarked_page: None,
        show_url_vs_tags: None,
    }
}

fn stored() -> Configuration {
    Configuration {
        auth_token: String::from("user:secret"),
        pins_to_show: 7,
        tags_to_show: 12,
        private_new_pin: false,
        toread_new_pin: true,
        fuzzy_search: true,
        tag_only_search: false,
        auto_update_cache: false,
        suggest_tags: true,
        page_is_bookmarked: false,
        show_url_vs_tags: true,
        update_time: Timestamp { secs: 1_431_648_000, nanos: 0 },
    }
}

fn missing() -> Result<Vec<u8>, String> {
    Err(String::from("No such file or directory"))
}

#[test]
fn into_parts_maps_each_argument_to_its_field() {
    let x = SubCommand::Config {
        display: true,
        auth_token: Some(String::from("a:b")),
        number_pins: Some(1),
        number_tags: Some(2),
        shared: Some(true),
        toread: Some(false),
        fuzzy: Some(true),
        tags_only: Some(false),
        auto_update: Some(true),
        suggest_tags: Some(false),
        check_bookmarked_page: Some(true),
        show_url_vs_tags: Some(false),
    };
    let expected = PartialUpdateSet {
        auth_token: Some(String::from("a:b")),
        pins_to_show: Some(1),
        tags_to_show: Some(2),
        shared: Some(true),
        toread_new_pin: Some(false),
        fuzzy_search: Some(true),
        tag_only_search: Some(false),
        auto_update_cache: Some(true),
        suggest_tags: Some(false),
        page_is_bookmarked: Some(true),
        show_url_vs_tags: Some(false),
    };
    assert_eq!(x.into_parts(), (true, expected));
    assert_eq!(nothing(false).into_parts(), (false, PartialUpdateSet::empty()));
}

#[test]
fn load_reads_a_stored_record() {
    assert_eq!(load(Ok(encode(&stored()))), Ok(stored()));
}

#[test]
fn load_hands_on_the_stores_error() {
    assert_eq!(
        load(missing()),
        Err(LoadError::Unreadable(String::from("No such file or directory")))
    );
}

#[test]
fn load_names_what_is_wrong_with_the_bytes() {
    assert_eq!(load(Ok(vec![1, 2, 3])), Err(LoadError::Corrupt(DecodeError::Truncated)));
}

#[test]
fn persisted_record_loads_back_equal() {
    let c = stored();
    let bytes = encode(&c);
    assert_eq!(load(Ok(bytes)), Ok(c));
}

#[test]
fn stored_record_is_returned_unchanged() {
    assert_eq!(load_or_bootstrap(Ok(encode(&stored())), None), Ok(stored()));
    assert_eq!(load_or_bootstrap(Ok(encode(&stored())), Some("other:token")), Ok(stored()));
}

#[test]
fn missing_store_with_token_bootstraps_defaults() {
    let c = load_or_bootstrap(missing(), Some("user:secret")).unwrap();
    assert_eq!(c.auth_token, "user:secret");
    let mut rest = c;
    rest.auth_token = String::new();
    assert_eq!(rest, Configuration::new());
}

#[test]
fn missing_store_without_token_is_fatal() {
    assert_eq!(
        load_or_bootstrap(missing(), None),
        Err(ConfigError::LoadFailure(LoadError::Unreadable(String::from(
            "No such file or directory"
        ))))
    );
}

#[test]
fn corrupt_store_with_token_bootstraps_defaults() {
    assert_eq!(
        load_or_bootstrap(Ok(vec![0xff; 40]), Some("user:secret")),
        Ok(Configuration::with_token(String::from("user:secret")))
    );
}

#[test]
fn corrupt_store_without_token_is_fatal() {
    assert_eq!(
        load_or_bootstrap(Ok(vec![0xff; 40]), None),
        Err(ConfigError::LoadFailure(LoadError::Corrupt(DecodeError::UnsupportedVersion)))
    );
}

#[test]
fn run_refuses_a_malformed_token_whatever_the_store_holds() {
    assert_eq!(run(with_token("abc"), missing()), Err(ConfigError::InvalidTokenFormat));
    assert_eq!(
        run(with_token("abc"), Ok(encode(&stored()))),
        Err(ConfigError::InvalidTokenFormat)
    );
    assert_eq!(run(with_token(""), Ok(encode(&stored()))), Err(ConfigError::InvalidTokenFormat));
}

#[test]
fn run_without_token_on_a_missing_store_fails() {
    assert_eq!(
        run(nothing(true), missing()),
        Err(ConfigError::LoadFailure(LoadError::Unreadable(String::from(
            "No such file or directory"
        ))))
    );
}

#[test]
fn run_with_token_on_a_missing_store_starts_afresh() {
    let outcome = run(with_token("user:secret"), missing()).unwrap();
    assert_eq!(outcome.config, Configuration::with_token(String::from("user:secret")));
    assert!(!outcome.display);
    assert_eq!(decode(&outcome.stored_form), Ok(outcome.config));
}

#[test]
fn run_merges_into_the_stored_record() {
    let x = SubCommand::Config {
        display: true,
        auth_token: None,
        number_pins: Some(20),
        number_tags: None,
        shared: Some(false),
        toread: None,
        fuzzy: Some(false),
        tags_only: None,
        auto_update: None,
        suggest_tags: None,
        check_bookmarked_page: None,
        show_url_vs_tags: None,
    };
    let outcome = run(x, Ok(encode(&stored()))).unwrap();
    let mut expected = stored();
    expected.pins_to_show = 20;
    expected.private_new_pin = true;
    expected.fuzzy_search = false;
    assert_eq!(outcome.config, expected);
    assert!(outcome.display);
    assert_eq!(outcome.stored_form, encode(&expected));
}

#[test]
fn run_replaces_the_stored_token() {
    let outcome = run(with_token("new:token"), Ok(encode(&stored()))).unwrap();
    let mut expected = stored();
    expected.auth_token = String::from("new:token");
    assert_eq!(outcome.config, expected);
}

#[test]
fn run_with_nothing_to_change_keeps_the_record() {
    let outcome = run(nothing(false), Ok(encode(&stored()))).unwrap();
    assert_eq!(outcome.config, stored());
    assert_eq!(outcome.stored_form, encode(&stored()));
}

#[test]
fn failed_write_does_not_prevent_the_rows() {
    let x = SubCommand::Config {
        display: true,
        auth_token: None,
        number_pins: None,
        number_tags: Some(3),
        shared: None,
        toread: None,
        fuzzy: None,
        tags_only: None,
        auto_update: None,
        suggest_tags: None,
        check_bookmarked_page: None,
        show_url_vs_tags: None,
    };
    let outcome = run(x, Ok(encode(&stored()))).unwrap();
    let failed = conclude(&outcome, Err(String::from("disk full")), 0);
    let saved = conclude(&outcome, Ok(()), 0);
    let mut merged = stored();
    merged.tags_to_show = 3;
    let rows = show_config(&merged, 0);
    assert_eq!(rows[8].subtitle, Some(String::from("3")));
    assert_eq!(failed.items, Some(rows));
    assert_eq!(failed.items, saved.items);
    assert_eq!(failed.output, saved.output);
    assert!(failed.output.is_some());
    assert_eq!(failed.warning, Some(PersistError { cause: String::from("disk full") }));
    assert_eq!(saved.warning, None);
}

#[test]
fn nothing_is_shown_unless_asked() {
    let outcome = Outcome { config: stored(), stored_form: encode(&stored()), display: false };
    let report = conclude(&outcome, Ok(()), 0);
    assert_eq!(report.items, None);
    assert_eq!(report.output, None);
    assert_eq!(report.warning, None);
    let report = conclude(&outcome, Err(String::from("read-only")), 0);
    assert_eq!(report.items, None);
    assert_eq!(report.output, None);
    assert_eq!(report.warning, Some(PersistError { cause: String::from("read-only") }));
}

#[test]
fn errors_say_what_happened() {
    assert_eq!(ConfigError::InvalidTokenFormat.message(), "Invalid Auth Token format!");
    assert_eq!(
        ConfigError::LoadFailure(LoadError::Unreadable(String::from("gone"))).message(),
        "gone"
    );
    assert_eq!(
        ConfigError::LoadFailure(LoadError::Corrupt(DecodeError::Truncated)).message(),
        "stored record ends too early"
    );
    assert_eq!(LoadError::Unreadable(String::from("gone")).message(), "gone");
    assert_eq!(
        DecodeError::UnsupportedVersion.message(),
        "stored record has an unknown layout version"
    );
    assert_eq!(
        DecodeError::InvalidToggle.message(),
        "stored record holds a toggle that is neither 0 nor 1"
    );
    assert_eq!(DecodeError::InvalidText.message(), "stored token is not UTF-8");
    assert_eq!(DecodeError::InvalidToken.message(), "stored token has no separator");
    assert_eq!(
        PersistError { cause: String::from("disk full") }.message(),
        "Couldn't save config file: disk full"
    );
}
