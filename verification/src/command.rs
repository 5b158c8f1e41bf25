use crate::codec::{decode, decode_inverts_encode, decoded, encode, encoded};
use crate::error::{ConfigError, LoadError, PersistError};
use crate::present::{
    display_rows, item_views, last_update_text, script_filter, script_filter_json, show_config,
    DisplayItem, DisplayItemView,
};
use crate::record::{bootstrapped, Configuration, ConfigurationView};
use crate::token::{borrowed, str_view, token_ok, token_view, validate_token};
use crate::update::{merge, merged, PartialUpdateSet, PartialUpdateSetView};
use vstd::prelude::*;
use vstd::string::*;
use vstd::utf8::encode_utf8;

verus! {

/// What the command line asked for.
#[derive(Clone, Debug, PartialEq, Eq)]
pub enum SubCommand {
    /// Change preferences, and show them if `display` is set. Each value
    /// that the command line did not give is `None`.
    Config {
        display: bool,
        auth_token: Option<String>,
        number_pins: Option<u8>,
        number_tags: Option<u8>,
        shared: Option<bool>,
        toread: Option<bool>,
        fuzzy: Option<bool>,
        tags_only: Option<bool>,
        auto_update: Option<bool>,
        suggest_tags: Option<bool>,
        check_bookmarked_page: Option<bool>,
        show_url_vs_tags: Option<bool>,
    },
}

impl SubCommand {
    /// Whether the record is to be shown at the end of the run.
    pub open spec fn display(self) -> bool {
        self->display
    }

    /// The updates that the command carries.
    pub open spec fn updates(self) -> PartialUpdateSetView {
        PartialUpdateSetView {
            auth_token: token_view(self->auth_token),
            pins_to_show: self->number_pins,
            tags_to_show: self->number_tags,
            shared: self->shared,
            toread_new_pin: self->toread,
            fuzzy_search: self->fuzzy,
            tag_only_search: self->tags_only,
            auto_update_cache: self->auto_update,
            suggest_tags: self->suggest_tags,
            page_is_bookmarked: self->check_bookmarked_page,
            show_url_vs_tags: self->show_url_vs_tags,
        }
    }

    /// Parts the display flag from the updates.
    pub fn into_parts(self) -> (parts: (bool, PartialUpdateSet))
        ensures
            parts.0 == self.display(),
            parts.1@ == self.updates(),
    {
        match self {
            SubCommand::Config {
                display,
                auth_token,
                number_pins,
                number_tags,
                shared,
                toread,
                fuzzy,
                tags_only,
                auto_update,
                suggest_tags,
                check_bookmarked_page,
                show_url_vs_tags,
            } => (
                display,
                PartialUpdateSet {
                    auth_token,
                    pins_to_show: number_pins,
                    tags_to_show: number_tags,
                    shared,
                    toread_new_pin: toread,
                    fuzzy_search: fuzzy,
                    tag_only_search: tags_only,
                    auto_update_cache: auto_update,
                    suggest_tags,
                    page_is_bookmarked: check_bookmarked_page,
                    show_url_vs_tags,
                },
            ),
        }
    }
}

/// What a run leaves when it did not fail.
#[derive(Clone, Debug, PartialEq, Eq)]
pub struct Outcome {
    /// The merged record.
    pub config: Configuration,
    /// The merged record in its stored form: what the store is to write.
    pub stored_form: Vec<u8>,
    /// Whether the record is to be shown.
    pub display: bool,
}

/// What is left to do once the store has answered the write.
#[derive(Clone, Debug, PartialEq, Eq)]
pub struct Report {
    /// The rows to show, if the command asked for them.
    pub items: Option<Vec<DisplayItem>>,
    /// The rows as the document that the host reads, if there are rows and
    /// they could be written.
    pub output: Option<Vec<u8>>,
    /// The failed write, to be reported; the run goes on all the same.
    pub warning: Option<PersistError>,
}

/// What the store's answer to a read amounts to: the record that its bytes
/// hold, or why there is none.
pub open spec fn loaded(stored: Result<Vec<u8>, String>) -> Result<ConfigurationView, LoadError> {
    match stored {
        Ok(bytes) => match decoded(bytes@) {
            Ok(c) => Ok(c),
            Err(e) => Err(LoadError::Corrupt(e)),
        },
        Err(cause) => Err(LoadError::Unreadable(cause)),
    }
}

/// The record that a run starts from. A record that loads is taken as it
/// is. Where none loads, a supplied token starts a fresh record; without
/// one the run fails with the load's error.
pub open spec fn load_or_bootstrap_spec(
    stored: Result<Vec<u8>, String>,
    candidate_token: Option<Seq<char>>,
) -> Result<ConfigurationView, ConfigError> {
    match loaded(stored) {
        Ok(c) => Ok(c),
        Err(e) => match candidate_token {
            Some(token) => Ok(bootstrapped(token)),
            None => Err(ConfigError::LoadFailure(e)),
        },
    }
}

/// What a run comes to: the merged record and the display flag, or the
/// error that ends it. The token is judged before the store's answer is
/// looked at.
pub open spec fn run_spec(x: SubCommand, stored: Result<Vec<u8>, String>) -> Result<
    (ConfigurationView, bool),
    ConfigError,
> {
    if !token_ok(x.updates().auth_token) {
        Err(ConfigError::InvalidTokenFormat)
    } else {
        match load_or_bootstrap_spec(stored, x.updates().auth_token) {
            Ok(c) => Ok((merged(c, x.updates()), x.display())),
            Err(e) => Err(e),
        }
    }
}

/// Turns the store's answer to a read into a record.
pub fn load(stored: Result<Vec<u8>, String>) -> (r: Result<Configuration, LoadError>)
    ensures
        match r {
            Ok(c) => loaded(stored) == Ok::<ConfigurationView, LoadError>(c@),
            Err(e) => loaded(stored) == Err::<ConfigurationView, LoadError>(e),
        },
        r matches Ok(c) ==> c@.wf(),
{
    match stored {
        Ok(bytes) => match decode(bytes.as_slice()) {
            Ok(c) => Ok(c),
            Err(e) => Err(LoadError::Corrupt(e)),
        },
        Err(cause) => Err(LoadError::Unreadable(cause)),
    }
}

/// Gives the record that a run starts from: the stored one if it loads,
/// else a fresh one around `candidate_token`, else the load's error.
pub fn load_or_bootstrap(stored: Result<Vec<u8>, String>, candidate_token: Option<&str>) -> (r:
    Result<Configuration, ConfigError>)
    ensures
        match r {
            Ok(c) => load_or_bootstrap_spec(stored, str_view(candidate_token)) == Ok::<
                ConfigurationView,
                ConfigError,
            >(c@),
            Err(e) => load_or_bootstrap_spec(stored, str_view(candidate_token)) == Err::<
                ConfigurationView,
                ConfigError,
            >(e),
        },
        token_ok(str_view(candidate_token)) ==> (r matches Ok(c) ==> c@.wf()),
{
    match load(stored) {
        Ok(c) => Ok(c),
        Err(e) => match candidate_token {
            Some(token) => Ok(Configuration::with_token(String::from_str(token))),
            None => Err(ConfigError::LoadFailure(e)),
        },
    }
}

/// Runs the command against the store's answer to a read: validates the
/// token, loads or bootstraps the record, and merges the updates into it.
/// A malformed token fails the run whatever the store answered, so a caller
/// may check it with `validate_token` and spare the read. The caller hands
/// the outcome's stored form to the store and the store's answer to
/// `conclude`. What is handed to the store is the merged record and
/// nothing else: it loads back as that record.
pub fn run(x: SubCommand, stored: Result<Vec<u8>, String>) -> (r: Result<Outcome, ConfigError>)
    ensures
        match r {
            Ok(o) => run_spec(x, stored) == Ok::<(ConfigurationView, bool), ConfigError>(
                (o.config@, o.display),
            ),
            Err(e) => run_spec(x, stored) == Err::<(ConfigurationView, bool), ConfigError>(e),
        },
        r matches Ok(o) ==> {
            &&& o.config@.wf()
            &&& o.stored_form@ == encoded(o.config@)
            &&& loaded(Ok(o.stored_form)) == Ok::<ConfigurationView, LoadError>(o.config@)
        },
{
    let (display, updates) = x.into_parts();
    let candidate = match validate_token(borrowed(&updates.auth_token)) {
        Ok(token) => token,
        Err(e) => {
            return Err(e);
        },
    };
    match load_or_bootstrap(stored, candidate) {
        Ok(current) => {
            let config = merge(current, updates);
            let stored_form = encode(&config);
            proof {
                persisted_record_loads_back(config@, stored_form);
            }
            Ok(Outcome { config, stored_form, display })
        },
        Err(e) => Err(e),
    }
}

/// The rows that a run shows at its end, if any: those of the merged
/// record, seen from a zone `utc_offset` seconds east of UTC.
pub open spec fn shown(outcome: Outcome, utc_offset: i32) -> Option<Seq<DisplayItemView>> {
    if outcome.display {
        Some(
            display_rows(
                outcome.config@,
                last_update_text(outcome.config.update_time, utc_offset),
            ),
        )
    } else {
        None
    }
}

/// The views of rows that may be absent.
pub open spec fn rows_view(items: Option<Vec<DisplayItem>>) -> Option<Seq<DisplayItemView>> {
    match items {
        Some(items) => Some(item_views(items@)),
        None => None,
    }
}

/// The view of bytes that may be absent.
pub open spec fn bytes_view(bytes: Option<Vec<u8>>) -> Option<Seq<u8>> {
    match bytes {
        Some(bytes) => Some(bytes@),
        None => None,
    }
}

/// Ends a run once the store has answered the write. A failed write is
/// handed on as a warning and changes nothing else: the rows, if the
/// command asked for them, show the merged record whether or not it could
/// be saved.
pub fn conclude(outcome: &Outcome, saved: Result<(), String>, utc_offset: i32) -> (report: Report)
    ensures
        report.warning == match saved {
            Ok(_) => None::<PersistError>,
            Err(cause) => Some(PersistError { cause }),
        },
        rows_view(report.items) == shown(*outcome, utc_offset),
        bytes_view(report.output) == match shown(*outcome, utc_offset) {
            Some(rows) => script_filter_json(rows),
            None => None,
        },
{
    let warning = match saved {
        Ok(_) => None,
        Err(cause) => Some(PersistError { cause }),
    };
    if outcome.display {
        let items = show_config(&outcome.config, utc_offset);
        let output = script_filter(&items);
        Report { items: Some(items), output, warning }
    } else {
        Report { items: None, output: None, warning }
    }
}

/// A record that was written in its stored form loads back as it was, in
/// every field.
pub proof fn persisted_record_loads_back(c: ConfigurationView, bytes: Vec<u8>)
    requires
        c.wf(),
        bytes@ == encoded(c),
    ensures
        loaded(Ok(bytes)) == Ok::<ConfigurationView, LoadError>(c),
{
    assert(encode_utf8(c.auth_token).len() <= u64::MAX) by {
        assert(bytes@.len() == bytes.len());
        assert(encoded(c).len() >= encode_utf8(c.auth_token).len());
    }
    decode_inverts_encode(c, Seq::empty());
}

/// Where no record loads, a token decides: with one the run starts from the
/// built-in record around it, without one it fails with the load's error.
pub proof fn bootstrap_needs_token(stored: Result<Vec<u8>, String>, token: Seq<char>)
    requires
        loaded(stored) is Err,
    ensures
        load_or_bootstrap_spec(stored, Some(token)) == Ok::<ConfigurationView, ConfigError>(
            bootstrapped(token),
        ),
        load_or_bootstrap_spec(stored, None) == Err::<ConfigurationView, ConfigError>(
            ConfigError::LoadFailure(loaded(stored)->Err_0),
        ),
{
}

} // verus!
