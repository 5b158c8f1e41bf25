use crate::token::has_separator;
use vstd::prelude::*;

verus! {

/// An instant as whole seconds since 1970-01-01 00:00:00 UTC and the
/// nanoseconds past that second.
#[derive(Clone, Copy, Debug, PartialEq, Eq, Structural)]
pub struct Timestamp {
    pub secs: i64,
    pub nanos: u32,
}

/// The one record of preferences that is kept between runs.
#[derive(Clone, Debug, PartialEq, Eq)]
pub struct Configuration {
    /// Credential for the remote service, `user:secret`; empty until one is given.
    pub auth_token: String,
    /// How many bookmarks a result list shows.
    pub pins_to_show: u8,
    /// How many tags a result list shows.
    pub tags_to_show: u8,
    pub private_new_pin: bool,
    pub toread_new_pin: bool,
    pub fuzzy_search: bool,
    pub tag_only_search: bool,
    pub auto_update_cache: bool,
    pub suggest_tags: bool,
    pub page_is_bookmarked: bool,
    pub show_url_vs_tags: bool,
    /// When the cache was last refreshed. Shown, never merged.
    pub update_time: Timestamp,
}

/// What a `Configuration` is to the contracts: the same fields, the token as
/// a sequence of characters.
pub struct ConfigurationView {
    pub auth_token: Seq<char>,
    pub pins_to_show: u8,
    pub tags_to_show: u8,
    pub private_new_pin: bool,
    pub toread_new_pin: bool,
    pub fuzzy_search: bool,
    pub tag_only_search: bool,
    pub auto_update_cache: bool,
    pub suggest_tags: bool,
    pub page_is_bookmarked: bool,
    pub show_url_vs_tags: bool,
    pub update_time: Timestamp,
}

impl View for Configuration {
    type V = ConfigurationView;

    open spec fn view(&self) -> ConfigurationView {
        ConfigurationView {
            auth_token: self.auth_token@,
            pins_to_show: self.pins_to_show,
            tags_to_show: self.tags_to_show,
            private_new_pin: self.private_new_pin,
            toread_new_pin: self.toread_new_pin,
            fuzzy_search: self.fuzzy_search,
            tag_only_search: self.tag_only_search,
            auto_update_cache: self.auto_update_cache,
            suggest_tags: self.suggest_tags,
            page_is_bookmarked: self.page_is_bookmarked,
            show_url_vs_tags: self.show_url_vs_tags,
            update_time: self.update_time,
        }
    }
}

impl ConfigurationView {
    /// The record's invariant: a token that is not empty holds the separator.
    pub open spec fn wf(self) -> bool {
        self.auth_token.len() == 0 || has_separator(self.auth_token)
    }
}

/// The start of the epoch, the refresh time of a record that never saw one.
pub open spec fn epoch() -> Timestamp {
    Timestamp { secs: 0, nanos: 0 }
}

/// The built-in record: every field at its default, the token empty.
pub open spec fn defaults() -> ConfigurationView {
    ConfigurationView {
        auth_token: Seq::empty(),
        pins_to_show: 10,
        tags_to_show: 10,
        private_new_pin: true,
        toread_new_pin: false,
        fuzzy_search: false,
        tag_only_search: false,
        auto_update_cache: true,
        suggest_tags: false,
        page_is_bookmarked: true,
        show_url_vs_tags: true,
        update_time: epoch(),
    }
}

/// The built-in record with `token` in place of the empty token.
pub open spec fn bootstrapped(token: Seq<char>) -> ConfigurationView {
    ConfigurationView { auth_token: token, ..defaults() }
}

impl Configuration {
    /// The built-in record.
    pub fn new() -> (c: Configuration)
        ensures
            c@ == defaults(),
            c@.wf(),
    {
        Configuration::with_token(String::new())
    }

    /// A fresh record for a first run: the defaults, with `token` as the token.
    pub fn with_token(token: String) -> (c: Configuration)
        ensures
            c@ == bootstrapped(token@),
            has_separator(token@) ==> c@.wf(),
    {
        Configuration {
            auth_token: token,
            pins_to_show: 10,
            tags_to_show: 10,
            private_new_pin: true,
            toread_new_pin: false,
            fuzzy_search: false,
            tag_only_search: false,
            auto_update_cache: true,
            suggest_tags: false,
            page_is_bookmarked: true,
            show_url_vs_tags: true,
            update_time: Timestamp { secs: 0, nanos: 0 },
        }
    }

    /// Whether the record keeps its invariant.
    pub fn is_well_formed(&self) -> (ok: bool)
        ensures
            ok == self@.wf(),
    {
        self.auth_token.as_str().is_empty() || crate::token::contains_separator(
            self.auth_token.as_str(),
        )
    }
}

impl Default for Configuration {
    fn default() -> (c: Configuration)
        ensures
            c@ == defaults(),
    {
        Configuration::new()
    }
}

} // verus!
