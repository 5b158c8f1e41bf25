use crate::record::{Configuration, ConfigurationView};
use crate::token::{token_ok, token_view};
use vstd::prelude::*;

verus! {

/// One optional value for each field of the record that a caller may change.
/// `None` leaves the field as it is.
#[derive(Clone, Debug, PartialEq, Eq)]
pub struct PartialUpdateSet {
    pub auth_token: Option<String>,
    pub pins_to_show: Option<u8>,
    pub tags_to_show: Option<u8>,
    /// Callers speak of "shared"; the record stores the opposite, "private".
    pub shared: Option<bool>,
    pub toread_new_pin: Option<bool>,
    pub fuzzy_search: Option<bool>,
    pub tag_only_search: Option<bool>,
    pub auto_update_cache: Option<bool>,
    pub suggest_tags: Option<bool>,
    pub page_is_bookmarked: Option<bool>,
    pub show_url_vs_tags: Option<bool>,
}

/// What a `PartialUpdateSet` is to the contracts.
pub struct PartialUpdateSetView {
    pub auth_token: Option<Seq<char>>,
    pub pins_to_show: Option<u8>,
    pub tags_to_show: Option<u8>,
    pub shared: Option<bool>,
    pub toread_new_pin: Option<bool>,
    pub fuzzy_search: Option<bool>,
    pub tag_only_search: Option<bool>,
    pub auto_update_cache: Option<bool>,
    pub suggest_tags: Option<bool>,
    pub page_is_bookmarked: Option<bool>,
    pub show_url_vs_tags: Option<bool>,
}

impl View for PartialUpdateSet {
    type V = PartialUpdateSetView;

    open spec fn view(&self) -> PartialUpdateSetView {
        PartialUpdateSetView {
            auth_token: token_view(self.auth_token),
            pins_to_show: self.pins_to_show,
            tags_to_show: self.tags_to_show,
            shared: self.shared,
            toread_new_pin: self.toread_new_pin,
            fuzzy_search: self.fuzzy_search,
            tag_only_search: self.tag_only_search,
            auto_update_cache: self.auto_update_cache,
            suggest_tags: self.suggest_tags,
            page_is_bookmarked: self.page_is_bookmarked,
            show_url_vs_tags: self.show_url_vs_tags,
        }
    }
}

/// The value of a field after an update: the new one if there is one.
pub open spec fn replaced<T>(current: T, update: Option<T>) -> T {
    match update {
        Some(value) => value,
        None => current,
    }
}

/// The "private" flag after an update that speaks of "shared".
pub open spec fn private_after(current: bool, shared: Option<bool>) -> bool {
    match shared {
        Some(s) => !s,
        None => current,
    }
}

impl PartialUpdateSetView {
    /// The update that changes nothing.
    pub open spec fn empty() -> PartialUpdateSetView {
        PartialUpdateSetView {
            auth_token: None,
            pins_to_show: None,
            tags_to_show: None,
            shared: None,
            toread_new_pin: None,
            fuzzy_search: None,
            tag_only_search: None,
            auto_update_cache: None,
            suggest_tags: None,
            page_is_bookmarked: None,
            show_url_vs_tags: None,
        }
    }

    /// Every value that the update holds is the one that `c` has already.
    pub open spec fn restates(self, c: ConfigurationView) -> bool {
        &&& self.auth_token matches Some(v) ==> v == c.auth_token
        &&& self.pins_to_show matches Some(v) ==> v == c.pins_to_show
        &&& self.tags_to_show matches Some(v) ==> v == c.tags_to_show
        &&& self.shared matches Some(v) ==> v == !c.private_new_pin
        &&& self.toread_new_pin matches Some(v) ==> v == c.toread_new_pin
        &&& self.fuzzy_search matches Some(v) ==> v == c.fuzzy_search
        &&& self.tag_only_search matches Some(v) ==> v == c.tag_only_search
        &&& self.auto_update_cache matches Some(v) ==> v == c.auto_update_cache
        &&& self.suggest_tags matches Some(v) ==> v == c.suggest_tags
        &&& self.page_is_bookmarked matches Some(v) ==> v == c.page_is_bookmarked
        &&& self.show_url_vs_tags matches Some(v) ==> v == c.show_url_vs_tags
    }
}

/// The record that results from applying `u` to `c`, field by field.
pub open spec fn merged(c: ConfigurationView, u: PartialUpdateSetView) -> ConfigurationView {
    ConfigurationView {
        auth_token: replaced(c.auth_token, u.auth_token),
        pins_to_show: replaced(c.pins_to_show, u.pins_to_show),
        tags_to_show: replaced(c.tags_to_show, u.tags_to_show),
        private_new_pin: private_after(c.private_new_pin, u.shared),
        toread_new_pin: replaced(c.toread_new_pin, u.toread_new_pin),
        fuzzy_search: replaced(c.fuzzy_search, u.fuzzy_search),
        tag_only_search: replaced(c.tag_only_search, u.tag_only_search),
        auto_update_cache: replaced(c.auto_update_cache, u.auto_update_cache),
        suggest_tags: replaced(c.suggest_tags, u.suggest_tags),
        page_is_bookmarked: replaced(c.page_is_bookmarked, u.page_is_bookmarked),
        show_url_vs_tags: replaced(c.show_url_vs_tags, u.show_url_vs_tags),
        update_time: c.update_time,
    }
}

impl PartialUpdateSet {
    /// The update that changes nothing.
    pub fn empty() -> (u: PartialUpdateSet)
        ensures
            u@ == PartialUpdateSetView::empty(),
    {
        PartialUpdateSet {
            auth_token: None,
            pins_to_show: None,
            tags_to_show: None,
            shared: None,
            toread_new_pin: None,
            fuzzy_search: None,
            tag_only_search: None,
            auto_update_cache: None,
            suggest_tags: None,
            page_is_bookmarked: None,
            show_url_vs_tags: None,
        }
    }
}

/// Overwrites `slot` with the value in `opt`, if there is one.
pub fn update<T>(slot: &mut T, opt: Option<T>)
    ensures
        *final(slot) == replaced(*old(slot), opt),
{
    if let Some(value) = opt {
        *slot = value;
    }
}

/// Applies `updates` to `current`: a field with a value in `updates` takes
/// it, every other field stays. "shared" is stored inverted, as "private".
pub fn merge(current: Configuration, updates: PartialUpdateSet) -> (result: Configuration)
    ensures
        result@ == merged(current@, updates@),
        current@.wf() && token_ok(updates@.auth_token) ==> result@.wf(),
{
    proof {
        if current@.wf() && token_ok(updates@.auth_token) {
            merge_keeps_invariant(current@, updates@);
        }
    }
    let mut config = current;
    update(&mut config.auth_token, updates.auth_token);
    update(&mut config.pins_to_show, updates.pins_to_show);
    update(&mut config.tags_to_show, updates.tags_to_show);
    config.private_new_pin = !updates.shared.unwrap_or(!config.private_new_pin);
    update(&mut config.toread_new_pin, updates.toread_new_pin);
    update(&mut config.fuzzy_search, updates.fuzzy_search);
    update(&mut config.tag_only_search, updates.tag_only_search);
    update(&mut config.auto_update_cache, updates.auto_update_cache);
    update(&mut config.suggest_tags, updates.suggest_tags);
    update(&mut config.page_is_bookmarked, updates.page_is_bookmarked);
    update(&mut config.show_url_vs_tags, updates.show_url_vs_tags);
    config
}

/// A merge touches a field only if the update holds a value for it: a field
/// without one keeps the record's value, a field with one takes it, and the
/// refresh time is never touched.
pub proof fn merge_is_fieldwise(c: ConfigurationView, u: PartialUpdateSetView)
    ensures
        u.auth_token is None ==> merged(c, u).auth_token == c.auth_token,
        u.auth_token matches Some(v) ==> merged(c, u).auth_token == v,
        u.pins_to_show is None ==> merged(c, u).pins_to_show == c.pins_to_show,
        u.pins_to_show matches Some(v) ==> merged(c, u).pins_to_show == v,
        u.tags_to_show is None ==> merged(c, u).tags_to_show == c.tags_to_show,
        u.tags_to_show matches Some(v) ==> merged(c, u).tags_to_show == v,
        u.shared is None ==> merged(c, u).private_new_pin == c.private_new_pin,
        u.shared matches Some(v) ==> merged(c, u).private_new_pin == !v,
        u.toread_new_pin is None ==> merged(c, u).toread_new_pin == c.toread_new_pin,
        u.toread_new_pin matches Some(v) ==> merged(c, u).toread_new_pin == v,
        u.fuzzy_search is None ==> merged(c, u).fuzzy_search == c.fuzzy_search,
        u.fuzzy_search matches Some(v) ==> merged(c, u).fuzzy_search == v,
        u.tag_only_search is None ==> merged(c, u).tag_only_search == c.tag_only_search,
        u.tag_only_search matches Some(v) ==> merged(c, u).tag_only_search == v,
        u.auto_update_cache is None ==> merged(c, u).auto_update_cache == c.auto_update_cache,
        u.auto_update_cache matches Some(v) ==> merged(c, u).auto_update_cache == v,
        u.suggest_tags is None ==> merged(c, u).suggest_tags == c.suggest_tags,
        u.suggest_tags matches Some(v) ==> merged(c, u).suggest_tags == v,
        u.page_is_bookmarked is None ==> merged(c, u).page_is_bookmarked == c.page_is_bookmarked,
        u.page_is_bookmarked matches Some(v) ==> merged(c, u).page_is_bookmarked == v,
        u.show_url_vs_tags is None ==> merged(c, u).show_url_vs_tags == c.show_url_vs_tags,
        u.show_url_vs_tags matches Some(v) ==> merged(c, u).show_url_vs_tags == v,
        merged(c, u).update_time == c.update_time,
{
}

/// Merging values that the record already has changes nothing.
pub proof fn merge_of_current_values_is_identity(c: ConfigurationView, u: PartialUpdateSetView)
    requires
        u.restates(c),
    ensures
        merged(c, u) == c,
{
}

/// Merging the empty update changes nothing.
pub proof fn merge_of_empty_is_identity(c: ConfigurationView)
    ensures
        merged(c, PartialUpdateSetView::empty()) == c,
{
}

/// "shared" reaches the record inverted: an update that says shared makes
/// new bookmarks not private, one that says not shared makes them private,
/// and one that says nothing leaves the flag as it was, whatever it was.
pub proof fn shared_is_stored_inverted(c: ConfigurationView, u: PartialUpdateSetView)
    ensures
        u.shared == Some(true) ==> !merged(c, u).private_new_pin,
        u.shared == Some(false) ==> merged(c, u).private_new_pin,
        u.shared is None ==> merged(c, u).private_new_pin == c.private_new_pin,
{
}

/// A merge keeps the record's invariant if the update's token, when there is
/// one, holds the separator.
pub proof fn merge_keeps_invariant(c: ConfigurationView, u: PartialUpdateSetView)
    requires
        c.wf(),
        token_ok(u.auth_token),
    ensures
        merged(c, u).wf(),
{
}

} // verus!
