use crate::record::{Configuration, ConfigurationView, Timestamp};
use alfred::{Item, ItemBuilder};
use chrono::{DateTime, FixedOffset};
use vstd::prelude::*;
use vstd::string::*;

verus! {

/// One row of the list that shows the record: what the host displays, and
/// the argument it hands on when the row is chosen.
#[derive(Clone, Debug, PartialEq, Eq)]
pub struct DisplayItem {
    pub title: String,
    pub subtitle: Option<String>,
    /// The routing argument for the command that follows.
    pub arg: String,
    /// File name of the row's icon.
    pub icon_path: String,
}

/// What a `DisplayItem` is to the contracts.
pub struct DisplayItemView {
    pub title: Seq<char>,
    pub subtitle: Option<Seq<char>>,
    pub arg: Seq<char>,
    pub icon_path: Seq<char>,
}

impl View for DisplayItem {
    type V = DisplayItemView;

    open spec fn view(&self) -> DisplayItemView {
        DisplayItemView {
            title: self.title@,
            subtitle: match self.subtitle {
                Some(s) => Some(s@),
                None => None,
            },
            arg: self.arg@,
            icon_path: self.icon_path@,
        }
    }
}

/// The views of a list of rows, in order.
pub open spec fn item_views(items: Seq<DisplayItem>) -> Seq<DisplayItemView> {
    items.map_values(|item: DisplayItem| item@)
}

/// A row with a subtitle.
pub open spec fn row(
    title: Seq<char>,
    subtitle: Seq<char>,
    arg: Seq<char>,
    icon_path: Seq<char>,
) -> DisplayItemView {
    DisplayItemView { title, subtitle: Some(subtitle), arg, icon_path }
}

/// How a toggle reads in a row.
pub open spec fn toggle_text(on: bool) -> Seq<char> {
    if on {
        "true"@
    } else {
        "false"@
    }
}

/// The character for a digit below ten.
pub open spec fn digit(d: nat) -> char {
    if d == 0 {
        '0'
    } else if d == 1 {
        '1'
    } else if d == 2 {
        '2'
    } else if d == 3 {
        '3'
    } else if d == 4 {
        '4'
    } else if d == 5 {
        '5'
    } else if d == 6 {
        '6'
    } else if d == 7 {
        '7'
    } else if d == 8 {
        '8'
    } else {
        '9'
    }
}

/// A number in decimal, without leading zeros.
pub open spec fn decimal(n: nat) -> Seq<char>
    decreases n,
{
    if n < 10 {
        seq![digit(n)]
    } else {
        decimal(n / 10).push(digit(n % 10))
    }
}

/// What stands in the last row when the refresh time cannot be written as a
/// calendar date.
pub open spec fn unknown_time() -> Seq<char> {
    "unknown"@
}

/// The twelve rows that show a record: eight toggles, two limits, the
/// action that checks for updates, and the time of the last refresh, which
/// reads `last_update`.
pub open spec fn display_rows(c: ConfigurationView, last_update: Seq<char>) -> Seq<
    DisplayItemView,
> {
    seq![
        row("Only search tags"@, toggle_text(c.tag_only_search), "pset tagonly"@, "tagonly.png"@),
        row("Use fuzzy search"@, toggle_text(c.fuzzy_search), "pset fuzzy"@, "fuzzy.png"@),
        row(
            "Automatically update cache"@,
            toggle_text(c.auto_update_cache),
            "pset auto"@,
            "auto_update_cache.png"@,
        ),
        row(
            "Suggest popular tags for open browser tab"@,
            toggle_text(c.suggest_tags),
            "pset suggest_tags"@,
            "suggest.png"@,
        ),
        row(
            "Mark new bookmarks as toread"@,
            toggle_text(c.toread_new_pin),
            "pset toread"@,
            "toread.png"@,
        ),
        row(
            "Mark new bookmarks as private"@,
            toggle_text(c.private_new_pin),
            "pset shared"@,
            "private.png"@,
        ),
        row(
            "Check if page is bookmarked"@,
            toggle_text(c.page_is_bookmarked),
            "pset check_bookmarked"@,
            "check_bookmarked_page.png"@,
        ),
        row(
            "Show TAGs vs URLs in search results"@,
            toggle_text(c.show_url_vs_tags),
            "pset url_tag"@,
            "url.png"@,
        ),
        row(
            "Number of tags to show"@,
            decimal(c.tags_to_show as nat),
            "pset tags"@,
            "no_of_tags.png"@,
        ),
        row(
            "Number of bookmarks to show"@,
            decimal(c.pins_to_show as nat),
            "pset bookmarks"@,
            "no_of_pins.png"@,
        ),
        DisplayItemView {
            title: "Click to check for Workflow updates."@,
            subtitle: None,
            arg: "pcheck"@,
            icon_path: "check_update.png"@,
        },
        row(last_update, "Latest cache update"@, "pupdate"@, "auto_update.png"@),
    ]
}

/// The date and time, as year-month-day hour:minute:second, that a clock
/// `offset` seconds east of UTC shows at the instant `secs`, `nanos`;
/// `None` where the calendar does not reach the instant or `offset` is no
/// zone's offset.
pub uninterp spec fn clock_text(secs: i64, nanos: u32, offset: i32) -> Option<Seq<char>>;

/// What the last row reads for a refresh at `at`, seen from a zone
/// `utc_offset` seconds east of UTC.
pub open spec fn last_update_text(at: Timestamp, utc_offset: i32) -> Seq<char> {
    match clock_text(at.secs, at.nanos, utc_offset) {
        Some(text) => text,
        None => unknown_time(),
    }
}

/// `chrono::DateTime::format`, on the instant that `DateTime::from_timestamp`
/// makes of `secs` and `nanos`, moved by `with_timezone` to the fixed offset
/// that `FixedOffset::east_opt` makes of `offset`, with the pattern
/// `%Y-%m-%d %H:%M:%S`. `None` comes back where either constructor gives
/// none. The contract gives the text a name and claims no more: the same
/// arguments give the same text.
#[verifier::external_body]
fn format_clock(secs: i64, nanos: u32, offset: i32) -> (text: Option<String>)
    ensures
        match text {
            Some(t) => clock_text(secs, nanos, offset) == Some(t@),
            None => clock_text(secs, nanos, offset) is None,
        },
{
    let utc = DateTime::from_timestamp(secs, nanos)?;
    let zone = FixedOffset::east_opt(offset)?;
    Some(utc.with_timezone(&zone).format("%Y-%m-%d %H:%M:%S").to_string())
}

/// The JSON document that Alfred reads as a script filter's result, for
/// the rows `rows` in that order; `None` if it could not be written.
pub uninterp spec fn script_filter_json(rows: Seq<DisplayItemView>) -> Option<Seq<u8>>;

/// `alfred::json::write_items`, into memory, on the items that
/// `alfred::ItemBuilder` makes of the rows: `new` with the title, `arg`,
/// `icon_path`, and `subtitle` where the row has one. The contract gives the
/// bytes a name and claims no more: the same rows give the same bytes.
#[verifier::external_body]
pub(crate) fn script_filter(rows: &Vec<DisplayItem>) -> (json: Option<Vec<u8>>)
    ensures
        match json {
            Some(bytes) => script_filter_json(item_views(rows@)) == Some(bytes@),
            None => script_filter_json(item_views(rows@)) is None,
        },
{
    let mut items: Vec<Item> = Vec::new();
    for row in rows {
        let b = ItemBuilder::new(row.title.as_str()).arg(row.arg.as_str());
        let b = b.icon_path(row.icon_path.as_str());
        items.push(
            match &row.subtitle {
                Some(s) => b.subtitle(s.as_str()).into_item(),
                None => b.into_item(),
            },
        );
    }
    let mut out: Vec<u8> = Vec::new();
    alfred::json::write_items(&mut out, &items).ok()?;
    Some(out)
}

fn digit_text(d: u8) -> (s: &'static str)
    requires
        d < 10,
    ensures
        s@ == seq![digit(d as nat)],
{
    proof {
        reveal_strlit("0");
        reveal_strlit("1");
        reveal_strlit("2");
        reveal_strlit("3");
        reveal_strlit("4");
        reveal_strlit("5");
        reveal_strlit("6");
        reveal_strlit("7");
        reveal_strlit("8");
        reveal_strlit("9");
    }
    let s = match d {
        0 => "0",
        1 => "1",
        2 => "2",
        3 => "3",
        4 => "4",
        5 => "5",
        6 => "6",
        7 => "7",
        8 => "8",
        _ => "9",
    };
    assert(s@ =~= seq![digit(d as nat)]);
    s
}

/// Writes a limit in decimal.
pub fn number_text(n: u8) -> (s: String)
    ensures
        s@ == decimal(n as nat),
{
    let mut s = String::new();
    if n >= 100 {
        s.append(digit_text(n / 100));
    }
    if n >= 10 {
        s.append(digit_text((n / 10) % 10));
    }
    s.append(digit_text(n % 10));
    proof {
        reveal_with_fuel(decimal, 3);
        assert(s@ =~= decimal(n as nat));
    }
    s
}

/// Writes a toggle as `true` or `false`.
pub fn toggle_label(on: bool) -> (s: String)
    ensures
        s@ == toggle_text(on),
{
    if on {
        String::from_str("true")
    } else {
        String::from_str("false")
    }
}

fn make_row(title: &str, subtitle: String, arg: &str, icon_path: &str) -> (item: DisplayItem)
    ensures
        item@ == row(title@, subtitle@, arg@, icon_path@),
{
    DisplayItem {
        title: String::from_str(title),
        subtitle: Some(subtitle),
        arg: String::from_str(arg),
        icon_path: String::from_str(icon_path),
    }
}

/// The rows that show `config`, the last of them reading `last_update`.
pub fn display_items(config: &Configuration, last_update: &str) -> (items: Vec<DisplayItem>)
    ensures
        items@.len() == 12,
        item_views(items@) == display_rows(config@, last_update@),
{
    let mut items: Vec<DisplayItem> = Vec::new();
    items.push(
        make_row(
            "Only search tags",
            toggle_label(config.tag_only_search),
            "pset tagonly",
            "tagonly.png",
        ),
    );
    items.push(
        make_row("Use fuzzy search", toggle_label(config.fuzzy_search), "pset fuzzy", "fuzzy.png"),
    );
    items.push(
        make_row(
            "Automatically update cache",
            toggle_label(config.auto_update_cache),
            "pset auto",
            "auto_update_cache.png",
        ),
    );
    items.push(
        make_row(
            "Suggest popular tags for open browser tab",
            toggle_label(config.suggest_tags),
            "pset suggest_tags",
            "suggest.png",
        ),
    );
    items.push(
        make_row(
            "Mark new bookmarks as toread",
            toggle_label(config.toread_new_pin),
            "pset toread",
            "toread.png",
        ),
    );
    items.push(
        make_row(
            "Mark new bookmarks as private",
            toggle_label(config.private_new_pin),
            "pset shared",
            "private.png",
        ),
    );
    items.push(
        make_row(
            "Check if page is bookmarked",
            toggle_label(config.page_is_bookmarked),
            "pset check_bookmarked",
            "check_bookmarked_page.png",
        ),
    );
    items.push(
        make_row(
            "Show TAGs vs URLs in search results",
            toggle_label(config.show_url_vs_tags),
            "pset url_tag",
            "url.png",
        ),
    );
    items.push(
        make_row(
            "Number of tags to show",
            number_text(config.tags_to_show),
            "pset tags",
            "no_of_tags.png",
        ),
    );
    items.push(
        make_row(
            "Number of bookmarks to show",
            number_text(config.pins_to_show),
            "pset bookmarks",
            "no_of_pins.png",
        ),
    );
    items.push(
        DisplayItem {
            title: String::from_str("Click to check for Workflow updates."),
            subtitle: None,
            arg: String::from_str("pcheck"),
            icon_path: String::from_str("check_update.png"),
        },
    );
    items.push(
        make_row(
            last_update,
            String::from_str("Latest cache update"),
            "pupdate",
            "auto_update.png",
        ),
    );
    assert(item_views(items@) =~= display_rows(config@, last_update@));
    items
}

/// The rows that show `config` to a user whose clock is `utc_offset` seconds
/// east of UTC. The last row reads the refresh time on that clock, or
/// `unknown` where it cannot be written.
pub fn show_config(config: &Configuration, utc_offset: i32) -> (items: Vec<DisplayItem>)
    ensures
        items@.len() == 12,
        item_views(items@) == display_rows(
            config@,
            last_update_text(config.update_time, utc_offset),
        ),
{
    match format_clock(config.update_time.secs, config.update_time.nanos, utc_offset) {
        Some(text) => display_items(config, text.as_str()),
        None => display_items(config, "unknown"),
    }
}

} // verus!
