//! What the operator's commands decide and show: registering and removing a
//! site, and the texts of the site tables.

use vstd::prelude::*;
use vstd::string::StringExecFns;
use crate::site::{normalize_url, normalized_url, Site, SiteView};
use crate::text::{chars_of, decimal, push_decimal, signed_decimal, trim_bounds, trimmed};

verus! {

/// The widest rule that is drawn above and below a table.
pub const MAX_RULE_WIDTH: usize = 80;

/// The widest column that a URL gets in a table.
pub const MAX_URL_WIDTH: usize = 35;

/// What registering a site comes to.
#[derive(Debug)]
pub enum AddOutcome {
    /// The registry holds the URL already; nothing is to be done.
    AlreadyMonitored(String),
    /// The site is new: this record goes into the registry. The flag says
    /// whether the operator asked for a notification method that is not
    /// supported and is to be told so.
    Register(Site, bool),
}

/// The content of an [`AddOutcome`].
pub enum AddOutcomeView {
    AlreadyMonitored(Seq<char>),
    Register(SiteView, bool),
}

impl View for AddOutcome {
    type V = AddOutcomeView;

    open spec fn view(&self) -> AddOutcomeView {
        match self {
            AddOutcome::AlreadyMonitored(url) => AddOutcomeView::AlreadyMonitored(url@),
            AddOutcome::Register(site, note) => AddOutcomeView::Register(site@, *note),
        }
    }
}

/// How removing a site ended.
#[derive(Clone, Copy, Debug, PartialEq, Eq, Structural)]
pub enum RemoveOutcome {
    /// The registry does not hold the URL; nothing was done.
    NotMonitored,
    /// The record was deleted and is gone.
    Removed,
    /// The record was deleted but the registry still shows it.
    StillListed,
    /// The registry deleted nothing.
    NotDeleted,
}

/// The phases of removing a site. Each names the question that is due; every
/// question goes to the registry and is about the normalized URL.
#[derive(Clone, Copy, Debug, PartialEq, Eq, Structural)]
pub enum RemovePhase {
    /// Does the registry hold the URL?
    LookingUp,
    /// Delete the record: was one deleted?
    Deleting,
    /// Does the registry still hold the URL?
    Confirming,
    /// Nothing is left to do.
    Done(RemoveOutcome),
}

/// One line of the list of sites.
#[derive(Debug)]
pub struct ListRow {
    /// The site's URL.
    pub url: String,
    /// The label of the site's state.
    pub status: &'static str,
}

/// One line of the status table.
#[derive(Debug)]
pub struct StatusRow {
    /// The site's URL.
    pub url: String,
    /// The label of the site's state.
    pub status: &'static str,
    /// How long ago the site was last checked.
    pub last_checked: String,
    /// For how long the site has been down.
    pub downtime: String,
}

/// What registering `url` comes to, given whether the registry holds the
/// normalized URL already.
pub open spec fn add_outcome(url: Seq<char>, interval: u64, notify: Seq<char>, registered: bool)
    -> AddOutcomeView {
    if registered {
        AddOutcomeView::AlreadyMonitored(normalized_url(url))
    } else {
        AddOutcomeView::Register(
            SiteView::fresh(normalized_url(url), interval),
            notify != "device"@,
        )
    }
}

/// The phase of a removal that follows `phase` when the registry answers
/// `yes` or no to the phase's question.
pub open spec fn remove_after(phase: RemovePhase, yes: bool) -> RemovePhase {
    match phase {
        RemovePhase::LookingUp => if yes {
            RemovePhase::Deleting
        } else {
            RemovePhase::Done(RemoveOutcome::NotMonitored)
        },
        RemovePhase::Deleting => if yes {
            RemovePhase::Confirming
        } else {
            RemovePhase::Done(RemoveOutcome::NotDeleted)
        },
        RemovePhase::Confirming => if yes {
            RemovePhase::Done(RemoveOutcome::StillListed)
        } else {
            RemovePhase::Done(RemoveOutcome::Removed)
        },
        RemovePhase::Done(_) => phase,
    }
}

/// The label of an up/down state in a table.
pub open spec fn state_label(is_up: Option<bool>) -> Seq<char> {
    match is_up {
        Some(true) => "● UP"@,
        Some(false) => "● DOWN"@,
        None => "○ UNKNOWN"@,
    }
}

/// How long ago the last check was, in words: in seconds below a minute, in
/// whole minutes below an hour, in whole hours from there on.
pub open spec fn last_checked_label(now: i64, last_checked: Option<i64>) -> Seq<char> {
    match last_checked {
        None => "Never"@,
        Some(at) => {
            let ago = now - at;
            if ago < 60 {
                signed_decimal(ago) + " seconds ago"@
            } else if ago < 3600 {
                decimal((ago / 60) as nat) + " minutes ago"@
            } else {
                decimal((ago / 3600) as nat) + " hours ago"@
            }
        },
    }
}

/// For how long a site has been down, in words: in seconds, whole minutes,
/// whole hours or whole days. A site that is not down, or whose downtime has
/// no recorded start, has none.
pub open spec fn downtime_label(is_up: Option<bool>, downtime_started: Option<i64>, now: i64)
    -> Seq<char> {
    if is_up == Some(false) && downtime_started is Some {
        let lasted = now - downtime_started->0;
        if lasted < 60 {
            signed_decimal(lasted) + " seconds"@
        } else if lasted < 3600 {
            decimal((lasted / 60) as nat) + " minutes"@
        } else if lasted < 86400 {
            decimal((lasted / 3600) as nat) + " hours"@
        } else {
            decimal((lasted / 86400) as nat) + " days"@
        }
    } else {
        "None"@
    }
}

/// The width of the URL column in a terminal of `columns` columns, of which
/// the URL gets `percent` in a hundred, up to [`MAX_URL_WIDTH`].
pub open spec fn url_width(columns: u16, percent: u8) -> int {
    let share = columns * percent / 100;
    if share < MAX_URL_WIDTH {
        share
    } else {
        MAX_URL_WIDTH as int
    }
}

/// The operator's answer to a yes-or-no question means yes: it is the letter
/// `y`, small or capital, with nothing but white space around it.
pub open spec fn means_yes(input: Seq<char>) -> bool {
    trimmed(input) == seq!['y'] || trimmed(input) == seq!['Y']
}

/// The places where the application's icon is looked for, best first.
pub open spec fn icon_candidates() -> Seq<Seq<char>> {
    seq![
        "isup.png"@,
        "./assets/isup.png"@,
        "/usr/share/icons/hicolor/scalable/apps/isup.png"@,
        "/Applications/isup.app/Contents/Resources/isup.png"@,
    ]
}

/// The icon to use, given for each candidate whether a file is there: the
/// first candidate that is there, or the bare file name if none is.
pub open spec fn icon_choice(present: Seq<bool>) -> Seq<char> {
    if present.len() > 0 && present[0] {
        icon_candidates()[0]
    } else if present.len() > 1 && present[1] {
        icon_candidates()[1]
    } else if present.len() > 2 && present[2] {
        icon_candidates()[2]
    } else if present.len() > 3 && present[3] {
        icon_candidates()[3]
    } else {
        "isup.png"@
    }
}

/// The line of the list of sites that shows `site`.
pub open spec fn list_row_shows(row: ListRow, site: SiteView) -> bool {
    row.url@ == site.url && row.status@ == state_label(site.is_up)
}

/// The line of the status table that shows `site` at time `now`.
pub open spec fn status_row_shows(row: StatusRow, site: SiteView, now: i64) -> bool {
    &&& row.url@ == site.url
    &&& row.status@ == state_label(site.is_up)
    &&& row.last_checked@ == last_checked_label(now, site.last_checked)
    &&& row.downtime@ == downtime_label(site.is_up, site.downtime_started, now)
}

/// Tells whether two texts are the same.
pub fn same_text(a: &str, b: &str) -> (same: bool)
    ensures
        same == (a@ == b@),
{
    let x = String::from_str(a);
    let y = String::from_str(b);
    x == y
}

/// Decides what registering `url` comes to. `registered` is the registry's
/// answer to whether it holds the normalized URL. A new site starts with its
/// state unknown and is always notified about on the device.
pub fn add_site(url: &str, interval: u64, notify: &str, registered: bool) -> (outcome: AddOutcome)
    ensures
        outcome@ == add_outcome(url@, interval, notify@, registered),
{
    let full = normalize_url(url);
    if registered {
        AddOutcome::AlreadyMonitored(full)
    } else {
        let site = Site::new(full.as_str(), interval);
        AddOutcome::Register(site, !same_text(notify, "device"))
    }
}

/// Takes the removal of a site one step on: from the phase it is in and the
/// registry's answer to that phase's question to the next phase. A URL that
/// the registry does not hold ends the removal at once, with nothing deleted
/// and no error.
pub fn remove_site(phase: RemovePhase, yes: bool) -> (next: RemovePhase)
    ensures
        next == remove_after(phase, yes),
{
    match phase {
        RemovePhase::LookingUp => if yes {
            RemovePhase::Deleting
        } else {
            RemovePhase::Done(RemoveOutcome::NotMonitored)
        },
        RemovePhase::Deleting => if yes {
            RemovePhase::Confirming
        } else {
            RemovePhase::Done(RemoveOutcome::NotDeleted)
        },
        RemovePhase::Confirming => if yes {
            RemovePhase::Done(RemoveOutcome::StillListed)
        } else {
            RemovePhase::Done(RemoveOutcome::Removed)
        },
        RemovePhase::Done(_) => phase,
    }
}

/// Removing a site that the registry does not hold asks the registry one
/// question and then ends as not monitored: nothing is deleted, and the
/// outcome is none of the failures.
pub proof fn lemma_remove_absent_is_noop()
    ensures
        remove_after(RemovePhase::LookingUp, false) == RemovePhase::Done(RemoveOutcome::NotMonitored),
        forall|yes: bool| #[trigger]
            remove_after(RemovePhase::Done(RemoveOutcome::NotMonitored), yes) == RemovePhase::Done(
                RemoveOutcome::NotMonitored,
            ),
{
}

/// The label of an up/down state in a table.
pub fn status_label(is_up: Option<bool>) -> (label: &'static str)
    ensures
        label@ == state_label(is_up),
{
    match is_up {
        Some(true) => "● UP",
        Some(false) => "● DOWN",
        None => "○ UNKNOWN",
    }
}

/// Appends the decimal numeral of the difference `later - earlier` to `out`.
fn push_difference(out: &mut String, later: i64, earlier: i64)
    ensures
        final(out)@ == old(out)@ + signed_decimal(later - earlier),
{
    let span: i128 = later as i128 - earlier as i128;
    if span < 0 {
        out.append("-");
        proof {
            reveal_strlit("-");
            assert("-"@ =~= seq!['-']);
        }
        push_decimal(out, (-span) as u64);
        assert(out@ =~= old(out)@ + signed_decimal(later - earlier));
    } else {
        push_decimal(out, span as u64);
    }
}

/// Appends the decimal numeral of `(later - earlier) / unit` to `out`.
fn push_quotient(out: &mut String, later: i64, earlier: i64, unit: u32)
    requires
        later - earlier >= 0,
        unit > 0,
    ensures
        final(out)@ == old(out)@ + decimal(((later - earlier) / (unit as int)) as nat),
{
    let span: i128 = later as i128 - earlier as i128;
    let whole: i128 = span / (unit as i128);
    push_decimal(out, whole as u64);
}

/// Says how long ago the last check was.
pub fn last_checked_text(now: i64, last_checked: Option<i64>) -> (text: String)
    ensures
        text@ == last_checked_label(now, last_checked),
{
    match last_checked {
        None => String::from_str("Never"),
        Some(at) => {
            let ago: i128 = now as i128 - at as i128;
            let mut text = String::new();
            if ago < 60 {
                push_difference(&mut text, now, at);
                text.append(" seconds ago");
            } else if ago < 3600 {
                push_quotient(&mut text, now, at, 60);
                text.append(" minutes ago");
            } else {
                push_quotient(&mut text, now, at, 3600);
                text.append(" hours ago");
            }
            assert(text@ =~= last_checked_label(now, last_checked));
            text
        },
    }
}

/// Says for how long a site has been down.
pub fn downtime_text(is_up: Option<bool>, downtime_started: Option<i64>, now: i64) -> (text: String)
    ensures
        text@ == downtime_label(is_up, downtime_started, now),
{
    match (is_up, downtime_started) {
        (Some(false), Some(since)) => {
            let lasted: i128 = now as i128 - since as i128;
            let mut text = String::new();
            if lasted < 60 {
                push_difference(&mut text, now, since);
                text.append(" seconds");
            } else if lasted < 3600 {
                push_quotient(&mut text, now, since, 60);
                text.append(" minutes");
            } else if lasted < 86400 {
                push_quotient(&mut text, now, since, 3600);
                text.append(" hours");
            } else {
                push_quotient(&mut text, now, since, 86400);
                text.append(" days");
            }
            assert(text@ =~= downtime_label(is_up, downtime_started, now));
            text
        },
        _ => String::from_str("None"),
    }
}

/// The lines of the list of sites: one per site, in the order given.
pub fn list_sites(sites: &Vec<Site>) -> (rows: Vec<ListRow>)
    ensures
        rows@.len() == sites@.len(),
        forall|i: int| 0 <= i < sites@.len() ==> list_row_shows(#[trigger] rows@[i], sites@[i]@),
{
    let mut rows: Vec<ListRow> = Vec::new();
    let mut i: usize = 0;
    while i < sites.len()
        invariant
            i <= sites.len(),
            rows@.len() == i,
            forall|j: int| 0 <= j < i ==> list_row_shows(#[trigger] rows@[j], sites@[j]@),
        decreases sites.len() - i,
    {
        let site = &sites[i];
        rows.push(ListRow { url: site.url.clone(), status: status_label(site.is_up) });
        i += 1;
    }
    rows
}

/// The lines of the status table at time `now`: one per site, in the order
/// given.
pub fn status_sites(sites: &Vec<Site>, now: i64) -> (rows: Vec<StatusRow>)
    ensures
        rows@.len() == sites@.len(),
        forall|i: int|
            0 <= i < sites@.len() ==> status_row_shows(#[trigger] rows@[i], sites@[i]@, now),
{
    let mut rows: Vec<StatusRow> = Vec::new();
    let mut i: usize = 0;
    while i < sites.len()
        invariant
            i <= sites.len(),
            rows@.len() == i,
            forall|j: int| 0 <= j < i ==> status_row_shows(#[trigger] rows@[j], sites@[j]@, now),
        decreases sites.len() - i,
    {
        let site = &sites[i];
        rows.push(
            StatusRow {
                url: site.url.clone(),
                status: status_label(site.is_up),
                last_checked: last_checked_text(now, site.last_checked),
                downtime: downtime_text(site.is_up, site.downtime_started, now),
            },
        );
        i += 1;
    }
    rows
}

/// Whether the status command offers to restart the monitoring service: it
/// does when the service is not running although sites are registered.
pub fn offers_restart(daemon_running: bool, sites: usize) -> (offer: bool)
    ensures
        offer == (!daemon_running && sites > 0),
{
    !daemon_running && sites > 0
}

/// The width of the rules of a table in a terminal of `columns` columns.
pub fn rule_width(columns: u16) -> (width: usize)
    ensures
        width == if columns < MAX_RULE_WIDTH {
            columns as int
        } else {
            MAX_RULE_WIDTH as int
        },
{
    if (columns as usize) < MAX_RULE_WIDTH {
        columns as usize
    } else {
        MAX_RULE_WIDTH
    }
}

/// The width of the URL column in the list of sites: half the terminal.
pub fn list_url_width(columns: u16) -> (width: usize)
    ensures
        width == url_width(columns, 50),
{
    url_column(columns, 50)
}

/// The width of the URL column in the status table: two fifths of the
/// terminal.
pub fn status_url_width(columns: u16) -> (width: usize)
    ensures
        width == url_width(columns, 40),
{
    url_column(columns, 40)
}

/// The width of a URL column that gets `percent` in a hundred of `columns`.
pub fn url_column(columns: u16, percent: u8) -> (width: usize)
    ensures
        width == url_width(columns, percent),
{
    assert(columns * percent <= 65535 * 255) by (nonlinear_arith)
        requires
            columns <= 65535,
            percent <= 255,
    ;
    let share: u32 = (columns as u32) * (percent as u32) / 100;
    if share < 35 {
        share as usize
    } else {
        MAX_URL_WIDTH
    }
}

/// Tells whether the operator's answer to a yes-or-no question means yes.
pub fn confirms(input: &str) -> (yes: bool)
    ensures
        yes == means_yes(input@),
{
    let chars = chars_of(input);
    let (a, b) = trim_bounds(&chars);
    proof {
        let body = chars@.subrange(a as int, b as int);
        if b - a == 1 {
            assert(body =~= seq![chars@[a as int]]);
        }
        if body == seq!['y'] || body == seq!['Y'] {
            assert(body.len() == 1);
            assert(body[0] == chars@[a as int]);
        }
    }
    b - a == 1 && (chars[a] == 'y' || chars[a] == 'Y')
}

/// Picks the application's icon. `present[i]` tells whether a file is there
/// at the candidate of position `i`.
pub fn get_icon_path(present: &Vec<bool>) -> (path: String)
    ensures
        path@ == icon_choice(present@),
{
    if present.len() > 0 && present[0] {
        String::from_str("isup.png")
    } else if present.len() > 1 && present[1] {
        String::from_str("./assets/isup.png")
    } else if present.len() > 2 && present[2] {
        String::from_str("/usr/share/icons/hicolor/scalable/apps/isup.png")
    } else if present.len() > 3 && present[3] {
        String::from_str("/Applications/isup.app/Contents/Resources/isup.png")
    } else {
        String::from_str("isup.png")
    }
}

/// The icon's candidate paths, best first.
pub fn icon_paths() -> (paths: Vec<&'static str>)
    ensures
        paths@.len() == 4,
        forall|i: int| 0 <= i < 4 ==> (#[trigger] paths@[i])@ == icon_candidates()[i],
{
    let mut paths: Vec<&'static str> = Vec::new();
    paths.push("isup.png");
    paths.push("./assets/isup.png");
    paths.push("/usr/share/icons/hicolor/scalable/apps/isup.png");
    paths.push("/Applications/isup.app/Contents/Resources/isup.png");
    paths
}

} // verus!
