//! The transition detector: turns the outcome of a check and the state that
//! was recorded before it into the new record and the decision to notify.

use vstd::prelude::*;
use vstd::string::{StrSliceExecFns, StringExecFns};
use crate::checker::{CheckOutcome, outcome_description, outcome_is_success};
use crate::site::{Site, SiteView, update_site_status};
use crate::text::{chars_of, find_char, first_index_of, has_prefix, sub_chars, without_prefix};

verus! {

/// What the operator is told when a site changes state.
#[derive(Debug)]
pub struct Notification {
    /// Host name of the site, without scheme or `www.`.
    pub site: String,
    /// `true` when the site went down, `false` when it recovered.
    pub is_down: bool,
    /// Description of the outcome that caused the transition.
    pub description: String,
}

/// The mathematical content of a [`Notification`].
pub struct NotificationView {
    pub site: Seq<char>,
    pub is_down: bool,
    pub description: Seq<char>,
}

impl View for Notification {
    type V = NotificationView;

    open spec fn view(&self) -> NotificationView {
        NotificationView {
            site: self.site@,
            is_down: self.is_down,
            description: self.description@,
        }
    }
}

/// One completed check, as the detector sees it: the outcome and the Unix
/// time, in seconds, at which it completed.
pub struct Check {
    pub outcome: CheckOutcome,
    pub at: i64,
}

/// The content of an optional notification.
pub open spec fn notice_view(notice: Option<Notification>) -> Option<NotificationView> {
    match notice {
        Some(n) => Some(n@),
        None => None,
    }
}

/// `url` without its scheme: one `http://` or `https://` in front is dropped.
pub open spec fn without_scheme(url: Seq<char>) -> Seq<char> {
    if "http://"@.is_prefix_of(url) {
        url.skip("http://"@.len() as int)
    } else {
        without_prefix(url, "https://"@)
    }
}

/// The host name inside `url`: the scheme is dropped, then everything from
/// the first `/` on, then one `www.` in front.
pub open spec fn hostname_of(url: Seq<char>) -> Seq<char> {
    let rest = without_scheme(url);
    let domain = rest.take(first_index_of(rest, '/'));
    without_prefix(domain, "www."@)
}

/// A check changes the state only if a state was recorded before and the new
/// one differs from it.
pub open spec fn spec_state_changed(previous: Option<bool>, is_success: bool) -> bool {
    previous is Some && previous->0 != is_success
}

/// The notification that a check calls for, if any.
pub open spec fn notice_for(previous: Option<bool>, url: Seq<char>, outcome: CheckOutcome)
    -> Option<NotificationView> {
    if spec_state_changed(previous, outcome_is_success(outcome)) {
        Some(
            NotificationView {
                site: hostname_of(url),
                is_down: !outcome_is_success(outcome),
                description: outcome_description(outcome),
            },
        )
    } else {
        None
    }
}

/// The notification that the site at `url` went down with `outcome`.
pub open spec fn went_down(url: Seq<char>, outcome: CheckOutcome) -> NotificationView {
    NotificationView {
        site: hostname_of(url),
        is_down: true,
        description: outcome_description(outcome),
    }
}

/// The notification that the site at `url` recovered with `outcome`.
pub open spec fn recovered(url: Seq<char>, outcome: CheckOutcome) -> NotificationView {
    NotificationView {
        site: hostname_of(url),
        is_down: false,
        description: outcome_description(outcome),
    }
}

/// The record of `site` after one check.
pub open spec fn site_after_check(site: SiteView, check: Check) -> SiteView {
    site.observed(outcome_is_success(check.outcome), outcome_description(check.outcome), check.at)
}

/// The record of `site` after a series of checks, oldest first.
pub open spec fn site_after(site: SiteView, checks: Seq<Check>) -> SiteView
    decreases checks.len(),
{
    if checks.len() == 0 {
        site
    } else {
        site_after_check(site_after(site, checks.drop_last()), checks.last())
    }
}

/// The notifications that a series of checks of `site` calls for, oldest first.
pub open spec fn notices_of(site: SiteView, checks: Seq<Check>) -> Seq<NotificationView>
    decreases checks.len(),
{
    if checks.len() == 0 {
        Seq::empty()
    } else {
        let before = site_after(site, checks.drop_last());
        let earlier = notices_of(site, checks.drop_last());
        match notice_for(before.is_up, before.url, checks.last().outcome) {
            Some(n) => earlier.push(n),
            None => earlier,
        }
    }
}

/// How often the up/down state flips over a series of checks that starts
/// from the recorded state `previous`.
pub open spec fn transitions(previous: Option<bool>, checks: Seq<Check>) -> nat
    decreases checks.len(),
{
    if checks.len() == 0 {
        0
    } else {
        let first = outcome_is_success(checks[0].outcome);
        let rest = transitions(Some(first), checks.drop_first());
        if spec_state_changed(previous, first) {
            rest + 1
        } else {
            rest
        }
    }
}

/// Tells whether a check with result `is_success` changes the recorded state.
pub fn state_changed(previous: Option<bool>, is_success: bool) -> (changed: bool)
    ensures
        changed == spec_state_changed(previous, is_success),
{
    match previous {
        Some(was_up) => was_up != is_success,
        None => false,
    }
}

/// Extracts the host name from a URL, for use in messages to the operator.
pub fn extract_hostname(url: &str) -> (host: String)
    ensures
        host@ == hostname_of(url@),
{
    let http = chars_of("http://");
    let https = chars_of("https://");
    let www = chars_of("www.");
    let all = chars_of(url);
    let a: usize = if has_prefix(&all, &http) {
        http.len()
    } else if has_prefix(&all, &https) {
        https.len()
    } else {
        0
    };
    let rest = sub_chars(&all, a, all.len());
    let slash = find_char(&rest, '/');
    let domain = sub_chars(&rest, 0, slash);
    let w: usize = if has_prefix(&domain, &www) {
        www.len()
    } else {
        0
    };
    proof {
        assert(all@.skip(0) =~= all@);
        assert(rest@ =~= without_scheme(url@));
        assert(domain@ =~= rest@.take(slash as int));
        assert(domain@.skip(0) =~= domain@);
        assert(domain@.skip(w as int) =~= url@.subrange(a + w, a + slash));
    }
    let host = url.substring_char(a + w, a + slash);
    String::from_str(host)
}

/// Decides whether a completed check calls for a notification, given the
/// state that was recorded before it.
pub fn detect(previous: Option<bool>, url: &str, outcome: &CheckOutcome) -> (notice: Option<
    Notification,
>)
    ensures
        notice_view(notice) == notice_for(previous, url@, *outcome),
{
    let is_success = outcome.is_success();
    if state_changed(previous, is_success) {
        Some(
            Notification {
                site: extract_hostname(url),
                is_down: !is_success,
                description: outcome.description(),
            },
        )
    } else {
        None
    }
}

/// Handles one completed check of `site`: records the new state in `site`,
/// whatever it is, and returns the notification to send, if the state changed.
pub fn process_check(site: &mut Site, outcome: &CheckOutcome, now: i64) -> (notice: Option<
    Notification,
>)
    ensures
        final(site)@ == site_after_check(old(site)@, (Check { outcome: *outcome, at: now })),
        final(site).wf(),
        notice_view(notice) == notice_for(old(site)@.is_up, old(site)@.url, *outcome),
{
    let notice = detect(site.is_up, site.url.as_str(), outcome);
    let description = outcome.description();
    update_site_status(site, outcome.is_success(), description.as_str(), now);
    notice
}

/// After any update the downtime window is open exactly while the site is
/// down, whatever the record held before and whatever was observed.
pub proof fn lemma_downtime_tracks_state(site: SiteView, is_up: bool, status: Seq<char>, now: i64)
    ensures
        site.observed(is_up, status, now).wf(),
        site.observed(is_up, status, now).downtime_started is Some <==> !is_up,
{
}

/// The downtime invariant holds after every check of a series, whatever the
/// outcomes and whatever the record held at the start.
pub proof fn lemma_downtime_invariant(site: SiteView, checks: Seq<Check>)
    ensures
        forall|k: int| 0 < k <= checks.len() ==> (#[trigger] site_after(site, checks.take(k))).wf(),
{
    assert forall|k: int| 0 < k <= checks.len() implies (#[trigger] site_after(
        site,
        checks.take(k),
    )).wf() by {
        let prefix = checks.take(k);
        assert(prefix.len() > 0);
    }
}

/// While a site stays down, the start of its downtime window stays where the
/// first failed check put it.
pub proof fn lemma_downtime_not_restamped(site: SiteView, check: Check)
    requires
        site.wf(),
        site.is_up == Some(false),
        !outcome_is_success(check.outcome),
    ensures
        site_after_check(site, check).downtime_started == site.downtime_started,
{
}

/// The first check of a site never notifies, whatever its outcome.
pub proof fn lemma_first_check_is_silent(url: Seq<char>, interval: u64, check: Check)
    ensures
        notice_for(SiteView::fresh(url, interval).is_up, url, check.outcome) is None,
        notices_of(SiteView::fresh(url, interval), seq![check]).len() == 0,
{
    let site = SiteView::fresh(url, interval);
    let checks = seq![check];
    assert(checks.drop_last() =~= Seq::<Check>::empty());
    assert(site_after(site, checks.drop_last()) == site);
    assert(notices_of(site, checks.drop_last()).len() == 0);
}

/// A site that is up, then fails twice, then answers again causes exactly two
/// notifications: one that it went down, for the first failure, and one that
/// it recovered. The downtime window opens at the first failure, is not moved
/// by the second, and is closed by the recovery.
pub proof fn lemma_down_and_recovery(site: SiteView, down1: Check, down2: Check, up: Check)
    requires
        site.is_up == Some(true),
        !outcome_is_success(down1.outcome),
        !outcome_is_success(down2.outcome),
        outcome_is_success(up.outcome),
    ensures
        notices_of(site, seq![down1]) == seq![went_down(site.url, down1.outcome)],
        notices_of(site, seq![down1, down2]) == seq![went_down(site.url, down1.outcome)],
        notices_of(site, seq![down1, down2, up]) == seq![
            went_down(site.url, down1.outcome),
            recovered(site.url, up.outcome),
        ],
        site_after(site, seq![down1]).downtime_started == Some(down1.at),
        site_after(site, seq![down1, down2]).downtime_started == Some(down1.at),
        site_after(site, seq![down1, down2, up]).downtime_started is None,
        site_after(site, seq![down1, down2, up]).is_up == Some(true),
{
    let c0 = Seq::<Check>::empty();
    let c1 = seq![down1];
    let c2 = seq![down1, down2];
    let c3 = seq![down1, down2, up];
    assert(c1.drop_last() =~= c0);
    assert(c2.drop_last() =~= c1);
    assert(c3.drop_last() =~= c2);
    assert(site_after(site, c0) == site);
    let s1 = site_after(site, c1);
    assert(s1 == site_after_check(site, down1));
    let s2 = site_after(site, c2);
    assert(s2 == site_after_check(s1, down2));
    let s3 = site_after(site, c3);
    assert(s3 == site_after_check(s2, up));
    assert(notices_of(site, c0) =~= Seq::<NotificationView>::empty());
    assert(notices_of(site, c1) =~= seq![went_down(site.url, down1.outcome)]);
    assert(notices_of(site, c2) =~= notices_of(site, c1));
    assert(notices_of(site, c3) =~= seq![
        went_down(site.url, down1.outcome),
        recovered(site.url, up.outcome),
    ]);
}

/// The URL of a record is never changed by a check.
pub proof fn lemma_checks_keep_url(site: SiteView, checks: Seq<Check>)
    ensures
        site_after(site, checks).url == site.url,
        checks.len() > 0 ==> site_after(site, checks).is_up == Some(
            outcome_is_success(checks.last().outcome),
        ),
    decreases checks.len(),
{
    if checks.len() > 0 {
        lemma_checks_keep_url(site, checks.drop_last());
    }
}

/// Over any series of checks there is exactly one notification per change of
/// state: consecutive checks with the same result add none.
pub proof fn lemma_one_notice_per_transition(site: SiteView, checks: Seq<Check>)
    ensures
        notices_of(site, checks).len() == transitions(site.is_up, checks),
    decreases checks.len(),
{
    if checks.len() == 0 {
    } else if checks.len() == 1 {
        let none = checks.drop_last();
        assert(none.len() == 0);
        assert(site_after(site, none) == site);
        assert(notices_of(site, none).len() == 0);
        assert(checks.last() == checks[0]);
        assert(transitions(Some(outcome_is_success(checks[0].outcome)), checks.drop_first()) == 0);
    } else {
        let front = checks.drop_last();
        let last = checks.last();
        lemma_one_notice_per_transition(site, front);
        lemma_checks_keep_url(site, front);
        lemma_transitions_push(site.is_up, front, last);
        assert(front.push(last) =~= checks);
    }
}

/// Appending a check to a non-empty series adds a transition exactly when its
/// result differs from the result of the check before it.
pub proof fn lemma_transitions_push(previous: Option<bool>, checks: Seq<Check>, next: Check)
    requires
        checks.len() > 0,
    ensures
        transitions(previous, checks.push(next)) == transitions(previous, checks) + (if spec_state_changed(
            Some(outcome_is_success(checks.last().outcome)),
            outcome_is_success(next.outcome),
        ) {
            1nat
        } else {
            0nat
        }),
    decreases checks.len(),
{
    let all = checks.push(next);
    let first = outcome_is_success(checks[0].outcome);
    assert(all[0] == checks[0]);
    let step = outcome_is_success(next.outcome);
    if checks.len() == 1 {
        let single = seq![next];
        assert(all.drop_first() =~= single);
        assert(single[0] == next);
        assert(transitions(Some(step), single.drop_first()) == 0);
        assert(transitions(Some(first), single) == if spec_state_changed(Some(first), step) {
            1nat
        } else {
            0nat
        });
        assert(transitions(Some(first), checks.drop_first()) == 0);
    } else {
        let tail = checks.drop_first();
        assert(all.drop_first() =~= tail.push(next));
        lemma_transitions_push(Some(first), tail, next);
        assert(tail.last() == checks.last());
    }
}

} // verus!
