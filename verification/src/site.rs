//! The monitored site record and the rules that keep its downtime window
//! consistent with its up/down state.

use vstd::prelude::*;
use vstd::string::StringExecFns;
use crate::text::{starts_with, concat2};

verus! {

/// One registered endpoint together with its last known state.
#[derive(Debug, Clone)]
pub struct Site {
    /// Row identity in the registry, absent until the registry assigned one.
    pub id: Option<i64>,
    /// Absolute URL; the registry's unique key.
    pub url: String,
    /// Polling period, in nanoseconds.
    pub interval: u64,
    /// How the operator is told about a transition.
    pub notify_method: String,
    /// `None` until the first check completed, then whether the site answered
    /// with a success status.
    pub is_up: Option<bool>,
    /// Unix time, in seconds, of the latest completed check.
    pub last_checked: Option<i64>,
    /// Description of the latest observed outcome.
    pub last_status: Option<String>,
    /// Unix time, in seconds, at which the current run of failed checks began.
    pub downtime_started: Option<i64>,
}

/// The mathematical content of a [`Site`].
pub struct SiteView {
    pub id: Option<i64>,
    pub url: Seq<char>,
    pub interval: u64,
    pub notify_method: Seq<char>,
    pub is_up: Option<bool>,
    pub last_checked: Option<i64>,
    pub last_status: Option<Seq<char>>,
    pub downtime_started: Option<i64>,
}

impl SiteView {
    /// A downtime window is open exactly while the site is known to be down.
    pub open spec fn wf(self) -> bool {
        self.downtime_started is Some <==> self.is_up == Some(false)
    }

    /// The record of a site that was registered and never checked.
    pub open spec fn fresh(url: Seq<char>, interval: u64) -> SiteView {
        SiteView {
            id: None,
            url,
            interval,
            notify_method: "device"@,
            is_up: None,
            last_checked: None,
            last_status: None,
            downtime_started: None,
        }
    }

    /// The record after a completed check that found the site up or down at
    /// time `now` and described the outcome as `status`.
    ///
    /// The downtime window opens when the site is first seen down, stays as it
    /// is while the site remains down, and closes as soon as the site is up.
    pub open spec fn observed(self, is_up: bool, status: Seq<char>, now: i64) -> SiteView {
        SiteView {
            is_up: Some(is_up),
            last_checked: Some(now),
            last_status: Some(status),
            downtime_started: if is_up {
                None
            } else if self.is_up == Some(false) && self.downtime_started is Some {
                self.downtime_started
            } else {
                Some(now)
            },
            ..self
        }
    }
}

impl View for Site {
    type V = SiteView;

    open spec fn view(&self) -> SiteView {
        SiteView {
            id: self.id,
            url: self.url@,
            interval: self.interval,
            notify_method: self.notify_method@,
            is_up: self.is_up,
            last_checked: self.last_checked,
            last_status: match self.last_status {
                Some(s) => Some(s@),
                None => None,
            },
            downtime_started: self.downtime_started,
        }
    }
}

/// `url` with `https://` put in front unless it already names a scheme.
pub open spec fn normalized_url(url: Seq<char>) -> Seq<char> {
    if "http://"@.is_prefix_of(url) || "https://"@.is_prefix_of(url) {
        url
    } else {
        "https://"@ + url
    }
}

/// Makes `url` absolute: a URL without `http://` or `https://` in front gets
/// `https://`.
pub fn normalize_url(url: &str) -> (full: String)
    ensures
        full@ == normalized_url(url@),
{
    if !starts_with(url, "http://") && !starts_with(url, "https://") {
        concat2("https://", url)
    } else {
        String::from_str(url)
    }
}

/// Normalizing a URL a second time changes nothing.
pub proof fn lemma_normalize_idempotent(url: Seq<char>)
    ensures
        normalized_url(normalized_url(url)) == normalized_url(url),
{
    let scheme = "https://"@;
    if !("http://"@.is_prefix_of(url) || scheme.is_prefix_of(url)) {
        assert((scheme + url).subrange(0, scheme.len() as int) =~= scheme);
    }
}

impl Site {
    /// This record satisfies the downtime invariant.
    pub open spec fn wf(&self) -> bool {
        self@.wf()
    }

    /// The record of a newly registered site: state unknown, never checked.
    pub fn new(url: &str, interval: u64) -> (site: Site)
        ensures
            site@ == SiteView::fresh(url@, interval),
            site.wf(),
    {
        Site {
            id: None,
            url: String::from_str(url),
            interval,
            notify_method: String::from_str("device"),
            is_up: None,
            last_checked: None,
            last_status: None,
            downtime_started: None,
        }
    }

    /// A copy of this record.
    pub fn duplicate(&self) -> (copy: Site)
        ensures
            copy@ == self@,
    {
        Site {
            id: self.id,
            url: self.url.clone(),
            interval: self.interval,
            notify_method: self.notify_method.clone(),
            is_up: self.is_up,
            last_checked: self.last_checked,
            last_status: match &self.last_status {
                Some(s) => Some(s.clone()),
                None => None,
            },
            downtime_started: self.downtime_started,
        }
    }
}

/// Records a completed check in `site`: the new up/down state, the time of the
/// check, the outcome's description, and the downtime window that follows
/// from the state the record held before.
pub fn update_site_status(site: &mut Site, is_up: bool, status: &str, now: i64)
    ensures
        final(site)@ == old(site)@.observed(is_up, status@, now),
        final(site).wf(),
{
    let downtime_started = if is_up {
        None
    } else {
        match (site.is_up, site.downtime_started) {
            (Some(false), Some(since)) => Some(since),
            _ => Some(now),
        }
    };
    site.is_up = Some(is_up);
    site.last_checked = Some(now);
    site.last_status = Some(String::from_str(status));
    site.downtime_started = downtime_started;
}

} // verus!
