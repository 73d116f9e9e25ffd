//! The scheduler: which sites are due at a tick, and when each is due next.
//!
//! Time is a count of nanoseconds on a clock that never runs backwards; the
//! caller reads the clock and hands the reading in.

use vstd::prelude::*;
use vstd::string::StringExecFns;
use crate::site::{Site, SiteView};

verus! {

/// Pause between two ticks while sites are registered.
pub const TICK_NANOS: u64 = 100_000_000;

/// Pause before the next tick when the registry could not be read.
pub const RETRY_NANOS: u64 = 5_000_000_000;

/// Pause before the next tick when no site is registered.
pub const IDLE_NANOS: u64 = 5_000_000_000;

/// The time from which one site may be checked again.
pub struct Slot {
    url: String,
    next: u64,
}

/// The scheduler's memory: for each URL it has launched a check for, the time
/// from which the next check is due. A URL it has never seen is due at once.
pub struct Scheduler {
    slots: Vec<Slot>,
}

/// What the loop does when it wakes up.
#[derive(Clone, Copy, Debug, PartialEq, Eq, Structural)]
pub enum Wake {
    /// A stop was requested: leave the loop.
    Exit,
    /// Read the list of sites from the registry.
    ListSites,
}

/// What the loop does with the registry's answer.
#[derive(Debug)]
pub struct Round {
    /// Positions, in the list of sites, of the sites to check now.
    pub due: Vec<usize>,
    /// How long to sleep before waking up again, in nanoseconds.
    pub pause: u64,
}

/// A site is due when it was never scheduled or its time has come.
pub open spec fn spec_due(next: Map<Seq<char>, nat>, url: Seq<char>, now: nat) -> bool {
    !next.contains_key(url) || next[url] <= now
}

/// The effect of one tick at time `now` on the schedule `next`: the sites are
/// taken in order; each one that is due is put on the list and scheduled
/// again one interval after `now`. The result is the new schedule and the
/// positions of the sites that are due.
pub open spec fn spec_tick(next: Map<Seq<char>, nat>, sites: Seq<SiteView>, now: nat) -> (
    Map<Seq<char>, nat>,
    Seq<int>,
)
    decreases sites.len(),
{
    if sites.len() == 0 {
        (next, Seq::empty())
    } else {
        let (before, due) = spec_tick(next, sites.drop_last(), now);
        let site = sites.last();
        if spec_due(before, site.url, now) {
            (before.insert(site.url, now + site.interval as nat), due.push(sites.len() - 1))
        } else {
            (before, due)
        }
    }
}

/// The schedule after the ticks at the times `ticks`, in order, over an
/// unchanging list of sites.
pub open spec fn spec_run(next: Map<Seq<char>, nat>, sites: Seq<SiteView>, ticks: Seq<nat>) -> Map<
    Seq<char>,
    nat,
>
    decreases ticks.len(),
{
    if ticks.len() == 0 {
        next
    } else {
        spec_tick(spec_run(next, sites, ticks.drop_last()), sites, ticks.last()).0
    }
}

/// Whether the site at position `i` is launched by the tick at position `k`
/// of `ticks`, when the loop starts from the schedule `next`.
pub open spec fn launched_at(
    next: Map<Seq<char>, nat>,
    sites: Seq<SiteView>,
    ticks: Seq<nat>,
    k: int,
    i: int,
) -> bool {
    spec_tick(spec_run(next, sites, ticks.take(k)), sites, ticks[k]).1.contains(i)
}

/// The contents of a list of site records.
pub open spec fn site_views(sites: Seq<Site>) -> Seq<SiteView> {
    sites.map_values(|s: Site| s@)
}

/// The positions in `due`, as mathematical integers.
pub open spec fn positions(due: Seq<usize>) -> Seq<int> {
    due.map_values(|i: usize| i as int)
}

/// No two sites of the list share a URL.
pub open spec fn distinct_urls(sites: Seq<SiteView>) -> bool {
    forall|i: int, j: int| 0 <= i < j < sites.len() ==> sites[i].url != sites[j].url
}

/// Every site's next due time after `now` fits the clock's range.
pub open spec fn intervals_fit(sites: Seq<SiteView>, now: u64) -> bool {
    forall|i: int| 0 <= i < sites.len() ==> now + (#[trigger] sites[i]).interval <= u64::MAX
}

impl Scheduler {
    #[verifier::type_invariant]
    spec fn inv(self) -> bool {
        forall|i: int, j: int|
            0 <= i < j < self.slots.len() ==> self.slots[i].url@ != self.slots[j].url@
    }

    /// Position of the slot for `url`, if there is one.
    spec fn slot_of(self, url: Seq<char>) -> int {
        choose|i: int| 0 <= i < self.slots.len() && self.slots[i].url@ == url
    }

    /// The schedule: for each URL seen so far, the time from which it is due.
    pub closed spec fn view(&self) -> Map<Seq<char>, nat> {
        Map::new(
            |url: Seq<char>| exists|i: int| 0 <= i < self.slots.len() && self.slots[i].url@ == url,
            |url: Seq<char>| self.slots[self.slot_of(url)].next as nat,
        )
    }

    /// A scheduler that has seen no site yet.
    pub fn new() -> (s: Scheduler)
        ensures
            s@ == Map::<Seq<char>, nat>::empty(),
    {
        let s = Scheduler { slots: Vec::new() };
        assert(s@ =~= Map::<Seq<char>, nat>::empty());
        s
    }

    fn find(&self, url: &String) -> (at: Option<usize>)
        ensures
            at is Some <==> self@.contains_key(url@),
            at is Some ==> at->0 < self.slots.len() && self.slots[at->0 as int].url@ == url@
                && self@[url@] == self.slots[at->0 as int].next,
    {
        let mut i: usize = 0;
        while i < self.slots.len()
            invariant
                i <= self.slots.len(),
                forall|j: int| 0 <= j < i ==> self.slots[j].url@ != url@,
            decreases self.slots.len() - i,
        {
            if self.slots[i].url == *url {
                proof {
                    use_type_invariant(self);
                    let k = self.slot_of(url@);
                    assert(0 <= i < self.slots.len() && self.slots[i as int].url@ == url@);
                    assert(k == i);
                }
                return Some(i);
            }
            i += 1;
        }
        None
    }

    /// The time from which `url` is due, if it was ever scheduled.
    pub fn next_eligible(&self, url: &str) -> (next: Option<u64>)
        ensures
            next is Some <==> self@.contains_key(url@),
            next is Some ==> self@[url@] == next->0,
    {
        let key = String::from_str(url);
        match self.find(&key) {
            Some(at) => Some(self.slots[at].next),
            None => None,
        }
    }

    /// Tells whether a check of `url` is due at time `now`.
    pub fn is_due(&self, url: &str, now: u64) -> (due: bool)
        ensures
            due == spec_due(self@, url@, now as nat),
    {
        match self.next_eligible(url) {
            Some(next) => next <= now,
            None => true,
        }
    }

    /// Records that `url` is due again from time `next` on.
    pub fn schedule(&mut self, url: &str, next: u64)
        ensures
            final(self)@ == old(self)@.insert(url@, next as nat),
    {
        proof {
            use_type_invariant(&*self);
        }
        let key = String::from_str(url);
        let ghost before = *self;
        match self.find(&key) {
            Some(at) => {
                let mut slots: Vec<Slot> = Vec::new();
                std::mem::swap(&mut self.slots, &mut slots);
                slots.set(at, Slot { url: key, next });
                std::mem::swap(&mut self.slots, &mut slots);
                proof {
                    assert forall|i: int, j: int| 0 <= i < j < self.slots.len() implies self.slots[i].url@
                        != self.slots[j].url@ by {
                        assert(self.slots[i].url@ == before.slots[i].url@);
                        assert(self.slots[j].url@ == before.slots[j].url@);
                    }
                    assert forall|u: Seq<char>| #[trigger] self@.contains_key(u) implies self@[u]
                        == before@.insert(url@, next as nat)[u] by {
                        let k = self.slot_of(u);
                        assert(self.slots[k].url@ == before.slots[k].url@);
                        if u != url@ {
                            assert(before.slots[before.slot_of(u)].url@ == u);
                            assert(before.slot_of(u) == k);
                        }
                    }
                    assert forall|u: Seq<char>| self@.contains_key(u) <==> before@.insert(
                        url@,
                        next as nat,
                    ).contains_key(u) by {
                        if self@.contains_key(u) {
                            let k = self.slot_of(u);
                            assert(before.slots[k].url@ == u);
                        }
                        if before@.contains_key(u) {
                            let k = before.slot_of(u);
                            assert(self.slots[k].url@ == u);
                        }
                        if u == url@ {
                            assert(self.slots[at as int].url@ == u);
                        }
                    }
                    assert(self@ =~= before@.insert(url@, next as nat));
                }
            },
            None => {
                let mut slots: Vec<Slot> = Vec::new();
                std::mem::swap(&mut self.slots, &mut slots);
                slots.push(Slot { url: key, next });
                std::mem::swap(&mut self.slots, &mut slots);
                proof {
                    let last = self.slots.len() - 1;
                    assert forall|i: int, j: int| 0 <= i < j < self.slots.len() implies self.slots[i].url@
                        != self.slots[j].url@ by {
                        assert(self.slots[i] == before.slots[i]);
                        if j < last {
                            assert(self.slots[j] == before.slots[j]);
                        }
                    }
                    assert forall|u: Seq<char>| self@.contains_key(u) <==> before@.insert(
                        url@,
                        next as nat,
                    ).contains_key(u) by {
                        if self@.contains_key(u) {
                            let k = self.slot_of(u);
                            if k < last {
                                assert(before.slots[k].url@ == u);
                            }
                        }
                        if before@.contains_key(u) {
                            let k = before.slot_of(u);
                            assert(self.slots[k].url@ == u);
                        }
                        if u == url@ {
                            assert(self.slots[last].url@ == u);
                        }
                    }
                    assert forall|u: Seq<char>| #[trigger] self@.contains_key(u) implies self@[u]
                        == before@.insert(url@, next as nat)[u] by {
                        let k = self.slot_of(u);
                        if u != url@ {
                            assert(k < last);
                            assert(before.slots[k].url@ == u);
                            assert(before.slots[before.slot_of(u)].url@ == u);
                            assert(before.slot_of(u) == k);
                        } else {
                            assert(self.slots[last].url@ == u);
                            assert(k == last);
                        }
                    }
                    assert(self@ =~= before@.insert(url@, next as nat));
                }
            },
        }
    }

    /// Runs one tick at time `now` over the registered sites: each site that
    /// is due is scheduled again one interval after `now`, counted from this
    /// tick and not from the end of its check, and its position is returned.
    pub fn tick(&mut self, sites: &Vec<Site>, now: u64) -> (due: Vec<usize>)
        requires
            intervals_fit(site_views(sites@), now),
        ensures
            (final(self)@, positions(due@)) == spec_tick(
                old(self)@,
                site_views(sites@),
                now as nat,
            ),
    {
        let ghost views = site_views(sites@);
        let mut due: Vec<usize> = Vec::new();
        let mut i: usize = 0;
        proof {
            assert(views.take(0) =~= Seq::<SiteView>::empty());
            assert(positions(due@) =~= Seq::<int>::empty());
        }
        while i < sites.len()
            invariant
                i <= sites.len(),
                views == site_views(sites@),
                intervals_fit(views, now),
                (self@, positions(due@)) == spec_tick(old(self)@, views.take(i as int), now as nat),
            decreases sites.len() - i,
        {
            let site = &sites[i];
            let ghost prefix = views.take(i as int);
            let ghost grown = views.take(i + 1);
            let ghost due_before = due@;
            proof {
                assert(grown.drop_last() =~= prefix);
                assert(grown.last() == views[i as int]);
                assert(views[i as int] == site@);
            }
            if self.is_due(site.url.as_str(), now) {
                self.schedule(site.url.as_str(), now + site.interval);
                due.push(i);
                proof {
                    assert(positions(due@) =~= positions(due_before).push(i as int));
                }
            }
            i += 1;
        }
        proof {
            assert(views.take(sites.len() as int) =~= views);
        }
        due
    }

    /// Decides, at the top of a round, whether the loop goes on: a requested
    /// stop ends it before anything else is done.
    pub fn on_wake(stop_requested: bool) -> (wake: Wake)
        ensures
            wake == if stop_requested {
                Wake::Exit
            } else {
                Wake::ListSites
            },
    {
        if stop_requested {
            Wake::Exit
        } else {
            Wake::ListSites
        }
    }

    /// Decides what a round does with the registry's answer. A failed read
    /// (`None`) and an empty list launch nothing, leave the schedule as it
    /// is and call for a long pause; otherwise the round is one tick over the
    /// sites, followed by the short pause between ticks.
    pub fn on_listing(&mut self, listing: Option<&Vec<Site>>, now: u64) -> (round: Round)
        requires
            listing is Some ==> intervals_fit(site_views(listing->0@), now),
        ensures
            listing is None ==> final(self)@ == old(self)@ && round.due@.len() == 0 && round.pause
                == RETRY_NANOS,
            listing is Some && listing->0@.len() == 0 ==> final(self)@ == old(self)@
                && round.due@.len() == 0 && round.pause == IDLE_NANOS,
            listing is Some && listing->0@.len() > 0 ==> (final(self)@, positions(round.due@))
                == spec_tick(old(self)@, site_views(listing->0@), now as nat) && round.pause
                == TICK_NANOS,
    {
        match listing {
            None => Round { due: Vec::new(), pause: RETRY_NANOS },
            Some(sites) => {
                if sites.len() == 0 {
                    Round { due: Vec::new(), pause: IDLE_NANOS }
                } else {
                    let due = self.tick(sites, now);
                    Round { due, pause: TICK_NANOS }
                }
            },
        }
    }
}

/// A tick touches only the entries of the sites it is run over, and the
/// positions it returns lie within the list.
pub proof fn lemma_tick_leaves_others(
    next: Map<Seq<char>, nat>,
    sites: Seq<SiteView>,
    now: nat,
    url: Seq<char>,
)
    requires
        forall|j: int| 0 <= j < sites.len() ==> sites[j].url != url,
    ensures
        spec_tick(next, sites, now).0.contains_key(url) == next.contains_key(url),
        next.contains_key(url) ==> spec_tick(next, sites, now).0[url] == next[url],
        forall|d: int| spec_tick(next, sites, now).1.contains(d) ==> 0 <= d < sites.len(),
    decreases sites.len(),
{
    if sites.len() > 0 {
        let front = sites.drop_last();
        lemma_tick_leaves_others(next, front, now, url);
        let (before, due) = spec_tick(next, front, now);
        assert(sites.last().url != url);
        assert forall|d: int| spec_tick(next, sites, now).1.contains(d) implies 0 <= d
            < sites.len() by {
            if !due.contains(d) {
                let grown = due.push(sites.len() - 1);
                assert(grown.contains(d));
                let at = choose|at: int| 0 <= at < grown.len() && grown[at] == d;
                if at < due.len() {
                    assert(due[at] == d);
                }
            }
        }
    }
}

/// What one tick does to a site of a list without repeated URLs: the site
/// is launched exactly if it was due before the tick; if so it is due again
/// one interval after the tick, and if not its entry stays as it was.
pub proof fn lemma_tick_effect(
    next: Map<Seq<char>, nat>,
    sites: Seq<SiteView>,
    now: nat,
    i: int,
)
    requires
        distinct_urls(sites),
        0 <= i < sites.len(),
    ensures
        spec_tick(next, sites, now).1.contains(i) == spec_due(next, sites[i].url, now),
        spec_tick(next, sites, now).0.contains_key(sites[i].url),
        spec_tick(next, sites, now).0[sites[i].url] == if spec_due(next, sites[i].url, now) {
            now + sites[i].interval as nat
        } else {
            next[sites[i].url]
        },
    decreases sites.len(),
{
    let front = sites.drop_last();
    let last = sites.len() - 1;
    let (before, due) = spec_tick(next, front, now);
    let url = sites[i].url;
    if i == last {
        assert forall|j: int| 0 <= j < front.len() implies front[j].url != url by {
            assert(front[j] == sites[j]);
        }
        lemma_tick_leaves_others(next, front, now, url);
        if spec_due(next, url, now) {
            assert(due.push(last)[due.len() as int] == last);
        } else {
            assert(!due.contains(last));
        }
    } else {
        assert(distinct_urls(front)) by {
            assert forall|a: int, b: int| 0 <= a < b < front.len() implies front[a].url
                != front[b].url by {
                assert(front[a] == sites[a]);
                assert(front[b] == sites[b]);
            }
        }
        assert(front[i] == sites[i]);
        lemma_tick_effect(next, front, now, i);
        assert(sites.last().url != url);
        if spec_due(before, sites.last().url, now) {
            let grown = due.push(last);
            if due.contains(i) {
                let at = choose|at: int| 0 <= at < due.len() && due[at] == i;
                assert(grown[at] == i);
            }
            if grown.contains(i) {
                let at = choose|at: int| 0 <= at < grown.len() && grown[at] == i;
                assert(due[at] == i);
            }
        }
    }
}

/// The schedule after one more tick is the tick applied to the schedule
/// before it.
pub proof fn lemma_run_step(
    next: Map<Seq<char>, nat>,
    sites: Seq<SiteView>,
    ticks: Seq<nat>,
    k: int,
)
    requires
        0 <= k < ticks.len(),
    ensures
        spec_run(next, sites, ticks.take(k + 1)) == spec_tick(
            spec_run(next, sites, ticks.take(k)),
            sites,
            ticks[k],
        ).0,
{
    let grown = ticks.take(k + 1);
    assert(grown.drop_last() =~= ticks.take(k));
    assert(grown.last() == ticks[k]);
}

/// The times `ticks` are those of a loop that ticks at least once every
/// `period`: they never run backwards and no two neighbours are further
/// apart than `period`.
pub open spec fn regular_ticks(ticks: Seq<nat>, period: nat) -> bool {
    forall|k: int|
        0 <= k < ticks.len() - 1 ==> ticks[k] <= #[trigger] ticks[k + 1] <= ticks[k] + period
}

/// The tick at position `k` is the first one after the tick at position
/// `from` that launches the site at position `i`.
pub open spec fn next_launch(
    next: Map<Seq<char>, nat>,
    sites: Seq<SiteView>,
    ticks: Seq<nat>,
    i: int,
    from: int,
    k: int,
) -> bool {
    &&& from < k < ticks.len()
    &&& launched_at(next, sites, ticks, k, i)
    &&& forall|j: int| from < j < k ==> !launched_at(next, sites, ticks, j, i)
}

proof fn lemma_cadence_from(
    next: Map<Seq<char>, nat>,
    sites: Seq<SiteView>,
    ticks: Seq<nat>,
    period: nat,
    i: int,
    from: int,
    j: int,
)
    requires
        distinct_urls(sites),
        0 <= i < sites.len(),
        regular_ticks(ticks, period),
        period < sites[i].interval,
        0 <= from < j < ticks.len(),
        ticks.last() >= ticks[from] + sites[i].interval,
        forall|m: int| from < m < j ==> !launched_at(next, sites, ticks, m, i),
        spec_run(next, sites, ticks.take(j)).contains_key(sites[i].url),
        spec_run(next, sites, ticks.take(j))[sites[i].url] == ticks[from] + sites[i].interval,
        ticks[j - 1] < ticks[from] + sites[i].interval,
    ensures
        exists|k: int|
            next_launch(next, sites, ticks, i, from, k) && ticks[from] + sites[i].interval
                <= ticks[k] < ticks[from] + sites[i].interval + period,
    decreases ticks.len() - j,
{
    let url = sites[i].url;
    let target = ticks[from] + sites[i].interval;
    let state = spec_run(next, sites, ticks.take(j));
    lemma_tick_effect(state, sites, ticks[j], i);
    assert(ticks[(j - 1) + 1] <= ticks[j - 1] + period);
    if ticks[j] >= target {
        assert(spec_due(state, url, ticks[j]));
        assert(next_launch(next, sites, ticks, i, from, j));
    } else {
        assert(!spec_due(state, url, ticks[j]));
        assert(j < ticks.len() - 1);
        lemma_run_step(next, sites, ticks, j);
        lemma_cadence_from(next, sites, ticks, period, i, from, j + 1);
    }
}

/// Cadence of the checks of one site. Take a loop that ticks at least once
/// every `period` over a list of sites without repeated URLs, and a site whose
/// interval is longer than `period`. If the tick at position `from` launches
/// the site and the loop runs for at least one interval more, then the site
/// is launched again, and the first tick that does so comes no earlier than
/// one interval and less than one interval plus one period after the tick at
/// `from`. Nothing but the tick times enters: how long any check takes, of
/// this site or of another, changes nothing.
pub proof fn lemma_cadence(
    next: Map<Seq<char>, nat>,
    sites: Seq<SiteView>,
    ticks: Seq<nat>,
    period: nat,
    i: int,
    from: int,
)
    requires
        distinct_urls(sites),
        0 <= i < sites.len(),
        regular_ticks(ticks, period),
        period < sites[i].interval,
        0 <= from < ticks.len(),
        launched_at(next, sites, ticks, from, i),
        ticks.last() >= ticks[from] + sites[i].interval,
    ensures
        exists|k: int|
            next_launch(next, sites, ticks, i, from, k) && ticks[from] + sites[i].interval
                <= ticks[k] < ticks[from] + sites[i].interval + period,
{
    let state = spec_run(next, sites, ticks.take(from));
    lemma_tick_effect(state, sites, ticks[from], i);
    lemma_run_step(next, sites, ticks, from);
    assert(from < ticks.len() - 1);
    lemma_cadence_from(next, sites, ticks, period, i, from, from + 1);
}

/// A site that is not yet due is left alone by a tick, whatever happens to
/// the other sites of the list.
pub proof fn lemma_not_due_is_skipped(
    next: Map<Seq<char>, nat>,
    sites: Seq<SiteView>,
    now: nat,
    i: int,
)
    requires
        distinct_urls(sites),
        0 <= i < sites.len(),
        next.contains_key(sites[i].url),
        now < next[sites[i].url],
    ensures
        !spec_tick(next, sites, now).1.contains(i),
        spec_tick(next, sites, now).0[sites[i].url] == next[sites[i].url],
{
    lemma_tick_effect(next, sites, now, i);
}

} // verus!
