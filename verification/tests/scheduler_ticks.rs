use isup::scheduler::{Scheduler, Wake, IDLE_NANOS, RETRY_NANOS, TICK_NANOS};
use isup::site::Site;

const MS: u64 = 1_000_000;

#[test]
fn unseen_site_is_due_at_once() {
    let scheduler = Scheduler::new();
    assert!(scheduler.is_due("https://example.com", 0));
    assert!(scheduler.is_due("https://example.com", u64::MAX));
    assert_eq!(scheduler.next_eligible("https://example.com"), None);
}

#[test]
fn scheduled_site_is_due_from_its_time_on() {
    let mut scheduler = Scheduler::new();
    scheduler.schedule("https://a", 500);
    assert_eq!(scheduler.next_eligible("https://a"), Some(500));
    assert!(!scheduler.is_due("https://a", 0));
    assert!(!scheduler.is_due("https://a", 499));
    assert!(scheduler.is_due("https://a", 500));
    assert!(scheduler.is_due("https://a", 501));
    assert!(scheduler.is_due("https://b", 0));
}

#[test]
fn schedule_replaces_the_earlier_time() {
    let mut scheduler = Scheduler::new();
    scheduler.schedule("https://a", 500);
    scheduler.schedule("https://b", 700);
    scheduler.schedule("https://a", 900);
    assert_eq!(scheduler.next_eligible("https://a"), Some(900));
    assert_eq!(scheduler.next_eligible("https://b"), Some(700));
    assert_eq!(scheduler.next_eligible("https://c"), None);
}

#[test]
fn first_tick_launches_every_site() {
    let sites = vec![Site::new("https://a", 5_000 * MS), Site::new("https://b", 250 * MS)];
    let mut scheduler = Scheduler::new();
    assert_eq!(scheduler.tick(&sites, 1_000), vec![0, 1]);
    assert_eq!(scheduler.next_eligible("https://a"), Some(1_000 + 5_000 * MS));
    assert_eq!(scheduler.next_eligible("https://b"), Some(1_000 + 250 * MS));
}

#[test]
fn tick_skips_sites_that_are_not_due() {
    let sites = vec![Site::new("https://a", 5_000 * MS), Site::new("https://b", 250 * MS)];
    let mut scheduler = Scheduler::new();
    scheduler.tick(&sites, 0);
    assert_eq!(scheduler.tick(&sites, 100 * MS), Vec::<usize>::new());
    assert_eq!(scheduler.tick(&sites, 249 * MS), Vec::<usize>::new());
    assert_eq!(scheduler.tick(&sites, 250 * MS), vec![1]);
    assert_eq!(scheduler.next_eligible("https://b"), Some(500 * MS));
    assert_eq!(scheduler.next_eligible("https://a"), Some(5_000 * MS));
}

#[test]
fn next_time_counts_from_the_tick_that_launched() {
    let sites = vec![Site::new("https://a", 250 * MS)];
    let mut scheduler = Scheduler::new();
    scheduler.tick(&sites, 0);
    assert_eq!(scheduler.tick(&sites, 300 * MS), vec![0]);
    assert_eq!(scheduler.next_eligible("https://a"), Some(550 * MS));
}

#[test]
fn cadence_stays_within_one_tick_of_the_interval() {
    let interval = 250 * MS;
    let period = 100 * MS;
    let sites = vec![Site::new("https://slow", 10_000 * MS), Site::new("https://a", interval)];
    let mut scheduler = Scheduler::new();
    let mut launches: Vec<u64> = Vec::new();
    let mut now = 0;
    while now <= 3_000 * MS {
        if scheduler.tick(&sites, now).contains(&1) {
            launches.push(now);
        }
        now += period;
    }
    assert_eq!(launches[0], 0);
    assert_eq!(launches[1], 300 * MS);
    assert_eq!(launches[2], 600 * MS);
    for pair in launches.windows(2) {
        let gap = pair[1] - pair[0];
        assert!(gap >= interval);
        assert!(gap < interval + period);
    }
    assert_eq!(launches.len(), 11);
}

#[test]
fn cadence_holds_under_jitter() {
    let interval = 1_000 * MS;
    let period = 100 * MS;
    let sites = vec![Site::new("https://a", interval)];
    let mut scheduler = Scheduler::new();
    let mut launches: Vec<u64> = Vec::new();
    let mut now = 0;
    let mut step = 0u64;
    while now <= 20_000 * MS {
        if !scheduler.tick(&sites, now).is_empty() {
            launches.push(now);
        }
        step += 1;
        now += 1 + (step * 37 * MS) % period;
    }
    assert!(launches.len() > 10);
    for pair in launches.windows(2) {
        let gap = pair[1] - pair[0];
        assert!(gap >= interval);
        assert!(gap < interval + period);
    }
}

#[test]
fn a_repeated_url_is_launched_once_per_tick() {
    let sites = vec![Site::new("https://a", 250 * MS), Site::new("https://a", 250 * MS)];
    let mut scheduler = Scheduler::new();
    assert_eq!(scheduler.tick(&sites, 0), vec![0]);
    assert_eq!(scheduler.tick(&sites, 250 * MS), vec![0]);
}

#[test]
fn a_zero_interval_is_due_at_every_tick() {
    let sites = vec![Site::new("https://a", 0)];
    let mut scheduler = Scheduler::new();
    assert_eq!(scheduler.tick(&sites, 5), vec![0]);
    assert_eq!(scheduler.tick(&sites, 5), vec![0]);
    assert_eq!(scheduler.tick(&sites, 6), vec![0]);
}

#[test]
fn a_stop_request_ends_the_loop() {
    assert_eq!(Scheduler::on_wake(true), Wake::Exit);
    assert_eq!(Scheduler::on_wake(false), Wake::ListSites);
}

#[test]
fn a_failed_listing_backs_off() {
    let mut scheduler = Scheduler::new();
    scheduler.schedule("https://a", 10);
    let round = scheduler.on_listing(None, 1_000);
    assert!(round.due.is_empty());
    assert_eq!(round.pause, RETRY_NANOS);
    assert_eq!(round.pause, 5_000_000_000);
    assert_eq!(scheduler.next_eligible("https://a"), Some(10));
}

#[test]
fn an_empty_listing_idles() {
    let mut scheduler = Scheduler::new();
    let sites: Vec<Site> = Vec::new();
    let round = scheduler.on_listing(Some(&sites), 1_000);
    assert!(round.due.is_empty());
    assert_eq!(round.pause, IDLE_NANOS);
    assert_eq!(round.pause, 5_000_000_000);
}

#[test]
fn a_listing_is_ticked_over() {
    let mut scheduler = Scheduler::new();
    let sites = vec![Site::new("https://a", 300 * MS), Site::new("https://b", 300 * MS)];
    let round = scheduler.on_listing(Some(&sites), 0);
    assert_eq!(round.due, vec![0, 1]);
    assert_eq!(round.pause, TICK_NANOS);
    assert_eq!(round.pause, 100 * MS);
    let round = scheduler.on_listing(Some(&sites), 100 * MS);
    assert!(round.due.is_empty());
    assert_eq!(round.pause, TICK_NANOS);
}
