use isup::commands::{
    add_site, confirms, downtime_text, get_icon_path, icon_paths, last_checked_text, list_sites,
    list_url_width, offers_restart, remove_site, rule_width, same_text, status_label,
    status_sites, status_url_width, url_column, AddOutcome, RemoveOutcome, RemovePhase,
};
use isup::site::{update_site_status, Site};

#[test]
fn adding_a_new_site_registers_it() {
    match add_site("example.com", 5_000_000_000, "device", false) {
        AddOutcome::Register(site, note) => {
            assert_eq!(site.url, "https://example.com");
            assert_eq!(site.interval, 5_000_000_000);
            assert_eq!(site.notify_method, "device");
            assert_eq!(site.id, None);
            assert_eq!(site.is_up, None);
            assert_eq!(site.last_checked, None);
            assert_eq!(site.last_status, None);
            assert_eq!(site.downtime_started, None);
            assert!(!note);
        }
        other => panic!("unexpected {:?}", other),
    }
}

#[test]
fn adding_with_another_method_still_uses_the_device() {
    match add_site("http://example.com", 1, "email", false) {
        AddOutcome::Register(site, note) => {
            assert_eq!(site.url, "http://example.com");
            assert_eq!(site.notify_method, "device");
            assert!(note);
        }
        other => panic!("unexpected {:?}", other),
    }
}

#[test]
fn adding_a_registered_site_changes_nothing() {
    match add_site("example.com", 1, "email", true) {
        AddOutcome::AlreadyMonitored(url) => assert_eq!(url, "https://example.com"),
        other => panic!("unexpected {:?}", other),
    }
}

#[test]
fn removing_an_absent_site_is_not_an_error() {
    let phase = remove_site(RemovePhase::LookingUp, false);
    assert_eq!(phase, RemovePhase::Done(RemoveOutcome::NotMonitored));
    assert_eq!(remove_site(phase, true), phase);
    assert_eq!(remove_site(phase, false), phase);
}

#[test]
fn removing_a_site_deletes_and_confirms() {
    let mut phase = RemovePhase::LookingUp;
    phase = remove_site(phase, true);
    assert_eq!(phase, RemovePhase::Deleting);
    phase = remove_site(phase, true);
    assert_eq!(phase, RemovePhase::Confirming);
    phase = remove_site(phase, false);
    assert_eq!(phase, RemovePhase::Done(RemoveOutcome::Removed));
}

#[test]
fn removal_reports_what_went_wrong() {
    assert_eq!(
        remove_site(RemovePhase::Deleting, false),
        RemovePhase::Done(RemoveOutcome::NotDeleted)
    );
    assert_eq!(
        remove_site(RemovePhase::Confirming, true),
        RemovePhase::Done(RemoveOutcome::StillListed)
    );
}

#[test]
fn state_labels() {
    assert_eq!(status_label(Some(true)), "● UP");
    assert_eq!(status_label(Some(false)), "● DOWN");
    assert_eq!(status_label(None), "○ UNKNOWN");
}

#[test]
fn last_checked_in_words() {
    assert_eq!(last_checked_text(1000, None), "Never");
    assert_eq!(last_checked_text(1000, Some(1000)), "0 seconds ago");
    assert_eq!(last_checked_text(1000, Some(941)), "59 seconds ago");
    assert_eq!(last_checked_text(1000, Some(940)), "1 minutes ago");
    assert_eq!(last_checked_text(4000, Some(401)), "59 minutes ago");
    assert_eq!(last_checked_text(4000, Some(400)), "1 hours ago");
    assert_eq!(last_checked_text(1_000_000, Some(0)), "277 hours ago");
    assert_eq!(last_checked_text(1000, Some(1005)), "-5 seconds ago");
}

#[test]
fn last_checked_at_the_limits() {
    assert_eq!(last_checked_text(i64::MIN, Some(i64::MAX)), "-18446744073709551615 seconds ago");
    assert_eq!(last_checked_text(i64::MAX, Some(i64::MIN)), "5124095576030431 hours ago");
    assert_eq!(last_checked_text(i64::MAX, Some(i64::MAX)), "0 seconds ago");
}

#[test]
fn downtime_in_words() {
    assert_eq!(downtime_text(Some(false), Some(1000), 1000), "0 seconds");
    assert_eq!(downtime_text(Some(false), Some(1000), 1059), "59 seconds");
    assert_eq!(downtime_text(Some(false), Some(1000), 1060), "1 minutes");
    assert_eq!(downtime_text(Some(false), Some(1000), 4599), "59 minutes");
    assert_eq!(downtime_text(Some(false), Some(1000), 4600), "1 hours");
    assert_eq!(downtime_text(Some(false), Some(1000), 87_399), "23 hours");
    assert_eq!(downtime_text(Some(false), Some(1000), 87_400), "1 days");
    assert_eq!(downtime_text(Some(false), Some(0), 864_000), "10 days");
    assert_eq!(downtime_text(Some(false), Some(1000), 990), "-10 seconds");
}

#[test]
fn no_downtime_unless_down_with_a_start() {
    assert_eq!(downtime_text(Some(true), None, 1000), "None");
    assert_eq!(downtime_text(Some(true), Some(10), 1000), "None");
    assert_eq!(downtime_text(None, None, 1000), "None");
    assert_eq!(downtime_text(None, Some(10), 1000), "None");
    assert_eq!(downtime_text(Some(false), None, 1000), "None");
}

#[test]
fn list_rows_show_url_and_state() {
    let mut down = Site::new("https://b", 1);
    update_site_status(&mut down, false, "unavailable", 5);
    let mut up = Site::new("https://c", 1);
    update_site_status(&mut up, true, "ok", 5);
    let sites = vec![Site::new("https://a", 1), down, up];
    let rows = list_sites(&sites);
    assert_eq!(rows.len(), 3);
    assert_eq!(rows[0].url, "https://a");
    assert_eq!(rows[0].status, "○ UNKNOWN");
    assert_eq!(rows[1].url, "https://b");
    assert_eq!(rows[1].status, "● DOWN");
    assert_eq!(rows[2].url, "https://c");
    assert_eq!(rows[2].status, "● UP");
    assert!(list_sites(&Vec::new()).is_empty());
}

#[test]
fn status_rows_show_age_and_downtime() {
    let mut down = Site::new("https://b", 1);
    update_site_status(&mut down, false, "unavailable", 100);
    update_site_status(&mut down, false, "unavailable", 4000);
    let mut up = Site::new("https://c", 1);
    update_site_status(&mut up, true, "ok", 3990);
    let sites = vec![Site::new("https://a", 1), down, up];
    let rows = status_sites(&sites, 4000);
    assert_eq!(rows.len(), 3);
    assert_eq!(rows[0].url, "https://a");
    assert_eq!(rows[0].status, "○ UNKNOWN");
    assert_eq!(rows[0].last_checked, "Never");
    assert_eq!(rows[0].downtime, "None");
    assert_eq!(rows[1].status, "● DOWN");
    assert_eq!(rows[1].last_checked, "0 seconds ago");
    assert_eq!(rows[1].downtime, "1 hours");
    assert_eq!(rows[2].status, "● UP");
    assert_eq!(rows[2].last_checked, "10 seconds ago");
    assert_eq!(rows[2].downtime, "None");
}

#[test]
fn table_widths() {
    assert_eq!(rule_width(0), 0);
    assert_eq!(rule_width(79), 79);
    assert_eq!(rule_width(80), 80);
    assert_eq!(rule_width(200), 80);
    assert_eq!(list_url_width(80), 35);
    assert_eq!(list_url_width(60), 30);
    assert_eq!(list_url_width(69), 34);
    assert_eq!(list_url_width(70), 35);
    assert_eq!(list_url_width(0), 0);
    assert_eq!(list_url_width(u16::MAX), 35);
    assert_eq!(status_url_width(80), 32);
    assert_eq!(status_url_width(87), 34);
    assert_eq!(status_url_width(88), 35);
    assert_eq!(status_url_width(200), 35);
    assert_eq!(url_column(50, 10), 5);
    assert_eq!(url_column(u16::MAX, u8::MAX), 35);
}

#[test]
fn restart_is_offered_only_to_a_stopped_service_with_sites() {
    assert!(offers_restart(false, 1));
    assert!(offers_restart(false, 20));
    assert!(!offers_restart(false, 0));
    assert!(!offers_restart(true, 1));
    assert!(!offers_restart(true, 0));
}

#[test]
fn yes_is_a_single_y() {
    assert!(confirms("y"));
    assert!(confirms("Y"));
    assert!(confirms("y\n"));
    assert!(confirms("  Y \r\n"));
    assert!(!confirms(""));
    assert!(!confirms("\n"));
    assert!(!confirms("n"));
    assert!(!confirms("yes"));
    assert!(!confirms("yy"));
    assert!(!confirms("y y"));
    assert!(!confirms("ｙ"));
}

#[test]
fn confirms_agrees_with_std() {
    for input in ["y", "Y", " y", "y ", "\ty\n", "n", "", "ye", "Ｙ", "ý", "y\u{3000}", "\u{0}y"] {
        assert_eq!(confirms(input), input.trim().to_lowercase() == "y", "{:?}", input);
    }
}

#[test]
fn texts_are_compared_by_content() {
    assert!(same_text("device", "device"));
    assert!(same_text("", ""));
    assert!(!same_text("device", "Device"));
    assert!(!same_text("device", "devic"));
}

#[test]
fn the_first_icon_that_is_there_wins() {
    assert_eq!(get_icon_path(&vec![true, true, true, true]), "isup.png");
    assert_eq!(get_icon_path(&vec![false, true, true, true]), "./assets/isup.png");
    assert_eq!(
        get_icon_path(&vec![false, false, true, true]),
        "/usr/share/icons/hicolor/scalable/apps/isup.png"
    );
    assert_eq!(
        get_icon_path(&vec![false, false, false, true]),
        "/Applications/isup.app/Contents/Resources/isup.png"
    );
    assert_eq!(get_icon_path(&vec![false, false, false, false]), "isup.png");
    assert_eq!(get_icon_path(&vec![]), "isup.png");
    assert_eq!(get_icon_path(&vec![false, true]), "./assets/isup.png");
}

#[test]
fn icon_candidates_are_in_order() {
    assert_eq!(
        icon_paths(),
        vec![
            "isup.png",
            "./assets/isup.png",
            "/usr/share/icons/hicolor/scalable/apps/isup.png",
            "/Applications/isup.app/Contents/Resources/isup.png",
        ]
    );
}
