use isup::notifier::{
    closing_text, compose_body, compose_title, log_notification_attempt, opening_text,
    send_notification, stamp, Backend, NotificationService, NotifyMethod,
};
use std::cell::RefCell;

fn chain_of(n: usize) -> NotificationService {
    let mut service = NotificationService::empty();
    for i in 0..n {
        service.add_notifier(if i % 2 == 0 { Backend::Notifica } else { Backend::Console });
    }
    service
}

#[test]
fn default_chain_is_native_then_console() {
    let service = NotificationService::new();
    assert_eq!(service.notifiers(), vec![Backend::Notifica, Backend::Console]);
}

#[test]
fn add_notifier_appends() {
    let mut service = NotificationService::new();
    service.add_notifier(Backend::Console);
    assert_eq!(
        service.notifiers(),
        vec![Backend::Notifica, Backend::Console, Backend::Console]
    );
    assert_eq!(NotificationService::empty().notifiers(), Vec::<Backend>::new());
}

#[test]
fn backend_names() {
    assert_eq!(Backend::Notifica.name(), "Notifica");
    assert_eq!(Backend::Console.name(), "Console");
}

#[test]
fn first_success_ends_the_chain() {
    for n in 1..6usize {
        for k in 0..n {
            let service = chain_of(n);
            let calls = RefCell::new(Vec::new());
            let delivery = service.send_notification("t", "b", |backend, title, body| {
                let at = calls.borrow().len();
                calls.borrow_mut().push((backend, title.to_string(), body.to_string()));
                if at < k {
                    Err(format!("failure {}", at))
                } else {
                    Ok(())
                }
            });
            assert!(delivery.delivered);
            assert_eq!(delivery.attempts.len(), k + 1);
            assert_eq!(calls.borrow().len(), k + 1);
            for (i, attempt) in delivery.attempts.iter().enumerate() {
                assert_eq!(attempt.backend, service.notifiers()[i]);
                assert_eq!(calls.borrow()[i].0, attempt.backend);
                assert_eq!(calls.borrow()[i].1, "t");
                assert_eq!(calls.borrow()[i].2, "b");
                if i < k {
                    assert_eq!(attempt.error, Some(format!("failure {}", i)));
                } else {
                    assert_eq!(attempt.error, None);
                }
            }
            assert_eq!(delivery.log.len(), 1 + 2 * (k + 1));
        }
    }
}

#[test]
fn a_chain_that_fails_throughout_reports_so() {
    for n in 0..6usize {
        let service = chain_of(n);
        let calls = RefCell::new(0usize);
        let delivery = service.send_notification("t", "b", |_, _, _| {
            *calls.borrow_mut() += 1;
            Err(String::from("no"))
        });
        assert!(!delivery.delivered);
        assert_eq!(delivery.attempts.len(), n);
        assert_eq!(*calls.borrow(), n);
        assert!(delivery.attempts.iter().all(|a| a.error.as_deref() == Some("no")));
        assert_eq!(delivery.log.len(), 1 + 2 * n + 1);
        assert_eq!(delivery.log.last().unwrap(), "All notification methods failed");
    }
}

#[test]
fn the_log_names_every_attempt() {
    let service = NotificationService::new();
    let delivery = service.send_notification("site down", "it is down", |backend, _, _| match backend {
        Backend::Notifica => Err(String::from("no bus")),
        Backend::Console => Ok(()),
    });
    assert!(delivery.delivered);
    assert_eq!(
        delivery.log,
        vec![
            "Attempting to send notification: 'site down' - 'it is down'",
            "Trying notifier: Notifica",
            "Notification with Notifica failed: no bus",
            "Trying notifier: Console",
            "Notification successful with Console",
        ]
    );
}

#[test]
fn the_log_of_a_failed_chain() {
    let service = NotificationService::new();
    let delivery = service.send_notification("a", "b", |backend, _, _| {
        Err(format!("{} broke", backend.name()))
    });
    assert_eq!(
        delivery.log,
        vec![
            "Attempting to send notification: 'a' - 'b'",
            "Trying notifier: Notifica",
            "Notification with Notifica failed: Notifica broke",
            "Trying notifier: Console",
            "Notification with Console failed: Console broke",
            "All notification methods failed",
        ]
    );
}

#[test]
fn the_dispatch_steps_through_the_chain() {
    let service = NotificationService::new();
    let mut dispatch = service.begin("t", "b");
    assert!(!dispatch.is_finished());
    assert!(!dispatch.is_delivered());
    assert_eq!(dispatch.next(), Some(Backend::Notifica));
    assert_eq!(dispatch.current(), Backend::Notifica);
    dispatch.record(Err(String::from("x")));
    assert!(!dispatch.is_finished());
    assert_eq!(dispatch.next(), Some(Backend::Console));
    dispatch.record(Ok(()));
    assert!(dispatch.is_finished());
    assert!(dispatch.is_delivered());
    assert_eq!(dispatch.next(), None);
    dispatch.record(Err(String::from("late")));
    dispatch.record(Ok(()));
    let delivery = dispatch.finish();
    assert!(delivery.delivered);
    assert_eq!(delivery.attempts.len(), 2);
    assert_eq!(delivery.attempts[0].backend, Backend::Notifica);
    assert_eq!(delivery.attempts[0].error.as_deref(), Some("x"));
    assert_eq!(delivery.attempts[1].backend, Backend::Console);
    assert_eq!(delivery.attempts[1].error, None);
}

#[test]
fn a_dispatch_stops_at_the_first_delivery() {
    let service = NotificationService::new();
    let mut dispatch = service.begin("t", "b");
    dispatch.record(Ok(()));
    assert!(dispatch.is_finished());
    assert_eq!(dispatch.next(), None);
    assert_eq!(
        dispatch.log(),
        vec![
            "Attempting to send notification: 't' - 'b'",
            "Trying notifier: Notifica",
            "Notification successful with Notifica",
        ]
    );
}

#[test]
fn a_dispatch_over_no_backend_fails_at_once() {
    let dispatch = NotificationService::empty().begin("t", "b");
    assert!(dispatch.is_finished());
    assert!(!dispatch.is_delivered());
    assert_eq!(dispatch.next(), None);
    assert_eq!(
        dispatch.log(),
        vec!["Attempting to send notification: 't' - 'b'", "All notification methods failed"]
    );
}

#[test]
fn titles_and_bodies() {
    assert_eq!(compose_title("example.com", true), "🚨 site down: example.com");
    assert_eq!(compose_title("example.com", false), " 👍 site recovered: example.com");
    assert_eq!(
        compose_body("example.com", true, "unavailable"),
        "example.com is down! status: unavailable"
    );
    assert_eq!(compose_body("example.com", false, "ok"), "example.com is up! status: ok");
}

#[test]
fn a_transition_is_announced_through_the_default_chain() {
    let seen = RefCell::new(Vec::new());
    let delivery = send_notification("example.com", true, "unavailable", |backend, title, body| {
        seen.borrow_mut().push((backend, title.to_string(), body.to_string()));
        Err(String::from("nothing works"))
    });
    assert!(!delivery.delivered);
    assert_eq!(delivery.attempts.len(), 2);
    let seen = seen.borrow();
    assert_eq!(seen.len(), 2);
    assert_eq!(seen[0].0, Backend::Notifica);
    assert_eq!(seen[1].0, Backend::Console);
    for call in seen.iter() {
        assert_eq!(call.1, "🚨 site down: example.com");
        assert_eq!(call.2, "example.com is down! status: unavailable");
    }
    assert_eq!(
        delivery.log[0],
        "Attempting to send notification: '🚨 site down: example.com' - 'example.com is down! status: unavailable'"
    );
}

#[test]
fn a_recovery_is_announced_once() {
    let calls = RefCell::new(0);
    let delivery = send_notification("example.com", false, "ok", |_, title, body| {
        *calls.borrow_mut() += 1;
        assert_eq!(title, " 👍 site recovered: example.com");
        assert_eq!(body, "example.com is up! status: ok");
        Ok(())
    });
    assert!(delivery.delivered);
    assert_eq!(*calls.borrow(), 1);
    assert_eq!(delivery.attempts.len(), 1);
    assert_eq!(delivery.attempts[0].backend, Backend::Notifica);
}

#[test]
fn attempt_records() {
    assert_eq!(
        log_notification_attempt("2024-05-01 10:00:00", "example.com", true, "unavailable", None),
        "[2024-05-01 10:00:00] Notification sent: example.com is DOWN (unavailable)"
    );
    assert_eq!(
        log_notification_attempt("2024-05-01 10:00:00", "example.com", false, "ok", None),
        "[2024-05-01 10:00:00] Notification sent: example.com is UP (ok)"
    );
    assert_eq!(
        log_notification_attempt(
            "2024-05-01 10:00:00",
            "example.com",
            true,
            "unavailable",
            Some("All notification methods failed")
        ),
        "[2024-05-01 10:00:00] Notification failed: example.com is DOWN (unavailable). Error: All notification methods failed"
    );
}

#[test]
fn stamped_lines() {
    assert_eq!(stamp("2024-05-01 10:00:00", "hello"), "[2024-05-01 10:00:00] hello\n");
    assert_eq!(stamp("", ""), "[] \n");
}

#[test]
fn every_method_name_means_device() {
    assert_eq!(NotifyMethod::from("device"), NotifyMethod::Device);
    assert_eq!(NotifyMethod::from("email"), NotifyMethod::Device);
    assert_eq!(NotifyMethod::from_name(""), NotifyMethod::Device);
}

#[test]
fn attempts_can_be_copied() {
    let service = NotificationService::new();
    let delivery = service.send_notification("t", "b", |_, _, _| Err(String::from("e")));
    let copy = delivery.attempts[1].duplicate();
    assert_eq!(copy.backend, Backend::Console);
    assert_eq!(copy.error.as_deref(), Some("e"));
}

#[test]
fn audit_lines_one_by_one() {
    assert_eq!(opening_text("t", "b"), "Attempting to send notification: 't' - 'b'");
    assert_eq!(opening_text("", ""), "Attempting to send notification: '' - ''");
    assert_eq!(Backend::Notifica.trying_text(), "Trying notifier: Notifica");
    assert_eq!(Backend::Console.trying_text(), "Trying notifier: Console");
    assert_eq!(Backend::Console.result_text(None), "Notification successful with Console");
    assert_eq!(
        Backend::Notifica.result_text(Some("no bus")),
        "Notification with Notifica failed: no bus"
    );
    assert_eq!(closing_text(), "All notification methods failed");
}

#[test]
fn the_lines_one_by_one_make_up_the_log() {
    let service = NotificationService::new();
    let delivery = service.send_notification("t", "b", |backend, _, _| match backend {
        Backend::Notifica => Err(String::from("x")),
        Backend::Console => Err(String::from("y")),
    });
    let mut lines = vec![opening_text("t", "b")];
    for attempt in &delivery.attempts {
        lines.push(attempt.backend.trying_text());
        lines.push(attempt.backend.result_text(attempt.error.as_deref()));
    }
    lines.push(closing_text().to_string());
    assert_eq!(delivery.log, lines);
}

#[test]
fn a_delivery_names_its_error() {
    let service = NotificationService::new();
    let failed = service.send_notification("t", "b", |_, _, _| Err(String::from("e")));
    assert_eq!(failed.error(), Some("All notification methods failed"));
    let sent = service.send_notification("t", "b", |_, _, _| Ok(()));
    assert_eq!(sent.error(), None);
    let none = NotificationService::empty().send_notification("t", "b", |_, _, _| Ok(()));
    assert_eq!(none.error(), Some("All notification methods failed"));
}
