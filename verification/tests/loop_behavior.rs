//! Tests for the change detector, the notification text, and the poll
//! loop's step function, scenario by scenario.

use ag45_bot::control::{has_changed, Controller, Decision, PollAction, PollEvent};
use ag45_bot::notify::format_notification;
use ag45_bot::record::{FetchError, TournamentInformation};

fn record(name: &str, kind: &str, start: &str) -> TournamentInformation {
    TournamentInformation {
        tournament_name: name.to_string(),
        tournament_type: kind.to_string(),
        tournament_start_time: start.to_string(),
    }
}

fn record_a() -> TournamentInformation {
    record("Весенний кубок", "Швейцарская система", "2021-05-01 18:00")
}

fn record_b() -> TournamentInformation {
    record("Летний кубок", "Швейцарская система", "2021-05-01 18:00")
}

#[test]
fn decision_bootstrap_for_any_first_record() {
    assert_eq!(has_changed(&None, &record_a()), Decision::Bootstrap);
    assert_eq!(has_changed(&None, &record_b()), Decision::Bootstrap);
}

#[test]
fn decision_unchanged_for_equal_record() {
    assert_eq!(has_changed(&Some(record_a()), &record_a()), Decision::Unchanged);
}

#[test]
fn decision_changed_on_any_field() {
    let base = record("n", "t", "s");
    assert_eq!(has_changed(&Some(base.clone()), &record("x", "t", "s")), Decision::Changed);
    assert_eq!(has_changed(&Some(base.clone()), &record("n", "x", "s")), Decision::Changed);
    assert_eq!(has_changed(&Some(base), &record("n", "t", "x")), Decision::Changed);
}

#[test]
fn notification_text_follows_template() {
    let text = format_notification(&record_a());
    assert_eq!(
        text,
        "На сайте появился новый турнир!\n\
         Название: Весенний кубок\n\
         Время начала: 2021-05-01 18:00\n\
         Тип: Швейцарская система"
    );
}

#[test]
fn first_poll_bootstraps_silently() {
    let mut looper = Controller::new();
    let action = looper.step(PollEvent::FetchSucceeded(record_a()));
    assert_eq!(action, PollAction::SleepPoll);
    assert_eq!(looper.last_seen, Some(record_a()));
}

#[test]
fn repeated_record_changes_nothing() {
    let mut looper = Controller::new();
    assert_eq!(looper.step(PollEvent::FetchSucceeded(record_a())), PollAction::SleepPoll);
    assert_eq!(looper.step(PollEvent::Slept), PollAction::Fetch);
    let action = looper.step(PollEvent::FetchSucceeded(record_a()));
    assert_eq!(action, PollAction::SleepPoll);
    assert_eq!(looper.last_seen, Some(record_a()));
}

#[test]
fn new_record_sends_exactly_one_notification() {
    let mut looper = Controller::new();
    let mut notified: Vec<String> = Vec::new();

    // Poll 1: bootstrap; poll 2: same record; poll 3: a new record.
    for fetched in [record_a(), record_a(), record_b()] {
        let mut action = looper.step(PollEvent::FetchSucceeded(fetched));
        while let PollAction::Notify(message) = action {
            notified.push(message);
            action = looper.step(PollEvent::NotifySucceeded);
        }
        assert_eq!(action, PollAction::SleepPoll);
        assert_eq!(looper.step(PollEvent::Slept), PollAction::Fetch);
    }

    assert_eq!(notified, vec![format_notification(&record_b())]);
    assert_eq!(looper.last_seen, Some(record_b()));
}

#[test]
fn fetch_failures_retry_without_notifying() {
    let mut looper = Controller::new();
    assert_eq!(looper.step(PollEvent::FetchSucceeded(record_a())), PollAction::SleepPoll);
    assert_eq!(looper.step(PollEvent::Slept), PollAction::Fetch);

    // Three consecutive failures: an immediate retry each, no message.
    for error in [FetchError::Transport, FetchError::HttpStatus(502), FetchError::Authentication] {
        assert_eq!(looper.step(PollEvent::FetchFailed(error)), PollAction::Fetch);
        assert_eq!(looper.last_seen, Some(record_a()));
    }

    // Then a success with a new record: the standard Changed handling.
    let action = looper.step(PollEvent::FetchSucceeded(record_b()));
    assert_eq!(action, PollAction::Notify(format_notification(&record_b())));
    assert_eq!(looper.step(PollEvent::NotifySucceeded), PollAction::SleepPoll);
    assert_eq!(looper.last_seen, Some(record_b()));
}

#[test]
fn delivery_failures_retry_until_one_success() {
    let mut looper = Controller::new();
    assert_eq!(looper.step(PollEvent::FetchSucceeded(record_a())), PollAction::SleepPoll);
    assert_eq!(looper.step(PollEvent::Slept), PollAction::Fetch);

    let message = format_notification(&record_b());
    let mut deliveries = 0;
    let mut action = looper.step(PollEvent::FetchSucceeded(record_b()));
    let mut failures_left = 2;
    loop {
        match action {
            PollAction::Notify(text) => {
                assert_eq!(text, message);
                if failures_left > 0 {
                    failures_left -= 1;
                    // The record is not marked seen while delivery fails.
                    assert_eq!(looper.last_seen, Some(record_a()));
                    action = looper.step(PollEvent::NotifyFailed);
                } else {
                    deliveries += 1;
                    action = looper.step(PollEvent::NotifySucceeded);
                }
            }
            PollAction::SleepRetry => {
                action = looper.step(PollEvent::Slept);
            }
            PollAction::SleepPoll => break,
            PollAction::Fetch => panic!("fetch before the notification was delivered"),
        }
    }

    assert_eq!(deliveries, 1);
    assert_eq!(looper.last_seen, Some(record_b()));
}
