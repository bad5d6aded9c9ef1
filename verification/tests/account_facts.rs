use overview_status::account::{
    aggregate_status, aggregate_status_now, auto_battle_icon, countdown_icon, status_countdown,
    status_label, AccountStatus, Arena, AutoBattleIcon, CountdownIcon, GameState, ScrapbookInfo,
    StatusRead,
};
use overview_status::instant::Timestamp;

fn at(secs: i64, nanos: u32) -> Timestamp {
    Timestamp { secs, nanos }
}

fn game_state(next_free_fight: Option<Timestamp>) -> GameState {
    GameState { arena: Arena { next_free_fight } }
}

fn snapshot(status: AccountStatus) -> StatusRead {
    StatusRead::Snapshot(status)
}

#[test]
fn label_of_each_status() {
    let gs = game_state(None);
    assert_eq!(status_label(&snapshot(AccountStatus::LoggingIn)), "Logging in");
    assert_eq!(status_label(&snapshot(AccountStatus::LoggingInAgain)), "Logging in");
    assert_eq!(status_label(&snapshot(AccountStatus::Idle(gs))), "Active");
    assert_eq!(
        status_label(&snapshot(AccountStatus::Busy(gs, "Fighting".to_string()))),
        "Fighting"
    );
    assert_eq!(
        status_label(&snapshot(AccountStatus::FatalError("banned".to_string()))),
        "Error!"
    );
}

#[test]
fn busy_label_is_the_reason_verbatim() {
    let gs = game_state(None);
    for reason in ["", " padded ", "Error!", "crawling: page 3/7", "kämpft"] {
        let read = snapshot(AccountStatus::Busy(gs, reason.to_string()));
        assert_eq!(status_label(&read), reason);
    }
}

#[test]
fn fatal_error_label_ignores_the_detail() {
    for detail in ["", "timeout", "Active"] {
        let read = snapshot(AccountStatus::FatalError(detail.to_string()));
        assert_eq!(status_label(&read), "Error!");
    }
}

#[test]
fn countdown_five_seconds_ahead() {
    let now = at(1_700_000_000, 250_000_000);
    let fight = at(1_700_000_005, 250_000_000);
    assert_eq!(countdown_icon(&Some(fight), &now), CountdownIcon::CountdownSeconds(5));
}

#[test]
fn countdown_at_this_very_instant_is_ready() {
    let now = at(1_700_000_000, 250_000_000);
    assert_eq!(countdown_icon(&Some(now), &now), CountdownIcon::Ready);
}

#[test]
fn countdown_in_the_past_is_ready() {
    let now = at(1_700_000_000, 250_000_000);
    assert_eq!(countdown_icon(&Some(at(1_700_000_000, 249_999_999)), &now), CountdownIcon::Ready);
    assert_eq!(countdown_icon(&Some(at(1_600_000_000, 0)), &now), CountdownIcon::Ready);
    assert_eq!(countdown_icon(&Some(at(-5, 0)), &now), CountdownIcon::Ready);
}

#[test]
fn countdown_without_a_tracked_time_is_unknown() {
    let now = at(1_700_000_000, 0);
    assert_eq!(countdown_icon(&None, &now), CountdownIcon::Unknown);
}

#[test]
fn countdown_drops_the_fraction_of_a_second() {
    let now = at(100, 500_000_000);
    assert_eq!(countdown_icon(&Some(at(106, 499_999_999)), &now), CountdownIcon::CountdownSeconds(5));
    assert_eq!(countdown_icon(&Some(at(106, 500_000_000)), &now), CountdownIcon::CountdownSeconds(6));
    assert_eq!(countdown_icon(&Some(at(110, 0)), &now), CountdownIcon::CountdownSeconds(9));
}

#[test]
fn countdown_of_less_than_a_second_is_zero() {
    let now = at(100, 0);
    assert_eq!(countdown_icon(&Some(at(100, 1)), &now), CountdownIcon::CountdownSeconds(0));
    assert_eq!(countdown_icon(&Some(at(100, 999_999_999)), &now), CountdownIcon::CountdownSeconds(0));
    assert_eq!(countdown_icon(&Some(at(101, 0)), &now), CountdownIcon::CountdownSeconds(1));
}

#[test]
fn countdown_before_the_epoch() {
    let now = at(-10, 0);
    assert_eq!(countdown_icon(&Some(at(-3, 0)), &now), CountdownIcon::CountdownSeconds(7));
    assert_eq!(countdown_icon(&Some(at(2, 500_000_000)), &now), CountdownIcon::CountdownSeconds(12));
}

#[test]
fn countdown_stops_at_the_largest_count() {
    let now = at(i64::MIN, 0);
    let fight = at(i64::MAX, 0);
    assert_eq!(countdown_icon(&Some(fight), &now), CountdownIcon::CountdownSeconds(i64::MAX));
}

#[test]
fn countdown_only_for_logged_in_accounts() {
    let now = at(1_000, 0);
    let gs = game_state(Some(at(1_030, 0)));
    assert_eq!(status_countdown(&snapshot(AccountStatus::LoggingIn), &now), CountdownIcon::Unknown);
    assert_eq!(
        status_countdown(&snapshot(AccountStatus::LoggingInAgain), &now),
        CountdownIcon::Unknown
    );
    assert_eq!(
        status_countdown(&snapshot(AccountStatus::FatalError("x".to_string())), &now),
        CountdownIcon::Unknown
    );
    assert_eq!(
        status_countdown(&snapshot(AccountStatus::Idle(gs)), &now),
        CountdownIcon::CountdownSeconds(30)
    );
    assert_eq!(
        status_countdown(&snapshot(AccountStatus::Busy(gs, "Fighting".to_string())), &now),
        CountdownIcon::CountdownSeconds(30)
    );
    assert_eq!(
        status_countdown(&snapshot(AccountStatus::Idle(game_state(None))), &now),
        CountdownIcon::Unknown
    );
}

#[test]
fn auto_battle_marker_follows_the_flag() {
    assert_eq!(auto_battle_icon(&None), AutoBattleIcon::Unknown);
    assert_eq!(auto_battle_icon(&Some(ScrapbookInfo { auto_battle: true })), AutoBattleIcon::Ready);
    assert_eq!(
        auto_battle_icon(&Some(ScrapbookInfo { auto_battle: false })),
        AutoBattleIcon::Negative
    );
}

#[test]
fn facts_of_an_idle_account() {
    let now = at(50, 0);
    let read = snapshot(AccountStatus::Idle(game_state(Some(at(65, 0)))));
    let facts = aggregate_status(&read, &Some(ScrapbookInfo { auto_battle: true }), &now);
    assert_eq!(facts.label, "Active");
    assert_eq!(facts.countdown, CountdownIcon::CountdownSeconds(15));
    assert_eq!(facts.auto_battle, AutoBattleIcon::Ready);
}

#[test]
fn facts_of_a_poisoned_lock() {
    let now = at(50, 0);
    let facts = aggregate_status(&StatusRead::Poisoned, &None, &now);
    assert_eq!(facts.label, "Error!");
    assert_eq!(facts.countdown, CountdownIcon::Unknown);
    assert_eq!(facts.auto_battle, AutoBattleIcon::Unknown);
    let with_info =
        aggregate_status(&StatusRead::Poisoned, &Some(ScrapbookInfo { auto_battle: false }), &now);
    assert_eq!(with_info.label, "Error!");
    assert_eq!(with_info.countdown, CountdownIcon::Unknown);
    assert_eq!(with_info.auto_battle, AutoBattleIcon::Negative);
}

#[test]
fn poisoned_lock_reads_like_a_fatal_error() {
    let now = at(50, 0);
    let fatal = snapshot(AccountStatus::FatalError("worker died".to_string()));
    assert_eq!(
        aggregate_status(&StatusRead::Poisoned, &None, &now),
        aggregate_status(&fatal, &None, &now)
    );
}

#[test]
fn aggregating_twice_gives_the_same_facts() {
    let now = at(1_700_000_000, 123);
    let reads = [
        snapshot(AccountStatus::LoggingIn),
        snapshot(AccountStatus::LoggingInAgain),
        snapshot(AccountStatus::Idle(game_state(Some(at(1_700_000_100, 0))))),
        snapshot(AccountStatus::Busy(game_state(None), "Crawling".to_string())),
        snapshot(AccountStatus::FatalError("x".to_string())),
        StatusRead::Poisoned,
    ];
    for read in &reads {
        for scrapbook in [None, Some(ScrapbookInfo { auto_battle: true })] {
            let first = aggregate_status(read, &scrapbook, &now);
            let second = aggregate_status(read, &scrapbook, &now);
            assert_eq!(first, second);
        }
    }
}

#[test]
fn facts_at_the_current_time() {
    let long_ago = snapshot(AccountStatus::Idle(game_state(Some(at(0, 0)))));
    let facts = aggregate_status_now(&long_ago, &None);
    assert_eq!(facts.label, "Active");
    assert_eq!(facts.countdown, CountdownIcon::Ready);

    let an_hour = chrono::Utc::now().timestamp() + 3_600;
    let soon = snapshot(AccountStatus::Busy(game_state(Some(at(an_hour, 0))), "Fighting".to_string()));
    let facts = aggregate_status_now(&soon, &Some(ScrapbookInfo { auto_battle: false }));
    assert_eq!(facts.label, "Fighting");
    assert_eq!(facts.auto_battle, AutoBattleIcon::Negative);
    match facts.countdown {
        CountdownIcon::CountdownSeconds(secs) => assert!(3_590 <= secs && secs <= 3_600),
        other => panic!("expected a countdown, got {:?}", other),
    }
}

#[test]
fn countdown_five_seconds_from_the_clock() {
    let clock = chrono::Utc::now() + chrono::TimeDelta::milliseconds(5_500);
    let fight = at(clock.timestamp(), clock.timestamp_subsec_nanos());
    let read = snapshot(AccountStatus::Idle(game_state(Some(fight))));
    match aggregate_status_now(&read, &None).countdown {
        CountdownIcon::CountdownSeconds(secs) => assert!(4 <= secs && secs <= 6),
        other => panic!("expected a countdown, got {:?}", other),
    }
}

#[test]
fn countdown_is_ready_once_the_clock_has_reached_it() {
    let clock = chrono::Utc::now();
    let fight = at(clock.timestamp(), clock.timestamp_subsec_nanos());
    let read = snapshot(AccountStatus::Idle(game_state(Some(fight))));
    assert_eq!(aggregate_status_now(&read, &None).countdown, CountdownIcon::Ready);
}
