use git_miner::clock::{get_time_since_epoch, millis_of};
use git_miner::config::{thread_count, ConfigError};
use git_miner::coordinator::{move_reason, Action, Coordinator, Event, FoundCommit};

fn found(attempts: u64, tag: u8) -> Event {
    Event::Found(FoundCommit { attempts, id: vec![tag; 20], body: vec![tag, tag] })
}

#[test]
fn progress_accumulates_and_reports_at_most_every_interval() {
    let mut c = Coordinator::new(false, 1000);
    assert_eq!(c.on_event(Event::Progress(10000), 1050), Action::Wait);
    assert_eq!(c.attempts(), 10000);
    assert_eq!(c.on_event(Event::Progress(10000), 1100), Action::Wait);
    assert_eq!(c.on_event(Event::Progress(10000), 1101), Action::Report { attempts: 30000 });
    assert_eq!(c.on_event(Event::Progress(5), 1150), Action::Wait);
    assert_eq!(c.on_event(Event::Progress(5), 1202), Action::Report { attempts: 30010 });
    assert_eq!(c.on_event(Event::Progress(1), 900), Action::Wait);
}

#[test]
fn first_found_installs_without_moving_head() {
    let mut c = Coordinator::new(false, 0);
    c.on_event(Event::Progress(10000), 1);
    assert_eq!(
        c.on_event(found(7, 3), 2),
        Action::Install { attempts: 10007, id: vec![3; 20], body: vec![3, 3], move_head: false }
    );
    assert!(c.is_finished());
}

#[test]
fn amend_moves_head() {
    let mut c = Coordinator::new(true, 0);
    assert_eq!(
        c.on_event(found(1, 9), 5),
        Action::Install { attempts: 1, id: vec![9; 20], body: vec![9, 9], move_head: true }
    );
}

#[test]
fn events_after_the_first_found_are_ignored() {
    let mut c = Coordinator::new(true, 0);
    assert!(matches!(c.on_event(found(4, 1), 1), Action::Install { .. }));
    assert_eq!(c.on_event(found(4, 2), 500), Action::Wait);
    assert_eq!(c.on_event(Event::Progress(10000), 1000), Action::Wait);
    assert_eq!(c.attempts(), 4);
}

#[test]
fn attempt_count_saturates() {
    let mut c = Coordinator::new(false, 0);
    c.on_event(Event::Progress(u64::MAX - 1), 0);
    assert_eq!(c.on_event(Event::Progress(5), 1000), Action::Report { attempts: u64::MAX });
}

#[test]
fn thread_count_must_be_positive() {
    assert_eq!(thread_count(1), Ok(1));
    assert_eq!(thread_count(8), Ok(8));
    assert_eq!(thread_count(0), Err(ConfigError::InvalidThreadCount));
    assert_eq!(thread_count(-3), Err(ConfigError::InvalidThreadCount));
}

#[test]
fn move_reason_names_previous_commit() {
    let previous: Vec<u8> = vec![0xde, 0xad, 0xbe, 0xef];
    assert_eq!(String::from_utf8(move_reason(&previous)).unwrap(), "git-miner moved from deadbeef");
}

#[test]
fn clock_reads_after_the_epoch() {
    let a = get_time_since_epoch();
    let b = get_time_since_epoch();
    assert!(a > 1_500_000_000_000);
    assert!(b >= a);
}

#[test]
fn millis_combine_seconds_and_nanoseconds() {
    assert_eq!(millis_of(0, 0), 0);
    assert_eq!(millis_of(1, 999_999_999), 1999);
    assert_eq!(millis_of(1_700_000_000, 1_500_000), 1_700_000_000_001);
    assert_eq!(millis_of(u64::MAX, 999_999_999), u64::MAX as u128 * 1000 + 999);
}
