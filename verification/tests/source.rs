use hint_control::snapshot::Row;
use hint_control::source::{DataSource, DataSourceKind};
use hint_control::time::{Duration, Instant};

const NOW: Instant = Instant { nanos: 1_000_000_000_000 };

fn before(now: Instant, span: Duration) -> Instant {
    Instant { nanos: now.nanos - span.nanos }
}

#[test]
fn datasource_updates_generation_and_poll_interval() {
    let mut source = DataSource::new(DataSourceKind::Clients, NOW);
    source.set_poll_interval(Some(Duration::from_secs(30)), NOW);
    let first = source.update(
        vec![Row { label: "A".to_string(), value: "B".to_string() }],
        NOW,
    );
    assert_eq!(first.generation, 1);
    let second = source.update(Vec::<Row>::new(), NOW);
    assert_eq!(second.generation, 2);
    assert_eq!(source.poll_interval, Some(Duration::from_secs(30)));
}

#[test]
fn datasource_can_disable_polling() {
    let mut source = DataSource::<Vec<Row>>::new(DataSourceKind::Sim, NOW);
    source.set_poll_interval(None, NOW);
    assert_eq!(source.poll_interval, None);
}

#[test]
fn datasource_advances_from_scheduled_deadline_without_drift() {
    let mut source = DataSource::<Vec<Row>>::new(DataSourceKind::Signal, NOW);
    let interval = Duration::from_secs(5);
    let deadline = before(NOW, Duration::from_millis(80));
    source.poll_interval = Some(interval);
    source.next_poll = deadline;

    source.update(Vec::new(), NOW);

    assert!(source.next_poll.nanos >= deadline.plus(interval).nanos);
    assert!(source.next_poll.nanos < NOW.plus(interval).nanos);
}

#[test]
fn datasource_keeps_future_deadline_after_early_update() {
    let mut source = DataSource::<Vec<Row>>::new(DataSourceKind::Wifi, NOW);
    let deadline = NOW.plus(Duration::from_secs(60));
    source.poll_interval = Some(Duration::from_secs(60));
    source.next_poll = deadline;

    source.update(Vec::new(), NOW);

    assert_eq!(source.next_poll, deadline);
}

#[test]
fn datasource_records_failed_poll_attempt_without_waiting_for_update() {
    let mut source = DataSource::<Vec<Row>>::new(DataSourceKind::Signal, NOW);
    let interval = Duration::from_secs(5);
    let deadline = before(NOW, Duration::from_millis(50));
    source.poll_interval = Some(interval);
    source.next_poll = deadline;

    source.record_poll_attempt(NOW);

    assert!(source.next_poll.nanos >= deadline.plus(interval).nanos);
    assert!(source.next_poll.nanos > NOW.nanos);
}

#[test]
fn datasource_keeps_deadline_when_poll_interval_is_unchanged() {
    let mut source = DataSource::<Vec<Row>>::new(DataSourceKind::Signal, NOW);
    source.set_poll_interval(Some(Duration::from_secs(5)), NOW);
    let deadline = source.next_poll;

    source.set_poll_interval(Some(Duration::from_secs(5)), NOW.plus(Duration::from_secs(2)));

    assert_eq!(source.next_poll, deadline);
}

#[test]
fn datasource_can_explicitly_reset_deadline_after_login() {
    let mut source = DataSource::<Vec<Row>>::new(DataSourceKind::Signal, NOW);
    source.poll_interval = Some(Duration::from_secs(5));
    source.next_poll = before(NOW, Duration::from_secs(60));

    source.reset_poll_deadline(NOW);

    assert!(source.next_poll.nanos > NOW.nanos);
    assert!(source.next_poll.nanos <= NOW.plus(Duration::from_secs(5)).nanos);
}

#[test]
fn missed_polls_are_skipped_in_whole_intervals() {
    let mut source = DataSource::<Vec<Row>>::new(DataSourceKind::Signal, NOW);
    source.poll_interval = Some(Duration::from_secs(5));
    source.next_poll = before(NOW, Duration::from_secs(17));

    source.record_poll_attempt(NOW);

    assert_eq!(source.next_poll, NOW.plus(Duration::from_secs(3)));
}

#[test]
fn a_deadline_that_has_just_come_moves_one_interval() {
    let mut source = DataSource::<Vec<Row>>::new(DataSourceKind::Signal, NOW);
    source.poll_interval = Some(Duration::from_secs(5));
    source.next_poll = NOW;

    source.record_poll_attempt(NOW);

    assert_eq!(source.next_poll, NOW.plus(Duration::from_secs(5)));
}

#[test]
fn an_extra_poll_does_not_shift_the_schedule() {
    let mut source = DataSource::<Vec<Row>>::new(DataSourceKind::Signal, NOW);
    source.set_poll_interval(Some(Duration::from_secs(5)), NOW);
    source.record_poll_attempt(NOW.plus(Duration::from_secs(1)));
    assert_eq!(source.next_poll, NOW.plus(Duration::from_secs(5)));
    source.record_poll_attempt(NOW.plus(Duration::from_secs(6)));
    assert_eq!(source.next_poll, NOW.plus(Duration::from_secs(10)));
}

#[test]
fn a_source_without_polling_keeps_its_deadline() {
    let mut source = DataSource::<Vec<Row>>::new(DataSourceKind::Sim, NOW);
    let update = source.update(Vec::new(), NOW.plus(Duration::from_secs(9)));
    assert_eq!(update.generation, 1);
    assert_eq!(source.next_poll, NOW);
    source.reset_poll_deadline(NOW.plus(Duration::from_secs(9)));
    assert_eq!(source.next_poll, NOW);
}

#[test]
fn switching_polling_off_puts_the_deadline_far_away() {
    let mut source = DataSource::<Vec<Row>>::new(DataSourceKind::Signal, NOW);
    source.set_poll_interval(Some(Duration::from_secs(5)), NOW);
    source.set_poll_interval(None, NOW);
    assert_eq!(source.next_poll, NOW.plus(Duration::from_secs(u64::MAX / 4)));
}

#[test]
fn an_update_keeps_a_copy_of_the_value() {
    let mut source = DataSource::new(DataSourceKind::Sim, NOW);
    let update = source.update(
        vec![Row { label: "IMEI".to_string(), value: "1".to_string() }],
        NOW,
    );
    let kept = source.cached.unwrap();
    assert_eq!(kept.len(), 1);
    assert_eq!(kept[0].label, update.value[0].label);
    assert_eq!(kept[0].value, "1");
    assert_eq!(update.kind, DataSourceKind::Sim);
}
