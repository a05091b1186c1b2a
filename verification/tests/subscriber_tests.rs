use bee_metrics::channel::{deliver, Dropped, Refusal, Severity};
use bee_metrics::event::Event;
use bee_metrics::model::Record;
use bee_metrics::subscriber::{BeeLayer, QUEUE_CAPACITY, TICK_INTERVAL_SECS};
use bee_metrics::time::{Duration, Timestamp};

fn dropped_full() -> Dropped {
    Dropped { reason: Refusal::Full, level: Severity::Warning }
}

fn dropped_closed() -> Dropped {
    Dropped { reason: Refusal::Closed, level: Severity::Error }
}

#[test]
fn defaults_are_a_hundred_slots_and_one_second() {
    assert_eq!(QUEUE_CAPACITY, 100);
    assert_eq!(TICK_INTERVAL_SECS, 1);
    let mut layer = BeeLayer::new();
    assert_eq!(layer.capacity(), 100);
    let collector = layer.take_collector().unwrap();
    assert_eq!(collector.tick_interval(), Duration::from_secs(1));
    assert_eq!(collector.task_count(), 0);
}

#[test]
fn collector_can_be_taken_once() {
    let mut layer = BeeLayer::new();
    assert!(layer.take_collector().is_some());
    assert!(layer.take_collector().is_none());
    assert_eq!(layer.capacity(), 100);
}

#[test]
fn sent_events_reach_the_collector() {
    let mut layer = BeeLayer::new();
    let mut collector = layer.take_collector().unwrap();
    let spawn = Event::Spawn { id: 1, time: Timestamp::from_secs(0), fields: "k=v".to_string() };
    assert_eq!(layer.send(spawn), Ok(()));
    assert_eq!(layer.send(Event::Enter { id: 1, time: Timestamp::from_secs(1) }), Ok(()));
    assert_eq!(layer.send(Event::Exit { id: 1, time: Timestamp::from_secs(3) }), Ok(()));
    let tick = collector.tick();
    assert_eq!(tick.drained.received, 3);
    assert_eq!(tick.records, vec![Record { task_id: 1, active: true, total_time: None }]);
    assert_eq!(collector.fields(1), Some("k=v".to_string()));
    assert_eq!(collector.stats(1).unwrap().busy_time, Duration::from_secs(2));
}

#[test]
fn full_queue_drops_the_new_event() {
    let mut layer = BeeLayer::new();
    let mut collector = layer.take_collector().unwrap();
    assert_eq!(layer.new_span(1, String::new()), Ok(()));
    for _ in 1..100 {
        assert_eq!(layer.on_enter(1), Ok(()));
    }
    assert_eq!(layer.on_enter(1), Err(dropped_full()));
    assert_eq!(layer.on_close(1), Err(dropped_full()));
    let tick = collector.tick();
    assert_eq!(tick.drained.received, 100);
    let stats = collector.stats(1).unwrap();
    assert_eq!(stats.poll_depth, 99);
    assert_eq!(stats.poll_count, 1);
    assert!(stats.active);
    assert_eq!(layer.on_close(1), Ok(()));
}

#[test]
fn closed_queue_drops_every_event() {
    let mut layer = BeeLayer::new();
    let collector = layer.take_collector().unwrap();
    drop(collector);
    assert_eq!(layer.new_span(1, String::new()), Err(dropped_closed()));
    assert_eq!(layer.on_enter(1), Err(dropped_closed()));
    assert_eq!(layer.on_exit(1), Err(dropped_closed()));
    assert_eq!(layer.on_close(1), Err(dropped_closed()));
}

#[test]
fn dropping_the_layer_closes_the_queue() {
    let mut layer = BeeLayer::new();
    let mut collector = layer.take_collector().unwrap();
    assert_eq!(layer.new_span(5, "x".to_string()), Ok(()));
    drop(layer);
    let tick = collector.tick();
    assert_eq!(tick.drained.received, 1);
    assert!(tick.finished());
    assert_eq!(collector.task_count(), 1);
}

#[test]
fn the_four_calls_report_the_four_kinds() {
    let mut layer = BeeLayer::new();
    let mut collector = layer.take_collector().unwrap();
    assert_eq!(layer.new_span(7, "task=seven".to_string()), Ok(()));
    assert_eq!(layer.on_enter(7), Ok(()));
    let tick = collector.tick();
    assert_eq!(tick.drained.received, 2);
    assert!(tick.drained.anomalies.is_empty());
    let running = collector.stats(7).unwrap();
    assert!(running.active);
    assert!(running.created_at.is_some());
    assert_eq!(running.poll_depth, 1);
    assert_eq!(running.poll_count, 1);
    assert_eq!(running.first_poll_at, running.last_poll_started_at);
    assert_eq!(collector.fields(7), Some("task=seven".to_string()));

    assert_eq!(layer.on_exit(7), Ok(()));
    assert_eq!(layer.on_close(7), Ok(()));
    collector.tick();
    let closed = collector.stats(7).unwrap();
    assert!(!closed.active);
    assert_eq!(closed.poll_depth, 0);
    assert!(closed.closed_at.is_some());
    assert!(closed.total_time().is_some());
}

#[test]
fn stamped_events_carry_their_task_and_kind() {
    let spawn = Event::spawn(3, "a=b".to_string());
    assert!(matches!(&spawn, Event::Spawn { id: 3, fields, .. } if fields == "a=b"));
    assert_eq!(spawn.task_id(), 3);
    assert!(matches!(Event::enter(4), Event::Enter { id: 4, .. }));
    assert!(matches!(Event::exit(5), Event::Exit { id: 5, .. }));
    assert!(matches!(Event::close(6), Event::Close { id: 6, .. }));
    let enter = Event::Enter { id: 4, time: Timestamp::from_secs(9) };
    assert_eq!(enter.time(), Timestamp::from_secs(9));
    assert_eq!(enter.task_id(), 4);
}

#[test]
fn stamps_come_from_the_system_clock() {
    let stamped = Event::enter(1).time();
    let year_2020 = Timestamp::from_secs(1_577_836_800);
    assert!(year_2020.is_at_or_before(&stamped));
}

#[test]
fn full_is_a_warning_and_closed_an_error() {
    assert_eq!(Refusal::Full.severity(), Severity::Warning);
    assert_eq!(Refusal::Closed.severity(), Severity::Error);
}

#[test]
fn a_granted_slot_takes_the_event() {
    let (tx, mut rx) = tokio::sync::mpsc::channel::<Event>(1);
    let event = Event::Enter { id: 8, time: Timestamp::from_secs(2) };
    assert_eq!(deliver(Ok(tx.try_reserve().unwrap()), event), Ok(()));
    assert_eq!(rx.try_recv().unwrap(), Event::Enter { id: 8, time: Timestamp::from_secs(2) });
    assert!(rx.try_recv().is_err());
}

#[test]
fn a_refused_slot_drops_the_event_with_the_reason() {
    let event = Event::Enter { id: 8, time: Timestamp::from_secs(2) };
    assert_eq!(deliver(Err(Refusal::Full), event), Err(dropped_full()));
    let event = Event::Exit { id: 8, time: Timestamp::from_secs(3) };
    assert_eq!(deliver(Err(Refusal::Closed), event), Err(dropped_closed()));
}

#[test]
fn hook_and_collector_share_the_queue_they_are_given() {
    let (tx, rx) = tokio::sync::mpsc::channel::<Event>(2);
    let mut layer = BeeLayer::with_queue(tx, rx, Duration::from_secs(7));
    assert_eq!(layer.capacity(), 2);
    let mut collector = layer.take_collector().unwrap();
    assert_eq!(collector.tick_interval(), Duration::from_secs(7));
    assert_eq!(collector.task_count(), 0);
    assert_eq!(layer.new_span(1, "a".to_string()), Ok(()));
    assert_eq!(layer.on_enter(1), Ok(()));
    assert_eq!(layer.on_exit(1), Err(dropped_full()));
    let tick = collector.tick();
    assert_eq!(tick.drained.received, 2);
    assert_eq!(collector.fields(1), Some("a".to_string()));
    assert_eq!(collector.stats(1).unwrap().poll_depth, 1);
    assert_eq!(layer.on_exit(1), Ok(()));
}

#[test]
fn new_hook_and_its_collector_share_one_queue() {
    let mut layer = BeeLayer::new();
    let mut collector = layer.take_collector().unwrap();
    assert_eq!(collector.tick().drained.received, 0);
    assert_eq!(layer.new_span(11, "x".to_string()), Ok(()));
    let tick = collector.tick();
    assert_eq!(tick.drained.received, 1);
    assert_eq!(tick.records, vec![Record { task_id: 11, active: true, total_time: None }]);
}

#[test]
fn a_drop_carries_the_level_of_its_reason() {
    assert_eq!(
        Dropped::for_reason(Refusal::Full),
        Dropped { reason: Refusal::Full, level: Severity::Warning }
    );
    assert_eq!(
        Dropped::for_reason(Refusal::Closed),
        Dropped { reason: Refusal::Closed, level: Severity::Error }
    );
    let (tx, rx) = tokio::sync::mpsc::channel::<Event>(1);
    let layer = BeeLayer::with_queue(tx, rx, Duration::from_secs(1));
    assert_eq!(layer.on_enter(1), Ok(()));
    let full = layer.on_enter(1).unwrap_err();
    assert_eq!(full.reason, Refusal::Full);
    assert_eq!(full.level, Severity::Warning);
    assert_eq!(full.level, full.reason.severity());
}
