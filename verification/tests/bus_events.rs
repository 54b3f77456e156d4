use padlink::bus::BusPoll;
use padlink::bus::EventBus;
use padlink::bus::publish_clear;
use padlink::bus::publish_light_update;
use padlink::events::ControllerEvent;
use padlink::lights::plan_light_updates;
use padlink::translate::RawButton;

#[test]
fn subscriber_sees_clear_then_light_update_in_order() {
    let bus = EventBus::new(10);
    let mut rx = bus.subscribe();

    publish_clear(&bus).unwrap();
    publish_light_update(&bus, &vec![(3, 2, 4)]).unwrap();

    assert_eq!(rx.poll(), BusPoll::Event(ControllerEvent::ClearBoard));
    assert_eq!(
        rx.poll(),
        BusPoll::Event(ControllerEvent::LightUpdate {
            updates: vec![(3, 2, 4)],
        })
    );
    assert_eq!(rx.poll(), BusPoll::Empty);
}

#[test]
fn subscription_observes_only_later_events() {
    // A receive-end sees every event published after it was created and
    // none published before: a clear that precedes the subscription is not
    // replayed to it.
    let bus = EventBus::new(10);
    publish_clear(&bus).unwrap();
    let mut rx = bus.subscribe();
    publish_light_update(&bus, &vec![(3, 2, 4)]).unwrap();

    assert_eq!(
        rx.poll(),
        BusPoll::Event(ControllerEvent::LightUpdate {
            updates: vec![(3, 2, 4)],
        })
    );
    assert_eq!(rx.poll(), BusPoll::Empty);
}

#[test]
fn multi_update_issues_exactly_one_event_with_device_ops_in_order() {
    let updates = vec![(0, 0, 1), (1, 1, 0)];

    let bus = EventBus::new(10);
    let mut rx = bus.subscribe();
    publish_light_update(&bus, &updates).unwrap();
    assert_eq!(
        rx.poll(),
        BusPoll::Event(ControllerEvent::LightUpdate {
            updates: vec![(0, 0, 1), (1, 1, 0)],
        })
    );
    assert_eq!(rx.poll(), BusPoll::Empty);

    // The device is driven in list order: first the control button at
    // column 0 with the white palette entry, then grid (1, 0) turned off.
    let ops = plan_light_updates(&updates);
    assert_eq!(
        ops,
        vec![
            (RawButton::Control { index: 0 }, 3),
            (RawButton::Grid { x: 1, y: 0 }, 0),
        ]
    );
}

#[test]
fn press_and_release_arrive_in_publication_order() {
    let bus = EventBus::new(10);
    let mut rx = bus.subscribe();
    bus.publish(ControllerEvent::Press { x: 2, y: 1 }).unwrap();
    bus.publish(ControllerEvent::Release { x: 2, y: 1 }).unwrap();

    assert_eq!(rx.poll(), BusPoll::Event(ControllerEvent::Press { x: 2, y: 1 }));
    assert_eq!(
        rx.poll(),
        BusPoll::Event(ControllerEvent::Release { x: 2, y: 1 })
    );
    assert_eq!(rx.poll(), BusPoll::Empty);
}

#[test]
fn slow_subscriber_lags_instead_of_blocking_the_publisher() {
    // Channel bound of 4; the subscriber pauses while 7 events are
    // published. Publishing never blocks (each call returns), the paused
    // subscriber is handed a lag signal counting the 3 dropped events, and
    // then only the most recent window of 4.
    let bus = EventBus::new(4);
    let mut rx = bus.subscribe();
    for x in 0u8..7 {
        bus.publish(ControllerEvent::Press { x, y: 1 }).unwrap();
    }

    assert_eq!(rx.poll(), BusPoll::Lagged(3));
    for x in 3u8..7 {
        assert_eq!(rx.poll(), BusPoll::Event(ControllerEvent::Press { x, y: 1 }));
    }
    assert_eq!(rx.poll(), BusPoll::Empty);
}

#[test]
fn empty_update_batch_still_issues_one_event_and_no_device_op() {
    let updates: Vec<(u8, u8, u8)> = Vec::new();
    assert_eq!(plan_light_updates(&updates), Vec::new());

    let bus = EventBus::new(10);
    let mut rx = bus.subscribe();
    publish_light_update(&bus, &updates).unwrap();
    assert_eq!(
        rx.poll(),
        BusPoll::Event(ControllerEvent::LightUpdate {
            updates: Vec::new(),
        })
    );
    assert_eq!(rx.poll(), BusPoll::Empty);
}

#[test]
fn publishing_with_only_the_bus_keeper_succeeds() {
    // The bus itself keeps one receiving half, so a publish with no outside
    // subscriber still reaches one receiver and is not an error.
    let bus = EventBus::new(10);
    assert_eq!(publish_clear(&bus), Ok(1));
}
