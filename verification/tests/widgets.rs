//! The widget model, the device state store, the bounded payload
//! container, and the identifier counters.

use memori::bytes::{ByteArray, Widget, BYTE_ARRAY_CAPACITY};
use memori::clock::Clock as WallClock;
use memori::errors::{TcpTransportError, TransError};
use memori::ids::{MessageCounter, SeqCounter};
use memori::layout::MemoriLayout;
use memori::state::MemoriState;
use memori::websocket::lol;
use memori::widgets::{
    Bus, Clock, Github, MemoriWidget, Name, UpdateFrequency, Weather, WeatherIcon, WidgetId,
    WidgetKind,
};

#[test]
fn widget_clock_rolls_over_at_thirteen() {
    let mut clock = Clock::new(12, 59, 59);
    clock.update();
    assert_eq!(clock, Clock::new(1, 0, 0));

    let mut clock = Clock::new(3, 4, 5);
    clock.update();
    assert_eq!(clock, Clock::new(3, 4, 6));

    assert_eq!(Clock::default(), Clock::new(0, 0, 0));
}

#[test]
fn wall_clock_wraps_at_midnight() {
    let mut clock = WallClock::new();
    assert_eq!((clock.hours, clock.minutes, clock.seconds), (0, 0, 0));
    clock.tick();
    assert_eq!((clock.hours, clock.minutes, clock.seconds), (0, 0, 1));
    let mut late = WallClock { seconds: 59, minutes: 59, hours: 23 };
    late.tick();
    assert_eq!((late.hours, late.minutes, late.seconds), (0, 0, 0));
}

#[test]
fn to_seconds_concrete_values() {
    assert_eq!(UpdateFrequency::Seconds(7).to_seconds(), Some(7));
    assert_eq!(UpdateFrequency::Minutes(3).to_seconds(), Some(180));
    assert_eq!(UpdateFrequency::Hours(2).to_seconds(), Some(7200));
    assert_eq!(UpdateFrequency::Never.to_seconds(), None);
}

#[test]
fn weather_icons_have_their_ascii_art() {
    assert_eq!(WeatherIcon::Sun.to_ascii().len(), 5);
    assert_eq!(WeatherIcon::Cloudy.to_ascii().len(), 4);
    assert_eq!(WeatherIcon::Rainy.to_ascii().len(), 5);
    assert_eq!(WeatherIcon::Snowy.to_ascii().len(), 4);
    assert_eq!(WeatherIcon::Cloudy.to_ascii()[0], "     .--.     ");
    let w = Weather::new(-35, WeatherIcon::Snowy);
    assert_eq!(w.temp_deci, -35);
}

#[test]
fn github_starts_with_the_sample_week() {
    let g = Github::new(String::from("octo"), None);
    assert_eq!(g.commits, [0, 10, 0, 8, 5, 7, 0]);
    assert_eq!(g.weekday, 3);
    assert_eq!(g.open_issues, 0);
    assert_eq!(g.repo, None);
}

#[test]
fn widget_updates_touch_only_clocks() {
    let mut name = MemoriWidget::new(
        WidgetId(1),
        WidgetKind::Name(Name::new(String::from("Ada"))),
        UpdateFrequency::Never,
        UpdateFrequency::Seconds(1),
    );
    let before = name.clone();
    name.update();
    assert_eq!(name, before);
    assert_eq!(name.get_local_update_frequency(), UpdateFrequency::Seconds(1));
    assert_eq!(name.get_remote_update_frequency(), UpdateFrequency::Never);

    let mut clock = MemoriWidget::new(
        WidgetId(2),
        WidgetKind::Clock(Clock::new(1, 2, 3)),
        UpdateFrequency::Never,
        UpdateFrequency::Seconds(1),
    );
    clock.update();
    assert_eq!(clock.kind, WidgetKind::Clock(Clock::new(1, 2, 4)));
}

#[test]
fn bus_constructor_takes_prediction_first() {
    let bus = Bus::new(String::from("3 min"), String::from("61C"));
    assert_eq!(bus.prediction, "3 min");
    assert_eq!(bus.route, "61C");
}

#[test]
fn state_store_inserts_and_looks_up_by_id() {
    let w1 = MemoriWidget::new(
        WidgetId(1),
        WidgetKind::Name(Name::new(String::from("a"))),
        UpdateFrequency::Never,
        UpdateFrequency::Never,
    );
    let mut state = MemoriState::new(
        0,
        vec![w1],
        vec![MemoriLayout::Full(WidgetId(1)), MemoriLayout::HSplit {
            top: WidgetId(1),
            bottom: WidgetId(1),
        }],
        5,
    );
    assert_eq!(*state.active_frame(), MemoriLayout::Full(WidgetId(1)));
    assert!(state.get_widget(WidgetId(1)).is_some());
    assert!(state.get_widget(WidgetId(2)).is_none());

    let w2 = MemoriWidget::new(
        WidgetId(2),
        WidgetKind::Name(Name::new(String::from("b"))),
        UpdateFrequency::Never,
        UpdateFrequency::Never,
    );
    state.insert_widget(w2.clone());
    assert_eq!(state.widgets.len(), 2);
    assert_eq!(*state.get_widget(WidgetId(2)).expect("just inserted"), w2);

    // Inserting under an existing identifier replaces, never duplicates.
    let w2b = MemoriWidget::new(
        WidgetId(2),
        WidgetKind::Name(Name::new(String::from("c"))),
        UpdateFrequency::Never,
        UpdateFrequency::Never,
    );
    state.insert_widget(w2b.clone());
    assert_eq!(state.widgets.len(), 2);
    assert_eq!(*state.get_widget(WidgetId(2)).expect("still there"), w2b);
}

#[test]
fn default_state_shows_the_name_widget() {
    let state = MemoriState::default();
    assert_eq!(state.widgets.len(), 1);
    assert_eq!(state.widgets[0].id, WidgetId(0));
    assert_eq!(state.frames, vec![MemoriLayout::Full(WidgetId(0))]);
    assert_eq!(state.frame_time, 5);
}

#[test]
fn byte_array_caps_its_capacity() {
    let mut a = ByteArray::new();
    assert_eq!(a.len(), 0);
    let big = vec![7u8; BYTE_ARRAY_CAPACITY];
    a.extend_from_slice(&big).expect("exactly the capacity fits");
    assert_eq!(a.len(), BYTE_ARRAY_CAPACITY);
    assert_eq!(a.push(1), Err(TransError::InternalError));
    assert_eq!(a.len(), BYTE_ARRAY_CAPACITY);

    let mut b = ByteArray::new();
    assert_eq!(b.extend_from_slice(&vec![0u8; BYTE_ARRAY_CAPACITY + 1]),
        Err(TransError::InternalError));
    assert_eq!(b.len(), 0);
    b.push(9).expect("one byte fits");
    assert_eq!(b.as_slice(), &[9]);

    assert!(ByteArray::from_vec(vec![1; BYTE_ARRAY_CAPACITY]).is_ok());
    assert_eq!(
        ByteArray::from_vec(vec![1; BYTE_ARRAY_CAPACITY + 1]),
        Err(TransError::InternalError)
    );

    let payload = Widget::new(WidgetId(3), ByteArray::default());
    assert_eq!(payload.id, WidgetId(3));
    assert_eq!(payload.data.len(), 0);
}

#[test]
fn error_messages_name_their_kind() {
    assert_eq!(TransError::InvalidMessage.message(), "invalid message");
    assert_eq!(TransError::Timeout.message(), "timed out waiting for a response");
    assert_eq!(TransError::NotConnected.message(), "not connected");
    assert_eq!(TransError::ProtocolIssue.message(), "protocol issue");
    assert_eq!(TransError::WidgetNotFound.message(), "widget not found");
    assert_eq!(TransError::InternalError.message(), "internal error");
    assert_eq!(TcpTransportError::IOError, TcpTransportError::IOError);
}

#[test]
fn counters_step_and_wrap() {
    let mut ble = MessageCounter::new();
    assert_eq!(ble.get_next_id(), 0);
    assert_eq!(ble.get_next_id(), 1);

    let mut device = SeqCounter::new_device();
    assert_eq!(device.allocate(), 1);
    assert_eq!(device.allocate(), 3);
    let mut host = SeqCounter::new_host();
    assert_eq!(host.allocate(), 0);
    assert_eq!(host.allocate(), 2);
}

#[test]
fn websocket_constructors_exist() {
    lol();
}
