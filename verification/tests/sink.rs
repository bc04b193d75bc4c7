use winit::sink::{Event, EventSink, WindowId};

#[derive(Debug, PartialEq)]
enum WindowEvent {
    CloseRequested,
    Focused(bool),
}

#[derive(Debug, PartialEq)]
enum DeviceEvent {
    PointerMotion { delta: (f64, f64) },
}

#[test]
fn retiring_a_window_preserves_other_windows_and_device_events() {
    let retired = WindowId::from_raw(1);
    let live = WindowId::from_raw(2);
    let mut sink = EventSink::new();
    sink.push_window_event(WindowEvent::CloseRequested, retired);
    sink.push_window_event(WindowEvent::Focused(true), live);
    sink.push_device_event(DeviceEvent::PointerMotion { delta: (3.0, 4.0) });
    sink.push_window_event(WindowEvent::Focused(false), retired);
    sink.push_window_event(WindowEvent::CloseRequested, live);

    sink.remove_window(retired);
    // Retirement is idempotent, including an ID not present in the queue.
    sink.remove_window(retired);
    sink.remove_window(WindowId::from_raw(3));
    let events: Vec<_> = sink.drain().into_iter().collect();
    assert!(matches!(events.as_slice(), [
        Event::WindowEvent { window_id: first, event: WindowEvent::Focused(true) },
        Event::DeviceEvent { event: DeviceEvent::PointerMotion { delta: (3.0, 4.0) } },
        Event::WindowEvent { window_id: last, event: WindowEvent::CloseRequested },
    ] if *first == live && *last == live));
    assert!(sink.is_empty());
}

#[test]
fn append_moves_events_in_order() {
    let a = WindowId::from_raw(7);
    let mut first: EventSink<WindowEvent, DeviceEvent> = EventSink::new();
    let mut second = EventSink::new();
    assert!(first.is_empty());
    first.push_window_event(WindowEvent::Focused(true), a);
    second.push_window_event(WindowEvent::CloseRequested, a);
    first.append(&mut second);
    assert!(second.is_empty());
    let events = first.drain();
    assert!(matches!(events.as_slice(), [
        Event::WindowEvent { event: WindowEvent::Focused(true), .. },
        Event::WindowEvent { event: WindowEvent::CloseRequested, .. },
    ]));
    assert!(first.is_empty());
}

#[test]
fn retiring_every_window_leaves_device_events() {
    let a = WindowId::from_raw(1);
    let mut sink = EventSink::new();
    sink.push_window_event(WindowEvent::CloseRequested, a);
    sink.push_device_event(DeviceEvent::PointerMotion { delta: (1.0, 2.0) });
    sink.remove_window(a);
    let events = sink.drain();
    assert_eq!(events.len(), 1);
    assert!(matches!(events[0], Event::DeviceEvent { .. }));
    assert_eq!(a.into_raw(), 1);
}
