# winit input and event-queue logic, verified

The decision logic of three winit backends, with Verus contracts:

- `src/text.rs`: UTF-8 and UTF-16 measures of text; `utf16_byte` turns the
  UTF-16 offsets that Android's Java side reports into UTF-8 byte offsets.
- `src/ime.rs`: `ImeState` turns Android's whole-field IME snapshots into
  preedit, deletion and commit events; editor actions map to Enter or Tab.
- `src/keycodes.rs`: logical keys and modifiers of Android key events.
- `src/sink.rs`: the Wayland event sink and the retirement of a destroyed
  window's pending events.
- `src/event_queue.rs`: the readiness protocol between the X11 native-queue
  reader thread and the application.

`app/` holds the runtime around the last one: the reader thread, its lock
and condition variable, the calloop waker and the x11rb stop window.
