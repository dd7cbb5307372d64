use gpui_embed::platform::{
    Bounds, EmbeddedDisplay, EmbeddedKeyboardLayout, HostCommand, HostCommandQueue, HostServices,
    InputEvent, InputOutcome, NoInputCallback, OpenWindowError, WindowCallbacks, WindowMetrics,
    WindowNotification, WindowSlot, WindowState,
};

#[test]
fn input_outcome_distinguishes_consumed_and_propagated_events() {
    let consumed = InputOutcome {
        propagate: false,
        ..Default::default()
    };
    let propagated = InputOutcome {
        propagate: true,
        ..Default::default()
    };
    assert!(!consumed.propagate);
    assert!(propagated.propagate);
    assert_ne!(consumed, propagated);
}

#[test]
fn input_outcome_from_dispatch() {
    let o = InputOutcome::from_dispatch(true, false, false, true, false);
    assert_eq!(
        o,
        InputOutcome { propagate: true, default_prevented: false, redraw_requested: true, pointer_capture: false }
    );
    let o = InputOutcome::from_dispatch(false, true, false, false, true);
    assert_eq!(
        o,
        InputOutcome { propagate: false, default_prevented: true, redraw_requested: false, pointer_capture: true }
    );
}

#[test]
fn host_commands_drain_in_order() {
    let mut q: HostCommandQueue<u8, (i32, i32)> = HostCommandQueue::new();
    q.set_cursor_style(1);
    q.update_ime_position((4, 5));
    q.set_cursor_style(2);
    assert_eq!(
        q.take_host_commands(),
        vec![HostCommand::SetCursor(1), HostCommand::SetImePosition((4, 5)), HostCommand::SetCursor(2)]
    );
    assert!(q.take_host_commands().is_empty());
}

#[test]
fn display_bounds_follow_updates() {
    let mut d = EmbeddedDisplay::new((0, 0, 800, 600));
    assert_eq!(d.bounds(), (0, 0, 800, 600));
    d.set_bounds((0, 0, 320, 180));
    assert_eq!(d.bounds(), (0, 0, 320, 180));
}

type Metrics = WindowMetrics<(i32, i32), (u32, u32), u32, u8>;
type State = WindowState<(i32, i32), (u32, u32), u32, u8, (i32, i32), u8, bool, u8>;

fn metrics() -> Metrics {
    WindowMetrics {
        bounds: Bounds { origin: (0, 0), size: (800, 600) },
        scale_factor: 1,
        active: true,
        hovered: true,
        appearance: 0,
    }
}

type Callbacks = WindowCallbacks<u8, u8, u8, u8, u8>;

fn all_callbacks() -> Callbacks {
    let mut c = Callbacks::new();
    c.on_resize(1);
    c.on_active_status_change(2);
    c.on_hover_status_change(3);
    c.on_appearance_changed(4);
    c.on_input(5);
    c
}

fn state() -> State {
    WindowState::new(metrics(), 0)
}

#[test]
fn new_window_state() {
    let s = state();
    assert_eq!((s.mouse_position, s.modifiers, s.capslock), ((0, 0), 0, false));
    assert!(s.active && s.hovered && !s.fullscreen);
    assert_eq!(s.title, "");
    assert_eq!(s.metrics, metrics());
    assert_eq!(s.background_appearance(), 0);
}

#[test]
fn pointer_events_record_position_and_modifiers() {
    let mut s = state();
    s.update_input_state(&InputEvent::MouseMove { position: (3, 4), modifiers: 2 });
    assert_eq!((s.mouse_position, s.modifiers), ((3, 4), 2));
    assert!(s.hovered);
    s.update_input_state(&InputEvent::MouseExited { position: (9, 9), modifiers: 1 });
    assert_eq!((s.mouse_position, s.modifiers), ((9, 9), 1));
    assert!(!s.hovered);
    s.update_input_state(&InputEvent::Touch { position: (1, 1) });
    assert_eq!((s.mouse_position, s.modifiers), ((1, 1), 1));
}

#[test]
fn modifier_and_key_events() {
    let mut s = state();
    s.update_input_state(&InputEvent::ModifiersChanged { modifiers: 7, capslock: true });
    assert_eq!((s.modifiers, s.capslock, s.mouse_position), (7, true, (0, 0)));
    s.update_input_state(&InputEvent::KeyDown);
    s.update_input_state(&InputEvent::KeyUp);
    s.update_input_state(&InputEvent::FileDrop);
    assert_eq!((s.modifiers, s.capslock, s.mouse_position), (7, true, (0, 0)));
}

#[test]
fn set_metrics_records_and_notifies() {
    let mut s = state();
    let mut display = EmbeddedDisplay::new(metrics().bounds);
    s.update_input_state(&InputEvent::MouseMove { position: (5, 6), modifiers: 3 });
    let m: Metrics = WindowMetrics {
        bounds: Bounds { origin: (10, 20), size: (320, 180) },
        scale_factor: 2,
        active: false,
        hovered: false,
        appearance: 3,
    };
    let told = s.set_metrics(&mut display, &all_callbacks(), m);
    assert_eq!(
        told,
        vec![
            WindowNotification::Resize { size: (320, 180), scale_factor: 2 },
            WindowNotification::ActiveStatus(false),
            WindowNotification::HoverStatus(false),
            WindowNotification::AppearanceChanged,
        ]
    );
    assert_eq!(s.bounds(), Bounds { origin: (10, 20), size: (320, 180) });
    assert_eq!(s.content_size(), (320, 180));
    assert_eq!(s.scale_factor(), 2);
    assert!(!s.active && !s.hovered);
    assert_eq!(s.appearance, 3);
    assert_eq!(display.bounds(), m.bounds);
    assert_eq!((s.mouse_position, s.modifiers), ((5, 6), 3));
}

#[test]
fn only_registered_observers_are_told() {
    let mut s = state();
    let mut display = EmbeddedDisplay::new(metrics().bounds);
    let mut c = Callbacks::new();
    assert!(s.set_metrics(&mut display, &c, metrics()).is_empty());
    c.on_hover_status_change(3);
    c.on_resize(1);
    let m = WindowMetrics { hovered: false, scale_factor: 3, ..metrics() };
    let expected = vec![
        WindowNotification::Resize { size: (800, 600), scale_factor: 3 },
        WindowNotification::HoverStatus(false),
    ];
    assert_eq!(s.set_metrics(&mut display, &c, m), expected);
    // Observers stay registered for the next change.
    assert_eq!(s.set_metrics(&mut display, &c, m), expected);
    assert_eq!(c.metrics_notifications(m), expected);
}

#[test]
fn input_needs_a_receiver() {
    let mut s = state();
    let event = InputEvent::MouseMove { position: (4, 4), modifiers: 1 };
    assert_eq!(s.dispatch_input(&Callbacks::new(), &event), Err(NoInputCallback));
    assert_eq!(s.mouse_position, (4, 4));
    let event = InputEvent::MouseMove { position: (6, 6), modifiers: 1 };
    assert_eq!(s.dispatch_input(&all_callbacks(), &event), Ok(()));
    assert_eq!(s.mouse_position, (6, 6));
}

#[test]
fn virtual_window_takes_requested_bounds_and_configured_status() {
    let mut slot: WindowSlot<State, u32> = WindowSlot::new();
    let configured = WindowMetrics { scale_factor: 2, active: false, hovered: true, appearance: 5, ..metrics() };
    let requested = Bounds { origin: (3, 4), size: (640, 480) };
    assert_eq!(slot.open_virtual_window(9, requested, &configured, 1), Ok(()));
    let w = slot.window().unwrap();
    assert_eq!(w.metrics, WindowMetrics { bounds: requested, ..configured });
    assert_eq!(configured.for_window(requested), w.metrics);
    assert!(!w.active && w.hovered && !w.fullscreen);
    assert_eq!((w.appearance, w.background), (5, 1));
    assert_eq!(slot.active_window(), Some(&9));
    assert_eq!(
        slot.open_virtual_window(10, requested, &configured, 1),
        Err(OpenWindowError::OneWindowOnly)
    );
    assert_eq!(slot.active_window(), Some(&9));
}

#[test]
fn resize_keeps_origin() {
    let mut s = state();
    s.resize((100, 50));
    assert_eq!(s.bounds(), Bounds { origin: (0, 0), size: (100, 50) });
    assert_eq!(s.scale_factor(), 1);
}

#[test]
fn status_flags() {
    let mut s = state();
    let mut display = EmbeddedDisplay::new(metrics().bounds);
    s.set_metrics(&mut display, &all_callbacks(), WindowMetrics { active: false, hovered: false, ..metrics() });
    assert!(!s.active && !s.hovered);
    assert_eq!(s.activate(&all_callbacks()), Some(WindowNotification::ActiveStatus(true)));
    s.active = false;
    assert_eq!(s.activate(&Callbacks::new()), None);
    assert!(s.active);
    assert!(s.active);
    s.toggle_fullscreen();
    assert!(s.fullscreen);
    s.toggle_fullscreen();
    assert!(!s.fullscreen);
    s.set_title("Embedded");
    assert_eq!(s.title, "Embedded");
    s.set_background_appearance(2);
    assert_eq!(s.background_appearance(), 2);
}

fn clipboard_read() -> u8 {
    7
}

fn clipboard_write(_: u8) {}

#[test]
fn host_services_start_empty() {
    let services: HostServices<fn() -> u8, fn(u8)> = HostServices::default();
    assert!(services.read_clipboard.is_none() && services.write_clipboard.is_none());
    let services = services.with_clipboard(clipboard_read as fn() -> u8, clipboard_write as fn(u8));
    assert_eq!((services.read_clipboard.unwrap())(), 7);
    assert!(services.write_clipboard.is_some());
}

#[test]
fn only_one_window_opens() {
    let mut slot: WindowSlot<&str, u32> = WindowSlot::new();
    assert_eq!(slot.window(), None);
    assert_eq!(slot.open_window(7, "main"), Ok(()));
    assert_eq!(slot.window(), Some(&"main"));
    assert_eq!(slot.active_window(), Some(&7));
    assert_eq!(slot.open_window(8, "second"), Err(OpenWindowError::OneWindowOnly));
    assert_eq!(slot.window(), Some(&"main"));
    assert_eq!(slot.active_window(), Some(&7));
}

#[test]
fn keyboard_layout_names() {
    assert_eq!(EmbeddedKeyboardLayout.id(), "gpui-embedded");
    assert_eq!(EmbeddedKeyboardLayout.name(), "Embedded");
}
