use x11_event_core::devices::{Device, ScrollAxis};
use x11_event_core::event::{ElementState, MouseButton, Output, ScrollOrientation};
use x11_event_core::geometry::{ConfigureNotify, FrameExtents, MonitorInfo};
use x11_event_core::processor::{Atoms, EventProcessor, HierarchyChange, ImeEvent, RawEvent};
use x11_event_core::touch::TouchPhase;

const WIN: u32 = 0x40_0001;
const SOURCE: u32 = 0x60_0002;
const FILE_LIST: u32 = 300;

fn atoms() -> Atoms {
    Atoms {
        wm_delete_window: 100,
        net_wm_ping: 101,
        xdnd_enter: 200,
        xdnd_position: 201,
        xdnd_drop: 202,
        xdnd_leave: 203,
        xdnd_selection: 204,
        text_uri_list: FILE_LIST,
    }
}

fn monitor(name: &str, scale: f64) -> MonitorInfo {
    MonitorInfo { name: name.to_string(), scale: scale.to_bits(), dummy: false }
}

fn processor_with_window() -> EventProcessor {
    let mut p = EventProcessor::new(atoms(), 3, 0);
    p.windows.add_window(WIN, monitor("DP-1", 1.0));
    p
}

fn client(message_type: u32, data: [u32; 5]) -> RawEvent {
    RawEvent::ClientMessage { window: WIN, message_type, data }
}

fn enter_inline(types: [u32; 3]) -> RawEvent {
    client(200, [SOURCE, 5 << 24, types[0], types[1], types[2]])
}

fn position() -> RawEvent {
    client(201, [SOURCE, 0, 0, 1234, 0])
}

#[test]
fn dnd_accepted_position_then_drop_without_data_is_rejected() {
    let mut p = processor_with_window();
    assert!(p.process_event(enter_inline([10, 11, FILE_LIST])).is_empty());
    assert_eq!(p.dnd.version, Some(5));
    let out = p.process_event(position());
    assert_eq!(
        out,
        vec![
            Output::ConvertSelection { window: WIN, time: 1234 },
            Output::SendDndStatus { window: WIN, source: SOURCE, accepted: true },
        ]
    );
    let out = p.process_event(client(202, [SOURCE, 0, 0, 0, 0]));
    assert_eq!(out, vec![Output::SendDndFinished { window: WIN, source: SOURCE, accepted: false }]);
    assert!(p.dnd.version.is_none() && p.dnd.type_list.is_none());
    assert!(p.dnd.source_window.is_none() && p.dnd.result.is_none());
}

#[test]
fn dnd_drop_with_data_finishes_accepted_once() {
    let mut p = processor_with_window();
    p.process_event(enter_inline([FILE_LIST, 0, 0]));
    p.process_event(position());
    let out = p.process_event(RawEvent::SelectionNotify { requestor: WIN, property: 204 });
    assert_eq!(out, vec![Output::ReadDropData { window: WIN }]);
    let paths = vec!["/tmp/a.txt".to_string(), "/tmp/b.txt".to_string()];
    let hovered = p.drop_data_read(WIN, Some(Ok(paths)));
    assert_eq!(
        hovered,
        vec![
            Output::HoveredFile { window: WIN, path: "/tmp/a.txt".to_string() },
            Output::HoveredFile { window: WIN, path: "/tmp/b.txt".to_string() },
        ]
    );
    let out = p.process_event(client(202, [0, 0, 0, 0, 0]));
    assert_eq!(
        out,
        vec![
            Output::DroppedFile { window: WIN, path: "/tmp/a.txt".to_string() },
            Output::DroppedFile { window: WIN, path: "/tmp/b.txt".to_string() },
            Output::SendDndFinished { window: WIN, source: SOURCE, accepted: true },
        ]
    );
    let finished = out.iter().filter(|o| matches!(o, Output::SendDndFinished { .. })).count();
    assert_eq!(finished, 1);
    assert!(p.dnd.result.is_none() && p.dnd.source_window.is_none());
}

#[test]
fn dnd_rejected_position_resets_session() {
    let mut p = processor_with_window();
    p.process_event(enter_inline([10, 11, 12]));
    let out = p.process_event(position());
    assert_eq!(out, vec![Output::SendDndStatus { window: WIN, source: SOURCE, accepted: false }]);
    assert!(p.dnd.version.is_none() && p.dnd.type_list.is_none());
    let out = p.process_event(client(202, [SOURCE + 1, 0, 0, 0, 0]));
    assert_eq!(out, vec![Output::SendDndFinished { window: WIN, source: SOURCE + 1, accepted: false }]);
}

#[test]
fn dnd_more_types_are_fetched() {
    let mut p = processor_with_window();
    let out = p.process_event(client(200, [SOURCE, (5 << 24) | 1, 0, 0, 0]));
    assert_eq!(out, vec![Output::FetchDndTypes { source: SOURCE }]);
    assert!(p.dnd.type_list.is_none());
    p.dnd_types_fetched(Some(vec![1, 2, 3, 4, FILE_LIST]));
    let out = p.process_event(position());
    assert_eq!(out.last(), Some(&Output::SendDndStatus { window: WIN, source: SOURCE, accepted: true }));
}

#[test]
fn dnd_leave_cancels_once_and_resets() {
    let mut p = processor_with_window();
    p.process_event(enter_inline([FILE_LIST, 0, 0]));
    p.process_event(position());
    let out = p.process_event(client(203, [SOURCE, 0, 0, 0, 0]));
    assert_eq!(out, vec![Output::HoveredFileCancelled { window: WIN }]);
    assert!(p.dnd.version.is_none() && p.dnd.type_list.is_none());
    assert!(p.dnd.source_window.is_none() && p.dnd.result.is_none());
}

#[test]
fn dnd_version_zero_uses_current_time() {
    let mut p = processor_with_window();
    p.process_event(client(200, [SOURCE, 0, FILE_LIST, 0, 0]));
    let out = p.process_event(position());
    assert_eq!(out[0], Output::ConvertSelection { window: WIN, time: 0 });
}

#[test]
fn close_and_ping_messages() {
    let mut p = processor_with_window();
    assert_eq!(p.process_event(client(7, [100, 0, 0, 0, 0])), vec![Output::CloseRequested { window: WIN }]);
    let data = [101, 55, WIN, 0, 0];
    assert_eq!(p.process_event(client(7, data)), vec![Output::ReplyPing { window: WIN, data }]);
    assert!(p.process_event(client(7, [1, 0, 0, 0, 0])).is_empty());
}

fn touch(detail: u32, phase: TouchPhase) -> RawEvent {
    RawEvent::Touch { window: WIN, device: 9, detail, phase, x: 10 << 16, y: 20 << 16 }
}

#[test]
fn touch_first_contact_drives_cursor() {
    let mut p = processor_with_window();
    let out = p.process_event(touch(7, TouchPhase::Started));
    assert_eq!(p.first_touch, Some(7));
    assert_eq!(p.num_touch, 1);
    assert_eq!(
        out,
        vec![
            Output::CursorMoved { window: WIN, device: 2, x: 10 << 16, y: 20 << 16 },
            Output::Touch { window: WIN, device: 9, phase: TouchPhase::Started, x: 10 << 16, y: 20 << 16, id: 7 },
        ]
    );
    let out = p.process_event(touch(9, TouchPhase::Started));
    assert_eq!(out.len(), 1);
    assert!(matches!(out[0], Output::Touch { id: 9, .. }));
    assert_eq!(p.first_touch, Some(7));
    assert_eq!(p.num_touch, 2);
    let out = p.process_event(touch(7, TouchPhase::Ended));
    assert_eq!(out.len(), 1);
    assert_eq!(p.first_touch, None);
    assert_eq!(p.num_touch, 1);
}

#[test]
fn touch_count_never_goes_below_zero() {
    let mut p = processor_with_window();
    p.process_event(touch(3, TouchPhase::Cancelled));
    assert_eq!(p.num_touch, 0);
    assert_eq!(p.first_touch, None);
}

#[test]
fn touch_on_unknown_window_is_ignored() {
    let mut p = processor_with_window();
    let out = p.process_event(RawEvent::Touch { window: 5, device: 9, detail: 1, phase: TouchPhase::Started, x: 0, y: 0 });
    assert!(out.is_empty());
    assert_eq!(p.num_touch, 0);
}

fn focus_in() -> RawEvent {
    RawEvent::FocusIn { window: WIN, device: 11, x: 1, y: 2, pressed_keys: vec![3, 38, 50] }
}

fn key(keycode: u32, pressed: bool, repeats: bool) -> RawEvent {
    RawEvent::Key { keycode, pressed, repeats }
}

#[test]
fn focus_in_synthesizes_presses() {
    let mut p = EventProcessor::new(atoms(), 3, 0x4);
    p.windows.add_window(WIN, monitor("DP-1", 1.0));
    let out = p.process_event(focus_in());
    assert_eq!(
        out,
        vec![
            Output::ImeFocus { window: WIN },
            Output::ListenDeviceEvents { enabled: true },
            Output::Focused { window: WIN, focused: true },
            Output::ModifiersChanged { window: WIN, modifiers: 0x4 },
            Output::CursorMoved { window: WIN, device: 2, x: 1, y: 2 },
            Output::KeyboardInput { window: WIN, device: 3, keycode: 38, state: ElementState::Pressed, repeat: false, synthetic: true },
            Output::KeyboardInput { window: WIN, device: 3, keycode: 50, state: ElementState::Pressed, repeat: false, synthetic: true },
        ]
    );
    assert_eq!(p.active_window, Some(WIN));
    assert!(p.windows.entries[0].geometry.has_focus);
    let out = p.process_event(RawEvent::MapNotify { window: WIN });
    assert_eq!(out, vec![Output::Focused { window: WIN, focused: true }]);
}

#[test]
fn focus_out_while_composing_releases_keys_in_order() {
    let mut p = processor_with_window();
    p.process_event(focus_in());
    p.ime_event(WIN, ImeEvent::Start);
    assert!(p.is_composing);
    p.process_event(key(38, true, true));
    let out = p.process_event(RawEvent::FocusOut { window: WIN, pressed_keys: vec![38, 50] });
    assert_eq!(
        out,
        vec![
            Output::ImeUnfocus { window: WIN },
            Output::ListenDeviceEvents { enabled: false },
            Output::KeyboardInput { window: WIN, device: 3, keycode: 38, state: ElementState::Released, repeat: false, synthetic: true },
            Output::KeyboardInput { window: WIN, device: 3, keycode: 50, state: ElementState::Released, repeat: false, synthetic: true },
            Output::ModifiersChanged { window: WIN, modifiers: 0 },
            Output::Focused { window: WIN, focused: false },
        ]
    );
    assert_eq!(p.active_window, None);
    assert_eq!(p.held_key_press, None);
    assert!(!p.windows.entries[0].geometry.has_focus);
}

#[test]
fn key_repeat_detection() {
    let mut p = processor_with_window();
    p.process_event(focus_in());
    let out = p.process_event(key(38, true, true));
    assert!(matches!(out[0], Output::KeyboardInput { keycode: 38, repeat: false, synthetic: false, .. }));
    assert_eq!(p.held_key_press, Some(38));
    let out = p.process_event(key(38, true, true));
    assert!(matches!(out[0], Output::KeyboardInput { keycode: 38, repeat: true, .. }));
    // A non-repeatable key leaves the held key alone.
    p.process_event(key(50, true, false));
    p.process_event(key(50, false, false));
    assert_eq!(p.held_key_press, Some(38));
    // Releasing another repeatable key does not clear it.
    p.process_event(key(40, false, true));
    assert_eq!(p.held_key_press, Some(38));
    let out = p.process_event(key(38, false, true));
    assert!(matches!(out[0], Output::KeyboardInput { state: ElementState::Released, repeat: false, .. }));
    assert_eq!(p.held_key_press, None);
}

#[test]
fn keys_without_focus_or_while_composing_are_not_emitted() {
    let mut p = processor_with_window();
    assert!(p.process_event(key(38, true, true)).is_empty());
    assert_eq!(p.held_key_press, None);
    p.process_event(focus_in());
    p.ime_event(WIN, ImeEvent::Start);
    assert!(p.process_event(key(38, true, true)).is_empty());
    assert_eq!(p.held_key_press, Some(38));
    assert!(p.process_event(key(0, true, false)).is_empty());
}

#[test]
fn modifiers_change_only_when_different() {
    let mut p = processor_with_window();
    assert!(p.process_event(RawEvent::StateNotify { modifiers: 1 }).is_empty());
    p.process_event(focus_in());
    assert!(p.process_event(RawEvent::StateNotify { modifiers: 1 }).is_empty());
    assert_eq!(
        p.process_event(RawEvent::StateNotify { modifiers: 5 }),
        vec![Output::ModifiersChanged { window: WIN, modifiers: 5 }]
    );
}

#[test]
fn ime_events_translate() {
    let mut p = processor_with_window();
    assert_eq!(p.ime_event(WIN, ImeEvent::Enabled), vec![Output::ImeEnabled { window: WIN }]);
    assert!(p.ime_event(WIN, ImeEvent::Update("x".to_string(), Some(1))).is_empty());
    let out = p.ime_event(WIN, ImeEvent::Start);
    assert_eq!(out, vec![Output::ImePreedit { window: WIN, text: String::new(), cursor: None }]);
    let out = p.ime_event(WIN, ImeEvent::Update("ka".to_string(), Some(2)));
    assert_eq!(out, vec![Output::ImePreedit { window: WIN, text: "ka".to_string(), cursor: Some(2) }]);
    let out = p.ime_event(WIN, ImeEvent::Commit("か".to_string()));
    assert_eq!(
        out,
        vec![
            Output::ImePreedit { window: WIN, text: String::new(), cursor: None },
            Output::ImeCommit { window: WIN, text: "か".to_string() },
        ]
    );
    assert!(!p.is_composing);
    p.ime_event(WIN, ImeEvent::Start);
    assert_eq!(p.ime_event(WIN, ImeEvent::End).len(), 1);
    assert!(!p.is_composing);
    assert_eq!(p.ime_event(WIN, ImeEvent::Disabled), vec![Output::ImeDisabled { window: WIN }]);
}

fn configure(response_type: u8, x: i16, y: i16, width: u16, height: u16, m: Option<MonitorInfo>) -> RawEvent {
    RawEvent::ConfigureNotify {
        notify: ConfigureNotify { window: WIN, response_type, x, y, width, height },
        extents: FrameExtents { left: 4, top: 20 },
        monitor: m,
        wm_drops_resizes: false,
    }
}

#[test]
fn configure_twice_emits_once() {
    let mut p = processor_with_window();
    let out = p.process_event(configure(22, 100, 50, 640, 480, Some(monitor("DP-1", 1.0))));
    assert_eq!(
        out,
        vec![
            Output::Moved { window: WIN, x: 96, y: 30 },
            Output::Resized { window: WIN, width: 640, height: 480 },
        ]
    );
    let out = p.process_event(configure(22, 100, 50, 640, 480, Some(monitor("DP-1", 1.0))));
    assert!(out.is_empty());
}

#[test]
fn real_configure_does_not_move_and_drops_extents() {
    let mut p = processor_with_window();
    p.process_event(configure(22, 100, 50, 640, 480, None));
    let out = p.process_event(configure(22 | 0x80, 3, 17, 640, 480, None));
    assert!(out.is_empty());
    let g = &p.windows.entries[0].geometry;
    assert_eq!(g.inner_position, None);
    assert_eq!(g.frame_extents, None);
    assert_eq!(g.inner_position_rel_parent, Some((3, 17)));
    assert_eq!(g.position, Some((96, 30)));
}

#[test]
fn scale_change_prompts_and_resizes() {
    let mut p = processor_with_window();
    p.process_event(configure(22, 0, 0, 800, 600, None));
    let out = p.process_event(configure(22, 0, 0, 800, 600, Some(monitor("HDMI-1", 2.0))));
    assert_eq!(
        out,
        vec![Output::ScaleFactorChanged {
            window: WIN,
            old_scale: 1.0f64.to_bits(),
            new_scale: 2.0f64.to_bits(),
            width: 800,
            height: 600,
        }]
    );
    let out = p.scale_factor_answered((1600, 1200));
    assert_eq!(
        out,
        vec![
            Output::RequestInnerSize { window: WIN, width: 1600, height: 1200 },
            Output::Resized { window: WIN, width: 800, height: 600 },
        ]
    );
    assert_eq!(p.windows.entries[0].geometry.dpi_adjusted, None);
    assert!(p.pending.is_none());
}

#[test]
fn scale_change_kept_size_does_not_resize() {
    let mut p = processor_with_window();
    p.process_event(configure(22, 0, 0, 800, 600, None));
    p.process_event(configure(22, 0, 0, 800, 600, Some(monitor("HDMI-1", 2.0))));
    assert!(p.scale_factor_answered((800, 600)).is_empty());
    assert!(p.scale_factor_answered((1, 1)).is_empty());
}

#[test]
fn dropped_resize_is_asked_again() {
    let mut p = processor_with_window();
    p.process_event(configure(22, 0, 0, 800, 600, None));
    let ev = RawEvent::ConfigureNotify {
        notify: ConfigureNotify { window: WIN, response_type: 22, x: 0, y: 0, width: 800, height: 600 },
        extents: FrameExtents { left: 0, top: 0 },
        monitor: Some(monitor("HDMI-1", 2.0)),
        wm_drops_resizes: true,
    };
    p.process_event(ev);
    let out = p.scale_factor_answered((1600, 1200));
    assert_eq!(
        out,
        vec![
            Output::RequestInnerSize { window: WIN, width: 1600, height: 1200 },
            Output::RequestInnerSize { window: WIN, width: 1600, height: 1200 },
            Output::Resized { window: WIN, width: 800, height: 600 },
        ]
    );
    assert_eq!(p.windows.entries[0].geometry.dpi_adjusted, Some((1600, 1200)));
}

#[test]
fn dummy_monitor_keeps_scale() {
    let mut p = processor_with_window();
    let m = MonitorInfo { name: String::new(), scale: 3.0f64.to_bits(), dummy: true };
    let out = p.process_event(configure(22, 0, 0, 10, 10, Some(m)));
    assert!(!out.iter().any(|o| matches!(o, Output::ScaleFactorChanged { .. })));
    assert_eq!(p.windows.entries[0].geometry.last_monitor.name, "DP-1");
}

#[test]
fn reparent_invalidates_frame_extents() {
    let mut p = processor_with_window();
    p.process_event(configure(22, 10, 10, 10, 10, None));
    assert!(p.windows.entries[0].geometry.frame_extents.is_some());
    assert_eq!(p.process_event(RawEvent::ReparentNotify { window: WIN }), vec![Output::UpdateWmInfo]);
    assert!(p.windows.entries[0].geometry.frame_extents.is_none());
}

#[test]
fn destroy_forgets_window() {
    let mut p = processor_with_window();
    let out = p.process_event(RawEvent::DestroyNotify { window: WIN });
    assert_eq!(out, vec![Output::ImeRemoveContext { window: WIN }, Output::Destroyed { window: WIN }]);
    assert!(!p.window_exists(WIN));
    assert_eq!(p.process_event(RawEvent::MapNotify { window: WIN }), vec![Output::Focused { window: WIN, focused: false }]);
    assert!(p.process_event(configure(22, 1, 1, 1, 1, None)).is_empty());
}

#[test]
fn expose_and_visibility() {
    let mut p = processor_with_window();
    assert!(p.process_event(RawEvent::Expose { window: WIN, count: 2 }).is_empty());
    assert_eq!(p.process_event(RawEvent::Expose { window: WIN, count: 0 }), vec![Output::RedrawRequested { window: WIN }]);
    assert_eq!(
        p.process_event(RawEvent::VisibilityNotify { window: WIN, fully_obscured: true }),
        vec![Output::Occluded { window: WIN, occluded: true }]
    );
}

fn button(detail: u32, emulated: bool) -> Vec<Output> {
    let mut p = processor_with_window();
    p.process_event(RawEvent::Button { window: WIN, device: 4, detail, pressed: true, emulated })
}

#[test]
fn buttons_map_to_mouse_buttons() {
    let expect = |b| vec![Output::MouseInput { window: WIN, device: 4, state: ElementState::Pressed, button: b }];
    assert_eq!(button(1, false), expect(MouseButton::Left));
    assert_eq!(button(2, false), expect(MouseButton::Middle));
    assert_eq!(button(3, false), expect(MouseButton::Right));
    assert!(button(4, false).is_empty());
    assert!(button(7, false).is_empty());
    assert_eq!(button(8, false), expect(MouseButton::Back));
    assert_eq!(button(9, false), expect(MouseButton::Forward));
    assert_eq!(button(12, false), expect(MouseButton::Other(12)));
    assert!(button(1, true).is_empty());
}

#[test]
fn raw_buttons_and_keys() {
    let mut p = processor_with_window();
    assert!(p.process_event(RawEvent::RawButton { device: 4, detail: 1, pressed: true, emulated: false }).is_empty());
    assert_eq!(
        p.process_event(RawEvent::RawButton { device: 4, detail: 1, pressed: false, emulated: true }),
        vec![Output::DeviceButton { device: 4, button: 1, state: ElementState::Released }]
    );
    assert!(p.process_event(RawEvent::RawKey { source: 6, keycode: 7, pressed: true }).is_empty());
    assert_eq!(
        p.process_event(RawEvent::RawKey { source: 6, keycode: 8, pressed: true }),
        vec![Output::DeviceKey { device: 6, keycode: 8, state: ElementState::Pressed }]
    );
}

#[test]
fn raw_motion_decodes_valuators() {
    let mut p = processor_with_window();
    let out = p.process_event(RawEvent::RawMotion { device: 6, mask: vec![0b1011], values: vec![5, 0, -3] });
    assert_eq!(
        out,
        vec![
            Output::DeviceMotion { device: 6, axis: 0, value: 5 },
            Output::DeviceMotion { device: 6, axis: 1, value: 0 },
            Output::DeviceMotion { device: 6, axis: 3, value: -3 },
            Output::DeviceMouseMotion { device: 6, dx: 5, dy: 0 },
            Output::DeviceMouseWheel { device: 6, dx: 0, dy: -3 },
        ]
    );
    let out = p.process_event(RawEvent::RawMotion { device: 6, mask: vec![0, 1], values: vec![9] });
    assert_eq!(out, vec![Output::DeviceMotion { device: 6, axis: 32, value: 9 }]);
}

fn wheel_device() -> Device {
    Device {
        id: 12,
        attachment: 2,
        scroll_axes: vec![ScrollAxis { index: 3, orientation: ScrollOrientation::Vertical, increment: 1 << 32, position: 0 }],
    }
}

#[test]
fn motion_reports_cursor_and_scroll() {
    let mut p = processor_with_window();
    p.init_device(vec![wheel_device()]);
    let ev = |y: i64| RawEvent::Motion { window: WIN, device: 2, source: 12, x: 5, y: 6, mask: vec![0b1001], values: vec![7, y] };
    let out = p.process_event(ev(40));
    assert_eq!(
        out,
        vec![
            Output::CursorMoved { window: WIN, device: 2, x: 5, y: 6 },
            Output::AxisMotion { window: WIN, device: 2, axis: 0, value: 7 },
            Output::ScrollMotion { window: WIN, device: 2, orientation: ScrollOrientation::Vertical, value: 40, previous: 0, increment: 1 << 32 },
        ]
    );
    let out = p.process_event(ev(55));
    assert_eq!(out.len(), 2);
    assert!(matches!(out[1], Output::ScrollMotion { value: 55, previous: 40, .. }));
}

#[test]
fn enter_resets_scroll_positions() {
    let mut p = processor_with_window();
    p.init_device(vec![wheel_device()]);
    let mut fresh = wheel_device();
    fresh.scroll_axes[0].position = 77;
    let out = p.process_event(RawEvent::Enter { window: WIN, device: 2, source: 12, x: 1, y: 1, snapshot: vec![fresh] });
    assert_eq!(
        out,
        vec![Output::CursorEntered { window: WIN, device: 2 }, Output::CursorMoved { window: WIN, device: 2, x: 1, y: 1 }]
    );
    assert_eq!(p.devices.devices[0].scroll_axes[0].position, 77);
    assert_eq!(p.process_event(RawEvent::Leave { window: WIN, device: 2 }), vec![Output::CursorLeft { window: WIN, device: 2 }]);
    assert!(p.process_event(RawEvent::Leave { window: 1, device: 2 }).is_empty());
}

#[test]
fn hierarchy_changes() {
    let mut p = processor_with_window();
    p.init_device(vec![wheel_device()]);
    let out = p.process_event(RawEvent::Hierarchy {
        changes: vec![HierarchyChange { device: 20, flags: 1 }, HierarchyChange { device: 12, flags: 8 }],
    });
    assert_eq!(
        out,
        vec![
            Output::ReinitDevices { device: 20 },
            Output::DeviceAdded { device: 20 },
            Output::DeviceRemoved { device: 12 },
        ]
    );
    assert!(p.devices.devices.is_empty());
}

#[test]
fn new_keyboard_reloads_keymap() {
    let mut p = processor_with_window();
    assert_eq!(
        p.process_event(RawEvent::NewKeyboard { device: 3, keycodes_changed: true, geometry_changed: false }),
        vec![Output::ReloadKeymap]
    );
    assert!(p.process_event(RawEvent::NewKeyboard { device: 4, keycodes_changed: true, geometry_changed: true }).is_empty());
    assert!(p.process_event(RawEvent::NewKeyboard { device: 3, keycodes_changed: false, geometry_changed: false }).is_empty());
    assert!(p.process_event(RawEvent::Other).is_empty());
}

#[test]
fn monitor_scale_change_rescales_windows_on_it() {
    let mut p = processor_with_window();
    p.windows.add_window(WIN + 1, monitor("HDMI-1", 1.0));
    let previous = Some(vec![monitor("DP-1", 1.0), monitor("HDMI-1", 1.0)]);
    let current = vec![monitor("DP-1", 2.0), monitor("HDMI-1", 1.0), monitor("eDP-1", 1.5)];
    let out = p.process_event(RawEvent::RandrNotify { previous, current: current.clone() });
    assert_eq!(
        out,
        vec![Output::MonitorScaleChanged { window: WIN, old_scale: 1.0f64.to_bits(), new_scale: 2.0f64.to_bits() }]
    );
    assert!(p.process_event(RawEvent::RandrNotify { previous: None, current }).is_empty());
    let out = p.process_event(RawEvent::RandrNotify { previous: Some(vec![]), current: vec![monitor("HDMI-1", 1.25)] });
    assert_eq!(
        out,
        vec![Output::MonitorScaleChanged { window: WIN + 1, old_scale: 1.0f64.to_bits(), new_scale: 1.25f64.to_bits() }]
    );
}

#[test]
fn outer_position_is_predicted_without_change() {
    let mut p = processor_with_window();
    let n = ConfigureNotify { window: WIN, response_type: 22, x: 30, y: 40, width: 5, height: 5 };
    assert_eq!(p.predict_outer_position(&n, FrameExtents { left: 2, top: 10 }), Some((28, 30)));
    assert!(p.windows.entries[0].geometry.position.is_none());
    let other = ConfigureNotify { window: 1, ..n };
    assert_eq!(p.predict_outer_position(&other, FrameExtents { left: 0, top: 0 }), None);
    p.process_event(configure(22, 30, 40, 5, 5, None));
    assert_eq!(p.predict_outer_position(&n, FrameExtents { left: 0, top: 0 }), Some((26, 20)));
}
