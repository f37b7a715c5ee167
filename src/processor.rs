use vstd::prelude::*;

use crate::devices::{
    decode_valuators, device_index, entered_devices, lemma_device_index_bounds, raw_motion, raw_motion_outputs,
    scroll_run, mask_bytes, valuators, Device, DeviceRegistry, DeviceView,
};
use crate::dnd::{
    drop_outputs, enter_outputs, enter_state, idle, position_outputs, position_state, DndState, DndView,
};
use crate::event::{
    DeviceId, ElementState, MouseButton, Output, WindowId, VIRTUAL_CORE_KEYBOARD, VIRTUAL_CORE_POINTER,
};
use crate::geometry::{
    configure_moved, configure_resized, configure_state, monitor_prompt, monitor_state, notify_position,
    notify_size, outer_position_of, outer_state, root_relative, settle_request, ConfigureNotify,
    FrameExtents, MonitorInfo, WindowGeometry,
};
use crate::keyboard::{filter_valid_keycodes, held_after, is_repeat, track_key_repeat, valid_keycodes, KEYCODE_OFFSET};
use crate::touch::{is_first_touch, touch_next, TouchPhase};
use crate::windows::{window_index, WindowEntry, WindowRegistry};

verus! {

/// The protocol atoms the dispatcher tells client messages apart by.
#[derive(Clone, Copy, Debug, PartialEq, Eq, Structural)]
pub struct Atoms {
    pub wm_delete_window: u32,
    pub net_wm_ping: u32,
    pub xdnd_enter: u32,
    pub xdnd_position: u32,
    pub xdnd_drop: u32,
    pub xdnd_leave: u32,
    pub xdnd_selection: u32,
    pub text_uri_list: u32,
}

/// Hierarchy-change bits of one device.
pub const MASTER_ADDED: u32 = 1;
pub const MASTER_REMOVED: u32 = 2;
pub const SLAVE_ADDED: u32 = 4;
pub const SLAVE_REMOVED: u32 = 8;

/// One entry of a device-hierarchy notification.
#[derive(Clone, Copy, Debug, PartialEq, Eq, Structural)]
pub struct HierarchyChange {
    pub device: DeviceId,
    pub flags: u32,
}

/// The largest number of 32-bit words a valuator mask holds.
pub const MAX_MASK_WORDS: usize = 65535;

/// A decoded protocol event, with what the runtime read from the server
/// for it. Pointer coordinates are 16.16 fixed point; valuator values are
/// 32.32 fixed point.
#[allow(inconsistent_fields)]
#[derive(Debug)]
pub enum RawEvent {
    ClientMessage { window: WindowId, message_type: u32, data: [u32; 5] },
    SelectionNotify { requestor: WindowId, property: u32 },
    /// `extents` are the frame extents queried for the window; `monitor`
    /// the monitor its new bounds fall on, when it was looked up;
    /// `wm_drops_resizes` whether the window manager drops resize requests
    /// during interaction.
    ConfigureNotify { notify: ConfigureNotify, extents: FrameExtents, monitor: Option<MonitorInfo>, wm_drops_resizes: bool },
    ReparentNotify { window: WindowId },
    MapNotify { window: WindowId },
    DestroyNotify { window: WindowId },
    VisibilityNotify { window: WindowId, fully_obscured: bool },
    Expose { window: WindowId, count: u16 },
    /// `repeats` tells whether the keymap marks the key repeatable.
    Key { keycode: u32, pressed: bool, repeats: bool },
    Button { window: WindowId, device: DeviceId, detail: u32, pressed: bool, emulated: bool },
    Motion { window: WindowId, device: DeviceId, source: DeviceId, x: i32, y: i32, mask: Vec<u32>, values: Vec<i64> },
    /// `snapshot` is the device hierarchy as queried on entry.
    Enter { window: WindowId, device: DeviceId, source: DeviceId, x: i32, y: i32, snapshot: Vec<Device> },
    Leave { window: WindowId, device: DeviceId },
    /// `pressed_keys` is the hardware key map queried on focus change.
    FocusIn { window: WindowId, device: DeviceId, x: i32, y: i32, pressed_keys: Vec<u8> },
    FocusOut { window: WindowId, pressed_keys: Vec<u8> },
    Touch { window: WindowId, device: DeviceId, detail: u32, phase: TouchPhase, x: i32, y: i32 },
    RawButton { device: DeviceId, detail: u32, pressed: bool, emulated: bool },
    RawMotion { device: DeviceId, mask: Vec<u32>, values: Vec<i64> },
    RawKey { source: DeviceId, keycode: u32, pressed: bool },
    Hierarchy { changes: Vec<HierarchyChange> },
    NewKeyboard { device: u16, keycodes_changed: bool, geometry_changed: bool },
    /// `modifiers` is the effective modifier set after the state change.
    StateNotify { modifiers: u32 },
    /// The monitor list changed: `previous` is the list cached before, if
    /// any, and `current` the list now.
    RandrNotify { previous: Option<Vec<MonitorInfo>>, current: Vec<MonitorInfo> },
    Other,
}

impl RawEvent {
    /// Whether the valuator mask of a motion event is within the protocol's
    /// bound.
    pub open spec fn mask_in_bounds(&self) -> bool {
        match self {
            RawEvent::Motion { mask, .. } => mask@.len() <= MAX_MASK_WORDS,
            RawEvent::RawMotion { mask, .. } => mask@.len() <= MAX_MASK_WORDS,
            _ => true,
        }
    }

    /// The number of words in the valuator mask of a motion event.
    pub open spec fn mask_words(&self) -> int {
        match self {
            RawEvent::Motion { mask, .. } => mask@.len() as int,
            RawEvent::RawMotion { mask, .. } => mask@.len() as int,
            _ => 0,
        }
    }
}

/// An event of the input-method bridge.
#[derive(Debug)]
pub enum ImeEvent {
    Enabled,
    Start,
    Update(String, Option<usize>),
    Commit(String),
    End,
    Disabled,
}

/// A geometry notification waiting for the application to choose a size at
/// a new scale factor.
#[derive(Clone, Copy, Debug)]
pub struct PendingScale {
    pub window: WindowId,
    pub start: (u32, u32),
    pub resized: bool,
    pub observed: (u32, u32),
    pub wm_drops_resizes: bool,
}

/// The event dispatcher and the state it shares between sub-protocols.
#[derive(Debug)]
pub struct EventProcessor {
    pub atoms: Atoms,
    pub dnd: DndState,
    pub devices: DeviceRegistry,
    pub windows: WindowRegistry,
    pub modifiers: u32,
    pub core_keyboard_id: u16,
    /// Number of touches currently in progress.
    pub num_touch: u32,
    /// The last pressed repeatable key, while it is held.
    pub held_key_press: Option<u32>,
    pub first_touch: Option<u64>,
    /// The focused window of this process.
    pub active_window: Option<WindowId>,
    pub is_composing: bool,
    pub pending: Option<PendingScale>,
}

/// The dispatcher's state in mathematical form.
pub struct ProcessorView {
    pub atoms: Atoms,
    pub dnd: DndView,
    pub devices: Seq<DeviceView>,
    pub windows: Seq<WindowEntry>,
    pub modifiers: u32,
    pub core_keyboard_id: u16,
    pub num_touch: u32,
    pub held_key_press: Option<u32>,
    pub first_touch: Option<u64>,
    pub active_window: Option<WindowId>,
    pub is_composing: bool,
    pub pending: Option<PendingScale>,
}

impl View for EventProcessor {
    type V = ProcessorView;

    open spec fn view(&self) -> ProcessorView {
        ProcessorView {
            atoms: self.atoms,
            dnd: self.dnd@,
            devices: self.devices@,
            windows: self.windows.entries@,
            modifiers: self.modifiers,
            core_keyboard_id: self.core_keyboard_id,
            num_touch: self.num_touch,
            held_key_press: self.held_key_press,
            first_touch: self.first_touch,
            active_window: self.active_window,
            is_composing: self.is_composing,
            pending: self.pending,
        }
    }
}

pub open spec fn state_of(pressed: bool) -> ElementState {
    if pressed { ElementState::Pressed } else { ElementState::Released }
}

pub open spec fn has_window(s: ProcessorView, w: WindowId) -> bool {
    window_index(s.windows, w) < s.windows.len()
}

pub open spec fn geometry_of(s: ProcessorView, w: WindowId) -> WindowGeometry {
    s.windows[window_index(s.windows, w)].geometry
}

/// The window entries with the state of window `w` replaced.
pub open spec fn set_geometry(s: ProcessorView, w: WindowId, g: WindowGeometry) -> Seq<WindowEntry> {
    let i = window_index(s.windows, w);
    s.windows.update(i, WindowEntry { id: s.windows[i].id, geometry: g })
}

/// Synthetic key events for the valid keycodes of a hardware key map.
pub open spec fn synthetic_keys(window: WindowId, keys: Seq<u8>, state: ElementState) -> Seq<Output> {
    let valid = valid_keycodes(keys);
    Seq::new(
        valid.len(),
        |k: int|
            Output::KeyboardInput {
                window,
                device: VIRTUAL_CORE_KEYBOARD,
                keycode: valid[k] as u32,
                state,
                repeat: false,
                synthetic: true,
            },
    )
}

/// What a key event emits: a keyboard input to the active window, unless
/// there is none, the keycode is zero, or a composition owns text input.
pub open spec fn key_outputs(s: ProcessorView, keycode: u32, pressed: bool, repeats: bool) -> Seq<Output> {
    match s.active_window {
        Some(w) => if keycode != 0 && !s.is_composing {
            seq![Output::KeyboardInput {
                window: w,
                device: VIRTUAL_CORE_KEYBOARD,
                keycode,
                state: state_of(pressed),
                repeat: is_repeat(s.held_key_press, keycode, repeats, pressed),
                synthetic: false,
            }]
        } else {
            seq![]
        },
        None => seq![],
    }
}

pub open spec fn key_state(s: ProcessorView, keycode: u32, pressed: bool, repeats: bool) -> ProcessorView {
    match s.active_window {
        Some(w) => ProcessorView { held_key_press: held_after(s.held_key_press, keycode, repeats, pressed), ..s },
        None => s,
    }
}

/// The pointer paired with a device, or the core pointer.
pub open spec fn pointer_of(s: ProcessorView, device: DeviceId) -> DeviceId {
    let i = device_index(s.devices, device);
    if i < s.devices.len() { s.devices[i].attachment } else { VIRTUAL_CORE_POINTER }
}

pub open spec fn with_focus(s: ProcessorView, w: WindowId, focus: bool) -> Seq<WindowEntry> {
    if has_window(s, w) {
        set_geometry(s, w, WindowGeometry { has_focus: focus, ..geometry_of(s, w) })
    } else {
        s.windows
    }
}

/// What focus entering a window emits: always the input-method focus; when
/// the window was not already active, also the device-event switch, the
/// focus event, the modifiers when any are set, the cursor position, and a
/// synthetic press for each key held down.
pub open spec fn focus_in_outputs(s: ProcessorView, window: WindowId, device: DeviceId, x: i32, y: i32, keys: Seq<u8>) -> Seq<Output> {
    if s.active_window == Some(window) {
        seq![Output::ImeFocus { window }]
    } else {
        seq![
            Output::ImeFocus { window },
            Output::ListenDeviceEvents { enabled: true },
            Output::Focused { window, focused: true },
        ] + (if s.modifiers != 0 { seq![Output::ModifiersChanged { window, modifiers: s.modifiers }] } else { seq![] })
            + seq![Output::CursorMoved { window, device: pointer_of(s, device), x, y }]
            + synthetic_keys(window, keys, ElementState::Pressed)
    }
}

pub open spec fn focus_in_state(s: ProcessorView, window: WindowId) -> ProcessorView {
    if s.active_window == Some(window) {
        s
    } else {
        ProcessorView { active_window: Some(window), windows: with_focus(s, window, true), ..s }
    }
}

/// What focus leaving a known window emits: the input-method unfocus; when
/// it was the active window, also the device-event switch, a synthetic
/// release for each key held down, cleared modifiers, and the focus event.
pub open spec fn focus_out_outputs(s: ProcessorView, window: WindowId, keys: Seq<u8>) -> Seq<Output> {
    if !has_window(s, window) {
        seq![]
    } else if s.active_window == Some(window) {
        seq![Output::ImeUnfocus { window }, Output::ListenDeviceEvents { enabled: false }]
            + synthetic_keys(window, keys, ElementState::Released)
            + seq![Output::ModifiersChanged { window, modifiers: 0 }, Output::Focused { window, focused: false }]
    } else {
        seq![Output::ImeUnfocus { window }]
    }
}

pub open spec fn focus_out_state(s: ProcessorView, window: WindowId) -> ProcessorView {
    if !has_window(s, window) {
        s
    } else if s.active_window == Some(window) {
        ProcessorView { active_window: None, held_key_press: None, windows: with_focus(s, window, false), ..s }
    } else {
        ProcessorView { active_window: None, ..s }
    }
}

/// What a touch event over a known window emits: the synthesized cursor
/// motion when it is the first touch, then the touch.
pub open spec fn touch_step(s: ProcessorView, window: WindowId, device: DeviceId, detail: u32, phase: TouchPhase, x: i32, y: i32) -> (ProcessorView, Seq<Output>) {
    if !has_window(s, window) {
        (s, seq![])
    } else {
        let id = detail as u64;
        let t = touch_next(s.first_touch, s.num_touch, id, phase);
        let touch = Output::Touch { window, device, phase, x, y, id };
        (
            ProcessorView { first_touch: t.0, num_touch: t.1, ..s },
            if t.0 == Some(id) {
                seq![Output::CursorMoved { window, device: VIRTUAL_CORE_POINTER, x, y }, touch]
            } else {
                seq![touch]
            },
        )
    }
}

/// The button a button number stands for; the wheel numbers stand for none.
pub open spec fn button_of(detail: u32) -> Option<MouseButton> {
    if detail == 1 {
        Some(MouseButton::Left)
    } else if detail == 2 {
        Some(MouseButton::Middle)
    } else if detail == 3 {
        Some(MouseButton::Right)
    } else if 4 <= detail <= 7 {
        None
    } else if detail == 8 {
        Some(MouseButton::Back)
    } else if detail == 9 {
        Some(MouseButton::Forward)
    } else {
        Some(MouseButton::Other(detail as u16))
    }
}

/// A device-hierarchy notification, entry by entry: a master device added
/// or removed asks for the hierarchy again and is announced as added; a
/// slave device added or removed is announced as removed, then forgotten.
pub open spec fn hierarchy_step(ds: Seq<DeviceView>, changes: Seq<HierarchyChange>) -> (Seq<DeviceView>, Seq<Output>)
    decreases changes.len(),
{
    if changes.len() == 0 {
        (ds, seq![])
    } else {
        let c = changes.last();
        let prev = hierarchy_step(ds, changes.drop_last());
        if c.flags & (MASTER_ADDED | MASTER_REMOVED) != 0 {
            (prev.0, prev.1 + seq![Output::ReinitDevices { device: c.device }, Output::DeviceAdded { device: c.device }])
        } else if c.flags & (SLAVE_ADDED | SLAVE_REMOVED) != 0 {
            let i = device_index(prev.0, c.device);
            (
                if i < prev.0.len() { prev.0.remove(i) } else { prev.0 },
                prev.1.push(Output::DeviceRemoved { device: c.device }),
            )
        } else {
            prev
        }
    }
}

/// What finishes a geometry notification: the pending adjusted size asked
/// for again if needed, then the resize event.
pub open spec fn finish_outputs(g: WindowGeometry, window: WindowId, resized: bool, observed: (u32, u32), wm_drops_resizes: bool) -> Seq<Output> {
    let again = match settle_request(g, observed, wm_drops_resizes) {
        Some(a) => seq![Output::RequestInnerSize { window, width: a.0, height: a.1 }],
        None => seq![],
    };
    if resized {
        again.push(Output::Resized { window, width: observed.0, height: observed.1 })
    } else {
        again
    }
}

pub open spec fn finish_state(g: WindowGeometry, observed: (u32, u32), wm_drops_resizes: bool) -> WindowGeometry {
    if settle_request(g, observed, wm_drops_resizes) is None {
        WindowGeometry { dpi_adjusted: None, ..g }
    } else {
        g
    }
}

/// The monitor a root-relative notification is checked against: the one
/// looked up, or a dummy that keeps the scale factor.
pub open spec fn monitor_or_dummy(g: WindowGeometry, m: Option<MonitorInfo>) -> MonitorInfo {
    match m {
        Some(m) => m,
        None => MonitorInfo { name: g.last_monitor.name, scale: g.last_monitor.scale, dummy: true },
    }
}

/// A whole geometry notification of a known window: the window state, the
/// outputs, and the prompt it stops at when the scale factor changed.
pub open spec fn configure_step(g: WindowGeometry, n: ConfigureNotify, extents: FrameExtents, monitor: Option<MonitorInfo>, wm: bool) -> (WindowGeometry, Seq<Output>, Option<PendingScale>) {
    let g1 = configure_state(g, n);
    let moved = configure_moved(g, n);
    let outer = outer_position_of(g1, moved, notify_position(n), extents);
    let g2 = outer_state(g1, moved, notify_position(n), extents);
    let front = if moved { seq![Output::Moved { window: n.window, x: outer.0, y: outer.1 }] } else { seq![] };
    let resized = configure_resized(g, n);
    let observed = notify_size(n);
    let m = monitor_or_dummy(g2, monitor);
    let prompt = if root_relative(n) { monitor_prompt(g2, m, observed) } else { None };
    let g3 = if root_relative(n) { monitor_state(g2, m) } else { g2 };
    match prompt {
        Some(p) => (
            g3,
            front.push(Output::ScaleFactorChanged {
                window: n.window,
                old_scale: p.old_scale,
                new_scale: p.new_scale,
                width: p.size.0,
                height: p.size.1,
            }),
            Some(PendingScale { window: n.window, start: p.size, resized, observed, wm_drops_resizes: wm }),
        ),
        None => (finish_state(g3, observed, wm), front + finish_outputs(g3, n.window, resized, observed, wm), None),
    }
}

/// The application's answer to a scale prompt: the chosen size is asked
/// for when it differs from where the prompt started, which also forces a
/// resize event; then the notification finishes.
pub open spec fn answer_step(s: ProcessorView, chosen: (u32, u32)) -> (ProcessorView, Seq<Output>) {
    match s.pending {
        Some(p) => if has_window(s, p.window) {
            let g = geometry_of(s, p.window);
            let changed = chosen != p.start;
            let g1 = if changed { WindowGeometry { dpi_adjusted: Some(chosen), ..g } } else { g };
            let asked = if changed {
                seq![Output::RequestInnerSize { window: p.window, width: chosen.0, height: chosen.1 }]
            } else {
                seq![]
            };
            (
                ProcessorView {
                    windows: set_geometry(s, p.window, finish_state(g1, p.observed, p.wm_drops_resizes)),
                    pending: None,
                    ..s
                },
                asked + finish_outputs(g1, p.window, p.resized || changed, p.observed, p.wm_drops_resizes),
            )
        } else {
            (ProcessorView { pending: None, ..s }, seq![])
        },
        None => (s, seq![]),
    }
}

/// Pointer motion over a known window: the cursor position is recorded and
/// reported when it changed; the valuators of a known source device then
/// give scroll and axis motion.
pub open spec fn motion_step(s: ProcessorView, window: WindowId, device: DeviceId, source: DeviceId, x: i32, y: i32, vals: Seq<(u32, i64)>) -> (ProcessorView, Seq<Output>) {
    if !has_window(s, window) {
        (s, seq![])
    } else {
        let g = geometry_of(s, window);
        let moved = if g.cursor_pos != Some((x, y)) { seq![Output::CursorMoved { window, device, x, y }] } else { seq![] };
        let s1 = ProcessorView { windows: set_geometry(s, window, WindowGeometry { cursor_pos: Some((x, y)), ..g }), ..s };
        let di = device_index(s.devices, source);
        if di < s.devices.len() {
            let d = s.devices[di];
            let run = scroll_run(d.axes, vals, window, device);
            (ProcessorView { devices: s.devices.update(di, DeviceView { axes: run.0, ..d }), ..s1 }, moved + run.1)
        } else {
            (s1, moved)
        }
    }
}

/// What a client message does: a close request, a ping to send back, or a
/// drag-and-drop message.
pub open spec fn client_message_step(s: ProcessorView, window: WindowId, message_type: u32, data: [u32; 5]) -> (ProcessorView, Seq<Output>) {
    if data[0] == s.atoms.wm_delete_window {
        (s, seq![Output::CloseRequested { window }])
    } else if data[0] == s.atoms.net_wm_ping {
        (s, seq![Output::ReplyPing { window, data }])
    } else if message_type == s.atoms.xdnd_enter {
        (ProcessorView { dnd: enter_state(s.dnd, data), ..s }, enter_outputs(data))
    } else if message_type == s.atoms.xdnd_position {
        (
            ProcessorView { dnd: position_state(s.dnd, data, s.atoms.text_uri_list), ..s },
            position_outputs(s.dnd, window, data, s.atoms.text_uri_list),
        )
    } else if message_type == s.atoms.xdnd_drop {
        (ProcessorView { dnd: idle(), ..s }, drop_outputs(s.dnd, window, data))
    } else if message_type == s.atoms.xdnd_leave {
        (ProcessorView { dnd: idle(), ..s }, seq![Output::HoveredFileCancelled { window }])
    } else {
        (s, seq![])
    }
}

/// Whether an output reports a geometry change.
pub open spec fn reports_geometry(o: Output) -> bool {
    o is Moved || o is Resized || o is ScaleFactorChanged
}

/// Taking in the same geometry notification a second time, with the same
/// answers from the server, reports no move, resize or scale change and
/// raises no prompt.
pub proof fn lemma_configure_repeat_is_quiet(
    g: WindowGeometry,
    n: ConfigureNotify,
    extents: FrameExtents,
    monitor: Option<MonitorInfo>,
    wm: bool,
)
    ensures
        ({
            let again = configure_step(configure_step(g, n, extents, monitor, wm).0, n, extents, monitor, wm);
            &&& again.2 is None
            &&& forall|i: int| 0 <= i < again.1.len() ==> !reports_geometry(#[trigger] again.1[i])
        }),
{
    let first = configure_step(g, n, extents, monitor, wm);
    let g1 = first.0;
    assert(g1.size == Some(notify_size(n)));
    assert(!configure_resized(g1, n));
    assert(root_relative(n) ==> g1.inner_position == Some(notify_position(n)));
    assert(!configure_moved(g1, n));
    assert(g1.position is Some);
    let again = configure_step(g1, n, extents, monitor, wm);
    let g2 = outer_state(configure_state(g1, n), false, notify_position(n), extents);
    assert(g2.last_monitor == g1.last_monitor);
    if root_relative(n) {
        match monitor {
            Some(m) => {
                if !m.dummy {
                    assert(g1.last_monitor.scale == m.scale);
                }
            },
            None => {},
        }
    }
    assert(again.2 is None);
    let fin = finish_outputs(monitor_state(g2, monitor_or_dummy(g2, monitor)), n.window, false, notify_size(n), wm);
    assert forall|i: int| 0 <= i < again.1.len() implies !reports_geometry(#[trigger] again.1[i]) by {
        assert(again.1 == seq![] + fin || again.1 == fin);
    }
}

/// Whether the drag-and-drop message types are told apart.
pub open spec fn distinct_dnd_atoms(a: Atoms) -> bool {
    a.xdnd_enter != a.xdnd_position && a.xdnd_enter != a.xdnd_drop && a.xdnd_enter != a.xdnd_leave
        && a.xdnd_position != a.xdnd_drop && a.xdnd_position != a.xdnd_leave && a.xdnd_drop != a.xdnd_leave
}

/// From any state, a leave message ends the drag-and-drop session and emits
/// exactly one cancellation, and nothing else.
pub proof fn lemma_leave_resets_session(s: ProcessorView, window: WindowId, data: [u32; 5])
    requires
        distinct_dnd_atoms(s.atoms),
        data[0] != s.atoms.wm_delete_window,
        data[0] != s.atoms.net_wm_ping,
    ensures
        ({
            let r = client_message_step(s, window, s.atoms.xdnd_leave, data);
            r.0.dnd == idle() && r.1 == seq![Output::HoveredFileCancelled { window }]
                && r.0 == ProcessorView { dnd: idle(), ..s }
        }),
{
}

/// The dispatcher's transition on one event; `bytes` are the bytes of the
/// valuator mask of a motion event.
pub open spec fn step(s: ProcessorView, ev: RawEvent, bytes: Seq<u8>) -> (ProcessorView, Seq<Output>) {
    match ev {
        RawEvent::ClientMessage { window, message_type, data } => client_message_step(s, window, message_type, data),
        RawEvent::SelectionNotify { requestor, property } => {
            (s, if property == s.atoms.xdnd_selection { seq![Output::ReadDropData { window: requestor }] } else { seq![] })
        },
        RawEvent::ConfigureNotify { notify, extents, monitor, wm_drops_resizes } => {
            if has_window(s, notify.window) {
                let r = configure_step(geometry_of(s, notify.window), notify, extents, monitor, wm_drops_resizes);
                (ProcessorView { windows: set_geometry(s, notify.window, r.0), pending: r.2, ..s }, r.1)
            } else {
                (s, seq![])
            }
        },
        RawEvent::ReparentNotify { window } => (
            ProcessorView {
                windows: if has_window(s, window) {
                    set_geometry(s, window, WindowGeometry { frame_extents: None, ..geometry_of(s, window) })
                } else {
                    s.windows
                },
                ..s
            },
            seq![Output::UpdateWmInfo],
        ),
        RawEvent::MapNotify { window } => {
            (s, seq![Output::Focused { window, focused: has_window(s, window) && geometry_of(s, window).has_focus }])
        },
        RawEvent::DestroyNotify { window } => (
            ProcessorView {
                windows: if has_window(s, window) { s.windows.remove(window_index(s.windows, window)) } else { s.windows },
                ..s
            },
            seq![Output::ImeRemoveContext { window }, Output::Destroyed { window }],
        ),
        RawEvent::VisibilityNotify { window, fully_obscured } => (s, seq![Output::Occluded { window, occluded: fully_obscured }]),
        RawEvent::Expose { window, count } => (s, if count == 0 { seq![Output::RedrawRequested { window }] } else { seq![] }),
        RawEvent::Key { keycode, pressed, repeats } => (key_state(s, keycode, pressed, repeats), key_outputs(s, keycode, pressed, repeats)),
        RawEvent::Button { window, device, detail, pressed, emulated } => (
            s,
            if emulated {
                seq![]
            } else {
                match button_of(detail) {
                    Some(button) => seq![Output::MouseInput { window, device, state: state_of(pressed), button }],
                    None => seq![],
                }
            },
        ),
        RawEvent::Motion { window, device, source, x, y, mask, values } => motion_step(s, window, device, source, x, y, valuators(bytes, values@)),
        RawEvent::Enter { window, device, source, x, y, snapshot } => (
            ProcessorView { devices: entered_devices(s.devices, snapshot@.map_values(|d: Device| d@), source), ..s },
            if has_window(s, window) {
                seq![Output::CursorEntered { window, device }, Output::CursorMoved { window, device, x, y }]
            } else {
                seq![]
            },
        ),
        RawEvent::Leave { window, device } => (s, if has_window(s, window) { seq![Output::CursorLeft { window, device }] } else { seq![] }),
        RawEvent::FocusIn { window, device, x, y, pressed_keys } => (focus_in_state(s, window), focus_in_outputs(s, window, device, x, y, pressed_keys@)),
        RawEvent::FocusOut { window, pressed_keys } => (focus_out_state(s, window), focus_out_outputs(s, window, pressed_keys@)),
        RawEvent::Touch { window, device, detail, phase, x, y } => touch_step(s, window, device, detail, phase, x, y),
        RawEvent::RawButton { device, detail, pressed, emulated } => {
            (s, if emulated { seq![Output::DeviceButton { device, button: detail, state: state_of(pressed) }] } else { seq![] })
        },
        RawEvent::RawMotion { device, mask, values } => (s, raw_motion_outputs(device, valuators(bytes, values@))),
        RawEvent::RawKey { source, keycode, pressed } => {
            (s, if keycode < KEYCODE_OFFSET as u32 { seq![] } else { seq![Output::DeviceKey { device: source, keycode, state: state_of(pressed) }] })
        },
        RawEvent::Hierarchy { changes } => {
            let h = hierarchy_step(s.devices, changes@);
            (ProcessorView { devices: h.0, ..s }, h.1)
        },
        RawEvent::NewKeyboard { device, keycodes_changed, geometry_changed } => (
            s,
            if device == s.core_keyboard_id && (keycodes_changed || geometry_changed) { seq![Output::ReloadKeymap] } else { seq![] },
        ),
        RawEvent::StateNotify { modifiers } => (
            ProcessorView { modifiers, ..s },
            match s.active_window {
                Some(w) => if modifiers != s.modifiers { seq![Output::ModifiersChanged { window: w, modifiers }] } else { seq![] },
                None => seq![],
            },
        ),
        RawEvent::RandrNotify { previous, current } => (
            s,
            match previous {
                Some(prev) => monitors_outputs(s.windows, prev@, current@),
                None => seq![],
            },
        ),
        RawEvent::Other => (s, seq![]),
    }
}

/// The scale factor of the first monitor with this name.
pub open spec fn scale_named(ms: Seq<MonitorInfo>, name: Seq<char>) -> Option<u64>
    decreases ms.len(),
{
    if ms.len() == 0 {
        None
    } else if ms[0].name@ == name {
        Some(ms[0].scale)
    } else {
        scale_named(ms.subrange(1, ms.len() as int), name)
    }
}

/// A rescale request for each window last seen on monitor `m`, in registry
/// order; `previous` is the monitor's former scale factor, when known.
pub open spec fn rescale_windows(ws: Seq<WindowEntry>, m: MonitorInfo, previous: Option<u64>) -> Seq<Output>
    decreases ws.len(),
{
    if ws.len() == 0 {
        seq![]
    } else {
        let rest = rescale_windows(ws.drop_last(), m, previous);
        let w = ws.last();
        if w.geometry.last_monitor.name@ == m.name@ {
            rest.push(Output::MonitorScaleChanged {
                window: w.id,
                old_scale: match previous {
                    Some(p) => p,
                    None => w.geometry.last_monitor.scale,
                },
                new_scale: m.scale,
            })
        } else {
            rest
        }
    }
}

/// What a monitor-list change emits: for each current monitor whose scale
/// factor is not the one the previous list gave it, the rescale requests of
/// the windows on it.
pub open spec fn monitors_outputs(ws: Seq<WindowEntry>, previous: Seq<MonitorInfo>, current: Seq<MonitorInfo>) -> Seq<Output>
    decreases current.len(),
{
    if current.len() == 0 {
        seq![]
    } else {
        let rest = monitors_outputs(ws, previous, current.drop_last());
        let m = current.last();
        let p = scale_named(previous, m.name@);
        if p != Some(m.scale) { rest + rescale_windows(ws, m, p) } else { rest }
    }
}

fn find_scale(ms: &Vec<MonitorInfo>, name: &String) -> (r: Option<u64>)
    ensures
        r == scale_named(ms@, name@),
{
    let mut i: usize = 0;
    assert(ms@.subrange(0, ms@.len() as int) == ms@);
    while i < ms.len()
        invariant
            i <= ms@.len(),
            scale_named(ms@, name@) == scale_named(ms@.subrange(i as int, ms@.len() as int), name@),
        decreases ms.len() - i,
    {
        let ghost tail = ms@.subrange(i as int, ms@.len() as int);
        assert(tail[0] == ms@[i as int]);
        assert(tail.subrange(1, tail.len() as int) == ms@.subrange(i + 1, ms@.len() as int));
        if ms[i].name == *name {
            return Some(ms[i].scale);
        }
        i += 1;
    }
    None
}

fn push_rescales(ws: &Vec<WindowEntry>, m: &MonitorInfo, previous: Option<u64>, out: &mut Vec<Output>)
    ensures
        final(out)@ == old(out)@ + rescale_windows(ws@, *m, previous),
{
    let ghost start = out@;
    let mut i: usize = 0;
    while i < ws.len()
        invariant
            i <= ws@.len(),
            out@ == start + rescale_windows(ws@.subrange(0, i as int), *m, previous),
        decreases ws.len() - i,
    {
        assert(ws@.subrange(0, i + 1).drop_last() == ws@.subrange(0, i as int));
        let g = &ws[i].geometry;
        if g.last_monitor.name == m.name {
            let old_scale = match previous {
                Some(p) => p,
                None => g.last_monitor.scale,
            };
            out.push(Output::MonitorScaleChanged { window: ws[i].id, old_scale, new_scale: m.scale });
        }
        i += 1;
        assert(out@ =~= start + rescale_windows(ws@.subrange(0, i as int), *m, previous));
    }
    assert(ws@.subrange(0, ws.len() as int) == ws@);
}

fn monitor_changes(ws: &Vec<WindowEntry>, previous: &Vec<MonitorInfo>, current: &Vec<MonitorInfo>) -> (out: Vec<Output>)
    ensures
        out@ == monitors_outputs(ws@, previous@, current@),
{
    let mut out: Vec<Output> = Vec::new();
    let mut i: usize = 0;
    while i < current.len()
        invariant
            i <= current@.len(),
            out@ == monitors_outputs(ws@, previous@, current@.subrange(0, i as int)),
        decreases current.len() - i,
    {
        assert(current@.subrange(0, i + 1).drop_last() == current@.subrange(0, i as int));
        let m = &current[i];
        let p = find_scale(previous, &m.name);
        let changed = match p {
            Some(s) => s != m.scale,
            None => true,
        };
        if changed {
            push_rescales(ws, m, p, &mut out);
        }
        i += 1;
    }
    assert(current@.subrange(0, current.len() as int) == current@);
    out
}

fn one(o: Output) -> (r: Vec<Output>)
    ensures
        r@ == seq![o],
{
    let mut r: Vec<Output> = Vec::new();
    r.push(o);
    assert(r@ =~= seq![o]);
    r
}

fn push_synthetic_keys(window: WindowId, keys: &Vec<u8>, state: ElementState, out: &mut Vec<Output>)
    ensures
        final(out)@ == old(out)@ + synthetic_keys(window, keys@, state),
{
    let valid = filter_valid_keycodes(keys);
    let ghost start = out@;
    let mut i: usize = 0;
    while i < valid.len()
        invariant
            i <= valid@.len(),
            valid@ == valid_keycodes(keys@),
            out@ =~= start + Seq::new(
                i as nat,
                |k: int|
                    Output::KeyboardInput {
                        window,
                        device: VIRTUAL_CORE_KEYBOARD,
                        keycode: valid@[k] as u32,
                        state,
                        repeat: false,
                        synthetic: true,
                    },
            ),
        decreases valid@.len() - i,
    {
        out.push(Output::KeyboardInput {
            window,
            device: VIRTUAL_CORE_KEYBOARD,
            keycode: valid[i] as u32,
            state,
            repeat: false,
            synthetic: true,
        });
        i += 1;
    }
    assert(out@ =~= start + synthetic_keys(window, keys@, state));
}

fn finish_configure(
    g: &mut WindowGeometry,
    window: WindowId,
    resized: bool,
    observed: (u32, u32),
    wm_drops_resizes: bool,
    out: &mut Vec<Output>,
)
    ensures
        *final(g) == finish_state(*old(g), observed, wm_drops_resizes),
        final(out)@ == old(out)@ + finish_outputs(*old(g), window, resized, observed, wm_drops_resizes),
{
    let ghost start = out@;
    let again = g.settle_dpi_adjusted(observed, wm_drops_resizes);
    if let Some(a) = again {
        out.push(Output::RequestInnerSize { window, width: a.0, height: a.1 });
    }
    if resized {
        out.push(Output::Resized { window, width: observed.0, height: observed.1 });
    }
    assert(out@ =~= start + finish_outputs(*old(g), window, resized, observed, wm_drops_resizes));
}

fn button_from(detail: u32) -> (r: Option<MouseButton>)
    ensures
        r == button_of(detail),
{
    if detail == 1 {
        Some(MouseButton::Left)
    } else if detail == 2 {
        Some(MouseButton::Middle)
    } else if detail == 3 {
        Some(MouseButton::Right)
    } else if 4 <= detail && detail <= 7 {
        None
    } else if detail == 8 {
        Some(MouseButton::Back)
    } else if detail == 9 {
        Some(MouseButton::Forward)
    } else {
        Some(MouseButton::Other(detail as u16))
    }
}

fn element_state(pressed: bool) -> (r: ElementState)
    ensures
        r == state_of(pressed),
{
    if pressed { ElementState::Pressed } else { ElementState::Released }
}

impl EventProcessor {
    /// A dispatcher with no windows, devices, session or focus.
    pub fn new(atoms: Atoms, core_keyboard_id: u16, modifiers: u32) -> (r: EventProcessor)
        ensures
            r@.atoms == atoms,
            r@.dnd == idle(),
            r@.devices.len() == 0,
            r@.windows.len() == 0,
            r@.modifiers == modifiers,
            r@.core_keyboard_id == core_keyboard_id,
            r@.num_touch == 0 && r@.first_touch is None && r@.held_key_press is None,
            r@.active_window is None && !r@.is_composing && r@.pending is None,
    {
        EventProcessor {
            atoms,
            dnd: DndState::new(),
            devices: DeviceRegistry::new(),
            windows: WindowRegistry::new(),
            modifiers,
            core_keyboard_id,
            num_touch: 0,
            held_key_press: None,
            first_touch: None,
            active_window: None,
            is_composing: false,
            pending: None,
        }
    }

    /// Whether a window with this id is known.
    pub fn window_exists(&self, window: WindowId) -> (r: bool)
        ensures
            r == has_window(self@, window),
    {
        self.windows.window_exists(window)
    }

    /// The outer position a geometry notification would give its window,
    /// for looking up the monitor it falls on; `None` for an unknown window.
    pub fn predict_outer_position(&self, n: &ConfigureNotify, extents: FrameExtents) -> (r: Option<(i64, i64)>)
        ensures
            r == (if has_window(self@, n.window) {
                let g = geometry_of(self@, n.window);
                Some(outer_position_of(configure_state(g, *n), configure_moved(g, *n), notify_position(*n), extents))
            } else {
                None
            }),
    {
        match self.windows.find(n.window) {
            Some(i) => Some(self.windows.entries[i].geometry.predict_outer_position(n, extents)),
            None => None,
        }
    }

    fn on_client_message(&mut self, window: WindowId, message_type: u32, data: [u32; 5]) -> (out: Vec<Output>)
        ensures
            (final(self)@, out@) == client_message_step(old(self)@, window, message_type, data),
    {
        if data[0] == self.atoms.wm_delete_window {
            one(Output::CloseRequested { window })
        } else if data[0] == self.atoms.net_wm_ping {
            one(Output::ReplyPing { window, data })
        } else if message_type == self.atoms.xdnd_enter {
            self.dnd.enter(data)
        } else if message_type == self.atoms.xdnd_position {
            let file_list_type = self.atoms.text_uri_list;
            self.dnd.position(window, data, file_list_type)
        } else if message_type == self.atoms.xdnd_drop {
            self.dnd.drop_files(window, data)
        } else if message_type == self.atoms.xdnd_leave {
            self.dnd.leave(window)
        } else {
            Vec::new()
        }
    }

    fn on_key(&mut self, keycode: u32, pressed: bool, repeats: bool) -> (out: Vec<Output>)
        ensures
            final(self)@ == key_state(old(self)@, keycode, pressed, repeats),
            out@ == key_outputs(old(self)@, keycode, pressed, repeats),
    {
        let window = match self.active_window {
            Some(w) => w,
            None => return Vec::new(),
        };
        let repeat = track_key_repeat(&mut self.held_key_press, keycode, repeats, pressed);
        if keycode != 0 && !self.is_composing {
            one(Output::KeyboardInput {
                window,
                device: VIRTUAL_CORE_KEYBOARD,
                keycode,
                state: element_state(pressed),
                repeat,
                synthetic: false,
            })
        } else {
            Vec::new()
        }
    }

    fn on_touch(&mut self, window: WindowId, device: DeviceId, detail: u32, phase: TouchPhase, x: i32, y: i32) -> (out: Vec<Output>)
        ensures
            (final(self)@, out@) == touch_step(old(self)@, window, device, detail, phase, x, y),
    {
        if !self.windows.window_exists(window) {
            return Vec::new();
        }
        let id = detail as u64;
        let mut out: Vec<Output> = Vec::new();
        if is_first_touch(&mut self.first_touch, &mut self.num_touch, id, phase) {
            out.push(Output::CursorMoved { window, device: VIRTUAL_CORE_POINTER, x, y });
        }
        out.push(Output::Touch { window, device, phase, x, y, id });
        proof {
            let t = touch_step(old(self)@, window, device, detail, phase, x, y);
            assert(out@ =~= t.1);
        }
        out
    }

    fn on_focus_in(&mut self, window: WindowId, device: DeviceId, x: i32, y: i32, pressed_keys: &Vec<u8>) -> (out: Vec<Output>)
        ensures
            final(self)@ == focus_in_state(old(self)@, window),
            out@ == focus_in_outputs(old(self)@, window, device, x, y, pressed_keys@),
    {
        let mut out = one(Output::ImeFocus { window });
        let already = match self.active_window {
            Some(w) => w == window,
            None => false,
        };
        if already {
            return out;
        }
        self.active_window = Some(window);
        out.push(Output::ListenDeviceEvents { enabled: true });
        if let Some(i) = self.windows.find(window) {
            self.windows.entries[i].geometry.has_focus = true;
        }
        out.push(Output::Focused { window, focused: true });
        if self.modifiers != 0 {
            out.push(Output::ModifiersChanged { window, modifiers: self.modifiers });
        }
        let pointer = match self.devices.find(device) {
            Some(di) => self.devices.devices[di].attachment,
            None => VIRTUAL_CORE_POINTER,
        };
        out.push(Output::CursorMoved { window, device: pointer, x, y });
        let ghost before = out@;
        push_synthetic_keys(window, pressed_keys, ElementState::Pressed, &mut out);
        proof {
            let s = old(self)@;
            assert(before =~= seq![
                Output::ImeFocus { window },
                Output::ListenDeviceEvents { enabled: true },
                Output::Focused { window, focused: true },
            ] + (if s.modifiers != 0 { seq![Output::ModifiersChanged { window, modifiers: s.modifiers }] } else { seq![] })
                + seq![Output::CursorMoved { window, device: pointer_of(s, device), x, y }]);
            assert(self.windows.entries@ =~= with_focus(s, window, true));
        }
        out
    }

    fn on_focus_out(&mut self, window: WindowId, pressed_keys: &Vec<u8>) -> (out: Vec<Output>)
        ensures
            final(self)@ == focus_out_state(old(self)@, window),
            out@ == focus_out_outputs(old(self)@, window, pressed_keys@),
    {
        let i = match self.windows.find(window) {
            Some(i) => i,
            None => return Vec::new(),
        };
        let mut out = one(Output::ImeUnfocus { window });
        let was_active = match self.active_window {
            Some(w) => w == window,
            None => false,
        };
        self.active_window = None;
        if was_active {
            out.push(Output::ListenDeviceEvents { enabled: false });
            push_synthetic_keys(window, pressed_keys, ElementState::Released, &mut out);
            self.held_key_press = None;
            out.push(Output::ModifiersChanged { window, modifiers: 0 });
            self.windows.entries[i].geometry.has_focus = false;
            out.push(Output::Focused { window, focused: false });
            proof {
                let s = old(self)@;
                assert(out@ =~= focus_out_outputs(s, window, pressed_keys@));
                assert(self.windows.entries@ =~= with_focus(s, window, false));
            }
        }
        out
    }
}

impl EventProcessor {
    fn on_configure(&mut self, n: ConfigureNotify, extents: FrameExtents, monitor: Option<MonitorInfo>, wm_drops_resizes: bool) -> (out: Vec<Output>)
        ensures
            has_window(old(self)@, n.window) ==> ({
                let r = configure_step(geometry_of(old(self)@, n.window), n, extents, monitor, wm_drops_resizes);
                final(self)@ == ProcessorView {
                    windows: set_geometry(old(self)@, n.window, r.0),
                    pending: r.2,
                    ..old(self)@
                } && out@ == r.1
            }),
            !has_window(old(self)@, n.window) ==> final(self)@ == old(self)@ && out@ == Seq::<Output>::empty(),
    {
        let i = match self.windows.find(n.window) {
            Some(i) => i,
            None => return Vec::new(),
        };
        let ghost g0 = self.windows.entries@[i as int].geometry;
        let window = n.window;
        let observed = (n.width as u32, n.height as u32);
        let g = &mut self.windows.entries[i].geometry;
        let (resized, moved) = g.apply_configure(&n);
        let outer = g.outer_position(moved, (n.x as i32, n.y as i32), extents);
        let mut out: Vec<Output> = Vec::new();
        if moved {
            out.push(Output::Moved { window, x: outer.0, y: outer.1 });
        }
        let ghost front = out@;
        let prompt = if n.response_type & 0x80u8 == 0 {
            let m = match monitor {
                Some(m) => m,
                None => MonitorInfo { name: g.last_monitor.name.clone(), scale: g.last_monitor.scale, dummy: true },
            };
            g.observe_monitor(m, observed)
        } else {
            None
        };
        let pending = match prompt {
            Some(p) => {
                out.push(Output::ScaleFactorChanged {
                    window,
                    old_scale: p.old_scale,
                    new_scale: p.new_scale,
                    width: p.size.0,
                    height: p.size.1,
                });
                Some(PendingScale { window, start: p.size, resized, observed, wm_drops_resizes })
            },
            None => {
                finish_configure(g, window, resized, observed, wm_drops_resizes, &mut out);
                None
            },
        };
        self.pending = pending;
        proof {
            let r = configure_step(g0, n, extents, monitor, wm_drops_resizes);
            assert(self.windows.entries@ =~= set_geometry(old(self)@, n.window, r.0));
        }
        out
    }

    /// Hands over the size the application chose after a scale-factor
    /// prompt, and finishes the geometry notification that raised it.
    pub fn scale_factor_answered(&mut self, chosen: (u32, u32)) -> (out: Vec<Output>)
        ensures
            (final(self)@, out@) == answer_step(old(self)@, chosen),
    {
        let p = match self.pending {
            Some(p) => p,
            None => return Vec::new(),
        };
        self.pending = None;
        let i = match self.windows.find(p.window) {
            Some(i) => i,
            None => return Vec::new(),
        };
        let g = &mut self.windows.entries[i].geometry;
        let mut out: Vec<Output> = Vec::new();
        let changed = g.scale_size_chosen(p.start, chosen);
        if changed {
            out.push(Output::RequestInnerSize { window: p.window, width: chosen.0, height: chosen.1 });
        }
        finish_configure(g, p.window, p.resized || changed, p.observed, p.wm_drops_resizes, &mut out);
        proof {
            let r = answer_step(old(self)@, chosen);
            assert(out@ =~= r.1);
            assert(self.windows.entries@ =~= r.0.windows);
        }
        out
    }

    fn on_motion(&mut self, window: WindowId, device: DeviceId, source: DeviceId, x: i32, y: i32, vals: &Vec<(u32, i64)>) -> (out: Vec<Output>)
        ensures
            (final(self)@, out@) == motion_step(old(self)@, window, device, source, x, y, vals@),
    {
        let i = match self.windows.find(window) {
            Some(i) => i,
            None => return Vec::new(),
        };
        let mut out: Vec<Output> = Vec::new();
        if self.windows.entries[i].geometry.set_cursor_pos((x, y)) {
            out.push(Output::CursorMoved { window, device, x, y });
        }
        let ghost s1 = self@;
        assert(s1.windows =~= motion_step(old(self)@, window, device, source, x, y, vals@).0.windows);
        let di = match self.devices.find(source) {
            Some(di) => di,
            None => return out,
        };
        proof { lemma_device_index_bounds(self@.devices, source); }
        let mut more = self.devices.devices[di].scroll_motion(window, device, vals);
        out.append(&mut more);
        proof {
            let r = motion_step(old(self)@, window, device, source, x, y, vals@);
            assert(self@.devices =~= r.0.devices);
            assert(out@ =~= r.1);
        }
        out
    }

    fn on_hierarchy(&mut self, changes: &Vec<HierarchyChange>) -> (out: Vec<Output>)
        ensures
            final(self)@ == (ProcessorView { devices: hierarchy_step(old(self)@.devices, changes@).0, ..old(self)@ }),
            out@ == hierarchy_step(old(self)@.devices, changes@).1,
    {
        let mut out: Vec<Output> = Vec::new();
        let mut k: usize = 0;
        while k < changes.len()
            invariant
                k <= changes@.len(),
                self@ == (ProcessorView { devices: self@.devices, ..old(self)@ }),
                (self@.devices, out@) == hierarchy_step(old(self)@.devices, changes@.subrange(0, k as int)),
            decreases changes@.len() - k,
        {
            assert(changes@.subrange(0, k + 1).drop_last() == changes@.subrange(0, k as int));
            let c = changes[k];
            if c.flags & (MASTER_ADDED | MASTER_REMOVED) != 0 {
                out.push(Output::ReinitDevices { device: c.device });
                out.push(Output::DeviceAdded { device: c.device });
            } else if c.flags & (SLAVE_ADDED | SLAVE_REMOVED) != 0 {
                out.push(Output::DeviceRemoved { device: c.device });
                self.devices.remove(c.device);
            }
            k += 1;
            assert(out@ =~= hierarchy_step(old(self)@.devices, changes@.subrange(0, k as int)).1);
        }
        assert(changes@.subrange(0, changes.len() as int) == changes@);
        out
    }
}

/// Whether an output is the empty preedit of `window`, with no cursor.
pub open spec fn empty_preedit(o: Output, window: WindowId) -> bool {
    match o {
        Output::ImePreedit { window: w, text, cursor } => w == window && text@.len() == 0 && cursor is None,
        _ => false,
    }
}

/// What an input-method event emits, and whether a composition is running
/// afterwards.
pub open spec fn ime_outputs_ok(window: WindowId, composing: bool, ev: ImeEvent, out: Seq<Output>) -> bool {
    match ev {
        ImeEvent::Enabled => out == seq![Output::ImeEnabled { window }],
        ImeEvent::Start => out.len() == 1 && empty_preedit(out[0], window),
        ImeEvent::Update(text, cursor) => if composing {
            out == seq![Output::ImePreedit { window, text, cursor }]
        } else {
            out.len() == 0
        },
        ImeEvent::Commit(text) => out.len() == 2 && empty_preedit(out[0], window) && out[1] == Output::ImeCommit { window, text },
        ImeEvent::End => out.len() == 1 && empty_preedit(out[0], window),
        ImeEvent::Disabled => out == seq![Output::ImeDisabled { window }],
    }
}

pub open spec fn composing_after(composing: bool, ev: ImeEvent) -> bool {
    match ev {
        ImeEvent::Enabled => composing,
        ImeEvent::Start => true,
        ImeEvent::Update(..) => composing,
        _ => false,
    }
}

/// The known devices after a listing of the hierarchy is taken in, each
/// replacing the device of the same id.
pub open spec fn listed_devices(ds: Seq<DeviceView>, list: Seq<DeviceView>) -> Seq<DeviceView>
    decreases list.len(),
{
    if list.len() == 0 {
        ds
    } else {
        let prev = listed_devices(ds, list.drop_last());
        let d = list.last();
        let i = device_index(prev, d.id);
        if i < prev.len() { prev.update(i, d) } else { prev.push(d) }
    }
}

impl EventProcessor {
    /// Consumes one decoded event and returns what it emits, in order.
    pub fn process_event(&mut self, ev: RawEvent) -> (out: Vec<Output>)
        requires
            ev.mask_in_bounds(),
        ensures
            exists|bytes: Seq<u8>| bytes.len() == 4 * ev.mask_words()
                && (#[trigger] step(old(self)@, ev, bytes)) == (final(self)@, out@),
    {
        let ghost ev0 = ev;
        match ev {
            RawEvent::ClientMessage { window, message_type, data } => {
                let out = self.on_client_message(window, message_type, data);
                assert(step(old(self)@, ev0, seq![]) == (self@, out@));
                out
            },
            RawEvent::SelectionNotify { requestor, property } => {
                let out = if property == self.atoms.xdnd_selection {
                    one(Output::ReadDropData { window: requestor })
                } else {
                    Vec::new()
                };
                assert(step(old(self)@, ev0, seq![]) == (self@, out@));
                out
            },
            RawEvent::ConfigureNotify { notify, extents, monitor, wm_drops_resizes } => {
                let out = self.on_configure(notify, extents, monitor, wm_drops_resizes);
                assert(step(old(self)@, ev0, seq![]) == (self@, out@));
                out
            },
            RawEvent::ReparentNotify { window } => {
                if let Some(i) = self.windows.find(window) {
                    self.windows.entries[i].geometry.frame_extents = None;
                }
                let out = one(Output::UpdateWmInfo);
                assert(self@.windows =~= step(old(self)@, ev0, seq![]).0.windows);
                assert(step(old(self)@, ev0, seq![]) == (self@, out@));
                out
            },
            RawEvent::MapNotify { window } => {
                let focus = match self.windows.find(window) {
                    Some(i) => self.windows.entries[i].geometry.has_focus,
                    None => false,
                };
                let out = one(Output::Focused { window, focused: focus });
                assert(step(old(self)@, ev0, seq![]) == (self@, out@));
                out
            },
            RawEvent::DestroyNotify { window } => {
                self.windows.remove_window(window);
                let mut out = one(Output::ImeRemoveContext { window });
                out.push(Output::Destroyed { window });
                assert(out@ =~= step(old(self)@, ev0, seq![]).1);
                assert(step(old(self)@, ev0, seq![]) == (self@, out@));
                out
            },
            RawEvent::VisibilityNotify { window, fully_obscured } => {
                let out = one(Output::Occluded { window, occluded: fully_obscured });
                assert(step(old(self)@, ev0, seq![]) == (self@, out@));
                out
            },
            RawEvent::Expose { window, count } => {
                let out = if count == 0 { one(Output::RedrawRequested { window }) } else { Vec::new() };
                assert(step(old(self)@, ev0, seq![]) == (self@, out@));
                out
            },
            RawEvent::Key { keycode, pressed, repeats } => {
                let out = self.on_key(keycode, pressed, repeats);
                assert(step(old(self)@, ev0, seq![]) == (self@, out@));
                out
            },
            RawEvent::Button { window, device, detail, pressed, emulated } => {
                let out = if emulated {
                    Vec::new()
                } else {
                    match button_from(detail) {
                        Some(button) => one(Output::MouseInput { window, device, state: element_state(pressed), button }),
                        None => Vec::new(),
                    }
                };
                assert(step(old(self)@, ev0, seq![]) == (self@, out@));
                out
            },
            RawEvent::Motion { window, device, source, x, y, mask, values } => {
                let bytes = mask_bytes(&mask);
                let vals = decode_valuators(&bytes, &values);
                let out = self.on_motion(window, device, source, x, y, &vals);
                assert(step(old(self)@, ev0, bytes@) == (self@, out@));
                out
            },
            RawEvent::Enter { window, device, source, x, y, snapshot } => {
                self.devices.reset_scroll_positions(&snapshot, source);
                let out = if self.windows.window_exists(window) {
                    let mut out = one(Output::CursorEntered { window, device });
                    out.push(Output::CursorMoved { window, device, x, y });
                    out
                } else {
                    Vec::new()
                };
                assert(out@ =~= step(old(self)@, ev0, seq![]).1);
                assert(step(old(self)@, ev0, seq![]) == (self@, out@));
                out
            },
            RawEvent::Leave { window, device } => {
                let out = if self.windows.window_exists(window) {
                    one(Output::CursorLeft { window, device })
                } else {
                    Vec::new()
                };
                assert(step(old(self)@, ev0, seq![]) == (self@, out@));
                out
            },
            RawEvent::FocusIn { window, device, x, y, pressed_keys } => {
                let out = self.on_focus_in(window, device, x, y, &pressed_keys);
                assert(step(old(self)@, ev0, seq![]) == (self@, out@));
                out
            },
            RawEvent::FocusOut { window, pressed_keys } => {
                let out = self.on_focus_out(window, &pressed_keys);
                assert(step(old(self)@, ev0, seq![]) == (self@, out@));
                out
            },
            RawEvent::Touch { window, device, detail, phase, x, y } => {
                let out = self.on_touch(window, device, detail, phase, x, y);
                assert(step(old(self)@, ev0, seq![]) == (self@, out@));
                out
            },
            RawEvent::RawButton { device, detail, pressed, emulated } => {
                let out = if emulated {
                    one(Output::DeviceButton { device, button: detail, state: element_state(pressed) })
                } else {
                    Vec::new()
                };
                assert(step(old(self)@, ev0, seq![]) == (self@, out@));
                out
            },
            RawEvent::RawMotion { device, mask, values } => {
                let bytes = mask_bytes(&mask);
                let vals = decode_valuators(&bytes, &values);
                let out = raw_motion(device, &vals);
                assert(step(old(self)@, ev0, bytes@) == (self@, out@));
                out
            },
            RawEvent::RawKey { source, keycode, pressed } => {
                let out = if keycode < KEYCODE_OFFSET as u32 {
                    Vec::new()
                } else {
                    one(Output::DeviceKey { device: source, keycode, state: element_state(pressed) })
                };
                assert(step(old(self)@, ev0, seq![]) == (self@, out@));
                out
            },
            RawEvent::Hierarchy { changes } => {
                let out = self.on_hierarchy(&changes);
                assert(step(old(self)@, ev0, seq![]) == (self@, out@));
                out
            },
            RawEvent::NewKeyboard { device, keycodes_changed, geometry_changed } => {
                let out = if device == self.core_keyboard_id && (keycodes_changed || geometry_changed) {
                    one(Output::ReloadKeymap)
                } else {
                    Vec::new()
                };
                assert(step(old(self)@, ev0, seq![]) == (self@, out@));
                out
            },
            RawEvent::StateNotify { modifiers } => {
                let previous = self.modifiers;
                self.modifiers = modifiers;
                let out = match self.active_window {
                    Some(w) => if modifiers != previous {
                        one(Output::ModifiersChanged { window: w, modifiers })
                    } else {
                        Vec::new()
                    },
                    None => Vec::new(),
                };
                assert(step(old(self)@, ev0, seq![]) == (self@, out@));
                out
            },
            RawEvent::RandrNotify { previous, current } => {
                let out = match &previous {
                    Some(prev) => monitor_changes(&self.windows.entries, prev, &current),
                    None => Vec::new(),
                };
                assert(step(old(self)@, ev0, seq![]) == (self@, out@));
                out
            },
            RawEvent::Other => {
                let out: Vec<Output> = Vec::new();
                assert(step(old(self)@, ev0, seq![]) == (self@, out@));
                out
            },
        }
    }

    /// Translates one event of the input-method bridge for `window`.
    pub fn ime_event(&mut self, window: WindowId, ev: ImeEvent) -> (out: Vec<Output>)
        ensures
            ime_outputs_ok(window, old(self)@.is_composing, ev, out@),
            final(self)@ == (ProcessorView { is_composing: composing_after(old(self)@.is_composing, ev), ..old(self)@ }),
    {
        let ghost ev0 = ev;
        match ev {
            ImeEvent::Enabled => one(Output::ImeEnabled { window }),
            ImeEvent::Start => {
                self.is_composing = true;
                one(Output::ImePreedit { window, text: String::new(), cursor: None })
            },
            ImeEvent::Update(text, cursor) => {
                if self.is_composing {
                    one(Output::ImePreedit { window, text, cursor })
                } else {
                    Vec::new()
                }
            },
            ImeEvent::Commit(text) => {
                self.is_composing = false;
                let mut out = one(Output::ImePreedit { window, text: String::new(), cursor: None });
                out.push(Output::ImeCommit { window, text });
                out
            },
            ImeEvent::End => {
                self.is_composing = false;
                one(Output::ImePreedit { window, text: String::new(), cursor: None })
            },
            ImeEvent::Disabled => {
                self.is_composing = false;
                one(Output::ImeDisabled { window })
            },
        }
    }

    /// Takes the offered-type list fetched for a drag enter message, or
    /// `None` when it could not be fetched.
    pub fn dnd_types_fetched(&mut self, types: Option<Vec<u32>>)
        ensures
            final(self)@ == (ProcessorView {
                dnd: match types {
                    Some(t) => DndView { type_list: Some(t@), ..old(self)@.dnd },
                    None => old(self)@.dnd,
                },
                ..old(self)@
            }),
    {
        self.dnd.types_fetched(types);
    }

    /// Takes the drag data read for a selection notification: `None` when
    /// it could not be read, else the parsed paths or a parse failure.
    pub fn drop_data_read(&mut self, window: WindowId, data: Option<Result<Vec<String>, ()>>) -> (out: Vec<Output>)
        ensures
            final(self)@ == (ProcessorView {
                dnd: DndView { result: crate::dnd::result_view(data), ..old(self)@.dnd },
                ..old(self)@
            }),
            out@ == crate::dnd::data_outputs(window, crate::dnd::result_view(data)),
    {
        self.dnd.data_arrived(window, data)
    }

    /// Takes a listing of the device hierarchy, each device replacing the
    /// known one of the same id.
    pub fn init_device(&mut self, list: Vec<Device>)
        ensures
            final(self)@ == (ProcessorView {
                devices: listed_devices(old(self)@.devices, list@.map_values(|d: Device| d@)),
                ..old(self)@
            }),
    {
        let ghost lv = list@.map_values(|d: Device| d@);
        let mut list = list;
        let ghost total = list@.len();
        while list.len() > 0
            invariant
                list@.len() <= total,
                lv.len() == total,
                list@.map_values(|d: Device| d@) == lv.subrange(total - list@.len(), total as int),
                self@ == (ProcessorView {
                    devices: listed_devices(old(self)@.devices, lv.subrange(0, total - list@.len())),
                    ..old(self)@
                }),
            decreases list.len(),
        {
            let ghost done = total - list@.len();
            let ghost before = list@;
            assert(before.map_values(|d: Device| d@)[0] == before[0]@);
            assert(lv.subrange(done, total as int)[0] == lv[done]);
            let d = list.remove(0);
            assert(d@ == lv[done]);
            assert forall|j: int| 0 <= j < list@.len() implies list@.map_values(|d: Device| d@)[j]
                == lv.subrange(total - list@.len(), total as int)[j] && #[trigger] list@[j] == list@[j] by {
                assert(list@[j] == before[j + 1]);
                assert(before.map_values(|d: Device| d@)[j + 1] == before[j + 1]@);
                assert(lv.subrange(done, total as int)[j + 1] == lv[done + 1 + j]);
            }
            assert(list@.map_values(|d: Device| d@) =~= lv.subrange(total - list@.len(), total as int));
            assert(lv.subrange(0, done + 1).drop_last() == lv.subrange(0, done));
            self.devices.insert(d);
        }
        assert(lv.subrange(0, total as int) == lv);
    }
}

} // verus!
