use vstd::prelude::*;

verus! {

/// Id of a protocol window.
pub type WindowId = u32;

/// Id of an input device.
pub type DeviceId = u16;

/// Id of the virtual core pointer.
pub const VIRTUAL_CORE_POINTER: u16 = 2;

/// Id of the virtual core keyboard.
pub const VIRTUAL_CORE_KEYBOARD: u16 = 3;

/// Whether a key or button went down or up.
#[derive(Clone, Copy, Debug, PartialEq, Eq, Structural)]
pub enum ElementState {
    Pressed,
    Released,
}

/// A mouse button, by its protocol button number.
#[derive(Clone, Copy, Debug, PartialEq, Eq, Structural)]
pub enum MouseButton {
    Left,
    Right,
    Middle,
    Back,
    Forward,
    Other(u16),
}

/// Direction of a scroll axis.
#[derive(Clone, Copy, Debug, PartialEq, Eq, Structural)]
pub enum ScrollOrientation {
    Horizontal,
    Vertical,
}

/// What the event loop receives, in order: the semantic events for the
/// application, and the requests that the surrounding runtime carries out
/// against the display server or its collaborators.
///
/// Pointer coordinates are 16.16 fixed point and valuator values are 32.32
/// fixed point, as the protocol reports them.
#[allow(inconsistent_fields)]
#[derive(Clone, Debug, PartialEq, Eq)]
pub enum Output {
    CloseRequested { window: WindowId },
    Moved { window: WindowId, x: i64, y: i64 },
    Resized { window: WindowId, width: u32, height: u32 },
    /// The scale factor of the window's monitor changed; `width` and `height`
    /// are the size the adjustment starts from. The runtime answers with the
    /// size the application chose.
    ScaleFactorChanged { window: WindowId, old_scale: u64, new_scale: u64, width: u32, height: u32 },
    /// The monitor a window was last seen on changed its scale factor; the
    /// runtime reads the window's size and prompts as for
    /// `ScaleFactorChanged`.
    MonitorScaleChanged { window: WindowId, old_scale: u64, new_scale: u64 },
    Focused { window: WindowId, focused: bool },
    Destroyed { window: WindowId },
    Occluded { window: WindowId, occluded: bool },
    RedrawRequested { window: WindowId },
    KeyboardInput { window: WindowId, device: DeviceId, keycode: u32, state: ElementState, repeat: bool, synthetic: bool },
    ModifiersChanged { window: WindowId, modifiers: u32 },
    MouseInput { window: WindowId, device: DeviceId, state: ElementState, button: MouseButton },
    CursorMoved { window: WindowId, device: DeviceId, x: i32, y: i32 },
    CursorEntered { window: WindowId, device: DeviceId },
    CursorLeft { window: WindowId, device: DeviceId },
    Touch { window: WindowId, device: DeviceId, phase: crate::touch::TouchPhase, x: i32, y: i32, id: u64 },
    AxisMotion { window: WindowId, device: DeviceId, axis: u32, value: i64 },
    /// Motion on a scroll axis: the delta is `(value - previous) / increment`,
    /// negated, along `orientation`.
    ScrollMotion { window: WindowId, device: DeviceId, orientation: ScrollOrientation, value: i64, previous: i64, increment: i64 },
    HoveredFile { window: WindowId, path: String },
    DroppedFile { window: WindowId, path: String },
    HoveredFileCancelled { window: WindowId },
    ImeEnabled { window: WindowId },
    ImePreedit { window: WindowId, text: String, cursor: Option<usize> },
    ImeCommit { window: WindowId, text: String },
    ImeDisabled { window: WindowId },
    DeviceButton { device: DeviceId, button: u32, state: ElementState },
    DeviceMotion { device: DeviceId, axis: u32, value: i64 },
    DeviceMouseMotion { device: DeviceId, dx: i64, dy: i64 },
    DeviceMouseWheel { device: DeviceId, dx: i64, dy: i64 },
    DeviceKey { device: DeviceId, keycode: u32, state: ElementState },
    DeviceAdded { device: DeviceId },
    DeviceRemoved { device: DeviceId },
    /// Send the ping message back to the root window.
    ReplyPing { window: WindowId, data: [u32; 5] },
    /// Fetch the full offered-type list from a drag source.
    FetchDndTypes { source: WindowId },
    /// Ask for the dragged data; answered later by a selection notification.
    ConvertSelection { window: WindowId, time: u32 },
    SendDndStatus { window: WindowId, source: WindowId, accepted: bool },
    SendDndFinished { window: WindowId, source: WindowId, accepted: bool },
    /// Read the transferred drag data from a window's property.
    ReadDropData { window: WindowId },
    /// Ask the display server for a new inner size.
    RequestInnerSize { window: WindowId, width: u32, height: u32 },
    /// Refresh what is known of the window manager.
    UpdateWmInfo,
    /// Query the device hierarchy below a device and hand it back.
    ReinitDevices { device: DeviceId },
    /// Reload the keymap from the server.
    ReloadKeymap,
    /// Start or stop listening to raw device events.
    ListenDeviceEvents { enabled: bool },
    ImeFocus { window: WindowId },
    ImeUnfocus { window: WindowId },
    ImeRemoveContext { window: WindowId },
}

} // verus!
