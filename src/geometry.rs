use vstd::prelude::*;

use crate::event::WindowId;

verus! {

/// How far the window manager's frame reaches left of and above the client
/// area.
#[derive(Clone, Copy, Debug, PartialEq, Eq, Structural)]
pub struct FrameExtents {
    pub left: u32,
    pub top: u32,
}

/// The monitor a window was last seen on. `scale` is the bit pattern of the
/// monitor's scale factor; a `dummy` monitor stands for "none could be
/// determined".
#[derive(Clone, Debug)]
pub struct MonitorInfo {
    pub name: String,
    pub scale: u64,
    pub dummy: bool,
}

/// A geometry-change notification of one window.
#[derive(Clone, Copy, Debug, PartialEq, Eq, Structural)]
pub struct ConfigureNotify {
    pub window: WindowId,
    pub response_type: u8,
    pub x: i16,
    pub y: i16,
    pub width: u16,
    pub height: u16,
}

/// Asks the application for the size a window should take at a new scale
/// factor, starting from `size`.
#[derive(Clone, Copy, Debug)]
pub struct ScalePrompt {
    pub old_scale: u64,
    pub new_scale: u64,
    pub size: (u32, u32),
}

/// The geometry and focus state kept for one window.
#[derive(Clone, Debug)]
pub struct WindowGeometry {
    pub size: Option<(u32, u32)>,
    pub inner_position: Option<(i32, i32)>,
    pub inner_position_rel_parent: Option<(i32, i32)>,
    /// The outer position, frame included.
    pub position: Option<(i64, i64)>,
    pub frame_extents: Option<FrameExtents>,
    /// A size asked for after a scale change, not yet confirmed.
    pub dpi_adjusted: Option<(u32, u32)>,
    pub last_monitor: MonitorInfo,
    pub has_focus: bool,
    /// Last cursor position, 16.16 fixed point.
    pub cursor_pos: Option<(i32, i32)>,
}

/// Whether a notification carries root-relative coordinates.
pub open spec fn root_relative(n: ConfigureNotify) -> bool {
    n.response_type & 0x80u8 == 0
}

pub open spec fn notify_size(n: ConfigureNotify) -> (u32, u32) {
    (n.width as u32, n.height as u32)
}

pub open spec fn notify_position(n: ConfigureNotify) -> (i32, i32) {
    (n.x as i32, n.y as i32)
}

/// Whether a notification changes the cached size.
pub open spec fn configure_resized(g: WindowGeometry, n: ConfigureNotify) -> bool {
    g.size != Some(notify_size(n))
}

/// Whether a notification moves the window: only a root-relative one that
/// changes the cached position does.
pub open spec fn configure_moved(g: WindowGeometry, n: ConfigureNotify) -> bool {
    root_relative(n) && g.inner_position != Some(notify_position(n))
}

/// The cached state after the size and position of a notification are taken
/// in. A new parent-relative position drops the root-relative position and
/// the frame extents, so that both are derived again.
pub open spec fn configure_state(g: WindowGeometry, n: ConfigureNotify) -> WindowGeometry {
    let sized = WindowGeometry { size: Some(notify_size(n)), ..g };
    if root_relative(n) {
        WindowGeometry { inner_position: Some(notify_position(n)), ..sized }
    } else if g.inner_position_rel_parent != Some(notify_position(n)) {
        WindowGeometry {
            inner_position_rel_parent: Some(notify_position(n)),
            inner_position: None,
            frame_extents: None,
            ..sized
        }
    } else {
        sized
    }
}

/// The outer position of a client area at `inner`.
pub open spec fn inner_to_outer(e: FrameExtents, inner: (i32, i32)) -> (i64, i64) {
    ((inner.0 - e.left) as i64, (inner.1 - e.top) as i64)
}

/// Whether the outer position is derived again rather than reused.
pub open spec fn rederives_outer(g: WindowGeometry, moved: bool) -> bool {
    moved || g.position is None
}

/// The frame extents used to derive the outer position: the cached ones,
/// else the freshly queried ones.
pub open spec fn extents_used(g: WindowGeometry, fresh: FrameExtents) -> FrameExtents {
    match g.frame_extents {
        Some(e) => e,
        None => fresh,
    }
}

pub open spec fn outer_position_of(g: WindowGeometry, moved: bool, inner: (i32, i32), fresh: FrameExtents) -> (i64, i64) {
    if rederives_outer(g, moved) {
        inner_to_outer(extents_used(g, fresh), inner)
    } else {
        g.position.unwrap()
    }
}

pub open spec fn outer_state(g: WindowGeometry, moved: bool, inner: (i32, i32), fresh: FrameExtents) -> WindowGeometry {
    if rederives_outer(g, moved) {
        WindowGeometry {
            frame_extents: Some(extents_used(g, fresh)),
            position: Some(inner_to_outer(extents_used(g, fresh), inner)),
            ..g
        }
    } else {
        g
    }
}

/// The scale factor in effect after looking at monitor `m`: a dummy monitor
/// keeps the last one.
pub open spec fn scale_after(g: WindowGeometry, m: MonitorInfo) -> u64 {
    if m.dummy { g.last_monitor.scale } else { m.scale }
}

pub open spec fn monitor_state(g: WindowGeometry, m: MonitorInfo) -> WindowGeometry {
    if m.dummy { g } else { WindowGeometry { last_monitor: m, ..g } }
}

/// The prompt a monitor observation raises: one exactly when the scale
/// factor changes, starting from the pending adjusted size if any, else from
/// the reported size.
pub open spec fn monitor_prompt(g: WindowGeometry, m: MonitorInfo, reported: (u32, u32)) -> Option<ScalePrompt> {
    if scale_after(g, m) != g.last_monitor.scale {
        Some(ScalePrompt {
            old_scale: g.last_monitor.scale,
            new_scale: scale_after(g, m),
            size: match g.dpi_adjusted {
                Some(d) => d,
                None => reported,
            },
        })
    } else {
        None
    }
}

/// What becomes of a pending adjusted size once a size has been observed:
/// it is asked for again only when it was not reached and the window
/// manager is one that drops resize requests during interaction.
pub open spec fn settle_request(g: WindowGeometry, observed: (u32, u32), wm_drops_resizes: bool) -> Option<(u32, u32)> {
    match g.dpi_adjusted {
        Some(a) => if observed != a && wm_drops_resizes { Some(a) } else { None },
        None => None,
    }
}

fn same_size(a: (u32, u32), b: (u32, u32)) -> (r: bool)
    ensures
        r == (a == b),
{
    a.0 == b.0 && a.1 == b.1
}

fn same_point(a: (i32, i32), b: (i32, i32)) -> (r: bool)
    ensures
        r == (a == b),
{
    a.0 == b.0 && a.1 == b.1
}

impl WindowGeometry {
    /// The state of a window that nothing is known of yet.
    pub fn new(monitor: MonitorInfo) -> (r: WindowGeometry)
        ensures
            r.last_monitor == monitor,
            r.size is None && r.inner_position is None && r.inner_position_rel_parent is None,
            r.position is None && r.frame_extents is None && r.dpi_adjusted is None,
            !r.has_focus && r.cursor_pos is None,
    {
        WindowGeometry {
            size: None,
            inner_position: None,
            inner_position_rel_parent: None,
            position: None,
            frame_extents: None,
            dpi_adjusted: None,
            last_monitor: monitor,
            has_focus: false,
            cursor_pos: None,
        }
    }

    /// Takes in the size and position of a notification; returns whether it
    /// resized and whether it moved the window.
    pub fn apply_configure(&mut self, n: &ConfigureNotify) -> (r: (bool, bool))
        ensures
            *final(self) == configure_state(*old(self), *n),
            r == (configure_resized(*old(self), *n), configure_moved(*old(self), *n)),
    {
        let new_size = (n.width as u32, n.height as u32);
        let new_position = (n.x as i32, n.y as i32);
        let resized = match self.size {
            Some(s) => !same_size(s, new_size),
            None => true,
        };
        self.size = Some(new_size);
        let moved = if n.response_type & 0x80u8 == 0 {
            let moved = match self.inner_position {
                Some(p) => !same_point(p, new_position),
                None => true,
            };
            self.inner_position = Some(new_position);
            moved
        } else {
            let changed = match self.inner_position_rel_parent {
                Some(p) => !same_point(p, new_position),
                None => true,
            };
            if changed {
                self.inner_position_rel_parent = Some(new_position);
                self.inner_position = None;
                self.frame_extents = None;
            }
            false
        };
        (resized, moved)
    }

    /// Derives the outer position of a client area at `inner`: reuses the
    /// cached one unless the window moved, else converts through the cached
    /// frame extents, or `fresh` when none are cached, and caches both.
    pub fn outer_position(&mut self, moved: bool, inner: (i32, i32), fresh: FrameExtents) -> (r: (i64, i64))
        ensures
            *final(self) == outer_state(*old(self), moved, inner, fresh),
            r == outer_position_of(*old(self), moved, inner, fresh),
    {
        match self.position {
            Some(p) => {
                if !moved {
                    return p;
                }
            },
            None => {},
        }
        let extents = match self.frame_extents {
            Some(e) => e,
            None => fresh,
        };
        self.frame_extents = Some(extents);
        let outer = (inner.0 as i64 - extents.left as i64, inner.1 as i64 - extents.top as i64);
        self.position = Some(outer);
        outer
    }

    /// Looks at the monitor the window now falls on; remembers it unless it
    /// is a dummy, and raises a prompt when the scale factor changed.
    pub fn observe_monitor(&mut self, m: MonitorInfo, reported: (u32, u32)) -> (r: Option<ScalePrompt>)
        ensures
            *final(self) == monitor_state(*old(self), m),
            r == monitor_prompt(*old(self), m, reported),
    {
        let last_scale = self.last_monitor.scale;
        let size = match self.dpi_adjusted {
            Some(d) => d,
            None => reported,
        };
        let new_scale = if m.dummy {
            last_scale
        } else {
            let s = m.scale;
            self.last_monitor = m;
            s
        };
        if last_scale != new_scale {
            Some(ScalePrompt { old_scale: last_scale, new_scale, size })
        } else {
            None
        }
    }

    /// Takes the size the application chose at a new scale factor. When it
    /// differs from the size the prompt started from, it becomes the pending
    /// adjusted size and the result is `true`: the size is to be asked for.
    pub fn scale_size_chosen(&mut self, start: (u32, u32), chosen: (u32, u32)) -> (r: bool)
        ensures
            r == (chosen != start),
            *final(self) == (if chosen != start {
                WindowGeometry { dpi_adjusted: Some(chosen), ..*old(self) }
            } else {
                *old(self)
            }),
    {
        if !same_size(chosen, start) {
            self.dpi_adjusted = Some(chosen);
            true
        } else {
            false
        }
    }

    /// Settles a pending adjusted size against the size just observed;
    /// returns the size to ask for again, if any. The pending size is
    /// dropped exactly when it is not asked for again.
    pub fn settle_dpi_adjusted(&mut self, observed: (u32, u32), wm_drops_resizes: bool) -> (r: Option<(u32, u32)>)
        ensures
            r == settle_request(*old(self), observed, wm_drops_resizes),
            *final(self) == (if r is None {
                WindowGeometry { dpi_adjusted: None, ..*old(self) }
            } else {
                *old(self)
            }),
    {
        match self.dpi_adjusted {
            Some(a) => {
                if same_size(observed, a) || !wm_drops_resizes {
                    self.dpi_adjusted = None;
                    None
                } else {
                    Some(a)
                }
            },
            None => None,
        }
    }

    /// The outer position a notification would give, without taking it in.
    pub fn predict_outer_position(&self, n: &ConfigureNotify, fresh: FrameExtents) -> (r: (i64, i64))
        ensures
            r == outer_position_of(configure_state(*self, *n), configure_moved(*self, *n), notify_position(*n), fresh),
    {
        let new_position = (n.x as i32, n.y as i32);
        let root = n.response_type & 0x80u8 == 0;
        let moved = root && match self.inner_position {
            Some(p) => !same_point(p, new_position),
            None => true,
        };
        let extents_dropped = !root && match self.inner_position_rel_parent {
            Some(p) => !same_point(p, new_position),
            None => true,
        };
        if !moved {
            if let Some(p) = self.position {
                return p;
            }
        }
        let extents = if extents_dropped {
            fresh
        } else {
            match self.frame_extents {
                Some(e) => e,
                None => fresh,
            }
        };
        (new_position.0 as i64 - extents.left as i64, new_position.1 as i64 - extents.top as i64)
    }

    /// Records a cursor position; returns whether it changed.
    pub fn set_cursor_pos(&mut self, pos: (i32, i32)) -> (r: bool)
        ensures
            r == (old(self).cursor_pos != Some(pos)),
            *final(self) == (WindowGeometry { cursor_pos: Some(pos), ..*old(self) }),
    {
        let changed = match self.cursor_pos {
            Some(p) => !same_point(p, pos),
            None => true,
        };
        self.cursor_pos = Some(pos);
        changed
    }
}

/// Taking in the same notification twice: the second time neither resizes
/// nor moves the window and changes nothing, and observing the same monitor
/// twice raises no prompt the second time.
pub proof fn lemma_configure_idempotent(g: WindowGeometry, n: ConfigureNotify, m: MonitorInfo, reported: (u32, u32))
    ensures
        !configure_resized(configure_state(g, n), n),
        !configure_moved(configure_state(g, n), n),
        configure_state(configure_state(g, n), n) == configure_state(g, n),
        monitor_prompt(monitor_state(g, m), m, reported) is None,
        monitor_state(monitor_state(g, m), m) == monitor_state(g, m),
{
    let g1 = configure_state(g, n);
    assert(configure_state(g1, n) == g1);
}

} // verus!
