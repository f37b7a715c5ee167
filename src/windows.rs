use vstd::prelude::*;

use crate::event::WindowId;
use crate::geometry::{MonitorInfo, WindowGeometry};

verus! {

/// A live window and its state.
#[derive(Debug)]
pub struct WindowEntry {
    pub id: WindowId,
    pub geometry: WindowGeometry,
}

/// The position of the first entry with this id, or the length when there
/// is none.
pub open spec fn window_index(ws: Seq<WindowEntry>, id: WindowId) -> int
    decreases ws.len(),
{
    if ws.len() == 0 {
        0int
    } else if window_index(ws.drop_last(), id) < ws.len() - 1 {
        window_index(ws.drop_last(), id)
    } else if ws.last().id == id {
        ws.len() - 1
    } else {
        ws.len() as int
    }
}

proof fn lemma_window_index_prefix(ws: Seq<WindowEntry>, m: int, id: WindowId)
    requires
        0 <= m <= ws.len(),
        window_index(ws.subrange(0, m), id) < m,
    ensures
        window_index(ws, id) == window_index(ws.subrange(0, m), id),
    decreases ws.len() - m,
{
    if m < ws.len() {
        assert(ws.subrange(0, m + 1).drop_last() == ws.subrange(0, m));
        lemma_window_index_prefix(ws, m + 1, id);
    } else {
        assert(ws.subrange(0, m) == ws);
    }
}

/// `window_index` finds an entry with the id, or there is none.
proof fn lemma_window_index_absent(ws: Seq<WindowEntry>, id: WindowId)
    ensures
        0 <= window_index(ws, id) <= ws.len(),
        window_index(ws, id) < ws.len() ==> ws[window_index(ws, id)].id == id,
        window_index(ws, id) == ws.len() ==> forall|k: int| 0 <= k < ws.len() ==> ws[k].id != id,
    decreases ws.len(),
{
    if ws.len() > 0 {
        let p = ws.drop_last();
        lemma_window_index_absent(p, id);
        if window_index(p, id) < p.len() {
            assert(ws[window_index(p, id)] == p[window_index(p, id)]);
        } else if ws.last().id != id {
            assert forall|k: int| 0 <= k < ws.len() implies ws[k].id != id by {
                if k < p.len() {
                    assert(ws[k] == p[k]);
                }
            }
        }
    }
}

/// Entries with the same ids, in the same places, find the same position.
proof fn lemma_window_index_ids(a: Seq<WindowEntry>, b: Seq<WindowEntry>, id: WindowId)
    requires
        a.len() == b.len(),
        forall|k: int| 0 <= k < a.len() ==> #[trigger] a[k].id == b[k].id,
    ensures
        window_index(a, id) == window_index(b, id),
    decreases a.len(),
{
    if a.len() > 0 {
        let pa = a.drop_last();
        let pb = b.drop_last();
        assert forall|k: int| 0 <= k < pa.len() implies #[trigger] pa[k].id == pb[k].id by {
            assert(pa[k] == a[k] && pb[k] == b[k]);
        }
        lemma_window_index_ids(pa, pb, id);
        assert(a[a.len() - 1].id == b[b.len() - 1].id);
    }
}

/// The windows this process knows of, by id. Absence means the window is
/// gone.
#[derive(Debug)]
pub struct WindowRegistry {
    pub entries: Vec<WindowEntry>,
}

impl WindowRegistry {
    pub fn new() -> (r: WindowRegistry)
        ensures
            r.entries@.len() == 0,
    {
        WindowRegistry { entries: Vec::new() }
    }

    /// Whether a window with this id is known.
    pub open spec fn has(&self, id: WindowId) -> bool {
        window_index(self.entries@, id) < self.entries@.len()
    }

    /// The state of a known window.
    pub open spec fn get(&self, id: WindowId) -> WindowGeometry {
        self.entries@[window_index(self.entries@, id)].geometry
    }

    /// The position of the window with this id, if known.
    pub fn find(&self, id: WindowId) -> (r: Option<usize>)
        ensures
            match r {
                Some(i) => i as int == window_index(self.entries@, id) && self.has(id),
                None => !self.has(id),
            },
            window_index(self.entries@, id) <= self.entries@.len(),
    {
        proof { lemma_window_index_absent(self.entries@, id); }
        let mut i: usize = 0;
        while i < self.entries.len()
            invariant
                i <= self.entries@.len(),
                window_index(self.entries@.subrange(0, i as int), id) == i,
            decreases self.entries.len() - i,
        {
            assert(self.entries@.subrange(0, i + 1).drop_last() == self.entries@.subrange(0, i as int));
            if self.entries[i].id == id {
                proof { lemma_window_index_prefix(self.entries@, i + 1, id); }
                return Some(i);
            }
            i += 1;
        }
        assert(self.entries@.subrange(0, self.entries.len() as int) == self.entries@);
        None
    }

    /// Whether a window with this id is known.
    pub fn window_exists(&self, id: WindowId) -> (r: bool)
        ensures
            r == self.has(id),
    {
        self.find(id).is_some()
    }

    /// Registers a window that was just created, forgetting any earlier
    /// state kept under its id.
    pub fn add_window(&mut self, id: WindowId, monitor: MonitorInfo)
        ensures
            final(self).has(id),
            final(self).get(id) == WindowGeometry::new_spec(monitor),
    {
        let g = WindowGeometry::new(monitor);
        match self.find(id) {
            Some(i) => {
                self.entries.set(i, WindowEntry { id, geometry: g });
                proof {
                    lemma_window_index_absent(old(self).entries@, id);
                    assert forall|k: int| 0 <= k < self.entries@.len() implies #[trigger] self.entries@[k].id
                        == old(self).entries@[k].id by {
                        if k != i {
                            assert(self.entries@[k] == old(self).entries@[k]);
                        }
                    }
                    lemma_window_index_ids(self.entries@, old(self).entries@, id);
                }
            },
            None => {
                self.entries.push(WindowEntry { id, geometry: g });
                proof {
                    lemma_window_index_absent(old(self).entries@, id);
                    assert(self.entries@.drop_last() == old(self).entries@);
                }
            },
        }
    }

    /// Forgets a window, if known.
    pub fn remove_window(&mut self, id: WindowId)
        ensures
            final(self).entries@ == (if old(self).has(id) {
                old(self).entries@.remove(window_index(old(self).entries@, id))
            } else {
                old(self).entries@
            }),
    {
        if let Some(i) = self.find(id) {
            self.entries.remove(i);
        }
    }
}

impl WindowGeometry {
    pub open spec fn new_spec(monitor: MonitorInfo) -> WindowGeometry {
        WindowGeometry {
            size: None,
            inner_position: None,
            inner_position_rel_parent: None,
            position: None,
            frame_extents: None,
            dpi_adjusted: None,
            last_monitor: monitor,
            has_focus: false,
            cursor_pos: None,
        }
    }
}

} // verus!
