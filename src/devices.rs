use vstd::prelude::*;

use crate::event::{DeviceId, Output, ScrollOrientation, WindowId};

verus! {

/// One scroll axis of a device: its valuator number, direction, how much a
/// line is, and the last value seen (32.32 fixed point).
#[derive(Clone, Copy, Debug, PartialEq, Eq, Structural)]
pub struct ScrollAxis {
    pub index: u16,
    pub orientation: ScrollOrientation,
    pub increment: i64,
    pub position: i64,
}

/// An input device.
#[derive(Clone, Debug)]
pub struct Device {
    pub id: DeviceId,
    /// The paired master device.
    pub attachment: DeviceId,
    pub scroll_axes: Vec<ScrollAxis>,
}

/// Whether valuator `i` is set in a mask.
pub open spec fn bit_set(mask: Seq<u8>, i: int) -> bool {
    mask[i / 8] & (1u8 << ((i % 8) as u8)) != 0
}

/// The numbers of the valuators set among the first `n` of a mask, in order.
pub open spec fn set_bits(mask: Seq<u8>, n: int) -> Seq<u32>
    decreases n,
{
    if n <= 0 {
        seq![]
    } else if bit_set(mask, n - 1) {
        set_bits(mask, n - 1).push((n - 1) as u32)
    } else {
        set_bits(mask, n - 1)
    }
}

/// The set valuators of a mask paired, in order, with the values that
/// follow it; a value list that runs short ends the pairing.
pub open spec fn valuators(mask: Seq<u8>, values: Seq<i64>) -> Seq<(u32, i64)> {
    let bits = set_bits(mask, (mask.len() * 8) as int);
    Seq::new(
        if bits.len() < values.len() { bits.len() } else { values.len() },
        |k: int| (bits[k], values[k]),
    )
}

/// Relies on bytemuck::cast_slice from u32 to u8: the bytes of the words in
/// memory order, four per word, so that a zero word gives four zero bytes.
#[verifier::external_body]
pub(crate) fn mask_bytes(words: &Vec<u32>) -> (r: Vec<u8>)
    ensures
        r@.len() == 4 * words@.len(),
        forall|k: int, j: int| 0 <= k < words@.len() && 0 <= j < 4 && words@[k] == 0 ==> #[trigger] r@[4 * k + j] == 0u8,
{
    bytemuck::cast_slice::<u32, u8>(words).to_vec()
}

/// Pairs the set valuators of a mask with their values.
pub fn decode_valuators(mask: &Vec<u8>, values: &Vec<i64>) -> (r: Vec<(u32, i64)>)
    requires
        mask@.len() <= 0x1000_0000,
    ensures
        r@ == valuators(mask@, values@),
{
    let mut out: Vec<(u32, i64)> = Vec::new();
    let n: usize = mask.len() * 8;
    let mut i: usize = 0;
    while i < n
        invariant
            n == mask@.len() * 8,
            n <= 0x8000_0000,
            i <= n,
            out@.len() == (if set_bits(mask@, i as int).len() < values@.len() {
                set_bits(mask@, i as int).len()
            } else {
                values@.len()
            }),
            forall|k: int| 0 <= k < out@.len() ==> #[trigger] out@[k] == (set_bits(mask@, i as int)[k], values@[k]),
        decreases n - i,
    {
        let set = mask[i / 8] & (1u8 << ((i % 8) as u8)) != 0;
        let ghost before = set_bits(mask@, i as int);
        if set && out.len() < values.len() {
            out.push((i as u32, values[out.len()]));
        }
        i += 1;
        proof {
            let after = set_bits(mask@, i as int);
            if set {
                assert(after == before.push((i - 1) as u32));
            } else {
                assert(after == before);
            }
            assert forall|k: int| 0 <= k < out@.len() implies #[trigger] out@[k] == (after[k], values@[k]) by {
                if k < out@.len() - 1 || !set {
                } else {
                }
            }
        }
    }
    assert(out@ =~= valuators(mask@, values@));
    out
}

/// What raw motion emits: one motion event per set valuator, then the
/// pointer motion of valuators 0 and 1 and the wheel motion of valuators 2
/// and 3 when either is nonzero.
pub open spec fn raw_motion_outputs(device: DeviceId, vals: Seq<(u32, i64)>) -> Seq<Output> {
    let motions = Seq::new(vals.len(), |k: int| Output::DeviceMotion { device, axis: vals[k].0, value: vals[k].1 });
    let mouse = (last_value(vals, 0), last_value(vals, 1));
    let wheel = (last_value(vals, 2), last_value(vals, 3));
    let with_mouse = if mouse != (0i64, 0i64) {
        motions.push(Output::DeviceMouseMotion { device, dx: mouse.0, dy: mouse.1 })
    } else {
        motions
    };
    if wheel != (0i64, 0i64) {
        with_mouse.push(Output::DeviceMouseWheel { device, dx: wheel.0, dy: wheel.1 })
    } else {
        with_mouse
    }
}

/// The last value given to valuator `axis`, or zero.
pub open spec fn last_value(vals: Seq<(u32, i64)>, axis: u32) -> i64
    decreases vals.len(),
{
    if vals.len() == 0 {
        0
    } else if vals.last().0 == axis {
        vals.last().1
    } else {
        last_value(vals.drop_last(), axis)
    }
}

/// Translates raw device motion.
pub fn raw_motion(device: DeviceId, vals: &Vec<(u32, i64)>) -> (r: Vec<Output>)
    ensures
        r@ == raw_motion_outputs(device, vals@),
{
    let mut out: Vec<Output> = Vec::new();
    let mut mouse: (i64, i64) = (0, 0);
    let mut wheel: (i64, i64) = (0, 0);
    let mut i: usize = 0;
    while i < vals.len()
        invariant
            i <= vals.len(),
            out@ =~= Seq::new(i as nat, |k: int| Output::DeviceMotion { device, axis: vals@[k].0, value: vals@[k].1 }),
            mouse == (last_value(vals@.subrange(0, i as int), 0), last_value(vals@.subrange(0, i as int), 1)),
            wheel == (last_value(vals@.subrange(0, i as int), 2), last_value(vals@.subrange(0, i as int), 3)),
        decreases vals.len() - i,
    {
        let (axis, x) = vals[i];
        if axis == 0 {
            mouse.0 = x;
        } else if axis == 1 {
            mouse.1 = x;
        } else if axis == 2 {
            wheel.0 = x;
        } else if axis == 3 {
            wheel.1 = x;
        }
        out.push(Output::DeviceMotion { device, axis, value: x });
        i += 1;
        assert(vals@.subrange(0, i as int).drop_last() == vals@.subrange(0, i - 1));
    }
    assert(vals@.subrange(0, vals.len() as int) == vals@);
    if mouse.0 != 0 || mouse.1 != 0 {
        out.push(Output::DeviceMouseMotion { device, dx: mouse.0, dy: mouse.1 });
    }
    if wheel.0 != 0 || wheel.1 != 0 {
        out.push(Output::DeviceMouseWheel { device, dx: wheel.0, dy: wheel.1 });
    }
    out
}

/// What pointer motion over a window emits for its valuators: on a scroll
/// axis of the source device, scroll motion from the axis' last position;
/// on another valuator, axis motion. Also gives the device afterwards.
pub open spec fn scroll_step(axes: Seq<ScrollAxis>, v: (u32, i64), window: WindowId, device: DeviceId) -> (Seq<ScrollAxis>, Output) {
    let idx = axis_index(axes, v.0);
    if idx < axes.len() {
        let a = axes[idx];
        (
            axes.update(idx, ScrollAxis { position: v.1, ..a }),
            Output::ScrollMotion { window, device, orientation: a.orientation, value: v.1, previous: a.position, increment: a.increment },
        )
    } else {
        (axes, Output::AxisMotion { window, device, axis: v.0, value: v.1 })
    }
}

/// The position of the first scroll axis with valuator number `n`, or the
/// length when there is none.
pub open spec fn axis_index(axes: Seq<ScrollAxis>, n: u32) -> int
    decreases axes.len(),
{
    if axes.len() == 0 {
        0int
    } else if axis_index(axes.drop_last(), n) < axes.len() - 1 {
        axis_index(axes.drop_last(), n)
    } else if axes.last().index as u32 == n {
        axes.len() - 1
    } else {
        axes.len() as int
    }
}

/// The scroll axes and outputs after a run of valuators.
pub open spec fn scroll_run(axes: Seq<ScrollAxis>, vals: Seq<(u32, i64)>, window: WindowId, device: DeviceId) -> (Seq<ScrollAxis>, Seq<Output>)
    decreases vals.len(),
{
    if vals.len() == 0 {
        (axes, seq![])
    } else {
        let prev = scroll_run(axes, vals.drop_last(), window, device);
        let step = scroll_step(prev.0, vals.last(), window, device);
        (step.0, prev.1.push(step.1))
    }
}

fn find_axis(axes: &Vec<ScrollAxis>, n: u32) -> (r: usize)
    ensures
        r as int == axis_index(axes@, n),
{
    let mut i: usize = 0;
    while i < axes.len()
        invariant
            i <= axes.len(),
            axis_index(axes@.subrange(0, i as int), n) == i,
        decreases axes.len() - i,
    {
        assert(axes@.subrange(0, i + 1).drop_last() == axes@.subrange(0, i as int));
        if axes[i].index as u32 == n {
            let ghost pre = axes@.subrange(0, i + 1);
            assert(axis_index(pre, n) == i);
            proof { lemma_axis_index_prefix(axes@, i + 1, n); }
            return i;
        }
        i += 1;
    }
    assert(axes@.subrange(0, axes.len() as int) == axes@);
    i
}

proof fn lemma_axis_index_prefix(axes: Seq<ScrollAxis>, m: int, n: u32)
    requires
        0 <= m <= axes.len(),
        axis_index(axes.subrange(0, m), n) < m,
    ensures
        axis_index(axes, n) == axis_index(axes.subrange(0, m), n),
    decreases axes.len() - m,
{
    if m < axes.len() {
        assert(axes.subrange(0, m + 1).drop_last() == axes.subrange(0, m));
        lemma_axis_index_prefix(axes, m + 1, n);
    } else {
        assert(axes.subrange(0, m) == axes);
    }
}

impl Device {
    /// Translates pointer motion over `window` into scroll and axis motion,
    /// moving each scroll axis to its new value.
    pub fn scroll_motion(&mut self, window: WindowId, device: DeviceId, vals: &Vec<(u32, i64)>) -> (r: Vec<Output>)
        ensures
            final(self).id == old(self).id,
            final(self).attachment == old(self).attachment,
            (final(self).scroll_axes@, r@) == scroll_run(old(self).scroll_axes@, vals@, window, device),
    {
        let mut out: Vec<Output> = Vec::new();
        let mut i: usize = 0;
        while i < vals.len()
            invariant
                i <= vals.len(),
                self.id == old(self).id,
                self.attachment == old(self).attachment,
                (self.scroll_axes@, out@) == scroll_run(old(self).scroll_axes@, vals@.subrange(0, i as int), window, device),
            decreases vals.len() - i,
        {
            let (axis, x) = vals[i];
            let idx = find_axis(&self.scroll_axes, axis);
            assert(vals@.subrange(0, i + 1).drop_last() == vals@.subrange(0, i as int));
            if idx < self.scroll_axes.len() {
                let a = self.scroll_axes[idx];
                self.scroll_axes.set(idx, ScrollAxis { position: x, ..a });
                out.push(Output::ScrollMotion {
                    window,
                    device,
                    orientation: a.orientation,
                    value: x,
                    previous: a.position,
                    increment: a.increment,
                });
            } else {
                out.push(Output::AxisMotion { window, device, axis, value: x });
            }
            i += 1;
        }
        assert(vals@.subrange(0, vals.len() as int) == vals@);
        out
    }
}

/// What a device holds, in mathematical form.
pub struct DeviceView {
    pub id: DeviceId,
    pub attachment: DeviceId,
    pub axes: Seq<ScrollAxis>,
}

impl View for Device {
    type V = DeviceView;

    open spec fn view(&self) -> DeviceView {
        DeviceView { id: self.id, attachment: self.attachment, axes: self.scroll_axes@ }
    }
}

/// The position of the first device with this id, or the length when there
/// is none.
pub open spec fn device_index(ds: Seq<DeviceView>, id: DeviceId) -> int
    decreases ds.len(),
{
    if ds.len() == 0 {
        0int
    } else if device_index(ds.drop_last(), id) < ds.len() - 1 {
        device_index(ds.drop_last(), id)
    } else if ds.last().id == id {
        ds.len() - 1
    } else {
        ds.len() as int
    }
}

proof fn lemma_device_index_prefix(ds: Seq<DeviceView>, m: int, id: DeviceId)
    requires
        0 <= m <= ds.len(),
        device_index(ds.subrange(0, m), id) < m,
    ensures
        device_index(ds, id) == device_index(ds.subrange(0, m), id),
    decreases ds.len() - m,
{
    if m < ds.len() {
        assert(ds.subrange(0, m + 1).drop_last() == ds.subrange(0, m));
        lemma_device_index_prefix(ds, m + 1, id);
    } else {
        assert(ds.subrange(0, m) == ds);
    }
}

pub proof fn lemma_device_index_bounds(ds: Seq<DeviceView>, id: DeviceId)
    ensures
        0 <= device_index(ds, id) <= ds.len(),
        device_index(ds, id) < ds.len() ==> ds[device_index(ds, id)].id == id,
    decreases ds.len(),
{
    if ds.len() > 0 {
        let p = ds.drop_last();
        lemma_device_index_bounds(p, id);
        if device_index(p, id) < p.len() {
            assert(ds[device_index(p, id)] == p[device_index(p, id)]);
        }
    }
}

/// The scroll axes of `axes` with their positions taken from the axes of
/// the same number in `fresh`.
pub open spec fn reset_axes(axes: Seq<ScrollAxis>, fresh: Seq<ScrollAxis>) -> Seq<ScrollAxis> {
    Seq::new(
        axes.len(),
        |k: int|
            if axis_index(fresh, axes[k].index as u32) < fresh.len() {
                ScrollAxis { position: fresh[axis_index(fresh, axes[k].index as u32)].position, ..axes[k] }
            } else {
                axes[k]
            },
    )
}

/// The known devices after a pointer enters: every known device that is the
/// source of the event, or is attached to it, in a fresh snapshot of the
/// hierarchy gets its scroll positions from the snapshot.
pub open spec fn entered_devices(ds: Seq<DeviceView>, snapshot: Seq<DeviceView>, source: DeviceId) -> Seq<DeviceView>
    decreases snapshot.len(),
{
    if snapshot.len() == 0 {
        ds
    } else {
        let prev = entered_devices(ds, snapshot.drop_last(), source);
        let f = snapshot.last();
        let i = device_index(prev, f.id);
        if (f.id == source || f.attachment == source) && i < prev.len() {
            prev.update(i, DeviceView { axes: reset_axes(prev[i].axes, f.axes), ..prev[i] })
        } else {
            prev
        }
    }
}

impl Device {
    /// Takes the scroll positions of the axes of the same number in `fresh`.
    pub fn reset_scroll_position(&mut self, fresh: &Device)
        ensures
            final(self)@ == (DeviceView { axes: reset_axes(old(self)@.axes, fresh@.axes), ..old(self)@ }),
    {
        let mut k: usize = 0;
        while k < self.scroll_axes.len()
            invariant
                k <= self.scroll_axes@.len(),
                self.id == old(self).id,
                self.attachment == old(self).attachment,
                self.scroll_axes@.len() == old(self).scroll_axes@.len(),
                forall|j: int| 0 <= j < k ==> #[trigger] self.scroll_axes@[j] == reset_axes(old(self).scroll_axes@, fresh.scroll_axes@)[j],
                forall|j: int| k <= j < self.scroll_axes@.len() ==> #[trigger] self.scroll_axes@[j] == old(self).scroll_axes@[j],
            decreases self.scroll_axes@.len() - k,
        {
            let a = self.scroll_axes[k];
            let j = find_axis(&fresh.scroll_axes, a.index as u32);
            if j < fresh.scroll_axes.len() {
                self.scroll_axes.set(k, ScrollAxis { position: fresh.scroll_axes[j].position, ..a });
            }
            k += 1;
        }
        assert(self.scroll_axes@ =~= reset_axes(old(self).scroll_axes@, fresh.scroll_axes@));
    }
}

/// The registry of known devices, by id.
#[derive(Debug)]
pub struct DeviceRegistry {
    pub devices: Vec<Device>,
}

impl View for DeviceRegistry {
    type V = Seq<DeviceView>;

    open spec fn view(&self) -> Seq<DeviceView> {
        self.devices@.map_values(|d: Device| d@)
    }
}

impl DeviceRegistry {
    pub fn new() -> (r: DeviceRegistry)
        ensures
            r@.len() == 0,
    {
        DeviceRegistry { devices: Vec::new() }
    }

    /// The position of the device with this id, if known.
    pub fn find(&self, id: DeviceId) -> (r: Option<usize>)
        ensures
            match r {
                Some(i) => i as int == device_index(self@, id) && i < self@.len(),
                None => device_index(self@, id) == self@.len(),
            },
    {
        proof { lemma_device_index_bounds(self@, id); }
        let mut i: usize = 0;
        while i < self.devices.len()
            invariant
                i <= self@.len(),
                self@.len() == self.devices@.len(),
                device_index(self@.subrange(0, i as int), id) == i,
            decreases self.devices.len() - i,
        {
            assert(self@.subrange(0, i + 1).drop_last() == self@.subrange(0, i as int));
            assert(self@[i as int].id == self.devices@[i as int].id);
            if self.devices[i].id == id {
                proof { lemma_device_index_prefix(self@, i + 1, id); }
                return Some(i);
            }
            i += 1;
        }
        assert(self@.subrange(0, self.devices.len() as int) == self@);
        None
    }

    /// Inserts a device, replacing the one with the same id.
    pub fn insert(&mut self, d: Device)
        ensures
            final(self)@ == (if device_index(old(self)@, d.id) < old(self)@.len() {
                old(self)@.update(device_index(old(self)@, d.id), d@)
            } else {
                old(self)@.push(d@)
            }),
    {
        match self.find(d.id) {
            Some(i) => {
                self.devices.set(i, d);
            },
            None => {
                self.devices.push(d);
            },
        }
        assert(self@ =~= (if device_index(old(self)@, d.id) < old(self)@.len() {
            old(self)@.update(device_index(old(self)@, d.id), d@)
        } else {
            old(self)@.push(d@)
        }));
    }

    /// Removes the device with this id, if known.
    pub fn remove(&mut self, id: DeviceId)
        ensures
            final(self)@ == (if device_index(old(self)@, id) < old(self)@.len() {
                old(self)@.remove(device_index(old(self)@, id))
            } else {
                old(self)@
            }),
    {
        if let Some(i) = self.find(id) {
            self.devices.remove(i);
            assert(self@ =~= old(self)@.remove(i as int));
        }
    }

    /// Takes fresh scroll positions after a pointer entered, from a snapshot
    /// of the hierarchy.
    pub fn reset_scroll_positions(&mut self, snapshot: &Vec<Device>, source: DeviceId)
        ensures
            final(self)@ == entered_devices(old(self)@, snapshot@.map_values(|d: Device| d@), source),
    {
        let ghost snap = snapshot@.map_values(|d: Device| d@);
        let mut k: usize = 0;
        while k < snapshot.len()
            invariant
                k <= snapshot@.len(),
                snap == snapshot@.map_values(|d: Device| d@),
                self@ == entered_devices(old(self)@, snap.subrange(0, k as int), source),
            decreases snapshot@.len() - k,
        {
            assert(snap.subrange(0, k + 1).drop_last() == snap.subrange(0, k as int));
            assert(snap.subrange(0, k + 1).last() == snapshot@[k as int]@);
            let f = &snapshot[k];
            if f.id == source || f.attachment == source {
                if let Some(i) = self.find(f.id) {
                    let ghost before = self@;
                    self.devices[i].reset_scroll_position(f);
                    assert(self@ =~= before.update(i as int, DeviceView { axes: reset_axes(before[i as int].axes, f@.axes), ..before[i as int] }));
                }
            }
            k += 1;
        }
        assert(snap.subrange(0, snapshot.len() as int) == snap);
    }
}

} // verus!
