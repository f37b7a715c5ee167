use vstd::prelude::*;

use crate::event::{Output, WindowId};

verus! {

/// The protocol version assumed when a position message comes without an
/// enter message before it.
pub const DEFAULT_DND_VERSION: u32 = 5;

/// The timestamp that stands for "now".
pub const CURRENT_TIME: u32 = 0;

/// A drag-and-drop session.
#[derive(Debug)]
pub struct DndState {
    pub version: Option<u32>,
    pub type_list: Option<Vec<u32>>,
    pub source_window: Option<WindowId>,
    /// The parsed drag data: the file paths, or `Err` when it could not be parsed.
    pub result: Option<Result<Vec<String>, ()>>,
}

/// What a drag-and-drop session holds, in mathematical form.
pub struct DndView {
    pub version: Option<u32>,
    pub type_list: Option<Seq<u32>>,
    pub source_window: Option<WindowId>,
    pub result: Option<Result<Seq<String>, ()>>,
}

pub open spec fn result_view(r: Option<Result<Vec<String>, ()>>) -> Option<Result<Seq<String>, ()>> {
    match r {
        Some(Ok(v)) => Some(Ok(v@)),
        Some(Err(())) => Some(Err(())),
        None => None,
    }
}

impl View for DndState {
    type V = DndView;

    open spec fn view(&self) -> DndView {
        DndView {
            version: self.version,
            type_list: match self.type_list {
                Some(v) => Some(v@),
                None => None,
            },
            source_window: self.source_window,
            result: result_view(self.result),
        }
    }
}

/// The session with nothing in it.
pub open spec fn idle() -> DndView {
    DndView { version: None, type_list: None, source_window: None, result: None }
}

/// One event per path, dropped or only hovering.
pub open spec fn file_events(window: WindowId, paths: Seq<String>, dropped: bool) -> Seq<Output> {
    Seq::new(
        paths.len(),
        |i: int|
            if dropped {
                Output::DroppedFile { window, path: paths[i] }
            } else {
                Output::HoveredFile { window, path: paths[i] }
            },
    )
}

/// The session after an enter message with payload `data`.
pub open spec fn enter_state(s: DndView, data: [u32; 5]) -> DndView {
    DndView {
        version: Some(data[1] >> 24u32),
        type_list: if data[1] & 1 == 0 { Some(seq![data[2], data[3], data[4]]) } else { s.type_list },
        ..s
    }
}

/// What an enter message asks of the runtime.
pub open spec fn enter_outputs(data: [u32; 5]) -> Seq<Output> {
    if data[1] & 1 == 0 { seq![] } else { seq![Output::FetchDndTypes { source: data[0] }] }
}

/// Whether an offered-type list holds the file-list type.
pub open spec fn accepts(s: DndView, file_list_type: u32) -> bool {
    match s.type_list {
        Some(l) => l.contains(file_list_type),
        None => false,
    }
}

/// The session after a position message.
pub open spec fn position_state(s: DndView, data: [u32; 5], file_list_type: u32) -> DndView {
    if accepts(s, file_list_type) {
        DndView { source_window: Some(data[0]), ..s }
    } else {
        idle()
    }
}

/// The timestamp for the data request of a position message.
pub open spec fn position_time(s: DndView, data: [u32; 5]) -> u32 {
    let version = match s.version {
        Some(v) => v,
        None => DEFAULT_DND_VERSION,
    };
    if version >= 1 { data[3] } else { CURRENT_TIME }
}

/// What a position message asks of the runtime.
pub open spec fn position_outputs(s: DndView, window: WindowId, data: [u32; 5], file_list_type: u32) -> Seq<Output> {
    if accepts(s, file_list_type) {
        let status = Output::SendDndStatus { window, source: data[0], accepted: true };
        if s.result is None {
            seq![Output::ConvertSelection { window, time: position_time(s, data) }, status]
        } else {
            seq![status]
        }
    } else {
        seq![Output::SendDndStatus { window, source: data[0], accepted: false }]
    }
}

/// The peer that a finished message goes to.
pub open spec fn drop_target(s: DndView, data: [u32; 5]) -> WindowId {
    match s.source_window {
        Some(w) => w,
        None => data[0],
    }
}

/// What a drop message emits: the dropped files of a cached successful
/// result, then the finished reply, accepted when a result is cached.
pub open spec fn drop_outputs(s: DndView, window: WindowId, data: [u32; 5]) -> Seq<Output> {
    let files = match s.result {
        Some(Ok(paths)) => file_events(window, paths, true),
        _ => seq![],
    };
    files.push(Output::SendDndFinished { window, source: drop_target(s, data), accepted: s.result is Some })
}

/// What arriving drag data emits: one hovered-file event per parsed path.
pub open spec fn data_outputs(window: WindowId, data: Option<Result<Seq<String>, ()>>) -> Seq<Output> {
    match data {
        Some(Ok(paths)) => file_events(window, paths, false),
        _ => seq![],
    }
}

/// Whether an output is a finished reply.
pub open spec fn is_finished(o: Output) -> bool {
    o is SendDndFinished
}

/// An enter message, a position message that the offered types accept, the
/// drag data arriving (read, whether or not it parsed), then a drop: the drop
/// sends exactly one finished reply, an accepted one, after every other
/// output, and leaves the session empty.
pub proof fn lemma_accepted_drop_finishes_once(
    s: DndView,
    window: WindowId,
    enter: [u32; 5],
    position: [u32; 5],
    file_list_type: u32,
    data: Option<Result<Seq<String>, ()>>,
    drop: [u32; 5],
)
    requires
        accepts(enter_state(s, enter), file_list_type),
        data is Some,
    ensures
        ({
            let s1 = enter_state(s, enter);
            let s2 = position_state(s1, position, file_list_type);
            let s3 = DndView { result: data, ..s2 };
            let out = drop_outputs(s3, window, drop);
            &&& out.len() >= 1
            &&& out.last() == Output::SendDndFinished { window, source: position[0], accepted: true }
            &&& forall|i: int| 0 <= i < out.len() - 1 ==> !is_finished(#[trigger] out[i])
        }),
{
    let s1 = enter_state(s, enter);
    let s2 = position_state(s1, position, file_list_type);
    let s3 = DndView { result: data, ..s2 };
    let out = drop_outputs(s3, window, drop);
    assert(s3.source_window == Some(position[0]));
    let files = match s3.result {
        Some(Ok(paths)) => file_events(window, paths, true),
        _ => seq![],
    };
    assert(out == files.push(Output::SendDndFinished { window, source: position[0], accepted: true }));
    assert forall|i: int| 0 <= i < out.len() - 1 implies !is_finished(#[trigger] out[i]) by {
        assert(out[i] == files[i]);
    }
}

/// Builds one file event per path.
fn build_file_events(window: WindowId, paths: &Vec<String>, dropped: bool, out: &mut Vec<Output>)
    ensures
        final(out)@ == old(out)@ + file_events(window, paths@, dropped),
{
    let ghost start = out@;
    let mut i: usize = 0;
    while i < paths.len()
        invariant
            i <= paths.len(),
            out@ == start + file_events(window, paths@.subrange(0, i as int), dropped),
        decreases paths.len() - i,
    {
        let path = paths[i].clone();
        if dropped {
            out.push(Output::DroppedFile { window, path });
        } else {
            out.push(Output::HoveredFile { window, path });
        }
        i += 1;
        assert(file_events(window, paths@.subrange(0, i as int), dropped) =~= file_events(
            window,
            paths@.subrange(0, i - 1),
            dropped,
        ).push(out@.last()));
    }
    assert(paths@.subrange(0, paths.len() as int) == paths@);
}

fn list_contains(list: &Vec<u32>, x: u32) -> (r: bool)
    ensures
        r == list@.contains(x),
{
    let mut i: usize = 0;
    while i < list.len()
        invariant
            i <= list.len(),
            forall|k: int| 0 <= k < i ==> list@[k] != x,
        decreases list.len() - i,
    {
        if list[i] == x {
            assert(list@[i as int] == x);
            return true;
        }
        i += 1;
    }
    false
}

impl DndState {
    /// A session with nothing in it.
    pub fn new() -> (r: DndState)
        ensures
            r@ == idle(),
    {
        DndState { version: None, type_list: None, source_window: None, result: None }
    }

    /// Whether the session holds nothing.
    pub open spec fn is_idle(&self) -> bool {
        self.version is None && self.type_list is None && self.source_window is None && self.result is None
    }

    /// Empties every field.
    pub fn reset(&mut self)
        ensures
            final(self)@ == idle(),
            final(self).is_idle(),
    {
        self.version = None;
        self.type_list = None;
        self.source_window = None;
        self.result = None;
    }

    /// Handles an enter message: records the version and the inline offered
    /// types, or asks for the full list when there are more than three.
    pub fn enter(&mut self, data: [u32; 5]) -> (out: Vec<Output>)
        ensures
            final(self)@ == enter_state(old(self)@, data),
            out@ == enter_outputs(data),
    {
        let flags = data[1];
        self.version = Some(flags >> 24u32);
        let has_more_types = flags & 1 == 1;
        assert(flags & 1 == 0 || flags & 1 == 1) by (bit_vector);
        let mut out: Vec<Output> = Vec::new();
        if !has_more_types {
            let types = vec![data[2], data[3], data[4]];
            assert(types@ =~= seq![data[2], data[3], data[4]]);
            self.type_list = Some(types);
        } else {
            out.push(Output::FetchDndTypes { source: data[0] });
        }
        assert(out@ =~= enter_outputs(data));
        assert(self@ == enter_state(old(self)@, data));
        out
    }

    /// Takes the offered-type list fetched from the drag source, or `None`
    /// when it could not be fetched.
    pub fn types_fetched(&mut self, types: Option<Vec<u32>>)
        ensures
            final(self)@ == (match types {
                Some(t) => DndView { type_list: Some(t@), ..old(self)@ },
                None => old(self)@,
            }),
    {
        if let Some(t) = types {
            self.type_list = Some(t);
        }
    }

    fn offers(&self, file_list_type: u32) -> (r: bool)
        ensures
            r == accepts(self@, file_list_type),
    {
        match &self.type_list {
            Some(list) => list_contains(list, file_list_type),
            None => false,
        }
    }

    /// Handles a position message: accepts when the offered types hold the
    /// file-list type, asking for the data on the first acceptance; rejects
    /// and ends the session otherwise.
    pub fn position(&mut self, window: WindowId, data: [u32; 5], file_list_type: u32) -> (out: Vec<Output>)
        ensures
            final(self)@ == position_state(old(self)@, data, file_list_type),
            out@ == position_outputs(old(self)@, window, data, file_list_type),
    {
        let source_window = data[0];
        let version = match self.version {
            Some(v) => v,
            None => DEFAULT_DND_VERSION,
        };
        let mut out: Vec<Output> = Vec::new();
        if self.offers(file_list_type) {
            self.source_window = Some(source_window);
            if self.result.is_none() {
                let time = if version >= 1 { data[3] } else { CURRENT_TIME };
                out.push(Output::ConvertSelection { window, time });
            }
            out.push(Output::SendDndStatus { window, source: source_window, accepted: true });
        } else {
            out.push(Output::SendDndStatus { window, source: source_window, accepted: false });
            self.reset();
        }
        proof {
            if accepts(old(self)@, file_list_type) {
                if old(self)@.result is None {
                    assert(out@ =~= position_outputs(old(self)@, window, data, file_list_type));
                } else {
                    assert(out@ =~= position_outputs(old(self)@, window, data, file_list_type));
                }
            } else {
                assert(out@ =~= position_outputs(old(self)@, window, data, file_list_type));
            }
        }
        out
    }

    /// Handles a drop message: emits the dropped files of a cached successful
    /// result, replies finished, and ends the session.
    pub fn drop_files(&mut self, window: WindowId, data: [u32; 5]) -> (out: Vec<Output>)
        ensures
            final(self)@ == idle(),
            out@ == drop_outputs(old(self)@, window, data),
    {
        let source = match self.source_window {
            Some(w) => w,
            None => data[0],
        };
        let mut out: Vec<Output> = Vec::new();
        if let Some(Ok(paths)) = &self.result {
            build_file_events(window, paths, true, &mut out);
        }
        let accepted = self.result.is_some();
        out.push(Output::SendDndFinished { window, source, accepted });
        proof {
            match old(self)@.result {
                Some(Ok(paths)) => {},
                _ => { assert(out@ =~= drop_outputs(old(self)@, window, data)); },
            }
        }
        self.reset();
        out
    }

    /// Handles a leave message: ends the session and cancels the hover.
    pub fn leave(&mut self, window: WindowId) -> (out: Vec<Output>)
        ensures
            final(self)@ == idle(),
            out@ == seq![Output::HoveredFileCancelled { window }],
    {
        self.reset();
        let mut out: Vec<Output> = Vec::new();
        out.push(Output::HoveredFileCancelled { window });
        assert(out@ =~= seq![Output::HoveredFileCancelled { window }]);
        out
    }

    /// Takes the drag data read for a selection notification: `None` when it
    /// could not be read, else the parsed paths or a parse failure. Emits one
    /// hovered-file event per path and caches the result for the drop.
    pub fn data_arrived(&mut self, window: WindowId, data: Option<Result<Vec<String>, ()>>) -> (out: Vec<Output>)
        ensures
            final(self)@ == (DndView { result: result_view(data), ..old(self)@ }),
            out@ == data_outputs(window, result_view(data)),
    {
        let mut out: Vec<Output> = Vec::new();
        if let Some(Ok(paths)) = &data {
            build_file_events(window, paths, false, &mut out);
        }
        proof {
            match data {
                Some(Ok(ref paths)) => { assert(out@ =~= file_events(window, paths@, false)); },
                _ => { assert(out@ =~= seq![]); },
            }
        }
        self.result = data;
        out
    }
}

} // verus!
