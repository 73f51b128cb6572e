//! State machine of the Wayland toplevel/output tracker. Protocol objects are
//! keyed by their per-connection object id; field events accumulate in a
//! pending transaction that a terminating "done" event commits as one atomic
//! update. The "ext" protocol variant omits the terminating event for
//! anything but newly-created objects, so updates to known objects commit the
//! moment any field event arrives; only brand-new objects wait. Committed
//! changes are broadcast as discrete window/output events. The connection,
//! dispatch loop and message decoding live with the embedding application,
//! which feeds this machine one event at a time in arrival order.

use vstd::prelude::*;

use crate::broadcast::{BroadcastSubscription, RaceFreeBroadcaster};
use crate::keyed::{KeyedEntry, KeyedTable};

verus! {

/// A window of the ext-foreign-toplevel listing protocol.
#[derive(Clone, Debug)]
pub struct ExtForeignToplevel {
    /// Protocol object id, stable for the lifetime of one connection.
    pub id: u32,
    pub title: String,
    pub app_id: String,
    /// Stable, protocol-defined opaque identifier used for cross-referencing.
    pub identifier: String,
}

pub struct ExtForeignToplevelView {
    pub id: u32,
    pub title: Seq<char>,
    pub app_id: Seq<char>,
    pub identifier: Seq<char>,
}

impl View for ExtForeignToplevel {
    type V = ExtForeignToplevelView;

    open spec fn view(&self) -> ExtForeignToplevelView {
        ExtForeignToplevelView {
            id: self.id,
            title: self.title@,
            app_id: self.app_id@,
            identifier: self.identifier@,
        }
    }
}

impl ExtForeignToplevel {
    /// A just-announced toplevel with all fields still empty.
    pub fn new(id: u32) -> (r: Self)
        ensures
            r@ == fresh_ext_toplevel(id),
    {
        let r = ExtForeignToplevel {
            id,
            title: String::new(),
            app_id: String::new(),
            identifier: String::new(),
        };
        proof {
            assert(r@.title =~= Seq::<char>::empty());
            assert(r@.app_id =~= Seq::<char>::empty());
            assert(r@.identifier =~= Seq::<char>::empty());
        }
        r
    }
}

pub open spec fn fresh_ext_toplevel(id: u32) -> ExtForeignToplevelView {
    ExtForeignToplevelView {
        id,
        title: Seq::empty(),
        app_id: Seq::empty(),
        identifier: Seq::empty(),
    }
}

/// Clones a toplevel field by field.
pub fn clone_ext_toplevel(w: &ExtForeignToplevel) -> (r: ExtForeignToplevel)
    ensures
        r@ == w@,
{
    ExtForeignToplevel {
        id: w.id,
        title: w.title.clone(),
        app_id: w.app_id.clone(),
        identifier: w.identifier.clone(),
    }
}

/// A window of the wlr-foreign-toplevel listing protocol.
#[derive(Clone, Debug)]
pub struct ZWlrForeignTopLevel {
    /// Protocol object id, stable for the lifetime of one connection.
    pub id: u32,
    pub title: String,
    pub app_id: String,
    /// Object ids of the outputs the window is shown on; no id occurs twice.
    pub output: Vec<u32>,
    /// Raw protocol state flags.
    pub state: Vec<u8>,
    pub parent_id: Option<u32>,
}

pub struct ZWlrForeignTopLevelView {
    pub id: u32,
    pub title: Seq<char>,
    pub app_id: Seq<char>,
    pub output: Seq<u32>,
    pub state: Seq<u8>,
    pub parent_id: Option<u32>,
}

impl View for ZWlrForeignTopLevel {
    type V = ZWlrForeignTopLevelView;

    open spec fn view(&self) -> ZWlrForeignTopLevelView {
        ZWlrForeignTopLevelView {
            id: self.id,
            title: self.title@,
            app_id: self.app_id@,
            output: self.output@,
            state: self.state@,
            parent_id: self.parent_id,
        }
    }
}

impl ZWlrForeignTopLevel {
    /// A just-announced toplevel with all fields still empty.
    pub fn new(id: u32) -> (r: Self)
        ensures
            r@ == fresh_wlr_toplevel(id),
    {
        let r = ZWlrForeignTopLevel {
            id,
            title: String::new(),
            app_id: String::new(),
            output: Vec::new(),
            state: Vec::new(),
            parent_id: Option::None,
        };
        proof {
            assert(r@.title =~= Seq::<char>::empty());
            assert(r@.app_id =~= Seq::<char>::empty());
        }
        r
    }
}

pub open spec fn fresh_wlr_toplevel(id: u32) -> ZWlrForeignTopLevelView {
    ZWlrForeignTopLevelView {
        id,
        title: Seq::empty(),
        app_id: Seq::empty(),
        output: Seq::empty(),
        state: Seq::empty(),
        parent_id: Option::None,
    }
}

/// Clones a toplevel field by field.
pub fn clone_wlr_toplevel(w: &ZWlrForeignTopLevel) -> (r: ZWlrForeignTopLevel)
    ensures
        r@ == w@,
{
    let mut output: Vec<u32> = Vec::new();
    let mut i: usize = 0;
    while i < w.output.len()
        invariant
            0 <= i <= w.output@.len(),
            output@ == w.output@.subrange(0, i as int),
        decreases w.output@.len() - i,
    {
        output.push(w.output[i]);
        proof {
            assert(output@ =~= w.output@.subrange(0, i + 1));
        }
        i = i + 1;
    }
    let mut state: Vec<u8> = Vec::new();
    let mut j: usize = 0;
    while j < w.state.len()
        invariant
            0 <= j <= w.state@.len(),
            state@ == w.state@.subrange(0, j as int),
        decreases w.state@.len() - j,
    {
        state.push(w.state[j]);
        proof {
            assert(state@ =~= w.state@.subrange(0, j + 1));
        }
        j = j + 1;
    }
    proof {
        assert(output@ =~= w.output@);
        assert(state@ =~= w.state@);
    }
    ZWlrForeignTopLevel {
        id: w.id,
        title: w.title.clone(),
        app_id: w.app_id.clone(),
        output,
        state,
        parent_id: w.parent_id,
    }
}

/// One display output as reported by the output-management protocol. The
/// protocol reports the scale as a fraction; it is kept here in thousandths
/// so that the bookkeeping stays in integers.
#[derive(Debug)]
pub struct Output {
    pub wl_output_id: u32,
    pub name: String,
    pub description: String,
    pub size: (i32, i32),
    pub enabled: bool,
    pub position: (i32, i32),
    pub scale_millis: i64,
    pub make: String,
    pub model: String,
    pub serial_number: String,
    pub adaptive_sync: bool,
}

pub struct OutputView {
    pub wl_output_id: u32,
    pub name: Seq<char>,
    pub description: Seq<char>,
    pub size: (i32, i32),
    pub enabled: bool,
    pub position: (i32, i32),
    pub scale_millis: i64,
    pub make: Seq<char>,
    pub model: Seq<char>,
    pub serial_number: Seq<char>,
    pub adaptive_sync: bool,
}

impl View for Output {
    type V = OutputView;

    open spec fn view(&self) -> OutputView {
        OutputView {
            wl_output_id: self.wl_output_id,
            name: self.name@,
            description: self.description@,
            size: self.size,
            enabled: self.enabled,
            position: self.position,
            scale_millis: self.scale_millis,
            make: self.make@,
            model: self.model@,
            serial_number: self.serial_number@,
            adaptive_sync: self.adaptive_sync,
        }
    }
}

pub open spec fn fresh_output() -> OutputView {
    OutputView {
        wl_output_id: 0,
        name: Seq::empty(),
        description: Seq::empty(),
        size: (0, 0),
        enabled: false,
        position: (0, 0),
        scale_millis: 0,
        make: Seq::empty(),
        model: Seq::empty(),
        serial_number: Seq::empty(),
        adaptive_sync: false,
    }
}

impl Default for Output {
    /// An output with no fields reported yet.
    fn default() -> (r: Self)
        ensures
            r@ == fresh_output(),
    {
        let r = Output {
            wl_output_id: 0,
            name: String::new(),
            description: String::new(),
            size: (0, 0),
            enabled: false,
            position: (0, 0),
            scale_millis: 0,
            make: String::new(),
            model: String::new(),
            serial_number: String::new(),
            adaptive_sync: false,
        };
        proof {
            assert(r@.name =~= Seq::<char>::empty());
            assert(r@.description =~= Seq::<char>::empty());
            assert(r@.make =~= Seq::<char>::empty());
            assert(r@.model =~= Seq::<char>::empty());
            assert(r@.serial_number =~= Seq::<char>::empty());
        }
        r
    }
}

/// Clones an output field by field.
pub fn clone_output(o: &Output) -> (r: Output)
    ensures
        r@ == o@,
{
    Output {
        wl_output_id: o.wl_output_id,
        name: o.name.clone(),
        description: o.description.clone(),
        size: o.size,
        enabled: o.enabled,
        position: o.position,
        scale_millis: o.scale_millis,
        make: o.make.clone(),
        model: o.model.clone(),
        serial_number: o.serial_number.clone(),
        adaptive_sync: o.adaptive_sync,
    }
}

/// A committed change of the window set, from either listing protocol.
#[derive(Clone, Debug)]
pub enum WaylandWindowEvent {
    NewWindowExt(ExtForeignToplevel),
    NewWindowWlr(ZWlrForeignTopLevel),
    UpdatedWindowExt(ExtForeignToplevel),
    UpdatedWindowWlr(ZWlrForeignTopLevel),
    RemovedWindowExt(ExtForeignToplevel),
    RemovedWindowWlr(ZWlrForeignTopLevel),
}

pub enum WaylandWindowEventView {
    NewWindowExt(ExtForeignToplevelView),
    NewWindowWlr(ZWlrForeignTopLevelView),
    UpdatedWindowExt(ExtForeignToplevelView),
    UpdatedWindowWlr(ZWlrForeignTopLevelView),
    RemovedWindowExt(ExtForeignToplevelView),
    RemovedWindowWlr(ZWlrForeignTopLevelView),
}

impl View for WaylandWindowEvent {
    type V = WaylandWindowEventView;

    open spec fn view(&self) -> WaylandWindowEventView {
        match self {
            WaylandWindowEvent::NewWindowExt(w) => WaylandWindowEventView::NewWindowExt(w@),
            WaylandWindowEvent::NewWindowWlr(w) => WaylandWindowEventView::NewWindowWlr(w@),
            WaylandWindowEvent::UpdatedWindowExt(w) => WaylandWindowEventView::UpdatedWindowExt(w@),
            WaylandWindowEvent::UpdatedWindowWlr(w) => WaylandWindowEventView::UpdatedWindowWlr(w@),
            WaylandWindowEvent::RemovedWindowExt(w) => WaylandWindowEventView::RemovedWindowExt(w@),
            WaylandWindowEvent::RemovedWindowWlr(w) => WaylandWindowEventView::RemovedWindowWlr(w@),
        }
    }
}

/// A committed change of the output set.
#[derive(Debug)]
pub enum OutputEvent {
    OutputsUpdated(Vec<Output>),
}

pub enum OutputEventView {
    OutputsUpdated(Seq<OutputView>),
}

impl View for OutputEvent {
    type V = OutputEventView;

    open spec fn view(&self) -> OutputEventView {
        match self {
            OutputEvent::OutputsUpdated(os) => OutputEventView::OutputsUpdated(
                os@.map_values(|o: Output| o@),
            ),
        }
    }
}

/// One field or lifecycle event of an ext-protocol toplevel.
#[derive(Clone, Debug)]
pub enum ExtToplevelEvent {
    Title(String),
    AppId(String),
    Identifier(String),
    Closed,
    Done,
}

/// One field or lifecycle event of a wlr-protocol toplevel.
#[derive(Clone, Debug)]
pub enum WlrToplevelEvent {
    Title(String),
    AppId(String),
    OutputEnter(u32),
    OutputLeave(u32),
    Parent(Option<u32>),
    State(Vec<u8>),
    Closed,
    Done,
}

/// One field or lifecycle event of an output head.
#[derive(Clone, Debug)]
pub enum OutputHeadEvent {
    Name(String),
    Description(String),
    PhysicalSize(i32, i32),
    Enabled(bool),
    Position(i32, i32),
    ScaleMillis(i64),
    Make(String),
    Model(String),
    SerialNumber(String),
    AdaptiveSync(bool),
    Finished,
}

/// An uncommitted per-object transaction: the object's accumulated fields
/// plus whether it is brand new and whether it was closed.
pub struct PendingExt {
    pub id: u32,
    pub window: ExtForeignToplevel,
    pub is_new: bool,
    pub is_deleted: bool,
}

pub struct PendingExtView {
    pub id: u32,
    pub window: ExtForeignToplevelView,
    pub is_new: bool,
    pub is_deleted: bool,
}

impl View for PendingExt {
    type V = PendingExtView;

    open spec fn view(&self) -> PendingExtView {
        PendingExtView {
            id: self.id,
            window: self.window@,
            is_new: self.is_new,
            is_deleted: self.is_deleted,
        }
    }
}

pub struct PendingWlr {
    pub id: u32,
    pub window: ZWlrForeignTopLevel,
    pub is_new: bool,
    pub is_deleted: bool,
}

pub struct PendingWlrView {
    pub id: u32,
    pub window: ZWlrForeignTopLevelView,
    pub is_new: bool,
    pub is_deleted: bool,
}

impl View for PendingWlr {
    type V = PendingWlrView;

    open spec fn view(&self) -> PendingWlrView {
        PendingWlrView {
            id: self.id,
            window: self.window@,
            is_new: self.is_new,
            is_deleted: self.is_deleted,
        }
    }
}

/// The tracker: per-protocol window tables, the output table, one pending
/// transaction per listing protocol, and the two broadcast channels.
pub struct WaylandManager {
    pub ext_windows: KeyedTable<ExtForeignToplevel>,
    pub zwlr_windows: KeyedTable<ZWlrForeignTopLevel>,
    pub outputs: KeyedTable<Output>,
    pub pending_ext: Option<PendingExt>,
    pub pending_wlr: Option<PendingWlr>,
    pub window_events: RaceFreeBroadcaster<WaylandWindowEvent>,
    pub output_events: RaceFreeBroadcaster<OutputEvent>,
}

/// The pending transaction that an event for object `id` starts from: the
/// one already in flight for `id`, else the known window (an update), else a
/// brand-new window.
pub open spec fn ext_pending_for(m: WaylandManager, id: u32) -> PendingExtView {
    match m.pending_ext {
        Option::Some(p) => if p.id == id {
            p@
        } else {
            ext_loaded(m, id)
        },
        Option::None => ext_loaded(m, id),
    }
}

pub open spec fn ext_loaded(m: WaylandManager, id: u32) -> PendingExtView {
    match m.ext_windows.spec_get(id) {
        Option::Some(w) => PendingExtView { id, window: w@, is_new: false, is_deleted: false },
        Option::None => PendingExtView {
            id,
            window: fresh_ext_toplevel(id),
            is_new: true,
            is_deleted: false,
        },
    }
}

pub open spec fn wlr_pending_for(m: WaylandManager, id: u32) -> PendingWlrView {
    match m.pending_wlr {
        Option::Some(p) => if p.id == id {
            p@
        } else {
            wlr_loaded(m, id)
        },
        Option::None => wlr_loaded(m, id),
    }
}

pub open spec fn wlr_loaded(m: WaylandManager, id: u32) -> PendingWlrView {
    match m.zwlr_windows.spec_get(id) {
        Option::Some(w) => PendingWlrView { id, window: w@, is_new: false, is_deleted: false },
        Option::None => PendingWlrView {
            id,
            window: fresh_wlr_toplevel(id),
            is_new: true,
            is_deleted: false,
        },
    }
}

/// Applying one ext event to a pending transaction; the flag says whether a
/// terminating "done" arrived.
pub open spec fn ext_step(p: PendingExtView, ev: ExtToplevelEvent) -> (PendingExtView, bool) {
    match ev {
        ExtToplevelEvent::Title(t) => (
            PendingExtView { window: ExtForeignToplevelView { title: t@, ..p.window }, ..p },
            false,
        ),
        ExtToplevelEvent::AppId(a) => (
            PendingExtView { window: ExtForeignToplevelView { app_id: a@, ..p.window }, ..p },
            false,
        ),
        ExtToplevelEvent::Identifier(i) => (
            PendingExtView { window: ExtForeignToplevelView { identifier: i@, ..p.window }, ..p },
            false,
        ),
        ExtToplevelEvent::Closed => (PendingExtView { is_deleted: true, ..p }, false),
        ExtToplevelEvent::Done => (p, true),
    }
}

/// The discrete event a commit publishes.
pub open spec fn ext_commit_event(p: PendingExtView) -> WaylandWindowEventView {
    if p.is_new {
        WaylandWindowEventView::NewWindowExt(p.window)
    } else if p.is_deleted {
        WaylandWindowEventView::RemovedWindowExt(p.window)
    } else {
        WaylandWindowEventView::UpdatedWindowExt(p.window)
    }
}

pub open spec fn wlr_commit_event(p: PendingWlrView) -> WaylandWindowEventView {
    if p.is_new {
        WaylandWindowEventView::NewWindowWlr(p.window)
    } else if p.is_deleted {
        WaylandWindowEventView::RemovedWindowWlr(p.window)
    } else {
        WaylandWindowEventView::UpdatedWindowWlr(p.window)
    }
}

impl WaylandManager {
    pub open spec fn wf(self) -> bool {
        &&& self.ext_windows.wf()
        &&& self.zwlr_windows.wf()
        &&& self.outputs.wf()
        &&& self.window_events.wf()
        &&& self.output_events.wf()
    }

    /// A tracker with no windows, no outputs and nothing pending.
    pub fn new() -> (r: Self)
        ensures
            r.wf(),
            r.ext_windows.entries@.len() == 0,
            r.zwlr_windows.entries@.len() == 0,
            r.outputs.entries@.len() == 0,
            r.pending_ext is None,
            r.pending_wlr is None,
            r.window_events.history@ == Seq::<WaylandWindowEvent>::empty(),
            r.output_events.history@ == Seq::<OutputEvent>::empty(),
    {
        WaylandManager {
            ext_windows: KeyedTable::new(),
            zwlr_windows: KeyedTable::new(),
            outputs: KeyedTable::new(),
            pending_ext: Option::None,
            pending_wlr: Option::None,
            window_events: RaceFreeBroadcaster::new(1024),
            output_events: RaceFreeBroadcaster::new(1024),
        }
    }

    /// Feeds one ext-protocol event for object `id` into the tracker.
    ///
    /// The ext protocol, as observed from the compositor, only terminates
    /// transactions of brand-new objects with a "done" event; updates to
    /// known objects therefore commit the moment any field event arrives,
    /// while a brand-new object accumulates fields until its "done".
    pub fn handle_ext_event(&mut self, id: u32, event: ExtToplevelEvent)
        requires
            old(self).wf(),
            old(self).window_events.published < u64::MAX,
        ensures
            final(self).wf(),
            final(self).zwlr_windows == old(self).zwlr_windows,
            final(self).outputs == old(self).outputs,
            final(self).pending_wlr == old(self).pending_wlr,
            final(self).output_events == old(self).output_events,
            ({
                let p1 = ext_step(ext_pending_for(*old(self), id), event).0;
                let done = ext_step(ext_pending_for(*old(self), id), event).1;
                if !p1.is_new || done {
                    // the transaction commits: one discrete event, the table
                    // updated or pruned, nothing left pending
                    &&& final(self).pending_ext is None
                    &&& final(self).window_events.history@.len() == old(
                        self,
                    ).window_events.history@.len() + 1
                    &&& final(self).window_events.history@.last()@ == ext_commit_event(p1)
                    &&& final(self).window_events.history@.drop_last() == old(
                        self,
                    ).window_events.history@
                    &&& (if p1.is_deleted {
                        final(self).ext_windows.spec_get(id) is None
                    } else {
                        match final(self).ext_windows.spec_get(id) {
                            Option::Some(w) => w@ == p1.window,
                            Option::None => false,
                        }
                    })
                    &&& forall|k2: u32|
                        k2 != id ==> kt_view(final(self).ext_windows.spec_get(k2)) == kt_view(
                            old(self).ext_windows.spec_get(k2),
                        )
                } else {
                    // still accumulating: nothing visible changes
                    &&& final(self).ext_windows == old(self).ext_windows
                    &&& final(self).window_events == old(self).window_events
                    &&& match final(self).pending_ext {
                        Option::Some(p) => p@ == p1,
                        Option::None => false,
                    }
                }
            }),
    {
        let mut p: PendingExt = self.take_pending_ext(id);
        let mut is_done = false;
        match event {
            ExtToplevelEvent::Title(t) => {
                p.window.title = t;
            },
            ExtToplevelEvent::AppId(a) => {
                p.window.app_id = a;
            },
            ExtToplevelEvent::Identifier(i) => {
                p.window.identifier = i;
            },
            ExtToplevelEvent::Closed => {
                p.is_deleted = true;
            },
            ExtToplevelEvent::Done => {
                is_done = true;
            },
        }
        if !p.is_new || is_done {
            let committed = clone_ext_toplevel(&p.window);
            let ev = if p.is_new {
                WaylandWindowEvent::NewWindowExt(committed)
            } else if p.is_deleted {
                WaylandWindowEvent::RemovedWindowExt(committed)
            } else {
                WaylandWindowEvent::UpdatedWindowExt(committed)
            };
            self.window_events.publish(ev);
            proof {
                assert(self.window_events.history@.drop_last() =~= old(
                    self,
                ).window_events.history@);
            }
            if p.is_deleted {
                let _was_present = self.ext_windows.remove_key(id);
            } else {
                self.ext_windows.set(id, p.window);
            }
            self.pending_ext = Option::None;
        } else {
            self.pending_ext = Option::Some(p);
        }
    }

    /// Takes the pending ext transaction for `id`, loading or creating one if
    /// none is in flight for that object.
    fn take_pending_ext(&mut self, id: u32) -> (p: PendingExt)
        requires
            old(self).wf(),
        ensures
            *final(self) == (WaylandManager { pending_ext: Option::None, ..*old(self) }),
            p@ == ext_pending_for(*old(self), id),
    {
        let existing = self.pending_ext.take();
        match existing {
            Option::Some(p) => {
                if p.id == id {
                    p
                } else {
                    self.load_pending_ext(id)
                }
            },
            Option::None => self.load_pending_ext(id),
        }
    }

    fn load_pending_ext(&self, id: u32) -> (p: PendingExt)
        requires
            self.wf(),
        ensures
            p@ == ext_loaded(*self, id),
    {
        match self.ext_windows.get(id) {
            Option::Some(w) => PendingExt {
                id,
                window: clone_ext_toplevel(w),
                is_new: false,
                is_deleted: false,
            },
            Option::None => PendingExt {
                id,
                window: ExtForeignToplevel::new(id),
                is_new: true,
                is_deleted: false,
            },
        }
    }
}

/// The view through an optional table lookup result.
pub open spec fn kt_view<T: View>(o: Option<T>) -> Option<T::V> {
    match o {
        Option::Some(v) => Option::Some(v@),
        Option::None => Option::None,
    }
}


/// First index of `x` in `s`, if any.
pub open spec fn u32_index_of(s: Seq<u32>, x: u32) -> Option<int>
    decreases s.len(),
{
    if s.len() == 0 {
        Option::None
    } else if s[0] == x {
        Option::Some(0)
    } else {
        match u32_index_of(s.subrange(1, s.len() as int), x) {
            Option::None => Option::None,
            Option::Some(i) => Option::Some(i + 1),
        }
    }
}

/// `s` with the first occurrence of `x` removed, if present.
pub open spec fn u32_remove_first(s: Seq<u32>, x: u32) -> Seq<u32> {
    match u32_index_of(s, x) {
        Option::None => s,
        Option::Some(i) => s.remove(i),
    }
}

pub proof fn lemma_u32_index_first(s: Seq<u32>, x: u32, i: int)
    requires
        0 <= i < s.len(),
        s[i] == x,
        forall|j: int| 0 <= j < i ==> s[j] != x,
    ensures
        u32_index_of(s, x) == Option::Some(i),
    decreases s.len(),
{
    if i == 0 {
    } else {
        let t = s.subrange(1, s.len() as int);
        assert(forall|j: int| 0 <= j < i - 1 ==> #[trigger] t[j] == s[j + 1]);
        lemma_u32_index_first(t, x, i - 1);
    }
}

pub proof fn lemma_u32_index_none(s: Seq<u32>, x: u32)
    requires
        forall|j: int| 0 <= j < s.len() ==> s[j] != x,
    ensures
        u32_index_of(s, x) is None,
    decreases s.len(),
{
    if s.len() == 0 {
    } else {
        let t = s.subrange(1, s.len() as int);
        assert(forall|j: int| 0 <= j < t.len() ==> #[trigger] t[j] == s[j + 1]);
        lemma_u32_index_none(t, x);
    }
}

/// Set-style insertion into an id list: appends `x` unless already present.
fn u32_set_insert(v: &mut Vec<u32>, x: u32)
    ensures
        final(v)@ == (if old(v)@.contains(x) {
            old(v)@
        } else {
            old(v)@.push(x)
        }),
{
    let n = v.len();
    let mut i: usize = 0;
    while i < n
        invariant
            v@ == old(v)@,
            n == v@.len(),
            0 <= i <= n,
            forall|j: int| 0 <= j < i ==> v@[j] != x,
        decreases n - i,
    {
        if v[i] == x {
            return ;
        }
        i = i + 1;
    }
    assert(!v@.contains(x));
    v.push(x);
}

/// Set-style removal from an id list: removes the first occurrence of `x`.
fn u32_set_remove(v: &mut Vec<u32>, x: u32)
    ensures
        final(v)@ == u32_remove_first(old(v)@, x),
{
    let n = v.len();
    let mut i: usize = 0;
    while i < n
        invariant
            v@ == old(v)@,
            n == v@.len(),
            0 <= i <= n,
            forall|j: int| 0 <= j < i ==> v@[j] != x,
        decreases n - i,
    {
        if v[i] == x {
            proof {
                lemma_u32_index_first(v@, x, i as int);
            }
            let _removed = v.remove(i);
            return ;
        }
        i = i + 1;
    }
    proof {
        lemma_u32_index_none(v@, x);
    }
}

/// Applying one wlr event to a pending transaction; the flag says whether
/// the terminating "done" arrived.
pub open spec fn wlr_step(p: PendingWlrView, ev: WlrToplevelEvent) -> (PendingWlrView, bool) {
    match ev {
        WlrToplevelEvent::Title(t) => (
            (PendingWlrView { window: ZWlrForeignTopLevelView { title: t@, ..p.window }, ..p }),
            false,
        ),
        WlrToplevelEvent::AppId(a) => (
            (PendingWlrView { window: ZWlrForeignTopLevelView { app_id: a@, ..p.window }, ..p }),
            false,
        ),
        WlrToplevelEvent::OutputEnter(oid) => (
            (PendingWlrView {
                window: ZWlrForeignTopLevelView {
                    output: if p.window.output.contains(oid) {
                        p.window.output
                    } else {
                        p.window.output.push(oid)
                    },
                    ..p.window
                },
                ..p
            }),
            false,
        ),
        WlrToplevelEvent::OutputLeave(oid) => (
            (PendingWlrView {
                window: ZWlrForeignTopLevelView {
                    output: u32_remove_first(p.window.output, oid),
                    ..p.window
                },
                ..p
            }),
            false,
        ),
        WlrToplevelEvent::Parent(pid) => (
            (PendingWlrView { window: ZWlrForeignTopLevelView { parent_id: pid, ..p.window }, ..p }),
            false,
        ),
        WlrToplevelEvent::State(st) => (
            (PendingWlrView { window: ZWlrForeignTopLevelView { state: st@, ..p.window }, ..p }),
            false,
        ),
        WlrToplevelEvent::Closed => ((PendingWlrView { is_deleted: true, ..p }), false),
        WlrToplevelEvent::Done => (p, true),
    }
}

/// One output-head field event applied to an output record.
pub open spec fn output_step(o: OutputView, ev: OutputHeadEvent) -> OutputView {
    match ev {
        OutputHeadEvent::Name(n) => OutputView { name: n@, ..o },
        OutputHeadEvent::Description(d) => OutputView { description: d@, ..o },
        OutputHeadEvent::PhysicalSize(w, h) => OutputView { size: (w, h), ..o },
        OutputHeadEvent::Enabled(e) => OutputView { enabled: e, ..o },
        OutputHeadEvent::Position(x, y) => OutputView { position: (x, y), ..o },
        OutputHeadEvent::ScaleMillis(sc) => OutputView { scale_millis: sc, ..o },
        OutputHeadEvent::Make(m) => OutputView { make: m@, ..o },
        OutputHeadEvent::Model(m) => OutputView { model: m@, ..o },
        OutputHeadEvent::SerialNumber(sn) => OutputView { serial_number: sn@, ..o },
        OutputHeadEvent::AdaptiveSync(a) => OutputView { adaptive_sync: a, ..o },
        OutputHeadEvent::Finished => o,
    }
}

/// The output record an event for head `id` starts from: the known record,
/// else a fresh one carrying the head's id.
pub open spec fn output_loaded(m: WaylandManager, id: u32) -> OutputView {
    match m.outputs.spec_get(id) {
        Option::Some(o) => o@,
        Option::None => OutputView { wl_output_id: id, ..fresh_output() },
    }
}

impl WaylandManager {
    /// Feeds one wlr-protocol event for object `id` into the tracker. Unlike
    /// the ext variant, every wlr transaction — including updates to known
    /// objects — accumulates until its terminating "done" event; a "closed"
    /// event marks the object for removal, committed on the "done".
    pub fn handle_wlr_event(&mut self, id: u32, event: WlrToplevelEvent)
        requires
            old(self).wf(),
            old(self).window_events.published < u64::MAX,
        ensures
            final(self).wf(),
            final(self).ext_windows == old(self).ext_windows,
            final(self).outputs == old(self).outputs,
            final(self).pending_ext == old(self).pending_ext,
            final(self).output_events == old(self).output_events,
            ({
                let p1 = wlr_step(wlr_pending_for(*old(self), id), event).0;
                let done = wlr_step(wlr_pending_for(*old(self), id), event).1;
                if done {
                    &&& final(self).pending_wlr is None
                    &&& final(self).window_events.history@.len() == old(
                        self,
                    ).window_events.history@.len() + 1
                    &&& final(self).window_events.history@.last()@ == wlr_commit_event(p1)
                    &&& final(self).window_events.history@.drop_last() == old(
                        self,
                    ).window_events.history@
                    &&& (if p1.is_deleted {
                        final(self).zwlr_windows.spec_get(id) is None
                    } else {
                        match final(self).zwlr_windows.spec_get(id) {
                            Option::Some(w) => w@ == p1.window,
                            Option::None => false,
                        }
                    })
                    &&& forall|k2: u32|
                        k2 != id ==> kt_view(final(self).zwlr_windows.spec_get(k2)) == kt_view(
                            old(self).zwlr_windows.spec_get(k2),
                        )
                } else {
                    &&& final(self).zwlr_windows == old(self).zwlr_windows
                    &&& final(self).window_events == old(self).window_events
                    &&& match final(self).pending_wlr {
                        Option::Some(p) => p@ == p1,
                        Option::None => false,
                    }
                }
            }),
    {
        let mut p: PendingWlr = self.take_pending_wlr(id);
        let mut is_done = false;
        match event {
            WlrToplevelEvent::Title(t) => {
                p.window.title = t;
            },
            WlrToplevelEvent::AppId(a) => {
                p.window.app_id = a;
            },
            WlrToplevelEvent::OutputEnter(oid) => {
                u32_set_insert(&mut p.window.output, oid);
            },
            WlrToplevelEvent::OutputLeave(oid) => {
                u32_set_remove(&mut p.window.output, oid);
            },
            WlrToplevelEvent::Parent(pid) => {
                p.window.parent_id = pid;
            },
            WlrToplevelEvent::State(st) => {
                p.window.state = st;
            },
            WlrToplevelEvent::Closed => {
                p.is_deleted = true;
            },
            WlrToplevelEvent::Done => {
                is_done = true;
            },
        }
        if is_done {
            let committed = clone_wlr_toplevel(&p.window);
            let ev = if p.is_new {
                WaylandWindowEvent::NewWindowWlr(committed)
            } else if p.is_deleted {
                WaylandWindowEvent::RemovedWindowWlr(committed)
            } else {
                WaylandWindowEvent::UpdatedWindowWlr(committed)
            };
            self.window_events.publish(ev);
            proof {
                assert(self.window_events.history@.drop_last() =~= old(
                    self,
                ).window_events.history@);
            }
            if p.is_deleted {
                let _was_present = self.zwlr_windows.remove_key(id);
            } else {
                self.zwlr_windows.set(id, p.window);
            }
            self.pending_wlr = Option::None;
        } else {
            self.pending_wlr = Option::Some(p);
        }
    }

    /// Takes the pending wlr transaction for `id`, loading or creating one if
    /// none is in flight for that object.
    fn take_pending_wlr(&mut self, id: u32) -> (p: PendingWlr)
        requires
            old(self).wf(),
        ensures
            *final(self) == (WaylandManager { pending_wlr: Option::None, ..*old(self) }),
            p@ == wlr_pending_for(*old(self), id),
    {
        let existing = self.pending_wlr.take();
        match existing {
            Option::Some(p) => {
                if p.id == id {
                    p
                } else {
                    self.load_pending_wlr(id)
                }
            },
            Option::None => self.load_pending_wlr(id),
        }
    }

    fn load_pending_wlr(&self, id: u32) -> (p: PendingWlr)
        requires
            self.wf(),
        ensures
            p@ == wlr_loaded(*self, id),
    {
        match self.zwlr_windows.get(id) {
            Option::Some(w) => PendingWlr {
                id,
                window: clone_wlr_toplevel(w),
                is_new: false,
                is_deleted: false,
            },
            Option::None => PendingWlr {
                id,
                window: ZWlrForeignTopLevel::new(id),
                is_new: true,
                is_deleted: false,
            },
        }
    }

    /// Feeds one output-head event for head `id` into the tracker. Field
    /// events accumulate directly on the per-head record; a "finished" event
    /// removes the head.
    pub fn handle_output_event(&mut self, id: u32, event: OutputHeadEvent)
        requires
            old(self).wf(),
        ensures
            final(self).wf(),
            final(self).ext_windows == old(self).ext_windows,
            final(self).zwlr_windows == old(self).zwlr_windows,
            final(self).pending_ext == old(self).pending_ext,
            final(self).pending_wlr == old(self).pending_wlr,
            final(self).window_events == old(self).window_events,
            final(self).output_events == old(self).output_events,
            match event {
                OutputHeadEvent::Finished => final(self).outputs.spec_get(id) is None,
                _ => match final(self).outputs.spec_get(id) {
                    Option::Some(o) => o@ == output_step(output_loaded(*old(self), id), event),
                    Option::None => false,
                },
            },
            forall|k2: u32|
                k2 != id ==> kt_view(final(self).outputs.spec_get(k2)) == kt_view(
                    old(self).outputs.spec_get(k2),
                ),
    {
        match event {
            OutputHeadEvent::Finished => {
                let _was_present = self.outputs.remove_key(id);
            },
            _ => {
                let mut o: Output = match self.outputs.get(id) {
                    Option::Some(existing) => clone_output(existing),
                    Option::None => {
                        let mut fresh = Output::default();
                        fresh.wl_output_id = id;
                        fresh
                    },
                };
                match event {
                    OutputHeadEvent::Name(n) => {
                        o.name = n;
                    },
                    OutputHeadEvent::Description(d) => {
                        o.description = d;
                    },
                    OutputHeadEvent::PhysicalSize(w, h) => {
                        o.size = (w, h);
                    },
                    OutputHeadEvent::Enabled(e) => {
                        o.enabled = e;
                    },
                    OutputHeadEvent::Position(x, y) => {
                        o.position = (x, y);
                    },
                    OutputHeadEvent::ScaleMillis(sc) => {
                        o.scale_millis = sc;
                    },
                    OutputHeadEvent::Make(m) => {
                        o.make = m;
                    },
                    OutputHeadEvent::Model(m) => {
                        o.model = m;
                    },
                    OutputHeadEvent::SerialNumber(sn) => {
                        o.serial_number = sn;
                    },
                    OutputHeadEvent::AdaptiveSync(a) => {
                        o.adaptive_sync = a;
                    },
                    OutputHeadEvent::Finished => {},
                }
                self.outputs.set(id, o);
            },
        }
    }

    /// The output manager's "done": all heads announced in this series have
    /// been committed, so the whole output list is published as one event.
    pub fn handle_output_manager_done(&mut self)
        requires
            old(self).wf(),
            old(self).output_events.published < u64::MAX,
        ensures
            final(self).wf(),
            final(self).ext_windows == old(self).ext_windows,
            final(self).zwlr_windows == old(self).zwlr_windows,
            final(self).outputs == old(self).outputs,
            final(self).pending_ext == old(self).pending_ext,
            final(self).pending_wlr == old(self).pending_wlr,
            final(self).window_events == old(self).window_events,
            final(self).output_events.history@.len() == old(self).output_events.history@.len() + 1,
            final(self).output_events.history@.last()@ == OutputEventView::OutputsUpdated(
                old(self).outputs.entries@.map_values(|e: KeyedEntry<Output>| e.value@),
            ),
            final(self).output_events.history@.drop_last() == old(self).output_events.history@,
    {
        let n = self.outputs.len();
        let mut list: Vec<Output> = Vec::new();
        let mut i: usize = 0;
        while i < n
            invariant
                *self == *old(self),
                self.wf(),
                n == self.outputs.entries@.len(),
                0 <= i <= n,
                list@.len() == i,
                forall|k: int|
                    0 <= k < i ==> (#[trigger] list@[k])@ == self.outputs.entries@[k].value@,
            decreases n - i,
        {
            let cloned = clone_output(&self.outputs.entries[i].value);
            list.push(cloned);
            i = i + 1;
        }
        proof {
            assert(list@.map_values(|o: Output| o@) =~= self.outputs.entries@.map_values(
                |e: KeyedEntry<Output>| e.value@,
            ));
        }
        self.output_events.publish(OutputEvent::OutputsUpdated(list));
        proof {
            assert(self.output_events.history@.drop_last() =~= old(self).output_events.history@);
        }
    }

    /// Snapshot-then-subscribe for window consumers: the currently known
    /// windows, replayed as "new window" events, together with a
    /// subscription positioned exactly after them. The embedding application
    /// holds the tracker's lock across this call, so no committed change can
    /// fall between the snapshot and the subscription.
    pub fn create_window_listener(&self) -> (r: (
        Vec<WaylandWindowEvent>,
        BroadcastSubscription,
    ))
        requires
            self.wf(),
        ensures
            r.1.cursor == self.window_events.published,
            self.window_events.pending(r.1) == Seq::<WaylandWindowEvent>::empty(),
            r.0@.len() == self.ext_windows.entries@.len() + self.zwlr_windows.entries@.len(),
            forall|i: int|
                0 <= i < self.ext_windows.entries@.len() ==> (#[trigger] r.0@[i])@
                    == WaylandWindowEventView::NewWindowExt(self.ext_windows.entries@[i].value@),
            forall|i: int|
                self.ext_windows.entries@.len() <= i < r.0@.len() ==> (#[trigger] r.0@[i])@
                    == WaylandWindowEventView::NewWindowWlr(
                    self.zwlr_windows.entries@[i - self.ext_windows.entries@.len()].value@,
                ),
    {
        let mut events: Vec<WaylandWindowEvent> = Vec::new();
        let n_ext = self.ext_windows.len();
        let mut i: usize = 0;
        while i < n_ext
            invariant
                n_ext == self.ext_windows.entries@.len(),
                0 <= i <= n_ext,
                events@.len() == i,
                forall|j: int|
                    0 <= j < i ==> (#[trigger] events@[j])@ == WaylandWindowEventView::NewWindowExt(
                        self.ext_windows.entries@[j].value@,
                    ),
            decreases n_ext - i,
        {
            let w = clone_ext_toplevel(&self.ext_windows.entries[i].value);
            events.push(WaylandWindowEvent::NewWindowExt(w));
            i = i + 1;
        }
        let n_wlr = self.zwlr_windows.len();
        let mut j: usize = 0;
        while j < n_wlr
            invariant
                n_ext == self.ext_windows.entries@.len(),
                n_wlr == self.zwlr_windows.entries@.len(),
                0 <= j <= n_wlr,
                events@.len() == n_ext + j,
                forall|k: int|
                    0 <= k < n_ext ==> (#[trigger] events@[k])@
                        == WaylandWindowEventView::NewWindowExt(
                        self.ext_windows.entries@[k].value@,
                    ),
                forall|k: int|
                    n_ext <= k < n_ext + j ==> (#[trigger] events@[k])@
                        == WaylandWindowEventView::NewWindowWlr(
                        self.zwlr_windows.entries@[k - n_ext].value@,
                    ),
            decreases n_wlr - j,
        {
            let w = clone_wlr_toplevel(&self.zwlr_windows.entries[j].value);
            events.push(WaylandWindowEvent::NewWindowWlr(w));
            j = j + 1;
        }
        let sub = self.window_events.subscribe();
        (events, sub)
    }
}

} // verus!
