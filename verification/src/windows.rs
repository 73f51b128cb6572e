//! The canonical, UI-facing window table and its reconciler. Two independent
//! update paths feed it: authoritative full refreshes (the compositor's
//! complete window list, replacing the table wholesale) and incremental
//! toplevel events from the windowing protocol, matched to table entries by
//! the cross-protocol identifier suffix rule. Every committed change
//! republishes the whole table through a coalescing latest-value and emits a
//! discrete window event.

use vstd::prelude::*;

use crate::broadcast::{BroadcastSubscription, RaceFreeBroadcaster};
use crate::events::HyprlandEvent;
use crate::latest::LatestEventValue;
use crate::text::{concat_strs, split_once_at_pair, split_once_pair, str_eq, strip_leading,
    strip_leading_chars};
use crate::wayland_manager::ExtForeignToplevel;

verus! {

/// The workspace a window sits on, as the compositor reports it per window.
#[derive(Clone, Debug)]
pub struct HyprlandPartialWorkspace {
    pub id: i32,
    pub name: String,
}

#[verifier::ext_equal]
pub struct HyprlandPartialWorkspaceView {
    pub id: i32,
    pub name: Seq<char>,
}

impl View for HyprlandPartialWorkspace {
    type V = HyprlandPartialWorkspaceView;

    open spec fn view(&self) -> HyprlandPartialWorkspaceView {
        HyprlandPartialWorkspaceView { id: self.id, name: self.name@ }
    }
}

/// One canonical window. The `address` is the compositor-assigned hex string
/// (`0x`-prefixed), globally unique and stable for the window's lifetime.
#[derive(Debug)]
pub struct HyprlandWindow {
    pub address: String,
    pub mapped: bool,
    pub hidden: bool,
    pub at: (i32, i32),
    pub size: (i32, i32),
    pub workspace: HyprlandPartialWorkspace,
    pub floating: bool,
    pub pseudo: bool,
    pub monitor: i32,
    pub class: String,
    pub title: String,
    pub initial_class: String,
    pub initial_title: String,
    pub pid: u64,
    pub xwayland: bool,
    pub pinned: bool,
    pub fullscreen: bool,
    pub fullscreen_client: bool,
    pub grouped: Vec<String>,
    pub tags: Vec<String>,
    pub swallowing: String,
    pub focus_history_id: i32,
}

#[verifier::ext_equal]
pub struct HyprlandWindowView {
    pub address: Seq<char>,
    pub mapped: bool,
    pub hidden: bool,
    pub at: (i32, i32),
    pub size: (i32, i32),
    pub workspace: HyprlandPartialWorkspaceView,
    pub floating: bool,
    pub pseudo: bool,
    pub monitor: i32,
    pub class: Seq<char>,
    pub title: Seq<char>,
    pub initial_class: Seq<char>,
    pub initial_title: Seq<char>,
    pub pid: u64,
    pub xwayland: bool,
    pub pinned: bool,
    pub fullscreen: bool,
    pub fullscreen_client: bool,
    pub grouped: Seq<Seq<char>>,
    pub tags: Seq<Seq<char>>,
    pub swallowing: Seq<char>,
    pub focus_history_id: i32,
}

impl View for HyprlandWindow {
    type V = HyprlandWindowView;

    open spec fn view(&self) -> HyprlandWindowView {
        HyprlandWindowView {
            address: self.address@,
            mapped: self.mapped,
            hidden: self.hidden,
            at: self.at,
            size: self.size,
            workspace: self.workspace@,
            floating: self.floating,
            pseudo: self.pseudo,
            monitor: self.monitor,
            class: self.class@,
            title: self.title@,
            initial_class: self.initial_class@,
            initial_title: self.initial_title@,
            pid: self.pid,
            xwayland: self.xwayland,
            pinned: self.pinned,
            fullscreen: self.fullscreen,
            fullscreen_client: self.fullscreen_client,
            grouped: self.grouped@.map_values(|s: String| s@),
            tags: self.tags@.map_values(|s: String| s@),
            swallowing: self.swallowing@,
            focus_history_id: self.focus_history_id,
        }
    }
}

/// A window record with every field empty or zero.
pub open spec fn empty_window_view() -> HyprlandWindowView {
    HyprlandWindowView {
        address: Seq::empty(),
        mapped: false,
        hidden: false,
        at: (0, 0),
        size: (0, 0),
        workspace: HyprlandPartialWorkspaceView { id: 0, name: Seq::empty() },
        floating: false,
        pseudo: false,
        monitor: 0,
        class: Seq::empty(),
        title: Seq::empty(),
        initial_class: Seq::empty(),
        initial_title: Seq::empty(),
        pid: 0,
        xwayland: false,
        pinned: false,
        fullscreen: false,
        fullscreen_client: false,
        grouped: Seq::empty(),
        tags: Seq::empty(),
        swallowing: Seq::empty(),
        focus_history_id: 0,
    }
}

impl Default for HyprlandWindow {
    fn default() -> (r: Self)
        ensures
            r@ == empty_window_view(),
    {
        let r = HyprlandWindow {
            address: String::new(),
            mapped: false,
            hidden: false,
            at: (0, 0),
            size: (0, 0),
            workspace: HyprlandPartialWorkspace { id: 0, name: String::new() },
            floating: false,
            pseudo: false,
            monitor: 0,
            class: String::new(),
            title: String::new(),
            initial_class: String::new(),
            initial_title: String::new(),
            pid: 0,
            xwayland: false,
            pinned: false,
            fullscreen: false,
            fullscreen_client: false,
            grouped: Vec::new(),
            tags: Vec::new(),
            swallowing: String::new(),
            focus_history_id: 0,
        };
        proof {
            assert(r@ =~~= empty_window_view());
        }
        r
    }
}

/// Clones a string list element by element.
pub fn clone_string_vec(v: &Vec<String>) -> (r: Vec<String>)
    ensures
        r@.map_values(|s: String| s@) == v@.map_values(|s: String| s@),
{
    let mut out: Vec<String> = Vec::new();
    let mut i: usize = 0;
    while i < v.len()
        invariant
            0 <= i <= v@.len(),
            out@.len() == i,
            forall|j: int| 0 <= j < i ==> (#[trigger] out@[j])@ == v@[j]@,
        decreases v@.len() - i,
    {
        out.push(v[i].clone());
        i = i + 1;
    }
    proof {
        assert(out@.map_values(|s: String| s@) =~= v@.map_values(|s: String| s@));
    }
    out
}

/// Clones a window field by field.
pub fn clone_window(w: &HyprlandWindow) -> (r: HyprlandWindow)
    ensures
        r@ == w@,
{
    let r = HyprlandWindow {
        address: w.address.clone(),
        mapped: w.mapped,
        hidden: w.hidden,
        at: w.at,
        size: w.size,
        workspace: HyprlandPartialWorkspace {
            id: w.workspace.id,
            name: w.workspace.name.clone(),
        },
        floating: w.floating,
        pseudo: w.pseudo,
        monitor: w.monitor,
        class: w.class.clone(),
        title: w.title.clone(),
        initial_class: w.initial_class.clone(),
        initial_title: w.initial_title.clone(),
        pid: w.pid,
        xwayland: w.xwayland,
        pinned: w.pinned,
        fullscreen: w.fullscreen,
        fullscreen_client: w.fullscreen_client,
        grouped: clone_string_vec(&w.grouped),
        tags: clone_string_vec(&w.tags),
        swallowing: w.swallowing.clone(),
        focus_history_id: w.focus_history_id,
    };
    proof {
        assert(r@ =~~= w@);
    }
    r
}

/// Character-wise equality of two string lists.
fn string_vec_eq(a: &Vec<String>, b: &Vec<String>) -> (r: bool)
    ensures
        r == (a@.map_values(|s: String| s@) == b@.map_values(|s: String| s@)),
{
    if a.len() != b.len() {
        proof {
            assert(a@.map_values(|s: String| s@).len() != b@.map_values(|s: String| s@).len());
        }
        return false;
    }
    let n = a.len();
    let mut i: usize = 0;
    while i < n
        invariant
            n == a@.len(),
            n == b@.len(),
            0 <= i <= n,
            forall|j: int| 0 <= j < i ==> (#[trigger] a@[j])@ == b@[j]@,
        decreases n - i,
    {
        if !str_eq(a[i].as_str(), b[i].as_str()) {
            proof {
                assert(a@.map_values(|s: String| s@)[i as int] != b@.map_values(
                    |s: String| s@,
                )[i as int]);
            }
            return false;
        }
        i = i + 1;
    }
    proof {
        assert(a@.map_values(|s: String| s@) =~= b@.map_values(|s: String| s@));
    }
    true
}

/// Field-wise equality of two windows, equivalent to equality of their views.
pub fn window_eq(a: &HyprlandWindow, b: &HyprlandWindow) -> (r: bool)
    ensures
        r == (a@ == b@),
{
    let r = a.address == b.address && a.mapped == b.mapped && a.hidden == b.hidden && a.at.0
        == b.at.0 && a.at.1 == b.at.1 && a.size.0 == b.size.0 && a.size.1 == b.size.1
        && a.workspace.id == b.workspace.id && a.workspace.name == b.workspace.name && a.floating
        == b.floating && a.pseudo == b.pseudo && a.monitor == b.monitor && a.class == b.class
        && a.title == b.title && a.initial_class == b.initial_class && a.initial_title
        == b.initial_title && a.pid == b.pid && a.xwayland == b.xwayland && a.pinned == b.pinned
        && a.fullscreen == b.fullscreen && a.fullscreen_client == b.fullscreen_client
        && string_vec_eq(&a.grouped, &b.grouped) && string_vec_eq(&a.tags, &b.tags)
        && a.swallowing == b.swallowing && a.focus_history_id == b.focus_history_id;
    proof {
        if r {
            assert(a.at =~= b.at);
            assert(a.size =~= b.size);
            assert(a@ =~~= b@);
        }
    }
    r
}

/// The views of a window list.
pub open spec fn views_of(l: Seq<HyprlandWindow>) -> Seq<HyprlandWindowView> {
    l.map_values(|w: HyprlandWindow| w@)
}

/// Field-wise equality of two window lists, equivalent to equality of views.
pub fn windows_list_eq(a: &Vec<HyprlandWindow>, b: &Vec<HyprlandWindow>) -> (r: bool)
    ensures
        r == (views_of(a@) == views_of(b@)),
{
    if a.len() != b.len() {
        proof {
            assert(views_of(a@).len() != views_of(b@).len());
        }
        return false;
    }
    let n = a.len();
    let mut i: usize = 0;
    while i < n
        invariant
            n == a@.len(),
            n == b@.len(),
            0 <= i <= n,
            forall|j: int| 0 <= j < i ==> (#[trigger] a@[j])@ == b@[j]@,
        decreases n - i,
    {
        if !window_eq(&a[i], &b[i]) {
            proof {
                assert(views_of(a@)[i as int] != views_of(b@)[i as int]);
            }
            return false;
        }
        i = i + 1;
    }
    proof {
        assert(views_of(a@) =~= views_of(b@));
    }
    true
}

impl HyprlandWindow {
    /// Applies a window-related compositor event to this record. Only the
    /// event kinds below carry per-window updates; for an `OpenWindow` the
    /// record must be fresh or already carry the event's address.
    pub fn update_from_event(&mut self, event: &HyprlandEvent)
        requires
            match event {
                HyprlandEvent::MoveWindowV2(_) => true,
                HyprlandEvent::OpenWindow(ow) => old(self).address@.len() == 0 || old(
                    self,
                ).address@ == ow.address@,
                _ => false,
            },
        ensures
            match event {
                HyprlandEvent::MoveWindowV2(mw) => final(self)@ == (HyprlandWindowView {
                    workspace: HyprlandPartialWorkspaceView {
                        id: mw.workspace_id,
                        name: mw.workspace_name@,
                    },
                    ..old(self)@
                }),
                HyprlandEvent::OpenWindow(ow) => final(self)@ == (HyprlandWindowView {
                    address: ow.address@,
                    class: ow.class@,
                    initial_class: ow.class@,
                    title: ow.title@,
                    initial_title: ow.title@,
                    ..old(self)@
                }),
                _ => false,
            },
    {
        match event {
            HyprlandEvent::MoveWindowV2(move_window) => {
                self.workspace.id = move_window.workspace_id;
                self.workspace.name = move_window.workspace_name.clone();
                proof {
                    assert(final(self)@ =~~= (HyprlandWindowView {
                        workspace: HyprlandPartialWorkspaceView {
                            id: move_window.workspace_id,
                            name: move_window.workspace_name@,
                        },
                        ..old(self)@
                    }));
                }
            },
            HyprlandEvent::OpenWindow(open_window) => {
                self.address = open_window.address.clone();
                self.initial_class = open_window.class.clone();
                self.class = open_window.class.clone();
                self.initial_title = open_window.title.clone();
                self.title = open_window.title.clone();
                proof {
                    assert(final(self)@ =~~= (HyprlandWindowView {
                        address: open_window.address@,
                        class: open_window.class@,
                        initial_class: open_window.class@,
                        title: open_window.title@,
                        initial_title: open_window.title@,
                        ..old(self)@
                    }));
                }
            },
            _ => {
                proof {
                    assert(false);
                }
            },
        }
    }

    /// Patches address and title from an ext-protocol toplevel, deriving the
    /// compositor address from the toplevel identifier's suffix.
    pub fn update_from(&mut self, foreign_toplevel: &ExtForeignToplevel)
        requires
            split_once_pair(foreign_toplevel.identifier@, '-', '>') is Some,
        ensures
            final(self)@ == (HyprlandWindowView {
                address: toplevel_address(foreign_toplevel.identifier@),
                title: foreign_toplevel.title@,
                ..old(self)@
            }),
    {
        match split_once_at_pair(foreign_toplevel.identifier.as_str(), '-', '>') {
            Option::Some((_prefix, tail)) => {
                let stripped = strip_leading_chars(tail, '0');
                self.address = concat_strs("0x", stripped);
                self.title = foreign_toplevel.title.clone();
                proof {
                    assert(final(self)@ =~~= (HyprlandWindowView {
                        address: toplevel_address(foreign_toplevel.identifier@),
                        title: foreign_toplevel.title@,
                        ..old(self)@
                    }));
                }
            },
            Option::None => {
                proof {
                    assert(false);
                }
            },
        }
    }

    /// A provisional window synthesized from a toplevel alone: all fields
    /// default except the derived address and the title.
    pub fn from_toplevel(foreign_toplevel: &ExtForeignToplevel) -> (r: Self)
        requires
            split_once_pair(foreign_toplevel.identifier@, '-', '>') is Some,
        ensures
            r@ == (HyprlandWindowView {
                address: toplevel_address(foreign_toplevel.identifier@),
                title: foreign_toplevel.title@,
                ..empty_window_view()
            }),
    {
        let mut new_window = HyprlandWindow::default();
        new_window.update_from(foreign_toplevel);
        new_window
    }
}

/// The compositor address that a toplevel identifier denotes: its tail after
/// the `->` separator, leading zeros stripped, behind a `0x` prefix.
pub open spec fn toplevel_address(identifier: Seq<char>) -> Seq<char> {
    match split_once_pair(identifier, '-', '>') {
        Option::Some(p) => "0x"@ + strip_leading(p.1, '0'),
        Option::None => Seq::empty(),
    }
}

/// First index of a window carrying `addr`, if any.
pub open spec fn first_match_address(l: Seq<HyprlandWindowView>, addr: Seq<char>) -> Option<int>
    decreases l.len(),
{
    if l.len() == 0 {
        Option::None
    } else if l[0].address == addr {
        Option::Some(0)
    } else {
        match first_match_address(l.subrange(1, l.len() as int), addr) {
            Option::None => Option::None,
            Option::Some(i) => Option::Some(i + 1),
        }
    }
}

pub proof fn lemma_first_match_address_first(l: Seq<HyprlandWindowView>, addr: Seq<char>, i: int)
    requires
        0 <= i < l.len(),
        l[i].address == addr,
        forall|j: int| 0 <= j < i ==> (#[trigger] l[j]).address != addr,
    ensures
        first_match_address(l, addr) == Option::Some(i),
    decreases l.len(),
{
    if i == 0 {
    } else {
        let t = l.subrange(1, l.len() as int);
        assert(forall|j: int| 0 <= j < i - 1 ==> #[trigger] t[j] == l[j + 1]);
        lemma_first_match_address_first(t, addr, i - 1);
    }
}

pub proof fn lemma_first_match_address_none(l: Seq<HyprlandWindowView>, addr: Seq<char>)
    requires
        forall|j: int| 0 <= j < l.len() ==> (#[trigger] l[j]).address != addr,
    ensures
        first_match_address(l, addr) is None,
    decreases l.len(),
{
    if l.len() == 0 {
    } else {
        let t = l.subrange(1, l.len() as int);
        assert(forall|j: int| 0 <= j < t.len() ==> #[trigger] t[j] == l[j + 1]);
        lemma_first_match_address_none(t, addr);
    }
}

pub proof fn lemma_first_match_address_valid(l: Seq<HyprlandWindowView>, addr: Seq<char>)
    ensures
        first_match_address(l, addr) matches Option::Some(i) ==> 0 <= i < l.len() && l[i].address
            == addr,
    decreases l.len(),
{
    if l.len() == 0 {
    } else if l[0].address == addr {
    } else {
        lemma_first_match_address_valid(l.subrange(1, l.len() as int), addr);
    }
}

/// The isolated, documented identifier-matching rule: the first window whose
/// address equals the address the toplevel identifier denotes ("first match
/// wins" when the suffix rule is ambiguous).
pub fn find_matching_window(windows: &Vec<HyprlandWindow>, identifier: &str) -> (r: Option<usize>)
    requires
        split_once_pair(identifier@, '-', '>') is Some,
    ensures
        r matches Option::Some(i) ==> first_match_address(
            views_of(windows@),
            toplevel_address(identifier@),
        ) == Option::Some(i as int),
        r is None ==> first_match_address(views_of(windows@), toplevel_address(identifier@))
            is None,
{
    let addr: String = match split_once_at_pair(identifier, '-', '>') {
        Option::Some((_prefix, tail)) => concat_strs("0x", strip_leading_chars(tail, '0')),
        Option::None => String::new(),
    };
    let n = windows.len();
    let mut i: usize = 0;
    while i < n
        invariant
            n == windows@.len(),
            0 <= i <= n,
            addr@ == toplevel_address(identifier@),
            forall|j: int| 0 <= j < i ==> (#[trigger] windows@[j])@.address != addr@,
        decreases n - i,
    {
        if str_eq(windows[i].address.as_str(), addr.as_str()) {
            proof {
                assert(views_of(windows@)[i as int].address == addr@);
                assert(forall|j: int|
                    0 <= j < i ==> (#[trigger] views_of(windows@)[j]).address != addr@);
                lemma_first_match_address_first(views_of(windows@), addr@, i as int);
            }
            return Option::Some(i);
        }
        i = i + 1;
    }
    proof {
        assert(forall|j: int| 0 <= j < n ==> (#[trigger] views_of(windows@)[j]).address != addr@);
        lemma_first_match_address_none(views_of(windows@), addr@);
    }
    Option::None
}

/// A discrete change of the canonical window table.
#[derive(Debug)]
pub enum HyprlandWindowEvent {
    NewWindow(HyprlandWindow),
    ModifiedWindow(HyprlandWindow),
    ClosedWindow(String),
}

pub enum HyprlandWindowEventView {
    NewWindow(HyprlandWindowView),
    ModifiedWindow(HyprlandWindowView),
    ClosedWindow(Seq<char>),
}

impl View for HyprlandWindowEvent {
    type V = HyprlandWindowEventView;

    open spec fn view(&self) -> HyprlandWindowEventView {
        match self {
            HyprlandWindowEvent::NewWindow(w) => HyprlandWindowEventView::NewWindow(w@),
            HyprlandWindowEvent::ModifiedWindow(w) => HyprlandWindowEventView::ModifiedWindow(w@),
            HyprlandWindowEvent::ClosedWindow(a) => HyprlandWindowEventView::ClosedWindow(a@),
        }
    }
}

/// The reconciler: the canonical window table behind a coalescing
/// latest-value, plus a broadcaster of discrete window events.
pub struct HyprlandWindows {
    pub windows: LatestEventValue<Vec<HyprlandWindow>>,
    pub window_events: RaceFreeBroadcaster<HyprlandWindowEvent>,
}

/// One table commit at the latest-value level: the iteration advances only
/// when the content actually changed.
pub open spec fn committed_table(
    iteration: int,
    table: Seq<HyprlandWindowView>,
    list: Seq<HyprlandWindowView>,
) -> (int, Seq<HyprlandWindowView>) {
    if list == table {
        (iteration, table)
    } else {
        (iteration + 1, list)
    }
}

/// `l` without the windows whose address is `addr`.
pub open spec fn remove_address(l: Seq<HyprlandWindowView>, addr: Seq<char>) -> Seq<
    HyprlandWindowView,
>
    decreases l.len(),
{
    if l.len() == 0 {
        Seq::empty()
    } else if l[0].address == addr {
        remove_address(l.subrange(1, l.len() as int), addr)
    } else {
        seq![l[0]] + remove_address(l.subrange(1, l.len() as int), addr)
    }
}

/// Appending a window commutes with address filtering.
pub proof fn lemma_remove_address_push(
    l: Seq<HyprlandWindowView>,
    w: HyprlandWindowView,
    addr: Seq<char>,
)
    ensures
        remove_address(l.push(w), addr) == (if w.address == addr {
            remove_address(l, addr)
        } else {
            remove_address(l, addr).push(w)
        }),
    decreases l.len(),
{
    let p = l.push(w);
    if l.len() == 0 {
        assert(p.len() == 1);
        assert(p[0] == w);
        assert(p.subrange(1, 1) =~= Seq::<HyprlandWindowView>::empty());
        assert(remove_address(Seq::<HyprlandWindowView>::empty(), addr) == Seq::<
            HyprlandWindowView,
        >::empty());
        assert(remove_address(l, addr) == Seq::<HyprlandWindowView>::empty());
        if w.address == addr {
        } else {
            assert(remove_address(p, addr) =~= remove_address(l, addr).push(w));
        }
    } else {
        assert(p[0] == l[0]);
        assert(p.subrange(1, p.len() as int) =~= l.subrange(1, l.len() as int).push(w));
        lemma_remove_address_push(l.subrange(1, l.len() as int), w, addr);
        if l[0].address == addr {
        } else {
            if w.address == addr {
            } else {
                assert(remove_address(p, addr) =~= remove_address(l, addr).push(w));
            }
        }
    }
}

/// No window with `addr` survives the filter.
pub proof fn lemma_remove_address_absent(l: Seq<HyprlandWindowView>, addr: Seq<char>)
    ensures
        first_match_address(remove_address(l, addr), addr) is None,
    decreases l.len(),
{
    if l.len() == 0 {
        lemma_first_match_address_none(remove_address(l, addr), addr);
    } else {
        let rest = l.subrange(1, l.len() as int);
        lemma_remove_address_absent(rest, addr);
        if l[0].address == addr {
        } else {
            let r = remove_address(l, addr);
            let rr = remove_address(rest, addr);
            lemma_first_match_address_valid(rr, addr);
            assert forall|j: int| 0 <= j < r.len() implies (#[trigger] r[j]).address != addr by {
                if j == 0 {
                    assert(r[0] == l[0]);
                } else {
                    assert(r[j] == rr[j - 1]);
                    if rr[j - 1].address == addr {
                        let jj = j - 1;
                        lemma_first_match_rr_some(rr, addr, jj);
                    }
                }
            }
            lemma_first_match_address_none(r, addr);
        }
    }
}

/// If some element carries the address, `first_match_address` finds one.
proof fn lemma_first_match_rr_some(l: Seq<HyprlandWindowView>, addr: Seq<char>, j: int)
    requires
        0 <= j < l.len(),
        l[j].address == addr,
    ensures
        first_match_address(l, addr) is Some,
    decreases j,
{
    if l[0].address == addr {
    } else {
        let t = l.subrange(1, l.len() as int);
        assert(t[j - 1] == l[j]);
        lemma_first_match_rr_some(t, addr, j - 1);
    }
}

impl HyprlandWindows {
    pub open spec fn wf(self) -> bool {
        self.window_events.wf()
    }

    /// The current canonical table, as views.
    pub open spec fn table(self) -> Seq<HyprlandWindowView> {
        views_of(self.windows.value@)
    }

    /// An empty reconciler: no windows, iteration zero, nothing broadcast.
    pub fn new() -> (r: Self)
        ensures
            r.wf(),
            r.windows.iteration == 0,
            r.table() == Seq::<HyprlandWindowView>::empty(),
            r.window_events.history@ == Seq::<HyprlandWindowEvent>::empty(),
    {
        let r = HyprlandWindows {
            windows: LatestEventValue { iteration: 0, value: Vec::new() },
            window_events: RaceFreeBroadcaster::new(1024),
        };
        proof {
            assert(r.table() =~= Seq::<HyprlandWindowView>::empty());
        }
        r
    }

    /// A listener for the canonical window table's latest-value; paired
    /// with the table read under one lock it is the snapshot-then-subscribe
    /// operation for table consumers.
    pub fn get_windows_update_emitter(&self) -> (r: crate::latest::LatestEventValueListener)
        ensures
            r.last_seen_iteration == 0,
    {
        crate::latest::LatestEventValueListener::new()
    }

    /// Commits a new table, advancing the latest-value iteration only when
    /// the content differs (the content-equality short-circuit).
    fn commit_table(&mut self, new_table: Vec<HyprlandWindow>)
        requires
            old(self).windows.iteration < i64::MAX,
        ensures
            final(self).window_events == old(self).window_events,
            (final(self).windows.iteration as int, final(self).table()) == committed_table(
                old(self).windows.iteration as int,
                old(self).table(),
                views_of(new_table@),
            ),
    {
        if !windows_list_eq(&self.windows.value, &new_table) {
            self.windows.update(new_table);
        }
    }

    /// Authoritative refresh: the compositor's full window list replaces the
    /// table wholesale. Re-publishing an unchanged list does not advance the
    /// latest-value iteration, so listeners are not woken for equal content.
    pub fn apply_authoritative_refresh(&mut self, list: Vec<HyprlandWindow>)
        requires
            old(self).wf(),
            old(self).windows.iteration < i64::MAX,
        ensures
            final(self).wf(),
            final(self).window_events == old(self).window_events,
            (final(self).windows.iteration as int, final(self).table()) == committed_table(
                old(self).windows.iteration as int,
                old(self).table(),
                views_of(list@),
            ),
    {
        self.commit_table(list);
    }

    /// A `closewindow` compositor event: every window with the given address
    /// leaves the table, and the closure is observable as a discrete
    /// `ClosedWindow` event carrying that address.
    pub fn apply_close_event(&mut self, address: &str)
        requires
            old(self).wf(),
            old(self).windows.iteration < i64::MAX,
            old(self).window_events.published < u64::MAX,
        ensures
            final(self).wf(),
            (final(self).windows.iteration as int, final(self).table()) == committed_table(
                old(self).windows.iteration as int,
                old(self).table(),
                remove_address(old(self).table(), address@),
            ),
            first_match_address(final(self).table(), address@) is None,
            final(self).window_events.history@.len() == old(self).window_events.history@.len() + 1,
            final(self).window_events.history@.last()@ == HyprlandWindowEventView::ClosedWindow(
                address@,
            ),
            final(self).window_events.history@.drop_last() == old(self).window_events.history@,
    {
        let n = self.windows.value.len();
        let mut kept: Vec<HyprlandWindow> = Vec::new();
        let mut i: usize = 0;
        proof {
            assert(self.windows.value@.subrange(0, 0) =~= Seq::<HyprlandWindow>::empty());
            assert(views_of(Seq::<HyprlandWindow>::empty()) =~= Seq::<HyprlandWindowView>::empty());
            assert(views_of(kept@) =~= remove_address(
                views_of(self.windows.value@.subrange(0, 0)),
                address@,
            ));
        }
        while i < n
            invariant
                *self == *old(self),
                self.wf(),
                n == self.windows.value@.len(),
                0 <= i <= n,
                views_of(kept@) == remove_address(
                    views_of(self.windows.value@.subrange(0, i as int)),
                    address@,
                ),
            decreases n - i,
        {
            let ghost pre = views_of(self.windows.value@.subrange(0, i as int));
            let w = &self.windows.value[i];
            let keep = !str_eq(w.address.as_str(), address);
            if keep {
                let cloned = clone_window(w);
                kept.push(cloned);
            }
            proof {
                lemma_remove_address_push(pre, self.windows.value@[i as int]@, address@);
                assert(views_of(self.windows.value@.subrange(0, i + 1)) =~= pre.push(
                    self.windows.value@[i as int]@,
                ));
                if keep {
                    assert(views_of(kept@) =~= remove_address(pre, address@).push(
                        self.windows.value@[i as int]@,
                    ));
                }
            }
            i = i + 1;
        }
        proof {
            assert(self.windows.value@.subrange(0, n as int) =~= self.windows.value@);
        }
        let ghost filtered = remove_address(old(self).table(), address@);
        self.commit_table(kept);
        proof {
            lemma_remove_address_absent(old(self).table(), address@);
        }
        self.window_events.publish(HyprlandWindowEvent::ClosedWindow(String::from_str(address)));
        proof {
            assert(self.window_events.history@.drop_last() =~= old(self).window_events.history@);
        }
    }
}

/// The compositor events on which the reconciler refreshes its table.
pub fn window_event_triggers_refresh(event: &HyprlandEvent) -> (r: bool)
    ensures
        r == match event {
            HyprlandEvent::CloseWindow(_) => true,
            HyprlandEvent::MoveWindowV2(_) => true,
            HyprlandEvent::OpenWindow(_) => true,
            HyprlandEvent::MonitorAddedV2(_) => true,
            HyprlandEvent::MonitorRemoved(_) => true,
            HyprlandEvent::ChangeFloatingMode(_) => true,
            _ => false,
        },
{
    match event {
        HyprlandEvent::CloseWindow(_) => true,
        HyprlandEvent::MoveWindowV2(_) => true,
        HyprlandEvent::OpenWindow(_) => true,
        HyprlandEvent::MonitorAddedV2(_) => true,
        HyprlandEvent::MonitorRemoved(_) => true,
        HyprlandEvent::ChangeFloatingMode(_) => true,
        _ => false,
    }
}

/// Round-trip idempotence of an authoritative refresh at the latest-value
/// level: committing the same list twice is the same as committing it once;
/// in particular the second commit does not advance the iteration, so
/// listeners observe no difference.
pub proof fn lemma_authoritative_refresh_idempotent(
    iteration: int,
    table: Seq<HyprlandWindowView>,
    list: Seq<HyprlandWindowView>,
)
    ensures
        committed_table(
            committed_table(iteration, table, list).0,
            committed_table(iteration, table, list).1,
            list,
        ) == committed_table(iteration, table, list),
{
}


impl HyprlandWindows {
    /// Clones the current table into a fresh list.
    fn clone_table(&self) -> (r: Vec<HyprlandWindow>)
        ensures
            views_of(r@) == self.table(),
    {
        let n = self.windows.value.len();
        let mut out: Vec<HyprlandWindow> = Vec::new();
        let mut i: usize = 0;
        while i < n
            invariant
                n == self.windows.value@.len(),
                0 <= i <= n,
                out@.len() == i,
                forall|j: int| 0 <= j < i ==> (#[trigger] out@[j])@ == self.windows.value@[j]@,
            decreases n - i,
        {
            let cloned = clone_window(&self.windows.value[i]);
            out.push(cloned);
            i = i + 1;
        }
        proof {
            assert(views_of(out@) =~= self.table());
        }
        out
    }

    /// Snapshot-then-subscribe for table consumers: the current canonical
    /// table together with a subscription positioned exactly at the snapshot
    /// point, so no discrete window event is lost or duplicated across the
    /// boundary. The embedding application holds the reconciler's lock
    /// across this call.
    pub fn snapshot_and_subscribe(&self) -> (r: (Vec<HyprlandWindow>, BroadcastSubscription))
        requires
            self.wf(),
        ensures
            views_of(r.0@) == self.table(),
            r.1.cursor == self.window_events.published,
            self.window_events.pending(r.1) == Seq::<HyprlandWindowEvent>::empty(),
    {
        let snapshot = self.clone_table();
        let sub = self.window_events.subscribe();
        (snapshot, sub)
    }

    /// A windowing-protocol "new or updated toplevel" event: the first window
    /// whose address matches the toplevel identifier's suffix is patched in
    /// place; when none matches, a provisional window is synthesized from the
    /// toplevel alone so consumers have something to render until the next
    /// authoritative refresh. The committed change is also observable as a
    /// discrete `ModifiedWindow` or `NewWindow` event.
    pub fn apply_toplevel(&mut self, foreign_toplevel: &ExtForeignToplevel)
        requires
            old(self).wf(),
            old(self).windows.iteration < i64::MAX,
            old(self).window_events.published < u64::MAX,
            split_once_pair(foreign_toplevel.identifier@, '-', '>') is Some,
        ensures
            final(self).wf(),
            final(self).window_events.history@.len() == old(self).window_events.history@.len() + 1,
            final(self).window_events.history@.drop_last() == old(self).window_events.history@,
            ({
                let addr = toplevel_address(foreign_toplevel.identifier@);
                let t0 = old(self).table();
                match first_match_address(t0, addr) {
                    Option::Some(i) => {
                        let patched = (HyprlandWindowView {
                            address: addr,
                            title: foreign_toplevel.title@,
                            ..t0[i]
                        });
                        &&& (final(self).windows.iteration as int, final(self).table())
                            == committed_table(
                            old(self).windows.iteration as int,
                            t0,
                            t0.update(i, patched),
                        )
                        &&& final(self).window_events.history@.last()@
                            == HyprlandWindowEventView::ModifiedWindow(patched)
                    },
                    Option::None => {
                        let provisional = (HyprlandWindowView {
                            address: addr,
                            title: foreign_toplevel.title@,
                            ..empty_window_view()
                        });
                        &&& (final(self).windows.iteration as int, final(self).table())
                            == committed_table(
                            old(self).windows.iteration as int,
                            t0,
                            t0.push(provisional),
                        )
                        &&& final(self).window_events.history@.last()@
                            == HyprlandWindowEventView::NewWindow(provisional)
                    },
                }
            }),
    {
        let found = find_matching_window(&self.windows.value, foreign_toplevel.identifier.as_str());
        let mut updated = self.clone_table();
        match found {
            Option::Some(i) => {
                proof {
                    lemma_first_match_address_valid(
                        self.table(),
                        toplevel_address(foreign_toplevel.identifier@),
                    );
                }
                let mut w = clone_window(&self.windows.value[i]);
                w.update_from(foreign_toplevel);
                let committed = clone_window(&w);
                updated.set(i, w);
                proof {
                    assert(views_of(updated@) =~= old(self).table().update(
                        i as int,
                        committed@,
                    ));
                }
                self.commit_table(updated);
                self.window_events.publish(HyprlandWindowEvent::ModifiedWindow(committed));
                proof {
                    assert(self.window_events.history@.drop_last() =~= old(
                        self,
                    ).window_events.history@);
                }
            },
            Option::None => {
                let w = HyprlandWindow::from_toplevel(foreign_toplevel);
                let committed = clone_window(&w);
                updated.push(w);
                proof {
                    assert(views_of(updated@) =~= old(self).table().push(committed@));
                }
                self.commit_table(updated);
                self.window_events.publish(HyprlandWindowEvent::NewWindow(committed));
                proof {
                    assert(self.window_events.history@.drop_last() =~= old(
                        self,
                    ).window_events.history@);
                }
            },
        }
    }

    /// A windowing-protocol "removed toplevel" event: the first matching
    /// window leaves the table and its closure is observable as a discrete
    /// `ClosedWindow` event; with no match, nothing changes.
    pub fn apply_toplevel_removed(&mut self, foreign_toplevel: &ExtForeignToplevel)
        requires
            old(self).wf(),
            old(self).windows.iteration < i64::MAX,
            old(self).window_events.published < u64::MAX,
            split_once_pair(foreign_toplevel.identifier@, '-', '>') is Some,
        ensures
            final(self).wf(),
            ({
                let addr = toplevel_address(foreign_toplevel.identifier@);
                let t0 = old(self).table();
                match first_match_address(t0, addr) {
                    Option::Some(i) => {
                        &&& (final(self).windows.iteration as int, final(self).table())
                            == committed_table(
                            old(self).windows.iteration as int,
                            t0,
                            t0.remove(i),
                        )
                        &&& final(self).window_events.history@.len() == old(
                            self,
                        ).window_events.history@.len() + 1
                        &&& final(self).window_events.history@.last()@
                            == HyprlandWindowEventView::ClosedWindow(t0[i].address)
                        &&& final(self).window_events.history@.drop_last() == old(
                            self,
                        ).window_events.history@
                    },
                    Option::None => *final(self) == *old(self),
                }
            }),
    {
        let found = find_matching_window(&self.windows.value, foreign_toplevel.identifier.as_str());
        match found {
            Option::Some(i) => {
                proof {
                    lemma_first_match_address_valid(
                        self.table(),
                        toplevel_address(foreign_toplevel.identifier@),
                    );
                }
                let mut updated = self.clone_table();
                let removed = updated.remove(i);
                let closed_address = removed.address;
                proof {
                    old(self).table().remove_ensures(i as int);
                    assert(views_of(updated@) =~= old(self).table().remove(i as int));
                }
                self.commit_table(updated);
                self.window_events.publish(HyprlandWindowEvent::ClosedWindow(closed_address));
                proof {
                    assert(self.window_events.history@.drop_last() =~= old(
                        self,
                    ).window_events.history@);
                }
            },
            Option::None => {},
        }
    }
}

} // verus!
