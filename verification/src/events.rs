//! Typed events of the compositor's event socket and the verified line
//! parser. A line has the shape `command>>payload`; payload fields are
//! comma-separated positional values. Unknown commands and malformed numeric
//! fields yield no event rather than an error.

use vstd::prelude::*;

use crate::broadcast::{BroadcastSubscription, RaceFreeBroadcaster};
use crate::latest::{LatestEventValue, LatestEventValueListener};
use crate::text::{
    parse_i32_spec, parse_i32_str, split_once_at_char, split_once_at_pair, split_once_char,
    split_once_pair, splitn_char, splitn_char_str, str_eq,
};

verus! {

/// A payload type that can be decoded from the text after `>>`.
pub trait EventData: Clone + Sized + View {
    /// Mathematical description of the decoding.
    spec fn spec_parse(data: Seq<char>) -> Option<Self::V>;

    /// Decodes the payload; returns `None` exactly when `spec_parse` does.
    fn parse(data: &str) -> (r: Option<Self>)
        ensures
            match (r, Self::spec_parse(data@)) {
                (Option::Some(v), Option::Some(sv)) => v@ == sv,
                (Option::None, Option::None) => true,
                _ => false,
            },
    ;
}

#[derive(Clone, Debug)]
pub struct MonitorAddedV2 {
    pub id: String,
    pub name: String,
    pub description: String,
}

pub struct MonitorAddedV2View {
    pub id: Seq<char>,
    pub name: Seq<char>,
    pub description: Seq<char>,
}

impl View for MonitorAddedV2 {
    type V = MonitorAddedV2View;

    open spec fn view(&self) -> MonitorAddedV2View {
        MonitorAddedV2View { id: self.id@, name: self.name@, description: self.description@ }
    }
}

impl EventData for MonitorAddedV2 {
    open spec fn spec_parse(data: Seq<char>) -> Option<MonitorAddedV2View> {
        let parts = splitn_char(data, 3, ',');
        if parts.len() == 3 {
            Option::Some(
                MonitorAddedV2View { id: parts[0], name: parts[1], description: parts[2] },
            )
        } else {
            Option::None
        }
    }

    fn parse(data: &str) -> (r: Option<Self>) {
        let mut parts = splitn_char_str(data, 3, ',');
        if parts.len() == 3 {
            let description = parts.pop().unwrap();
            let name = parts.pop().unwrap();
            let id = parts.pop().unwrap();
            Option::Some(MonitorAddedV2 { id, name, description })
        } else {
            Option::None
        }
    }
}

#[derive(Clone, Debug)]
pub struct CreateWorkspaceV2 {
    pub id: String,
    pub name: String,
}

pub struct CreateWorkspaceV2View {
    pub id: Seq<char>,
    pub name: Seq<char>,
}

impl View for CreateWorkspaceV2 {
    type V = CreateWorkspaceV2View;

    open spec fn view(&self) -> CreateWorkspaceV2View {
        CreateWorkspaceV2View { id: self.id@, name: self.name@ }
    }
}

impl EventData for CreateWorkspaceV2 {
    open spec fn spec_parse(data: Seq<char>) -> Option<CreateWorkspaceV2View> {
        match split_once_char(data, ',') {
            Option::None => Option::None,
            Option::Some(p) => Option::Some(CreateWorkspaceV2View { id: p.0, name: p.1 }),
        }
    }

    fn parse(data: &str) -> (r: Option<Self>) {
        match split_once_at_char(data, ',') {
            Option::Some((id, name)) => Option::Some(
                CreateWorkspaceV2 { id: String::from_str(id), name: String::from_str(name) },
            ),
            Option::None => Option::None,
        }
    }
}

#[derive(Clone, Debug)]
pub struct DestroyWorkspaceV2 {
    pub id: String,
    pub name: String,
}

pub struct DestroyWorkspaceV2View {
    pub id: Seq<char>,
    pub name: Seq<char>,
}

impl View for DestroyWorkspaceV2 {
    type V = DestroyWorkspaceV2View;

    open spec fn view(&self) -> DestroyWorkspaceV2View {
        DestroyWorkspaceV2View { id: self.id@, name: self.name@ }
    }
}

#[derive(Clone, Debug)]
pub struct MoveWorkspace {
    pub name: String,
    pub monitor_name: String,
}

pub struct MoveWorkspaceView {
    pub name: Seq<char>,
    pub monitor_name: Seq<char>,
}

impl View for MoveWorkspace {
    type V = MoveWorkspaceView;

    open spec fn view(&self) -> MoveWorkspaceView {
        MoveWorkspaceView { name: self.name@, monitor_name: self.monitor_name@ }
    }
}

impl EventData for MoveWorkspace {
    open spec fn spec_parse(data: Seq<char>) -> Option<MoveWorkspaceView> {
        match split_once_char(data, ',') {
            Option::None => Option::None,
            Option::Some(p) => Option::Some(MoveWorkspaceView { name: p.0, monitor_name: p.1 }),
        }
    }

    fn parse(data: &str) -> (r: Option<Self>) {
        match split_once_at_char(data, ',') {
            Option::Some((name, monitor_name)) => Option::Some(
                MoveWorkspace {
                    name: String::from_str(name),
                    monitor_name: String::from_str(monitor_name),
                },
            ),
            Option::None => Option::None,
        }
    }
}

#[derive(Clone, Debug)]
pub struct MoveWorkspaceV2 {
    pub id: String,
    pub name: String,
    pub monitor_name: String,
}

pub struct MoveWorkspaceV2View {
    pub id: Seq<char>,
    pub name: Seq<char>,
    pub monitor_name: Seq<char>,
}

impl View for MoveWorkspaceV2 {
    type V = MoveWorkspaceV2View;

    open spec fn view(&self) -> MoveWorkspaceV2View {
        MoveWorkspaceV2View { id: self.id@, name: self.name@, monitor_name: self.monitor_name@ }
    }
}

impl EventData for MoveWorkspaceV2 {
    open spec fn spec_parse(data: Seq<char>) -> Option<MoveWorkspaceV2View> {
        let parts = splitn_char(data, 3, ',');
        if parts.len() == 3 {
            Option::Some(
                MoveWorkspaceV2View { id: parts[0], name: parts[1], monitor_name: parts[2] },
            )
        } else {
            Option::None
        }
    }

    fn parse(data: &str) -> (r: Option<Self>) {
        let mut parts = splitn_char_str(data, 3, ',');
        if parts.len() == 3 {
            let monitor_name = parts.pop().unwrap();
            let name = parts.pop().unwrap();
            let id = parts.pop().unwrap();
            Option::Some(MoveWorkspaceV2 { id, name, monitor_name })
        } else {
            Option::None
        }
    }
}

#[derive(Clone, Debug)]
pub struct RenameWorkspace {
    pub id: String,
    pub new_name: String,
}

pub struct RenameWorkspaceView {
    pub id: Seq<char>,
    pub new_name: Seq<char>,
}

impl View for RenameWorkspace {
    type V = RenameWorkspaceView;

    open spec fn view(&self) -> RenameWorkspaceView {
        RenameWorkspaceView { id: self.id@, new_name: self.new_name@ }
    }
}

impl EventData for RenameWorkspace {
    open spec fn spec_parse(data: Seq<char>) -> Option<RenameWorkspaceView> {
        match split_once_char(data, ',') {
            Option::None => Option::None,
            Option::Some(p) => Option::Some(RenameWorkspaceView { id: p.0, new_name: p.1 }),
        }
    }

    fn parse(data: &str) -> (r: Option<Self>) {
        match split_once_at_char(data, ',') {
            Option::Some((id, new_name)) => Option::Some(
                RenameWorkspace {
                    id: String::from_str(id),
                    new_name: String::from_str(new_name),
                },
            ),
            Option::None => Option::None,
        }
    }
}

#[derive(Clone, Debug)]
pub struct ActiveSpecial {
    pub name: String,
    pub monitor_name: String,
}

pub struct ActiveSpecialView {
    pub name: Seq<char>,
    pub monitor_name: Seq<char>,
}

impl View for ActiveSpecial {
    type V = ActiveSpecialView;

    open spec fn view(&self) -> ActiveSpecialView {
        ActiveSpecialView { name: self.name@, monitor_name: self.monitor_name@ }
    }
}

#[derive(Clone, Debug)]
pub struct ActiveLayout {
    pub keyboard_name: String,
    pub layout_name: String,
}

pub struct ActiveLayoutView {
    pub keyboard_name: Seq<char>,
    pub layout_name: Seq<char>,
}

impl View for ActiveLayout {
    type V = ActiveLayoutView;

    open spec fn view(&self) -> ActiveLayoutView {
        ActiveLayoutView { keyboard_name: self.keyboard_name@, layout_name: self.layout_name@ }
    }
}

#[derive(Clone, Debug)]
pub struct OpenWindow {
    pub address: String,
    pub workspace_name: String,
    pub class: String,
    pub title: String,
}

pub struct OpenWindowView {
    pub address: Seq<char>,
    pub workspace_name: Seq<char>,
    pub class: Seq<char>,
    pub title: Seq<char>,
}

impl View for OpenWindow {
    type V = OpenWindowView;

    open spec fn view(&self) -> OpenWindowView {
        OpenWindowView {
            address: self.address@,
            workspace_name: self.workspace_name@,
            class: self.class@,
            title: self.title@,
        }
    }
}

impl EventData for OpenWindow {
    open spec fn spec_parse(data: Seq<char>) -> Option<OpenWindowView> {
        let parts = splitn_char(data, 4, ',');
        if parts.len() == 4 {
            Option::Some(
                OpenWindowView {
                    address: "0x"@ + parts[0],
                    workspace_name: parts[1],
                    class: parts[2],
                    title: parts[3],
                },
            )
        } else {
            Option::None
        }
    }

    fn parse(data: &str) -> (r: Option<Self>) {
        let mut parts = splitn_char_str(data, 4, ',');
        if parts.len() == 4 {
            let title = parts.pop().unwrap();
            let class = parts.pop().unwrap();
            let workspace_name = parts.pop().unwrap();
            let raw_address = parts.pop().unwrap();
            let address = crate::text::concat_strs("0x", raw_address.as_str());
            Option::Some(OpenWindow { address, workspace_name, class, title })
        } else {
            Option::None
        }
    }
}

#[derive(Clone, Debug)]
pub struct MoveWindow {
    pub window_address: String,
    pub workspace_name: String,
}

pub struct MoveWindowView {
    pub window_address: Seq<char>,
    pub workspace_name: Seq<char>,
}

impl View for MoveWindow {
    type V = MoveWindowView;

    open spec fn view(&self) -> MoveWindowView {
        MoveWindowView { window_address: self.window_address@, workspace_name: self.workspace_name@ }
    }
}

impl EventData for MoveWindow {
    open spec fn spec_parse(data: Seq<char>) -> Option<MoveWindowView> {
        match split_once_char(data, ',') {
            Option::None => Option::None,
            Option::Some(p) => Option::Some(
                MoveWindowView { window_address: p.0, workspace_name: p.1 },
            ),
        }
    }

    fn parse(data: &str) -> (r: Option<Self>) {
        match split_once_at_char(data, ',') {
            Option::Some((window_address, workspace_name)) => Option::Some(
                MoveWindow {
                    window_address: String::from_str(window_address),
                    workspace_name: String::from_str(workspace_name),
                },
            ),
            Option::None => Option::None,
        }
    }
}

#[derive(Clone, Debug)]
pub struct MoveWindowV2 {
    pub window_address: String,
    pub workspace_id: i32,
    pub workspace_name: String,
}

pub struct MoveWindowV2View {
    pub window_address: Seq<char>,
    pub workspace_id: i32,
    pub workspace_name: Seq<char>,
}

impl View for MoveWindowV2 {
    type V = MoveWindowV2View;

    open spec fn view(&self) -> MoveWindowV2View {
        MoveWindowV2View {
            window_address: self.window_address@,
            workspace_id: self.workspace_id,
            workspace_name: self.workspace_name@,
        }
    }
}

impl EventData for MoveWindowV2 {
    open spec fn spec_parse(data: Seq<char>) -> Option<MoveWindowV2View> {
        let parts = splitn_char(data, 3, ',');
        if parts.len() == 3 {
            match parse_i32_spec(parts[1]) {
                Option::Some(id) => Option::Some(
                    MoveWindowV2View {
                        window_address: "0x"@ + parts[0],
                        workspace_id: id,
                        workspace_name: parts[2],
                    },
                ),
                Option::None => Option::None,
            }
        } else {
            Option::None
        }
    }

    fn parse(data: &str) -> (r: Option<Self>) {
        let mut parts = splitn_char_str(data, 3, ',');
        if parts.len() == 3 {
            let workspace_name = parts.pop().unwrap();
            let raw_id = parts.pop().unwrap();
            let raw_address = parts.pop().unwrap();
            match parse_i32_str(raw_id.as_str()) {
                Option::Some(workspace_id) => {
                    let window_address = crate::text::concat_strs("0x", raw_address.as_str());
                    Option::Some(MoveWindowV2 { window_address, workspace_id, workspace_name })
                },
                Option::None => Option::None,
            }
        } else {
            Option::None
        }
    }
}

#[derive(Clone, Debug)]
pub struct ChangeFloatingMode {
    pub window_address: String,
    pub is_floating: bool,
}

pub struct ChangeFloatingModeView {
    pub window_address: Seq<char>,
    pub is_floating: bool,
}

impl View for ChangeFloatingMode {
    type V = ChangeFloatingModeView;

    open spec fn view(&self) -> ChangeFloatingModeView {
        ChangeFloatingModeView {
            window_address: self.window_address@,
            is_floating: self.is_floating,
        }
    }
}

#[derive(Clone, Debug)]
pub struct Minimize {
    pub window_address: String,
    pub is_minimized: bool,
}

pub struct MinimizeView {
    pub window_address: Seq<char>,
    pub is_minimized: bool,
}

impl View for Minimize {
    type V = MinimizeView;

    open spec fn view(&self) -> MinimizeView {
        MinimizeView { window_address: self.window_address@, is_minimized: self.is_minimized }
    }
}

#[derive(Clone, Debug)]
pub struct Screencast {
    pub state: bool,
    pub owner: bool,
}

pub struct ScreencastView {
    pub state: bool,
    pub owner: bool,
}

impl View for Screencast {
    type V = ScreencastView;

    open spec fn view(&self) -> ScreencastView {
        ScreencastView { state: self.state, owner: self.owner }
    }
}

#[derive(Clone, Debug)]
pub struct WindowTitleV2 {
    pub address: String,
    pub title: String,
}

pub struct WindowTitleV2View {
    pub address: Seq<char>,
    pub title: Seq<char>,
}

impl View for WindowTitleV2 {
    type V = WindowTitleV2View;

    open spec fn view(&self) -> WindowTitleV2View {
        WindowTitleV2View { address: self.address@, title: self.title@ }
    }
}

#[derive(Clone, Debug)]
pub struct ToggleGroup {
    pub state: bool,
    pub window_addresses: Vec<String>,
}

pub struct ToggleGroupView {
    pub state: bool,
    pub window_addresses: Seq<Seq<char>>,
}

impl View for ToggleGroup {
    type V = ToggleGroupView;

    open spec fn view(&self) -> ToggleGroupView {
        ToggleGroupView {
            state: self.state,
            window_addresses: self.window_addresses@.map_values(|s: String| s@),
        }
    }
}

#[derive(Clone, Debug)]
pub struct Pin {
    pub window_address: String,
    pub pin_state: String,
}

pub struct PinView {
    pub window_address: Seq<char>,
    pub pin_state: Seq<char>,
}

impl View for Pin {
    type V = PinView;

    open spec fn view(&self) -> PinView {
        PinView { window_address: self.window_address@, pin_state: self.pin_state@ }
    }
}

#[derive(Clone, Debug)]
pub struct WorkspaceV2 {
    pub id: String,
    pub name: String,
}

pub struct WorkspaceV2View {
    pub id: Seq<char>,
    pub name: Seq<char>,
}

impl View for WorkspaceV2 {
    type V = WorkspaceV2View;

    open spec fn view(&self) -> WorkspaceV2View {
        WorkspaceV2View { id: self.id@, name: self.name@ }
    }
}

impl EventData for WorkspaceV2 {
    open spec fn spec_parse(data: Seq<char>) -> Option<WorkspaceV2View> {
        match split_once_char(data, ',') {
            Option::None => Option::None,
            Option::Some(p) => Option::Some(WorkspaceV2View { id: p.0, name: p.1 }),
        }
    }

    fn parse(data: &str) -> (r: Option<Self>) {
        match split_once_at_char(data, ',') {
            Option::Some((id, name)) => Option::Some(
                WorkspaceV2 { id: String::from_str(id), name: String::from_str(name) },
            ),
            Option::None => Option::None,
        }
    }
}

#[derive(Clone, Debug)]
pub struct FocusedMon {
    pub id: String,
    pub name: String,
}

pub struct FocusedMonView {
    pub id: Seq<char>,
    pub name: Seq<char>,
}

impl View for FocusedMon {
    type V = FocusedMonView;

    open spec fn view(&self) -> FocusedMonView {
        FocusedMonView { id: self.id@, name: self.name@ }
    }
}

impl EventData for FocusedMon {
    open spec fn spec_parse(data: Seq<char>) -> Option<FocusedMonView> {
        match split_once_char(data, ',') {
            Option::None => Option::None,
            Option::Some(p) => Option::Some(FocusedMonView { id: p.0, name: p.1 }),
        }
    }

    fn parse(data: &str) -> (r: Option<Self>) {
        match split_once_at_char(data, ',') {
            Option::Some((id, name)) => Option::Some(
                FocusedMon { id: String::from_str(id), name: String::from_str(name) },
            ),
            Option::None => Option::None,
        }
    }
}

#[derive(Clone, Default, Debug)]
pub struct ActiveWindow {
    pub title: String,
}

pub struct ActiveWindowView {
    pub title: Seq<char>,
}

impl View for ActiveWindow {
    type V = ActiveWindowView;

    open spec fn view(&self) -> ActiveWindowView {
        ActiveWindowView { title: self.title@ }
    }
}

impl EventData for ActiveWindow {
    open spec fn spec_parse(data: Seq<char>) -> Option<ActiveWindowView> {
        match split_once_char(data, ',') {
            Option::None => Option::None,
            Option::Some(p) => Option::Some(ActiveWindowView { title: p.1 }),
        }
    }

    fn parse(data: &str) -> (r: Option<Self>) {
        match split_once_at_char(data, ',') {
            Option::Some((_class_name, title)) => Option::Some(
                ActiveWindow { title: String::from_str(title) },
            ),
            Option::None => Option::None,
        }
    }
}

#[derive(Clone)]
pub struct Workspace {}

/// One variant per compositor notification kind; string payloads carry the
/// field the protocol sends (window address, monitor name, namespace, ...).
#[derive(Clone, Debug)]
pub enum HyprlandEvent {
    Workspace(String),
    WorkspaceV2(WorkspaceV2),
    FocusedMon(FocusedMon),
    ActiveWindow(ActiveWindow),
    ActiveWindowV2(String),
    Fullscreen(bool),
    MonitorRemoved(String),
    MonitorAdded(String),
    MonitorAddedV2(MonitorAddedV2),
    CreateWorkspace(String),
    CreateWorkspaceV2(CreateWorkspaceV2),
    DestroyWorkspace(String),
    DestroyWorkspaceV2(DestroyWorkspaceV2),
    MoveWorkspace(MoveWorkspace),
    MoveWorkspaceV2(MoveWorkspaceV2),
    RenameWorkspace(RenameWorkspace),
    ActiveSpecial(ActiveSpecial),
    ActiveLayout(ActiveLayout),
    OpenWindow(OpenWindow),
    CloseWindow(String),
    MoveWindow(MoveWindow),
    MoveWindowV2(MoveWindowV2),
    OpenLayer(String),
    CloseLayer(String),
    Submap(String),
    ChangeFloatingMode(ChangeFloatingMode),
    Urgent(String),
    Minimize(Minimize),
    Screencast(Screencast),
    WindowTitle(String),
    WindowTitleV2(WindowTitleV2),
    ToggleGroup(ToggleGroup),
    MoveIntoGroup(String),
    MoveOutOfGroup(String),
    IgnoreGroupLock(bool),
    LockGroups(bool),
    ConfigReloaded(),
    Pin(Pin),
}

pub enum HyprlandEventView {
    Workspace(Seq<char>),
    WorkspaceV2(WorkspaceV2View),
    FocusedMon(FocusedMonView),
    ActiveWindow(ActiveWindowView),
    ActiveWindowV2(Seq<char>),
    Fullscreen(bool),
    MonitorRemoved(Seq<char>),
    MonitorAdded(Seq<char>),
    MonitorAddedV2(MonitorAddedV2View),
    CreateWorkspace(Seq<char>),
    CreateWorkspaceV2(CreateWorkspaceV2View),
    DestroyWorkspace(Seq<char>),
    DestroyWorkspaceV2(DestroyWorkspaceV2View),
    MoveWorkspace(MoveWorkspaceView),
    MoveWorkspaceV2(MoveWorkspaceV2View),
    RenameWorkspace(RenameWorkspaceView),
    ActiveSpecial(ActiveSpecialView),
    ActiveLayout(ActiveLayoutView),
    OpenWindow(OpenWindowView),
    CloseWindow(Seq<char>),
    MoveWindow(MoveWindowView),
    MoveWindowV2(MoveWindowV2View),
    OpenLayer(Seq<char>),
    CloseLayer(Seq<char>),
    Submap(Seq<char>),
    ChangeFloatingMode(ChangeFloatingModeView),
    Urgent(Seq<char>),
    Minimize(MinimizeView),
    Screencast(ScreencastView),
    WindowTitle(Seq<char>),
    WindowTitleV2(WindowTitleV2View),
    ToggleGroup(ToggleGroupView),
    MoveIntoGroup(Seq<char>),
    MoveOutOfGroup(Seq<char>),
    IgnoreGroupLock(bool),
    LockGroups(bool),
    ConfigReloaded(),
    Pin(PinView),
}

impl View for HyprlandEvent {
    type V = HyprlandEventView;

    open spec fn view(&self) -> HyprlandEventView {
        match self {
            HyprlandEvent::Workspace(s) => HyprlandEventView::Workspace(s@),
            HyprlandEvent::WorkspaceV2(d) => HyprlandEventView::WorkspaceV2(d@),
            HyprlandEvent::FocusedMon(d) => HyprlandEventView::FocusedMon(d@),
            HyprlandEvent::ActiveWindow(d) => HyprlandEventView::ActiveWindow(d@),
            HyprlandEvent::ActiveWindowV2(s) => HyprlandEventView::ActiveWindowV2(s@),
            HyprlandEvent::Fullscreen(b) => HyprlandEventView::Fullscreen(*b),
            HyprlandEvent::MonitorRemoved(s) => HyprlandEventView::MonitorRemoved(s@),
            HyprlandEvent::MonitorAdded(s) => HyprlandEventView::MonitorAdded(s@),
            HyprlandEvent::MonitorAddedV2(d) => HyprlandEventView::MonitorAddedV2(d@),
            HyprlandEvent::CreateWorkspace(s) => HyprlandEventView::CreateWorkspace(s@),
            HyprlandEvent::CreateWorkspaceV2(d) => HyprlandEventView::CreateWorkspaceV2(d@),
            HyprlandEvent::DestroyWorkspace(s) => HyprlandEventView::DestroyWorkspace(s@),
            HyprlandEvent::DestroyWorkspaceV2(d) => HyprlandEventView::DestroyWorkspaceV2(d@),
            HyprlandEvent::MoveWorkspace(d) => HyprlandEventView::MoveWorkspace(d@),
            HyprlandEvent::MoveWorkspaceV2(d) => HyprlandEventView::MoveWorkspaceV2(d@),
            HyprlandEvent::RenameWorkspace(d) => HyprlandEventView::RenameWorkspace(d@),
            HyprlandEvent::ActiveSpecial(d) => HyprlandEventView::ActiveSpecial(d@),
            HyprlandEvent::ActiveLayout(d) => HyprlandEventView::ActiveLayout(d@),
            HyprlandEvent::OpenWindow(d) => HyprlandEventView::OpenWindow(d@),
            HyprlandEvent::CloseWindow(s) => HyprlandEventView::CloseWindow(s@),
            HyprlandEvent::MoveWindow(d) => HyprlandEventView::MoveWindow(d@),
            HyprlandEvent::MoveWindowV2(d) => HyprlandEventView::MoveWindowV2(d@),
            HyprlandEvent::OpenLayer(s) => HyprlandEventView::OpenLayer(s@),
            HyprlandEvent::CloseLayer(s) => HyprlandEventView::CloseLayer(s@),
            HyprlandEvent::Submap(s) => HyprlandEventView::Submap(s@),
            HyprlandEvent::ChangeFloatingMode(d) => HyprlandEventView::ChangeFloatingMode(d@),
            HyprlandEvent::Urgent(s) => HyprlandEventView::Urgent(s@),
            HyprlandEvent::Minimize(d) => HyprlandEventView::Minimize(d@),
            HyprlandEvent::Screencast(d) => HyprlandEventView::Screencast(d@),
            HyprlandEvent::WindowTitle(s) => HyprlandEventView::WindowTitle(s@),
            HyprlandEvent::WindowTitleV2(d) => HyprlandEventView::WindowTitleV2(d@),
            HyprlandEvent::ToggleGroup(d) => HyprlandEventView::ToggleGroup(d@),
            HyprlandEvent::MoveIntoGroup(s) => HyprlandEventView::MoveIntoGroup(s@),
            HyprlandEvent::MoveOutOfGroup(s) => HyprlandEventView::MoveOutOfGroup(s@),
            HyprlandEvent::IgnoreGroupLock(b) => HyprlandEventView::IgnoreGroupLock(*b),
            HyprlandEvent::LockGroups(b) => HyprlandEventView::LockGroups(*b),
            HyprlandEvent::ConfigReloaded() => HyprlandEventView::ConfigReloaded(),
            HyprlandEvent::Pin(d) => HyprlandEventView::Pin(d@),
        }
    }
}

/// Decoding of the text after `>>`, given the command before it. Commands not
/// listed here are unknown and produce no event.
pub open spec fn spec_parse_command(cmd: Seq<char>, data: Seq<char>) -> Option<HyprlandEventView> {
    if cmd == "workspace"@ {
        Option::Some(HyprlandEventView::Workspace(data))
    } else if cmd == "workspacev2"@ {
        match WorkspaceV2::spec_parse(data) {
            Option::Some(d) => Option::Some(HyprlandEventView::WorkspaceV2(d)),
            Option::None => Option::None,
        }
    } else if cmd == "focusedmon"@ {
        match FocusedMon::spec_parse(data) {
            Option::Some(d) => Option::Some(HyprlandEventView::FocusedMon(d)),
            Option::None => Option::None,
        }
    } else if cmd == "activewindow"@ {
        match ActiveWindow::spec_parse(data) {
            Option::Some(d) => Option::Some(HyprlandEventView::ActiveWindow(d)),
            Option::None => Option::None,
        }
    } else if cmd == "activewindowv2"@ {
        Option::Some(HyprlandEventView::ActiveWindowV2("0x"@ + data))
    } else if cmd == "fullscreen"@ {
        Option::Some(HyprlandEventView::Fullscreen(data == "1"@))
    } else if cmd == "monitorremoved"@ {
        Option::Some(HyprlandEventView::MonitorRemoved(data))
    } else if cmd == "monitoradded"@ {
        Option::Some(HyprlandEventView::MonitorAdded(data))
    } else if cmd == "monitoraddedv2"@ {
        match MonitorAddedV2::spec_parse(data) {
            Option::Some(d) => Option::Some(HyprlandEventView::MonitorAddedV2(d)),
            Option::None => Option::None,
        }
    } else if cmd == "createworkspace"@ {
        Option::Some(HyprlandEventView::CreateWorkspace(data))
    } else if cmd == "createworkspacev2"@ {
        match CreateWorkspaceV2::spec_parse(data) {
            Option::Some(d) => Option::Some(HyprlandEventView::CreateWorkspaceV2(d)),
            Option::None => Option::None,
        }
    } else if cmd == "moveworkspace"@ {
        match MoveWorkspace::spec_parse(data) {
            Option::Some(d) => Option::Some(HyprlandEventView::MoveWorkspace(d)),
            Option::None => Option::None,
        }
    } else if cmd == "moveworkspacev2"@ {
        match MoveWorkspaceV2::spec_parse(data) {
            Option::Some(d) => Option::Some(HyprlandEventView::MoveWorkspaceV2(d)),
            Option::None => Option::None,
        }
    } else if cmd == "renameworkspace"@ {
        match RenameWorkspace::spec_parse(data) {
            Option::Some(d) => Option::Some(HyprlandEventView::RenameWorkspace(d)),
            Option::None => Option::None,
        }
    } else if cmd == "openwindow"@ {
        match OpenWindow::spec_parse(data) {
            Option::Some(d) => Option::Some(HyprlandEventView::OpenWindow(d)),
            Option::None => Option::None,
        }
    } else if cmd == "closewindow"@ {
        Option::Some(HyprlandEventView::CloseWindow("0x"@ + data))
    } else if cmd == "movewindow"@ {
        match MoveWindow::spec_parse(data) {
            Option::Some(d) => Option::Some(HyprlandEventView::MoveWindow(d)),
            Option::None => Option::None,
        }
    } else {
        Option::None
    }
}

impl EventData for HyprlandEvent {
    /// A line parses when it contains `>>` and its command's payload decodes.
    open spec fn spec_parse(message: Seq<char>) -> Option<HyprlandEventView> {
        match split_once_pair(message, '>', '>') {
            Option::None => Option::None,
            Option::Some(p) => spec_parse_command(p.0, p.1),
        }
    }

    fn parse(message: &str) -> (r: Option<Self>) {
        match split_once_at_pair(message, '>', '>') {
            Option::None => Option::None,
            Option::Some((command, data)) => {
                if str_eq(command, "workspace") {
                    Option::Some(HyprlandEvent::Workspace(String::from_str(data)))
                } else if str_eq(command, "workspacev2") {
                    match WorkspaceV2::parse(data) {
                        Option::Some(d) => Option::Some(HyprlandEvent::WorkspaceV2(d)),
                        Option::None => Option::None,
                    }
                } else if str_eq(command, "focusedmon") {
                    match FocusedMon::parse(data) {
                        Option::Some(d) => Option::Some(HyprlandEvent::FocusedMon(d)),
                        Option::None => Option::None,
                    }
                } else if str_eq(command, "activewindow") {
                    match ActiveWindow::parse(data) {
                        Option::Some(d) => Option::Some(HyprlandEvent::ActiveWindow(d)),
                        Option::None => Option::None,
                    }
                } else if str_eq(command, "activewindowv2") {
                    Option::Some(
                        HyprlandEvent::ActiveWindowV2(crate::text::concat_strs("0x", data)),
                    )
                } else if str_eq(command, "fullscreen") {
                    Option::Some(HyprlandEvent::Fullscreen(str_eq(data, "1")))
                } else if str_eq(command, "monitorremoved") {
                    Option::Some(HyprlandEvent::MonitorRemoved(String::from_str(data)))
                } else if str_eq(command, "monitoradded") {
                    Option::Some(HyprlandEvent::MonitorAdded(String::from_str(data)))
                } else if str_eq(command, "monitoraddedv2") {
                    match MonitorAddedV2::parse(data) {
                        Option::Some(d) => Option::Some(HyprlandEvent::MonitorAddedV2(d)),
                        Option::None => Option::None,
                    }
                } else if str_eq(command, "createworkspace") {
                    Option::Some(HyprlandEvent::CreateWorkspace(String::from_str(data)))
                } else if str_eq(command, "createworkspacev2") {
                    match CreateWorkspaceV2::parse(data) {
                        Option::Some(d) => Option::Some(HyprlandEvent::CreateWorkspaceV2(d)),
                        Option::None => Option::None,
                    }
                } else if str_eq(command, "moveworkspace") {
                    match MoveWorkspace::parse(data) {
                        Option::Some(d) => Option::Some(HyprlandEvent::MoveWorkspace(d)),
                        Option::None => Option::None,
                    }
                } else if str_eq(command, "moveworkspacev2") {
                    match MoveWorkspaceV2::parse(data) {
                        Option::Some(d) => Option::Some(HyprlandEvent::MoveWorkspaceV2(d)),
                        Option::None => Option::None,
                    }
                } else if str_eq(command, "renameworkspace") {
                    match RenameWorkspace::parse(data) {
                        Option::Some(d) => Option::Some(HyprlandEvent::RenameWorkspace(d)),
                        Option::None => Option::None,
                    }
                } else if str_eq(command, "openwindow") {
                    match OpenWindow::parse(data) {
                        Option::Some(d) => Option::Some(HyprlandEvent::OpenWindow(d)),
                        Option::None => Option::None,
                    }
                } else if str_eq(command, "closewindow") {
                    Option::Some(HyprlandEvent::CloseWindow(crate::text::concat_strs("0x", data)))
                } else if str_eq(command, "movewindow") {
                    match MoveWindow::parse(data) {
                        Option::Some(d) => Option::Some(HyprlandEvent::MoveWindow(d)),
                        Option::None => Option::None,
                    }
                } else {
                    Option::None
                }
            },
        }
    }
}


/// The event-socket source: parses each line, keeps the active-window title
/// as a coalescing latest-value, and republishes every parsed event on a
/// broadcaster for all other consumers. The socket read loop lives with the
/// embedding application, which hands lines over one at a time.
pub struct HyprlandEvents {
    pub active_window: LatestEventValue<ActiveWindow>,
    pub events: RaceFreeBroadcaster<HyprlandEvent>,
}

impl HyprlandEvents {
    pub open spec fn wf(self) -> bool {
        self.events.wf()
    }

    pub fn new() -> (r: Self)
        ensures
            r.wf(),
            r.active_window.iteration == 0,
            r.events.history@ == Seq::<HyprlandEvent>::empty(),
    {
        HyprlandEvents {
            active_window: LatestEventValue::new(),
            events: RaceFreeBroadcaster::new(256),
        }
    }

    /// Feeds one line of the event socket through the parser: a recognized
    /// event is broadcast, and an active-window event additionally updates
    /// the latest-value; an unparsable line changes nothing. Returns whether
    /// an event was recognized.
    pub fn handle_line(&mut self, line: &str) -> (r: bool)
        requires
            old(self).wf(),
            old(self).active_window.iteration < i64::MAX,
            old(self).events.published < u64::MAX,
        ensures
            final(self).wf(),
            match HyprlandEvent::spec_parse(line@) {
                Option::None => !r && *final(self) == *old(self),
                Option::Some(ev) => {
                    &&& r
                    &&& final(self).events.history@.len() == old(self).events.history@.len() + 1
                    &&& final(self).events.history@.last()@ == ev
                    &&& final(self).events.history@.drop_last() == old(self).events.history@
                    &&& match ev {
                        HyprlandEventView::ActiveWindow(aw) => {
                            &&& final(self).active_window.iteration == old(
                                self,
                            ).active_window.iteration + 1
                            &&& final(self).active_window.value@ == aw
                        },
                        _ => final(self).active_window == old(self).active_window,
                    }
                },
            },
    {
        match HyprlandEvent::parse(line) {
            Option::Some(event) => {
                match &event {
                    HyprlandEvent::ActiveWindow(aw) => {
                        let copy = ActiveWindow { title: aw.title.clone() };
                        self.active_window.update(copy);
                    },
                    _ => {},
                }
                self.events.publish(event);
                proof {
                    assert(self.events.history@.drop_last() =~= old(self).events.history@);
                }
                true
            },
            Option::None => false,
        }
    }

    /// A listener for the active-window latest-value; it observes the
    /// current title as soon as one was ever published.
    pub fn get_active_window_emitter(&self) -> (r: LatestEventValueListener)
        ensures
            r.last_seen_iteration == 0,
    {
        LatestEventValueListener::new()
    }

    /// A subscription to the discrete event stream, registered at the
    /// current publication point.
    pub fn get_event_stream(&self) -> (r: BroadcastSubscription)
        requires
            self.wf(),
        ensures
            r.cursor == self.events.published,
            self.events.pending(r) == Seq::<HyprlandEvent>::empty(),
    {
        self.events.subscribe()
    }
}

} // verus!
