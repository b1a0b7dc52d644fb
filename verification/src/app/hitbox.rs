//! Where the controls on screen are.
//!
//! A test that clicks a hand-counted column is guessing, and a guess that misses
//! looks like a control that does not work. This lists the rectangles the mouse is
//! tested against, with a point in each that hits it. The list is written out when
//! it changes.

use vstd::prelude::*;

use crate::app::state::Mode;
use crate::text::{cat2, cat3, cat4, opt_clone, opt_eq, str_eq, to_decimal};

verus! {

/// The variable that names the file to write to. Nothing is written without it.
pub const DUMP_PATH_ENV: &'static str = "HERDR_HITBOX_DUMP";

/// Some cells of the screen.
#[derive(Debug, Clone, Copy, PartialEq, Eq, Structural)]
pub struct HitboxRect {
    pub x: u16,
    pub y: u16,
    pub width: u16,
    pub height: u16,
}

/// The cell a caller should click to hit a control.
#[derive(Debug, Clone, Copy, PartialEq, Eq, Structural)]
pub struct HitboxPoint {
    pub col: u16,
    pub row: u16,
}

impl HitboxRect {
    /// Its middle is a cell that can be named.
    pub open spec fn fits(self) -> bool {
        &&& self.width > 0 ==> self.x + (self.width - 1) / 2 <= u16::MAX
        &&& self.height > 0 ==> self.y + (self.height - 1) / 2 <= u16::MAX
    }

    /// Nothing can be clicked there.
    pub open spec fn is_empty(self) -> bool {
        self.width == 0 || self.height == 0
    }

    /// The cell is one of these.
    pub open spec fn covers(self, point: HitboxPoint) -> bool {
        &&& self.x <= point.col < self.x + self.width
        &&& self.y <= point.row < self.y + self.height
    }

    /// Its middle, or the cell left of or above the middle.
    pub open spec fn middle(self) -> HitboxPoint {
        HitboxPoint {
            col: if self.width > 0 {
                (self.x + (self.width - 1) / 2) as u16
            } else {
                self.x
            },
            row: if self.height > 0 {
                (self.y + (self.height - 1) / 2) as u16
            } else {
                self.y
            },
        }
    }
}

/// The point that is offered for a control hits it, and nothing that does not
/// overlap it.
pub proof fn law_a_click_hits_its_own_control(rect: HitboxRect, other: HitboxRect)
    requires
        rect.fits(),
        !rect.is_empty(),
    ensures
        rect.covers(rect.middle()),
        (forall|p: HitboxPoint| !(#[trigger] rect.covers(p) && other.covers(p))) ==> !other.covers(
            rect.middle(),
        ),
{
    assert(rect.covers(rect.middle()));
}

/// The cell to click for a rectangle: its middle, inside it.
pub fn click_point(rect: HitboxRect) -> (r: HitboxPoint)
    requires
        rect.fits(),
    ensures
        r == rect.middle(),
{
    HitboxPoint {
        col: if rect.width > 0 {
            rect.x + (rect.width - 1) / 2
        } else {
            rect.x
        },
        row: if rect.height > 0 {
            rect.y + (rect.height - 1) / 2
        } else {
            rect.y
        },
    }
}

/// One control on screen.
#[derive(Debug, PartialEq, Eq)]
pub struct HitboxControl {
    /// What it is addressed by, such as `tab[1]`, `peer[b]` or `menu[0]`.
    pub name: String,
    pub rect: HitboxRect,
    pub click: HitboxPoint,
    /// What it reads, when it has a text.
    pub label: Option<String>,
}

/// The contents of a [`HitboxControl`].
pub struct ControlView {
    pub name: Seq<char>,
    pub rect: HitboxRect,
    pub click: HitboxPoint,
    pub label: Option<Seq<char>>,
}

impl View for HitboxControl {
    type V = ControlView;

    open spec fn view(&self) -> ControlView {
        ControlView {
            name: self.name@,
            rect: self.rect,
            click: self.click,
            label: crate::text::opt_view(self.label),
        }
    }
}

/// The contents of a list of controls.
pub open spec fn controls_view(controls: Seq<HitboxControl>) -> Seq<ControlView> {
    controls.map_values(|c: HitboxControl| c@)
}

/// The controls at one moment.
#[derive(Debug, PartialEq, Eq)]
pub struct HitboxSnapshot {
    /// Grows with every snapshot that is written, so that a reader can tell a
    /// refresh from a stale file.
    pub seq: u64,
    pub layout: String,
    pub mode: String,
    pub screen: HitboxRect,
    pub controls: Vec<HitboxControl>,
}

/// The contents of a [`HitboxSnapshot`].
pub struct SnapshotView {
    pub seq: u64,
    pub layout: Seq<char>,
    pub mode: Seq<char>,
    pub screen: HitboxRect,
    pub controls: Seq<ControlView>,
}

impl View for HitboxSnapshot {
    type V = SnapshotView;

    open spec fn view(&self) -> SnapshotView {
        SnapshotView {
            seq: self.seq,
            layout: self.layout@,
            mode: self.mode@,
            screen: self.screen,
            controls: controls_view(self.controls@),
        }
    }
}

#[derive(Debug, Clone, Copy, PartialEq, Eq, Structural)]
pub enum ViewLayout {
    Desktop,
    Mobile,
}

/// The row of a workspace in the sidebar.
#[derive(Debug, PartialEq, Eq)]
pub struct WorkspaceCardArea {
    pub ws_idx: usize,
    pub rect: HitboxRect,
    pub label: Option<String>,
}

/// The row of a peer in the sidebar.
#[derive(Debug, PartialEq, Eq)]
pub struct PeerHeaderArea {
    pub peer: String,
    pub rect: HitboxRect,
}

/// A tab in the tab bar.
#[derive(Debug, PartialEq, Eq)]
pub struct TabArea {
    pub rect: HitboxRect,
    pub label: Option<String>,
}

/// A row of a menu; one that is not on screen has no rectangle.
#[derive(Debug, PartialEq, Eq)]
pub struct MenuItemArea {
    pub label: String,
    pub rect: Option<HitboxRect>,
}

/// An open menu.
#[derive(Debug, PartialEq, Eq)]
pub struct MenuArea {
    pub rect: HitboxRect,
    pub items: Vec<MenuItemArea>,
}

/// The rectangles the mouse is tested against.
#[derive(Debug, PartialEq, Eq)]
pub struct ViewAreas {
    pub layout: ViewLayout,
    pub mode: Mode,
    pub screen: HitboxRect,
    pub sidebar: HitboxRect,
    pub workspace_list: HitboxRect,
    pub agent_panel: HitboxRect,
    pub sidebar_footer: HitboxRect,
    pub sidebar_new: HitboxRect,
    pub launcher: HitboxRect,
    pub terminal: HitboxRect,
    pub tab_bar: HitboxRect,
    pub tab_scroll_left: HitboxRect,
    pub tab_scroll_right: HitboxRect,
    pub tab_new: HitboxRect,
    pub toast: HitboxRect,
    pub mobile_header: HitboxRect,
    pub mobile_menu: HitboxRect,
    pub workspace_cards: Vec<WorkspaceCardArea>,
    pub peer_headers: Vec<PeerHeaderArea>,
    pub tabs: Vec<TabArea>,
    pub context_menu: Option<MenuArea>,
    /// The global menu, which is on screen only in its own mode.
    pub global_menu: MenuArea,
}

impl HitboxRect {
    /// Whether its middle is a cell that can be named.
    pub fn is_nameable(&self) -> (r: bool)
        ensures
            r == self.fits(),
    {
        (self.width == 0 || (self.width - 1) / 2 <= u16::MAX - self.x) && (self.height == 0 || (
        self.height - 1) / 2 <= u16::MAX - self.y)
    }
}

impl MenuArea {
    /// Whether every rectangle of the menu fits.
    pub fn is_nameable(&self) -> (r: bool)
        ensures
            r == self.fits(),
    {
        if !self.rect.is_nameable() {
            return false;
        }
        let mut i: usize = 0;
        while i < self.items.len()
            invariant
                i <= self.items@.len(),
                forall|j: int|
                    0 <= j < i ==> match (#[trigger] self.items@[j]).rect {
                        Some(rect) => rect.fits(),
                        None => true,
                    },
            decreases self.items@.len() - i,
        {
            if let Some(rect) = &self.items[i].rect {
                if !rect.is_nameable() {
                    assert(!(match self.items@[i as int].rect {
                        Some(rect) => rect.fits(),
                        None => true,
                    }));
                    return false;
                }
            }
            i += 1;
        }
        true
    }
}

impl ViewAreas {
    /// Whether every rectangle fits.
    pub fn is_nameable(&self) -> (r: bool)
        ensures
            r == self.fits(),
    {
        if !(self.sidebar.is_nameable() && self.workspace_list.is_nameable()
            && self.agent_panel.is_nameable() && self.sidebar_footer.is_nameable()
            && self.sidebar_new.is_nameable() && self.launcher.is_nameable()
            && self.terminal.is_nameable() && self.tab_bar.is_nameable()
            && self.tab_scroll_left.is_nameable() && self.tab_scroll_right.is_nameable()
            && self.tab_new.is_nameable() && self.toast.is_nameable()
            && self.mobile_header.is_nameable() && self.mobile_menu.is_nameable()
            && self.global_menu.is_nameable()) {
            return false;
        }
        if let Some(menu) = &self.context_menu {
            if !menu.is_nameable() {
                return false;
            }
        }
        let mut i: usize = 0;
        while i < self.workspace_cards.len()
            invariant
                i <= self.workspace_cards@.len(),
                forall|j: int|
                    0 <= j < i ==> (#[trigger] self.workspace_cards@[j]).rect.fits(),
            decreases self.workspace_cards@.len() - i,
        {
            if !self.workspace_cards[i].rect.is_nameable() {
                assert(!self.workspace_cards@[i as int].rect.fits());
                return false;
            }
            i += 1;
        }
        let mut i: usize = 0;
        while i < self.peer_headers.len()
            invariant
                i <= self.peer_headers@.len(),
                forall|j: int| 0 <= j < i ==> (#[trigger] self.peer_headers@[j]).rect.fits(),
            decreases self.peer_headers@.len() - i,
        {
            if !self.peer_headers[i].rect.is_nameable() {
                assert(!self.peer_headers@[i as int].rect.fits());
                return false;
            }
            i += 1;
        }
        let mut i: usize = 0;
        while i < self.tabs.len()
            invariant
                i <= self.tabs@.len(),
                forall|j: int| 0 <= j < i ==> (#[trigger] self.tabs@[j]).rect.fits(),
            decreases self.tabs@.len() - i,
        {
            if !self.tabs[i].rect.is_nameable() {
                assert(!self.tabs@[i as int].rect.fits());
                return false;
            }
            i += 1;
        }
        true
    }
}

impl MenuArea {
    /// Every rectangle of the menu fits.
    pub open spec fn fits(self) -> bool {
        &&& self.rect.fits()
        &&& forall|i: int|
            0 <= i < self.items@.len() ==> match (#[trigger] self.items@[i]).rect {
                Some(rect) => rect.fits(),
                None => true,
            }
    }
}

impl ViewAreas {
    /// Every rectangle fits.
    pub open spec fn fits(self) -> bool {
        &&& self.sidebar.fits()
        &&& self.workspace_list.fits()
        &&& self.agent_panel.fits()
        &&& self.sidebar_footer.fits()
        &&& self.sidebar_new.fits()
        &&& self.launcher.fits()
        &&& self.terminal.fits()
        &&& self.tab_bar.fits()
        &&& self.tab_scroll_left.fits()
        &&& self.tab_scroll_right.fits()
        &&& self.tab_new.fits()
        &&& self.toast.fits()
        &&& self.mobile_header.fits()
        &&& self.mobile_menu.fits()
        &&& forall|i: int|
            0 <= i < self.workspace_cards@.len() ==> (
            #[trigger] self.workspace_cards@[i]).rect.fits()
        &&& forall|i: int|
            0 <= i < self.peer_headers@.len() ==> (#[trigger] self.peer_headers@[i]).rect.fits()
        &&& forall|i: int| 0 <= i < self.tabs@.len() ==> (#[trigger] self.tabs@[i]).rect.fits()
        &&& self.context_menu is Some ==> self.context_menu->0.fits()
        &&& self.global_menu.fits()
    }
}

/// The control, unless nothing can be clicked there: offering an empty rectangle
/// would let a caller find a control that is not on screen.
pub open spec fn offered(name: Seq<char>, rect: HitboxRect, label: Option<Seq<char>>) -> Seq<
    ControlView,
> {
    if rect.is_empty() {
        Seq::empty()
    } else {
        seq![ControlView { name, rect, click: rect.middle(), label }]
    }
}

/// A name with a position in it.
pub open spec fn indexed(name: Seq<char>, i: int) -> Seq<char> {
    name + "["@ + crate::text::decimal(i as nat) + "]"@
}

/// The controls there always are.
pub open spec fn fixed_controls(v: ViewAreas) -> Seq<ControlView> {
    offered("sidebar"@, v.sidebar, None) + offered("sidebar.workspace_list"@, v.workspace_list, None)
        + offered("sidebar.agent_panel"@, v.agent_panel, None) + offered(
        "sidebar.footer"@,
        v.sidebar_footer,
        None,
    ) + offered("sidebar.new"@, v.sidebar_new, None) + offered(
        "sidebar.launcher"@,
        v.launcher,
        None,
    ) + offered("terminal"@, v.terminal, None) + offered("tab_bar"@, v.tab_bar, None) + offered(
        "tab_scroll_left"@,
        v.tab_scroll_left,
        None,
    ) + offered("tab_scroll_right"@, v.tab_scroll_right, None) + offered("tab_new"@, v.tab_new, None)
        + offered("toast"@, v.toast, None) + offered("mobile_header"@, v.mobile_header, None)
        + offered("mobile_menu"@, v.mobile_menu, None)
}

/// The rows of these workspaces.
pub open spec fn card_controls(cards: Seq<WorkspaceCardArea>) -> Seq<ControlView>
    decreases cards.len(),
{
    if cards.len() == 0 {
        Seq::empty()
    } else {
        card_controls(cards.drop_last()) + offered(
            indexed("workspace"@, cards.last().ws_idx as int),
            cards.last().rect,
            crate::text::opt_view(cards.last().label),
        )
    }
}

/// The rows of these peers.
pub open spec fn header_controls(headers: Seq<PeerHeaderArea>) -> Seq<ControlView>
    decreases headers.len(),
{
    if headers.len() == 0 {
        Seq::empty()
    } else {
        header_controls(headers.drop_last()) + offered(
            "peer["@ + headers.last().peer@ + "]"@,
            headers.last().rect,
            Some(headers.last().peer@),
        )
    }
}

/// These tabs.
pub open spec fn tab_controls(tabs: Seq<TabArea>) -> Seq<ControlView>
    decreases tabs.len(),
{
    if tabs.len() == 0 {
        Seq::empty()
    } else {
        tab_controls(tabs.drop_last()) + offered(
            indexed("tab"@, tabs.len() - 1),
            tabs.last().rect,
            crate::text::opt_view(tabs.last().label),
        )
    }
}

/// The rows of a menu.
pub open spec fn item_controls(name: Seq<char>, items: Seq<MenuItemArea>) -> Seq<ControlView>
    decreases items.len(),
{
    if items.len() == 0 {
        Seq::empty()
    } else {
        item_controls(name, items.drop_last()) + match items.last().rect {
            Some(rect) => offered(indexed(name, items.len() - 1), rect, Some(items.last().label@)),
            None => Seq::empty(),
        }
    }
}

/// A menu and its rows.
pub open spec fn menu_controls(name: Seq<char>, menu: MenuArea) -> Seq<ControlView> {
    offered(name, menu.rect, None) + item_controls(name, menu.items@)
}

/// Every control on screen.
pub open spec fn controls_of(v: ViewAreas) -> Seq<ControlView> {
    fixed_controls(v) + card_controls(v.workspace_cards@) + header_controls(v.peer_headers@)
        + tab_controls(v.tabs@) + (match v.context_menu {
        Some(menu) => menu_controls("menu"@, menu),
        None => Seq::empty(),
    }) + (if v.mode == Mode::GlobalMenu {
        menu_controls("global_menu"@, v.global_menu)
    } else {
        Seq::empty()
    })
}

/// What a mode is called.
pub open spec fn mode_name(mode: Mode) -> Seq<char> {
    match mode {
        Mode::Navigate => "Navigate"@,
        Mode::Terminal => "Terminal"@,
        Mode::OpenPeerWorkspace => "OpenPeerWorkspace"@,
        Mode::AddPeer => "AddPeer"@,
        Mode::UnhidePeers => "UnhidePeers"@,
        Mode::ContextMenu => "ContextMenu"@,
        Mode::GlobalMenu => "GlobalMenu"@,
    }
}

/// What a layout is called.
pub open spec fn layout_name(layout: ViewLayout) -> Seq<char> {
    match layout {
        ViewLayout::Desktop => "desktop"@,
        ViewLayout::Mobile => "mobile"@,
    }
}

/// The snapshot of these areas, before it is numbered.
pub open spec fn snapshot_of(v: ViewAreas) -> SnapshotView {
    SnapshotView {
        seq: 0,
        layout: layout_name(v.layout),
        mode: mode_name(v.mode),
        screen: v.screen,
        controls: controls_of(v),
    }
}

/// Notes a control, unless nothing can be clicked there.
fn offer(controls: &mut Vec<HitboxControl>, name: &str, rect: HitboxRect, label: Option<String>)
    requires
        rect.fits(),
    ensures
        controls_view(final(controls)@) == controls_view(old(controls)@) + offered(
            name@,
            rect,
            crate::text::opt_view(label),
        ),
{
    let ghost before = controls_view(controls@);
    let ghost said = crate::text::opt_view(label);
    if rect.width == 0 || rect.height == 0 {
        assert(controls_view(controls@) =~= before + offered(name@, rect, said));
        return;
    }
    controls.push(
        HitboxControl { name: name.to_owned(), rect, click: click_point(rect), label },
    );
    assert(controls_view(controls@) =~= before + offered(name@, rect, said));
}

fn offer_fixed(controls: &mut Vec<HitboxControl>, v: &ViewAreas)
    requires
        v.fits(),
        old(controls)@.len() == 0,
    ensures
        controls_view(final(controls)@) == fixed_controls(*v),
{
    assert(controls_view(controls@) =~= Seq::empty());
    offer(controls, "sidebar", v.sidebar, None);
    assert(controls_view(controls@) =~= offered("sidebar"@, v.sidebar, None));
    offer(controls, "sidebar.workspace_list", v.workspace_list, None);
    offer(controls, "sidebar.agent_panel", v.agent_panel, None);
    offer(controls, "sidebar.footer", v.sidebar_footer, None);
    offer(controls, "sidebar.new", v.sidebar_new, None);
    offer(controls, "sidebar.launcher", v.launcher, None);
    offer(controls, "terminal", v.terminal, None);
    offer(controls, "tab_bar", v.tab_bar, None);
    offer(controls, "tab_scroll_left", v.tab_scroll_left, None);
    offer(controls, "tab_scroll_right", v.tab_scroll_right, None);
    offer(controls, "tab_new", v.tab_new, None);
    offer(controls, "toast", v.toast, None);
    offer(controls, "mobile_header", v.mobile_header, None);
    offer(controls, "mobile_menu", v.mobile_menu, None);
}

fn index_name(name: &str, i: usize) -> (r: String)
    ensures
        r@ == indexed(name@, i as int),
{
    cat4(name, "[", to_decimal(i as u64).as_str(), "]")
}

fn offer_cards(controls: &mut Vec<HitboxControl>, cards: &Vec<WorkspaceCardArea>)
    requires
        forall|i: int| 0 <= i < cards@.len() ==> (#[trigger] cards@[i]).rect.fits(),
    ensures
        controls_view(final(controls)@) == controls_view(old(controls)@) + card_controls(cards@),
{
    let ghost before = controls_view(controls@);
    let mut i: usize = 0;
    assert(cards@.take(0) =~= Seq::empty());
    assert(before =~= before + card_controls(cards@.take(0)));
    while i < cards.len()
        invariant
            forall|i: int| 0 <= i < cards@.len() ==> (#[trigger] cards@[i]).rect.fits(),
            i <= cards@.len(),
            controls_view(controls@) == before + card_controls(cards@.take(i as int)),
        decreases cards@.len() - i,
    {
        assert(cards@.take(i + 1).drop_last() =~= cards@.take(i as int));
        let name = index_name("workspace", cards[i].ws_idx);
        offer(controls, name.as_str(), cards[i].rect, opt_clone(&cards[i].label));
        i += 1;
        assert(controls_view(controls@) =~= before + card_controls(cards@.take(i as int)));
    }
    assert(cards@.take(i as int) =~= cards@);
}

fn offer_headers(controls: &mut Vec<HitboxControl>, headers: &Vec<PeerHeaderArea>)
    requires
        forall|i: int| 0 <= i < headers@.len() ==> (#[trigger] headers@[i]).rect.fits(),
    ensures
        controls_view(final(controls)@) == controls_view(old(controls)@) + header_controls(
            headers@,
        ),
{
    let ghost before = controls_view(controls@);
    let mut i: usize = 0;
    assert(headers@.take(0) =~= Seq::empty());
    assert(before =~= before + header_controls(headers@.take(0)));
    while i < headers.len()
        invariant
            forall|i: int| 0 <= i < headers@.len() ==> (#[trigger] headers@[i]).rect.fits(),
            i <= headers@.len(),
            controls_view(controls@) == before + header_controls(headers@.take(i as int)),
        decreases headers@.len() - i,
    {
        assert(headers@.take(i + 1).drop_last() =~= headers@.take(i as int));
        let name = cat3("peer[", headers[i].peer.as_str(), "]");
        offer(controls, name.as_str(), headers[i].rect, Some(headers[i].peer.clone()));
        i += 1;
        assert(controls_view(controls@) =~= before + header_controls(headers@.take(i as int)));
    }
    assert(headers@.take(i as int) =~= headers@);
}

fn offer_tabs(controls: &mut Vec<HitboxControl>, tabs: &Vec<TabArea>)
    requires
        forall|i: int| 0 <= i < tabs@.len() ==> (#[trigger] tabs@[i]).rect.fits(),
    ensures
        controls_view(final(controls)@) == controls_view(old(controls)@) + tab_controls(tabs@),
{
    let ghost before = controls_view(controls@);
    let mut i: usize = 0;
    assert(tabs@.take(0) =~= Seq::empty());
    assert(before =~= before + tab_controls(tabs@.take(0)));
    while i < tabs.len()
        invariant
            forall|i: int| 0 <= i < tabs@.len() ==> (#[trigger] tabs@[i]).rect.fits(),
            i <= tabs@.len(),
            controls_view(controls@) == before + tab_controls(tabs@.take(i as int)),
        decreases tabs@.len() - i,
    {
        assert(tabs@.take(i + 1).drop_last() =~= tabs@.take(i as int));
        let name = index_name("tab", i);
        offer(controls, name.as_str(), tabs[i].rect, opt_clone(&tabs[i].label));
        i += 1;
        assert(controls_view(controls@) =~= before + tab_controls(tabs@.take(i as int)));
    }
    assert(tabs@.take(i as int) =~= tabs@);
}

fn offer_menu(controls: &mut Vec<HitboxControl>, name: &str, menu: &MenuArea)
    requires
        menu.fits(),
    ensures
        controls_view(final(controls)@) == controls_view(old(controls)@) + menu_controls(
            name@,
            *menu,
        ),
{
    let ghost base = controls_view(controls@);
    offer(controls, name, menu.rect, None);
    let ghost before = controls_view(controls@);
    let items = &menu.items;
    let mut i: usize = 0;
    assert(items@.take(0) =~= Seq::empty());
    assert(before =~= before + item_controls(name@, items@.take(0)));
    while i < items.len()
        invariant
            forall|i: int|
                0 <= i < items@.len() ==> match (#[trigger] items@[i]).rect {
                    Some(rect) => rect.fits(),
                    None => true,
                },
            i <= items@.len(),
            controls_view(controls@) == before + item_controls(name@, items@.take(i as int)),
        decreases items@.len() - i,
    {
        assert(items@.take(i + 1).drop_last() =~= items@.take(i as int));
        if let Some(rect) = items[i].rect {
            let row = index_name(name, i);
            offer(controls, row.as_str(), rect, Some(items[i].label.clone()));
        }
        i += 1;
        assert(controls_view(controls@) =~= before + item_controls(name@, items@.take(i as int)));
    }
    assert(items@.take(i as int) =~= items@);
    assert(controls_view(controls@) =~= base + menu_controls(name@, *menu));
}

fn name_of_mode(mode: Mode) -> (r: &'static str)
    ensures
        r@ == mode_name(mode),
{
    match mode {
        Mode::Navigate => "Navigate",
        Mode::Terminal => "Terminal",
        Mode::OpenPeerWorkspace => "OpenPeerWorkspace",
        Mode::AddPeer => "AddPeer",
        Mode::UnhidePeers => "UnhidePeers",
        Mode::ContextMenu => "ContextMenu",
        Mode::GlobalMenu => "GlobalMenu",
    }
}

/// The controls the mouse would be tested against right now.
pub fn snapshot(v: &ViewAreas) -> (r: HitboxSnapshot)
    requires
        v.fits(),
    ensures
        r@ == snapshot_of(*v),
{
    let mut controls: Vec<HitboxControl> = Vec::new();
    offer_fixed(&mut controls, v);
    offer_cards(&mut controls, &v.workspace_cards);
    offer_headers(&mut controls, &v.peer_headers);
    offer_tabs(&mut controls, &v.tabs);
    let ghost so_far = controls_view(controls@);
    match &v.context_menu {
        Some(menu) => offer_menu(&mut controls, "menu", menu),
        None => {},
    }
    assert(v.context_menu is None ==> so_far =~= so_far + Seq::<ControlView>::empty());
    let ghost so_far = controls_view(controls@);
    if v.mode == Mode::GlobalMenu {
        offer_menu(&mut controls, "global_menu", &v.global_menu);
    }
    assert(v.mode != Mode::GlobalMenu ==> so_far =~= so_far + Seq::<ControlView>::empty());
    let layout = match v.layout {
        ViewLayout::Desktop => "desktop",
        ViewLayout::Mobile => "mobile",
    };
    HitboxSnapshot {
        seq: 0,
        layout: layout.to_owned(),
        mode: name_of_mode(v.mode).to_owned(),
        screen: v.screen,
        controls,
    }
}

/// Every control of a list can be clicked, at a point inside it.
pub open spec fn all_clickable(controls: Seq<ControlView>) -> bool {
    forall|i: int|
        0 <= i < controls.len() ==> !(#[trigger] controls[i]).rect.is_empty()
            && controls[i].rect.covers(controls[i].click)
}

proof fn lemma_offered(name: Seq<char>, rect: HitboxRect, label: Option<Seq<char>>)
    requires
        rect.fits(),
    ensures
        all_clickable(offered(name, rect, label)),
{
    if !rect.is_empty() {
        law_a_click_hits_its_own_control(rect, rect);
    }
}

proof fn lemma_clickable_together(a: Seq<ControlView>, b: Seq<ControlView>)
    requires
        all_clickable(a),
        all_clickable(b),
    ensures
        all_clickable(a + b),
{
    assert forall|i: int| 0 <= i < (a + b).len() implies !(#[trigger] (a + b)[i]).rect.is_empty()
        && (a + b)[i].rect.covers((a + b)[i].click) by {
        if i < a.len() {
            assert((a + b)[i] == a[i]);
        } else {
            assert((a + b)[i] == b[i - a.len()]);
        }
    }
}

proof fn lemma_one_more(a: Seq<ControlView>, name: Seq<char>, rect: HitboxRect) -> (r: Seq<
    ControlView,
>)
    requires
        all_clickable(a),
        rect.fits(),
    ensures
        r == a + offered(name, rect, None),
        all_clickable(r),
{
    lemma_offered(name, rect, None);
    lemma_clickable_together(a, offered(name, rect, None));
    a + offered(name, rect, None)
}

proof fn lemma_menu_clickable(name: Seq<char>, menu: MenuArea)
    requires
        menu.fits(),
    ensures
        all_clickable(menu_controls(name, menu)),
{
    lemma_offered(name, menu.rect, None);
    lemma_items_clickable(name, menu.items@);
    lemma_clickable_together(offered(name, menu.rect, None), item_controls(name, menu.items@));
}

proof fn lemma_cards_clickable(cards: Seq<WorkspaceCardArea>)
    requires
        forall|i: int| 0 <= i < cards.len() ==> (#[trigger] cards[i]).rect.fits(),
    ensures
        all_clickable(card_controls(cards)),
    decreases cards.len(),
{
    if cards.len() > 0 {
        lemma_cards_clickable(cards.drop_last());
        let last = cards[cards.len() - 1];
        let one = offered(
            indexed("workspace"@, last.ws_idx as int),
            last.rect,
            crate::text::opt_view(last.label),
        );
        lemma_offered(
            indexed("workspace"@, last.ws_idx as int),
            last.rect,
            crate::text::opt_view(last.label),
        );
        lemma_clickable_together(card_controls(cards.drop_last()), one);
    }
}

proof fn lemma_headers_clickable(headers: Seq<PeerHeaderArea>)
    requires
        forall|i: int| 0 <= i < headers.len() ==> (#[trigger] headers[i]).rect.fits(),
    ensures
        all_clickable(header_controls(headers)),
    decreases headers.len(),
{
    if headers.len() > 0 {
        lemma_headers_clickable(headers.drop_last());
        let last = headers[headers.len() - 1];
        let name = "peer["@ + last.peer@ + "]"@;
        lemma_offered(name, last.rect, Some(last.peer@));
        lemma_clickable_together(
            header_controls(headers.drop_last()),
            offered(name, last.rect, Some(last.peer@)),
        );
    }
}

proof fn lemma_tabs_clickable(tabs: Seq<TabArea>)
    requires
        forall|i: int| 0 <= i < tabs.len() ==> (#[trigger] tabs[i]).rect.fits(),
    ensures
        all_clickable(tab_controls(tabs)),
    decreases tabs.len(),
{
    if tabs.len() > 0 {
        lemma_tabs_clickable(tabs.drop_last());
        let last = tabs[tabs.len() - 1];
        let name = indexed("tab"@, tabs.len() - 1);
        let label = crate::text::opt_view(last.label);
        lemma_offered(name, last.rect, label);
        lemma_clickable_together(tab_controls(tabs.drop_last()), offered(name, last.rect, label));
    }
}

proof fn lemma_items_clickable(name: Seq<char>, items: Seq<MenuItemArea>)
    requires
        forall|i: int|
            0 <= i < items.len() ==> match (#[trigger] items[i]).rect {
                Some(rect) => rect.fits(),
                None => true,
            },
    ensures
        all_clickable(item_controls(name, items)),
    decreases items.len(),
{
    if items.len() > 0 {
        lemma_items_clickable(name, items.drop_last());
        let last = items[items.len() - 1];
        let row = indexed(name, items.len() - 1);
        let one = match last.rect {
            Some(rect) => offered(row, rect, Some(last.label@)),
            None => Seq::empty(),
        };
        if let Some(rect) = last.rect {
            lemma_offered(row, rect, Some(last.label@));
        }
        lemma_clickable_together(item_controls(name, items.drop_last()), one);
    }
}

/// No control is offered that cannot be clicked, and the point offered for each is
/// inside it.
pub proof fn law_every_control_can_be_clicked(v: ViewAreas)
    requires
        v.fits(),
    ensures
        all_clickable(snapshot_of(v).controls),
{
    lemma_offered("sidebar"@, v.sidebar, None);
    let s0 = offered("sidebar"@, v.sidebar, None);
    let s1 = lemma_one_more(s0, "sidebar.workspace_list"@, v.workspace_list);
    let s2 = lemma_one_more(s1, "sidebar.agent_panel"@, v.agent_panel);
    let s3 = lemma_one_more(s2, "sidebar.footer"@, v.sidebar_footer);
    let s4 = lemma_one_more(s3, "sidebar.new"@, v.sidebar_new);
    let s5 = lemma_one_more(s4, "sidebar.launcher"@, v.launcher);
    let s6 = lemma_one_more(s5, "terminal"@, v.terminal);
    let s7 = lemma_one_more(s6, "tab_bar"@, v.tab_bar);
    let s8 = lemma_one_more(s7, "tab_scroll_left"@, v.tab_scroll_left);
    let s9 = lemma_one_more(s8, "tab_scroll_right"@, v.tab_scroll_right);
    let s10 = lemma_one_more(s9, "tab_new"@, v.tab_new);
    let s11 = lemma_one_more(s10, "toast"@, v.toast);
    let s12 = lemma_one_more(s11, "mobile_header"@, v.mobile_header);
    let s13 = lemma_one_more(s12, "mobile_menu"@, v.mobile_menu);
    let a = fixed_controls(v);
    let b = card_controls(v.workspace_cards@);
    let c = header_controls(v.peer_headers@);
    let d = tab_controls(v.tabs@);
    lemma_cards_clickable(v.workspace_cards@);
    lemma_headers_clickable(v.peer_headers@);
    lemma_tabs_clickable(v.tabs@);
    lemma_clickable_together(a, b);
    lemma_clickable_together(a + b, c);
    lemma_clickable_together(a + b + c, d);
    let e = match v.context_menu {
        Some(menu) => menu_controls("menu"@, menu),
        None => Seq::empty(),
    };
    if let Some(menu) = v.context_menu {
        lemma_menu_clickable("menu"@, menu);
    }
    lemma_clickable_together(a + b + c + d, e);
    let f = if v.mode == Mode::GlobalMenu {
        menu_controls("global_menu"@, v.global_menu)
    } else {
        Seq::empty()
    };
    if v.mode == Mode::GlobalMenu {
        lemma_menu_clickable("global_menu"@, v.global_menu);
    }
    lemma_clickable_together(a + b + c + d + e, f);
}

impl HitboxControl {
    /// Whether two controls are the same.
    pub fn same(&self, other: &HitboxControl) -> (r: bool)
        ensures
            r == (self@ == other@),
    {
        str_eq(self.name.as_str(), other.name.as_str()) && self.rect == other.rect && self.click
            == other.click && opt_eq(&self.label, &other.label)
    }
}

impl HitboxSnapshot {
    /// The control with this name.
    pub fn control(&self, name: &str) -> (r: Option<&HitboxControl>)
        ensures
            match r {
                Some(control) => crate::search::find(self.controls@, is_named(name@)) == Some(
                    *control,
                ),
                None => crate::search::find(self.controls@, is_named(name@)) is None,
            },
    {
        let mut i: usize = 0;
        while i < self.controls.len()
            invariant
                i <= self.controls@.len(),
                crate::search::first(self.controls@, is_named(name@), 0) == crate::search::first(
                    self.controls@,
                    is_named(name@),
                    i as int,
                ),
            decreases self.controls@.len() - i,
        {
            if str_eq(self.controls[i].name.as_str(), name) {
                return Some(&self.controls[i]);
            }
            i += 1;
        }
        None
    }

    /// Whether two snapshots are the same.
    pub fn same(&self, other: &HitboxSnapshot) -> (r: bool)
        ensures
            r == (self@ == other@),
    {
        if self.seq != other.seq || !str_eq(self.layout.as_str(), other.layout.as_str())
            || !str_eq(self.mode.as_str(), other.mode.as_str()) || self.screen != other.screen
            || self.controls.len() != other.controls.len() {
            assert(self@.controls.len() == self.controls@.len());
            assert(other@.controls.len() == other.controls@.len());
            return false;
        }
        let mut i: usize = 0;
        while i < self.controls.len()
            invariant
                i <= self.controls@.len(),
                self.controls@.len() == other.controls@.len(),
                forall|j: int|
                    0 <= j < i ==> (#[trigger] self.controls@[j])@ == other.controls@[j]@,
            decreases self.controls@.len() - i,
        {
            if !self.controls[i].same(&other.controls[i]) {
                assert(self@.controls[i as int] != other@.controls[i as int]);
                return false;
            }
            i += 1;
        }
        assert(self@.controls =~= other@.controls);
        true
    }
}

/// The control has this name.
pub open spec fn is_named(name: Seq<char>) -> spec_fn(HitboxControl) -> bool {
    |c: HitboxControl| c.name@ == name
}

/// What is known of the file the snapshots go to.
#[derive(Debug, PartialEq, Eq)]
pub struct HitboxDump {
    /// The number of the last snapshot that was written.
    pub seq: u64,
    /// What was last written, not numbered.
    pub last: Option<HitboxSnapshot>,
    /// Whether a failure was already told.
    pub warned: bool,
}

/// Why a snapshot was not written.
#[derive(Debug, PartialEq, Eq)]
pub enum DumpFailure {
    /// It could not be turned into text.
    Serialize(String),
    /// The text could not be put into the file.
    Write(String),
}

impl DumpFailure {
    /// What is told of the failure to write to this path.
    pub open spec fn text(self, path: Seq<char>) -> Seq<char> {
        match self {
            DumpFailure::Serialize(error) => "failed to serialize hitbox dump: "@ + error@,
            DumpFailure::Write(error) => "failed to write hitbox dump to "@ + path + ": "@ + error@,
        }
    }
}

/// A number after one more.
pub open spec fn next_seq(seq: u64) -> u64 {
    if seq == u64::MAX {
        u64::MAX
    } else {
        (seq + 1) as u64
    }
}

/// The same contents as what was last written.
pub open spec fn is_unchanged(dump: HitboxDump, snapshot: SnapshotView) -> bool {
    dump.last is Some && dump.last->0@ == snapshot
}

impl HitboxDump {
    pub fn new() -> (r: Self)
        ensures
            r == (HitboxDump { seq: 0, last: None, warned: false }),
    {
        HitboxDump { seq: 0, last: None, warned: false }
    }

    /// What is to be written for these areas, if anything: a frame that looks like
    /// the last one is not written again. It is compared before it is numbered,
    /// since the number is new each time.
    pub fn write(&self, v: &ViewAreas) -> (r: Option<HitboxSnapshot>)
        requires
            v.fits(),
        ensures
            r is None == is_unchanged(*self, snapshot_of(*v)),
            r is Some ==> r->0@ == (SnapshotView { seq: next_seq(self.seq), ..snapshot_of(*v) }),
    {
        let mut current = snapshot(v);
        if let Some(last) = &self.last {
            if last.same(&current) {
                return None;
            }
        }
        current.seq = self.seq.saturating_add(1);
        Some(current)
    }

    /// Notes what came of writing. Returns what is to be told of a failure, which
    /// is told only once: a dump is an aid, and must not fail the screen.
    pub fn written(
        &mut self,
        snapshot: HitboxSnapshot,
        outcome: Result<(), DumpFailure>,
        path: &str,
    ) -> (r: Option<String>)
        ensures
            match outcome {
                Ok(_) => {
                    &&& r is None
                    &&& final(self).seq == snapshot.seq
                    &&& final(self).last is Some
                    &&& final(self).last->0@ == (SnapshotView { seq: 0, ..snapshot@ })
                    &&& final(self).warned == old(self).warned
                },
                Err(failure) => {
                    &&& *final(self) == (HitboxDump { warned: true, ..*old(self) })
                    &&& r is Some == !old(self).warned
                    &&& r is Some ==> r->0@ == failure.text(path@)
                },
            },
    {
        match outcome {
            Ok(_) => {
                let mut controls = snapshot;
                self.seq = controls.seq;
                controls.seq = 0;
                self.last = Some(controls);
                None
            },
            Err(failure) => {
                if self.warned {
                    return None;
                }
                self.warned = true;
                Some(
                    match failure {
                        DumpFailure::Serialize(error) => cat2(
                            "failed to serialize hitbox dump: ",
                            error.as_str(),
                        ),
                        DumpFailure::Write(error) => cat4(
                            "failed to write hitbox dump to ",
                            path,
                            ": ",
                            error.as_str(),
                        ),
                    },
                )
            },
        }
    }
}

/// What was written is not written again while the screen stays the same, and is
/// written with a higher number once it changes.
pub proof fn law_a_dump_is_rewritten_only_when_it_changes(
    before: HitboxDump,
    after: HitboxDump,
    v: ViewAreas,
    next: ViewAreas,
)
    requires
        after.last is Some,
        after.seq == next_seq(before.seq),
        after.last->0@ == snapshot_of(v),
    ensures
        is_unchanged(after, snapshot_of(v)),
        is_unchanged(after, snapshot_of(next)) <==> snapshot_of(next) == snapshot_of(v),
        before.seq < u64::MAX ==> after.seq > before.seq,
{
}

} // verus!
