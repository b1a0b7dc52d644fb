//! Where the controls are on screen.

use herdr::app::hitbox::{
    click_point, snapshot, DumpFailure, HitboxDump, HitboxPoint, HitboxRect, HitboxSnapshot, MenuArea,
    MenuItemArea, PeerHeaderArea, TabArea, ViewAreas, ViewLayout, WorkspaceCardArea, DUMP_PATH_ENV,
};
use herdr::app::state::Mode;

fn rect(x: u16, y: u16, width: u16, height: u16) -> HitboxRect {
    HitboxRect { x, y, width, height }
}

const EMPTY: HitboxRect = HitboxRect { x: 0, y: 0, width: 0, height: 0 };

fn areas() -> ViewAreas {
    ViewAreas {
        layout: ViewLayout::Desktop,
        mode: Mode::Navigate,
        screen: rect(0, 0, 100, 30),
        sidebar: rect(0, 0, 24, 30),
        workspace_list: rect(0, 1, 24, 10),
        agent_panel: EMPTY,
        sidebar_footer: rect(0, 29, 24, 1),
        sidebar_new: rect(20, 29, 3, 1),
        launcher: EMPTY,
        terminal: rect(24, 1, 76, 29),
        tab_bar: rect(24, 0, 76, 1),
        tab_scroll_left: EMPTY,
        tab_scroll_right: EMPTY,
        tab_new: rect(60, 0, 3, 1),
        toast: EMPTY,
        mobile_header: EMPTY,
        mobile_menu: EMPTY,
        workspace_cards: vec![
            WorkspaceCardArea { ws_idx: 0, rect: rect(0, 1, 24, 2), label: Some("one".into()) },
            WorkspaceCardArea { ws_idx: 1, rect: rect(0, 3, 24, 2), label: Some("two".into()) },
        ],
        peer_headers: vec![PeerHeaderArea { peer: "beta".into(), rect: rect(0, 6, 24, 1) }],
        tabs: vec![
            TabArea { rect: rect(24, 0, 10, 1), label: None },
            TabArea { rect: rect(34, 0, 10, 1), label: Some("second".into()) },
            TabArea { rect: rect(44, 0, 10, 1), label: Some("third".into()) },
        ],
        context_menu: None,
        global_menu: MenuArea { rect: EMPTY, items: Vec::new() },
    }
}

fn menu() -> MenuArea {
    MenuArea {
        rect: rect(4, 3, 20, 5),
        items: vec![
            MenuItemArea { label: "rename".into(), rect: Some(rect(5, 4, 18, 1)) },
            MenuItemArea { label: "close".into(), rect: Some(rect(5, 5, 18, 1)) },
            MenuItemArea { label: "cut off".into(), rect: None },
        ],
    }
}

fn contains(r: &HitboxRect, p: &HitboxPoint) -> bool {
    r.x <= p.col && p.col - r.x < r.width && r.y <= p.row && p.row - r.y < r.height
}

/// The position of the one rectangle that a click hits.
fn hit(rects: &[HitboxRect], p: &HitboxPoint) -> Option<usize> {
    rects.iter().position(|r| contains(r, p))
}

fn control<'a>(
    dump: &'a HitboxSnapshot,
    name: &str,
) -> &'a herdr::app::hitbox::HitboxControl {
    dump.control(name).unwrap_or_else(|| panic!("{name} missing from the dump"))
}

#[test]
fn hitbox_click_resolves_back_to_the_same_context_menu_item() {
    let mut v = areas();
    v.context_menu = Some(menu());
    v.mode = Mode::ContextMenu;

    let dump = snapshot(&v);
    let rects = [rect(5, 4, 18, 1), rect(5, 5, 18, 1)];
    for idx in 0..rects.len() {
        let control = control(&dump, &format!("menu[{idx}]"));
        assert_eq!(
            hit(&rects, &control.click),
            Some(idx),
            "clicking the dumped point for menu[{idx}] must hit that item",
        );
    }
    assert_eq!(control(&dump, "menu[1]").label.as_deref(), Some("close"));
    assert!(dump.control("menu[2]").is_none());
}

#[test]
fn hitbox_click_resolves_back_to_the_same_tab_and_workspace_row() {
    let v = areas();
    let dump = snapshot(&v);
    let tabs: Vec<HitboxRect> = v.tabs.iter().map(|tab| tab.rect).collect();
    for idx in 0..tabs.len() {
        let control = control(&dump, &format!("tab[{idx}]"));
        assert_eq!(
            hit(&tabs, &control.click),
            Some(idx),
            "clicking the dumped point for tab[{idx}] must hit that tab",
        );
    }
    let cards: Vec<HitboxRect> = v.workspace_cards.iter().map(|card| card.rect).collect();
    for idx in 0..cards.len() {
        let control = control(&dump, &format!("workspace[{idx}]"));
        assert_eq!(
            hit(&cards, &control.click),
            Some(idx),
            "clicking the dumped point for workspace[{idx}] must hit that row",
        );
    }
}

#[test]
fn hitbox_click_resolves_back_to_the_same_global_menu_item() {
    let mut v = areas();
    v.mode = Mode::GlobalMenu;
    v.global_menu = menu();

    let dump = snapshot(&v);
    for (idx, label) in ["rename", "close"].iter().enumerate() {
        let control = control(&dump, &format!("global_menu[{idx}]"));
        assert_eq!(control.label.as_deref(), Some(*label));
        assert!(
            hit(&[rect(5, 4, 18, 1), rect(5, 5, 18, 1)], &control.click).is_some(),
            "clicking the dumped point for global_menu[{idx}] must hit an item",
        );
    }
}

#[test]
fn a_closed_menu_contributes_no_controls() {
    let mut v = areas();
    v.global_menu = menu();
    assert!(v.context_menu.is_none());
    assert!(snapshot(&v)
        .controls
        .iter()
        .all(|control| !control.name.starts_with("menu")
            && !control.name.starts_with("global_menu")));
}

#[test]
fn offscreen_controls_are_not_offered() {
    // Emitting a zero-width rect would let a caller "find" a control that is not
    // on screen and click a cell that belongs to something else.
    let mut v = areas();
    v.screen = rect(0, 0, 1, 1);
    v.tab_bar = rect(0, 0, 0, 1);
    v.tabs[0].rect = rect(24, 0, 10, 0);
    let dump = snapshot(&v);
    for control in &dump.controls {
        assert!(
            control.rect.width > 0 && control.rect.height > 0,
            "{} was emitted with an empty rect",
            control.name,
        );
    }
    assert!(dump.control("tab[0]").is_none());
    assert!(dump.control("tab[1]").is_some());
}

#[test]
fn a_click_is_in_the_middle() {
    assert_eq!(click_point(rect(10, 20, 5, 3)), HitboxPoint { col: 12, row: 21 });
    assert_eq!(click_point(rect(10, 20, 1, 1)), HitboxPoint { col: 10, row: 20 });
}

#[test]
fn a_dump_is_rewritten_only_when_the_controls_move() {
    let mut dump = HitboxDump::new();
    let mut v = areas();

    let first = dump.write(&v).expect("first dump");
    assert_eq!(first.seq, 1);
    assert_eq!(dump.written(first, Ok(()), "/tmp/hitbox.json"), None);

    assert!(dump.write(&v).is_none(), "an unchanged frame must not rewrite the file");

    v.mode = Mode::ContextMenu;
    v.context_menu = Some(menu());
    let second = dump.write(&v).expect("second dump");
    assert_eq!(second.seq, 2);
    assert!(second.control("menu[0]").is_some());
}

#[test]
fn an_unwritable_path_does_not_fail_the_render() {
    let mut dump = HitboxDump::new();
    let v = areas();
    let refuse = || Err(DumpFailure::Write("not a directory".to_string()));

    let first = dump.write(&v).expect("a dump");
    let warning = dump.written(first, refuse(), "/tmp/blocked/hitbox.json").expect("a warning");
    assert!(warning.contains("not a directory"), "{warning}");
    assert_eq!(
        warning,
        "failed to write hitbox dump to /tmp/blocked/hitbox.json: not a directory"
    );
    // It is told once, and tried again.
    let second = dump.write(&v).expect("a dump");
    assert_eq!(dump.written(second, refuse(), "/tmp/blocked/hitbox.json"), None);
    assert_eq!(DUMP_PATH_ENV, "HERDR_HITBOX_DUMP");

    // What cannot be turned into text is another failure.
    let mut dump = HitboxDump::new();
    let third = dump.write(&v).expect("a dump");
    let failure = Err(DumpFailure::Serialize("depth".to_string()));
    assert_eq!(
        dump.written(third, failure, "/tmp/hitbox.json").as_deref(),
        Some("failed to serialize hitbox dump: depth")
    );
}

#[test]
fn areas_whose_middle_has_no_name_are_told() {
    let mut v = areas();
    assert!(v.is_nameable());
    // The far edge may lie beyond the last cell as long as the middle does not.
    v.toast = rect(u16::MAX - 1, 0, 3, 1);
    assert!(v.is_nameable());
    v.toast = rect(u16::MAX, 0, 3, 1);
    assert!(!v.is_nameable());
    v.toast = rect(u16::MAX, u16::MAX, 0, 0);
    assert!(v.is_nameable());
    let mut off = menu();
    off.rect = rect(0, u16::MAX, 1, 3);
    v.context_menu = Some(off);
    assert!(!v.is_nameable());
}
