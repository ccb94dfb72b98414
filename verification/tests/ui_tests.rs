use k1::error::K1Error;
use k1::ui::{init_xmb_menu, MenuEvent, MenuKey, MenuQuad, XMBColumn, XMBItem, XMBMenu, MAX_COLUMNS, MAX_ITEMS};

fn text(bytes: &[u8]) -> &[u8] {
    let end = bytes.iter().position(|&b| b == 0).unwrap_or(bytes.len());
    &bytes[..end]
}

#[test]
fn item_labels_are_truncated_and_terminated() {
    let mut it = XMBItem::new();
    it.set_label(&"a".repeat(60));
    assert_eq!(text(&it.label), "a".repeat(47).as_bytes());
    it.set_label("Music");
    assert_eq!(text(&it.label), b"Music");
    assert_eq!(it.label[6], b'a');
    it.set_app_path("music");
    assert_eq!(text(&it.app_path), b"music");
}

#[test]
fn column_refuses_the_thirty_third_item() {
    let mut c = XMBColumn::new();
    for i in 0..MAX_ITEMS {
        assert!(c.add_item("x", i as u16, "p").is_ok());
    }
    assert_eq!(c.add_item("y", 0, "q"), Err(K1Error::OutOfBounds));
    assert_eq!(c.item_count, 32);
}

#[test]
fn menu_refuses_the_ninth_column() {
    let mut m = XMBMenu::new();
    for _ in 0..MAX_COLUMNS {
        assert!(m.add_column("c", 1).is_ok());
    }
    assert!(matches!(m.add_column("d", 2), Err(K1Error::OutOfBounds)));
    assert_eq!(m.column_count(), 8);
}

#[test]
fn menu_navigation_stays_in_bounds() {
    let mut m = XMBMenu::new();
    init_xmb_menu(&mut m);
    assert_eq!(m.column_count(), 3);
    assert_eq!(m.navigate_left(), None);
    m.navigate_up();
    assert_eq!(m.selected_row(), 0);
    for _ in 0..10 {
        m.navigate_down();
    }
    assert_eq!(m.selected_row(), 3);
    assert_eq!(m.navigate_right(), Some((0, 1)));
    assert_eq!(m.selected_row(), 0);
    assert_eq!(m.navigate_right(), Some((1, 2)));
    assert_eq!(m.navigate_right(), None);
    assert_eq!(m.selected_column(), 2);
}

#[test]
fn right_then_left_comes_back() {
    let mut m = XMBMenu::new();
    init_xmb_menu(&mut m);
    m.navigate_down();
    assert_eq!(m.navigate_right(), Some((0, 1)));
    assert_eq!(m.navigate_left(), Some((1, 0)));
    assert_eq!(m.selected_column(), 0);
    assert_eq!(m.selected_row(), 0);
}

#[test]
fn keys_drive_the_menu() {
    let mut m = XMBMenu::new();
    init_xmb_menu(&mut m);
    assert_eq!(m.handle_key(MenuKey::Right, false), MenuEvent::Idle);
    assert_eq!(m.selected_column(), 0);
    assert_eq!(m.handle_key(MenuKey::Right, true), MenuEvent::ColumnTransition { from: 0, to: 1 });
    assert_eq!(m.handle_key(MenuKey::Down, true), MenuEvent::Idle);
    assert_eq!(m.selected_row(), 1);
    assert_eq!(m.handle_key(MenuKey::Confirm, true), MenuEvent::Confirmed);
    assert_eq!(m.handle_key(MenuKey::Back, true), MenuEvent::BackPressed);
    assert_eq!(m.handle_key(MenuKey::Other, true), MenuEvent::Idle);
    assert_eq!(m.handle_key(MenuKey::Left, true), MenuEvent::ColumnTransition { from: 1, to: 0 });
}

#[test]
fn init_menu_builds_standard_columns() {
    let mut m = XMBMenu::new();
    init_xmb_menu(&mut m);
    assert_eq!(text(&m.column(0).label), b"Games");
    assert_eq!(m.column(0).item_count, 4);
    assert_eq!(text(&m.column(0).items[3].app_path), b"com.explusalpha.Snes9xPlus");
    assert_eq!(text(&m.column(1).label), b"Media");
    assert_eq!(m.column(1).icon_id, 5);
    assert_eq!(text(&m.column(2).items[2].label), b"Controls");
    assert_eq!(m.column(2).items[2].icon_id, 12);
}

#[test]
fn quad_layout_places_columns_at_twice_their_running_count() {
    let mut m = XMBMenu::new();
    init_xmb_menu(&mut m);
    let (quads, count) = m.quad_layout(0);
    assert_eq!(count, 78);
    assert_eq!(quads.len(), 13);
    assert_eq!(
        quads[0],
        MenuQuad { column: 0, row: None, first_vertex: 0, column_selected: true, row_selected: false }
    );
    assert_eq!(
        quads[1],
        MenuQuad { column: 0, row: Some(0), first_vertex: 6, column_selected: true, row_selected: true }
    );
    assert_eq!(quads[4].first_vertex, 24);
    assert_eq!(
        quads[5],
        MenuQuad { column: 1, row: None, first_vertex: 60, column_selected: false, row_selected: false }
    );
    assert_eq!(
        quads[6],
        MenuQuad { column: 1, row: Some(0), first_vertex: 66, column_selected: false, row_selected: true }
    );
    assert_eq!(quads[9].first_vertex, 108);
    assert_eq!(quads[12].row, Some(2));
}

#[test]
fn quad_layout_starts_at_base_and_follows_selection() {
    let mut m = XMBMenu::new();
    init_xmb_menu(&mut m);
    m.navigate_right();
    m.navigate_down();
    let (quads, count) = m.quad_layout(100);
    assert_eq!(count, 78);
    assert_eq!(quads[0].first_vertex, 100);
    assert!(!quads[0].column_selected);
    assert!(quads[5].column_selected);
    assert!(quads[7].row_selected);
    assert!(!quads[6].row_selected);
}

#[test]
fn quad_layout_of_empty_menu_is_empty() {
    let m = XMBMenu::new();
    let (quads, count) = m.quad_layout(7);
    assert!(quads.is_empty());
    assert_eq!(count, 0);
}
