use event_table::decimal::Decimal;
use event_table::event::{Event, Tone};
use event_table::scan::{chars_of, contains_exec, find, number_end_exec, ws_end_exec};
use event_table::shell::{update, AppState, Command, Message};
use event_table::table::{row_at_exec, menu_shift_exec, ContextMenu, Overlay, Table, TableMessage};
use event_table::tray::{TrayAction, TrayRegistry, STR_QUIT, STR_SHOW};

fn dec(mantissa: i64, scale: u32) -> Decimal {
    Decimal { mantissa, scale }
}

fn registry() -> TrayRegistry {
    let mut r = TrayRegistry::new();
    r.insert(STR_SHOW, "1001".to_string());
    r.insert(STR_QUIT, "1002".to_string());
    r
}

#[test]
fn new_table_defaults() {
    let t = Table::new();
    assert_eq!(t.events.len(), 15);
    assert_eq!(t.padding, (dec(10, 0), dec(5, 0)));
    assert_eq!(t.separator, (dec(1, 0), dec(1, 0)));
    assert_eq!(t.selected, None);
    assert_eq!(t.last_cursor, None);
    assert_eq!(t.context_menu, None);
    assert_eq!(t.overlay(), Overlay::Nothing);
}

#[test]
fn padding_change_sets_pair_idempotently() {
    let mut t = Table::new();
    t.update(TableMessage::PaddingChanged(dec(12, 0), dec(7, 0)));
    assert_eq!(t.padding, (dec(12, 0), dec(7, 0)));
    t.update(TableMessage::PaddingChanged(dec(12, 0), dec(7, 0)));
    assert_eq!(t.padding, (dec(12, 0), dec(7, 0)));
    assert_eq!(t.separator, (dec(1, 0), dec(1, 0)));
}

#[test]
fn separator_change_sets_pair() {
    let mut t = Table::new();
    t.update(TableMessage::SeparatorChanged(dec(25, 1), dec(0, 0)));
    assert_eq!(t.separator, (dec(25, 1), dec(0, 0)));
    assert_eq!(t.padding, (dec(10, 0), dec(5, 0)));
}

#[test]
fn select_then_clear_leaves_no_selection() {
    for i in [0usize, 3, 14, 15, 1000, usize::MAX] {
        let mut t = Table::new();
        t.update(TableMessage::ShowDetails(i));
        assert_eq!(t.selected, Some(i));
        t.update(TableMessage::HideDetails);
        assert_eq!(t.selected, None);
    }
}

#[test]
fn select_in_range_shows_details() {
    let mut t = Table::new();
    t.update(TableMessage::ShowDetails(14));
    assert_eq!(t.overlay(), Overlay::Details(14));
}

#[test]
fn select_out_of_range_shows_no_details() {
    let mut t = Table::new();
    t.update(TableMessage::ShowDetails(15));
    assert_eq!(t.overlay(), Overlay::Nothing);
}

#[test]
fn cursor_move_then_right_press_opens_menu_at_row() {
    let mut t = Table::new();
    t.on_window_event_debug("CursorMoved { position: Point { x: 120.5, y: 100.0 } }");
    assert_eq!(t.last_cursor, Some((dec(1205, 1), dec(1000, 1))));
    assert_eq!(t.context_menu, None);
    t.on_window_event_debug("MouseInput { state: Pressed, button: Right }");
    assert_eq!(t.context_menu, Some(ContextMenu { row: 1, x: dec(1205, 1), y: dec(1000, 1) }));
    assert_eq!(t.overlay(), Overlay::Menu { row: 1, shift: Some(20) });
    t.update(TableMessage::HideContext);
    assert_eq!(t.context_menu, None);
}

#[test]
fn right_press_above_rows_opens_nothing() {
    let mut t = Table::new();
    t.on_window_event_debug("CursorMoved { position: Point { x: 10, y: 36 } }");
    t.on_window_event_debug("ButtonPressed(Right)");
    assert_eq!(t.context_menu, None);
}

#[test]
fn right_press_below_last_row_opens_nothing() {
    let mut t = Table::new();
    // 36 + 15 * 36 = 576: the first height past the last row.
    t.on_window_event_debug("CursorMoved { position: Point { x: 10, y: 576 } }");
    t.on_window_event_debug("ButtonPressed(Right)");
    assert_eq!(t.context_menu, None);
    t.on_window_event_debug("CursorMoved { position: Point { x: 10, y: 575.9 } }");
    t.on_window_event_debug("ButtonPressed(Right)");
    assert_eq!(t.context_menu.map(|c| c.row), Some(14));
}

#[test]
fn left_press_opens_nothing() {
    let mut t = Table::new();
    t.on_window_event_debug("CursorMoved { position: Point { x: 10, y: 100 } }");
    t.on_window_event_debug("MouseInput { state: Pressed, button: Left }");
    assert_eq!(t.context_menu, None);
}

#[test]
fn right_press_without_cursor_opens_nothing() {
    let mut t = Table::new();
    t.on_window_event_debug("MouseInput { state: Pressed, button: Right }");
    assert_eq!(t.context_menu, None);
}

#[test]
fn move_with_unreadable_number_keeps_cursor() {
    let mut t = Table::new();
    t.on_window_event_debug("CursorMoved { position: Point { x: 5, y: 50 } }");
    t.on_window_event_debug("CursorMoved { position: Point { x: 1.2.3, y: 60 } }");
    assert_eq!(t.last_cursor, Some((dec(5, 0), dec(50, 0))));
    t.on_window_event_debug("Resized { x: 9, y: 9 }");
    assert_eq!(t.last_cursor, Some((dec(5, 0), dec(50, 0))));
}

#[test]
fn move_reads_numbers_after_whitespace() {
    let mut t = Table::new();
    t.on_window_event_debug("Moved(x:\t  -3.25, y:\u{a0}8)");
    assert_eq!(t.last_cursor, Some((dec(-325, 2), dec(8, 0))));
}

#[test]
fn menu_without_positive_x_has_no_shift() {
    let mut t = Table::new();
    t.on_window_event_debug("CursorMoved { position: Point { x: -4, y: 80 } }");
    t.on_window_event_debug("MouseButton Right");
    assert_eq!(t.overlay(), Overlay::Menu { row: 1, shift: None });
}

#[test]
fn details_win_over_context_menu() {
    let mut t = Table::new();
    t.on_window_event_debug("CursorMoved { position: Point { x: 300, y: 40 } }");
    t.on_window_event_debug("MouseInput { state: Pressed, button: Right }");
    t.update(TableMessage::ShowDetails(2));
    assert_eq!(t.overlay(), Overlay::Details(2));
    t.update(TableMessage::HideDetails);
    assert_eq!(t.overlay(), Overlay::Menu { row: 0, shift: Some(200) });
}

#[test]
fn row_index_formula() {
    assert_eq!(row_at_exec(dec(100, 0)), Some(1));
    assert_eq!(row_at_exec(dec(36, 0)), None);
    assert_eq!(row_at_exec(dec(3601, 2)), Some(0));
    assert_eq!(row_at_exec(dec(108, 0)), Some(2));
    assert_eq!(row_at_exec(dec(-5, 0)), None);
}

#[test]
fn menu_shift_formula() {
    assert_eq!(menu_shift_exec(dec(1205, 1)), 20);
    assert_eq!(menu_shift_exec(dec(50, 0)), 0);
    assert_eq!(menu_shift_exec(dec(700, 0)), 600);
    assert_eq!(menu_shift_exec(dec(9000, 0)), 600);
    assert_eq!(menu_shift_exec(dec(69999, 2)), 599);
}

#[test]
fn parse_numbers() {
    assert_eq!(Decimal::parse("12.5"), Some(dec(125, 1)));
    assert_eq!(Decimal::parse("-.5"), Some(dec(-5, 1)));
    assert_eq!(Decimal::parse("7."), Some(dec(7, 0)));
    assert_eq!(Decimal::parse("007"), Some(dec(7, 0)));
    assert_eq!(Decimal::parse("0.250"), Some(dec(250, 3)));
    assert_eq!(Decimal::parse("999999999999999999"), Some(dec(999_999_999_999_999_999, 0)));
    assert_eq!(Decimal::parse(""), None);
    assert_eq!(Decimal::parse("."), None);
    assert_eq!(Decimal::parse("-"), None);
    assert_eq!(Decimal::parse("1.2.3"), None);
    assert_eq!(Decimal::parse("--1"), None);
    assert_eq!(Decimal::parse("1-2"), None);
    assert_eq!(Decimal::parse(" 1"), None);
    assert_eq!(Decimal::parse("1234567890123456789"), None);
}

#[test]
fn from_int_is_whole() {
    assert_eq!(Decimal::from_int(-42), dec(-42, 0));
}

#[test]
fn scanning_helpers() {
    let s = chars_of("ab x: 3");
    assert_eq!(s.len(), 7);
    assert_eq!(find(&s, &chars_of("x:")), Some(3));
    assert_eq!(find(&s, &chars_of("y:")), None);
    assert_eq!(find(&s, &chars_of("")), Some(0));
    assert!(contains_exec(&s, &chars_of("b x")));
    assert!(!contains_exec(&s, &chars_of("bx")));
    assert_eq!(ws_end_exec(&s, 5), 6);
    assert_eq!(number_end_exec(&s, 6), 7);
    assert_eq!(chars_of("héllo"), vec!['h', 'é', 'l', 'l', 'o']);
}

#[test]
fn fixture_has_fifteen_events() {
    let list = Event::list();
    assert_eq!(list.len(), 15);
    assert_eq!(list[0].name, "Get lost in a hacker bookstore");
    assert_eq!(list[0].duration_secs, 7200);
    assert_eq!(list[11].price_cents, 999);
    assert_eq!(list[14].name, "Get a tattoo of the Git logo");
    assert_eq!(list[14].rating_hundredths, 460);
}

#[test]
fn event_tones() {
    let list = Event::list();
    assert_eq!(list[0].minutes(), 120);
    assert_eq!(list[0].time_tone(), Tone::Warning);
    assert_eq!(list[1].time_tone(), Tone::Default);
    assert_eq!(list[0].price_tone(), Tone::Success);
    assert_eq!(list[1].price_tone(), Tone::Warning);
    assert_eq!(list[2].price_tone(), Tone::Default);
    assert_eq!(list[0].rating_tone(), Tone::Success);
    assert_eq!(list[2].rating_tone(), Tone::Danger);
    assert_eq!(list[7].rating_tone(), Tone::Default);
}

#[test]
fn tray_registry_resolves_show_and_quit() {
    let r = registry();
    assert_eq!(r.resolve("1001"), TrayAction::Show);
    assert_eq!(r.resolve("1002"), TrayAction::Quit);
    assert_eq!(r.resolve("1003"), TrayAction::Ignore);
    assert_eq!(r.resolve(""), TrayAction::Ignore);
    assert_eq!(r.get(STR_SHOW).map(|s| s.as_str()), Some("1001"));
    assert_eq!(r.get("Hide"), None);
}

#[test]
fn tray_registry_insert_replaces() {
    let mut r = registry();
    r.insert(STR_QUIT, "2002".to_string());
    assert_eq!(r.resolve("1002"), TrayAction::Ignore);
    assert_eq!(r.resolve("2002"), TrayAction::Quit);
}

#[test]
fn empty_registry_ignores_everything() {
    let r = TrayRegistry::new();
    assert_eq!(r.resolve("1001"), TrayAction::Ignore);
}

#[test]
fn confirm_exit_exits() {
    let mut s = AppState::new(registry());
    assert_eq!(update(&mut s, Message::ConfirmExit), Command::Exit);
}

#[test]
fn quit_from_tray_exits() {
    let mut s = AppState::new(registry());
    assert_eq!(update(&mut s, Message::TrayIconEvent("1002".to_string())), Command::Exit);
    assert_eq!(update(&mut s, Message::TrayIconEvent("1001".to_string())), Command::Continue);
    assert_eq!(update(&mut s, Message::TrayIconEvent("77".to_string())), Command::Continue);
}

#[test]
fn close_then_cancel_restores_normal_state() {
    let mut s = AppState::new(registry());
    update(&mut s, Message::TbMsg(TableMessage::ShowDetails(3)));
    assert_eq!(update(&mut s, Message::CloseRequested), Command::Continue);
    assert!(s.show_confirm);
    assert_eq!(update(&mut s, Message::CancelExit), Command::Continue);
    assert!(!s.show_confirm);
    assert_eq!(s.main_table.selected, Some(3));
    assert_eq!(s.main_table.padding, (dec(10, 0), dec(5, 0)));
}

#[test]
fn shell_routes_window_and_table_messages() {
    let mut s = AppState::new(registry());
    update(&mut s, Message::WindowEvent("CursorMoved { position: Point { x: 1, y: 200 } }".to_string()));
    update(&mut s, Message::WindowEvent("MouseInput { state: Pressed, button: Right }".to_string()));
    assert_eq!(s.main_table.context_menu.map(|c| c.row), Some(4));
    assert_eq!(update(&mut s, Message::Noop), Command::Continue);
    update(&mut s, Message::TbMsg(TableMessage::HideContext));
    assert_eq!(s.main_table.context_menu, None);
    assert!(!s.show_confirm);
}
