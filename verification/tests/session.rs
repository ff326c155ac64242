use ubuntu_optimizer::app::{is_quit_key, App, Command, Key};
use ubuntu_optimizer::display::{badge, desktop_label, health_badge, log_kind, LogKind, RowState};
use ubuntu_optimizer::script::{build_script, restore_script};
use ubuntu_optimizer::system::{ScanResult, SystemInfo};
use ubuntu_optimizer::tweak::{Page, Tweak};

fn info(is_gnome: bool, is_kde: bool) -> SystemInfo {
    SystemInfo {
        distro: "Ubuntu 26.04 LTS".to_string(),
        desktop: "KDE".to_string(),
        is_gnome,
        is_kde,
        is_root: false,
    }
}

fn fresh() -> App {
    App::new(info(false, true), ScanResult::default())
}

#[test]
fn new_session() {
    let app = fresh();
    assert_eq!(app.log, vec!["System: Ubuntu 26.04 LTS | Desktop: KDE".to_string()]);
    assert_eq!(app.view, Page::Overview);
    assert_eq!(app.list_index, 0);
    assert_eq!(app.log_scroll, 0);
    assert!(!app.is_selected(Tweak::RemoveSnap));
}

#[test]
fn desktop_rows_follow_the_desktop() {
    let mut app = App::new(info(false, false), ScanResult::default());
    app.view = Page::Desktop;
    assert_eq!(app.visible_rows(), vec![Tweak::BloatRemoved]);
    app.info.is_gnome = true;
    assert_eq!(app.visible_rows(), vec![Tweak::TrackerOff, Tweak::BloatRemoved]);
    app.info.is_kde = true;
    assert_eq!(app.visible_rows(), vec![Tweak::TrackerOff, Tweak::BalooOff, Tweak::BloatRemoved]);
    app.info.is_gnome = false;
    assert_eq!(app.visible_rows(), vec![Tweak::BalooOff, Tweak::BloatRemoved]);
}

#[test]
fn cursor_wraps_both_ways() {
    let mut app = fresh();
    assert!(matches!(app.handle_key(Key::Up), Command::Stay));
    assert_eq!(app.list_index, 2);
    app.handle_key(Key::Char('j'));
    assert_eq!(app.list_index, 0);
    app.handle_key(Key::Down);
    app.handle_key(Key::Down);
    assert_eq!(app.list_index, 2);
    app.handle_key(Key::Char('k'));
    assert_eq!(app.list_index, 1);
}

#[test]
fn huge_cursor_moves_without_overflow() {
    let mut app = fresh();
    app.list_index = usize::MAX;
    app.handle_key(Key::Up);
    assert_eq!(app.list_index, ((usize::MAX as u128 + 2) % 3) as usize);
    app.list_index = usize::MAX;
    app.handle_key(Key::Down);
    assert_eq!(app.list_index, ((usize::MAX as u128 + 1) % 3) as usize);
}

#[test]
fn tab_cycles_pages_and_resets_cursor() {
    let mut app = fresh();
    app.list_index = 2;
    let order = [Page::Packages, Page::Privacy, Page::Performance, Page::Desktop, Page::Overview];
    for p in order {
        app.handle_key(Key::Tab);
        assert_eq!(app.view, p);
        assert_eq!(app.list_index, 0);
    }
}

#[test]
fn digits_and_escape_pick_pages() {
    let mut app = fresh();
    app.list_index = 2;
    app.handle_key(Key::Char('2'));
    assert_eq!(app.view, Page::Packages);
    // the cursor is kept within the rows of the page it was on
    assert_eq!(app.list_index, 2);
    app.handle_key(Key::Char('5'));
    assert_eq!(app.view, Page::Desktop);
    assert_eq!(app.list_index, 1);
    app.handle_key(Key::Esc);
    assert_eq!(app.view, Page::Overview);
    app.handle_key(Key::Char('3'));
    assert_eq!(app.view, Page::Privacy);
    app.handle_key(Key::Char('4'));
    assert_eq!(app.view, Page::Performance);
    app.handle_key(Key::Char('1'));
    assert_eq!(app.view, Page::Overview);
}

#[test]
fn quit_only_from_the_overview() {
    let mut app = fresh();
    app.handle_key(Key::Char('2'));
    assert!(matches!(app.handle_key(Key::Char('q')), Command::Stay));
    assert_eq!(app.view, Page::Packages);
    app.handle_key(Key::Esc);
    assert!(matches!(app.handle_key(Key::Char('q')), Command::Quit));
}

#[test]
fn toggling_selects_and_unselects() {
    let mut app = fresh();
    app.handle_key(Key::Char(' '));
    assert!(app.is_selected(Tweak::RemoveSnap));
    app.handle_key(Key::Enter);
    assert!(!app.is_selected(Tweak::RemoveSnap));
    app.list_index = 7;
    app.toggle_current();
    assert!(app.is_selected(Tweak::SwappinessTuned));
}

#[test]
fn applied_rows_cannot_be_selected() {
    let mut scan = ScanResult::default();
    scan.remove_snap = true;
    let mut app = App::new(info(false, true), scan);
    assert!(app.is_applied(Tweak::RemoveSnap));
    app.handle_key(Key::Enter);
    assert!(!app.is_selected(Tweak::RemoveSnap));
    assert_eq!(app.applied_count(), 1);
}

#[test]
fn apply_with_nothing_selected() {
    let mut app = fresh();
    assert!(matches!(app.handle_key(Key::Char('a')), Command::Stay));
    assert_eq!(app.log.last().unwrap(), "Nothing selected to apply.");
    assert_eq!(app.log_scroll, 0);
}

#[test]
fn apply_round_trip() {
    let mut app = fresh();
    app.handle_key(Key::Enter);
    app.handle_key(Key::Down);
    app.handle_key(Key::Down);
    app.handle_key(Key::Enter);
    let cmd = app.handle_key(Key::Char('a'));
    let expected = build_script(&[Tweak::RemoveSnap, Tweak::SwappinessTuned], &app.info);
    match cmd {
        Command::Apply(body) => assert_eq!(body, expected),
        other => panic!("unexpected {:?}", other),
    }
    assert_eq!(app.log.last().unwrap(), "Applying: remove_snap, swappiness_tuned");
    let rescan = app.finish_apply(Ok("one\r\ntwo\nthree\nfour\n".to_string()));
    assert!(rescan);
    let n = app.log.len();
    assert_eq!(
        app.log[n - 4..].to_vec(),
        vec![
            "Done. All selected optimizations applied.".to_string(),
            "  one".to_string(),
            "  two".to_string(),
            "  three".to_string(),
        ]
    );
    assert_eq!(app.log_scroll as usize, n - 1);
    assert!(!app.is_selected(Tweak::RemoveSnap));
    assert!(app.pending().is_empty());
    let mut scan = ScanResult::default();
    scan.remove_snap = true;
    scan.swappiness_tuned = true;
    scan.ssd_trim = true;
    app.scan_now(scan);
    assert_eq!(app.log.last().unwrap(), "Scan complete. 3 tweaks already applied.");
    assert_eq!(app.log_scroll as usize, app.log.len() - 1);
}

#[test]
fn apply_only_takes_the_current_page() {
    let mut app = fresh();
    app.handle_key(Key::Enter);
    app.handle_key(Key::Char('2'));
    app.handle_key(Key::Enter);
    assert_eq!(app.pending(), vec![Tweak::InstallFlatpak]);
    match app.apply_selected() {
        Some(body) => assert!(!body.contains("snapd")),
        None => panic!("expected a script"),
    }
}

#[test]
fn failed_apply_keeps_selection() {
    let mut app = fresh();
    app.handle_key(Key::Enter);
    app.handle_key(Key::Char('a'));
    let rescan = app.finish_apply(Err("Failed (exit Some(1)):\n\n".to_string()));
    assert!(!rescan);
    assert_eq!(app.log.last().unwrap(), "ERROR: Failed (exit Some(1)):\n\n");
    assert!(app.is_selected(Tweak::RemoveSnap));
}

#[test]
fn restore_round_trip() {
    let mut app = fresh();
    match app.handle_key(Key::Char('r')) {
        Command::Restore(body) => assert_eq!(body, restore_script()),
        other => panic!("unexpected {:?}", other),
    }
    assert_eq!(app.log.last().unwrap(), "Restoring default system settings...");
    assert!(app.finish_restore(Ok(">>> Restoring\n>>> Defaults restored.".to_string())));
    let n = app.log.len();
    assert_eq!(app.log[n - 3], "Defaults restored.");
    assert_eq!(app.log[n - 1], "  >>> Defaults restored.");
    assert!(!app.finish_restore(Err("Failed to launch: x".to_string())));
    assert_eq!(app.log.last().unwrap(), "ERROR: Failed to launch: x");
}

#[test]
fn scan_key_asks_for_a_scan() {
    let mut app = fresh();
    assert!(matches!(app.handle_key(Key::Char('s')), Command::Scan));
    assert!(matches!(app.handle_key(Key::Other), Command::Stay));
    assert!(matches!(app.handle_key(Key::Char('x')), Command::Stay));
}

#[test]
fn log_scroll_wraps_like_a_cast() {
    let mut app = fresh();
    for _ in 0..70000 {
        app.log.push(String::new());
    }
    app.push_log("last".to_string());
    assert_eq!(app.log_scroll, ((app.log.len() - 1) % 65536) as u16);
}

#[test]
fn screen_texts() {
    assert_eq!(desktop_label(&info(true, true)), "KDE Plasma");
    assert_eq!(desktop_label(&info(true, false)), "GNOME");
    assert_eq!(desktop_label(&info(false, false)), "Desktop not detected");
    assert_eq!(health_badge(3), " health 3/12 ");
    assert_eq!(badge("Ubuntu"), " Ubuntu ");
    assert_eq!(log_kind("ERROR: x"), LogKind::Error);
    assert_eq!(log_kind("  detail"), LogKind::Detail);
    assert_eq!(log_kind("Scan complete."), LogKind::Info);
    assert_eq!(log_kind(" one space"), LogKind::Info);
}

#[test]
fn table_rows() {
    let mut scan = ScanResult::default();
    scan.telemetry_off = true;
    let mut app = App::new(info(false, true), scan);
    app.handle_key(Key::Enter);
    app.list_index = 2;
    let rows = app.row_views();
    assert_eq!(rows.len(), 3);
    assert_eq!(rows[0].state, RowState::Selected);
    assert_eq!(rows[1].state, RowState::Applied);
    assert_eq!(rows[2].state, RowState::Pending);
    assert_eq!(rows[0].label, "Remove Snap");
    assert!(rows[2].highlighted && !rows[0].highlighted);
    assert_eq!(RowState::Applied.marker(), "[✓]");
    assert_eq!(RowState::Selected.status(), " ▣ Selected ");
    assert_eq!(RowState::Pending.marker(), "[ ]");
}

#[test]
fn applied_selections_are_skipped() {
    let mut app = fresh();
    app.handle_key(Key::Enter);
    app.handle_key(Key::Down);
    app.handle_key(Key::Enter);
    let mut scan = ScanResult::default();
    scan.remove_snap = true;
    app.scan_now(scan);
    assert!(app.is_selected(Tweak::RemoveSnap));
    assert_eq!(app.pending(), vec![Tweak::TelemetryOff]);
    match app.handle_key(Key::Char('a')) {
        Command::Apply(body) => {
            assert_eq!(body, build_script(&[Tweak::TelemetryOff], &app.info))
        }
        other => panic!("unexpected {:?}", other),
    }
    assert_eq!(app.log.last().unwrap(), "Applying: telemetry_off");
}

#[test]
fn only_applied_selections_leave_nothing_to_apply() {
    let mut app = fresh();
    app.handle_key(Key::Enter);
    let mut scan = ScanResult::default();
    scan.remove_snap = true;
    app.scan_now(scan);
    assert!(matches!(app.handle_key(Key::Char('a')), Command::Stay));
    assert_eq!(app.log.last().unwrap(), "Nothing selected to apply.");
}

#[test]
fn quit_keys() {
    assert!(is_quit_key(Key::Char('q'), false));
    assert!(is_quit_key(Key::Char('q'), true));
    assert!(is_quit_key(Key::Char('c'), true));
    assert!(!is_quit_key(Key::Char('c'), false));
    assert!(!is_quit_key(Key::Esc, true));
    assert!(!is_quit_key(Key::Char('a'), false));
}
