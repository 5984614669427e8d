use tray_icon::{
    ClickType, Error, IdCounter, Interceptor, LogicalRect, Message, MessageKind, NotifyCommand,
    NotifyData, Reaction, TrayIcon, TrayIconEvent, TrayIconId, TrayState, TOOLTIP_CAPACITY,
    decode, encode_wide, rect_to_physical, scale_to_physical, size_to_physical, tooltip_field,
};

fn state(popup: Option<isize>) -> TrayState {
    TrayState {
        internal_id: 7,
        id: TrayIconId::new("tray"),
        window: 42,
        popup_menu: popup,
        icon: Some(100),
        tooltip: Some("hello".to_string()),
        visible: true,
    }
}

fn field(text: &str) -> Vec<u16> {
    let mut v: Vec<u16> = text.encode_utf16().collect();
    v.push(0);
    v.resize(128, 0);
    v
}

#[test]
fn scaling_rounds_halves_away_from_zero() {
    assert_eq!(scale_to_physical(10, 96), 10);
    assert_eq!(scale_to_physical(10, 120), 13);
    assert_eq!(scale_to_physical(-10, 120), -13);
    assert_eq!(scale_to_physical(3, 144), 5);
    assert_eq!(scale_to_physical(7, 192), 14);
    assert_eq!(scale_to_physical(i32::MIN, u32::MAX), -96076792028200960);
}

#[test]
fn negative_length_becomes_zero() {
    assert_eq!(size_to_physical(-5, 144), 0);
    assert_eq!(size_to_physical(i32::MAX, u32::MAX), u32::MAX);
}

#[test]
fn rect_is_scaled_by_dpi() {
    let r = rect_to_physical(LogicalRect { left: 10, top: 20, right: 26, bottom: 36 }, 144);
    assert_eq!((r.position.x, r.position.y), (15, 30));
    assert_eq!((r.size.width, r.size.height), (24, 24));
    let degenerate = rect_to_physical(LogicalRect { left: 30, top: 0, right: 10, bottom: 5 }, 96);
    assert_eq!(degenerate.size.width, 0);
    assert_eq!(degenerate.size.height, 5);
}

#[test]
fn wide_encoding_ends_with_zero() {
    assert_eq!(encode_wide("ab"), vec![97, 98, 0]);
    assert_eq!(encode_wide("\u{1F600}"), vec![0xD83D, 0xDE00, 0]);
    assert_eq!(encode_wide(""), vec![0]);
}

#[test]
fn tooltip_field_pads_and_truncates() {
    assert_eq!(tooltip_field(None), vec![0u16; 128]);
    assert_eq!(tooltip_field(Some("hi")), field("hi"));
    let long = "a".repeat(200);
    let f = tooltip_field(Some(&long));
    assert_eq!(f.len(), TOOLTIP_CAPACITY);
    assert!(f.iter().all(|u| *u == 97));
}

#[test]
fn long_tooltip_is_accepted() {
    let tray = TrayIcon { window: 42, internal_id: 7 };
    let long = "x".repeat(300);
    let (data, update) = tray.set_tooltip(Some(&long));
    assert_eq!(data.command, NotifyCommand::Modify);
    assert!(data.flags.tip && !data.flags.icon);
    assert_eq!(data.tip.len(), 128);
    assert!(data.tip.iter().all(|u| *u == 120));
    match TrayIcon::after_change(true, update, 0) {
        Ok(Message::UpdateTooltip(Some(t))) => assert_eq!(t, long),
        _ => panic!("tooltip update expected"),
    }
}

#[test]
fn failed_change_is_an_os_error() {
    let tray = TrayIcon { window: 42, internal_id: 7 };
    let (data, update) = tray.set_icon(Some(9));
    assert_eq!(data.icon, 9);
    assert!(data.flags.icon && !data.flags.tip && !data.flags.message);
    assert!(matches!(TrayIcon::after_change(false, update, 5), Err(Error::OsError(5))));
}

#[test]
fn registration_sets_flags_of_present_fields() {
    let d = NotifyData::registration(42, 7, None, Some("tip"));
    assert_eq!(d.command, NotifyCommand::Add);
    assert!(d.flags.message && d.flags.tip && !d.flags.icon);
    assert_eq!(d.callback_message, 6002);
    assert_eq!(d.icon, 0);
    assert_eq!(d.tip, field("tip"));
    let e = NotifyData::registration(42, 7, Some(3), None);
    assert!(e.flags.icon && !e.flags.tip);
    assert_eq!(e.icon, 3);
    let r = NotifyData::removal(42, 7);
    assert_eq!(r.command, NotifyCommand::Delete);
    assert_eq!((r.window, r.id), (42, 7));
}

#[test]
fn messages_are_classified() {
    assert_eq!(decode(2, 0, 49000), MessageKind::Destroy);
    assert_eq!(decode(6002, 0x0205, 49000), MessageKind::Click(ClickType::Right));
    assert_eq!(decode(6002, 0x0202, 49000), MessageKind::Click(ClickType::Left));
    assert_eq!(decode(6002, 0x0203, 49000), MessageKind::Click(ClickType::Double));
    assert_eq!(decode(6002, 0x0200, 49000), MessageKind::Other);
    assert_eq!(decode(49000, 0, 49000), MessageKind::TaskbarCreated);
    assert_eq!(decode(6005, 0, 49000), MessageKind::Show);
    assert_eq!(decode(6006, 0, 49000), MessageKind::Hide);
    assert_eq!(decode(6004, 0, 49000), MessageKind::UpdateIcon);
    assert_eq!(decode(15, 0, 49000), MessageKind::Other);
}

#[test]
fn right_click_with_menu_shows_it_once() {
    let mut i = Interceptor::new(state(Some(55)));
    match i.handle(Message::Click(ClickType::Right)) {
        Reaction::Click(report) => {
            assert_eq!(report.popup_menu, Some(55));
            assert_eq!(report.click_type, ClickType::Right);
            assert_eq!(report.id.0, "tray");
        }
        _ => panic!("click expected"),
    }
    match i.handle(Message::Click(ClickType::Left)) {
        Reaction::Click(report) => assert_eq!(report.popup_menu, None),
        _ => panic!("click expected"),
    }
}

#[test]
fn right_click_without_menu_shows_nothing() {
    let mut i = Interceptor::new(state(None));
    match i.handle(Message::Click(ClickType::Right)) {
        Reaction::Click(report) => assert_eq!(report.popup_menu, None),
        _ => panic!("click expected"),
    }
}

#[test]
fn updates_apply_in_send_order() {
    let mut i = Interceptor::new(state(None));
    let rs = i.process(vec![
        Message::UpdateIcon(Some(1)),
        Message::UpdateTooltip(Some("a".to_string())),
        Message::Hide,
        Message::UpdateIcon(Some(2)),
        Message::UpdateMenu(Some(8)),
    ]);
    assert_eq!(rs.len(), 5);
    let st = i.state.as_ref().unwrap();
    assert_eq!(st.icon, Some(2));
    assert_eq!(st.tooltip.as_deref(), Some("a"));
    assert_eq!(st.popup_menu, Some(8));
}

#[test]
fn show_after_hide_keeps_icon_and_tooltip() {
    let mut i = Interceptor::new(state(None));
    let rs = i.process(vec![Message::Hide, Message::Show]);
    assert!(matches!(&rs[0], Reaction::Remove(d) if d.command == NotifyCommand::Delete));
    match &rs[1] {
        Reaction::Register(d) => {
            assert_eq!(d.icon, 100);
            assert_eq!(d.tip, field("hello"));
            assert!(d.flags.icon && d.flags.tip && d.flags.message);
        }
        _ => panic!("registration expected"),
    }
    let tray = TrayIcon { window: 42, internal_id: 7 };
    assert!(tray.rect(None, 96).is_none());
    let back = tray.rect(Some(LogicalRect { left: 0, top: 0, right: 16, bottom: 16 }), 96);
    assert_eq!(back.unwrap().size.width, 16);
}

#[test]
fn destroy_reclaims_once() {
    let mut i = Interceptor::new(state(None));
    let rs = i.process(vec![Message::Destroy, Message::Destroy, Message::Show]);
    let n = rs.iter().filter(|r| matches!(r, Reaction::Reclaimed)).count();
    assert_eq!(n, 1);
    assert!(i.state.is_none());
    assert!(matches!(rs[2], Reaction::Forward));
}

#[test]
fn taskbar_restart_registers_last_known() {
    let mut i = Interceptor::new(state(None));
    let rs = i.process(vec![
        Message::UpdateTooltip(Some("new".to_string())),
        Message::UpdateIcon(None),
        Message::TaskbarCreated,
    ]);
    match &rs[2] {
        Reaction::Register(d) => {
            assert_eq!(d.icon, 0);
            assert!(!d.flags.icon);
            assert_eq!(d.tip, field("new"));
        }
        _ => panic!("registration expected"),
    }
}

#[test]
fn ids_are_never_reused() {
    let mut c = IdCounter::new();
    assert_eq!(c.next_id(), Some(0));
    assert_eq!(c.next_id(), Some(1));
    let mut full = IdCounter { next: u32::MAX };
    assert_eq!(full.next_id(), None);
    assert_eq!(full.next_id(), None);
}

#[test]
fn creation_fails_without_window_or_registration() {
    let mut counter = IdCounter::new();
    let r = TrayIcon::new(&mut counter, TrayIconId::new("t"), 0, None, None, None, 1400);
    assert!(matches!(r, Err(Error::OsError(1400))));
    assert_eq!(counter.next, 0);
    let c = TrayIcon::new(&mut counter, TrayIconId::new("t"), 42, Some(3), Some("tip".to_string()), None, 0)
        .ok()
        .unwrap();
    assert_eq!(c.registration.icon, 3);
    assert_eq!(c.tray.internal_id, 0);
    assert!(matches!(c.finish(false, 5), Err(Error::OsError(5))));
    let c = TrayIcon::new(&mut counter, TrayIconId::new("t"), 42, None, None, Some(4), 0).ok().unwrap();
    let (tray, i) = c.finish(true, 0).ok().unwrap();
    assert_eq!(tray, TrayIcon { window: 42, internal_id: 1 });
    let st = i.state.unwrap();
    assert_eq!(st.popup_menu, Some(4));
    assert!(st.visible);
}

#[test]
fn creation_without_free_id_fails() {
    let mut counter = IdCounter { next: u32::MAX };
    let r = TrayIcon::new(&mut counter, TrayIconId::new("t"), 42, None, None, None, 0);
    assert!(matches!(r, Err(Error::NoFreeId)));
    assert_eq!(counter.next, u32::MAX);
}

#[test]
fn refused_add_becomes_a_replacement() {
    let d = NotifyData::registration(42, 7, Some(3), Some("tip"));
    let again = NotifyData::registration(42, 7, Some(3), Some("tip"));
    assert!(d.after_add(true).is_none());
    let m = again.after_add(false).unwrap();
    assert_eq!(m.command, NotifyCommand::Modify);
    assert_eq!((m.window, m.id, m.icon, m.callback_message), (42, 7, 3, 6002));
    assert!(m.flags.message && m.flags.icon && m.flags.tip);
    assert_eq!(m.tip, field("tip"));
}

#[test]
fn hidden_icon_stays_hidden_after_taskbar_restart() {
    let mut i = Interceptor::new(state(None));
    let rs = i.process(vec![
        Message::Hide,
        Message::TaskbarCreated,
        Message::Hide,
        Message::Show,
        Message::Show,
        Message::TaskbarCreated,
    ]);
    assert!(matches!(rs[0], Reaction::Remove(_)));
    assert!(matches!(rs[1], Reaction::Forward));
    assert!(matches!(rs[2], Reaction::Forward));
    assert!(matches!(rs[3], Reaction::Register(_)));
    assert!(matches!(rs[4], Reaction::Forward));
    assert!(matches!(rs[5], Reaction::Register(_)));
    assert!(i.state.unwrap().visible);
}

#[test]
fn visibility_and_menu_requests() {
    let mut tray = TrayIcon { window: 42, internal_id: 7 };
    assert!(matches!(tray.set_visible(true), Message::Show));
    assert!(matches!(tray.set_visible(false), Message::Hide));
    assert!(matches!(tray.set_menu(Some(3)), Message::UpdateMenu(Some(3))));
    tray.set_title(Some("ignored"));
    assert_eq!(tray, TrayIcon { window: 42, internal_id: 7 });
    let d = tray.removal();
    assert_eq!(d.command, NotifyCommand::Delete);
}

#[test]
fn event_positions_are_physical() {
    let mut i = Interceptor::new(state(None));
    let report = match i.handle(Message::Click(ClickType::Double)) {
        Reaction::Click(r) => r,
        _ => panic!("click expected"),
    };
    let e = TrayIconEvent::from_click(
        &report,
        100,
        -3,
        LogicalRect { left: 8, top: 8, right: 24, bottom: 24 },
        120,
    );
    assert_eq!(e.id.0, "tray");
    assert_eq!((e.position.x, e.position.y), (125, -4));
    assert_eq!((e.icon_rect.position.x, e.icon_rect.size.width), (10, 20));
    assert_eq!(e.click_type, ClickType::Double);
}
