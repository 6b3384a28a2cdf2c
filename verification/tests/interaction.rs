use synctui::{
    handler, App, AppError, Command, CurrentMode, CurrentScreen, Device, DeviceConfiguration,
    DeviceStatus, Folder, FolderConfiguration, FolderDevice, GatewayCall, InnerState, Key,
    Message, NewDeviceConfiguration, PendingDevicePopup, PendingFocus, PendingPageState,
    PopupKind, Reload, TextBox, XattrFilter,
};

fn store_with_folder() -> InnerState {
    let mut store = InnerState::default();
    store.folders.push(Folder {
        config: FolderConfiguration {
            id: "f1".to_string(),
            label: "One".to_string(),
            path: "/one".to_string(),
            devices: vec![FolderDevice::new("devA")],
            xattr_filter: XattrFilter::default(),
        },
        completion: 100,
    });
    store
}

#[test]
fn key_mapping_follows_the_mode() {
    assert_eq!(handler(Key::Char('q'), false, &CurrentMode::Normal), Message::Quit);
    assert_eq!(handler(Key::Char('j'), false, &CurrentMode::Normal), Message::Down);
    assert_eq!(handler(Key::Char('3'), false, &CurrentMode::Normal), Message::Number(3));
    assert_eq!(handler(Key::Enter, false, &CurrentMode::Normal), Message::Select);
    assert_eq!(handler(Key::Enter, true, &CurrentMode::Normal), Message::Submit);
    assert_eq!(handler(Key::Char('x'), false, &CurrentMode::Normal), Message::Noop);

    assert_eq!(handler(Key::Char('q'), false, &CurrentMode::Insert), Message::Character('q'));
    assert_eq!(handler(Key::Char('+'), false, &CurrentMode::Insert), Message::Add);
    assert_eq!(handler(Key::Esc, false, &CurrentMode::Insert), Message::Normal);
    assert_eq!(handler(Key::Backspace, false, &CurrentMode::Insert), Message::Backspace);
}

#[test]
fn text_box_edits_by_characters() {
    let mut tb = TextBox::default();
    tb.enter_char('a');
    tb.enter_char('b');
    tb.enter_char('c');
    assert_eq!(tb.text, vec!['a', 'b', 'c']);
    assert_eq!(tb.index, 3);

    tb.move_cursor_left();
    tb.delete_char();
    assert_eq!(tb.text, vec!['a', 'c']);
    assert_eq!(tb.index, 1);

    tb.enter_char('x');
    assert_eq!(tb.text, vec!['a', 'x', 'c']);

    // The byte index counts UTF-8 lengths, not characters.
    let mut wide = TextBox::from_text(vec!['ä', 'b']);
    assert_eq!(wide.index, 2);
    assert_eq!(wide.byte_index(), 3);
    wide.move_cursor_left();
    assert_eq!(wide.byte_index(), 2);
}

#[test]
fn pending_page_navigation_wraps() {
    let mut s = PendingPageState::default();
    assert!(s.devices_focused);
    s.update(&Message::Down, 2, 1);
    assert_eq!(s.device_selected(), Some(0));
    s.update(&Message::Down, 2, 1);
    assert_eq!(s.device_selected(), Some(1));
    s.update(&Message::Down, 2, 1);
    assert_eq!(s.device_selected(), Some(0));

    // Horizontal keys switch to the folder list.
    s.update(&Message::Right, 2, 1);
    assert_eq!(s.device_selected(), None);
    s.update(&Message::Up, 2, 1);
    assert_eq!(s.folder_selected(), Some(0));

    // An empty side forces the focus to the other.
    s.update(&Message::Right, 2, 0);
    assert!(s.devices_focused);
    // With nothing pending at all, nothing is highlighted.
    s.update(&Message::Down, 0, 0);
    assert_eq!(s.device_selected(), None);
    assert_eq!(s.folder_selected(), None);
}

#[test]
fn quit_closes_the_popup_before_the_app() {
    let store = InnerState::default();
    let mut app = App::new();
    app.popup = Some(PopupKind::PendingDevice(PendingDevicePopup::new("devX".to_string())));
    let (r, cmds) = app.update(Message::Quit, &store);
    assert!(r.is_none());
    assert!(cmds.is_empty());
    assert!(app.popup.is_none());
    assert!(app.running);

    let (_, _) = app.update(Message::Quit, &store);
    assert!(!app.running);
}

#[test]
fn number_keys_switch_pages() {
    let store = InnerState::default();
    let mut app = App::new();
    let (_, _) = app.update(Message::Number(3), &store);
    assert_eq!(app.current_screen, CurrentScreen::Pending);
    let (_, _) = app.update(Message::Number(4), &store);
    assert_eq!(app.current_screen, CurrentScreen::ID);
    let (_, _) = app.update(Message::Number(9), &store);
    assert_eq!(app.current_screen, CurrentScreen::ID);
}

#[test]
fn reload_key_asks_for_a_configuration_reload() {
    let store = InnerState::default();
    let mut app = App::new();
    let (r, cmds) = app.update(Message::Reload, &store);
    assert!(r.is_none());
    assert_eq!(cmds.len(), 1);
    assert!(matches!(cmds[0], Command::Reload(Reload::Configuration)));
}

#[test]
fn accept_device_message_routes_through_the_dispatcher() {
    let mut store = InnerState::default();
    store.pending_devices.push(
        NewDeviceConfiguration::new("devX".to_string()).name("Phone".to_string()),
    );
    let mut app = App::new();
    app.popup = Some(PopupKind::PendingDevice(PendingDevicePopup::new("devX".to_string())));
    let (r, cmds) = app.update(Message::AcceptDevice("devX".to_string()), &store);
    assert!(r.is_none());
    assert!(app.popup.is_none());
    assert_eq!(cmds.len(), 1);
    assert!(matches!(
        &cmds[0],
        Command::Gateway(GatewayCall::AddDevice(d)) if d.get_device_id() == "devX"
    ));

    // Accepting a device that is not pending records the error instead.
    let (_, cmds) = app.update(Message::AcceptDevice("ghost".to_string()), &store);
    assert_eq!(cmds.len(), 1);
    assert!(matches!(cmds[0], Command::SetError(AppError::UnknownDevice)));
}

#[test]
fn new_folder_message_checks_for_duplicates() {
    let store = store_with_folder();
    let mut app = App::new();
    let duplicate = synctui::NewFolderConfiguration::new("f1".to_string(), "/two".to_string());
    let (_, cmds) = app.update(Message::NewFolder(Box::new(duplicate)), &store);
    assert_eq!(cmds.len(), 1);
    assert!(matches!(cmds[0], Command::SetError(AppError::DuplicateFolderID)));

    let fresh = synctui::NewFolderConfiguration::new("f2".to_string(), "/two".to_string());
    let (_, cmds) = app.update(Message::NewFolder(Box::new(fresh)), &store);
    assert!(matches!(
        &cmds[0],
        Command::Gateway(GatewayCall::AddFolder(f)) if f.get_id() == "f2"
    ));
}

#[test]
fn share_and_dismiss_messages_build_their_calls() {
    let store = store_with_folder();
    let mut app = App::new();
    let (_, cmds) = app.update(
        Message::ShareFolder { folder_id: "f1".to_string(), device_id: "devB".to_string() },
        &store,
    );
    assert!(matches!(
        &cmds[0],
        Command::Gateway(GatewayCall::PostFolder(f))
            if f.devices.len() == 2 && f.devices[1].device_id == "devB"
    ));

    let (_, cmds) = app.update(
        Message::DismissFolder { folder_id: "f1".to_string(), device_id: "devB".to_string() },
        &store,
    );
    assert!(matches!(&cmds[0], Command::Gateway(GatewayCall::DismissPendingFolder { .. })));

    let (_, cmds) = app.update(Message::DismissDevice("devB".to_string()), &store);
    assert!(matches!(
        &cmds[0],
        Command::Gateway(GatewayCall::DismissPendingDevice(d)) if d == "devB"
    ));
}

#[test]
fn folders_page_select_opens_the_folder_popup() {
    let store = store_with_folder();
    let mut app = App::new();
    let (_, _) = app.update(Message::Down, &store);
    assert_eq!(app.selected_folder, Some(0));
    let (_, _) = app.update(Message::Select, &store);
    match &app.popup {
        Some(PopupKind::Folder(p)) => {
            assert_eq!(p.folder.id, "f1");
            assert_eq!(p.id.text, vec!['f', '1']);
            assert_eq!(p.devices, vec!["devA".to_string()]);
        }
        other => panic!("expected the folder popup, got {:?}", other),
    }
}

#[test]
fn new_pending_device_message_opens_its_popup() {
    let store = InnerState::default();
    let mut app = App::new();
    let (_, _) = app.update(Message::NewPendingDevice("devX".to_string()), &store);
    match &app.popup {
        Some(PopupKind::PendingDevice(p)) => {
            assert_eq!(p.device_id, "devX");
            assert_eq!(p.focus, PendingFocus::Accept);
        }
        other => panic!("expected the pending-device popup, got {:?}", other),
    }

    // Walking the buttons and selecting answers with that button.
    let (r, _) = app.update(Message::Right, &store);
    assert!(r.is_none());
    let (r, _) = app.update(Message::Right, &store);
    assert!(r.is_none());
    let (r, _) = app.update(Message::Select, &store);
    assert_eq!(r, Some(Message::DismissDevice("devX".to_string())));
}

#[test]
fn offered_folder_message_prefills_the_new_folder_form() {
    let store = InnerState::default();
    let mut app = App::new();
    let (_, _) = app.update(
        Message::NewPendingFolder {
            folder_label: "Photos".to_string(),
            folder_id: "ph1".to_string(),
            device_id: "devX".to_string(),
        },
        &store,
    );
    match &app.popup {
        Some(PopupKind::NewFolder(p)) => {
            assert_eq!(p.id_input.text, vec!['p', 'h', '1']);
            assert_eq!(p.label_input.text, "Photos".chars().collect::<Vec<_>>());
            assert!(p.path_input.text.is_empty());
            assert_eq!(p.selected_devices, vec!["devX".to_string()]);
        }
        other => panic!("expected the new-folder form, got {:?}", other),
    }

    // For an already configured folder the share popup opens instead.
    let store = store_with_folder();
    let mut app = App::new();
    let (_, _) = app.update(
        Message::NewPendingFolder {
            folder_label: "One".to_string(),
            folder_id: "f1".to_string(),
            device_id: "devX".to_string(),
        },
        &store,
    );
    match &app.popup {
        Some(PopupKind::PendingShareFolder(p)) => {
            assert_eq!(p.folder_id, "f1");
            assert_eq!(p.device_id, "devX");
        }
        other => panic!("expected the share popup, got {:?}", other),
    }
}

#[test]
fn typed_new_folder_form_submits_its_contents() {
    let mut store = InnerState::default();
    store.devices.push(Device {
        config: DeviceConfiguration {
            device_id: "devA".to_string(),
            name: "Ada".to_string(),
            addresses: vec![],
            compression: synctui::Compression::Metadata,
        },
        connected: DeviceStatus::Disconnected,
    });
    let mut app = App::new();
    let (_, _) = app.update(Message::Add, &store);
    assert!(matches!(app.popup, Some(PopupKind::NewFolder(_))));

    // Type a path, then submit the form.
    for c in ['/', 't', 'm', 'p'] {
        let (_, _) = app.update(Message::Character(c), &store);
    }
    let (_, _) = app.update(Message::FocusNext, &store);
    for c in ['M', 'u', 's', 'i', 'c'] {
        let (_, _) = app.update(Message::Character(c), &store);
    }
    let (r, _) = app.update(Message::Submit, &store);
    match r {
        Some(Message::NewFolder(f)) => {
            assert_eq!(f.get_id(), "");
            assert_eq!(f.get_label().as_deref(), Some("Music"));
            assert_eq!(f.get_devices().len(), 0);
        }
        other => panic!("expected a new-folder answer, got {:?}", other),
    }
    assert_eq!(app.mode, CurrentMode::Normal);
}

#[test]
fn devices_page_walks_other_devices() {
    let mut store = InnerState::default();
    store.id = "host".to_string();
    for (id, name) in [("host", "Me"), ("a", "Ada"), ("b", "Bo")] {
        store.devices.push(Device {
            config: DeviceConfiguration {
                device_id: id.to_string(),
                name: name.to_string(),
                addresses: vec![],
                compression: synctui::Compression::Metadata,
            },
            connected: DeviceStatus::Disconnected,
        });
    }
    let mut app = App::new();
    let (_, _) = app.update(Message::Number(2), &store);
    assert_eq!(app.current_screen, CurrentScreen::Devices);
    let (_, _) = app.update(Message::Down, &store);
    assert_eq!(app.selected_device, Some(0));
    let (_, _) = app.update(Message::Down, &store);
    assert_eq!(app.selected_device, Some(1));
    let (_, _) = app.update(Message::Down, &store);
    assert_eq!(app.selected_device, Some(0));
    let (_, _) = app.update(Message::Up, &store);
    assert_eq!(app.selected_device, Some(1));
}
