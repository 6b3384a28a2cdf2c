use synctui::{
    str_eq, str_le, AddedPendingDevice, AddedPendingFolder, Compression, CurrentScreen,
    DeviceStatus, FolderConfiguration, FolderDevice, FolderFocus, NewDeviceConfiguration,
    NewFolderConfiguration, PendingDevice, PendingFolderOfferer, TextBox,
};

#[test]
fn folder_and_device_constructors_fill_their_fields() {
    let fd = FolderDevice::new("devA");
    assert_eq!(fd.device_id, "devA");
    assert_eq!(fd.introduced_by, "");
    assert_eq!(fd.encryption_password, "");

    let folder = FolderConfiguration::new(
        "f1".to_string(),
        "One".to_string(),
        "/one".to_string(),
        vec![fd],
    );
    assert_eq!(folder.id, "f1");
    assert_eq!(folder.label, "One");
    assert_eq!(folder.path, "/one");
    assert_eq!(folder.devices.len(), 1);
    assert!(folder.xattr_filter.entries.is_empty());
    assert_eq!(folder.xattr_filter.max_single_entry_size, 1024);
    assert_eq!(folder.xattr_filter.max_total_size, 4096);
}

#[test]
fn submission_builders_accumulate_their_steps() {
    let device = NewDeviceConfiguration::new("devX".to_string()).name("Phone".to_string());
    assert_eq!(device.get_device_id(), "devX");
    assert_eq!(device.get_name().as_deref(), Some("Phone"));

    let folder = NewFolderConfiguration::new("f1".to_string(), "/data".to_string())
        .label("Data".to_string())
        .devices(vec![FolderDevice::new("devX")]);
    assert_eq!(folder.get_id(), "f1");
    assert_eq!(folder.get_label().as_deref(), Some("Data"));
    assert_eq!(folder.get_devices().len(), 1);
}

#[test]
fn accepted_pending_device_becomes_a_dynamic_device() {
    let pending = PendingDevice { name: "Phone".to_string(), address: "10.0.0.9:22000".to_string() };
    let added = AddedPendingDevice::from_pending_device("devX", &pending);
    assert_eq!(added.device_id, "devX");
    assert_eq!(added.name, "Phone");
    assert_eq!(added.address, "10.0.0.9:22000");

    let device = added.into_device();
    assert_eq!(device.device_id, "devX");
    assert_eq!(device.name, "Phone");
    assert_eq!(device.addresses, vec!["dynamic".to_string()]);
    assert_eq!(device.compression, Compression::Metadata);
}

#[test]
fn offered_folder_becomes_a_pending_entry() {
    let offer = PendingFolderOfferer {
        label: "Photos".to_string(),
        receive_encrypted: true,
        remote_encrypted: false,
    };
    let added = AddedPendingFolder::from_pending_folder_offerer("ph1", &offer, "devX");
    assert_eq!(added.folder_id, "ph1");
    assert_eq!(added.device_id, "devX");
    assert_eq!(added.folder_label, "Photos");
    assert!(added.receive_encrypted);
    assert!(!added.remote_encrypted);
}

#[test]
fn string_order_is_lexicographic_by_code_point() {
    assert!(str_le("", "anything"));
    assert!(str_le("abc", "abd"));
    assert!(!str_le("abd", "abc"));
    assert!(str_le("ab", "abc"));
    assert!(!str_le("abc", "ab"));
    assert!(str_le("abc", "abc"));

    assert!(str_eq("", ""));
    assert!(str_eq("düsseldorf", "düsseldorf"));
    assert!(!str_eq("a", "ab"));
    assert!(!str_eq("ax", "ay"));
}

#[test]
fn number_keys_map_to_pages_and_tabs() {
    assert_eq!(CurrentScreen::try_from(1), Ok(CurrentScreen::Folders));
    assert_eq!(CurrentScreen::try_from(2), Ok(CurrentScreen::Devices));
    assert_eq!(CurrentScreen::try_from(3), Ok(CurrentScreen::Pending));
    assert_eq!(CurrentScreen::try_from(4), Ok(CurrentScreen::ID));
    assert_eq!(CurrentScreen::try_from(0), Err(()));
    assert_eq!(CurrentScreen::try_from(5), Err(()));

    assert_eq!(FolderFocus::try_from(1), Ok(FolderFocus::General));
    assert_eq!(FolderFocus::try_from(2), Ok(FolderFocus::Sharing));
    assert_eq!(FolderFocus::try_from(3), Err(()));
}

#[test]
fn cursor_clamps_to_the_text() {
    let tb = TextBox::from_text(vec!['a', 'b']);
    assert_eq!(tb.clamp_cursor(0), 0);
    assert_eq!(tb.clamp_cursor(2), 2);
    assert_eq!(tb.clamp_cursor(9), 2);

    let mut tb = TextBox::from_text(vec!['a']);
    tb.move_cursor_right();
    assert_eq!(tb.index, 1);
    tb.move_cursor_left();
    tb.move_cursor_left();
    assert_eq!(tb.index, 0);
    tb.delete_char();
    assert_eq!(tb.text, vec!['a']);
}

#[test]
fn device_status_distinguishes_syncing_progress() {
    assert_ne!(DeviceStatus::Syncing(10), DeviceStatus::Syncing(20));
    assert_ne!(DeviceStatus::UpToDate, DeviceStatus::Disconnected);
}
