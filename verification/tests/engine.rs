use synctui::{
    accept_device, add_folder, after_mutation_success, apply_reload, dismiss_device,
    dismiss_folder, edit_folder, handle_event, process_event_batch, remove_folder, share_folder,
    AppError, Completion,
    Configuration, Connection, Connections, Device, DeviceConfiguration, DeviceStatus, Event,
    EventType, FetchResult, Folder, FolderConfiguration, FolderDevice, GatewayCall, InnerState,
    NewDeviceConfiguration, Notice, PendingDevice, PendingDevices, PendingFolder,
    PendingFolderOfferer, PendingFolders, Reload, XattrFilter,
};

fn device_config(id: &str, name: &str) -> DeviceConfiguration {
    DeviceConfiguration {
        device_id: id.to_string(),
        name: name.to_string(),
        addresses: vec!["dynamic".to_string()],
        compression: synctui::Compression::Metadata,
    }
}

fn folder_config(id: &str, label: &str, path: &str, devices: Vec<FolderDevice>) -> FolderConfiguration {
    FolderConfiguration {
        id: id.to_string(),
        label: label.to_string(),
        path: path.to_string(),
        devices,
        xattr_filter: XattrFilter::default(),
    }
}

fn configuration(folders: Vec<FolderConfiguration>, devices: Vec<DeviceConfiguration>) -> Configuration {
    Configuration { version: 1, folders, devices }
}

#[test]
fn configuration_snapshot_is_authoritative() {
    // A configuration merge replaces folders and devices wholesale, and
    // later non-configuration jobs never change the ID sets.
    let mut state = InnerState::default();
    state.folders.push(Folder {
        config: folder_config("stale", "Stale", "/old", vec![]),
        completion: 40,
    });
    let cfg = configuration(
        vec![folder_config("f1", "Fresh", "/data", vec![])],
        vec![device_config("dev1", "Laptop")],
    );
    let follow = apply_reload(&mut state, Reload::Configuration, FetchResult::Configuration(cfg));
    // The fresh configuration schedules a connections reload plus one
    // completion reload per folder.
    assert_eq!(follow.len(), 2);
    assert!(matches!(follow[0], Reload::Connections));
    assert!(matches!(
        &follow[1],
        Reload::Completion { folder_id: Some(f), device_id: None } if f == "f1"
    ));

    // Later jobs touch derived fields only.
    let _ = apply_reload(
        &mut state,
        Reload::Connections,
        FetchResult::Connections(Connections {
            connections: vec![("dev1".to_string(), Connection { connected: true })],
        }),
    );
    let _ = apply_reload(
        &mut state,
        Reload::Completion { folder_id: Some("f1".to_string()), device_id: None },
        FetchResult::Completion(Completion { completion: 55 }),
    );
    assert_eq!(state.folders.len(), 1);
    assert_eq!(state.folders[0].config.id, "f1");
    assert_eq!(state.folders[0].completion, 55);
    assert_eq!(state.devices.len(), 1);
    assert_eq!(state.devices[0].config.device_id, "dev1");
    assert_eq!(state.devices[0].connected, DeviceStatus::UpToDate);
}

#[test]
fn configuration_preserves_derived_fields_by_id() {
    let mut state = InnerState::default();
    let cfg1 = configuration(
        vec![folder_config("f1", "One", "/one", vec![])],
        vec![device_config("dev1", "Laptop")],
    );
    let _ = apply_reload(&mut state, Reload::Configuration, FetchResult::Configuration(cfg1));
    state.set_device_status("dev1", DeviceStatus::Syncing(42));
    state.set_folder_completion("f1", 17);

    // A second snapshot listing the same IDs keeps the derived fields.
    let cfg2 = configuration(
        vec![folder_config("f1", "One", "/one", vec![]), folder_config("f2", "Two", "/two", vec![])],
        vec![device_config("dev1", "Laptop"), device_config("dev2", "Phone")],
    );
    let _ = apply_reload(&mut state, Reload::Configuration, FetchResult::Configuration(cfg2));
    assert_eq!(state.devices[0].connected, DeviceStatus::Syncing(42));
    assert_eq!(state.devices[1].connected, DeviceStatus::Disconnected);
    assert_eq!(state.folders[0].completion, 17);
    assert_eq!(state.folders[1].completion, 100);
}

#[test]
fn accepting_unknown_device_fails_without_gateway_call() {
    let state = InnerState::default();
    let r = accept_device(&state, "nobody");
    assert_eq!(r, Err(AppError::UnknownDevice));
}

#[test]
fn accepting_pending_device_submits_it() {
    let mut state = InnerState::default();
    state.pending_devices.push(
        NewDeviceConfiguration::new("devX".to_string()).name("Phone".to_string()),
    );
    let call = accept_device(&state, "devX").unwrap();
    match &call {
        GatewayCall::AddDevice(d) => {
            assert_eq!(d.get_device_id(), "devX");
            assert_eq!(d.get_name().as_deref(), Some("Phone"));
        }
        other => panic!("expected an add-device call, got {:?}", other),
    }
    assert!(matches!(after_mutation_success(&call), Some(Reload::Configuration)));
}

#[test]
fn adding_duplicate_folder_fails_before_any_call() {
    let mut state = InnerState::default();
    state.folders.push(Folder {
        config: folder_config("f1", "One", "/one", vec![]),
        completion: 100,
    });
    let folder = synctui::NewFolderConfiguration::new("f1".to_string(), "/elsewhere".to_string());
    assert_eq!(add_folder(&state, folder), Err(AppError::DuplicateFolderID));

    let fresh = synctui::NewFolderConfiguration::new("f2".to_string(), "/two".to_string());
    let call = add_folder(&state, fresh).unwrap();
    assert!(matches!(call, GatewayCall::AddFolder(ref f) if f.get_id() == "f2"));
}

#[test]
fn device_connected_event_sets_status_immediately() {
    let mut state = InnerState::default();
    state.devices.push(Device {
        config: device_config("devD", "Desk"),
        connected: DeviceStatus::Disconnected,
    });
    let event = Event {
        id: 1,
        global_id: 1,
        ty: EventType::DeviceConnected {
            addr: "10.0.0.2:22000".to_string(),
            id: "devD".to_string(),
            device_name: "Desk".to_string(),
            client_name: "syncthing".to_string(),
            client_version: "v1".to_string(),
            ty: synctui::ConnectionType::TCPClient,
        },
    };
    let (jobs, notice) = handle_event(&mut state, event);
    assert!(jobs.is_empty());
    assert!(notice.is_none());
    let d = state.get_device("devD").unwrap();
    assert_eq!(d.connected, DeviceStatus::UpToDate);

    let event = Event {
        id: 2,
        global_id: 2,
        ty: EventType::DeviceDisconnected { error: "gone".to_string(), id: "devD".to_string() },
    };
    let _ = handle_event(&mut state, event);
    assert_eq!(state.get_device("devD").unwrap().connected, DeviceStatus::Disconnected);
}

fn offers_fetch() -> PendingFolders {
    PendingFolders {
        folders: vec![(
            "fShared".to_string(),
            PendingFolder {
                offered_by: vec![
                    (
                        "devA".to_string(),
                        PendingFolderOfferer {
                            label: "Shared".to_string(),
                            receive_encrypted: false,
                            remote_encrypted: false,
                        },
                    ),
                    (
                        "devB".to_string(),
                        PendingFolderOfferer {
                            label: "Shared".to_string(),
                            receive_encrypted: false,
                            remote_encrypted: false,
                        },
                    ),
                ],
            },
        )],
    }
}

#[test]
fn replaying_pending_folders_fetch_is_idempotent() {
    let mut state = InnerState::default();
    let _ = apply_reload(
        &mut state,
        Reload::PendingFolders,
        FetchResult::PendingFolders(offers_fetch()),
    );
    let first = state.get_pending_folders();
    let _ = apply_reload(
        &mut state,
        Reload::PendingFolders,
        FetchResult::PendingFolders(offers_fetch()),
    );
    let second = state.get_pending_folders();
    assert_eq!(first, second);
    // Two devices offer the same folder: both offers are kept.
    assert_eq!(first.len(), 2);
    assert_eq!(first[0].1.get_id(), "fShared");
    assert_eq!(first[1].1.get_id(), "fShared");
}

#[test]
fn configuration_scenario_one_folder_one_device() {
    let mut state = InnerState::default();
    state.id = "local".to_string();
    let cfg = configuration(
        vec![folder_config("f1", "f1", "/data", vec![])],
        vec![device_config("dev1", "Laptop"), device_config("local", "Me")],
    );
    let _ = apply_reload(&mut state, Reload::Configuration, FetchResult::Configuration(cfg));

    let folders = state.get_folders();
    assert_eq!(folders.len(), 1);
    assert_eq!(folders[0].config.id, "f1");
    assert_eq!(folders[0].config.path, "/data");
    assert!(folders[0].config.devices.is_empty());

    let devices = state.get_devices();
    assert_eq!(devices.len(), 2);
    assert!(devices.iter().any(|d| d.config.name == "Laptop"));

    let others = state.get_other_devices();
    assert_eq!(others.len(), 1);
    assert_eq!(others[0].config.device_id, "dev1");
    assert_eq!(others[0].config.name, "Laptop");
}

#[test]
fn pending_devices_changed_scenario() {
    let mut state = InnerState::default();
    let event = Event {
        id: 7,
        global_id: 7,
        ty: EventType::PendingDevicesChanged {
            added: Some(vec![synctui::AddedPendingDevice {
                address: "10.0.0.9:22000".to_string(),
                device_id: "devX".to_string(),
                name: "Phone".to_string(),
            }]),
            removed: None,
        },
    };
    let (jobs, notice) = handle_event(&mut state, event);
    assert_eq!(jobs.len(), 1);
    assert!(matches!(jobs[0], Reload::PendingDevices));
    assert!(matches!(notice, Some(Notice::NewPendingDevice(ref d)) if d == "devX"));

    // Processing the enqueued job merges the fetched pending set.
    let fetch = PendingDevices {
        devices: vec![(
            "devX".to_string(),
            PendingDevice { name: "Phone".to_string(), address: "10.0.0.9:22000".to_string() },
        )],
    };
    let follow = apply_reload(&mut state, Reload::PendingDevices, FetchResult::PendingDevices(fetch));
    assert!(follow.is_empty());
    let pending = state.get_pending_devices();
    assert_eq!(pending.len(), 1);
    assert_eq!(pending[0].get_device_id(), "devX");
    assert_eq!(pending[0].get_name().as_deref(), Some("Phone"));
}

#[test]
fn accept_device_scenario() {
    let mut state = InnerState::default();
    state.pending_devices.push(
        NewDeviceConfiguration::new("devX".to_string()).name("Phone".to_string()),
    );
    let call = accept_device(&state, "devX").unwrap();
    assert!(matches!(call, GatewayCall::AddDevice(_)));
    let reload = after_mutation_success(&call).unwrap();
    assert!(matches!(reload, Reload::Configuration));

    // The configuration reload confirms the daemon accepted the device:
    // it appears configured and leaves the pending set.
    let cfg = configuration(vec![], vec![device_config("devX", "Phone")]);
    let _ = apply_reload(&mut state, reload, FetchResult::Configuration(cfg));
    let devices = state.get_devices();
    assert_eq!(devices.len(), 1);
    assert_eq!(devices[0].config.device_id, "devX");
    assert!(state.get_pending_devices().is_empty());
}

#[test]
fn failed_fetch_stores_error_and_success_clears_it() {
    let mut state = InnerState::default();
    let follow = apply_reload(
        &mut state,
        Reload::Configuration,
        FetchResult::Failed(AppError::ApiError { message: "connection refused".to_string() }),
    );
    assert!(follow.is_empty());
    assert_eq!(
        state.error,
        Some(AppError::ApiError { message: "connection refused".to_string() })
    );

    let _ = apply_reload(&mut state, Reload::ID, FetchResult::Id("local".to_string()));
    assert_eq!(state.error, None);
    assert_eq!(state.id, "local");
}

#[test]
fn connections_reload_updates_statuses_and_schedules_completions() {
    let mut state = InnerState::default();
    state.devices.push(Device {
        config: device_config("devA", "A"),
        connected: DeviceStatus::Disconnected,
    });
    state.devices.push(Device {
        config: device_config("devB", "B"),
        connected: DeviceStatus::UpToDate,
    });
    let conns = Connections {
        connections: vec![
            ("devA".to_string(), Connection { connected: true }),
            ("devB".to_string(), Connection { connected: false }),
            ("devGhost".to_string(), Connection { connected: true }),
        ],
    };
    let follow = apply_reload(&mut state, Reload::Connections, FetchResult::Connections(conns));
    // Only connected, configured devices get a completion follow-up.
    assert_eq!(follow.len(), 1);
    assert!(matches!(
        &follow[0],
        Reload::Completion { folder_id: None, device_id: Some(d) } if d == "devA"
    ));
    assert_eq!(state.get_device("devA").unwrap().connected, DeviceStatus::UpToDate);
    assert_eq!(state.get_device("devB").unwrap().connected, DeviceStatus::Disconnected);
}

#[test]
fn device_completion_below_hundred_means_syncing() {
    let mut state = InnerState::default();
    state.devices.push(Device {
        config: device_config("devA", "A"),
        connected: DeviceStatus::UpToDate,
    });
    let _ = apply_reload(
        &mut state,
        Reload::Completion { folder_id: None, device_id: Some("devA".to_string()) },
        FetchResult::Completion(Completion { completion: 73 }),
    );
    assert_eq!(state.get_device("devA").unwrap().connected, DeviceStatus::Syncing(73));
    let _ = apply_reload(
        &mut state,
        Reload::Completion { folder_id: None, device_id: Some("devA".to_string()) },
        FetchResult::Completion(Completion { completion: 100 }),
    );
    assert_eq!(state.get_device("devA").unwrap().connected, DeviceStatus::UpToDate);
}

#[test]
fn share_folder_appends_device_without_touching_store() {
    let mut state = InnerState::default();
    state.folders.push(Folder {
        config: folder_config("f1", "One", "/one", vec![FolderDevice::new("devOld")]),
        completion: 100,
    });
    let call = share_folder(&state, "f1", "devNew").unwrap();
    match call {
        GatewayCall::PostFolder(f) => {
            assert_eq!(f.id, "f1");
            assert_eq!(f.devices.len(), 2);
            assert_eq!(f.devices[1].device_id, "devNew");
        }
        other => panic!("expected a post-folder call, got {:?}", other),
    }
    // The store itself waits for the reload.
    assert_eq!(state.folders[0].config.devices.len(), 1);

    assert_eq!(share_folder(&state, "missing", "devNew"), Err(AppError::UnknownFolder));
}

#[test]
fn dismiss_calls_carry_their_targets() {
    let d = dismiss_device("devX".to_string());
    assert!(matches!(d, GatewayCall::DismissPendingDevice(ref id) if id == "devX"));
    assert!(after_mutation_success(&d).is_none());

    let f = dismiss_folder("f1".to_string(), "devX".to_string());
    match f {
        GatewayCall::DismissPendingFolder { folder_id, device_id } => {
            assert_eq!(folder_id, "f1");
            assert_eq!(device_id.as_deref(), Some("devX"));
        }
        other => panic!("expected a dismiss-folder call, got {:?}", other),
    }

    let edited = folder_config("f1", "One", "/one", vec![]);
    let call = edit_folder(edited);
    assert!(matches!(call, GatewayCall::PostFolder(ref f) if f.id == "f1"));
    assert!(after_mutation_success(&call).is_none());

    let call = remove_folder("f1".to_string());
    assert!(matches!(call, GatewayCall::DeleteFolder(ref id) if id == "f1"));
    assert!(after_mutation_success(&call).is_none());
}

#[test]
fn unhandled_events_are_logged() {
    let mut state = InnerState::default();
    let event = Event { id: 3, global_id: 3, ty: EventType::StartupComplete };
    let (jobs, notice) = handle_event(&mut state, event);
    assert!(jobs.is_empty());
    assert!(notice.is_none());
    assert_eq!(state.events.len(), 1);
    assert_eq!(state.events[0].id, 3);
}

#[test]
fn config_saved_event_enqueues_configuration_reload() {
    let mut state = InnerState::default();
    let event = Event { id: 4, global_id: 4, ty: EventType::ConfigSaved };
    let (jobs, _) = handle_event(&mut state, event);
    assert_eq!(jobs.len(), 1);
    assert!(matches!(jobs[0], Reload::Configuration));

    let event = Event {
        id: 5,
        global_id: 5,
        ty: EventType::RemoteDownloadProgress {
            device: "devR".to_string(),
            folder: "f1".to_string(),
        },
    };
    let (jobs, _) = handle_event(&mut state, event);
    assert_eq!(jobs.len(), 1);
    assert!(matches!(
        &jobs[0],
        Reload::Completion { folder_id: None, device_id: Some(d) } if d == "devR"
    ));
}

fn numbered_event(id: u64) -> Event {
    Event { id, global_id: id, ty: EventType::StateChanged }
}

#[test]
fn event_batches_track_the_low_water_mark() {
    // The first batch is consumed without being delivered.
    let (mark, skip, emitted) =
        process_event_batch(0, true, vec![numbered_event(1), numbered_event(2)]);
    assert_eq!(mark, 2);
    assert!(!skip);
    assert!(emitted.is_empty());

    // Later batches deliver only what is above the mark.
    let (mark, _, emitted) =
        process_event_batch(mark, false, vec![numbered_event(2), numbered_event(3), numbered_event(5)]);
    assert_eq!(mark, 5);
    assert_eq!(emitted.iter().map(|e| e.id).collect::<Vec<_>>(), vec![3, 5]);
}

#[test]
fn getters_sort_case_insensitively() {
    let mut state = InnerState::default();
    state.devices.push(Device {
        config: device_config("d1", "Zed"),
        connected: DeviceStatus::Disconnected,
    });
    state.devices.push(Device {
        config: device_config("d2", "anna"),
        connected: DeviceStatus::Disconnected,
    });
    state.devices.push(Device {
        config: device_config("d3", "Boa"),
        connected: DeviceStatus::Disconnected,
    });
    let names: Vec<String> =
        state.get_devices().iter().map(|d| d.config.name.clone()).collect();
    // Case-folded order: anna, Boa, Zed. Raw code-point order would put
    // the capitalized names first.
    assert_eq!(names, vec!["anna".to_string(), "Boa".to_string(), "Zed".to_string()]);

    state.folders.push(Folder {
        config: folder_config("f1", "beta", "/b", vec![]),
        completion: 100,
    });
    state.folders.push(Folder {
        config: folder_config("f2", "Alpha", "/a", vec![]),
        completion: 100,
    });
    let labels: Vec<String> =
        state.get_folders().iter().map(|f| f.config.label.clone()).collect();
    assert_eq!(labels, vec!["Alpha".to_string(), "beta".to_string()]);
}

#[test]
fn sharer_lists_are_sorted_and_exclude_the_host() {
    let folder = Folder {
        config: folder_config(
            "f1",
            "One",
            "/one",
            vec![FolderDevice::new("zeta"), FolderDevice::new("alpha"), FolderDevice::new("host")],
        ),
        completion: 100,
    };
    assert_eq!(
        folder.get_sharer(),
        vec!["alpha".to_string(), "host".to_string(), "zeta".to_string()]
    );
    assert_eq!(
        folder.get_sharer_excluded("host"),
        vec!["alpha".to_string(), "zeta".to_string()]
    );
}

#[test]
fn folder_lookups_report_unknown_entities() {
    let state = InnerState::default();
    assert!(matches!(state.get_folder("nope"), Err(AppError::UnknownFolder)));
    assert!(matches!(state.get_device("nope"), Err(AppError::UnknownDevice)));
    assert!(matches!(state.get_pending_device("nope"), Err(AppError::UnknownDevice)));
    assert!(matches!(state.get_devices_sharing_folder("nope"), Err(AppError::UnknownFolder)));
}

#[test]
fn devices_sharing_folder_filters_and_sorts() {
    let mut state = InnerState::default();
    state.id = "host".to_string();
    state.folders.push(Folder {
        config: folder_config(
            "f1",
            "One",
            "/one",
            vec![FolderDevice::new("host"), FolderDevice::new("b"), FolderDevice::new("a")],
        ),
        completion: 100,
    });
    for (id, name) in [("host", "Me"), ("a", "Zoe"), ("b", "Ada"), ("c", "Eli")] {
        state.devices.push(Device {
            config: device_config(id, name),
            connected: DeviceStatus::Disconnected,
        });
    }
    let sharing = state.get_devices_sharing_folder("f1").unwrap();
    let ids: Vec<String> = sharing.iter().map(|d| d.config.device_id.clone()).collect();
    // Sorted by name: Ada (b) before Zoe (a); the host and non-sharing
    // devices are excluded.
    assert_eq!(ids, vec!["b".to_string(), "a".to_string()]);

    let with_a = state.get_device_folders("a");
    assert_eq!(with_a.len(), 1);
    assert_eq!(with_a[0].config.id, "f1");
    assert!(state.get_device_folders("c").is_empty());
}

#[test]
fn error_messages_are_short_and_nonempty() {
    assert_eq!(AppError::DuplicateFolderID.message(), "folder ID already exists");
    assert_eq!(AppError::UnknownFolder.message(), "folder not found");
    assert_eq!(AppError::UnknownDevice.message(), "device not found");
    assert!(!AppError::SyncthingIDError.message().is_empty());
}

#[test]
fn pending_snapshots_flatten_offers() {
    let fetch = offers_fetch();
    let flat = fetch.get_sorted();
    assert_eq!(flat.len(), 2);
    assert_eq!(flat[0].0, "fShared");
    assert_eq!(flat[0].1, "devA");
    assert_eq!(flat[1].1, "devB");

    let devices = PendingDevices {
        devices: vec![(
            "devX".to_string(),
            PendingDevice { name: "Phone".to_string(), address: "addr".to_string() },
        )],
    };
    let listed = devices.get_sorted();
    assert_eq!(listed.len(), 1);
    assert_eq!(listed[0].0, "devX");
}
