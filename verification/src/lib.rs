//! A terminal dashboard for a remote file-synchronization daemon.
//!
//! The crate's core is the reconciliation engine: it turns daemon events
//! into targeted re-fetch jobs, merges fetched snapshots into a single
//! shared view-model, and exposes mutation operations (accept a device,
//! add or share a folder, dismiss pending entities) that write through to
//! the daemon. Everything here is verified; the thin shell that does the
//! actual HTTP calls and terminal drawing lives outside the library and
//! feeds plain values in and out.

mod app;
mod error;
mod events;
mod input;
mod mutations;
mod order;
mod pages;
mod popup;
mod relay;
mod reload;
mod state;
mod types;

pub use app::{update_allowed, App, AppConfig, Command, CurrentMode, CurrentScreen};
pub use error::AppError;
pub use events::{
    AddedPendingDevice, AddedPendingFolder, ConnectionType, Event, EventType,
    RemovedPendingDevice, RemovedPendingFolder,
};
pub use input::{handler, spec_handler_insert, spec_handler_normal, Key, Message};
pub use pages::{
    spec_last_row, spec_pending_update, spec_row_down, spec_row_up, IDPage, PendingPageState,
};
pub use popup::{
    has_selected, is_first_selected, popup_update, spec_byte_index, spec_general_focus_next,
    spec_general_focus_prev, spec_new_folder_next, spec_new_folder_prev,
    spec_pending_focus_next, spec_pending_focus_prev, utf8_len, FolderFocus, FolderGeneralFocus,
    FolderPopup, NewFolderFocus, NewFolderPopup, PendingDevicePopup, PendingFocus,
    PendingShareFolderPopup, PopupKind, TextBox,
};
pub use mutations::{
    accept_device, add_folder, after_mutation_success, dismiss_device, dismiss_folder,
    edit_folder, remove_folder, share_folder, GatewayCall,
};
pub use order::{lower_of, seq_char_le, sorted_le, str_eq, str_le, SortOrder};
pub use relay::{handle_event, mark_after, process_event_batch, Notice};
pub use reload::{
    apply_reload, completion_merged, config_device_ids, config_folder_ids, config_merged,
    conn_status, connections_merged, conns_last_entry, conns_name, device_id_set, folder_id_set,
    follow_ups_ok, lemma_configuration_authoritative, lemma_pending_folders_replay, pending_devices_merged,
    pending_folders_merged, reload_step, result_matches, status_of_completion,
    wanted_completions, FetchResult, Reload,
};
pub use state::{
    config_has_device, devices_sharing, devices_status_updated, folder_shares_with,
    folders_completion_updated, folders_with_device, has_device, has_folder, has_pending_device,
    is_first_device_match, is_first_folder_match, is_first_pending_match, other_devices,
    pending_device_entry, pending_folder_entry, preserved_completion, preserved_status,
    prune_pending, Device, DeviceStatus, DeviceView, Folder, FolderView, InnerState,
};
pub use types::{
    Compression, Completion, Configuration, Connection, Connections, DeviceConfiguration,
    FolderConfiguration, FolderDevice, NewDeviceConfiguration, NewFolderConfiguration,
    PendingDevice, PendingDevices, PendingFolder, PendingFolderOfferer, PendingFolders,
    XattrFilter,
};
