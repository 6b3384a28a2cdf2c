use vstd::prelude::*;

use crate::error::AppError;
use crate::reload::Reload;
use crate::state::has_folder;
use crate::state::has_pending_device;
use crate::state::is_first_folder_match;
use crate::state::is_first_pending_match;
use crate::state::InnerState;
use crate::types::FolderConfiguration;
use crate::types::FolderConfigurationView;
use crate::types::FolderDevice;
use crate::types::FolderDeviceView;
use crate::types::NewDeviceConfiguration;
use crate::types::NewFolderConfiguration;

verus! {

/// One write-through request to the daemon. The shell performs the
/// actual call in the background; the decision functions below say
/// exactly which call a mutation issues, and on which inputs none is
/// issued at all.
#[derive(Debug, PartialEq, Eq)]
pub enum GatewayCall {
    /// Add a device to the configuration.
    AddDevice(NewDeviceConfiguration),
    /// Create a folder.
    AddFolder(NewFolderConfiguration),
    /// Create or update a folder (idempotent upsert keyed by folder ID).
    PostFolder(FolderConfiguration),
    /// Remove the record of a pending device without configuring it.
    DismissPendingDevice(String),
    /// Remove the record of a pending folder offer.
    DismissPendingFolder { folder_id: String, device_id: Option<String> },
    /// Delete a configured folder.
    DeleteFolder(String),
}

/// Accept a pending device: fails fast with `UnknownDevice` when the
/// device is not in the pending set — no gateway call is issued then —
/// and otherwise submits exactly the pending entry as a new device.
pub fn accept_device(state: &InnerState, device_id: &str) -> (r: Result<GatewayCall, AppError>)
    ensures
        r is Ok <==> has_pending_device(state.pending_devices@, device_id@),
        r matches Ok(c) ==> exists|k: int|
            {
                &&& #[trigger] is_first_pending_match(state.pending_devices@, device_id@, k)
                &&& (match c {
                    GatewayCall::AddDevice(d) => d@ == state.pending_devices@[k]@,
                    _ => false,
                })
            },
        r matches Err(e) ==> e == AppError::UnknownDevice,
{
    match state.get_pending_device(device_id) {
        Ok(d) => Ok(GatewayCall::AddDevice(d.clone())),
        Err(e) => Err(e),
    }
}

/// Add a new folder: fails with `DuplicateFolderID` when a folder with
/// that ID is already configured — before any gateway call is made —
/// and otherwise submits a create request for exactly this folder.
pub fn add_folder(state: &InnerState, folder: NewFolderConfiguration) -> (r: Result<
    GatewayCall,
    AppError,
>)
    ensures
        r is Ok <==> !has_folder(state.folders@, folder@.id),
        r matches Ok(c) ==> c == GatewayCall::AddFolder(folder),
        r matches Err(e) ==> e == AppError::DuplicateFolderID,
{
    match state.find_folder(folder.get_id().as_str()) {
        Some(_) => Err(AppError::DuplicateFolderID),
        None => Ok(GatewayCall::AddFolder(folder)),
    }
}

/// Share a configured folder with one more device: fails with
/// `UnknownFolder` when no folder carries the ID, and otherwise submits
/// the folder's configuration with the device appended to its sharing
/// list. The store itself is not touched: confirmation comes from the
/// configuration reload that follows the daemon's change event.
pub fn share_folder(state: &InnerState, folder_id: &str, device_id: &str) -> (r: Result<
    GatewayCall,
    AppError,
>)
    ensures
        r is Ok <==> has_folder(state.folders@, folder_id@),
        r matches Err(e) ==> e == AppError::UnknownFolder,
        r matches Ok(c) ==> exists|k: int|
            {
                &&& #[trigger] is_first_folder_match(state.folders@, folder_id@, k)
                &&& (match c {
                    GatewayCall::PostFolder(f) => f@ == (FolderConfigurationView {
                        devices: state.folders@[k]@.config.devices.push(
                            FolderDeviceView {
                                device_id: device_id@,
                                introduced_by: Seq::empty(),
                                encryption_password: Seq::empty(),
                            },
                        ),
                        ..state.folders@[k]@.config
                    }),
                    _ => false,
                })
            },
{
    match state.find_folder(folder_id) {
        Some(k) => {
            let mut cfg = state.folders[k].config.clone();
            let ghost before = cfg@;
            let ghost prevdev = cfg.devices@;
            cfg.devices.push(FolderDevice::new(device_id));
            proof {
                let pushed = cfg.devices@[cfg.devices@.len() - 1];
                crate::types::lemma_dv_push(prevdev, pushed);
                assert(cfg.devices.deep_view() =~= crate::types::dv_seq(cfg.devices@));
                assert(crate::types::dv_seq(prevdev) =~= before.devices);
                assert(pushed@.introduced_by =~= Seq::<char>::empty());
                assert(pushed@.encryption_password =~= Seq::<char>::empty());
                assert(pushed.deep_view() =~= (FolderDeviceView {
                    device_id: device_id@,
                    introduced_by: Seq::empty(),
                    encryption_password: Seq::empty(),
                }));
                assert(cfg.devices.deep_view() =~= before.devices.push(
                    FolderDeviceView {
                        device_id: device_id@,
                        introduced_by: Seq::empty(),
                        encryption_password: Seq::empty(),
                    },
                ));
                assert(cfg@ =~= (FolderConfigurationView {
                    devices: state.folders@[k as int]@.config.devices.push(
                        FolderDeviceView {
                            device_id: device_id@,
                            introduced_by: Seq::empty(),
                            encryption_password: Seq::empty(),
                        },
                    ),
                    ..state.folders@[k as int]@.config
                }));
            }
            Ok(GatewayCall::PostFolder(cfg))
        },
        None => Err(AppError::UnknownFolder),
    }
}

/// Update a folder's configuration as given.
pub fn edit_folder(folder: FolderConfiguration) -> (r: GatewayCall)
    ensures
        r == GatewayCall::PostFolder(folder),
{
    GatewayCall::PostFolder(folder)
}

/// Dismiss a pending folder offer from one device. The store is not
/// touched: the daemon's pending-changed event refreshes it.
pub fn dismiss_folder(folder_id: String, device_id: String) -> (r: GatewayCall)
    ensures
        r == (GatewayCall::DismissPendingFolder { folder_id, device_id: Some(device_id) }),
{
    GatewayCall::DismissPendingFolder { folder_id, device_id: Some(device_id) }
}

/// Dismiss a pending device. The store is not touched: the daemon's
/// pending-changed event refreshes it.
pub fn dismiss_device(device_id: String) -> (r: GatewayCall)
    ensures
        r == GatewayCall::DismissPendingDevice(device_id),
{
    GatewayCall::DismissPendingDevice(device_id)
}

/// Delete a configured folder.
pub fn remove_folder(folder_id: String) -> (r: GatewayCall)
    ensures
        r == GatewayCall::DeleteFolder(folder_id),
{
    GatewayCall::DeleteFolder(folder_id)
}

/// The reload a successful write-through schedules: adding a device or
/// a folder invalidates the configuration, so it enqueues a
/// configuration reload; every other call relies on the daemon's own
/// change events.
pub fn after_mutation_success(call: &GatewayCall) -> (r: Option<Reload>)
    ensures
        match call {
            GatewayCall::AddDevice(_) => r matches Some(j) && j is Configuration,
            GatewayCall::AddFolder(_) => r matches Some(j) && j is Configuration,
            _ => r is None,
        },
{
    match call {
        GatewayCall::AddDevice(_) => Some(Reload::Configuration),
        GatewayCall::AddFolder(_) => Some(Reload::Configuration),
        _ => None,
    }
}

} // verus!
