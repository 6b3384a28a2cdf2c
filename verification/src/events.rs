use vstd::prelude::*;

use crate::types::Compression;
use crate::types::DeviceConfiguration;
use crate::types::PendingDevice;
use crate::types::PendingFolderOfferer;

verus! {

/// How a connection to a device was established.
#[derive(Debug, Clone, Copy, PartialEq, Eq)]
pub enum ConnectionType {
    TCPClient,
    TCPServer,
    RelayClient,
    RelayServer,
    QuicServer,
}

/// A device that just appeared in the daemon's pending-device set.
#[derive(Debug, Clone, PartialEq, Eq)]
pub struct AddedPendingDevice {
    pub address: String,
    pub device_id: String,
    pub name: String,
}

impl AddedPendingDevice {
    pub fn from_pending_device(id: &str, device: &PendingDevice) -> (r: Self)
        ensures
            r.address@ == device@.address,
            r.device_id@ == id@,
            r.name@ == device@.name,
    {
        AddedPendingDevice {
            address: device.address.clone(),
            device_id: String::from_str(id),
            name: device.name.clone(),
        }
    }
}

impl AddedPendingDevice {
    /// The device configuration that accepting this pending device
    /// submits: same identity and name, with a dynamic address.
    pub fn into_device(self) -> (r: DeviceConfiguration)
        ensures
            r@.device_id == self.device_id@,
            r@.name == self.name@,
            r@.addresses.len() == 1,
            r@.addresses[0] == "dynamic"@,
            r@.compression == Compression::Metadata,
    {
        let mut addresses: Vec<String> = Vec::new();
        addresses.push(String::from_str("dynamic"));
        proof {
            assert(addresses.deep_view() =~= seq!["dynamic"@]);
        }
        DeviceConfiguration {
            device_id: self.device_id,
            name: self.name,
            addresses,
            compression: Compression::Metadata,
        }
    }
}

/// A device that left the daemon's pending-device set.
#[derive(Debug, Clone, PartialEq, Eq)]
pub struct RemovedPendingDevice {
    pub device_id: String,
}

/// A folder offer that just appeared in the daemon's pending-folder set.
#[derive(Debug, Clone, PartialEq, Eq)]
pub struct AddedPendingFolder {
    pub device_id: String,
    pub folder_id: String,
    pub folder_label: String,
    pub receive_encrypted: bool,
    pub remote_encrypted: bool,
}

impl AddedPendingFolder {
    pub fn from_pending_folder_offerer(
        folder_id: &str,
        folder: &PendingFolderOfferer,
        device_id: &str,
    ) -> (r: Self)
        ensures
            r.device_id@ == device_id@,
            r.folder_id@ == folder_id@,
            r.folder_label@ == folder@.label,
            r.receive_encrypted == folder@.receive_encrypted,
            r.remote_encrypted == folder@.remote_encrypted,
    {
        AddedPendingFolder {
            device_id: String::from_str(device_id),
            folder_id: String::from_str(folder_id),
            folder_label: folder.label.clone(),
            receive_encrypted: folder.receive_encrypted,
            remote_encrypted: folder.remote_encrypted,
        }
    }
}

/// A folder offer that left the daemon's pending-folder set. A removal
/// without a device ID means the folder is no longer pending anywhere.
#[derive(Debug, Clone, PartialEq, Eq)]
pub struct RemovedPendingFolder {
    pub device_id: Option<String>,
    pub folder_id: String,
}

/// One event from the daemon's event stream.
#[derive(Debug, Clone, PartialEq, Eq)]
pub enum EventType {
    ClusterConfigReceived,
    ConfigSaved,
    DeviceConnected {
        addr: String,
        id: String,
        device_name: String,
        client_name: String,
        client_version: String,
        ty: ConnectionType,
    },
    DeviceDisconnected {
        error: String,
        id: String,
    },
    DeviceDiscovered,
    DevicePause,
    DeviceRejected,
    DeviceResumed,
    DownloadProgress,
    Failure,
    FolderCompletion,
    FolderErrors,
    FolderPaused,
    FolderRejected,
    FolderResumed,
    FolderScanProgress,
    FolderSummary,
    FolderWatchStateChanged,
    ItemFinished,
    ItemStarted,
    ListenAddressesChanged,
    LocalChangeDetected,
    LocalIndexUpdated,
    LoginAttempt,
    PendingDevicesChanged {
        added: Option<Vec<AddedPendingDevice>>,
        removed: Option<Vec<RemovedPendingDevice>>,
    },
    PendingFoldersChanged {
        added: Option<Vec<AddedPendingFolder>>,
        removed: Option<Vec<RemovedPendingFolder>>,
    },
    RemoteChangeDetected,
    RemoteDownloadProgress {
        device: String,
        folder: String,
    },
    RemoteIndexUpdated,
    Starting,
    StartupComplete,
    StateChanged,
}

/// An event as delivered by the daemon: its sequence number, the global
/// number, and the typed payload.
#[derive(Debug, Clone, PartialEq, Eq)]
pub struct Event {
    pub id: u64,
    pub global_id: u64,
    pub ty: EventType,
}

} // verus!
