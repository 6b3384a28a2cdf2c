use vstd::prelude::*;

verus! {

// ---------------------------------------------------------------------------
// Helpers for reasoning about deep views of growing vectors.
// ---------------------------------------------------------------------------

/// The sequence of deep views of the elements of `s`.
pub open spec fn dv_seq<T: DeepView>(s: Seq<T>) -> Seq<T::V> {
    Seq::new(s.len(), |i: int| s[i].deep_view())
}

/// A vector's deep view is the deep view of its element sequence.
pub proof fn lemma_dv_seq_vec<T: DeepView>(v: &Vec<T>)
    ensures
        v.deep_view() == dv_seq(v@),
{
    assert(v.deep_view() =~= dv_seq(v@));
}

/// Deep views distribute over push.
pub proof fn lemma_dv_push<T: DeepView>(s: Seq<T>, x: T)
    ensures
        dv_seq(s.push(x)) == dv_seq(s).push(x.deep_view()),
{
    assert(dv_seq(s.push(x)) =~= dv_seq(s).push(x.deep_view()));
}

/// Indexing a deep-view sequence gives the element's deep view.
pub proof fn lemma_dv_index<T: DeepView>(s: Seq<T>, i: int)
    requires
        0 <= i < s.len(),
    ensures
        dv_seq(s)[i] == s[i].deep_view(),
{
}

/// Deep views distribute over removal.
pub proof fn lemma_dv_remove<T: DeepView>(s: Seq<T>, i: int)
    requires
        0 <= i < s.len(),
    ensures
        dv_seq(s.remove(i)) == dv_seq(s).remove(i),
{
    assert(dv_seq(s.remove(i)) =~= dv_seq(s).remove(i));
}

/// Deep views distribute over insertion.
pub proof fn lemma_dv_insert<T: DeepView>(s: Seq<T>, i: int, x: T)
    requires
        0 <= i <= s.len(),
    ensures
        dv_seq(s.insert(i, x)) == dv_seq(s).insert(i, x.deep_view()),
{
    assert(dv_seq(s.insert(i, x)) =~= dv_seq(s).insert(i, x.deep_view()));
}

// ---------------------------------------------------------------------------
// Configuration snapshot types, mirroring the daemon's configuration object.
// Each carries a mathematical view so that contracts can compare contents
// (deep views) rather than allocations.
// ---------------------------------------------------------------------------

/// Per-folder filter for extended attributes.
#[derive(Debug, PartialEq, Eq)]
pub struct XattrFilter {
    pub entries: Vec<String>,
    pub max_single_entry_size: u64,
    pub max_total_size: u64,
}

#[verifier::ext_equal]
pub struct XattrFilterView {
    pub entries: Seq<Seq<char>>,
    pub max_single_entry_size: u64,
    pub max_total_size: u64,
}

impl View for XattrFilter {
    type V = XattrFilterView;

    open spec fn view(&self) -> XattrFilterView {
        XattrFilterView {
            entries: self.entries.deep_view(),
            max_single_entry_size: self.max_single_entry_size,
            max_total_size: self.max_total_size,
        }
    }
}

impl DeepView for XattrFilter {
    type V = XattrFilterView;

    open spec fn deep_view(&self) -> XattrFilterView {
        self.view()
    }
}

impl Clone for XattrFilter {
    fn clone(&self) -> (r: Self)
        ensures
            r@ == self@,
    {
        let entries = self.entries.clone();
        proof {
            assert(entries.deep_view() =~= self.entries.deep_view());
            assert(entries@ =~= self.entries@);
        }
        let r = XattrFilter {
            entries,
            max_single_entry_size: self.max_single_entry_size,
            max_total_size: self.max_total_size,
        };
        proof {
            assert(r@ =~= self@);
        }
        r
    }
}

impl Default for XattrFilter {
    fn default() -> (r: Self)
        ensures
            r@.entries.len() == 0,
            r@.max_single_entry_size == 1024,
            r@.max_total_size == 4096,
    {
        XattrFilter { entries: Vec::new(), max_single_entry_size: 1024, max_total_size: 4096 }
    }
}

/// A device with which a folder is shared.
#[derive(Debug, PartialEq, Eq)]
pub struct FolderDevice {
    pub device_id: String,
    pub introduced_by: String,
    pub encryption_password: String,
}

#[verifier::ext_equal]
pub struct FolderDeviceView {
    pub device_id: Seq<char>,
    pub introduced_by: Seq<char>,
    pub encryption_password: Seq<char>,
}

impl View for FolderDevice {
    type V = FolderDeviceView;

    open spec fn view(&self) -> FolderDeviceView {
        FolderDeviceView {
            device_id: self.device_id@,
            introduced_by: self.introduced_by@,
            encryption_password: self.encryption_password@,
        }
    }
}

impl DeepView for FolderDevice {
    type V = FolderDeviceView;

    open spec fn deep_view(&self) -> FolderDeviceView {
        self.view()
    }
}

impl Clone for FolderDevice {
    fn clone(&self) -> (r: Self)
        ensures
            r@ == self@,
    {
        FolderDevice {
            device_id: self.device_id.clone(),
            introduced_by: self.introduced_by.clone(),
            encryption_password: self.encryption_password.clone(),
        }
    }
}

impl FolderDevice {
    pub fn new(id: &str) -> (r: Self)
        ensures
            r@.device_id == id@,
            r@.introduced_by.len() == 0,
            r@.encryption_password.len() == 0,
    {
        FolderDevice {
            device_id: String::from_str(id),
            introduced_by: String::new(),
            encryption_password: String::new(),
        }
    }
}

/// One configured folder, as the daemon reports it.
#[derive(Debug, PartialEq, Eq)]
pub struct FolderConfiguration {
    pub id: String,
    pub label: String,
    pub path: String,
    pub devices: Vec<FolderDevice>,
    pub xattr_filter: XattrFilter,
}

#[verifier::ext_equal]
pub struct FolderConfigurationView {
    pub id: Seq<char>,
    pub label: Seq<char>,
    pub path: Seq<char>,
    pub devices: Seq<FolderDeviceView>,
    pub xattr_filter: XattrFilterView,
}

impl View for FolderConfiguration {
    type V = FolderConfigurationView;

    open spec fn view(&self) -> FolderConfigurationView {
        FolderConfigurationView {
            id: self.id@,
            label: self.label@,
            path: self.path@,
            devices: self.devices.deep_view(),
            xattr_filter: self.xattr_filter@,
        }
    }
}

impl DeepView for FolderConfiguration {
    type V = FolderConfigurationView;

    open spec fn deep_view(&self) -> FolderConfigurationView {
        self.view()
    }
}

impl Clone for FolderConfiguration {
    fn clone(&self) -> (r: Self)
        ensures
            r@ == self@,
    {
        let devices = self.devices.clone();
        proof {
            assert(devices.deep_view() =~= self.devices.deep_view());
        }
        let r = FolderConfiguration {
            id: self.id.clone(),
            label: self.label.clone(),
            path: self.path.clone(),
            devices,
            xattr_filter: self.xattr_filter.clone(),
        };
        proof {
            assert(r@ =~= self@);
        }
        r
    }
}

impl FolderConfiguration {
    pub fn new(id: String, label: String, path: String, devices: Vec<FolderDevice>) -> (r: Self)
        ensures
            r@.id == id@,
            r@.label == label@,
            r@.path == path@,
            r@.devices == devices.deep_view(),
            r@.xattr_filter.entries.len() == 0,
    {
        FolderConfiguration { id, label, path, devices, xattr_filter: XattrFilter::default() }
    }
}

/// How a device compresses traffic.
#[derive(Debug, Clone, Copy, PartialEq, Eq)]
pub enum Compression {
    Metadata,
    Always,
    Never,
}

impl Default for Compression {
    fn default() -> (r: Self)
        ensures
            r == Compression::Metadata,
    {
        Compression::Metadata
    }
}

/// One configured device, as the daemon reports it.
#[derive(Debug, PartialEq, Eq)]
pub struct DeviceConfiguration {
    pub device_id: String,
    pub name: String,
    pub addresses: Vec<String>,
    pub compression: Compression,
}

#[verifier::ext_equal]
pub struct DeviceConfigurationView {
    pub device_id: Seq<char>,
    pub name: Seq<char>,
    pub addresses: Seq<Seq<char>>,
    pub compression: Compression,
}

impl View for DeviceConfiguration {
    type V = DeviceConfigurationView;

    open spec fn view(&self) -> DeviceConfigurationView {
        DeviceConfigurationView {
            device_id: self.device_id@,
            name: self.name@,
            addresses: self.addresses.deep_view(),
            compression: self.compression,
        }
    }
}

impl DeepView for DeviceConfiguration {
    type V = DeviceConfigurationView;

    open spec fn deep_view(&self) -> DeviceConfigurationView {
        self.view()
    }
}

impl Clone for DeviceConfiguration {
    fn clone(&self) -> (r: Self)
        ensures
            r@ == self@,
    {
        let addresses = self.addresses.clone();
        proof {
            assert(addresses.deep_view() =~= self.addresses.deep_view());
        }
        let r = DeviceConfiguration {
            device_id: self.device_id.clone(),
            name: self.name.clone(),
            addresses,
            compression: self.compression,
        };
        proof {
            assert(r@ =~= self@);
        }
        r
    }
}

/// The daemon's full configuration: the authoritative snapshot that the
/// store replaces its folder and device collections from.
#[derive(Debug, PartialEq, Eq)]
pub struct Configuration {
    pub version: u64,
    pub folders: Vec<FolderConfiguration>,
    pub devices: Vec<DeviceConfiguration>,
}

// ---------------------------------------------------------------------------
// Submission types: what the dashboard sends back to the daemon.
// ---------------------------------------------------------------------------

/// A device about to be added to the configuration.
#[derive(Debug, PartialEq, Eq)]
pub struct NewDeviceConfiguration {
    pub device_id: String,
    pub name: Option<String>,
}

#[verifier::ext_equal]
pub struct NewDeviceConfigurationView {
    pub device_id: Seq<char>,
    pub name: Option<Seq<char>>,
}

impl View for NewDeviceConfiguration {
    type V = NewDeviceConfigurationView;

    open spec fn view(&self) -> NewDeviceConfigurationView {
        NewDeviceConfigurationView { device_id: self.device_id@, name: self.name.deep_view() }
    }
}

impl DeepView for NewDeviceConfiguration {
    type V = NewDeviceConfigurationView;

    open spec fn deep_view(&self) -> NewDeviceConfigurationView {
        self.view()
    }
}

impl Clone for NewDeviceConfiguration {
    fn clone(&self) -> (r: Self)
        ensures
            r@ == self@,
    {
        let name = self.name.clone();
        proof {
            assert(name.deep_view() =~= self.name.deep_view());
        }
        let r = NewDeviceConfiguration { device_id: self.device_id.clone(), name };
        proof {
            assert(r@ =~= self@);
        }
        r
    }
}

impl NewDeviceConfiguration {
    pub fn new(device_id: String) -> (r: Self)
        ensures
            r@.device_id == device_id@,
            r@.name is None,
    {
        NewDeviceConfiguration { device_id, name: None }
    }

    /// Builder step: set the declared name.
    pub fn name(self, name: String) -> (r: Self)
        ensures
            r@.device_id == self@.device_id,
            r@.name == Some(name@),
    {
        NewDeviceConfiguration { name: Some(name), ..self }
    }

    pub fn get_device_id(&self) -> (r: &String)
        ensures
            r@ == self@.device_id,
    {
        &self.device_id
    }

    pub fn get_name(&self) -> (r: &Option<String>)
        ensures
            r.deep_view() == self@.name,
    {
        &self.name
    }
}

impl NewDeviceConfigurationView {
    /// The key the pending-device list is ordered by: the declared name,
    /// or empty where none was declared.
    pub open spec fn sort_key(self) -> Seq<char> {
        match self.name {
            Some(n) => n,
            None => Seq::empty(),
        }
    }
}

/// A folder about to be created or accepted.
#[derive(Debug, PartialEq, Eq)]
pub struct NewFolderConfiguration {
    pub id: String,
    pub path: String,
    pub label: Option<String>,
    pub devices: Vec<FolderDevice>,
}

#[verifier::ext_equal]
pub struct NewFolderConfigurationView {
    pub id: Seq<char>,
    pub path: Seq<char>,
    pub label: Option<Seq<char>>,
    pub devices: Seq<FolderDeviceView>,
}

impl View for NewFolderConfiguration {
    type V = NewFolderConfigurationView;

    open spec fn view(&self) -> NewFolderConfigurationView {
        NewFolderConfigurationView {
            id: self.id@,
            path: self.path@,
            label: self.label.deep_view(),
            devices: self.devices.deep_view(),
        }
    }
}

impl DeepView for NewFolderConfiguration {
    type V = NewFolderConfigurationView;

    open spec fn deep_view(&self) -> NewFolderConfigurationView {
        self.view()
    }
}

impl Clone for NewFolderConfiguration {
    fn clone(&self) -> (r: Self)
        ensures
            r@ == self@,
    {
        let label = self.label.clone();
        let devices = self.devices.clone();
        proof {
            assert(label.deep_view() =~= self.label.deep_view());
            assert(devices.deep_view() =~= self.devices.deep_view());
        }
        let r = NewFolderConfiguration {
            id: self.id.clone(),
            path: self.path.clone(),
            label,
            devices,
        };
        proof {
            assert(r@ =~= self@);
        }
        r
    }
}

impl NewFolderConfiguration {
    pub fn new(id: String, path: String) -> (r: Self)
        ensures
            r@.id == id@,
            r@.path == path@,
            r@.label is None,
            r@.devices.len() == 0,
    {
        NewFolderConfiguration { id, path, label: None, devices: Vec::new() }
    }

    /// Builder step: set the display label.
    pub fn label(self, label: String) -> (r: Self)
        ensures
            r@.id == self@.id,
            r@.path == self@.path,
            r@.label == Some(label@),
            r@.devices == self@.devices,
    {
        NewFolderConfiguration { label: Some(label), ..self }
    }

    /// Builder step: set the devices the folder is shared with.
    pub fn devices(self, devices: Vec<FolderDevice>) -> (r: Self)
        ensures
            r@.id == self@.id,
            r@.path == self@.path,
            r@.label == self@.label,
            r@.devices == devices.deep_view(),
    {
        NewFolderConfiguration { devices, ..self }
    }

    pub fn get_id(&self) -> (r: &String)
        ensures
            r@ == self@.id,
    {
        &self.id
    }

    pub fn get_label(&self) -> (r: &Option<String>)
        ensures
            r.deep_view() == self@.label,
    {
        &self.label
    }

    pub fn get_devices(&self) -> (r: &Vec<FolderDevice>)
        ensures
            r.deep_view() == self@.devices,
    {
        &self.devices
    }
}

impl NewFolderConfigurationView {
    /// The key the pending-offer list is ordered by: the offered label,
    /// or empty where none was offered.
    pub open spec fn sort_key(self) -> Seq<char> {
        match self.label {
            Some(l) => l,
            None => Seq::empty(),
        }
    }
}

// ---------------------------------------------------------------------------
// Pending entities: observed by the daemon but not yet configured locally.
// ---------------------------------------------------------------------------

/// A remote device that tried to connect but is not configured yet.
#[derive(Debug, PartialEq, Eq)]
pub struct PendingDevice {
    pub name: String,
    pub address: String,
}

#[verifier::ext_equal]
pub struct PendingDeviceView {
    pub name: Seq<char>,
    pub address: Seq<char>,
}

impl View for PendingDevice {
    type V = PendingDeviceView;

    open spec fn view(&self) -> PendingDeviceView {
        PendingDeviceView { name: self.name@, address: self.address@ }
    }
}

impl DeepView for PendingDevice {
    type V = PendingDeviceView;

    open spec fn deep_view(&self) -> PendingDeviceView {
        self.view()
    }
}

impl Clone for PendingDevice {
    fn clone(&self) -> (r: Self)
        ensures
            r@ == self@,
    {
        PendingDevice { name: self.name.clone(), address: self.address.clone() }
    }
}

/// The daemon's pending-device snapshot: device ID to declared details.
#[derive(Debug, PartialEq, Eq)]
pub struct PendingDevices {
    pub devices: Vec<(String, PendingDevice)>,
}

impl PendingDevices {
    /// All pending devices, as (ID, details) pairs, in snapshot order.
    pub fn get_sorted(&self) -> (r: Vec<(String, PendingDevice)>)
        ensures
            r.deep_view() == self.devices.deep_view(),
    {
        let mut r: Vec<(String, PendingDevice)> = Vec::new();
        let ghost src = self.devices@;
        for i in 0..self.devices.len()
            invariant
                src == self.devices@,
                dv_seq(r@) == dv_seq(src).take(i as int),
        {
            let (id, d) = &self.devices[i];
            let ghost prev_seq = r@;
            r.push((id.clone(), d.clone()));
            proof {
                let pushed = r@[r@.len() - 1];
                lemma_dv_push(prev_seq, pushed);
                lemma_dv_index(src, i as int);
                assert(pushed.deep_view() == src[i as int].deep_view());
                assert(dv_seq(src).take(i as int).push(dv_seq(src)[i as int]) =~= dv_seq(
                    src,
                ).take(i + 1));
            }
        }
        proof {
            assert(dv_seq(src).take(src.len() as int) =~= dv_seq(src));
            lemma_dv_seq_vec(&r);
            lemma_dv_seq_vec(&self.devices);
        }
        r
    }
}

/// What one remote device claims about a folder it offers.
#[derive(Debug, PartialEq, Eq)]
pub struct PendingFolderOfferer {
    pub label: String,
    pub receive_encrypted: bool,
    pub remote_encrypted: bool,
}

#[verifier::ext_equal]
pub struct PendingFolderOffererView {
    pub label: Seq<char>,
    pub receive_encrypted: bool,
    pub remote_encrypted: bool,
}

impl View for PendingFolderOfferer {
    type V = PendingFolderOffererView;

    open spec fn view(&self) -> PendingFolderOffererView {
        PendingFolderOffererView {
            label: self.label@,
            receive_encrypted: self.receive_encrypted,
            remote_encrypted: self.remote_encrypted,
        }
    }
}

impl DeepView for PendingFolderOfferer {
    type V = PendingFolderOffererView;

    open spec fn deep_view(&self) -> PendingFolderOffererView {
        self.view()
    }
}

impl Clone for PendingFolderOfferer {
    fn clone(&self) -> (r: Self)
        ensures
            r@ == self@,
    {
        PendingFolderOfferer {
            label: self.label.clone(),
            receive_encrypted: self.receive_encrypted,
            remote_encrypted: self.remote_encrypted,
        }
    }
}

/// One offered folder: which devices offer it, and what each claims.
#[derive(Debug, PartialEq, Eq)]
pub struct PendingFolder {
    pub offered_by: Vec<(String, PendingFolderOfferer)>,
}

#[verifier::ext_equal]
pub struct PendingFolderView {
    pub offered_by: Seq<(Seq<char>, PendingFolderOffererView)>,
}

impl View for PendingFolder {
    type V = PendingFolderView;

    open spec fn view(&self) -> PendingFolderView {
        PendingFolderView { offered_by: self.offered_by.deep_view() }
    }
}

impl DeepView for PendingFolder {
    type V = PendingFolderView;

    open spec fn deep_view(&self) -> PendingFolderView {
        self.view()
    }
}

/// The daemon's pending-folder snapshot: folder ID to its offers.
#[derive(Debug, PartialEq, Eq)]
pub struct PendingFolders {
    pub folders: Vec<(String, PendingFolder)>,
}

/// The offers of `folders[i..]`, flattened to
/// (folder ID, offering device ID, offer) triples in snapshot order.
pub open spec fn spec_offers_from(
    folders: Seq<(Seq<char>, PendingFolderView)>,
    i: int,
) -> Seq<(Seq<char>, Seq<char>, PendingFolderOffererView)>
    decreases folders.len() - i,
{
    if i < 0 || i >= folders.len() {
        Seq::empty()
    } else {
        folders[i].1.offered_by.map_values(
            |o: (Seq<char>, PendingFolderOffererView)| (folders[i].0, o.0, o.1),
        ) + spec_offers_from(folders, i + 1)
    }
}

impl PendingFolders {
    /// All offers in the snapshot, flattened to
    /// (folder ID, device ID, offer) triples.
    pub open spec fn spec_offers(&self) -> Seq<(Seq<char>, Seq<char>, PendingFolderOffererView)> {
        spec_offers_from(self.folders.deep_view(), 0)
    }

    /// All offers, flattened in snapshot order.
    pub fn get_sorted(&self) -> (r: Vec<(String, String, PendingFolderOfferer)>)
        ensures
            r.deep_view() == self.spec_offers(),
    {
        let mut r: Vec<(String, String, PendingFolderOfferer)> = Vec::new();
        let ghost folders = self.folders.deep_view();
        proof {
            lemma_dv_seq_vec(&self.folders);
        }
        for i in 0..self.folders.len()
            invariant
                folders == self.folders.deep_view(),
                folders == dv_seq(self.folders@),
                dv_seq(r@) + spec_offers_from(folders, i as int) == spec_offers_from(folders, 0),
        {
            let (folder_id, folder) = &self.folders[i];
            proof {
                lemma_dv_index(self.folders@, i as int);
            }
            let ghost offered = folder.deep_view().offered_by;
            let ghost fmap = |o: (Seq<char>, PendingFolderOffererView)|
                (folders[i as int].0, o.0, o.1);
            let ghost before = dv_seq(r@);
            proof {
                lemma_dv_seq_vec(&folder.offered_by);
                assert(folders[i as int].1 == folder.deep_view());
                assert(folders[i as int].0 == folder_id@);
                assert(offered == dv_seq(folder.offered_by@));
            }
            for j in 0..folder.offered_by.len()
                invariant
                    folders == self.folders.deep_view(),
                    folders == dv_seq(self.folders@),
                    0 <= i < folders.len(),
                    folder.deep_view() == folders[i as int].1,
                    folder_id@ == folders[i as int].0,
                    offered == folder.deep_view().offered_by,
                    offered == dv_seq(folder.offered_by@),
                    fmap == (|o: (Seq<char>, PendingFolderOffererView)|
                        (folders[i as int].0, o.0, o.1)),
                    before + spec_offers_from(folders, i as int) == spec_offers_from(folders, 0),
                    dv_seq(r@) == before + offered.take(j as int).map_values(fmap),
            {
                let (device_id, offer) = &folder.offered_by[j];
                let ghost prev_seq = r@;
                r.push((folder_id.clone(), device_id.clone(), offer.clone()));
                proof {
                    let pushed = r@[r@.len() - 1];
                    lemma_dv_push(prev_seq, pushed);
                    lemma_dv_index(folder.offered_by@, j as int);
                    assert(pushed.deep_view() == fmap(offered[j as int]));
                    assert(offered.take(j + 1).map_values(fmap) =~= offered.take(
                        j as int,
                    ).map_values(fmap).push(fmap(offered[j as int])));
                    assert(dv_seq(r@) =~= before + offered.take(j + 1).map_values(fmap));
                }
            }
            proof {
                assert(offered.take(offered.len() as int) =~= offered);
                assert(spec_offers_from(folders, i as int) == offered.map_values(fmap)
                    + spec_offers_from(folders, i + 1));
                assert(dv_seq(r@) + spec_offers_from(folders, i + 1) =~= before
                    + spec_offers_from(folders, i as int));
            }
        }
        proof {
            assert(dv_seq(r@) + spec_offers_from(folders, folders.len() as int) =~= dv_seq(r@));
            lemma_dv_seq_vec(&r);
        }
        r
    }
}

/// Per-device connection flags, as the daemon reports them.
#[derive(Debug, Clone, Copy, PartialEq, Eq)]
pub struct Connection {
    pub connected: bool,
}

impl DeepView for Connection {
    type V = Connection;

    open spec fn deep_view(&self) -> Connection {
        *self
    }
}

/// The daemon's connections snapshot: device ID to connection flags.
#[derive(Debug, PartialEq, Eq)]
pub struct Connections {
    pub connections: Vec<(String, Connection)>,
}

/// A completion report: how much of a folder or device is synchronized,
/// as a whole percentage between 0 and 100.
#[derive(Debug, Clone, Copy, PartialEq, Eq)]
pub struct Completion {
    pub completion: u8,
}

} // verus!
