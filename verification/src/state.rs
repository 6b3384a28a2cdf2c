use vstd::multiset::Multiset;
use vstd::prelude::*;
use vstd::relations::sorted_by;

use crate::error::AppError;
use crate::events::Event;
use crate::order::lemma_seq_char_le_total;
use crate::order::lemma_seq_char_le_trans;
use crate::order::lower_of;
use crate::order::lowercase;
use crate::order::seq_char_le;
use crate::order::sort_by_order;
use crate::order::sorted_le;
use crate::order::str_eq;
use crate::order::str_le;
use crate::order::SortOrder;
use crate::types::dv_seq;
use crate::types::lemma_dv_index;
use crate::types::lemma_dv_seq_vec;
use crate::types::Configuration;
use crate::types::DeviceConfiguration;
use crate::types::DeviceConfigurationView;
use crate::types::FolderConfiguration;
use crate::types::FolderConfigurationView;
use crate::types::NewDeviceConfiguration;
use crate::types::NewDeviceConfigurationView;
use crate::types::NewFolderConfiguration;
use crate::types::NewFolderConfigurationView;

verus! {

/// Connection status of a configured device, as derived from connection
/// and completion reports. The syncing percentage is a whole number
/// between 0 and 100.
#[derive(Debug, Clone, Copy, PartialEq, Eq)]
pub enum DeviceStatus {
    UpToDate,
    Syncing(u8),
    Disconnected,
}

impl DeepView for DeviceStatus {
    type V = DeviceStatus;

    open spec fn deep_view(&self) -> DeviceStatus {
        *self
    }
}

/// A configured device together with its derived connection status.
#[derive(Debug, PartialEq, Eq)]
pub struct Device {
    pub config: DeviceConfiguration,
    pub connected: DeviceStatus,
}

#[verifier::ext_equal]
pub struct DeviceView {
    pub config: DeviceConfigurationView,
    pub connected: DeviceStatus,
}

impl View for Device {
    type V = DeviceView;

    open spec fn view(&self) -> DeviceView {
        DeviceView { config: self.config@, connected: self.connected }
    }
}

impl DeepView for Device {
    type V = DeviceView;

    open spec fn deep_view(&self) -> DeviceView {
        self.view()
    }
}

impl Clone for Device {
    fn clone(&self) -> (r: Self)
        ensures
            r@ == self@,
    {
        Device { config: self.config.clone(), connected: self.connected }
    }
}

impl Device {
    /// A freshly configured device starts out disconnected.
    pub fn from_config(config: DeviceConfiguration) -> (r: Self)
        ensures
            r@.config == config@,
            r@.connected == DeviceStatus::Disconnected,
    {
        Device { config, connected: DeviceStatus::Disconnected }
    }
}

/// Devices are ordered by case-folded name.
impl SortOrder for Device {
    open spec fn key_le(a: DeviceView, b: DeviceView) -> bool {
        seq_char_le(lower_of(a.config.name), lower_of(b.config.name))
    }

    fn le(&self, other: &Self) -> (r: bool) {
        let la = lowercase(self.config.name.as_str());
        let lb = lowercase(other.config.name.as_str());
        str_le(la.as_str(), lb.as_str())
    }

    proof fn lemma_total(a: DeviceView, b: DeviceView) {
        lemma_seq_char_le_total(lower_of(a.config.name), lower_of(b.config.name));
    }

    proof fn lemma_trans(a: DeviceView, b: DeviceView, c: DeviceView) {
        lemma_seq_char_le_trans(
            lower_of(a.config.name),
            lower_of(b.config.name),
            lower_of(c.config.name),
        );
    }
}

/// A configured folder together with its derived local completion,
/// as a whole percentage between 0 and 100.
#[derive(Debug, PartialEq, Eq)]
pub struct Folder {
    pub config: FolderConfiguration,
    pub completion: u8,
}

#[verifier::ext_equal]
pub struct FolderView {
    pub config: FolderConfigurationView,
    pub completion: u8,
}

impl View for Folder {
    type V = FolderView;

    open spec fn view(&self) -> FolderView {
        FolderView { config: self.config@, completion: self.completion }
    }
}

impl DeepView for Folder {
    type V = FolderView;

    open spec fn deep_view(&self) -> FolderView {
        self.view()
    }
}

impl Clone for Folder {
    fn clone(&self) -> (r: Self)
        ensures
            r@ == self@,
    {
        Folder { config: self.config.clone(), completion: self.completion }
    }
}

impl Folder {
    /// A freshly configured folder is assumed fully synchronized until a
    /// completion reload says otherwise.
    pub fn from_config(config: FolderConfiguration) -> (r: Self)
        ensures
            r@.config == config@,
            r@.completion == 100,
    {
        Folder { config, completion: 100 }
    }

    /// All the devices with which this folder is shared, sorted by
    /// device ID.
    pub fn get_sharer(&self) -> (r: Vec<String>)
        ensures
            dv_seq(r@).to_multiset() == self@.config.devices.map_values(
                |d: crate::types::FolderDeviceView| d.device_id,
            ).to_multiset(),
            sorted_le::<String>(dv_seq(r@)),
    {
        let mut ids: Vec<String> = Vec::new();
        let ghost target = self@.config.devices.map_values(
            |d: crate::types::FolderDeviceView| d.device_id,
        );
        for i in 0..self.config.devices.len()
            invariant
                target == self@.config.devices.map_values(
                    |d: crate::types::FolderDeviceView| d.device_id,
                ),
                target.len() == self.config.devices@.len(),
                dv_seq(ids@) == target.take(i as int),
        {
            let ghost prev = ids@;
            ids.push(self.config.devices[i].device_id.clone());
            proof {
                crate::types::lemma_dv_push(prev, ids@[ids@.len() - 1]);
                lemma_dv_seq_vec(&self.config.devices);
                lemma_dv_index(self.config.devices@, i as int);
                assert(target.take(i as int).push(target[i as int]) =~= target.take(i + 1));
            }
        }
        proof {
            assert(target.take(target.len() as int) =~= target);
        }
        sort_by_order(ids)
    }

    /// All the devices with which this folder is shared, excluding
    /// `device_id` (most usefully the host), sorted by device ID.
    pub fn get_sharer_excluded(&self, device_id: &str) -> (r: Vec<String>)
        ensures
            sorted_le::<String>(dv_seq(r@)),
            forall|k: int| 0 <= k < r@.len() ==> dv_seq(r@)[k] != device_id@,
            dv_seq(r@).to_multiset() == self@.config.devices.map_values(
                |d: crate::types::FolderDeviceView| d.device_id,
            ).filter(|s: Seq<char>| s != device_id@).to_multiset(),
    {
        broadcast use vstd::seq_lib::group_to_multiset_ensures;

        let all = self.get_sharer();
        let ghost allseq = dv_seq(all@);
        let mut r: Vec<String> = Vec::new();
        for i in 0..all.len()
            invariant
                allseq == dv_seq(all@),
                allseq.len() == all@.len(),
                sorted_le::<String>(allseq),
                dv_seq(r@) == allseq.take(i as int).filter(|s: Seq<char>| s != device_id@),
        {
            let ghost prev = r@;
            proof {
                lemma_dv_index(all@, i as int);
                assert(allseq.take(i + 1).drop_last() =~= allseq.take(i as int));
                assert(allseq.take(i + 1).last() == allseq[i as int]);
                reveal_with_fuel(Seq::filter, 2);
            }
            if !str_eq(all[i].as_str(), device_id) {
                r.push(all[i].clone());
                proof {
                    crate::types::lemma_dv_push(prev, r@[r@.len() - 1]);
                }
            }
            proof {
                assert(allseq.take(i + 1).filter(|s: Seq<char>| s != device_id@) == dv_seq(r@));
            }
        }
        proof {
            assert(allseq.take(allseq.len() as int) =~= allseq);
            // A filtered subsequence of a sorted sequence is sorted.
            lemma_filter_sorted(allseq, |s: Seq<char>| s != device_id@);
            // The multiset claim: filtering commutes with the permutation
            // that sorting applied.
            lemma_dv_seq_vec(&all);
            lemma_filter_multiset(
                allseq,
                self@.config.devices.map_values(|d: crate::types::FolderDeviceView| d.device_id),
                |s: Seq<char>| s != device_id@,
            );
        }
        r
    }
}

/// A filtered subsequence of a sorted sequence is sorted, and every
/// element satisfies the predicate.
proof fn lemma_filter_sorted(s: Seq<Seq<char>>, pred: spec_fn(Seq<char>) -> bool)
    requires
        sorted_le::<String>(s),
    ensures
        sorted_le::<String>(s.filter(pred)),
        forall|k: int| 0 <= k < s.filter(pred).len() ==> pred(#[trigger] s.filter(pred)[k]),
    decreases s.len(),
{
    broadcast use vstd::seq_lib::group_to_multiset_ensures;
    broadcast use vstd::multiset::group_multiset_axioms;

    reveal_with_fuel(Seq::filter, 2);
    if s.len() == 0 {
    } else {
        let rest = s.drop_last();
        let f = rest.filter(pred);
        let out = s.filter(pred);
        assert forall|p: int, q: int| 0 <= p < q < rest.len() implies #[trigger] <String as SortOrder>::key_le(
            rest[p],
            rest[q],
        ) by {
            assert(rest[p] == s[p] && rest[q] == s[q]);
            assert(<String as SortOrder>::key_le(s[p], s[q]));
        }
        assert(sorted_le::<String>(rest));
        lemma_filter_sorted(rest, pred);
        if pred(s.last()) {
            assert(out == f.push(s.last()));
            assert forall|p: int, q: int| 0 <= p < q < out.len() implies #[trigger] <String as SortOrder>::key_le(
                out[p],
                out[q],
            ) by {
                if q < f.len() {
                    assert(<String as SortOrder>::key_le(f[p], f[q]));
                } else {
                    assert(out[q] == s.last());
                    let fp = f[p];
                    assert(f.contains(fp));
                    lemma_filter_multiset_one(rest, pred);
                    assert(rest.to_multiset().filter(pred).count(fp) > 0);
                    assert(rest.to_multiset().count(fp) > 0);
                    assert(rest.contains(fp));
                    let w = choose|w: int| 0 <= w < rest.len() && rest[w] == fp;
                    assert(s[w] == fp);
                    assert(<String as SortOrder>::key_le(s[w], s[s.len() - 1]));
                }
            }
            assert(sorted_le::<String>(out));
        } else {
            assert(out == f);
        }
    }
}

/// Sequences with equal multisets have equal filtered multisets.
proof fn lemma_filter_multiset(a: Seq<Seq<char>>, b: Seq<Seq<char>>, pred: spec_fn(Seq<char>) -> bool)
    requires
        a.to_multiset() == b.to_multiset(),
    ensures
        a.filter(pred).to_multiset() == b.filter(pred).to_multiset(),
{
    lemma_filter_multiset_one(a, pred);
    lemma_filter_multiset_one(b, pred);
    assert(a.filter(pred).to_multiset() =~= b.filter(pred).to_multiset());
}

/// The multiset of a filtered sequence is the filtered multiset.
proof fn lemma_filter_multiset_one(a: Seq<Seq<char>>, pred: spec_fn(Seq<char>) -> bool)
    ensures
        a.filter(pred).to_multiset() == a.to_multiset().filter(pred),
    decreases a.len(),
{
    broadcast use vstd::seq_lib::group_to_multiset_ensures;
    broadcast use vstd::multiset::group_multiset_axioms;

    reveal_with_fuel(Seq::filter, 2);
    if a.len() == 0 {
        assert(a.to_multiset() =~= Multiset::empty());
        assert(a.filter(pred).to_multiset() =~= a.to_multiset().filter(pred));
    } else {
        let rest = a.drop_last();
        lemma_filter_multiset_one(rest, pred);
        assert(rest.push(a.last()) =~= a);
        assert(a.to_multiset() =~= rest.to_multiset().insert(a.last()));
        if pred(a.last()) {
            assert(a.filter(pred) == rest.filter(pred).push(a.last()));
            assert(a.filter(pred).to_multiset() =~= rest.filter(pred).to_multiset().insert(
                a.last(),
            ));
            assert(a.to_multiset().filter(pred) =~= rest.to_multiset().filter(pred).insert(
                a.last(),
            ));
        } else {
            assert(a.filter(pred) == rest.filter(pred));
            assert(a.to_multiset().filter(pred) =~= rest.to_multiset().filter(pred));
        }
    }
}


/// Pending devices are ordered by declared name (entries without a name
/// sort as an empty name).
impl SortOrder for NewDeviceConfiguration {
    open spec fn key_le(a: NewDeviceConfigurationView, b: NewDeviceConfigurationView) -> bool {
        seq_char_le(a.sort_key(), b.sort_key())
    }

    fn le(&self, other: &Self) -> (r: bool) {
        let empty = String::new();
        let a = match &self.name {
            Some(n) => n.as_str(),
            None => empty.as_str(),
        };
        let b = match &other.name {
            Some(n) => n.as_str(),
            None => empty.as_str(),
        };
        str_le(a, b)
    }

    proof fn lemma_total(a: NewDeviceConfigurationView, b: NewDeviceConfigurationView) {
        lemma_seq_char_le_total(a.sort_key(), b.sort_key());
    }

    proof fn lemma_trans(
        a: NewDeviceConfigurationView,
        b: NewDeviceConfigurationView,
        c: NewDeviceConfigurationView,
    ) {
        lemma_seq_char_le_trans(a.sort_key(), b.sort_key(), c.sort_key());
    }
}

/// Pending folder offers are ordered by offered label (offers without a
/// label sort as an empty label).
impl SortOrder for (String, NewFolderConfiguration) {
    open spec fn key_le(
        a: (Seq<char>, NewFolderConfigurationView),
        b: (Seq<char>, NewFolderConfigurationView),
    ) -> bool {
        seq_char_le(a.1.sort_key(), b.1.sort_key())
    }

    fn le(&self, other: &Self) -> (r: bool) {
        let empty = String::new();
        let a = match self.1.get_label() {
            Some(n) => n.as_str(),
            None => empty.as_str(),
        };
        let b = match other.1.get_label() {
            Some(n) => n.as_str(),
            None => empty.as_str(),
        };
        str_le(a, b)
    }

    proof fn lemma_total(
        a: (Seq<char>, NewFolderConfigurationView),
        b: (Seq<char>, NewFolderConfigurationView),
    ) {
        lemma_seq_char_le_total(a.1.sort_key(), b.1.sort_key());
    }

    proof fn lemma_trans(
        a: (Seq<char>, NewFolderConfigurationView),
        b: (Seq<char>, NewFolderConfigurationView),
        c: (Seq<char>, NewFolderConfigurationView),
    ) {
        lemma_seq_char_le_trans(a.1.sort_key(), b.1.sort_key(), c.1.sort_key());
    }
}

/// Folders are ordered by case-folded label.
impl SortOrder for Folder {
    open spec fn key_le(a: FolderView, b: FolderView) -> bool {
        seq_char_le(lower_of(a.config.label), lower_of(b.config.label))
    }

    fn le(&self, other: &Self) -> (r: bool) {
        let la = lowercase(self.config.label.as_str());
        let lb = lowercase(other.config.label.as_str());
        str_le(la.as_str(), lb.as_str())
    }

    proof fn lemma_total(a: FolderView, b: FolderView) {
        lemma_seq_char_le_total(lower_of(a.config.label), lower_of(b.config.label));
    }

    proof fn lemma_trans(a: FolderView, b: FolderView, c: FolderView) {
        lemma_seq_char_le_trans(
            lower_of(a.config.label),
            lower_of(b.config.label),
            lower_of(c.config.label),
        );
    }
}


// ---------------------------------------------------------------------------
// Lookup predicates over the store's collections.
// ---------------------------------------------------------------------------

/// Some configured device carries this ID.
pub open spec fn has_device(devices: Seq<Device>, id: Seq<char>) -> bool {
    exists|k: int| 0 <= k < devices.len() && (#[trigger] devices[k])@.config.device_id == id
}

/// `k` is the position of the first configured device with this ID.
pub open spec fn is_first_device_match(devices: Seq<Device>, id: Seq<char>, k: int) -> bool {
    &&& 0 <= k < devices.len()
    &&& devices[k]@.config.device_id == id
    &&& forall|m: int| 0 <= m < k ==> (#[trigger] devices[m])@.config.device_id != id
}

/// Some configured folder carries this ID.
pub open spec fn has_folder(folders: Seq<Folder>, id: Seq<char>) -> bool {
    exists|k: int| 0 <= k < folders.len() && (#[trigger] folders[k])@.config.id == id
}

/// `k` is the position of the first configured folder with this ID.
pub open spec fn is_first_folder_match(folders: Seq<Folder>, id: Seq<char>, k: int) -> bool {
    &&& 0 <= k < folders.len()
    &&& folders[k]@.config.id == id
    &&& forall|m: int| 0 <= m < k ==> (#[trigger] folders[m])@.config.id != id
}

/// Some pending device carries this ID.
pub open spec fn has_pending_device(pending: Seq<NewDeviceConfiguration>, id: Seq<char>) -> bool {
    exists|k: int| 0 <= k < pending.len() && (#[trigger] pending[k])@.device_id == id
}

/// `k` is the position of the first pending device with this ID.
pub open spec fn is_first_pending_match(
    pending: Seq<NewDeviceConfiguration>,
    id: Seq<char>,
    k: int,
) -> bool {
    &&& 0 <= k < pending.len()
    &&& pending[k]@.device_id == id
    &&& forall|m: int| 0 <= m < k ==> (#[trigger] pending[m])@.device_id != id
}

/// Some device of the snapshot carries this ID.
pub open spec fn config_has_device(devices: Seq<DeviceConfigurationView>, id: Seq<char>) -> bool {
    exists|k: int| 0 <= k < devices.len() && (#[trigger] devices[k]).device_id == id
}

/// The folder with these sharing entries is shared with this device.
pub open spec fn folder_shares_with(devices: Seq<crate::types::FolderDeviceView>, id: Seq<char>) -> bool {
    exists|k: int| 0 <= k < devices.len() && (#[trigger] devices[k]).device_id == id
}

/// The connection status a device keeps across a wholesale configuration
/// replace: the status of its first old entry, or disconnected if it is new.
pub open spec fn preserved_status(
    old_devices: Seq<Device>,
    id: Seq<char>,
    st: DeviceStatus,
) -> bool {
    if has_device(old_devices, id) {
        exists|k: int|
            #[trigger] is_first_device_match(old_devices, id, k) && st == old_devices[k].connected
    } else {
        st == DeviceStatus::Disconnected
    }
}

/// The completion a folder keeps across a wholesale configuration replace:
/// the completion of its first old entry, or 100 if it is new.
pub open spec fn preserved_completion(old_folders: Seq<Folder>, id: Seq<char>, c: u8) -> bool {
    if has_folder(old_folders, id) {
        exists|k: int|
            #[trigger] is_first_folder_match(old_folders, id, k) && c == old_folders[k].completion
    } else {
        c == 100
    }
}

// ---------------------------------------------------------------------------
// Named filters over the store's collections.
// ---------------------------------------------------------------------------

/// The pending devices that the configuration snapshot has not configured.
pub open spec fn prune_pending(
    pending: Seq<NewDeviceConfigurationView>,
    cfg: Seq<DeviceConfigurationView>,
) -> Seq<NewDeviceConfigurationView> {
    pending.filter(|v: NewDeviceConfigurationView| !config_has_device(cfg, v.device_id))
}

/// The devices other than the local one.
pub open spec fn other_devices(devices: Seq<DeviceView>, local: Seq<char>) -> Seq<DeviceView> {
    devices.filter(|d: DeviceView| d.config.device_id != local)
}

/// The devices, other than the local one, with which the folder is shared.
pub open spec fn devices_sharing(
    devices: Seq<DeviceView>,
    local: Seq<char>,
    f: FolderConfigurationView,
) -> Seq<DeviceView> {
    devices.filter(
        |d: DeviceView| d.config.device_id != local && folder_shares_with(
            f.devices,
            d.config.device_id,
        ),
    )
}

/// The folders shared with this device.
pub open spec fn folders_with_device(folders: Seq<FolderView>, id: Seq<char>) -> Seq<FolderView> {
    folders.filter(|f: FolderView| folder_shares_with(f.config.devices, id))
}

/// Filtering distributes over push: the kept elements of `s.push(x)` are
/// those of `s`, followed by `x` if it passes.
pub(crate) proof fn lemma_filter_push<V>(s: Seq<V>, x: V, pred: spec_fn(V) -> bool)
    ensures
        s.push(x).filter(pred) == if pred(x) {
            s.filter(pred).push(x)
        } else {
            s.filter(pred)
        },
{
    reveal_with_fuel(Seq::filter, 2);
    assert(s.push(x).drop_last() =~= s);
    assert(s.push(x).last() == x);
}

/// An element of a filtered sequence satisfies the predicate and occurs
/// in the unfiltered sequence.
proof fn lemma_filter_elem<V>(s: Seq<V>, pred: spec_fn(V) -> bool, v: V)
    requires
        s.filter(pred).contains(v),
    ensures
        pred(v),
        s.contains(v),
    decreases s.len(),
{
    reveal_with_fuel(Seq::filter, 2);
    if s.len() > 0 {
        let rest = s.drop_last();
        if pred(s.last()) && v == s.last() {
            assert(s[s.len() - 1] == v);
        } else {
            let f = s.filter(pred);
            let rf = rest.filter(pred);
            assert(f == if pred(s.last()) {
                rf.push(s.last())
            } else {
                rf
            });
            let i = choose|i: int| 0 <= i < f.len() && f[i] == v;
            if pred(s.last()) {
                assert(rf[i] == v);
            }
            assert(rf.contains(v));
            lemma_filter_elem(rest, pred, v);
            let w = choose|w: int| 0 <= w < rest.len() && rest[w] == v;
            assert(s[w] == v);
        }
    } else {
        assert(s.filter(pred).len() == 0);
    }
}

// ---------------------------------------------------------------------------
// The shared view-model.
// ---------------------------------------------------------------------------

/// The merged view-model of the daemon's state: configured folders and
/// devices (with derived status), the pending sets, an append-only log of
/// unhandled events, the shared error slot, and the local device's ID.
///
/// One instance is owned by the shell, behind a single reader/writer lock:
/// readers project from it, and only the reload worker and the event relay
/// write to it.
#[derive(Debug)]
pub struct InnerState {
    pub folders: Vec<Folder>,
    pub devices: Vec<Device>,
    pub pending_folders: Vec<(String, NewFolderConfiguration)>,
    pub pending_devices: Vec<NewDeviceConfiguration>,
    pub events: Vec<Event>,
    pub error: Option<AppError>,
    pub id: String,
}

/// How the device collection changes when the status of the device with
/// this ID is set: the first matching entry takes the new status, every
/// other entry stays; an unknown ID changes nothing.
pub open spec fn devices_status_updated(
    pre: Seq<Device>,
    post: Seq<Device>,
    id: Seq<char>,
    status: DeviceStatus,
) -> bool {
    if has_device(pre, id) {
        exists|k: int|
            {
                &&& #[trigger] is_first_device_match(pre, id, k)
                &&& post.len() == pre.len()
                &&& (forall|m: int| 0 <= m < pre.len() && m != k ==> post[m] == pre[m])
                &&& post[k]@.config == pre[k]@.config
                &&& post[k].connected == status
            }
    } else {
        post == pre
    }
}

/// How the folder collection changes when the completion of the folder
/// with this ID is set.
pub open spec fn folders_completion_updated(
    pre: Seq<Folder>,
    post: Seq<Folder>,
    id: Seq<char>,
    completion: u8,
) -> bool {
    if has_folder(pre, id) {
        exists|k: int|
            {
                &&& #[trigger] is_first_folder_match(pre, id, k)
                &&& post.len() == pre.len()
                &&& (forall|m: int| 0 <= m < pre.len() && m != k ==> post[m] == pre[m])
                &&& post[k]@.config == pre[k]@.config
                &&& post[k].completion == completion
            }
    } else {
        post == pre
    }
}

impl Default for InnerState {
    /// The store starts empty: nothing is known until the first
    /// reconciliation round.
    fn default() -> (r: Self)
        ensures
            r.folders@.len() == 0,
            r.devices@.len() == 0,
            r.pending_folders@.len() == 0,
            r.pending_devices@.len() == 0,
            r.events@.len() == 0,
            r.error is None,
            r.id@.len() == 0,
    {
        InnerState {
            folders: Vec::new(),
            devices: Vec::new(),
            pending_folders: Vec::new(),
            pending_devices: Vec::new(),
            events: Vec::new(),
            error: None,
            id: String::new(),
        }
    }
}

impl InnerState {
    /// The position of the first configured device with this ID, if any.
    pub fn find_device(&self, device_id: &str) -> (r: Option<usize>)
        ensures
            match r {
                Some(k) => is_first_device_match(self.devices@, device_id@, k as int),
                None => !has_device(self.devices@, device_id@),
            },
    {
        let mut i: usize = 0;
        while i < self.devices.len()
            invariant
                i <= self.devices@.len(),
                forall|m: int| 0 <= m < i ==> (#[trigger] self.devices@[m])@.config.device_id
                    != device_id@,
            decreases self.devices@.len() - i,
        {
            if str_eq(self.devices[i].config.device_id.as_str(), device_id) {
                return Some(i);
            }
            i += 1;
        }
        None
    }

    /// The position of the first configured folder with this ID, if any.
    pub fn find_folder(&self, folder_id: &str) -> (r: Option<usize>)
        ensures
            match r {
                Some(k) => is_first_folder_match(self.folders@, folder_id@, k as int),
                None => !has_folder(self.folders@, folder_id@),
            },
    {
        let mut i: usize = 0;
        while i < self.folders.len()
            invariant
                i <= self.folders@.len(),
                forall|m: int| 0 <= m < i ==> (#[trigger] self.folders@[m])@.config.id
                    != folder_id@,
            decreases self.folders@.len() - i,
        {
            if str_eq(self.folders[i].config.id.as_str(), folder_id) {
                return Some(i);
            }
            i += 1;
        }
        None
    }

    /// Get the first configured device with ID `device_id`.
    pub fn get_device(&self, device_id: &str) -> (r: Result<&Device, AppError>)
        ensures
            r is Ok <==> has_device(self.devices@, device_id@),
            r matches Ok(d) ==> exists|k: int|
                #[trigger] is_first_device_match(self.devices@, device_id@, k) && *d
                    == self.devices@[k],
            r matches Err(e) ==> e == AppError::UnknownDevice,
    {
        match self.find_device(device_id) {
            Some(i) => Ok(&self.devices[i]),
            None => Err(AppError::UnknownDevice),
        }
    }

    /// Get the first configured folder with ID `folder_id`.
    pub fn get_folder(&self, folder_id: &str) -> (r: Result<&Folder, AppError>)
        ensures
            r is Ok <==> has_folder(self.folders@, folder_id@),
            r matches Ok(f) ==> exists|k: int|
                #[trigger] is_first_folder_match(self.folders@, folder_id@, k) && *f
                    == self.folders@[k],
            r matches Err(e) ==> e == AppError::UnknownFolder,
    {
        match self.find_folder(folder_id) {
            Some(i) => Ok(&self.folders[i]),
            None => Err(AppError::UnknownFolder),
        }
    }

    /// Get the first pending device with ID `device_id`.
    pub fn get_pending_device(&self, device_id: &str) -> (r: Result<
        &NewDeviceConfiguration,
        AppError,
    >)
        ensures
            r is Ok <==> has_pending_device(self.pending_devices@, device_id@),
            r matches Ok(d) ==> exists|k: int|
                #[trigger] is_first_pending_match(self.pending_devices@, device_id@, k) && *d
                    == self.pending_devices@[k],
            r matches Err(e) ==> e == AppError::UnknownDevice,
    {
        let mut i: usize = 0;
        while i < self.pending_devices.len()
            invariant
                i <= self.pending_devices@.len(),
                forall|m: int| 0 <= m < i ==> (#[trigger] self.pending_devices@[m])@.device_id
                    != device_id@,
            decreases self.pending_devices@.len() - i,
        {
            if str_eq(self.pending_devices[i].get_device_id().as_str(), device_id) {
                proof {
                    assert(is_first_pending_match(self.pending_devices@, device_id@, i as int));
                }
                return Ok(&self.pending_devices[i]);
            }
            i += 1;
        }
        Err(AppError::UnknownDevice)
    }

    /// Record a failure into the shared error slot. The presentation
    /// layer shows a non-empty slot exclusively until a successful
    /// reconciliation round clears it.
    pub fn set_error(&mut self, error: AppError)
        ensures
            final(self).error == Some(error),
            final(self).folders == old(self).folders,
            final(self).devices == old(self).devices,
            final(self).pending_folders == old(self).pending_folders,
            final(self).pending_devices == old(self).pending_devices,
            final(self).events == old(self).events,
            final(self).id == old(self).id,
    {
        self.error = Some(error);
    }

    /// Clear the shared error slot.
    pub fn clear_error(&mut self)
        ensures
            final(self).error is None,
            final(self).folders == old(self).folders,
            final(self).devices == old(self).devices,
            final(self).pending_folders == old(self).pending_folders,
            final(self).pending_devices == old(self).pending_devices,
            final(self).events == old(self).events,
            final(self).id == old(self).id,
    {
        self.error = None;
    }

    /// Set the connection status of the first configured device with this
    /// ID; a status report for an unknown device changes nothing.
    pub fn set_device_status(&mut self, device_id: &str, status: DeviceStatus)
        ensures
            devices_status_updated(old(self).devices@, final(self).devices@, device_id@, status),
            final(self).folders == old(self).folders,
            final(self).pending_folders == old(self).pending_folders,
            final(self).pending_devices == old(self).pending_devices,
            final(self).events == old(self).events,
            final(self).error == old(self).error,
            final(self).id == old(self).id,
    {
        match self.find_device(device_id) {
            Some(i) => {
                let cfg = self.devices[i].config.clone();
                vstd::pervasive::VecAdditionalExecFns::set(
                    &mut self.devices,
                    i,
                    Device { config: cfg, connected: status },
                );
            },
            None => {},
        }
    }

    /// Set the local completion of the first configured folder with this
    /// ID; a report for an unknown folder changes nothing.
    pub fn set_folder_completion(&mut self, folder_id: &str, completion: u8)
        ensures
            folders_completion_updated(old(self).folders@, final(self).folders@, folder_id@, completion),
            final(self).devices == old(self).devices,
            final(self).pending_folders == old(self).pending_folders,
            final(self).pending_devices == old(self).pending_devices,
            final(self).events == old(self).events,
            final(self).error == old(self).error,
            final(self).id == old(self).id,
    {
        match self.find_folder(folder_id) {
            Some(i) => {
                let cfg = self.folders[i].config.clone();
                vstd::pervasive::VecAdditionalExecFns::set(
                    &mut self.folders,
                    i,
                    Folder { config: cfg, completion },
                );
            },
            None => {},
        }
    }
}


/// The pending-device entry built from one snapshot pair.
pub open spec fn pending_device_entry(
    p: (Seq<char>, crate::types::PendingDeviceView),
) -> NewDeviceConfigurationView {
    NewDeviceConfigurationView { device_id: p.0, name: Some(p.1.name) }
}

/// The pending-folder entry built from one flattened offer triple:
/// the offering device, and a folder configuration with the offered ID
/// and label and a placeholder path.
pub open spec fn pending_folder_entry(
    t: (Seq<char>, Seq<char>, crate::types::PendingFolderOffererView),
) -> (Seq<char>, NewFolderConfigurationView) {
    (
        t.1,
        NewFolderConfigurationView {
            id: t.0,
            path: "?"@,
            label: Some(t.2.label),
            devices: Seq::empty(),
        },
    )
}

impl InnerState {
    /// Is some device of the snapshot carrying this ID?
    fn config_contains_device(devices: &Vec<DeviceConfiguration>, id: &str) -> (r: bool)
        ensures
            r == config_has_device(devices.deep_view(), id@),
    {
        let mut j: usize = 0;
        while j < devices.len()
            invariant
                j <= devices@.len(),
                forall|m: int| 0 <= m < j ==> (#[trigger] devices.deep_view()[m]).device_id != id@,
            decreases devices@.len() - j,
        {
            proof {
                lemma_dv_seq_vec(devices);
                lemma_dv_index(devices@, j as int);
            }
            if str_eq(devices[j].device_id.as_str(), id) {
                proof {
                    assert(devices.deep_view()[j as int].device_id == id@);
                }
                return true;
            }
            j += 1;
        }
        proof {
            lemma_dv_seq_vec(devices);
        }
        false
    }

    /// Merge a full configuration snapshot: folders and devices are
    /// replaced wholesale by the snapshot (which is authoritative), while
    /// the derived connection status and completion are carried over by
    /// ID. Pending devices that the snapshot has configured leave the
    /// pending set.
    pub fn update_from_configuration(&mut self, configuration: Configuration)
        ensures
            final(self).devices@.len() == configuration.devices@.len(),
            forall|i: int|
                0 <= i < configuration.devices@.len() ==> {
                    &&& (#[trigger] final(self).devices@[i])@.config
                        == configuration.devices.deep_view()[i]
                    &&& preserved_status(
                        old(self).devices@,
                        configuration.devices.deep_view()[i].device_id,
                        final(self).devices@[i].connected,
                    )
                },
            final(self).folders@.len() == configuration.folders@.len(),
            forall|i: int|
                0 <= i < configuration.folders@.len() ==> {
                    &&& (#[trigger] final(self).folders@[i])@.config
                        == configuration.folders.deep_view()[i]
                    &&& preserved_completion(
                        old(self).folders@,
                        configuration.folders.deep_view()[i].id,
                        final(self).folders@[i].completion,
                    )
                },
            dv_seq(final(self).pending_devices@) == prune_pending(
                dv_seq(old(self).pending_devices@),
                configuration.devices.deep_view(),
            ),
            final(self).pending_folders == old(self).pending_folders,
            final(self).events == old(self).events,
            final(self).error == old(self).error,
            final(self).id == old(self).id,
    {
        let ghost cfg_devices = configuration.devices.deep_view();
        let ghost cfg_folders = configuration.folders.deep_view();
        proof {
            lemma_dv_seq_vec(&configuration.devices);
            lemma_dv_seq_vec(&configuration.folders);
        }

        let mut new_devices: Vec<Device> = Vec::new();
        for i in 0..configuration.devices.len()
            invariant
                cfg_devices == configuration.devices.deep_view(),
                cfg_devices == dv_seq(configuration.devices@),
                new_devices@.len() == i,
                forall|k: int|
                    0 <= k < i ==> {
                        &&& (#[trigger] new_devices@[k])@.config == cfg_devices[k]
                        &&& preserved_status(
                            self.devices@,
                            cfg_devices[k].device_id,
                            new_devices@[k].connected,
                        )
                    },
        {
            let cfg = configuration.devices[i].clone();
            let st = match self.find_device(cfg.device_id.as_str()) {
                Some(k) => self.devices[k].connected,
                None => DeviceStatus::Disconnected,
            };
            proof {
                lemma_dv_index(configuration.devices@, i as int);
                assert(cfg@ == cfg_devices[i as int]);
                assert(preserved_status(self.devices@, cfg_devices[i as int].device_id, st));
            }
            new_devices.push(Device { config: cfg, connected: st });
        }

        let mut new_folders: Vec<Folder> = Vec::new();
        for i in 0..configuration.folders.len()
            invariant
                cfg_folders == configuration.folders.deep_view(),
                cfg_folders == dv_seq(configuration.folders@),
                new_folders@.len() == i,
                forall|k: int|
                    0 <= k < i ==> {
                        &&& (#[trigger] new_folders@[k])@.config == cfg_folders[k]
                        &&& preserved_completion(
                            self.folders@,
                            cfg_folders[k].id,
                            new_folders@[k].completion,
                        )
                    },
        {
            let cfg = configuration.folders[i].clone();
            let c = match self.find_folder(cfg.id.as_str()) {
                Some(k) => self.folders[k].completion,
                None => 100,
            };
            proof {
                lemma_dv_index(configuration.folders@, i as int);
                assert(cfg@ == cfg_folders[i as int]);
                assert(preserved_completion(self.folders@, cfg_folders[i as int].id, c));
            }
            new_folders.push(Folder { config: cfg, completion: c });
        }

        let mut new_pending: Vec<NewDeviceConfiguration> = Vec::new();
        let ghost old_pending = dv_seq(self.pending_devices@);
        for i in 0..self.pending_devices.len()
            invariant
                cfg_devices == configuration.devices.deep_view(),
                old_pending == dv_seq(self.pending_devices@),
                old_pending.len() == self.pending_devices@.len(),
                dv_seq(new_pending@) == prune_pending(old_pending.take(i as int), cfg_devices),
        {
            proof {
                lemma_dv_index(self.pending_devices@, i as int);
                assert(old_pending.take(i + 1).drop_last() =~= old_pending.take(i as int));
                assert(old_pending.take(i as int).push(old_pending[i as int]) =~= old_pending.take(
                    i + 1,
                ));
                lemma_filter_push(
                    old_pending.take(i as int),
                    old_pending[i as int],
                    |v: NewDeviceConfigurationView| !config_has_device(cfg_devices, v.device_id),
                );
            }
            let pd = &self.pending_devices[i];
            if !Self::config_contains_device(&configuration.devices, pd.get_device_id().as_str()) {
                let ghost prev = new_pending@;
                new_pending.push(pd.clone());
                proof {
                    crate::types::lemma_dv_push(prev, new_pending@[new_pending@.len() - 1]);
                }
            }
        }
        proof {
            assert(old_pending.take(old_pending.len() as int) =~= old_pending);
        }

        self.devices = new_devices;
        self.folders = new_folders;
        self.pending_devices = new_pending;
    }

    /// Replace the pending-device set wholesale from a fetched snapshot:
    /// each (ID, details) pair becomes one pending entry carrying the
    /// declared name.
    pub fn set_pending_devices(&mut self, pending_devices: crate::types::PendingDevices)
        ensures
            dv_seq(final(self).pending_devices@) == pending_devices.devices.deep_view().map_values(
                |p: (Seq<char>, crate::types::PendingDeviceView)| pending_device_entry(p),
            ),
            final(self).folders == old(self).folders,
            final(self).devices == old(self).devices,
            final(self).pending_folders == old(self).pending_folders,
            final(self).events == old(self).events,
            final(self).error == old(self).error,
            final(self).id == old(self).id,
    {
        let ghost src = pending_devices.devices.deep_view();
        let ghost target = src.map_values(
            |p: (Seq<char>, crate::types::PendingDeviceView)| pending_device_entry(p),
        );
        proof {
            lemma_dv_seq_vec(&pending_devices.devices);
        }
        let mut new_pending: Vec<NewDeviceConfiguration> = Vec::new();
        for i in 0..pending_devices.devices.len()
            invariant
                src == pending_devices.devices.deep_view(),
                src == dv_seq(pending_devices.devices@),
                target == src.map_values(
                    |p: (Seq<char>, crate::types::PendingDeviceView)| pending_device_entry(p),
                ),
                dv_seq(new_pending@) == target.take(i as int),
        {
            let (device_id, device) = &pending_devices.devices[i];
            let entry = NewDeviceConfiguration::new(device_id.clone()).name(device.name.clone());
            let ghost prev = new_pending@;
            new_pending.push(entry);
            proof {
                crate::types::lemma_dv_push(prev, new_pending@[new_pending@.len() - 1]);
                lemma_dv_index(pending_devices.devices@, i as int);
                assert(new_pending@[new_pending@.len() - 1]@ == target[i as int]);
                assert(target.take(i as int).push(target[i as int]) =~= target.take(i + 1));
            }
        }
        proof {
            assert(target.take(target.len() as int) =~= target);
        }
        self.pending_devices = new_pending;
    }

    /// Replace the pending-folder set wholesale from a fetched snapshot:
    /// each offer becomes one (offering device, folder) entry, with a
    /// placeholder path since the offer does not carry one.
    pub fn set_pending_folders(&mut self, pending_folders: crate::types::PendingFolders)
        ensures
            dv_seq(final(self).pending_folders@) == pending_folders.spec_offers().map_values(
                |t: (Seq<char>, Seq<char>, crate::types::PendingFolderOffererView)|
                    pending_folder_entry(t),
            ),
            final(self).folders == old(self).folders,
            final(self).devices == old(self).devices,
            final(self).pending_devices == old(self).pending_devices,
            final(self).events == old(self).events,
            final(self).error == old(self).error,
            final(self).id == old(self).id,
    {
        let offers = pending_folders.get_sorted();
        let ghost src = offers.deep_view();
        let ghost target = src.map_values(
            |t: (Seq<char>, Seq<char>, crate::types::PendingFolderOffererView)|
                pending_folder_entry(t),
        );
        proof {
            lemma_dv_seq_vec(&offers);
        }
        let mut new_pending: Vec<(String, NewFolderConfiguration)> = Vec::new();
        for i in 0..offers.len()
            invariant
                src == offers.deep_view(),
                src == dv_seq(offers@),
                src == pending_folders.spec_offers(),
                target == src.map_values(
                    |t: (Seq<char>, Seq<char>, crate::types::PendingFolderOffererView)|
                        pending_folder_entry(t),
                ),
                dv_seq(new_pending@) == target.take(i as int),
        {
            let (folder_id, device_id, offer) = &offers[i];
            let entry = (
                device_id.clone(),
                NewFolderConfiguration::new(folder_id.clone(), String::from_str("?")).label(
                    offer.label.clone(),
                ),
            );
            let ghost prev = new_pending@;
            new_pending.push(entry);
            proof {
                crate::types::lemma_dv_push(prev, new_pending@[new_pending@.len() - 1]);
                lemma_dv_index(offers@, i as int);
                assert(new_pending@[new_pending@.len() - 1].deep_view() == target[i as int]);
                assert(target.take(i as int).push(target[i as int]) =~= target.take(i + 1));
            }
        }
        proof {
            assert(target.take(target.len() as int) =~= target);
        }
        self.pending_folders = new_pending;
    }
}


impl InnerState {
    /// All configured devices, sorted by case-folded name.
    pub fn get_devices(&self) -> (r: Vec<Device>)
        ensures
            dv_seq(r@).to_multiset() == dv_seq(self.devices@).to_multiset(),
            sorted_le::<Device>(dv_seq(r@)),
    {
        let mut copy: Vec<Device> = Vec::new();
        let ghost src = dv_seq(self.devices@);
        for i in 0..self.devices.len()
            invariant
                src == dv_seq(self.devices@),
                dv_seq(copy@) == src.take(i as int),
        {
            let ghost prev = copy@;
            copy.push(self.devices[i].clone());
            proof {
                crate::types::lemma_dv_push(prev, copy@[copy@.len() - 1]);
                lemma_dv_index(self.devices@, i as int);
                assert(src.take(i as int).push(src[i as int]) =~= src.take(i + 1));
            }
        }
        proof {
            assert(src.take(src.len() as int) =~= src);
        }
        sort_by_order(copy)
    }

    /// All configured devices except the local one, sorted by
    /// case-folded name.
    pub fn get_other_devices(&self) -> (r: Vec<Device>)
        ensures
            dv_seq(r@).to_multiset() == other_devices(dv_seq(self.devices@), self.id@).to_multiset(),
            sorted_le::<Device>(dv_seq(r@)),
            forall|k: int| 0 <= k < r@.len() ==> (#[trigger] dv_seq(r@)[k]).config.device_id
                != self.id@,
    {
        broadcast use vstd::seq_lib::group_to_multiset_ensures;

        let mut kept: Vec<Device> = Vec::new();
        let ghost src = dv_seq(self.devices@);
        for i in 0..self.devices.len()
            invariant
                src == dv_seq(self.devices@),
                dv_seq(kept@) == other_devices(src.take(i as int), self.id@),
        {
            proof {
                lemma_dv_index(self.devices@, i as int);
                assert(src.take(i as int).push(src[i as int]) =~= src.take(i + 1));
                lemma_filter_push(
                    src.take(i as int),
                    src[i as int],
                    |d: DeviceView| d.config.device_id != self.id@,
                );
            }
            if !str_eq(self.devices[i].config.device_id.as_str(), self.id.as_str()) {
                let ghost prev = kept@;
                kept.push(self.devices[i].clone());
                proof {
                    crate::types::lemma_dv_push(prev, kept@[kept@.len() - 1]);
                }
            }
        }
        proof {
            assert(src.take(src.len() as int) =~= src);
        }
        let r = sort_by_order(kept);
        proof {
            assert forall|k: int| 0 <= k < r@.len() implies (#[trigger] dv_seq(r@)[k]).config.device_id
                != self.id@ by {
                let v = dv_seq(r@)[k];
                assert(dv_seq(r@).contains(v));
                assert(dv_seq(r@).to_multiset().count(v) > 0);
                assert(other_devices(src, self.id@).to_multiset().count(v) > 0);
                assert(other_devices(src, self.id@).contains(v));
                lemma_filter_elem(src, |d: DeviceView| d.config.device_id != self.id@, v);
            }
        }
        r
    }

    /// All configured folders, sorted by case-folded label.
    pub fn get_folders(&self) -> (r: Vec<Folder>)
        ensures
            dv_seq(r@).to_multiset() == dv_seq(self.folders@).to_multiset(),
            sorted_le::<Folder>(dv_seq(r@)),
    {
        let mut copy: Vec<Folder> = Vec::new();
        let ghost src = dv_seq(self.folders@);
        for i in 0..self.folders.len()
            invariant
                src == dv_seq(self.folders@),
                dv_seq(copy@) == src.take(i as int),
        {
            let ghost prev = copy@;
            copy.push(self.folders[i].clone());
            proof {
                crate::types::lemma_dv_push(prev, copy@[copy@.len() - 1]);
                lemma_dv_index(self.folders@, i as int);
                assert(src.take(i as int).push(src[i as int]) =~= src.take(i + 1));
            }
        }
        proof {
            assert(src.take(src.len() as int) =~= src);
        }
        sort_by_order(copy)
    }

    /// All pending devices, sorted by declared name.
    pub fn get_pending_devices(&self) -> (r: Vec<NewDeviceConfiguration>)
        ensures
            dv_seq(r@).to_multiset() == dv_seq(self.pending_devices@).to_multiset(),
            sorted_le::<NewDeviceConfiguration>(dv_seq(r@)),
    {
        let mut copy: Vec<NewDeviceConfiguration> = Vec::new();
        let ghost src = dv_seq(self.pending_devices@);
        for i in 0..self.pending_devices.len()
            invariant
                src == dv_seq(self.pending_devices@),
                dv_seq(copy@) == src.take(i as int),
        {
            let ghost prev = copy@;
            copy.push(self.pending_devices[i].clone());
            proof {
                crate::types::lemma_dv_push(prev, copy@[copy@.len() - 1]);
                lemma_dv_index(self.pending_devices@, i as int);
                assert(src.take(i as int).push(src[i as int]) =~= src.take(i + 1));
            }
        }
        proof {
            assert(src.take(src.len() as int) =~= src);
        }
        sort_by_order(copy)
    }

    /// All pending folder offers, as (offering device, folder) pairs,
    /// sorted by offered label.
    pub fn get_pending_folders(&self) -> (r: Vec<(String, NewFolderConfiguration)>)
        ensures
            dv_seq(r@).to_multiset() == dv_seq(self.pending_folders@).to_multiset(),
            sorted_le::<(String, NewFolderConfiguration)>(dv_seq(r@)),
    {
        let mut copy: Vec<(String, NewFolderConfiguration)> = Vec::new();
        let ghost src = dv_seq(self.pending_folders@);
        for i in 0..self.pending_folders.len()
            invariant
                src == dv_seq(self.pending_folders@),
                dv_seq(copy@) == src.take(i as int),
        {
            let ghost prev = copy@;
            let (device_id, folder) = &self.pending_folders[i];
            copy.push((device_id.clone(), folder.clone()));
            proof {
                crate::types::lemma_dv_push(prev, copy@[copy@.len() - 1]);
                lemma_dv_index(self.pending_folders@, i as int);
                assert(copy@[copy@.len() - 1].deep_view() == src[i as int]);
                assert(src.take(i as int).push(src[i as int]) =~= src.take(i + 1));
            }
        }
        proof {
            assert(src.take(src.len() as int) =~= src);
        }
        sort_by_order(copy)
    }

    /// Is the folder with this configuration shared with `device_id`?
    fn folder_contains_device(devices: &Vec<crate::types::FolderDevice>, device_id: &str) -> (r:
        bool)
        ensures
            r == folder_shares_with(devices.deep_view(), device_id@),
    {
        let mut j: usize = 0;
        while j < devices.len()
            invariant
                j <= devices@.len(),
                forall|m: int| 0 <= m < j ==> (#[trigger] devices.deep_view()[m]).device_id
                    != device_id@,
            decreases devices@.len() - j,
        {
            proof {
                lemma_dv_seq_vec(devices);
                lemma_dv_index(devices@, j as int);
            }
            if str_eq(devices[j].device_id.as_str(), device_id) {
                proof {
                    assert(devices.deep_view()[j as int].device_id == device_id@);
                }
                return true;
            }
            j += 1;
        }
        proof {
            lemma_dv_seq_vec(devices);
        }
        false
    }

    /// All devices, other than the local one, with which the first folder
    /// carrying `folder_id` is shared, sorted by case-folded name.
    pub fn get_devices_sharing_folder(&self, folder_id: &str) -> (r: Result<Vec<Device>, AppError>)
        ensures
            r is Ok <==> has_folder(self.folders@, folder_id@),
            r matches Err(e) ==> e == AppError::UnknownFolder,
            r matches Ok(v) ==> exists|k: int|
                {
                    &&& #[trigger] is_first_folder_match(self.folders@, folder_id@, k)
                    &&& dv_seq(v@).to_multiset() == devices_sharing(
                        dv_seq(self.devices@),
                        self.id@,
                        self.folders@[k]@.config,
                    ).to_multiset()
                    &&& sorted_le::<Device>(dv_seq(v@))
                },
    {
        let f = match self.find_folder(folder_id) {
            Some(k) => k,
            None => {
                return Err(AppError::UnknownFolder);
            },
        };
        let ghost fview = self.folders@[f as int]@.config;
        let mut kept: Vec<Device> = Vec::new();
        let ghost src = dv_seq(self.devices@);
        for i in 0..self.devices.len()
            invariant
                0 <= f < self.folders@.len(),
                fview == self.folders@[f as int]@.config,
                src == dv_seq(self.devices@),
                dv_seq(kept@) == devices_sharing(src.take(i as int), self.id@, fview),
        {
            proof {
                lemma_dv_index(self.devices@, i as int);
                assert(src.take(i as int).push(src[i as int]) =~= src.take(i + 1));
                lemma_filter_push(
                    src.take(i as int),
                    src[i as int],
                    |d: DeviceView| d.config.device_id != self.id@ && folder_shares_with(
                        fview.devices,
                        d.config.device_id,
                    ),
                );
                assert(self.folders@[f as int].config.devices.deep_view() == fview.devices);
            }
            let d = &self.devices[i];
            if !str_eq(d.config.device_id.as_str(), self.id.as_str())
                && Self::folder_contains_device(
                &self.folders[f].config.devices,
                d.config.device_id.as_str(),
            ) {
                let ghost prev = kept@;
                kept.push(d.clone());
                proof {
                    crate::types::lemma_dv_push(prev, kept@[kept@.len() - 1]);
                }
            }
        }
        proof {
            assert(src.take(src.len() as int) =~= src);
        }
        let r = sort_by_order(kept);
        proof {
            assert(is_first_folder_match(self.folders@, folder_id@, f as int));
        }
        Ok(r)
    }

    /// All folders shared with `device_id`, sorted by case-folded label.
    /// Whether the device itself is configured is not checked.
    pub fn get_device_folders(&self, device_id: &str) -> (r: Vec<Folder>)
        ensures
            dv_seq(r@).to_multiset() == folders_with_device(
                dv_seq(self.folders@),
                device_id@,
            ).to_multiset(),
            sorted_le::<Folder>(dv_seq(r@)),
    {
        let mut kept: Vec<Folder> = Vec::new();
        let ghost src = dv_seq(self.folders@);
        for i in 0..self.folders.len()
            invariant
                src == dv_seq(self.folders@),
                dv_seq(kept@) == folders_with_device(src.take(i as int), device_id@),
        {
            proof {
                lemma_dv_index(self.folders@, i as int);
                assert(src.take(i as int).push(src[i as int]) =~= src.take(i + 1));
                lemma_filter_push(
                    src.take(i as int),
                    src[i as int],
                    |f: FolderView| folder_shares_with(f.config.devices, device_id@),
                );
                assert(self.folders@[i as int].config.devices.deep_view() == src[i as int].config.devices);
            }
            if Self::folder_contains_device(&self.folders[i].config.devices, device_id) {
                let ghost prev = kept@;
                kept.push(self.folders[i].clone());
                proof {
                    crate::types::lemma_dv_push(prev, kept@[kept@.len() - 1]);
                }
            }
        }
        proof {
            assert(src.take(src.len() as int) =~= src);
        }
        sort_by_order(kept)
    }
}

} // verus!
