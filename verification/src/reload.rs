use vstd::prelude::*;

use crate::error::AppError;
use crate::state::devices_status_updated;
use crate::state::folders_completion_updated;
use crate::state::has_device;
use crate::state::is_first_device_match;
use crate::state::preserved_completion;
use crate::state::preserved_status;
use crate::state::prune_pending;
use crate::state::DeviceStatus;
use crate::state::InnerState;
use crate::types::dv_seq;
use crate::types::Completion;
use crate::types::Configuration;
use crate::types::Connection;
use crate::types::Connections;
use crate::types::PendingDevices;
use crate::types::PendingFolders;

verus! {

/// One reconciliation job: which category of daemon state to re-fetch
/// and merge. Jobs are processed strictly in enqueue order, one at a
/// time.
#[derive(Debug, Clone, PartialEq, Eq)]
pub enum Reload {
    ID,
    Configuration,
    PendingDevices,
    PendingFolders,
    Connections,
    Completion { folder_id: Option<String>, device_id: Option<String> },
}

/// What one gateway fetch produced: the snapshot for the job's category,
/// or the error the call failed with.
#[derive(Debug, PartialEq, Eq)]
pub enum FetchResult {
    Id(String),
    Configuration(Configuration),
    PendingDevices(PendingDevices),
    PendingFolders(PendingFolders),
    Connections(Connections),
    Completion(Completion),
    Failed(AppError),
}

/// The fetch produced a snapshot of the category the job asked for, or
/// failed.
pub open spec fn result_matches(job: Reload, result: FetchResult) -> bool {
    match result {
        FetchResult::Id(_) => job is ID,
        FetchResult::Configuration(_) => job is Configuration,
        FetchResult::PendingDevices(_) => job is PendingDevices,
        FetchResult::PendingFolders(_) => job is PendingFolders,
        FetchResult::Connections(_) => job is Connections,
        FetchResult::Completion(_) => job is Completion,
        FetchResult::Failed(_) => true,
    }
}

/// The device status a completion percentage implies: fully synchronized
/// at (or above) one hundred percent, otherwise still syncing.
pub open spec fn status_of_completion(c: u8) -> DeviceStatus {
    if c >= 100 {
        DeviceStatus::UpToDate
    } else {
        DeviceStatus::Syncing(c)
    }
}

/// How a full configuration merge relates the store before and after:
/// folders and devices are replaced wholesale, derived fields carried
/// over by ID, newly configured devices leave the pending set, and a
/// successful round clears the error slot.
pub open spec fn config_merged(pre: InnerState, post: InnerState, c: Configuration) -> bool {
    &&& post.devices@.len() == c.devices@.len()
    &&& (forall|i: int|
        0 <= i < c.devices@.len() ==> {
            &&& (#[trigger] post.devices@[i])@.config == c.devices.deep_view()[i]
            &&& preserved_status(
                pre.devices@,
                c.devices.deep_view()[i].device_id,
                post.devices@[i].connected,
            )
        })
    &&& post.folders@.len() == c.folders@.len()
    &&& (forall|i: int|
        0 <= i < c.folders@.len() ==> {
            &&& (#[trigger] post.folders@[i])@.config == c.folders.deep_view()[i]
            &&& preserved_completion(
                pre.folders@,
                c.folders.deep_view()[i].id,
                post.folders@[i].completion,
            )
        })
    &&& dv_seq(post.pending_devices@) == prune_pending(
        dv_seq(pre.pending_devices@),
        c.devices.deep_view(),
    )
    &&& post.pending_folders == pre.pending_folders
    &&& post.events == pre.events
    &&& post.error is None
    &&& post.id == pre.id
}

/// How a pending-devices merge relates the store before and after: the
/// pending-device set is replaced wholesale by the snapshot.
pub open spec fn pending_devices_merged(
    pre: InnerState,
    post: InnerState,
    p: PendingDevices,
) -> bool {
    &&& dv_seq(post.pending_devices@) == p.devices.deep_view().map_values(
        |q: (Seq<char>, crate::types::PendingDeviceView)| crate::state::pending_device_entry(q),
    )
    &&& post.folders == pre.folders
    &&& post.devices == pre.devices
    &&& post.pending_folders == pre.pending_folders
    &&& post.events == pre.events
    &&& post.error is None
    &&& post.id == pre.id
}

/// How a pending-folders merge relates the store before and after: the
/// pending-offer set is replaced wholesale by the snapshot's flattened
/// offers.
pub open spec fn pending_folders_merged(
    pre: InnerState,
    post: InnerState,
    p: PendingFolders,
) -> bool {
    &&& dv_seq(post.pending_folders@) == p.spec_offers().map_values(
        |t: (Seq<char>, Seq<char>, crate::types::PendingFolderOffererView)|
            crate::state::pending_folder_entry(t),
    )
    &&& post.folders == pre.folders
    &&& post.devices == pre.devices
    &&& post.pending_devices == pre.pending_devices
    &&& post.events == pre.events
    &&& post.error is None
    &&& post.id == pre.id
}

/// Some connection entry names this device.
pub open spec fn conns_name(cs: Seq<(Seq<char>, Connection)>, id: Seq<char>) -> bool {
    exists|k: int| 0 <= k < cs.len() && (#[trigger] cs[k]).0 == id
}

/// No entry after position `j` names the same device again.
pub open spec fn conns_last_entry(cs: Seq<(Seq<char>, Connection)>, j: int) -> bool {
    forall|m: int| j < m < cs.len() ==> (#[trigger] cs[m]).0 != cs[j].0
}

/// The status a connection entry implies.
pub open spec fn conn_status(c: Connection) -> DeviceStatus {
    if c.connected {
        DeviceStatus::UpToDate
    } else {
        DeviceStatus::Disconnected
    }
}

/// How a connections merge relates the store before and after: device
/// configurations are untouched; a device not named by the snapshot
/// keeps its entry; a configured device named by the snapshot gets the
/// status its last entry implies (up to date when connected, else
/// disconnected).
pub open spec fn connections_merged(pre: InnerState, post: InnerState, cs: Connections) -> bool {
    let cv = cs.connections.deep_view();
    &&& post.devices@.len() == pre.devices@.len()
    &&& (forall|i: int|
        0 <= i < pre.devices@.len() ==> (#[trigger] post.devices@[i])@.config
            == pre.devices@[i]@.config)
    &&& (forall|i: int|
        0 <= i < pre.devices@.len() && !conns_name(cv, pre.devices@[i]@.config.device_id)
            ==> (#[trigger] post.devices@[i]) == pre.devices@[i])
    &&& (forall|j: int|
        #![trigger cv[j]]
        0 <= j < cv.len() && conns_last_entry(cv, j) && has_device(pre.devices@, cv[j].0)
            ==> exists|k: int|
            {
                &&& #[trigger] is_first_device_match(pre.devices@, cv[j].0, k)
                &&& post.devices@[k].connected == conn_status(cv[j].1)
            })
    &&& post.folders == pre.folders
    &&& post.pending_folders == pre.pending_folders
    &&& post.pending_devices == pre.pending_devices
    &&& post.events == pre.events
    &&& post.error is None
    &&& post.id == pre.id
}

/// How a completion merge relates the store before and after, depending
/// on the job's scope: a device-scoped report sets that device's status,
/// a folder-scoped report sets that folder's completion, an unscoped
/// report changes nothing.
pub open spec fn completion_merged(
    pre: InnerState,
    post: InnerState,
    job: Reload,
    c: Completion,
) -> bool {
    match job {
        Reload::Completion { folder_id, device_id } => {
            &&& (match device_id {
                Some(d) => {
                    &&& devices_status_updated(
                        pre.devices@,
                        post.devices@,
                        d@,
                        status_of_completion(c.completion),
                    )
                    &&& post.folders == pre.folders
                },
                None => {
                    match folder_id {
                        Some(f) => {
                            &&& folders_completion_updated(
                                pre.folders@,
                                post.folders@,
                                f@,
                                c.completion,
                            )
                            &&& post.devices == pre.devices
                        },
                        None => {
                            &&& post.devices == pre.devices
                            &&& post.folders == pre.folders
                        },
                    }
                },
            })
            &&& post.pending_folders == pre.pending_folders
            &&& post.pending_devices == pre.pending_devices
            &&& post.events == pre.events
            &&& post.error is None
            &&& post.id == pre.id
        },
        _ => false,
    }
}

/// How one reconciliation job's merge relates the store before and
/// after, for every possible fetch outcome. This is the transition
/// relation of the reload worker.
pub open spec fn reload_step(
    pre: InnerState,
    job: Reload,
    result: FetchResult,
    post: InnerState,
) -> bool {
    match result {
        FetchResult::Failed(e) => {
            &&& post.folders == pre.folders
            &&& post.devices == pre.devices
            &&& post.pending_folders == pre.pending_folders
            &&& post.pending_devices == pre.pending_devices
            &&& post.events == pre.events
            &&& post.error == Some(e)
            &&& post.id == pre.id
        },
        FetchResult::Id(id) => {
            &&& post.folders == pre.folders
            &&& post.devices == pre.devices
            &&& post.pending_folders == pre.pending_folders
            &&& post.pending_devices == pre.pending_devices
            &&& post.events == pre.events
            &&& post.error is None
            &&& post.id == id
        },
        FetchResult::Configuration(c) => config_merged(pre, post, c),
        FetchResult::PendingDevices(p) => pending_devices_merged(pre, post, p),
        FetchResult::PendingFolders(p) => pending_folders_merged(pre, post, p),
        FetchResult::Connections(cs) => connections_merged(pre, post, cs),
        FetchResult::Completion(c) => completion_merged(pre, post, job, c),
    }
}

/// The connection entries that schedule a completion follow-up: those
/// naming a connected, configured device.
pub open spec fn wanted_completions(
    pre_devices: Seq<crate::state::Device>,
    cv: Seq<(Seq<char>, Connection)>,
) -> Seq<(Seq<char>, Connection)> {
    cv.filter(|p: (Seq<char>, Connection)| p.1.connected && has_device(pre_devices, p.0))
}

/// The follow-up jobs one merge schedules: a fresh configuration
/// invalidates connection and completion data, so it enqueues one
/// connections reload and one completion reload per returned folder; a
/// connections merge enqueues one completion reload per device that is
/// connected and configured; nothing else schedules follow-ups.
pub open spec fn follow_ups_ok(
    pre: InnerState,
    result: FetchResult,
    follow: Seq<Reload>,
) -> bool {
    match result {
        FetchResult::Configuration(c) => {
            &&& follow.len() == 1 + c.folders@.len()
            &&& follow[0] is Connections
            &&& (forall|i: int|
                0 <= i < c.folders@.len() ==> {
                    &&& (#[trigger] follow[i + 1]) matches Reload::Completion {
                        folder_id: Some(fid),
                        device_id: None,
                    }
                    &&& (match follow[i + 1] {
                        Reload::Completion { folder_id: Some(fid), .. } => fid@
                            == c.folders.deep_view()[i].id,
                        _ => false,
                    })
                })
        },
        FetchResult::Connections(cs) => {
            let wanted = wanted_completions(pre.devices@, cs.connections.deep_view());
            &&& follow.len() == wanted.len()
            &&& (forall|i: int|
                0 <= i < wanted.len() ==> (match #[trigger] follow[i] {
                    Reload::Completion { folder_id: None, device_id: Some(d) } => d@
                        == wanted[i].0,
                    _ => false,
                }))
        },
        _ => follow.len() == 0,
    }
}


/// Two device collections with pointwise equal configurations answer
/// every lookup alike.
proof fn lemma_same_id_lookup(a: Seq<crate::state::Device>, b: Seq<crate::state::Device>, id: Seq<char>)
    requires
        a.len() == b.len(),
        forall|i: int| 0 <= i < a.len() ==> (#[trigger] a[i])@.config == b[i]@.config,
    ensures
        has_device(a, id) == has_device(b, id),
        forall|k: int|
            #[trigger] is_first_device_match(a, id, k) == is_first_device_match(b, id, k),
{
    assert forall|k: int|
        #[trigger] is_first_device_match(a, id, k) == is_first_device_match(b, id, k) by {
        if is_first_device_match(a, id, k) {
            assert(b[k]@.config == a[k]@.config);
            assert forall|m: int| 0 <= m < k implies (#[trigger] b[m])@.config.device_id != id by {
                assert(a[m]@.config == b[m]@.config);
            }
        }
        if is_first_device_match(b, id, k) {
            assert(a[k]@.config == b[k]@.config);
            assert forall|m: int| 0 <= m < k implies (#[trigger] a[m])@.config.device_id != id by {
                assert(a[m]@.config == b[m]@.config);
            }
        }
    }
    if has_device(a, id) {
        let k = choose|k: int| 0 <= k < a.len() && (#[trigger] a[k])@.config.device_id == id;
        assert(b[k]@.config.device_id == id);
    }
    if has_device(b, id) {
        let k = choose|k: int| 0 <= k < b.len() && (#[trigger] b[k])@.config.device_id == id;
        assert(a[k]@.config.device_id == id);
    }
}

/// The wanted follow-ups of a prefix grow by one exactly when the next
/// entry names a connected, configured device.
proof fn lemma_wanted_push(
    pre_devices: Seq<crate::state::Device>,
    cv: Seq<(Seq<char>, Connection)>,
    x: (Seq<char>, Connection),
)
    ensures
        wanted_completions(pre_devices, cv.push(x)) == if x.1.connected && has_device(
            pre_devices,
            x.0,
        ) {
            wanted_completions(pre_devices, cv).push(x)
        } else {
            wanted_completions(pre_devices, cv)
        },
{
    reveal_with_fuel(Seq::filter, 2);
    assert(cv.push(x).drop_last() =~= cv);
    assert(cv.push(x).last() == x);
}

/// Perform the merge of one reconciliation job, given what its gateway
/// fetch produced, and return the follow-up jobs to enqueue. A failed
/// fetch stores the error; a successful merge clears it. The shell runs
/// this under the store's write lock and emits one view-changed
/// notification afterwards, whatever the outcome.
pub fn apply_reload(state: &mut InnerState, job: Reload, result: FetchResult) -> (follow: Vec<
    Reload,
>)
    requires
        result_matches(job, result),
        !(job matches Reload::Completion { folder_id: Some(_), device_id: Some(_) }),
    ensures
        reload_step(*old(state), job, result, *final(state)),
        follow_ups_ok(*old(state), result, follow@),
{
    match result {
        FetchResult::Failed(e) => {
            state.error = Some(e);
            Vec::new()
        },
        FetchResult::Id(id) => {
            state.id = id;
            state.error = None;
            Vec::new()
        },
        FetchResult::Configuration(c) => {
            let mut follow: Vec<Reload> = Vec::new();
            follow.push(Reload::Connections);
            let ghost cfg_folders = c.folders.deep_view();
            proof {
                crate::types::lemma_dv_seq_vec(&c.folders);
            }
            for i in 0..c.folders.len()
                invariant
                    cfg_folders == c.folders.deep_view(),
                    cfg_folders == dv_seq(c.folders@),
                    follow@.len() == 1 + i,
                    follow@[0] is Connections,
                    forall|k: int|
                        0 <= k < i ==> (match #[trigger] follow@[k + 1] {
                            Reload::Completion { folder_id: Some(fid), device_id: None } => fid@
                                == cfg_folders[k].id,
                            _ => false,
                        }),
            {
                proof {
                    crate::types::lemma_dv_index(c.folders@, i as int);
                }
                follow.push(
                    Reload::Completion { folder_id: Some(c.folders[i].id.clone()), device_id: None },
                );
            }
            state.update_from_configuration(c);
            state.error = None;
            follow
        },
        FetchResult::PendingDevices(p) => {
            state.set_pending_devices(p);
            state.error = None;
            Vec::new()
        },
        FetchResult::PendingFolders(p) => {
            state.set_pending_folders(p);
            state.error = None;
            Vec::new()
        },
        FetchResult::Connections(cs) => {
            let ghost pre = *state;
            let ghost cv = cs.connections.deep_view();
            proof {
                crate::types::lemma_dv_seq_vec(&cs.connections);
            }
            let mut follow: Vec<Reload> = Vec::new();
            for t in 0..cs.connections.len()
                invariant
                    cv == cs.connections.deep_view(),
                    cv == dv_seq(cs.connections@),
                    state.devices@.len() == pre.devices@.len(),
                    forall|i: int|
                        0 <= i < pre.devices@.len() ==> (#[trigger] state.devices@[i])@.config
                            == pre.devices@[i]@.config,
                    forall|i: int|
                        0 <= i < pre.devices@.len() && !conns_name(
                            cv.take(t as int),
                            pre.devices@[i]@.config.device_id,
                        ) ==> (#[trigger] state.devices@[i]) == pre.devices@[i],
                    forall|j: int|
                        #![trigger cv[j]]
                        0 <= j < t && conns_last_entry(cv, j) && has_device(pre.devices@, cv[j].0)
                            ==> exists|k: int|
                            {
                                &&& #[trigger] is_first_device_match(pre.devices@, cv[j].0, k)
                                &&& state.devices@[k].connected == conn_status(cv[j].1)
                            },
                    state.folders == pre.folders,
                    state.pending_folders == pre.pending_folders,
                    state.pending_devices == pre.pending_devices,
                    state.events == pre.events,
                    state.error == pre.error,
                    state.id == pre.id,
                    follow@.len() == wanted_completions(pre.devices@, cv.take(t as int)).len(),
                    forall|i: int|
                        0 <= i < follow@.len() ==> (match #[trigger] follow@[i] {
                            Reload::Completion { folder_id: None, device_id: Some(d) } => d@
                                == wanted_completions(pre.devices@, cv.take(t as int))[i].0,
                            _ => false,
                        }),
            {
                let (device_id, conn) = &cs.connections[t];
                let ghost mid = state.devices@;
                proof {
                    crate::types::lemma_dv_index(cs.connections@, t as int);
                    assert(cv[t as int].0 == device_id@);
                    assert(cv.take(t as int).push(cv[t as int]) =~= cv.take(t + 1));
                    lemma_wanted_push(pre.devices@, cv.take(t as int), cv[t as int]);
                    lemma_same_id_lookup(mid, pre.devices@, device_id@);
                }
                let known = state.find_device(device_id.as_str()).is_some();
                if conn.connected {
                    state.set_device_status(device_id.as_str(), DeviceStatus::UpToDate);
                    if known {
                        follow.push(
                            Reload::Completion {
                                folder_id: None,
                                device_id: Some(device_id.clone()),
                            },
                        );
                    }
                } else {
                    state.set_device_status(device_id.as_str(), DeviceStatus::Disconnected);
                }
                proof {
                    let ghost cur = state.devices@;
                    // Configurations are untouched, so lookups agree
                    // before and after the update.
                    if has_device(mid, device_id@) {
                        let k = choose|k: int|
                            #[trigger] is_first_device_match(mid, device_id@, k) && cur.len()
                                == mid.len() && (forall|m: int|
                                0 <= m < mid.len() && m != k ==> cur[m] == mid[m]) && cur[k]@.config
                                == mid[k]@.config && cur[k].connected == conn_status(cv[t as int].1);
                        assert(is_first_device_match(pre.devices@, device_id@, k));
                        assert forall|j: int|
                            #![trigger cv[j]]
                            0 <= j < t + 1 && conns_last_entry(cv, j) && has_device(
                                pre.devices@,
                                cv[j].0,
                            ) implies exists|k2: int|
                            {
                                &&& #[trigger] is_first_device_match(pre.devices@, cv[j].0, k2)
                                &&& cur[k2].connected == conn_status(cv[j].1)
                            } by {
                            if j < t {
                                assert(cv[t as int].0 != cv[j].0);
                                let k2 = choose|k2: int|
                                    #[trigger] is_first_device_match(pre.devices@, cv[j].0, k2)
                                        && mid[k2].connected == conn_status(cv[j].1);
                                assert(k2 != k);
                                assert(cur[k2] == mid[k2]);
                            } else {
                                assert(cur[k].connected == conn_status(cv[j].1));
                            }
                        }
                    } else {
                        assert(cur == mid);
                        assert forall|j: int|
                            #![trigger cv[j]]
                            0 <= j < t + 1 && conns_last_entry(cv, j) && has_device(
                                pre.devices@,
                                cv[j].0,
                            ) implies exists|k2: int|
                            {
                                &&& #[trigger] is_first_device_match(pre.devices@, cv[j].0, k2)
                                &&& cur[k2].connected == conn_status(cv[j].1)
                            } by {
                            if j == t {
                                assert(!has_device(pre.devices@, cv[j].0));
                            }
                        }
                    }
                    // Devices not named by the longer prefix are untouched.
                    assert forall|i: int|
                        0 <= i < pre.devices@.len() && !conns_name(
                            cv.take(t + 1),
                            pre.devices@[i]@.config.device_id,
                        ) implies (#[trigger] state.devices@[i]) == pre.devices@[i] by {
                        let id_i = pre.devices@[i]@.config.device_id;
                        assert forall|w: int| 0 <= w < t implies (#[trigger] cv.take(t as int)[w]).0
                            != id_i by {
                            assert(cv.take(t + 1)[w] == cv.take(t as int)[w]);
                        }
                        assert(!conns_name(cv.take(t as int), id_i));
                        assert(mid[i] == pre.devices@[i]);
                        if has_device(mid, device_id@) {
                            assert(cv.take(t + 1)[t as int].0 == device_id@);
                            assert(id_i != device_id@);
                            let k = choose|k: int|
                                #[trigger] is_first_device_match(mid, device_id@, k) && (forall|
                                    m: int,
                                |
                                    0 <= m < mid.len() && m != k ==> state.devices@[m] == mid[m])
                                    && state.devices@[k]@.config == mid[k]@.config;
                            assert(mid[k]@.config.device_id == device_id@);
                            assert(i != k);
                        }
                    }
                }
            }
            proof {
                assert(cv.take(cv.len() as int) =~= cv);
            }
            state.error = None;
            follow
        },
        FetchResult::Completion(c) => {
            match &job {
                Reload::Completion { folder_id, device_id } => {
                    match device_id {
                        Some(d) => {
                            let st = if c.completion >= 100 {
                                DeviceStatus::UpToDate
                            } else {
                                DeviceStatus::Syncing(c.completion)
                            };
                            state.set_device_status(d.as_str(), st);
                        },
                        None => {
                            match folder_id {
                                Some(f) => {
                                    state.set_folder_completion(f.as_str(), c.completion);
                                },
                                None => {},
                            }
                        },
                    }
                    state.error = None;
                    Vec::new()
                },
                _ => {
                    proof {
                        assert(false);
                    }
                    Vec::new()
                },
            }
        },
    }
}


// ---------------------------------------------------------------------------
// Wholesale-replace idempotence: however many reconciliation jobs run in
// enqueue order, the store's folder and device ID sets are exactly those
// of the last configuration snapshot that was merged.
// ---------------------------------------------------------------------------

/// The set of configured device IDs in the store.
pub open spec fn device_id_set(devices: Seq<crate::state::Device>) -> Set<Seq<char>> {
    devices.map_values(|d: crate::state::Device| d@.config.device_id).to_set()
}

/// The set of configured folder IDs in the store.
pub open spec fn folder_id_set(folders: Seq<crate::state::Folder>) -> Set<Seq<char>> {
    folders.map_values(|f: crate::state::Folder| f@.config.id).to_set()
}

/// The set of device IDs a configuration snapshot carries.
pub open spec fn config_device_ids(cfg: Seq<crate::types::DeviceConfigurationView>) -> Set<
    Seq<char>,
> {
    cfg.map_values(|d: crate::types::DeviceConfigurationView| d.device_id).to_set()
}

/// The set of folder IDs a configuration snapshot carries.
pub open spec fn config_folder_ids(cfg: Seq<crate::types::FolderConfigurationView>) -> Set<
    Seq<char>,
> {
    cfg.map_values(|f: crate::types::FolderConfigurationView| f.id).to_set()
}

/// Any merge other than a configuration merge leaves the folder and
/// device ID sets untouched: it only rewrites derived fields or other
/// collections.
proof fn lemma_step_preserves_ids(
    pre: InnerState,
    job: Reload,
    result: FetchResult,
    post: InnerState,
)
    requires
        reload_step(pre, job, result, post),
        !(result is Configuration),
    ensures
        device_id_set(post.devices@) == device_id_set(pre.devices@),
        folder_id_set(post.folders@) == folder_id_set(pre.folders@),
{
    match result {
        FetchResult::Connections(_) => {
            assert(post.devices@.map_values(|d: crate::state::Device| d@.config.device_id)
                =~= pre.devices@.map_values(|d: crate::state::Device| d@.config.device_id));
        },
        FetchResult::Completion(_) => {
            match job {
                Reload::Completion { folder_id, device_id } => {
                    if device_id is Some {
                        let id = device_id->0@;
                        if has_device(pre.devices@, id) {
                            assert(post.devices@.map_values(
                                |d: crate::state::Device| d@.config.device_id,
                            ) =~= pre.devices@.map_values(
                                |d: crate::state::Device| d@.config.device_id,
                            ));
                        }
                    } else if folder_id is Some {
                        let id = folder_id->0@;
                        if crate::state::has_folder(pre.folders@, id) {
                            assert(post.folders@.map_values(
                                |f: crate::state::Folder| f@.config.id,
                            ) =~= pre.folders@.map_values(|f: crate::state::Folder| f@.config.id));
                        }
                    }
                },
                _ => {},
            }
        },
        _ => {},
    }
}

/// Immediately after a configuration merge, the store's ID sets are the
/// snapshot's.
proof fn lemma_config_sets(pre: InnerState, post: InnerState, c: Configuration)
    requires
        config_merged(pre, post, c),
    ensures
        device_id_set(post.devices@) == config_device_ids(c.devices.deep_view()),
        folder_id_set(post.folders@) == config_folder_ids(c.folders.deep_view()),
{
    assert(post.devices@.map_values(|d: crate::state::Device| d@.config.device_id)
        =~= c.devices.deep_view().map_values(
        |d: crate::types::DeviceConfigurationView| d.device_id,
    ));
    assert(post.folders@.map_values(|f: crate::state::Folder| f@.config.id)
        =~= c.folders.deep_view().map_values(|f: crate::types::FolderConfigurationView| f.id));
}

/// A run of non-configuration merges leaves the ID sets where they were.
proof fn lemma_ids_stable(
    states: Seq<InnerState>,
    jobs: Seq<Reload>,
    results: Seq<FetchResult>,
    from: int,
)
    requires
        states.len() == jobs.len() + 1,
        results.len() == jobs.len(),
        forall|i: int|
            0 <= i < jobs.len() ==> reload_step(
                states[i],
                #[trigger] jobs[i],
                results[i],
                states[i + 1],
            ),
        0 <= from <= jobs.len(),
        forall|i: int| from <= i < results.len() ==> !((#[trigger] results[i]) is Configuration),
    ensures
        device_id_set(states.last().devices@) == device_id_set(states[from].devices@),
        folder_id_set(states.last().folders@) == folder_id_set(states[from].folders@),
    decreases jobs.len() - from,
{
    if from == jobs.len() {
    } else {
        lemma_step_preserves_ids(states[from], jobs[from], results[from], states[from + 1]);
        lemma_ids_stable(states, jobs, results, from + 1);
    }
}

/// Wholesale-replace idempotence: for every sequence of reconciliation
/// jobs processed in enqueue order, the final folder and device ID sets
/// are exactly those of the last successfully merged configuration
/// snapshot — later non-configuration merges only touch derived fields
/// and the other collections.
pub proof fn lemma_configuration_authoritative(
    states: Seq<InnerState>,
    jobs: Seq<Reload>,
    results: Seq<FetchResult>,
    p: int,
    c: Configuration,
)
    requires
        states.len() == jobs.len() + 1,
        results.len() == jobs.len(),
        forall|i: int|
            0 <= i < jobs.len() ==> reload_step(
                states[i],
                #[trigger] jobs[i],
                results[i],
                states[i + 1],
            ),
        0 <= p < jobs.len(),
        results[p] == FetchResult::Configuration(c),
        forall|i: int| p < i < results.len() ==> !((#[trigger] results[i]) is Configuration),
    ensures
        device_id_set(states.last().devices@) == config_device_ids(c.devices.deep_view()),
        folder_id_set(states.last().folders@) == config_folder_ids(c.folders.deep_view()),
{
    assert(reload_step(states[p], jobs[p], results[p], states[p + 1]));
    lemma_config_sets(states[p], states[p + 1], c);
    lemma_ids_stable(states, jobs, results, p + 1);
}


/// Fetch-merge idempotence: merging the same pending-folders snapshot
/// twice — from whatever intermediate states — leaves identical offer
/// sets, because the merge replaces the collection wholesale from the
/// snapshot alone.
pub proof fn lemma_pending_folders_replay(
    pre1: InnerState,
    mid: InnerState,
    pre2: InnerState,
    post: InnerState,
    p: PendingFolders,
)
    requires
        pending_folders_merged(pre1, mid, p),
        pending_folders_merged(pre2, post, p),
    ensures
        dv_seq(post.pending_folders@) == dv_seq(mid.pending_folders@),
{
}

} // verus!
