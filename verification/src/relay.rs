use vstd::prelude::*;

use crate::events::Event;
use crate::events::EventType;
use crate::reload::Reload;
use crate::state::DeviceStatus;
use crate::state::InnerState;

verus! {

/// A best-effort notification for the presentation layer: a new pending
/// entity appeared and may be surfaced immediately, without waiting for
/// the corresponding reload.
#[derive(Debug, Clone, PartialEq, Eq)]
pub enum Notice {
    NewPendingDevice(String),
    NewPendingFolder { folder_label: String, folder_id: String, device_id: String },
}

/// Consume one daemon event: update the store where the event itself
/// carries the new state, decide which reconciliation jobs it makes
/// necessary, and surface a notice for a newly added pending entity.
///
/// A connect or disconnect event updates the device's status directly —
/// in particular, a connect event for device D sets D's status to
/// up-to-date immediately, without waiting for a connections reload.
/// Events that drive no reconciliation are recorded in the append-only
/// event log.
pub fn handle_event(state: &mut InnerState, event: Event) -> (r: (Vec<Reload>, Option<Notice>))
    ensures
        match event.ty {
            EventType::ConfigSaved => {
                &&& *final(state) == *old(state)
                &&& r.0@.len() == 1
                &&& r.0@[0] is Configuration
                &&& r.1 is None
            },
            EventType::DeviceConnected { id, .. } => {
                &&& crate::state::devices_status_updated(
                    old(state).devices@,
                    final(state).devices@,
                    id@,
                    DeviceStatus::UpToDate,
                )
                &&& final(state).folders == old(state).folders
                &&& final(state).pending_folders == old(state).pending_folders
                &&& final(state).pending_devices == old(state).pending_devices
                &&& final(state).events == old(state).events
                &&& final(state).error == old(state).error
                &&& final(state).id == old(state).id
                &&& r.0@.len() == 0
                &&& r.1 is None
            },
            EventType::DeviceDisconnected { id, .. } => {
                &&& crate::state::devices_status_updated(
                    old(state).devices@,
                    final(state).devices@,
                    id@,
                    DeviceStatus::Disconnected,
                )
                &&& final(state).folders == old(state).folders
                &&& final(state).pending_folders == old(state).pending_folders
                &&& final(state).pending_devices == old(state).pending_devices
                &&& final(state).events == old(state).events
                &&& final(state).error == old(state).error
                &&& final(state).id == old(state).id
                &&& r.0@.len() == 0
                &&& r.1 is None
            },
            EventType::PendingDevicesChanged { added, .. } => {
                &&& *final(state) == *old(state)
                &&& r.0@.len() == 1
                &&& r.0@[0] is PendingDevices
                &&& (match added {
                    Some(v) => if v@.len() > 0 {
                        r.1 matches Some(Notice::NewPendingDevice(d)) && d@ == v@[0].device_id@
                    } else {
                        r.1 is None
                    },
                    None => r.1 is None,
                })
            },
            EventType::PendingFoldersChanged { added, .. } => {
                &&& *final(state) == *old(state)
                &&& r.0@.len() == 1
                &&& r.0@[0] is PendingFolders
                &&& (match added {
                    Some(v) => if v@.len() > 0 {
                        r.1 matches Some(
                            Notice::NewPendingFolder { folder_label, folder_id, device_id },
                        ) && folder_label@ == v@[0].folder_label@ && folder_id@ == v@[0].folder_id@
                            && device_id@ == v@[0].device_id@
                    } else {
                        r.1 is None
                    },
                    None => r.1 is None,
                })
            },
            EventType::RemoteDownloadProgress { device, .. } => {
                &&& *final(state) == *old(state)
                &&& r.0@.len() == 1
                &&& (match r.0@[0] {
                    Reload::Completion { folder_id: None, device_id: Some(d) } => d@ == device@,
                    _ => false,
                })
                &&& r.1 is None
            },
            _ => {
                &&& final(state).events@ == old(state).events@.push(event)
                &&& final(state).folders == old(state).folders
                &&& final(state).devices == old(state).devices
                &&& final(state).pending_folders == old(state).pending_folders
                &&& final(state).pending_devices == old(state).pending_devices
                &&& final(state).error == old(state).error
                &&& final(state).id == old(state).id
                &&& r.0@.len() == 0
                &&& r.1 is None
            },
        },
{
    let mut jobs: Vec<Reload> = Vec::new();
    let notice: Option<Notice> = match &event.ty {
        EventType::ConfigSaved => {
            jobs.push(Reload::Configuration);
            None
        },
        EventType::DeviceConnected { id, .. } => {
            state.set_device_status(id.as_str(), DeviceStatus::UpToDate);
            None
        },
        EventType::DeviceDisconnected { id, .. } => {
            state.set_device_status(id.as_str(), DeviceStatus::Disconnected);
            None
        },
        EventType::PendingDevicesChanged { added, .. } => {
            jobs.push(Reload::PendingDevices);
            match added {
                Some(v) => {
                    if v.len() > 0 {
                        Some(Notice::NewPendingDevice(v[0].device_id.clone()))
                    } else {
                        None
                    }
                },
                None => None,
            }
        },
        EventType::PendingFoldersChanged { added, .. } => {
            jobs.push(Reload::PendingFolders);
            match added {
                Some(v) => {
                    if v.len() > 0 {
                        Some(
                            Notice::NewPendingFolder {
                                folder_label: v[0].folder_label.clone(),
                                folder_id: v[0].folder_id.clone(),
                                device_id: v[0].device_id.clone(),
                            },
                        )
                    } else {
                        None
                    }
                },
                None => None,
            }
        },
        EventType::RemoteDownloadProgress { device, .. } => {
            jobs.push(
                Reload::Completion { folder_id: None, device_id: Some(device.clone()) },
            );
            None
        },
        _ => {
            state.events.push(event);
            None
        },
    };
    (jobs, notice)
}

/// The low-water mark after consuming a batch: the highest event
/// sequence number seen so far.
pub open spec fn mark_after(current: u64, evs: Seq<Event>) -> u64
    decreases evs.len(),
{
    if evs.len() == 0 {
        current
    } else {
        let m = mark_after(current, evs.drop_last());
        if evs.last().id > m {
            evs.last().id
        } else {
            m
        }
    }
}

/// Consume one batch from the daemon's event feed. The new low-water
/// mark is the highest sequence number seen; events at or below the old
/// mark are duplicates and are dropped; on the very first batch
/// (`skip_old`) everything old is consumed without being delivered.
/// The flag comes back cleared: from the next batch on, events are
/// delivered.
pub fn process_event_batch(current_id: u64, skip_old: bool, events: Vec<Event>) -> (r: (
    u64,
    bool,
    Vec<Event>,
))
    ensures
        r.0 == mark_after(current_id, events@),
        r.1 == false,
        r.2@ == if skip_old {
            Seq::<Event>::empty()
        } else {
            events@.filter(|e: Event| e.id > current_id)
        },
{
    let ghost all = events@;
    let mut src = events;
    let mut out: Vec<Event> = Vec::new();
    let mut mark = current_id;
    let ghost mut done = Seq::<Event>::empty();
    proof {
        assert(done + src@ =~= all);
        assert(done.filter(|e: Event| e.id > current_id) =~= Seq::<Event>::empty());
    }
    while src.len() > 0
        invariant
            done + src@ == all,
            mark == mark_after(current_id, done),
            out@ == if skip_old {
                Seq::<Event>::empty()
            } else {
                done.filter(|e: Event| e.id > current_id)
            },
        decreases src.len(),
    {
        let ghost src_prev = src@;
        let e = src.remove(0);
        let emit = !skip_old && e.id > current_id;
        proof {
            assert(all[done.len() as int] == e);
            assert(done.push(e) + src@ =~= all);
            crate::state::lemma_filter_push(done, e, |ev: Event| ev.id > current_id);
            assert(done.push(e).drop_last() =~= done);
        }
        if e.id > mark {
            mark = e.id;
        }
        if emit {
            out.push(e);
        }
        proof {
            done = done.push(all[done.len() as int]);
        }
    }
    proof {
        assert(done =~= all);
    }
    (mark, false, out)
}

} // verus!
