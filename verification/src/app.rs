use vstd::prelude::*;

use crate::error::AppError;
use crate::input::Message;
use crate::mutations;
use crate::mutations::GatewayCall;
use crate::pages::spec_pending_update;
use crate::pages::spec_row_down;
use crate::pages::spec_row_up;
use crate::pages::PendingPageState;
use crate::popup::popup_update;
use crate::popup::FolderPopup;
use crate::popup::NewFolderPopup;
use crate::popup::PendingDevicePopup;
use crate::popup::PendingShareFolderPopup;
use crate::popup::PopupKind;
use crate::reload::Reload;
use crate::state::has_folder;
use crate::state::has_pending_device;
use crate::state::InnerState;

verus! {

/// The editor-style input mode: normal keys navigate, insert keys type.
#[derive(Debug, Clone, Copy, PartialEq, Eq)]
pub enum CurrentMode {
    Insert,
    Normal,
}

/// The four pages of the dashboard.
#[derive(Debug, Clone, Copy, PartialEq, Eq)]
pub enum CurrentScreen {
    Folders,
    Devices,
    Pending,
    ID,
}

impl Default for CurrentScreen {
    fn default() -> (r: Self)
        ensures
            r == CurrentScreen::Folders,
    {
        CurrentScreen::Folders
    }
}

impl CurrentScreen {
    /// The page a number key selects: the pages are numbered from one.
    pub fn try_from(v: u32) -> (r: Result<CurrentScreen, ()>)
        ensures
            v == 1 ==> r == Ok::<CurrentScreen, ()>(CurrentScreen::Folders),
            v == 2 ==> r == Ok::<CurrentScreen, ()>(CurrentScreen::Devices),
            v == 3 ==> r == Ok::<CurrentScreen, ()>(CurrentScreen::Pending),
            v == 4 ==> r == Ok::<CurrentScreen, ()>(CurrentScreen::ID),
            !(1 <= v <= 4) ==> r is Err,
    {
        if v == 1 {
            Ok(CurrentScreen::Folders)
        } else if v == 2 {
            Ok(CurrentScreen::Devices)
        } else if v == 3 {
            Ok(CurrentScreen::Pending)
        } else if v == 4 {
            Ok(CurrentScreen::ID)
        } else {
            Err(())
        }
    }
}

/// The configuration the dashboard itself is started with.
#[derive(Debug, Clone, PartialEq, Eq)]
pub struct AppConfig {
    pub api_key: String,
}

impl AppConfig {
    pub fn new(api_key: String) -> (r: Self)
        ensures
            r.api_key == api_key,
    {
        AppConfig { api_key }
    }
}

/// An effect the interaction layer asks the shell to perform: enqueue a
/// reconciliation job, issue a gateway call in the background, or record
/// an error.
#[derive(Debug, PartialEq, Eq)]
pub enum Command {
    Reload(Reload),
    Gateway(GatewayCall),
    SetError(AppError),
}

/// The interaction state of the dashboard: which page is shown, what is
/// highlighted, the input mode, and the open popup. The shell reads the
/// shared store, feeds messages in, and performs the commands that come
/// out.
#[derive(Debug, PartialEq, Eq)]
pub struct App {
    pub running: bool,
    pub current_screen: CurrentScreen,
    pub selected_folder: Option<usize>,
    pub selected_device: Option<usize>,
    pub pending_state: PendingPageState,
    pub mode: CurrentMode,
    pub popup: Option<PopupKind>,
}

/// The update step accepts this message in this state: ignoring a
/// device is not implemented, nor is submitting the folder editor or
/// the ignore button of the share popup.
pub open spec fn update_allowed(app: App, msg: Message) -> bool {
    &&& !(msg is IgnoreDevice)
    &&& (match app.popup {
        Some(PopupKind::PendingShareFolder(p)) => !((msg is Select || msg is Submit)
            && p.focus is Ignore),
        Some(PopupKind::Folder(p)) => !(p.focus is General && msg is Select),
        _ => true,
    })
}

impl App {
    /// Any open popup is well-formed.
    pub open spec fn wf(&self) -> bool {
        match self.popup {
            Some(p) => p.wf(),
            None => true,
        }
    }

    /// A fresh dashboard: running, on the folders page, nothing
    /// highlighted, in normal mode, with no popup.
    pub fn new() -> (r: Self)
        ensures
            r.running,
            r.current_screen == CurrentScreen::Folders,
            r.selected_folder is None,
            r.selected_device is None,
            r.pending_state.devices_focused,
            r.pending_state.focused_device is None,
            r.pending_state.focused_folder is None,
            r.mode == CurrentMode::Normal,
            r.popup is None,
            r.wf(),
    {
        App {
            running: true,
            current_screen: CurrentScreen::default(),
            selected_folder: None,
            selected_device: None,
            pending_state: PendingPageState::default(),
            mode: CurrentMode::Normal,
            popup: None,
        }
    }

    /// Folder-page keys: vertical movement walks the sorted folder list,
    /// wrapping around; add opens an empty new-folder form; select opens
    /// the highlighted folder for editing.
    fn update_folders(&mut self, msg: &Message, store: &InnerState) -> (r: Option<Message>)
        requires
            old(self).wf(),
        ensures
            r is None,
            final(self).wf(),
            final(self).running == old(self).running,
            final(self).current_screen == old(self).current_screen,
            final(self).mode == old(self).mode,
            final(self).selected_device == old(self).selected_device,
            final(self).pending_state == old(self).pending_state,
            match msg {
                Message::Down => {
                    &&& final(self).popup == old(self).popup
                    &&& final(self).selected_folder == if store.folders@.len() == 0 {
                        old(self).selected_folder
                    } else {
                        spec_row_down(
                            old(self).selected_folder,
                            store.folders@.len() as usize,
                        )
                    }
                },
                Message::Up => {
                    &&& final(self).popup == old(self).popup
                    &&& final(self).selected_folder == if store.folders@.len() == 0 {
                        old(self).selected_folder
                    } else {
                        spec_row_up(old(self).selected_folder, store.folders@.len() as usize)
                    }
                },
                Message::Add => {
                    &&& final(self).selected_folder == old(self).selected_folder
                    &&& (match final(self).popup {
                        Some(PopupKind::NewFolder(p)) => {
                            &&& p.id_input.text@.len() == 0
                            &&& p.label_input.text@.len() == 0
                            &&& p.path_input.text@.len() == 0
                            &&& p.focus is Path
                            &&& p.selected_devices@.len() == 0
                        },
                        _ => false,
                    })
                },
                Message::Select => {
                    &&& final(self).selected_folder == old(self).selected_folder
                    &&& (match old(self).selected_folder {
                        Some(i) => if i < store.folders@.len() {
                            match final(self).popup {
                                Some(PopupKind::Folder(p)) => exists|k: int|
                                    0 <= k < store.folders@.len() && p.folder@ == (
                                    #[trigger] store.folders@[k])@.config,
                                _ => false,
                            }
                        } else {
                            final(self).popup == old(self).popup
                        },
                        None => final(self).popup == old(self).popup,
                    })
                },
                _ => *final(self) == *old(self),
            },
    {
        broadcast use vstd::seq_lib::group_to_multiset_ensures;

        match msg {
            Message::Down => {
                let len = store.folders.len();
                if len == 0 {
                    return None;
                }
                self.selected_folder = match self.selected_folder {
                    Some(i) => Some(crate::pages::row_down_of(i, len)),
                    None => Some(0),
                };
            },
            Message::Up => {
                let len = store.folders.len();
                if len == 0 {
                    return None;
                }
                self.selected_folder = match self.selected_folder {
                    Some(i) => Some(crate::pages::row_up_of(i, len)),
                    None => Some(crate::pages::last_row(len)),
                };
            },
            Message::Add => {
                self.popup = Some(PopupKind::NewFolder(NewFolderPopup::new()));
            },
            Message::Select => {
                if let Some(i) = self.selected_folder {
                    let sorted = store.get_folders();
                    proof {
                        crate::types::lemma_dv_seq_vec(&sorted);
                        crate::types::lemma_dv_seq_vec(&store.folders);
                        assert(crate::types::dv_seq(sorted@).to_multiset().len()
                            == crate::types::dv_seq(sorted@).len());
                        assert(crate::types::dv_seq(store.folders@).to_multiset().len()
                            == crate::types::dv_seq(store.folders@).len());
                    }
                    if i < sorted.len() {
                        let folder = sorted[i].config.clone();
                        proof {
                            let sv = crate::types::dv_seq(sorted@);
                            crate::types::lemma_dv_index(sorted@, i as int);
                            assert(sv.contains(sv[i as int]));
                            assert(sv.to_multiset().count(sv[i as int]) > 0);
                            let fv = crate::types::dv_seq(store.folders@);
                            assert(fv.to_multiset().count(sv[i as int]) > 0);
                            assert(fv.contains(sv[i as int]));
                            let k = choose|k: int| 0 <= k < fv.len() && fv[k] == sv[i as int];
                            crate::types::lemma_dv_index(store.folders@, k);
                            assert(folder@ == store.folders@[k]@.config);
                        }
                        self.popup = Some(PopupKind::Folder(FolderPopup::new(folder)));
                    }
                }
            },
            _ => {},
        }
        None
    }

    /// Device-page keys: vertical movement walks the sorted list of
    /// other devices, wrapping around.
    fn update_devices(&mut self, msg: &Message, store: &InnerState) -> (r: Option<Message>)
        requires
            old(self).wf(),
        ensures
            r is None,
            final(self).wf(),
            final(self).popup == old(self).popup,
            final(self).running == old(self).running,
            final(self).current_screen == old(self).current_screen,
            final(self).mode == old(self).mode,
            final(self).selected_folder == old(self).selected_folder,
            final(self).pending_state == old(self).pending_state,
            ({
                let n = crate::state::other_devices(
                    crate::types::dv_seq(store.devices@),
                    store.id@,
                ).len();
                match msg {
                    Message::Down => final(self).selected_device == if n == 0 {
                        old(self).selected_device
                    } else {
                        spec_row_down(old(self).selected_device, n as usize)
                    },
                    Message::Up => final(self).selected_device == if n == 0 {
                        old(self).selected_device
                    } else {
                        spec_row_up(old(self).selected_device, n as usize)
                    },
                    _ => final(self).selected_device == old(self).selected_device,
                }
            }),
    {
        broadcast use vstd::seq_lib::group_to_multiset_ensures;

        let others = store.get_other_devices();
        let len = others.len();
        proof {
            crate::types::lemma_dv_seq_vec(&others);
            assert(crate::types::dv_seq(others@).to_multiset().len() == crate::types::dv_seq(
                others@,
            ).len());
            assert(crate::state::other_devices(
                crate::types::dv_seq(store.devices@),
                store.id@,
            ).to_multiset().len() == crate::state::other_devices(
                crate::types::dv_seq(store.devices@),
                store.id@,
            ).len());
        }
        match msg {
            Message::Down => {
                if len == 0 {
                    return None;
                }
                self.selected_device = match self.selected_device {
                    Some(i) => Some(crate::pages::row_down_of(i, len)),
                    None => Some(0),
                };
            },
            Message::Up => {
                if len == 0 {
                    return None;
                }
                self.selected_device = match self.selected_device {
                    Some(i) => Some(crate::pages::row_up_of(i, len)),
                    None => Some(crate::pages::last_row(len)),
                };
            },
            _ => {},
        }
        None
    }

    /// Pending-page keys: the selection state moves against the two
    /// pending lists, and select opens the popup for the highlighted
    /// entry — accepting a device, or sharing or adding an offered
    /// folder, depending on whether the folder is already configured.
    fn update_pending(&mut self, msg: &Message, store: &InnerState) -> (r: Option<Message>)
        requires
            old(self).wf(),
            old(self).popup is None,
        ensures
            r is None,
            final(self).wf(),
            final(self).running == old(self).running,
            final(self).current_screen == old(self).current_screen,
            final(self).mode == old(self).mode,
            final(self).selected_folder == old(self).selected_folder,
            final(self).selected_device == old(self).selected_device,
            final(self).pending_state == spec_pending_update(
                old(self).pending_state,
                *msg,
                store.pending_devices@.len() as usize,
                store.pending_folders@.len() as usize,
            ),
            !(msg is Select) ==> final(self).popup == old(self).popup,
            msg is Select ==> (match final(self).popup {
                Some(PopupKind::PendingDevice(p)) => exists|k: int|
                    0 <= k < store.pending_devices@.len() && p.device_id@ == (
                    #[trigger] store.pending_devices@[k])@.device_id,
                Some(PopupKind::PendingShareFolder(p)) => exists|k: int|
                    0 <= k < store.pending_folders@.len() && {
                        let e = (#[trigger] store.pending_folders@[k]).deep_view();
                        &&& p.folder_id@ == e.1.id
                        &&& p.device_id@ == e.0
                        &&& has_folder(store.folders@, e.1.id)
                    },
                Some(PopupKind::NewFolder(p)) => exists|k: int|
                    0 <= k < store.pending_folders@.len() && {
                        let e = (#[trigger] store.pending_folders@[k]).deep_view();
                        &&& p.id_input.text@ == e.1.id
                        &&& p.selected_devices@.len() == 1
                        &&& p.selected_devices@[0]@ == e.0
                        &&& !has_folder(store.folders@, e.1.id)
                    },
                Some(PopupKind::Folder(_)) => false,
                None => old(self).popup is None,
            }),
    {
        broadcast use vstd::seq_lib::group_to_multiset_ensures;

        let pending_devices = store.get_pending_devices();
        let pending_folders = store.get_pending_folders();
        let devices_len = pending_devices.len();
        let folders_len = pending_folders.len();
        proof {
            crate::types::lemma_dv_seq_vec(&pending_devices);
            crate::types::lemma_dv_seq_vec(&store.pending_devices);
            assert(crate::types::dv_seq(pending_devices@).to_multiset().len()
                == crate::types::dv_seq(pending_devices@).len());
            assert(crate::types::dv_seq(store.pending_devices@).to_multiset().len()
                == crate::types::dv_seq(store.pending_devices@).len());
            crate::types::lemma_dv_seq_vec(&pending_folders);
            crate::types::lemma_dv_seq_vec(&store.pending_folders);
            assert(crate::types::dv_seq(pending_folders@).to_multiset().len()
                == crate::types::dv_seq(pending_folders@).len());
            assert(crate::types::dv_seq(store.pending_folders@).to_multiset().len()
                == crate::types::dv_seq(store.pending_folders@).len());
        }
        self.pending_state.update(msg, devices_len, folders_len);
        if !matches!(msg, Message::Select) {
            return None;
        }

        if let Some(index) = self.pending_state.device_selected() {
            if index < pending_devices.len() {
                let device_id = pending_devices[index].get_device_id().clone();
                proof {
                    let sv = crate::types::dv_seq(pending_devices@);
                    crate::types::lemma_dv_index(pending_devices@, index as int);
                    assert(sv.contains(sv[index as int]));
                    assert(sv.to_multiset().count(sv[index as int]) > 0);
                    let fv = crate::types::dv_seq(store.pending_devices@);
                    assert(fv.to_multiset().count(sv[index as int]) > 0);
                    assert(fv.contains(sv[index as int]));
                    let k = choose|k: int| 0 <= k < fv.len() && fv[k] == sv[index as int];
                    crate::types::lemma_dv_index(store.pending_devices@, k);
                    assert(device_id@ == store.pending_devices@[k]@.device_id);
                }
                self.popup = Some(PopupKind::PendingDevice(PendingDevicePopup::new(device_id)));
            }
        }
        if let Some(index) = self.pending_state.folder_selected() {
            if index < pending_folders.len() {
                let ghost k: int;
                proof {
                    let sv = crate::types::dv_seq(pending_folders@);
                    crate::types::lemma_dv_index(pending_folders@, index as int);
                    assert(sv.contains(sv[index as int]));
                    assert(sv.to_multiset().count(sv[index as int]) > 0);
                    let fv = crate::types::dv_seq(store.pending_folders@);
                    assert(fv.to_multiset().count(sv[index as int]) > 0);
                    assert(fv.contains(sv[index as int]));
                    k = choose|k: int| 0 <= k < fv.len() && fv[k] == sv[index as int];
                    crate::types::lemma_dv_index(store.pending_folders@, k);
                    assert(pending_folders@[index as int].deep_view()
                        == store.pending_folders@[k].deep_view());
                }
                let (device_id, folder) = &pending_folders[index];
                if store.find_folder(folder.get_id().as_str()).is_some() {
                    self.popup = Some(
                        PopupKind::PendingShareFolder(
                            PendingShareFolderPopup::new(folder.get_id().clone(), device_id.clone()),
                        ),
                    );
                } else {
                    let empty = String::new();
                    let label = match folder.get_label() {
                        Some(l) => l.as_str(),
                        None => empty.as_str(),
                    };
                    self.popup = Some(
                        PopupKind::NewFolder(
                            NewFolderPopup::new_from_device(
                                label,
                                folder.get_id().as_str(),
                                device_id.clone(),
                            ),
                        ),
                    );
                }
            }
        }
        None
    }

    /// One step of the interaction loop. Mode switches and popup answers
    /// take priority: mutation answers issue their gateway call (or
    /// record the precondition error) and close the popup. Then an open
    /// popup consumes the message. Otherwise global keys quit, switch
    /// pages, trigger a configuration reload, or surface a pending
    /// entity; everything else goes to the current page.
    ///
    /// A returned message is fed back into the next update round.
    pub fn update(&mut self, msg: Message, store: &InnerState) -> (r: (
        Option<Message>,
        Vec<Command>,
    ))
        requires
            old(self).wf(),
            update_allowed(*old(self), msg),
        ensures
            final(self).wf(),
            match msg {
                Message::Insert => {
                    &&& final(self).mode == CurrentMode::Insert
                    &&& r.1@.len() == 0
                    &&& final(self).running == old(self).running
                    &&& final(self).current_screen == old(self).current_screen
                },
                Message::Normal => {
                    &&& final(self).mode == CurrentMode::Normal
                    &&& r.1@.len() == 0
                    &&& final(self).running == old(self).running
                    &&& final(self).current_screen == old(self).current_screen
                },
                Message::Quit => {
                    &&& r.0 is None
                    &&& r.1@.len() == 0
                    &&& final(self).popup is None
                    &&& (old(self).popup is Some ==> *final(self) == App {
                        popup: None,
                        ..*old(self)
                    })
                    &&& (old(self).popup is None ==> *final(self) == App {
                        running: false,
                        ..*old(self)
                    })
                },
                Message::NewFolder(f) => {
                    &&& *final(self) == App { popup: None, ..*old(self) }
                    &&& r.0 is None
                    &&& r.1@.len() == 1
                    &&& if has_folder(store.folders@, f@.id) {
                        r.1@[0] == Command::SetError(AppError::DuplicateFolderID)
                    } else {
                        match r.1@[0] {
                            Command::Gateway(GatewayCall::AddFolder(nf)) => nf@ == f@,
                            _ => false,
                        }
                    }
                },
                Message::AcceptDevice(d) => {
                    &&& *final(self) == App { popup: None, ..*old(self) }
                    &&& r.0 is None
                    &&& r.1@.len() == 1
                    &&& if has_pending_device(store.pending_devices@, d@) {
                        match r.1@[0] {
                            Command::Gateway(GatewayCall::AddDevice(nd)) => exists|k: int|
                                #[trigger] crate::state::is_first_pending_match(
                                    store.pending_devices@,
                                    d@,
                                    k,
                                ) && nd@ == store.pending_devices@[k]@,
                            _ => false,
                        }
                    } else {
                        r.1@[0] == Command::SetError(AppError::UnknownDevice)
                    }
                },
                Message::DismissDevice(d) => {
                    &&& *final(self) == App { popup: None, ..*old(self) }
                    &&& r.0 is None
                    &&& r.1@.len() == 1
                    &&& (match r.1@[0] {
                        Command::Gateway(GatewayCall::DismissPendingDevice(x)) => x@ == d@,
                        _ => false,
                    })
                },
                Message::ShareFolder { folder_id, device_id } => {
                    &&& *final(self) == App { popup: None, ..*old(self) }
                    &&& r.0 is None
                    &&& r.1@.len() == 1
                    &&& if has_folder(store.folders@, folder_id@) {
                        match r.1@[0] {
                            Command::Gateway(GatewayCall::PostFolder(f)) => exists|k: int|
                                #[trigger] crate::state::is_first_folder_match(
                                    store.folders@,
                                    folder_id@,
                                    k,
                                ) && f@ == (crate::types::FolderConfigurationView {
                                    devices: store.folders@[k]@.config.devices.push(
                                        crate::types::FolderDeviceView {
                                            device_id: device_id@,
                                            introduced_by: Seq::empty(),
                                            encryption_password: Seq::empty(),
                                        },
                                    ),
                                    ..store.folders@[k]@.config
                                }),
                            _ => false,
                        }
                    } else {
                        r.1@[0] == Command::SetError(AppError::UnknownFolder)
                    }
                },
                Message::DismissFolder { folder_id, device_id } => {
                    &&& *final(self) == App { popup: None, ..*old(self) }
                    &&& r.0 is None
                    &&& r.1@.len() == 1
                    &&& (match r.1@[0] {
                        Command::Gateway(
                            GatewayCall::DismissPendingFolder { folder_id: x, device_id: y },
                        ) => x@ == folder_id@ && (y matches Some(yy) && yy@ == device_id@),
                        _ => false,
                    })
                },
                _ => {
                    &&& final(self).running == old(self).running
                    &&& (old(self).popup is Some ==> {
                        &&& r.1@.len() == 0
                        &&& final(self).current_screen == old(self).current_screen
                        &&& (!(msg is Select || msg is Submit || msg is Insert || msg is Normal)
                            ==> final(self).mode == old(self).mode)
                    })
                    &&& (old(self).popup is None ==> {
                        &&& r.0 is None
                        &&& (match msg {
                            Message::Reload => r.1@.len() == 1 && r.1@[0] == Command::Reload(
                                Reload::Configuration,
                            ),
                            Message::Number(n) => r.1@.len() == 0 && (1 <= n <= 4
                                ==> *final(self) == App {
                                current_screen: (if n == 1 {
                                    CurrentScreen::Folders
                                } else if n == 2 {
                                    CurrentScreen::Devices
                                } else if n == 3 {
                                    CurrentScreen::Pending
                                } else {
                                    CurrentScreen::ID
                                }),
                                ..*old(self)
                            }),
                            Message::NewPendingDevice(d) => r.1@.len() == 0 && (match final(self).popup {
                                Some(PopupKind::PendingDevice(p)) => p.device_id@ == d@
                                    && p.focus is Accept,
                                _ => false,
                            }),
                            Message::NewPendingFolder { folder_label, folder_id, device_id } => r.1@.len()
                                == 0 && (if has_folder(store.folders@, folder_id@) {
                                match final(self).popup {
                                    Some(PopupKind::PendingShareFolder(p)) => p.folder_id@
                                        == folder_id@ && p.device_id@ == device_id@
                                        && p.focus is Accept,
                                    _ => false,
                                }
                            } else {
                                match final(self).popup {
                                    Some(PopupKind::NewFolder(p)) => p.id_input.text@ == folder_id@
                                        && p.label_input.text@ == folder_label@
                                        && p.selected_devices@.len() == 1
                                        && p.selected_devices@[0]@ == device_id@,
                                    _ => false,
                                }
                            }),
                            _ => r.1@.len() == 0 && final(self).mode == old(self).mode
                                && final(self).current_screen == old(self).current_screen,
                        })
                    })
                },
            },
    {
        let mut commands: Vec<Command> = Vec::new();

        // Mode switches and popup answers take priority.
        match &msg {
            Message::Insert => {
                self.mode = CurrentMode::Insert;
            },
            Message::Normal => {
                self.mode = CurrentMode::Normal;
            },
            Message::NewFolder(_) => {},
            Message::AcceptDevice(_) => {},
            Message::DismissDevice(_) => {},
            Message::ShareFolder { .. } => {},
            Message::DismissFolder { .. } => {},
            _ => {},
        }
        match msg {
            Message::NewFolder(folder) => {
                self.popup = None;
                match mutations::add_folder(store, *folder) {
                    Ok(call) => commands.push(Command::Gateway(call)),
                    Err(e) => commands.push(Command::SetError(e)),
                }
                return (None, commands);
            },
            Message::AcceptDevice(device) => {
                self.popup = None;
                match mutations::accept_device(store, device.as_str()) {
                    Ok(call) => commands.push(Command::Gateway(call)),
                    Err(e) => commands.push(Command::SetError(e)),
                }
                return (None, commands);
            },
            Message::DismissDevice(device_id) => {
                self.popup = None;
                commands.push(Command::Gateway(mutations::dismiss_device(device_id)));
                return (None, commands);
            },
            Message::ShareFolder { folder_id, device_id } => {
                self.popup = None;
                match mutations::share_folder(store, folder_id.as_str(), device_id.as_str()) {
                    Ok(call) => commands.push(Command::Gateway(call)),
                    Err(e) => commands.push(Command::SetError(e)),
                }
                return (None, commands);
            },
            Message::DismissFolder { folder_id, device_id } => {
                self.popup = None;
                commands.push(Command::Gateway(mutations::dismiss_folder(folder_id, device_id)));
                return (None, commands);
            },
            msg => {
                // An open popup consumes the message.
                if self.popup.is_some() {
                    let others = store.get_other_devices();
                    let answer = match &mut self.popup {
                        Some(popup) => popup_update(popup, &msg, &mut self.mode, &others),
                        None => None,
                    };
                    match answer {
                        Some(m) => {
                            if matches!(m, Message::Quit) {
                                self.popup = None;
                                return (None, commands);
                            }
                            return (Some(m), commands);
                        },
                        None => {
                            return (None, commands);
                        },
                    }
                }

                // Global keys.
                match msg {
                    Message::Quit => {
                        self.running = false;
                        return (None, commands);
                    },
                    Message::Number(i) => {
                        if let Ok(screen) = CurrentScreen::try_from(i) {
                            self.current_screen = screen;
                        }
                        return (None, commands);
                    },
                    Message::Reload => {
                        commands.push(Command::Reload(Reload::Configuration));
                        let _ = match self.current_screen {
                            CurrentScreen::Folders => self.update_folders(&Message::Reload, store),
                            CurrentScreen::Devices => self.update_devices(&Message::Reload, store),
                            CurrentScreen::Pending => self.update_pending(&Message::Reload, store),
                            CurrentScreen::ID => None,
                        };
                        return (None, commands);
                    },
                    Message::NewPendingDevice(device) => {
                        self.popup = Some(
                            PopupKind::PendingDevice(PendingDevicePopup::new(device)),
                        );
                        return (None, commands);
                    },
                    Message::NewPendingFolder { folder_label, folder_id, device_id } => {
                        if store.find_folder(folder_id.as_str()).is_some() {
                            self.popup = Some(
                                PopupKind::PendingShareFolder(
                                    PendingShareFolderPopup::new(folder_id, device_id),
                                ),
                            );
                        } else {
                            self.popup = Some(
                                PopupKind::NewFolder(
                                    NewFolderPopup::new_from_device(
                                        folder_label.as_str(),
                                        folder_id.as_str(),
                                        device_id,
                                    ),
                                ),
                            );
                        }
                        return (None, commands);
                    },
                    msg => {
                        // Page-specific keys.
                        let r = match self.current_screen {
                            CurrentScreen::Folders => self.update_folders(&msg, store),
                            CurrentScreen::Devices => self.update_devices(&msg, store),
                            CurrentScreen::Pending => self.update_pending(&msg, store),
                            CurrentScreen::ID => None,
                        };
                        return (r, commands);
                    },
                }
            },
        }
    }
}

} // verus!
