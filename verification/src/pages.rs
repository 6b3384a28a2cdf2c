use vstd::prelude::*;

use crate::input::Message;

verus! {

/// The selection state of the pending page: which of the two lists
/// (pending devices, pending folder offers) is focused, and the
/// highlighted row of each.
#[derive(Debug, Clone, Copy, PartialEq, Eq)]
pub struct PendingPageState {
    pub devices_focused: bool,
    pub focused_device: Option<usize>,
    pub focused_folder: Option<usize>,
}

impl Default for PendingPageState {
    fn default() -> (r: Self)
        ensures
            r.devices_focused,
            r.focused_device is None,
            r.focused_folder is None,
    {
        PendingPageState { devices_focused: true, focused_device: None, focused_folder: None }
    }
}

/// The next row down, wrapping at the end of a list of `total` rows.
pub open spec fn spec_row_down(row: Option<usize>, total: usize) -> Option<usize> {
    match row {
        Some(i) => Some((((i as int) % (total as int) + 1) % (total as int)) as usize),
        None => Some(0usize),
    }
}

/// The last row of a list, or the first where the list is empty.
pub open spec fn spec_last_row(total: usize) -> usize {
    if total > 0 {
        (total - 1) as usize
    } else {
        0usize
    }
}

/// The next row up, wrapping at the start of a list of `total` rows.
pub open spec fn spec_row_up(row: Option<usize>, total: usize) -> Option<usize> {
    match row {
        Some(i) => Some(
            ((((i as int) % (total as int)) + (total as int) - 1) % (total as int)) as usize,
        ),
        None => Some(spec_last_row(total)),
    }
}

/// Where the pending page's selection moves on one message, given how
/// many pending devices and offers there are: horizontal keys switch
/// between the two lists, an empty list forces the focus to the other,
/// and vertical keys walk the focused list, wrapping around.
pub open spec fn spec_pending_update(
    s: PendingPageState,
    msg: Message,
    total_devices: usize,
    total_folders: usize,
) -> PendingPageState {
    let toggled = match msg {
        Message::Left | Message::Right | Message::FocusNext | Message::FocusBack => PendingPageState {
            devices_focused: !s.devices_focused,
            ..s
        },
        _ => s,
    };
    if total_devices == 0 && total_folders == 0 {
        PendingPageState { focused_device: None, focused_folder: None, ..toggled }
    } else {
        let forced = if total_devices == 0 {
            PendingPageState { devices_focused: false, ..toggled }
        } else if total_folders == 0 {
            PendingPageState { devices_focused: true, ..toggled }
        } else {
            toggled
        };
        match msg {
            Message::Down => {
                if forced.devices_focused {
                    if forced.focused_device is Some {
                        PendingPageState {
                            focused_device: spec_row_down(forced.focused_device, total_devices),
                            ..forced
                        }
                    } else {
                        PendingPageState {
                            focused_device: Some(0usize),
                            focused_folder: Some(
                                match forced.focused_folder {
                                    Some(j) => j,
                                    None => 0usize,
                                },
                            ),
                            ..forced
                        }
                    }
                } else if forced.focused_folder is Some {
                    PendingPageState {
                        focused_folder: spec_row_down(forced.focused_folder, total_folders),
                        ..forced
                    }
                } else {
                    PendingPageState {
                        focused_folder: Some(0usize),
                        focused_device: Some(
                            match forced.focused_device {
                                Some(j) => j,
                                None => 0usize,
                            },
                        ),
                        ..forced
                    }
                }
            },
            Message::Up => {
                if forced.devices_focused {
                    if forced.focused_device is Some {
                        PendingPageState {
                            focused_device: spec_row_up(forced.focused_device, total_devices),
                            ..forced
                        }
                    } else {
                        PendingPageState {
                            focused_device: Some(spec_last_row(total_devices)),
                            focused_folder: Some(
                                match forced.focused_folder {
                                    Some(j) => j,
                                    None => spec_last_row(total_folders),
                                },
                            ),
                            ..forced
                        }
                    }
                } else if forced.focused_folder is Some {
                    PendingPageState {
                        focused_folder: spec_row_up(forced.focused_folder, total_folders),
                        ..forced
                    }
                } else {
                    PendingPageState {
                        focused_folder: Some(spec_last_row(total_folders)),
                        focused_device: Some(
                            match forced.focused_device {
                                Some(j) => j,
                                None => spec_last_row(total_devices),
                            },
                        ),
                        ..forced
                    }
                }
            },
            _ => forced,
        }
    }
}

/// The row below row `i`, wrapping to the first of `total` rows.
pub(crate) fn row_down_of(i: usize, total: usize) -> (r: usize)
    requires
        total > 0,
    ensures
        Some(r) == spec_row_down(Some(i), total),
{
    ((i % total) + 1) % total
}

/// The row above row `i`, wrapping to the last of `total` rows.
pub(crate) fn row_up_of(i: usize, total: usize) -> (r: usize)
    requires
        total > 0,
    ensures
        Some(r) == spec_row_up(Some(i), total),
{
    let im = i % total;
    let r = if im == 0 {
        total - 1
    } else {
        im - 1
    };
    proof {
        let t = total as int;
        let m = (i as int) % t;
        if m == 0 {
            vstd::arithmetic::div_mod::lemma_small_mod((t - 1) as nat, t as nat);
        } else {
            vstd::arithmetic::div_mod::lemma_mod_multiples_vanish(1, m - 1, t);
            vstd::arithmetic::div_mod::lemma_small_mod((m - 1) as nat, t as nat);
        }
    }
    r
}

/// The last row of a list, or the first where the list is empty.
pub(crate) fn last_row(total: usize) -> (r: usize)
    ensures
        r == spec_last_row(total),
{
    if total > 0 {
        total - 1
    } else {
        0
    }
}

impl PendingPageState {
    /// The highlighted pending device, when the device list is focused.
    pub fn device_selected(&self) -> (r: Option<usize>)
        ensures
            r == if self.devices_focused {
                self.focused_device
            } else {
                Option::<usize>::None
            },
    {
        if self.devices_focused {
            self.focused_device
        } else {
            None
        }
    }

    /// The highlighted pending offer, when the offer list is focused.
    pub fn folder_selected(&self) -> (r: Option<usize>)
        ensures
            r == if !self.devices_focused {
                self.focused_folder
            } else {
                Option::<usize>::None
            },
    {
        if !self.devices_focused {
            self.focused_folder
        } else {
            None
        }
    }

    /// Move the selection as the message asks, against the current list
    /// sizes.
    pub fn update(&mut self, msg: &Message, total_devices: usize, total_folders: usize)
        ensures
            *final(self) == spec_pending_update(*old(self), *msg, total_devices, total_folders),
    {
        match msg {
            Message::Left | Message::Right | Message::FocusNext | Message::FocusBack => {
                self.devices_focused = !self.devices_focused;
            },
            _ => {},
        }

        if total_devices == 0 && total_folders == 0 {
            self.focused_device = None;
            self.focused_folder = None;
            return ;
        }
        if total_devices == 0 {
            self.devices_focused = false;
        }
        if total_folders == 0 {
            self.devices_focused = true;
        }

        match msg {
            Message::Down => {
                if self.devices_focused {
                    if let Some(i) = self.focused_device {
                        self.focused_device = Some(((i % total_devices) + 1) % total_devices);
                    } else {
                        self.focused_device = Some(0);
                        self.focused_folder = Some(
                            match self.focused_folder {
                                Some(j) => j,
                                None => 0,
                            },
                        );
                    }
                } else if let Some(i) = self.focused_folder {
                    self.focused_folder = Some(((i % total_folders) + 1) % total_folders);
                } else {
                    self.focused_folder = Some(0);
                    self.focused_device = Some(
                        match self.focused_device {
                            Some(j) => j,
                            None => 0,
                        },
                    );
                }
            },
            Message::Up => {
                if self.devices_focused {
                    if let Some(i) = self.focused_device {
                        self.focused_device = Some(row_up_of(i, total_devices));
                    } else {
                        self.focused_device = Some(last_row(total_devices));
                        self.focused_folder = Some(
                            match self.focused_folder {
                                Some(j) => j,
                                None => last_row(total_folders),
                            },
                        );
                    }
                } else if let Some(i) = self.focused_folder {
                    self.focused_folder = Some(row_up_of(i, total_folders));
                } else {
                    self.focused_folder = Some(last_row(total_folders));
                    self.focused_device = Some(
                        match self.focused_device {
                            Some(j) => j,
                            None => last_row(total_devices),
                        },
                    );
                }
            },
            _ => {},
        }
    }
}

/// The identity page: shows the local device's ID, as text and as a
/// QR code rendered by the shell.
#[derive(Debug, Clone, PartialEq, Eq)]
pub struct IDPage {
    pub id: String,
}

impl IDPage {
    pub fn new(id: String) -> (r: Self)
        ensures
            r.id == id,
    {
        IDPage { id }
    }
}

} // verus!
