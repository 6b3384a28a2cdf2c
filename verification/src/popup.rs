use vstd::prelude::*;

use crate::input::Message;
use crate::types::FolderConfiguration;
use crate::types::FolderDevice;
use crate::types::NewFolderConfiguration;

verus! {

// ---------------------------------------------------------------------------
// A one-line text box editing a sequence of characters.
// ---------------------------------------------------------------------------

/// A one-line editable text box: its characters, and the cursor position
/// as a character index.
#[derive(Debug, PartialEq, Eq)]
pub struct TextBox {
    pub text: Vec<char>,
    pub index: usize,
}

/// The number of bytes one character occupies in its UTF-8 encoding.
pub open spec fn utf8_len(c: char) -> nat {
    if (c as u32) < 0x80 {
        1
    } else if (c as u32) < 0x800 {
        2
    } else if (c as u32) < 0x10000 {
        3
    } else {
        4
    }
}

/// The byte offset of character position `n` in `s`.
pub open spec fn spec_byte_index(s: Seq<char>, n: int) -> nat
    decreases n,
{
    if n <= 0 {
        0
    } else {
        spec_byte_index(s, n - 1) + utf8_len(s[n - 1])
    }
}

/// Byte offsets grow with the character position.
proof fn lemma_byte_index_mono(s: Seq<char>, a: int, b: int)
    requires
        0 <= a <= b,
    ensures
        spec_byte_index(s, a) <= spec_byte_index(s, b),
    decreases b - a,
{
    if a < b {
        lemma_byte_index_mono(s, a, b - 1);
    }
}

impl Default for TextBox {
    fn default() -> (r: Self)
        ensures
            r.text@.len() == 0,
            r.index == 0,
    {
        TextBox { text: Vec::new(), index: 0 }
    }
}

impl TextBox {
    /// The cursor never passes the end of the text.
    pub open spec fn wf(&self) -> bool {
        self.index <= self.text@.len()
    }

    /// A text box holding `text`, with the cursor at the end.
    pub fn from_text(text: Vec<char>) -> (r: Self)
        ensures
            r.text == text,
            r.index == text@.len(),
            r.wf(),
    {
        let index = text.len();
        TextBox { text, index }
    }

    /// Clamp a cursor position to the text.
    pub fn clamp_cursor(&self, new_cursor_pos: usize) -> (r: usize)
        ensures
            r == if new_cursor_pos <= self.text@.len() {
                new_cursor_pos as int
            } else {
                self.text@.len() as int
            },
    {
        if new_cursor_pos <= self.text.len() {
            new_cursor_pos
        } else {
            self.text.len()
        }
    }

    /// Move the cursor one character to the left, stopping at the start,
    /// and clamp it to the text.
    pub fn move_cursor_left(&mut self)
        ensures
            final(self).text == old(self).text,
            final(self).index == vstd::math::min(
                if old(self).index > 0 {
                    old(self).index - 1
                } else {
                    0int
                },
                old(self).text@.len() as int,
            ),
            final(self).wf(),
    {
        let moved: usize = if self.index > 0 {
            self.index - 1
        } else {
            0
        };
        self.index = if moved <= self.text.len() {
            moved
        } else {
            self.text.len()
        };
    }

    /// Move the cursor one character to the right, stopping at the end.
    pub fn move_cursor_right(&mut self)
        requires
            old(self).wf(),
        ensures
            final(self).text == old(self).text,
            final(self).index == if old(self).index + 1 <= old(self).text@.len() {
                old(self).index + 1
            } else {
                old(self).text@.len() as int
            },
            final(self).wf(),
    {
        let moved: usize = if self.index < usize::MAX {
            self.index + 1
        } else {
            self.index
        };
        self.index = if moved <= self.text.len() {
            moved
        } else {
            self.text.len()
        };
    }

    /// Insert a character at the cursor and move the cursor past it.
    pub fn enter_char(&mut self, new_char: char)
        requires
            old(self).wf(),
            old(self).text@.len() < usize::MAX,
        ensures
            final(self).text@ == old(self).text@.insert(old(self).index as int, new_char),
            final(self).index == old(self).index + 1,
            final(self).wf(),
    {
        let index = self.index;
        self.text.insert(index, new_char);
        self.move_cursor_right();
    }

    /// The byte offset of the cursor: text boxes count in characters, but
    /// a renderer addressing bytes needs the UTF-8 offset.
    pub fn byte_index(&self) -> (r: usize)
        requires
            self.wf(),
            spec_byte_index(self.text@, self.index as int) <= usize::MAX,
        ensures
            r == spec_byte_index(self.text@, self.index as int),
    {
        let mut acc: usize = 0;
        let mut i: usize = 0;
        while i < self.index
            invariant
                self.wf(),
                spec_byte_index(self.text@, self.index as int) <= usize::MAX,
                i <= self.index,
                acc == spec_byte_index(self.text@, i as int),
            decreases self.index - i,
        {
            proof {
                lemma_byte_index_mono(self.text@, i + 1, self.index as int);
            }
            let c = self.text[i];
            let u = c as u32;
            let step: usize = if u < 0x80 {
                1
            } else if u < 0x800 {
                2
            } else if u < 0x10000 {
                3
            } else {
                4
            };
            acc = acc + step;
            i += 1;
        }
        acc
    }

    /// Delete the character before the cursor, if any, and move the
    /// cursor onto its place.
    pub fn delete_char(&mut self)
        requires
            old(self).wf(),
        ensures
            old(self).index == 0 ==> *final(self) == *old(self),
            old(self).index > 0 ==> {
                &&& final(self).text@ == old(self).text@.remove(old(self).index - 1)
                &&& final(self).index == old(self).index - 1
            },
            final(self).wf(),
    {
        if self.index != 0 {
            let at = self.index - 1;
            self.text.remove(at);
            self.move_cursor_left();
        }
    }
}

// ---------------------------------------------------------------------------
// Button rows and field focus of the popups.
// ---------------------------------------------------------------------------

/// The three buttons of a pending-entity popup.
#[derive(Debug, Clone, Copy, PartialEq, Eq)]
pub enum PendingFocus {
    Accept,
    Ignore,
    Dismiss,
}

/// The button to the right of this one, stopping at the last.
pub open spec fn spec_pending_focus_next(f: PendingFocus) -> PendingFocus {
    match f {
        PendingFocus::Accept => PendingFocus::Ignore,
        PendingFocus::Ignore => PendingFocus::Dismiss,
        PendingFocus::Dismiss => PendingFocus::Dismiss,
    }
}

/// The button to the left of this one, stopping at the first.
pub open spec fn spec_pending_focus_prev(f: PendingFocus) -> PendingFocus {
    match f {
        PendingFocus::Accept => PendingFocus::Accept,
        PendingFocus::Ignore => PendingFocus::Accept,
        PendingFocus::Dismiss => PendingFocus::Ignore,
    }
}

impl Default for PendingFocus {
    fn default() -> (r: Self)
        ensures
            r == PendingFocus::Accept,
    {
        PendingFocus::Accept
    }
}

impl PendingFocus {
    /// Move the focus one button to the right.
    pub fn next(&mut self)
        ensures
            *final(self) == spec_pending_focus_next(*old(self)),
    {
        match self {
            PendingFocus::Accept => {
                *self = PendingFocus::Ignore;
            },
            PendingFocus::Ignore => {
                *self = PendingFocus::Dismiss;
            },
            PendingFocus::Dismiss => {},
        }
    }

    /// Move the focus one button to the left.
    pub fn prev(&mut self)
        ensures
            *final(self) == spec_pending_focus_prev(*old(self)),
    {
        match self {
            PendingFocus::Accept => {},
            PendingFocus::Ignore => {
                *self = PendingFocus::Accept;
            },
            PendingFocus::Dismiss => {
                *self = PendingFocus::Ignore;
            },
        }
    }
}

/// The fields of the new-folder popup, in focus order.
#[derive(Debug, Clone, Copy, PartialEq, Eq)]
pub enum NewFolderFocus {
    Path,
    Label,
    Id,
    Device(usize),
    SubmitButton,
}

impl Default for NewFolderFocus {
    fn default() -> (r: Self)
        ensures
            r == NewFolderFocus::Path,
    {
        NewFolderFocus::Path
    }
}

impl NewFolderFocus {
    /// Is a text field focused (rather than the device list or the
    /// submit button)?
    pub fn is_input(&self) -> (r: bool)
        ensures
            r == !(self matches NewFolderFocus::Device(_) || self is SubmitButton),
    {
        !(matches!(self, NewFolderFocus::Device(_)) || matches!(self, NewFolderFocus::SubmitButton))
    }
}

/// The two tabs of the folder popup.
#[derive(Debug, Clone, Copy, PartialEq, Eq)]
pub enum FolderFocus {
    General,
    Sharing,
}

impl Default for FolderFocus {
    fn default() -> (r: Self)
        ensures
            r == FolderFocus::General,
    {
        FolderFocus::General
    }
}

impl FolderFocus {
    /// The tab a number key selects: the tabs are numbered from one.
    pub fn try_from(v: u32) -> (r: Result<FolderFocus, ()>)
        ensures
            v == 1 ==> r == Ok::<FolderFocus, ()>(FolderFocus::General),
            v == 2 ==> r == Ok::<FolderFocus, ()>(FolderFocus::Sharing),
            !(1 <= v <= 2) ==> r is Err,
    {
        if v == 1 {
            Ok(FolderFocus::General)
        } else if v == 2 {
            Ok(FolderFocus::Sharing)
        } else {
            Err(())
        }
    }
}

/// The fields of the folder popup's general tab, in focus order.
#[derive(Debug, Clone, Copy, PartialEq, Eq)]
pub enum FolderGeneralFocus {
    Label,
    ID,
    Path,
    Submit,
}

/// The field after this one, stopping at the submit button.
pub open spec fn spec_general_focus_next(f: FolderGeneralFocus) -> FolderGeneralFocus {
    match f {
        FolderGeneralFocus::Label => FolderGeneralFocus::ID,
        FolderGeneralFocus::ID => FolderGeneralFocus::Path,
        FolderGeneralFocus::Path => FolderGeneralFocus::Submit,
        FolderGeneralFocus::Submit => FolderGeneralFocus::Submit,
    }
}

/// The field before this one, stopping at the first.
pub open spec fn spec_general_focus_prev(f: FolderGeneralFocus) -> FolderGeneralFocus {
    match f {
        FolderGeneralFocus::Label => FolderGeneralFocus::Label,
        FolderGeneralFocus::ID => FolderGeneralFocus::Label,
        FolderGeneralFocus::Path => FolderGeneralFocus::ID,
        FolderGeneralFocus::Submit => FolderGeneralFocus::Path,
    }
}

impl Default for FolderGeneralFocus {
    fn default() -> (r: Self)
        ensures
            r == FolderGeneralFocus::Label,
    {
        FolderGeneralFocus::Label
    }
}

impl FolderGeneralFocus {
    /// Move the focus one field down.
    pub fn next(&mut self)
        ensures
            *final(self) == spec_general_focus_next(*old(self)),
    {
        match self {
            FolderGeneralFocus::Label => {
                *self = FolderGeneralFocus::ID;
            },
            FolderGeneralFocus::ID => {
                *self = FolderGeneralFocus::Path;
            },
            FolderGeneralFocus::Path => {
                *self = FolderGeneralFocus::Submit;
            },
            FolderGeneralFocus::Submit => {},
        }
    }

    /// Move the focus one field up.
    pub fn prev(&mut self)
        ensures
            *final(self) == spec_general_focus_prev(*old(self)),
    {
        match self {
            FolderGeneralFocus::Label => {},
            FolderGeneralFocus::ID => {
                *self = FolderGeneralFocus::Label;
            },
            FolderGeneralFocus::Path => {
                *self = FolderGeneralFocus::ID;
            },
            FolderGeneralFocus::Submit => {
                *self = FolderGeneralFocus::Path;
            },
        }
    }
}

// ---------------------------------------------------------------------------
// The pending-device popup: accept, ignore or dismiss one pending device.
// ---------------------------------------------------------------------------

/// A popup offering to accept, ignore or dismiss a device that wants to
/// connect.
#[derive(Debug, PartialEq, Eq)]
pub struct PendingDevicePopup {
    pub device_id: String,
    pub focus: PendingFocus,
}

impl PendingDevicePopup {
    pub fn new(device_id: String) -> (r: Self)
        ensures
            r.device_id == device_id,
            r.focus == PendingFocus::Accept,
    {
        PendingDevicePopup { device_id, focus: PendingFocus::default() }
    }

    /// The message the focused button stands for.
    fn submit(&self) -> (r: Option<Message>)
        ensures
            match self.focus {
                PendingFocus::Accept => r matches Some(Message::AcceptDevice(d)) && d@
                    == self.device_id@,
                PendingFocus::Ignore => r matches Some(Message::IgnoreDevice(d)) && d@
                    == self.device_id@,
                PendingFocus::Dismiss => r matches Some(Message::DismissDevice(d)) && d@
                    == self.device_id@,
            },
    {
        match self.focus {
            PendingFocus::Accept => Some(Message::AcceptDevice(self.device_id.clone())),
            PendingFocus::Ignore => Some(Message::IgnoreDevice(self.device_id.clone())),
            PendingFocus::Dismiss => Some(Message::DismissDevice(self.device_id.clone())),
        }
    }

    /// React to one message: quit closes the popup, horizontal movement
    /// shifts the button focus, and select or submit answers with the
    /// focused button's message.
    pub fn update(&mut self, msg: &Message) -> (r: Option<Message>)
        ensures
            match msg {
                Message::Quit => r == Some(Message::Quit) && *final(self) == *old(self),
                Message::FocusNext | Message::Right => r is None && final(self).focus
                    == spec_pending_focus_next(old(self).focus) && final(self).device_id == old(self).device_id,
                Message::FocusBack | Message::Left => r is None && final(self).focus
                    == spec_pending_focus_prev(old(self).focus) && final(self).device_id == old(self).device_id,
                Message::Select | Message::Submit => *final(self) == *old(self) && (match old(self).focus {
                    PendingFocus::Accept => r matches Some(Message::AcceptDevice(d)) && d@ == old(self).device_id@,
                    PendingFocus::Ignore => r matches Some(Message::IgnoreDevice(d)) && d@ == old(self).device_id@,
                    PendingFocus::Dismiss => r matches Some(Message::DismissDevice(d)) && d@
                        == old(self).device_id@,
                }),
                _ => r is None && *final(self) == *old(self),
            },
    {
        match msg {
            Message::Quit => Some(Message::Quit),
            Message::FocusNext | Message::Right => {
                self.focus.next();
                None
            },
            Message::FocusBack | Message::Left => {
                self.focus.prev();
                None
            },
            Message::Select | Message::Submit => self.submit(),
            _ => None,
        }
    }
}

// ---------------------------------------------------------------------------
// The share-folder popup: share an already configured folder with the
// device that offered it, or dismiss the offer.
// ---------------------------------------------------------------------------

/// A popup offering to share an existing folder with a device, or to
/// dismiss the pending offer. The ignore choice is not implemented.
#[derive(Debug, PartialEq, Eq)]
pub struct PendingShareFolderPopup {
    pub folder_id: String,
    pub device_id: String,
    pub focus: PendingFocus,
}

impl PendingShareFolderPopup {
    pub fn new(folder_id: String, device_id: String) -> (r: Self)
        ensures
            r.folder_id == folder_id,
            r.device_id == device_id,
            r.focus == PendingFocus::Accept,
    {
        PendingShareFolderPopup { folder_id, device_id, focus: PendingFocus::default() }
    }

    /// The message the focused button stands for. Ignoring an offer is
    /// not implemented, so the ignore button must not be submitted.
    fn submit(&self) -> (r: Option<Message>)
        requires
            !(self.focus is Ignore),
        ensures
            match self.focus {
                PendingFocus::Accept => r matches Some(
                    Message::ShareFolder { folder_id, device_id },
                ) && folder_id@ == self.folder_id@ && device_id@ == self.device_id@,
                PendingFocus::Ignore => false,
                PendingFocus::Dismiss => r matches Some(
                    Message::DismissFolder { folder_id, device_id },
                ) && folder_id@ == self.folder_id@ && device_id@ == self.device_id@,
            },
    {
        match self.focus {
            PendingFocus::Accept => Some(
                Message::ShareFolder {
                    folder_id: self.folder_id.clone(),
                    device_id: self.device_id.clone(),
                },
            ),
            PendingFocus::Ignore => None,
            PendingFocus::Dismiss => Some(
                Message::DismissFolder {
                    folder_id: self.folder_id.clone(),
                    device_id: self.device_id.clone(),
                },
            ),
        }
    }

    /// React to one message, as the pending-device popup does. The
    /// ignore button must not be submitted: ignoring an offer is not
    /// implemented.
    pub fn update(&mut self, msg: &Message) -> (r: Option<Message>)
        requires
            !((msg is Select || msg is Submit) && old(self).focus is Ignore),
        ensures
            match msg {
                Message::Quit => r == Some(Message::Quit) && *final(self) == *old(self),
                Message::FocusNext | Message::Right => r is None && final(self).focus
                    == spec_pending_focus_next(old(self).focus) && final(self).folder_id == old(self).folder_id && final(self).device_id == old(self).device_id,
                Message::FocusBack | Message::Left => r is None && final(self).focus
                    == spec_pending_focus_prev(old(self).focus) && final(self).folder_id == old(self).folder_id && final(self).device_id == old(self).device_id,
                Message::Select | Message::Submit => *final(self) == *old(self) && (match old(self).focus {
                    PendingFocus::Accept => r matches Some(
                        Message::ShareFolder { folder_id, device_id },
                    ) && folder_id@ == old(self).folder_id@ && device_id@ == old(self).device_id@,
                    PendingFocus::Ignore => false,
                    PendingFocus::Dismiss => r matches Some(
                        Message::DismissFolder { folder_id, device_id },
                    ) && folder_id@ == old(self).folder_id@ && device_id@ == old(self).device_id@,
                }),
                _ => r is None && *final(self) == *old(self),
            },
    {
        match msg {
            Message::Quit => Some(Message::Quit),
            Message::FocusNext | Message::Right => {
                self.focus.next();
                None
            },
            Message::FocusBack | Message::Left => {
                self.focus.prev();
                None
            },
            Message::Select | Message::Submit => self.submit(),
            _ => None,
        }
    }
}


// ---------------------------------------------------------------------------
// The new-folder popup: create a folder, or accept an offered one.
// ---------------------------------------------------------------------------

/// The position of the first selected ID equal to `id`.
pub open spec fn is_first_selected(selected: Seq<String>, id: Seq<char>, k: int) -> bool {
    &&& 0 <= k < selected.len()
    &&& selected[k]@ == id
    &&& forall|m: int| 0 <= m < k ==> (#[trigger] selected[m])@ != id
}

/// Some selected ID equals `id`.
pub open spec fn has_selected(selected: Seq<String>, id: Seq<char>) -> bool {
    exists|k: int| 0 <= k < selected.len() && (#[trigger] selected[k])@ == id
}

/// The field the next-field key moves to, given how many other devices
/// can be selected.
pub open spec fn spec_new_folder_next(f: NewFolderFocus, devices_len: int) -> NewFolderFocus {
    match f {
        NewFolderFocus::Path => NewFolderFocus::Label,
        NewFolderFocus::Label => NewFolderFocus::Id,
        NewFolderFocus::Id => if devices_len > 0 {
            NewFolderFocus::Device(0)
        } else {
            NewFolderFocus::SubmitButton
        },
        NewFolderFocus::Device(i) => if i + 1 < devices_len {
            NewFolderFocus::Device((i + 1) as usize)
        } else {
            NewFolderFocus::SubmitButton
        },
        NewFolderFocus::SubmitButton => NewFolderFocus::SubmitButton,
    }
}

/// The field the previous-field key moves to.
pub open spec fn spec_new_folder_prev(f: NewFolderFocus, devices_len: int) -> NewFolderFocus {
    match f {
        NewFolderFocus::Path => NewFolderFocus::Path,
        NewFolderFocus::Label => NewFolderFocus::Path,
        NewFolderFocus::Id => NewFolderFocus::Label,
        NewFolderFocus::Device(i) => if i == 0 {
            NewFolderFocus::Id
        } else {
            NewFolderFocus::Device((i - 1) as usize)
        },
        NewFolderFocus::SubmitButton => if devices_len > 0 {
            NewFolderFocus::Device((devices_len - 1) as usize)
        } else {
            NewFolderFocus::Id
        },
    }
}

/// No text box of the new-folder form changed.
pub open spec fn unedited_form(pre: NewFolderPopup, post: NewFolderPopup) -> bool {
    &&& post.id_input == pre.id_input
    &&& post.label_input == pre.label_input
    &&& post.path_input == pre.path_input
}

/// A popup collecting a new folder's path, label, ID, and the devices to
/// share it with.
#[derive(Debug, PartialEq, Eq)]
pub struct NewFolderPopup {
    pub id_input: TextBox,
    pub label_input: TextBox,
    pub path_input: TextBox,
    pub focus: NewFolderFocus,
    pub selected_devices: Vec<String>,
}

impl NewFolderPopup {
    /// All text boxes keep their cursors inside their text.
    pub open spec fn wf(&self) -> bool {
        self.id_input.wf() && self.label_input.wf() && self.path_input.wf()
    }

    /// An empty form.
    pub fn new() -> (r: Self)
        ensures
            r.id_input.text@.len() == 0,
            r.label_input.text@.len() == 0,
            r.path_input.text@.len() == 0,
            r.focus == NewFolderFocus::Path,
            r.selected_devices@.len() == 0,
            r.wf(),
    {
        NewFolderPopup {
            id_input: TextBox::default(),
            label_input: TextBox::default(),
            path_input: TextBox::default(),
            focus: NewFolderFocus::default(),
            selected_devices: Vec::new(),
        }
    }

    /// A form for accepting a folder offered by another device: the
    /// offered label and ID are filled in and the offering device is
    /// preselected; only the local path is still missing.
    pub fn new_from_device(folder_label: &str, folder_id: &str, device_id: String) -> (r: Self)
        ensures
            r.id_input.text@ == folder_id@,
            r.label_input.text@ == folder_label@,
            r.path_input.text@.len() == 0,
            r.focus == NewFolderFocus::Path,
            r.selected_devices@.len() == 1,
            r.selected_devices@[0] == device_id,
            r.wf(),
    {
        let mut selected_devices: Vec<String> = Vec::new();
        selected_devices.push(device_id);
        NewFolderPopup {
            id_input: TextBox::from_text(crate::order::string_to_chars(folder_id)),
            label_input: TextBox::from_text(crate::order::string_to_chars(folder_label)),
            path_input: TextBox::default(),
            focus: NewFolderFocus::default(),
            selected_devices,
        }
    }

    /// Move the focus to the next field, past the device list if it is
    /// empty.
    pub fn select_next(&mut self, devices_len: usize)
        ensures
            final(self).focus == spec_new_folder_next(old(self).focus, devices_len as int),
            final(self).id_input == old(self).id_input,
            final(self).label_input == old(self).label_input,
            final(self).path_input == old(self).path_input,
            final(self).selected_devices == old(self).selected_devices,
    {
        match self.focus {
            NewFolderFocus::Path => {
                self.focus = NewFolderFocus::Label;
            },
            NewFolderFocus::Label => {
                self.focus = NewFolderFocus::Id;
            },
            NewFolderFocus::Id => {
                if devices_len > 0 {
                    self.focus = NewFolderFocus::Device(0);
                } else {
                    self.focus = NewFolderFocus::SubmitButton;
                }
            },
            NewFolderFocus::Device(i) => {
                if i < usize::MAX && i + 1 < devices_len {
                    self.focus = NewFolderFocus::Device(i + 1);
                } else {
                    self.focus = NewFolderFocus::SubmitButton;
                }
            },
            NewFolderFocus::SubmitButton => {},
        }
    }

    /// Move the focus to the previous field.
    pub fn select_prev(&mut self, devices_len: usize)
        ensures
            final(self).focus == spec_new_folder_prev(old(self).focus, devices_len as int),
            final(self).id_input == old(self).id_input,
            final(self).label_input == old(self).label_input,
            final(self).path_input == old(self).path_input,
            final(self).selected_devices == old(self).selected_devices,
    {
        match self.focus {
            NewFolderFocus::Path => {},
            NewFolderFocus::Label => {
                self.focus = NewFolderFocus::Path;
            },
            NewFolderFocus::Id => {
                self.focus = NewFolderFocus::Label;
            },
            NewFolderFocus::Device(i) => {
                if i == 0 {
                    self.focus = NewFolderFocus::Id;
                } else {
                    self.focus = NewFolderFocus::Device(i - 1);
                }
            },
            NewFolderFocus::SubmitButton => {
                if devices_len > 0 {
                    self.focus = NewFolderFocus::Device(devices_len - 1);
                } else {
                    self.focus = NewFolderFocus::Id;
                }
            },
        }
    }

    /// The folder the form stands for: ID and path from the text boxes,
    /// the label as typed, shared with the selected devices.
    pub open spec fn spec_submitted(&self) -> crate::types::NewFolderConfigurationView {
        crate::types::NewFolderConfigurationView {
            id: self.id_input.text@,
            path: self.path_input.text@,
            label: Some(self.label_input.text@),
            devices: self.selected_devices@.map_values(
                |d: String|
                    crate::types::FolderDeviceView {
                        device_id: d@,
                        introduced_by: Seq::empty(),
                        encryption_password: Seq::empty(),
                    },
            ),
        }
    }

    /// Leave insert mode and answer with the folder the form stands for.
    fn submit(&self, mode: &mut crate::app::CurrentMode) -> (r: Option<Message>)
        ensures
            *final(mode) == crate::app::CurrentMode::Normal,
            r matches Some(Message::NewFolder(f)) && f@ == self.spec_submitted(),
    {
        *mode = crate::app::CurrentMode::Normal;
        let mut devices: Vec<FolderDevice> = Vec::new();
        let ghost target = self.spec_submitted().devices;
        for i in 0..self.selected_devices.len()
            invariant
                target == self.spec_submitted().devices,
                target.len() == self.selected_devices@.len(),
                crate::types::dv_seq(devices@) == target.take(i as int),
        {
            let ghost prev = devices@;
            devices.push(FolderDevice::new(self.selected_devices[i].as_str()));
            proof {
                let pushed = devices@[devices@.len() - 1];
                crate::types::lemma_dv_push(prev, pushed);
                assert(pushed@.introduced_by =~= Seq::<char>::empty());
                assert(pushed@.encryption_password =~= Seq::<char>::empty());
                assert(pushed.deep_view() =~= target[i as int]);
                assert(target.take(i as int).push(target[i as int]) =~= target.take(i + 1));
            }
        }
        proof {
            assert(target.take(target.len() as int) =~= target);
        }
        let folder = NewFolderConfiguration::new(
            crate::order::chars_to_string(&self.id_input.text),
            crate::order::chars_to_string(&self.path_input.text),
        ).label(crate::order::chars_to_string(&self.label_input.text)).devices(devices);
        proof {
            assert(folder@ =~= self.spec_submitted());
        }
        Some(Message::NewFolder(Box::new(folder)))
    }

    /// Toggle whether the folder is shared with this device.
    fn toggle_device(&mut self, device_id: &String)
        ensures
            final(self).id_input == old(self).id_input,
            final(self).label_input == old(self).label_input,
            final(self).path_input == old(self).path_input,
            final(self).focus == old(self).focus,
            if has_selected(old(self).selected_devices@, device_id@) {
                exists|k: int|
                    #[trigger] is_first_selected(old(self).selected_devices@, device_id@, k)
                        && final(self).selected_devices@ == old(self).selected_devices@.remove(k)
            } else {
                final(self).selected_devices@ == old(self).selected_devices@.push(*device_id)
            },
    {
        let mut i: usize = 0;
        while i < self.selected_devices.len()
            invariant
                i <= self.selected_devices@.len(),
                forall|m: int| 0 <= m < i ==> (#[trigger] self.selected_devices@[m])@
                    != device_id@,
                *self == *old(self),
            decreases self.selected_devices@.len() - i,
        {
            if crate::order::str_eq(self.selected_devices[i].as_str(), device_id.as_str()) {
                proof {
                    assert(is_first_selected(self.selected_devices@, device_id@, i as int));
                }
                self.selected_devices.remove(i);
                return ;
            }
            i += 1;
        }
        self.selected_devices.push(device_id.clone());
    }

    /// React to one message. Text keys edit the focused text box;
    /// vertical movement shifts the field focus; horizontal movement
    /// also walks the device list; select toggles the focused device or,
    /// on the submit button, submits the form.
    pub fn update(
        &mut self,
        msg: &Message,
        mode: &mut crate::app::CurrentMode,
        others: &Vec<crate::state::Device>,
    ) -> (r: Option<Message>)
        requires
            old(self).wf(),
        ensures
            final(self).wf(),
            msg is Quit ==> r == Some(Message::Quit) && *final(self) == *old(self) && *final(mode)
                == *old(mode),
            (msg is Select && old(self).focus is SubmitButton) || msg is Submit ==> {
                &&& *final(mode) == crate::app::CurrentMode::Normal
                &&& r matches Some(Message::NewFolder(f)) && f@ == old(self).spec_submitted()
            },
            !((msg is Select && old(self).focus is SubmitButton) || msg is Submit) ==> *final(mode)
                == *old(mode),
            !(msg is Quit || (msg is Select && old(self).focus is SubmitButton) || msg is Submit)
                ==> r is None,
            match msg {
                Message::FocusNext | Message::Down => {
                    &&& final(self).focus == spec_new_folder_next(
                        old(self).focus,
                        others@.len() as int,
                    )
                    &&& unedited_form(*old(self), *final(self))
                    &&& final(self).selected_devices == old(self).selected_devices
                },
                Message::FocusBack | Message::Up => {
                    &&& final(self).focus == spec_new_folder_prev(
                        old(self).focus,
                        others@.len() as int,
                    )
                    &&& unedited_form(*old(self), *final(self))
                    &&& final(self).selected_devices == old(self).selected_devices
                },
                Message::Character(c) => {
                    &&& final(self).focus == old(self).focus
                    &&& final(self).selected_devices == old(self).selected_devices
                    &&& (match old(self).focus {
                        NewFolderFocus::Id => edited_insert(old(self).id_input, final(self).id_input, *c)
                            && final(self).label_input == old(self).label_input
                            && final(self).path_input == old(self).path_input,
                        NewFolderFocus::Label => edited_insert(
                            old(self).label_input,
                            final(self).label_input,
                            *c,
                        ) && final(self).id_input == old(self).id_input && final(self).path_input
                            == old(self).path_input,
                        NewFolderFocus::Path => edited_insert(
                            old(self).path_input,
                            final(self).path_input,
                            *c,
                        ) && final(self).id_input == old(self).id_input && final(self).label_input
                            == old(self).label_input,
                        _ => unedited_form(*old(self), *final(self)),
                    })
                },
                Message::Select => {
                    match old(self).focus {
                        NewFolderFocus::Device(i) => {
                            &&& final(self).focus == old(self).focus
                            &&& unedited_form(*old(self), *final(self))
                            &&& if i < others@.len() {
                                let id = others@[i as int]@.config.device_id;
                                if has_selected(old(self).selected_devices@, id) {
                                    exists|k: int|
                                        #[trigger] is_first_selected(
                                            old(self).selected_devices@,
                                            id,
                                            k,
                                        ) && final(self).selected_devices@ == old(self).selected_devices@.remove(k)
                                } else {
                                    final(self).selected_devices@.len() == old(self).selected_devices@.len() + 1 && final(self).selected_devices@[old(self).selected_devices@.len() as int]@
                                        == id && (forall|m: int|
                                        0 <= m < old(self).selected_devices@.len() ==> final(self).selected_devices@[m] == old(self).selected_devices@[m])
                                }
                            } else {
                                final(self).selected_devices == old(self).selected_devices
                            }
                        },
                        NewFolderFocus::SubmitButton => true,
                        _ => {
                            &&& final(self).focus == spec_new_folder_next(
                                old(self).focus,
                                others@.len() as int,
                            )
                            &&& unedited_form(*old(self), *final(self))
                            &&& final(self).selected_devices == old(self).selected_devices
                        },
                    }
                },
                _ => true,
            },
    {
        let input = match self.focus {
            NewFolderFocus::Id => Some(&mut self.id_input),
            NewFolderFocus::Label => Some(&mut self.label_input),
            NewFolderFocus::Path => Some(&mut self.path_input),
            _ => None,
        };

        if let Some(input) = input {
            match msg {
                Message::Character(c) => {
                    if input.text.len() < usize::MAX {
                        input.enter_char(*c);
                    }
                },
                Message::Backspace => input.delete_char(),
                Message::Left => input.move_cursor_left(),
                Message::Right => input.move_cursor_right(),
                _ => {},
            }
        }

        match msg {
            Message::Quit => {
                return Some(Message::Quit);
            },
            Message::FocusNext | Message::Down => self.select_next(others.len()),
            Message::FocusBack | Message::Up => self.select_prev(others.len()),
            Message::Left => {
                if let NewFolderFocus::Device(i) = self.focus {
                    if i > 0 {
                        self.select_prev(others.len());
                    }
                }
            },
            Message::Right => {
                if let NewFolderFocus::Device(_) = self.focus {
                    self.select_next(others.len());
                }
            },
            Message::Select => {
                match self.focus {
                    NewFolderFocus::SubmitButton => {
                        return self.submit(mode);
                    },
                    NewFolderFocus::Device(i) => {
                        if i < others.len() {
                            let device_id = others[i].config.device_id.clone();
                            self.toggle_device(&device_id);
                        }
                    },
                    _ => self.select_next(others.len()),
                }
            },
            Message::Submit => {
                return self.submit(mode);
            },
            _ => {},
        }
        None
    }
}

// ---------------------------------------------------------------------------
// The folder popup: inspect and edit one configured folder.
// ---------------------------------------------------------------------------

/// The tab shown after one message: a number key switches tabs, and
/// every other key keeps the current one.
pub open spec fn spec_folder_tab(focus: FolderFocus, msg: Message) -> FolderFocus {
    match msg {
        Message::Number(n) => if n == 1 {
            FolderFocus::General
        } else if n == 2 {
            FolderFocus::Sharing
        } else {
            focus
        },
        _ => focus,
    }
}

/// No text box of the folder editor changed.
pub open spec fn unedited(pre: FolderPopup, post: FolderPopup) -> bool {
    &&& post.label == pre.label
    &&& post.id == pre.id
    &&& post.path == pre.path
}

/// The text box took one typed character at its cursor (unless it was
/// already at the size limit).
pub open spec fn edited_insert(pre: TextBox, post: TextBox, c: char) -> bool {
    if pre.text@.len() < usize::MAX {
        post.text@ == pre.text@.insert(pre.index as int, c) && post.index == pre.index + 1
    } else {
        post == pre
    }
}

/// A popup showing one configured folder: a general tab with its label,
/// ID and path, and a sharing tab walking the other devices.
#[derive(Debug, PartialEq, Eq)]
pub struct FolderPopup {
    pub folder: FolderConfiguration,
    pub id: TextBox,
    pub label: TextBox,
    pub path: TextBox,
    pub devices: Vec<String>,
    pub selected_device: Option<usize>,
    pub focus: FolderFocus,
    pub general_focus: FolderGeneralFocus,
}

impl FolderPopup {
    pub open spec fn wf(&self) -> bool {
        self.id.wf() && self.label.wf() && self.path.wf()
    }

    /// A popup editing `folder`, its fields prefilled and its sharing
    /// list taken from the folder's device entries.
    pub fn new(folder: FolderConfiguration) -> (r: Self)
        ensures
            r.folder@ == folder@,
            r.id.text@ == folder@.id,
            r.label.text@ == folder@.label,
            r.path.text@ == folder@.path,
            crate::types::dv_seq(r.devices@) == folder@.devices.map_values(
                |d: crate::types::FolderDeviceView| d.device_id,
            ),
            r.selected_device is None,
            r.focus == FolderFocus::General,
            r.general_focus == FolderGeneralFocus::Label,
            r.wf(),
    {
        let mut devices: Vec<String> = Vec::new();
        let ghost target = folder@.devices.map_values(
            |d: crate::types::FolderDeviceView| d.device_id,
        );
        for i in 0..folder.devices.len()
            invariant
                target == folder@.devices.map_values(
                    |d: crate::types::FolderDeviceView| d.device_id,
                ),
                target.len() == folder.devices@.len(),
                crate::types::dv_seq(devices@) == target.take(i as int),
        {
            let ghost prev = devices@;
            devices.push(folder.devices[i].device_id.clone());
            proof {
                crate::types::lemma_dv_push(prev, devices@[devices@.len() - 1]);
                crate::types::lemma_dv_seq_vec(&folder.devices);
                crate::types::lemma_dv_index(folder.devices@, i as int);
                assert(target.take(i as int).push(target[i as int]) =~= target.take(i + 1));
            }
        }
        proof {
            assert(target.take(target.len() as int) =~= target);
        }
        let id = TextBox::from_text(crate::order::string_to_chars(folder.id.as_str()));
        let label = TextBox::from_text(crate::order::string_to_chars(folder.label.as_str()));
        let path = TextBox::from_text(crate::order::string_to_chars(folder.path.as_str()));
        FolderPopup {
            folder,
            id,
            label,
            path,
            devices,
            selected_device: None,
            focus: FolderFocus::default(),
            general_focus: FolderGeneralFocus::default(),
        }
    }

    /// Toggle whether the folder's sharing list carries this device.
    fn toggle_device(&mut self, device_id: &String)
        ensures
            final(self).folder == old(self).folder,
            final(self).id == old(self).id,
            final(self).label == old(self).label,
            final(self).path == old(self).path,
            final(self).selected_device == old(self).selected_device,
            final(self).focus == old(self).focus,
            final(self).general_focus == old(self).general_focus,
            if has_selected(old(self).devices@, device_id@) {
                exists|k: int|
                    #[trigger] is_first_selected(old(self).devices@, device_id@, k)
                        && final(self).devices@ == old(self).devices@.remove(k)
            } else {
                final(self).devices@ == old(self).devices@.push(*device_id)
            },
    {
        let mut i: usize = 0;
        while i < self.devices.len()
            invariant
                i <= self.devices@.len(),
                forall|m: int| 0 <= m < i ==> (#[trigger] self.devices@[m])@ != device_id@,
                *self == *old(self),
            decreases self.devices@.len() - i,
        {
            if crate::order::str_eq(self.devices[i].as_str(), device_id.as_str()) {
                proof {
                    assert(is_first_selected(self.devices@, device_id@, i as int));
                }
                self.devices.remove(i);
                return ;
            }
            i += 1;
        }
        self.devices.push(device_id.clone());
    }

    /// React to one message. Number keys switch tabs; on the general tab
    /// text keys edit the focused field; on the sharing tab vertical
    /// movement walks the other devices and select toggles the
    /// highlighted one. Submitting the edited folder is not implemented,
    /// so select must not reach the general tab.
    pub fn update(
        &mut self,
        msg: &Message,
        others: &Vec<crate::state::Device>,
    ) -> (r: Option<Message>)
        requires
            old(self).wf(),
            !(old(self).focus is General && msg is Select),
        ensures
            final(self).wf(),
            final(self).folder == old(self).folder,
            msg is Quit ==> r == Some(Message::Quit) && *final(self) == *old(self),
            !(msg is Quit) ==> r is None,
            !(msg is Quit) ==> {
                let focus = spec_folder_tab(old(self).focus, *msg);
                &&& final(self).focus == focus
                &&& (match focus {
                    FolderFocus::General => {
                        &&& final(self).selected_device == old(self).selected_device
                        &&& final(self).devices == old(self).devices
                        &&& (match msg {
                            Message::FocusNext | Message::Down => final(self).general_focus
                                == spec_general_focus_next(old(self).general_focus)
                                && unedited(*old(self), *final(self)),
                            Message::FocusBack | Message::Up => final(self).general_focus
                                == spec_general_focus_prev(old(self).general_focus)
                                && unedited(*old(self), *final(self)),
                            Message::Character(c) => final(self).general_focus == old(self).general_focus && (match old(self).general_focus {
                                FolderGeneralFocus::Label => edited_insert(
                                    old(self).label,
                                    final(self).label,
                                    *c,
                                ) && final(self).id == old(self).id && final(self).path == old(self).path,
                                FolderGeneralFocus::ID => edited_insert(
                                    old(self).id,
                                    final(self).id,
                                    *c,
                                ) && final(self).label == old(self).label && final(self).path
                                    == old(self).path,
                                FolderGeneralFocus::Path => edited_insert(
                                    old(self).path,
                                    final(self).path,
                                    *c,
                                ) && final(self).label == old(self).label && final(self).id == old(self).id,
                                FolderGeneralFocus::Submit => unedited(*old(self), *final(self)),
                            }),
                            _ => final(self).general_focus == old(self).general_focus,
                        })
                    },
                    FolderFocus::Sharing => {
                        &&& final(self).general_focus == old(self).general_focus
                        &&& unedited(*old(self), *final(self))
                        &&& (match msg {
                            Message::FocusNext | Message::Down => final(self).devices == old(self).devices && final(self).selected_device == (if others@.len() == 0 {
                                old(self).selected_device
                            } else {
                                crate::pages::spec_row_down(
                                    old(self).selected_device,
                                    others@.len() as usize,
                                )
                            }),
                            Message::FocusBack | Message::Up => final(self).devices == old(self).devices && final(self).selected_device == (if others@.len() == 0 {
                                old(self).selected_device
                            } else {
                                crate::pages::spec_row_up(
                                    old(self).selected_device,
                                    others@.len() as usize,
                                )
                            }),
                            Message::Select => final(self).selected_device == old(self).selected_device && (match old(self).selected_device {
                                Some(i) => if i < others@.len() {
                                    let id = others@[i as int]@.config.device_id;
                                    if has_selected(old(self).devices@, id) {
                                        exists|k: int|
                                            #[trigger] is_first_selected(old(self).devices@, id, k)
                                                && final(self).devices@ == old(self).devices@.remove(k)
                                    } else {
                                        final(self).devices@.len() == old(self).devices@.len() + 1
                                            && final(self).devices@[old(self).devices@.len() as int]@
                                            == id && (forall|m: int|
                                            0 <= m < old(self).devices@.len()
                                                ==> final(self).devices@[m] == old(self).devices@[m])
                                    }
                                } else {
                                    final(self).devices == old(self).devices
                                },
                                None => final(self).devices == old(self).devices,
                            }),
                            _ => final(self).devices == old(self).devices && final(self).selected_device == old(self).selected_device,
                        })
                    },
                })
            },
    {
        match msg {
            Message::Quit => {
                return Some(Message::Quit);
            },
            Message::Number(i) => {
                if let Ok(focus) = FolderFocus::try_from(*i) {
                    self.focus = focus;
                }
            },
            _ => {},
        }

        match self.focus {
            FolderFocus::General => {
                let input = match self.general_focus {
                    FolderGeneralFocus::Label => Some(&mut self.label),
                    FolderGeneralFocus::ID => Some(&mut self.id),
                    FolderGeneralFocus::Path => Some(&mut self.path),
                    FolderGeneralFocus::Submit => None,
                };

                match msg {
                    Message::FocusNext | Message::Down => self.general_focus.next(),
                    Message::FocusBack | Message::Up => self.general_focus.prev(),
                    Message::Character(c) => {
                        if let Some(input) = input {
                            if input.text.len() < usize::MAX {
                                input.enter_char(*c);
                            }
                        }
                    },
                    Message::Backspace => {
                        if let Some(input) = input {
                            input.delete_char();
                        }
                    },
                    Message::Left => {
                        if let Some(input) = input {
                            input.move_cursor_left();
                        }
                    },
                    Message::Right => {
                        if let Some(input) = input {
                            input.move_cursor_right();
                        }
                    },
                    _ => {},
                }
            },
            FolderFocus::Sharing => {
                let len = others.len();
                match msg {
                    Message::FocusNext | Message::Down => {
                        if len == 0 {
                            return None;
                        }
                        self.selected_device = match self.selected_device {
                            Some(i) => Some(crate::pages::row_down_of(i, len)),
                            None => Some(0),
                        };
                    },
                    Message::FocusBack | Message::Up => {
                        if len == 0 {
                            return None;
                        }
                        self.selected_device = match self.selected_device {
                            Some(i) => Some(crate::pages::row_up_of(i, len)),
                            None => Some(crate::pages::last_row(len)),
                        };
                    },
                    Message::Select => {
                        if let Some(selected_device) = self.selected_device {
                            if selected_device < others.len() {
                                let device_id = others[selected_device].config.device_id.clone();
                                self.toggle_device(&device_id);
                            }
                        }
                    },
                    _ => {},
                }
            },
        }

        None
    }
}

/// The open popup, if any: a closed set of interaction kinds interpreted
/// by one update function.
#[derive(Debug, PartialEq, Eq)]
pub enum PopupKind {
    NewFolder(NewFolderPopup),
    PendingDevice(PendingDevicePopup),
    PendingShareFolder(PendingShareFolderPopup),
    Folder(FolderPopup),
}

impl PopupKind {
    /// All held popups are well-formed, and no popup is in a state whose
    /// submission is unimplemented.
    pub open spec fn wf(&self) -> bool {
        match self {
            PopupKind::NewFolder(p) => p.wf(),
            PopupKind::Folder(p) => p.wf(),
            _ => true,
        }
    }
}

/// Dispatch one message to the open popup. A `Some` answer is fed back
/// into the next update round; quit answers close the popup.
pub fn popup_update(
    popup: &mut PopupKind,
    msg: &Message,
    mode: &mut crate::app::CurrentMode,
    others: &Vec<crate::state::Device>,
) -> (r: Option<Message>)
    requires
        old(popup).wf(),
        !((*old(popup)) matches PopupKind::PendingShareFolder(p) && (msg is Select
            || msg is Submit) && p.focus is Ignore),
        !((*old(popup)) matches PopupKind::Folder(p) && p.focus is General && msg is Select),
    ensures
        final(popup).wf(),
        msg is Quit ==> r == Some(Message::Quit) && *final(popup) == *old(popup),
        !(msg is Select || msg is Submit) ==> *final(mode) == *old(mode),
{
    match popup {
        PopupKind::NewFolder(p) => p.update(msg, mode, others),
        PopupKind::PendingDevice(p) => p.update(msg),
        PopupKind::PendingShareFolder(p) => p.update(msg),
        PopupKind::Folder(p) => p.update(msg, others),
    }
}

} // verus!
