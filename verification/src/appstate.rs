//! Application-level state the pages share: the current page, the device
//! connection status, the actions a device page offers, and the loaded DA
//! and preloader files.

use vstd::prelude::*;
use vstd::string::StrSliceExecFns;

verus! {

/// The page the application is on.
#[derive(Debug, Copy, Clone, Eq, PartialEq, Structural)]
pub enum AppPage {
    Welcome,
    DevicePage,
    Options,
}

/// Device connection status, as the pages display it.
#[derive(Debug, Copy, Clone, Eq, PartialEq, Structural)]
pub enum DeviceStatus {
    Disconnected,
    Connecting,
    Connected,
}

/// The panel of the device page that has focus.
#[derive(Debug, Copy, Clone, Eq, PartialEq, Structural)]
pub enum FocusedPanel {
    Menu,
    PartitionMenu,
}

/// The actions the device page offers.
#[derive(Debug, Copy, Clone, Eq, PartialEq, Structural)]
pub enum DeviceAction {
    UnlockBootloader,
    LockBootloader,
    ReadPartition,
    WritePartition,
    BackToMenu,
}

impl DeviceAction {
    /// All actions, in menu order.
    pub fn all() -> (r: Vec<DeviceAction>)
        ensures
            r@ =~= seq![
                DeviceAction::UnlockBootloader,
                DeviceAction::LockBootloader,
                DeviceAction::ReadPartition,
                DeviceAction::WritePartition,
                DeviceAction::BackToMenu,
            ],
    {
        let mut out: Vec<DeviceAction> = Vec::new();
        out.push(DeviceAction::UnlockBootloader);
        out.push(DeviceAction::LockBootloader);
        out.push(DeviceAction::ReadPartition);
        out.push(DeviceAction::WritePartition);
        out.push(DeviceAction::BackToMenu);
        out
    }

    /// The menu label of the action.
    pub fn label(&self) -> (r: &'static str)
        ensures
            self == DeviceAction::UnlockBootloader ==> r@ == "Unlock Bootloader"@,
            self == DeviceAction::LockBootloader ==> r@ == "Lock Bootloader"@,
            self == DeviceAction::ReadPartition ==> r@ == "Read Partition"@,
            self == DeviceAction::WritePartition ==> r@ == "Write Partition"@,
            self == DeviceAction::BackToMenu ==> r@ == "Back to Menu"@,
    {
        match self {
            DeviceAction::UnlockBootloader => "Unlock Bootloader",
            DeviceAction::LockBootloader => "Lock Bootloader",
            DeviceAction::ReadPartition => "Read Partition",
            DeviceAction::WritePartition => "Write Partition",
            DeviceAction::BackToMenu => "Back to Menu",
        }
    }
}

/// Connection state of the device page.
pub struct DeviceState {
    pub status: DeviceStatus,
}

impl DeviceState {
    pub fn new() -> (r: DeviceState)
        ensures
            r.status == DeviceStatus::Disconnected,
    {
        DeviceState { status: DeviceStatus::Disconnected }
    }

    pub fn set_status(&mut self, status: DeviceStatus)
        ensures
            final(self).status == status,
    {
        self.status = status;
    }

    pub fn is_connected(&self) -> (r: bool)
        ensures
            r == (self.status == DeviceStatus::Connected),
    {
        self.status == DeviceStatus::Connected
    }
}

/// A preloader binary loaded from the host: its path and its bytes.
pub struct Preloader {
    pub path: String,
    pub data: Vec<u8>,
}

impl Preloader {
    pub fn new(path: String, data: Vec<u8>) -> (r: Preloader)
        ensures
            r.path == path,
            r.data == data,
    {
        Preloader { path, data }
    }

    /// A copy of the preloader bytes.
    pub fn data(&self) -> (r: Vec<u8>)
        ensures
            r@ == self.data@,
    {
        crate::xml::copy_bytes(self.data.as_slice(), 0, self.data.len())
    }

    pub fn path(&self) -> (r: &String)
        ensures
            r == &self.path,
    {
        &self.path
    }

    /// The file name: everything after the last path separator, when the
    /// path holds one.
    pub fn file_name(&self) -> (r: Option<String>)
        ensures
            self.path@.len() == 0 ==> r is None,
    {
        file_name_of(self.path.as_str())
    }
}

/// The file name of a path: everything after the last `/`.
pub fn file_name_of(path: &str) -> (r: Option<String>)
    ensures
        path@.len() == 0 ==> r is None,
{
    let n = path.unicode_len();
    if n == 0 {
        return None;
    }
    let mut cut: usize = 0;
    let mut i: usize = 0;
    while i < n
        invariant
            n == path@.len(),
            i <= n,
            cut <= i,
        decreases n - i,
    {
        if path.get_char(i) == '/' {
            cut = i + 1;
        }
        i += 1;
    }
    if cut >= n {
        return None;
    }
    Some(path.substring_char(cut, n).to_owned())
}

/// The persisted configuration: the chosen theme.
pub struct AntumbraConfig {
    pub theme: String,
}

impl AntumbraConfig {
    /// The default configuration follows the system theme.
    pub fn new_default() -> (r: AntumbraConfig)
        ensures
            r.theme@ == "system"@,
    {
        AntumbraConfig { theme: "system".to_owned() }
    }
}

} // verus!
