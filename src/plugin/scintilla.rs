use vstd::prelude::*;
use crate::plugin::plugin_interface::HWND;

verus! {

/// The header that opens every notification the host sends.
#[derive(Clone, Copy, Debug, PartialEq, Eq, Structural)]
pub struct NotifyHeader {
    /// The window that sent the notification.
    pub hwnd_from: HWND,
    /// The sender's control identifier.
    pub id_from: usize,
    /// The notification code.
    pub code: u32,
}

/// A notification from the host; the plugin reads only its header.
#[derive(Clone, Copy, Debug, PartialEq, Eq, Structural)]
pub struct SCNotification {
    pub nmhdr: NotifyHeader,
}

} // verus!
