//! A Notepad++ plugin core: the handles that the host hands over, the menu
//! command table, the routing of host notifications and the message relay.
//! The C-callable entry points that the host resolves wrap these functions.
#![allow(non_snake_case)]
#![allow(non_camel_case_types)]

use vstd::prelude::*;
use plugin::notepad_plus_msgs::{
    to_wide_string, utf16_encode, BOOL, LPARAM, LRESULT, NPPN_BUFFERACTIVATED, NPPN_FILECLOSED,
    NPPN_FILEOPENED, NPPN_READY, NPPN_SHUTDOWN, UINT, WPARAM,
};
use plugin::plugin_interface::{
    name_buffer, set_item_name, FuncItem, NppData, PluginCommand, HWND, MENU_ITEM_SIZE,
};
use plugin::scintilla::SCNotification;

pub mod plugin;

verus! {

/// Number of entries in the command table.
pub const NB_FUNC: usize = 1;

/// The plugin's process-wide state: the handle registry and the command table.
pub struct PluginState {
    /// The handles given by the host; all zero until `setInfo`.
    pub npp_data: NppData,
    /// The menu commands, at a fixed count for the plugin's lifetime.
    pub funcs: [FuncItem; NB_FUNC],
}

/// The handle set before the host has provided one: every handle null.
pub open spec fn null_npp_data() -> NppData {
    NppData { npp_handle: 0, scintilla_main_handle: 0, scintilla_second_handle: 0 }
}

/// The display name of the about command, as the host reads it.
pub open spec fn about_item_name() -> Seq<u16> {
    name_buffer(utf16_encode("About"@), MENU_ITEM_SIZE as nat)
}

/// The reaction slot that a notification is routed to.
#[derive(Clone, Copy, Debug, PartialEq, Eq, Structural)]
pub enum NotificationSlot {
    Ready,
    FileOpened,
    FileClosed,
    BufferActivated,
    Shutdown,
}

/// The slot for a notification code; `None` for a code the plugin ignores.
pub open spec fn slot_of(code: u32) -> Option<NotificationSlot> {
    if code == NPPN_READY {
        Some(NotificationSlot::Ready)
    } else if code == NPPN_FILEOPENED {
        Some(NotificationSlot::FileOpened)
    } else if code == NPPN_FILECLOSED {
        Some(NotificationSlot::FileClosed)
    } else if code == NPPN_BUFFERACTIVATED {
        Some(NotificationSlot::BufferActivated)
    } else if code == NPPN_SHUTDOWN {
        Some(NotificationSlot::Shutdown)
    } else {
        None
    }
}

impl PluginState {
    /// The state at load time: null handles and the command table with its
    /// entries unnamed and unregistered.
    pub fn new() -> (r: PluginState)
        ensures
            r.npp_data == null_npp_data(),
            r.funcs@.len() == NB_FUNC,
            r.funcs[0].func == PluginCommand::About,
            r.funcs[0].cmd_id == 0,
            !r.funcs[0].init2_check,
            r.funcs[0].sh_key.is_none(),
            forall|i: int| 0 <= i < MENU_ITEM_SIZE ==> r.funcs[0].item_name[i] == 0,
    {
        let about = FuncItem {
            item_name: [0u16; MENU_ITEM_SIZE],
            func: PluginCommand::About,
            cmd_id: 0,
            init2_check: false,
            sh_key: None,
        };
        PluginState {
            npp_data: NppData { npp_handle: 0, scintilla_main_handle: 0, scintilla_second_handle: 0 },
            funcs: [about],
        }
    }
}

/// Every handle getter answers null on a state whose handles the host has
/// not provided yet, as the state that `PluginState::new` makes.
pub proof fn lemma_handles_null_before_set_info(state: PluginState)
    requires
        state.npp_data == null_npp_data(),
    ensures
        state.npp_data.npp_handle == 0,
        state.npp_data.scintilla_main_handle == 0,
        state.npp_data.scintilla_second_handle == 0,
{
}

/// The name under which the host lists the plugin.
pub const PLUGIN_NAME: &'static str = "Rust Notepad++ Plugin";

/// Stores the handles that the host provides, replacing any earlier ones,
/// and names the about command.
pub fn setInfo(state: &mut PluginState, npp_data: NppData)
    ensures
        final(state).npp_data == npp_data,
        final(state).funcs[0].item_name@ == about_item_name(),
        final(state).funcs[0].func == old(state).funcs[0].func,
        final(state).funcs[0].cmd_id == old(state).funcs[0].cmd_id,
        final(state).funcs[0].init2_check == old(state).funcs[0].init2_check,
        final(state).funcs[0].sh_key == old(state).funcs[0].sh_key,
{
    state.npp_data = npp_data;
    let mut first: FuncItem = state.funcs[0];
    set_item_name(&mut first.item_name, "About");
    state.funcs[0] = first;
}

/// The plugin's name in UTF-16 with a terminating zero.
pub fn getName() -> (r: Vec<u16>)
    ensures
        r@ == utf16_encode(PLUGIN_NAME@).push(0),
{
    to_wide_string(PLUGIN_NAME)
}

/// The command table, with its number of entries written to `nb_func`.
pub fn getFuncsArray<'a>(state: &'a PluginState, nb_func: &mut i32) -> (r: &'a [FuncItem])
    ensures
        r@ == state.funcs@,
        r@.len() == NB_FUNC,
        *final(nb_func) == NB_FUNC,
{
    *nb_func = NB_FUNC as i32;
    state.funcs.as_slice()
}

/// Routes a notification from the host to its reaction slot. An absent
/// notification, or one whose code the plugin does not handle, is ignored.
pub fn beNotified(notification: Option<&SCNotification>) -> (r: Option<NotificationSlot>)
    ensures
        r == (match notification {
            Some(n) => slot_of(n.nmhdr.code),
            None => None,
        }),
{
    match notification {
        None => None,
        Some(n) => {
            let code: u32 = n.nmhdr.code;
            if code == NPPN_READY {
                Some(NotificationSlot::Ready)
            } else if code == NPPN_FILEOPENED {
                Some(NotificationSlot::FileOpened)
            } else if code == NPPN_FILECLOSED {
                Some(NotificationSlot::FileClosed)
            } else if code == NPPN_BUFFERACTIVATED {
                Some(NotificationSlot::BufferActivated)
            } else if code == NPPN_SHUTDOWN {
                Some(NotificationSlot::Shutdown)
            } else {
                None
            }
        },
    }
}

/// Answers a message from the host; no message has a custom meaning, so
/// the answer is always the neutral zero.
pub fn messageProc(_message: UINT, _w_param: WPARAM, _l_param: LPARAM) -> (r: LRESULT)
    ensures
        r == 0,
{
    0
}

/// Whether the plugin uses wide-character strings: always true.
pub fn isUnicode() -> (r: BOOL)
    ensures
        r == 1,
{
    1
}

/// The handle of the host's main window; null before `setInfo`.
pub fn get_npp_handle(state: &PluginState) -> (r: HWND)
    ensures
        r == state.npp_data.npp_handle,
{
    state.npp_data.npp_handle
}

/// The handle of the primary editing view; null before `setInfo`.
pub fn get_scintilla_main_handle(state: &PluginState) -> (r: HWND)
    ensures
        r == state.npp_data.scintilla_main_handle,
{
    state.npp_data.scintilla_main_handle
}

/// The handle of the secondary editing view; null before `setInfo`.
pub fn get_scintilla_second_handle(state: &PluginState) -> (r: HWND)
    ensures
        r == state.npp_data.scintilla_second_handle,
{
    state.npp_data.scintilla_second_handle
}

} // verus!
