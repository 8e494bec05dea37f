use npp_plugin::plugin::notepad_plus_msgs::{
    from_wide_string, to_wide_string, NPPM_GETCURRENTSCINTILLA, NPPN_BUFFERACTIVATED,
    NPPN_DARKMODECHANGED, NPPN_FILECLOSED, NPPN_FILEOPENED, NPPN_FIRST, NPPN_READY, NPPN_SHUTDOWN,
    NPPN_TBMODIFICATION,
};
use npp_plugin::plugin::npp_dark_mode::Colors;
use npp_plugin::plugin::plugin_interface::{set_item_name, NppData, PluginCommand, MENU_ITEM_SIZE};
use npp_plugin::plugin::scintilla::{NotifyHeader, SCNotification};
use npp_plugin::{
    beNotified, getFuncsArray, getName, get_npp_handle, get_scintilla_main_handle,
    get_scintilla_second_handle, isUnicode, messageProc, setInfo, NotificationSlot, PluginState,
    NB_FUNC,
};

fn notification(code: u32) -> SCNotification {
    SCNotification { nmhdr: NotifyHeader { hwnd_from: 0x10, id_from: 0, code } }
}

fn units(s: &str) -> Vec<u16> {
    s.encode_utf16().collect()
}

#[test]
fn long_name_is_truncated_with_terminator() {
    let text = "x".repeat(100);
    let mut buf = [0xFFFFu16; MENU_ITEM_SIZE];
    set_item_name(&mut buf, &text);
    for i in 0..MENU_ITEM_SIZE - 1 {
        assert_eq!(buf[i], 'x' as u16);
    }
    assert_eq!(buf[MENU_ITEM_SIZE - 1], 0);
}

#[test]
fn name_of_exact_capacity_is_truncated() {
    let text = "y".repeat(MENU_ITEM_SIZE);
    let mut buf = [0u16; MENU_ITEM_SIZE];
    set_item_name(&mut buf, &text);
    assert_eq!(buf[MENU_ITEM_SIZE - 2], 'y' as u16);
    assert_eq!(buf[MENU_ITEM_SIZE - 1], 0);
}

#[test]
fn long_name_in_small_buffer() {
    let mut buf = [9u16; 4];
    set_item_name(&mut buf, "Notepad");
    assert_eq!(buf, [78, 111, 116, 0]);
}

#[test]
fn empty_buffer_is_left_alone() {
    let mut buf: [u16; 0] = [];
    set_item_name(&mut buf, "About");
    assert_eq!(buf.len(), 0);
}

#[test]
fn short_name_is_zero_padded() {
    let mut buf = [0xAAAAu16; 8];
    set_item_name(&mut buf, "Hi");
    assert_eq!(buf, [72, 105, 0, 0, 0, 0, 0, 0]);
}

#[test]
fn command_table_named_about() {
    let mut state = PluginState::new();
    setInfo(&mut state, NppData { npp_handle: 1, scintilla_main_handle: 2, scintilla_second_handle: 3 });
    let name = state.funcs[0].item_name;
    assert_eq!(&name[..5], &units("About")[..]);
    assert_eq!(name[5], 0);
    assert!(name[6..].iter().all(|&u| u == 0));
    assert_eq!(state.funcs[0].func, PluginCommand::About);
    assert_eq!(state.funcs[0].cmd_id, 0);
    assert!(!state.funcs[0].init2_check);
    assert!(state.funcs[0].sh_key.is_none());
}

#[test]
fn func_count_matches_table() {
    let mut state = PluginState::new();
    setInfo(&mut state, NppData { npp_handle: 1, scintilla_main_handle: 2, scintilla_second_handle: 3 });
    let mut count: i32 = -1;
    let first = getFuncsArray(&state, &mut count).as_ptr();
    assert_eq!(count, 1);
    assert_eq!(NB_FUNC, 1);
    let mut again: i32 = 0;
    let table = getFuncsArray(&state, &mut again);
    assert_eq!(again, 1);
    assert_eq!(table.len(), 1);
    assert_eq!(table.as_ptr(), first);
}

#[test]
fn handles_are_null_before_set_info() {
    let state = PluginState::new();
    assert_eq!(get_npp_handle(&state), 0);
    assert_eq!(get_scintilla_main_handle(&state), 0);
    assert_eq!(get_scintilla_second_handle(&state), 0);
}

#[test]
fn set_info_stores_three_handles() {
    let mut state = PluginState::new();
    setInfo(&mut state, NppData { npp_handle: 0x1001, scintilla_main_handle: 0x2002, scintilla_second_handle: 0x3003 });
    assert_eq!(get_npp_handle(&state), 0x1001);
    assert_eq!(get_scintilla_main_handle(&state), 0x2002);
    assert_eq!(get_scintilla_second_handle(&state), 0x3003);
}

#[test]
fn set_info_replaces_handles() {
    let mut state = PluginState::new();
    setInfo(&mut state, NppData { npp_handle: 1, scintilla_main_handle: 2, scintilla_second_handle: 3 });
    setInfo(&mut state, NppData { npp_handle: 4, scintilla_main_handle: 5, scintilla_second_handle: 6 });
    assert_eq!(get_npp_handle(&state), 4);
    assert_eq!(get_scintilla_main_handle(&state), 5);
    assert_eq!(get_scintilla_second_handle(&state), 6);
}

#[test]
fn missing_notification_is_ignored() {
    assert_eq!(beNotified(None), None);
}

#[test]
fn unknown_notification_is_ignored() {
    assert_eq!(beNotified(Some(&notification(NPPN_TBMODIFICATION))), None);
    assert_eq!(beNotified(Some(&notification(NPPN_DARKMODECHANGED))), None);
    assert_eq!(beNotified(Some(&notification(0))), None);
    assert_eq!(beNotified(Some(&notification(u32::MAX))), None);
}

#[test]
fn known_notifications_are_routed() {
    assert_eq!(beNotified(Some(&notification(NPPN_READY))), Some(NotificationSlot::Ready));
    assert_eq!(beNotified(Some(&notification(1001))), Some(NotificationSlot::Ready));
    assert_eq!(beNotified(Some(&notification(NPPN_FILEOPENED))), Some(NotificationSlot::FileOpened));
    assert_eq!(beNotified(Some(&notification(NPPN_FILECLOSED))), Some(NotificationSlot::FileClosed));
    assert_eq!(
        beNotified(Some(&notification(NPPN_BUFFERACTIVATED))),
        Some(NotificationSlot::BufferActivated)
    );
    assert_eq!(beNotified(Some(&notification(NPPN_SHUTDOWN))), Some(NotificationSlot::Shutdown));
    assert_eq!(NPPN_FIRST + 9, NPPN_SHUTDOWN);
}

#[test]
fn message_proc_answers_zero() {
    assert_eq!(messageProc(0, 0, 0), 0);
    assert_eq!(messageProc(NPPM_GETCURRENTSCINTILLA, 7, -7), 0);
    assert_eq!(messageProc(u32::MAX, usize::MAX, isize::MIN), 0);
}

#[test]
fn plugin_is_unicode() {
    assert_eq!(isUnicode(), 1);
}

#[test]
fn get_name_is_stable() {
    let a = getName();
    let b = getName();
    assert_eq!(a, b);
    let mut expected = units("Rust Notepad++ Plugin");
    expected.push(0);
    assert_eq!(a, expected);
    assert_eq!(a.len(), 22);
}

#[test]
fn wide_string_has_terminator() {
    assert_eq!(to_wide_string(""), vec![0]);
    assert_eq!(to_wide_string("Ab"), vec![65, 98, 0]);
    assert_eq!(to_wide_string("é€"), vec![0xE9, 0x20AC, 0]);
}

#[test]
fn wide_string_uses_surrogate_pairs() {
    assert_eq!(to_wide_string("😀"), vec![0xD83D, 0xDE00, 0]);
    assert_eq!(to_wide_string("\u{10FFFF}"), vec![0xDBFF, 0xDFFF, 0]);
}

#[test]
fn wide_string_round_trip() {
    for s in ["", "About", "Rust Notepad++ Plugin", "naïve 😀 text", "\u{FFFD}\u{10000}"] {
        assert_eq!(from_wide_string(&to_wide_string(s)), s);
    }
}

#[test]
fn from_wide_string_stops_at_terminator() {
    assert_eq!(from_wide_string(&[72, 105, 0, 88, 89]), "Hi");
    assert_eq!(from_wide_string(&[72, 105]), "Hi");
    assert_eq!(from_wide_string(&[0, 72]), "");
    assert_eq!(from_wide_string(&[]), "");
}

#[test]
fn from_wide_string_replaces_lone_surrogates() {
    assert_eq!(from_wide_string(&[0xD800, 65, 0]), "\u{FFFD}A");
    assert_eq!(from_wide_string(&[66, 0xDC00]), "B\u{FFFD}");
    assert_eq!(from_wide_string(&[0xD83D, 0xDE00, 0]), "😀");
}

#[test]
fn dark_mode_colors_default_to_black() {
    let c = Colors::default();
    assert_eq!(c.background, 0);
    assert_eq!(c.text, 0);
    assert_eq!(c.disabled_edge, 0);
    assert_eq!(
        c,
        Colors {
            background: 0,
            softer_background: 0,
            hot_background: 0,
            pure_background: 0,
            error_background: 0,
            text: 0,
            darker_text: 0,
            disabled_text: 0,
            link_text: 0,
            edge: 0,
            hot_edge: 0,
            disabled_edge: 0,
        }
    );
}
