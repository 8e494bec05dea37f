use vstd::prelude::*;
use crate::plugin::notepad_plus_msgs::{utf16_encode, to_wide_string};

verus! {

/// A window handle, held as the integer value of the host's opaque pointer.
/// The plugin never dereferences it; it only hands it back to the host.
pub type HWND = usize;

/// The handles that the host passes to the plugin when it is loaded.
#[derive(Clone, Copy, Debug, PartialEq, Eq, Structural)]
pub struct NppData {
    pub npp_handle: HWND,
    pub scintilla_main_handle: HWND,
    pub scintilla_second_handle: HWND,
}

/// A keyboard shortcut: three modifier flags and a virtual key code.
#[derive(Clone, Copy, Debug, PartialEq, Eq, Structural)]
pub struct ShortcutKey {
    pub is_ctrl: bool,
    pub is_alt: bool,
    pub is_shift: bool,
    pub key: u8,
}

/// Width, terminator included, of the name buffer of a menu command.
pub const MENU_ITEM_SIZE: usize = 64;

/// What a menu command does when the host invokes it.
#[derive(Clone, Copy, Debug, PartialEq, Eq, Structural)]
pub enum PluginCommand {
    /// Shows the plugin's about box.
    About,
}

/// One entry of the command table that the host puts in its plugin menu.
#[derive(Clone, Copy, Debug)]
pub struct FuncItem {
    /// Display name in UTF-16, zero-terminated and zero-padded.
    pub item_name: [u16; MENU_ITEM_SIZE],
    /// The command run when the entry is chosen.
    pub func: PluginCommand,
    /// Identifier that the host assigns when it registers the entry.
    pub cmd_id: i32,
    /// Whether the entry starts out checked.
    pub init2_check: bool,
    /// Optional keyboard shortcut.
    pub sh_key: Option<ShortcutKey>,
}

/// The content of a name buffer of `cap` units holding `enc`: as many units
/// of `enc` as leave room for a terminator, then zeros up to the end.
pub open spec fn name_buffer(enc: Seq<u16>, cap: nat) -> Seq<u16> {
    Seq::new(cap, |i: int| if i < enc.len() && i + 1 < cap { enc[i] } else { 0u16 })
}

/// Writes the UTF-16 encoding of `text` into the fixed-width buffer `dst`,
/// truncated so that a zero terminator always fits, and zero-fills the rest.
/// Nothing is written past the end of `dst`.
pub fn set_item_name(dst: &mut [u16], text: &str)
    ensures
        final(dst)@ == name_buffer(utf16_encode(text@), old(dst)@.len()),
        final(dst)@.len() == old(dst)@.len(),
        old(dst)@.len() > 0 && utf16_encode(text@).len() >= old(dst)@.len() ==> final(dst)@
            == utf16_encode(text@).take(old(dst)@.len() - 1).push(0),
        utf16_encode(text@).len() < old(dst)@.len() ==> final(dst)@ == utf16_encode(text@)
            + Seq::new((old(dst)@.len() - utf16_encode(text@).len()) as nat, |i: int| 0u16),
{
    let wide: Vec<u16> = to_wide_string(text);
    let ghost enc = utf16_encode(text@);
    let enc_len: usize = wide.len() - 1;
    let cap: usize = dst.len();
    let mut i: usize = 0;
    while i < cap
        invariant
            cap == dst@.len(),
            cap == old(dst)@.len(),
            wide@ == enc.push(0),
            enc_len == enc.len(),
            i <= cap,
            forall|j: int| 0 <= j < i ==> dst@[j] == name_buffer(enc, cap as nat)[j],
        decreases cap - i,
    {
        let unit: u16 = if i < enc_len && i + 1 < cap {
            wide[i]
        } else {
            0
        };
        dst[i] = unit;
        i = i + 1;
    }
    assert(dst@ =~= name_buffer(enc, cap as nat));
    proof {
        if cap > 0 && enc.len() >= cap {
            assert(dst@ =~= enc.take(cap - 1).push(0));
        }
        if enc.len() < cap {
            assert(dst@ =~= enc + Seq::new((cap - enc.len()) as nat, |i: int| 0u16));
        }
    }
}

} // verus!
