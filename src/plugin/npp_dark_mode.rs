use vstd::prelude::*;

verus! {

/// A Win32 colour value, 0x00BBGGRR.
pub type COLORREF = u32;

/// Standard flags for the main parent after its children are initialized.
pub const DMF_INIT: u32 = 0x0000000B;

/// Standard flags for the main parent, as used on a dark mode change.
pub const DMF_HANDLE_CHANGE: u32 = 0x0000000C;

/// The colours of the host's dark theme.
#[derive(Clone, Copy, Debug, PartialEq, Eq, Structural)]
pub struct Colors {
    pub background: COLORREF,
    pub softer_background: COLORREF,
    pub hot_background: COLORREF,
    pub pure_background: COLORREF,
    pub error_background: COLORREF,
    pub text: COLORREF,
    pub darker_text: COLORREF,
    pub disabled_text: COLORREF,
    pub link_text: COLORREF,
    pub edge: COLORREF,
    pub hot_edge: COLORREF,
    pub disabled_edge: COLORREF,
}

/// Every colour black.
pub open spec fn all_black() -> Colors {
    Colors {
        background: 0,
        softer_background: 0,
        hot_background: 0,
        pure_background: 0,
        error_background: 0,
        text: 0,
        darker_text: 0,
        disabled_text: 0,
        link_text: 0,
        edge: 0,
        hot_edge: 0,
        disabled_edge: 0,
    }
}

impl Default for Colors {
    fn default() -> (r: Self)
        ensures
            r == all_black(),
    {
        Self {
            background: 0,
            softer_background: 0,
            hot_background: 0,
            pure_background: 0,
            error_background: 0,
            text: 0,
            darker_text: 0,
            disabled_text: 0,
            link_text: 0,
            edge: 0,
            hot_edge: 0,
            disabled_edge: 0,
        }
    }
}

} // verus!
