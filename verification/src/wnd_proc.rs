//! Decoding of command notifications inside a window procedure.

use vstd::prelude::*;

verus! {

/// The low half-word of a machine word's lower 32 bits.
pub open spec fn spec_loword(w: u32) -> u16 {
    (w % 0x10000) as u16
}

/// The high half-word of a machine word's lower 32 bits.
pub open spec fn spec_hiword(w: u32) -> u16 {
    (w / 0x10000) as u16
}

/// One decoded command notification.
#[derive(Debug, Clone, Copy, PartialEq, Eq, Structural)]
pub enum WmCommand {
    /// A menu selection.
    Menu { id: u16 },
    /// An accelerator invocation.
    Accelerator { id: u16 },
    /// A control notification, with its code and the control's handle.
    Control { code: u16, id: u16, ctl_wnd: usize },
}

/// What the two command parameters decode to.  A zero high word can
/// mean either a menu command or a button-click notification; the two
/// are told apart by the second parameter, which is zero for a menu
/// command and a live control handle for a click.  That rule deviates
/// from the platform's own documentation on purpose and is kept as this
/// library has always decoded it.
pub open spec fn spec_wm_command(w: u32, l: isize) -> WmCommand {
    if spec_hiword(w) == 0 && l == 0 {
        WmCommand::Menu { id: spec_loword(w) }
    } else if spec_hiword(w) == 1 {
        WmCommand::Accelerator { id: spec_loword(w) }
    } else {
        WmCommand::Control { code: spec_hiword(w), id: spec_loword(w), ctl_wnd: l as usize }
    }
}

/// Decodes a command notification from the two message parameters; only
/// the first parameter's lower 32 bits take part, as in the native
/// layout.
pub fn wm_command(w_param: usize, l_param: isize) -> (r: WmCommand)
    ensures
        r == spec_wm_command(w_param as u32, l_param),
{
    let w = w_param as u32;
    let hi: u16 = (w / 0x10000) as u16;
    let lo: u16 = (w % 0x10000) as u16;
    if hi == 0 && l_param == 0 {
        WmCommand::Menu { id: lo }
    } else if hi == 1 {
        WmCommand::Accelerator { id: lo }
    } else {
        WmCommand::Control { code: hi, id: lo, ctl_wnd: l_param as usize }
    }
}

} // verus!
