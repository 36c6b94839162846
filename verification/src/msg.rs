//! Queued messages and the message-loop decisions.
//!
//! The blocking fetch, translation and dispatch calls live in the
//! unverified shell; this module holds the message record as plain
//! values, the defaulting of the fetch arguments, the decoding of the
//! fetch result, and the loop's quit decision.

use vstd::prelude::*;

use crate::Error;
use crate::last_error;

verus! {

pub const WM_CREATE: u32 = 0x0001;

pub const WM_DESTROY: u32 = 0x0002;

pub const WM_PAINT: u32 = 0x000F;

/// The quit signal: not a failure, but the loop's order to exit the
/// process with the carried code.
pub const WM_QUIT: u32 = 0x0012;

pub const WM_SETFONT: u32 = 0x0030;

pub const WM_NCCREATE: u32 = 0x0081;

pub const WM_NCDESTROY: u32 = 0x0082;

pub const WM_COMMAND: u32 = 0x0111;

/// One dequeued message: target window, identifier, and the two
/// machine-word parameters, with the queue timestamp and cursor
/// position.
#[derive(Debug, Clone, Copy, PartialEq, Eq, Structural)]
pub struct Msg {
    pub wnd: usize,
    pub message: u32,
    pub w_param: usize,
    pub l_param: isize,
    pub time: u32,
    pub pt_x: i32,
    pub pt_y: i32,
}

/// The arguments of one message fetch: absent window and filter fall
/// back to the platform's catch-all zeros.
pub fn get_message_args(wnd: Option<usize>, msg_filter: Option<(u32, u32)>) -> (r: (
    usize,
    u32,
    u32,
))
    ensures
        r.0 == (if wnd is Some {
            wnd->Some_0
        } else {
            0
        }),
        msg_filter matches Some(f) ==> r.1 == f.0 && r.2 == f.1,
        msg_filter is None ==> r.1 == 0 && r.2 == 0,
{
    let w = match wnd {
        Some(w) => w,
        None => 0,
    };
    match msg_filter {
        Some((lo, hi)) => (w, lo, hi),
        None => (w, 0, 0),
    }
}

/// Decodes the native fetch's report: a negative-one status is a
/// failure with the platform error code; anything else hands the
/// fetched message on — the quit signal included.
pub fn get_message_outcome(status: i32, msg: Msg, err_code: u32) -> (r: Result<Msg, Error>)
    ensures
        status == -1 ==> r == Result::<Msg, Error>::Err(Error::Os(err_code)),
        status != -1 ==> r == Result::<Msg, Error>::Ok(msg),
{
    if status == -1 {
        last_error(err_code)
    } else {
        Ok(msg)
    }
}

/// What a message loop must do with one fetched message.
#[derive(Debug, Clone, Copy, PartialEq, Eq, Structural)]
pub enum LoopStep {
    /// Exit the process with this status, dispatching nothing further.
    ExitProcess(i32),
    /// Translate and dispatch the message as usual.
    Dispatch,
}

/// The loop's quit decision: a message bearing the quit identifier ends
/// the process with the exit status carried in its first parameter, and
/// is never dispatched; every other message is dispatched.
pub fn loop_step(msg: &Msg) -> (r: LoopStep)
    ensures
        msg.message == WM_QUIT ==> r == LoopStep::ExitProcess(msg.w_param as i32),
        msg.message != WM_QUIT ==> r == LoopStep::Dispatch,
{
    if msg.message == WM_QUIT {
        LoopStep::ExitProcess(msg.w_param as i32)
    } else {
        LoopStep::Dispatch
    }
}

/// Decodes the native message-registration call: zero means failure
/// with the platform error code, anything else is the registered
/// message identifier.
pub fn register_window_message(registered: u32, err_code: u32) -> (r: Result<u32, Error>)
    ensures
        registered == 0 ==> r == Result::<u32, Error>::Err(Error::Os(err_code)),
        registered != 0 ==> r == Result::<u32, Error>::Ok(registered),
{
    if registered == 0 {
        last_error(err_code)
    } else {
        Ok(registered)
    }
}

} // verus!
