//! Decisions of pasting into a window on Windows: which threads' input
//! queues to attach to before raising the window, the key events of Ctrl+V,
//! and how the result of sending them is judged. The calls into the Win32
//! API are made by the caller.

use vstd::prelude::*;
use vstd::string::*;

use crate::text::{i64_decimal, joined, signed_decimal, u64_decimal, decimal};

verus! {

/// Which foreign threads' input queues to attach to, so that raising the
/// target window is permitted.
#[derive(Debug, PartialEq, Eq)]
pub struct ThreadAttachPlan {
    pub attach_foreground: bool,
    pub attach_target: bool,
}

/// Whether to attach to the foreground window's thread: when it is a thread
/// other than ours.
pub open spec fn attaches_foreground(own_thread: u32, foreground_thread: u32) -> bool {
    own_thread != foreground_thread && foreground_thread != 0
}

/// Whether to attach to the target window's thread: when it is a thread
/// other than ours and than the foreground window's.
pub open spec fn attaches_target(own_thread: u32, foreground_thread: u32, target_thread: u32) -> bool {
    own_thread != target_thread && target_thread != foreground_thread && target_thread != 0
}

/// The plan for our thread `own_thread`, the thread of the foreground window
/// `foreground_thread` and that of the target window `target_thread` (0
/// where there is none).
pub fn thread_attach_plan(own_thread: u32, foreground_thread: u32, target_thread: u32) -> (p:
    ThreadAttachPlan)
    ensures
        p.attach_foreground == attaches_foreground(own_thread, foreground_thread),
        p.attach_target == attaches_target(own_thread, foreground_thread, target_thread),
{
    ThreadAttachPlan {
        attach_foreground: own_thread != foreground_thread && foreground_thread != 0,
        attach_target: own_thread != target_thread && target_thread != foreground_thread
            && target_thread != 0,
    }
}

/// The virtual-key code of Ctrl.
pub const VK_CONTROL_CODE: u16 = 0x11;

/// The virtual-key code of V.
pub const VK_V_CODE: u16 = 0x56;

/// One keyboard event: a key going down, or coming up.
#[derive(Debug, PartialEq, Eq)]
pub struct KeyStroke {
    pub virtual_key: u16,
    pub key_up: bool,
}

/// Ctrl down, V down, V up, Ctrl up.
pub open spec fn ctrl_v_strokes() -> Seq<(u16, bool)> {
    seq![(VK_CONTROL_CODE, false), (VK_V_CODE, false), (VK_V_CODE, true), (VK_CONTROL_CODE, true)]
}

/// The keyboard events that type Ctrl+V, as `ctrl_v_strokes` lists them.
pub fn ctrl_v_keystrokes() -> (keys: Vec<KeyStroke>)
    ensures
        keys.len() == ctrl_v_strokes().len(),
        forall|i: int|
            0 <= i < keys.len() ==> ((#[trigger] keys[i]).virtual_key, keys[i].key_up)
                == ctrl_v_strokes()[i],
{
    let mut keys: Vec<KeyStroke> = Vec::new();
    keys.push(KeyStroke { virtual_key: VK_CONTROL_CODE, key_up: false });
    keys.push(KeyStroke { virtual_key: VK_V_CODE, key_up: false });
    keys.push(KeyStroke { virtual_key: VK_V_CODE, key_up: true });
    keys.push(KeyStroke { virtual_key: VK_CONTROL_CODE, key_up: true });
    keys
}

/// What sending the key events reports: success when all four were
/// inserted, else how many were.
pub fn send_input_result(sent: u32) -> (r: Result<(), String>)
    ensures
        sent == ctrl_v_strokes().len() ==> r is Ok,
        sent != ctrl_v_strokes().len() ==> (r matches Err(m) && m@ == "SendInput sent "@ + decimal(
            sent as nat,
        ) + " of 4 events"@),
{
    if sent == 4 {
        Ok(())
    } else {
        let mut m = joined("SendInput sent ", u64_decimal(sent as u64).as_str());
        m.append(" of 4 events");
        Err(m)
    }
}

/// The error when the target window `hwnd` no longer exists.
pub fn window_gone_message(hwnd: isize) -> (m: String)
    ensures
        m@ == "Target window (HWND "@ + signed_decimal(hwnd as int)
            + ") is no longer valid \u{2014} it may have been closed"@,
{
    let mut m = joined("Target window (HWND ", i64_decimal(hwnd as i64).as_str());
    m.append(") is no longer valid \u{2014} it may have been closed");
    m
}

/// Input is never attached to our own thread, to no thread, or twice to the
/// same thread.
pub proof fn attach_plan_is_sound(own_thread: u32, foreground_thread: u32, target_thread: u32)
    ensures
        attaches_foreground(own_thread, foreground_thread) ==> foreground_thread != own_thread
            && foreground_thread != 0,
        attaches_target(own_thread, foreground_thread, target_thread) ==> target_thread
            != own_thread && target_thread != 0,
        attaches_foreground(own_thread, foreground_thread) && attaches_target(
            own_thread,
            foreground_thread,
            target_thread,
        ) ==> foreground_thread != target_thread,
{
}

/// Exactly when input is attached: to the foreground window's thread when
/// it is some thread other than ours; to the target window's thread when it
/// is some thread other than ours and the foreground window's, whoever owns
/// the foreground window.
pub proof fn attach_conditions_are_exact(own_thread: u32, foreground_thread: u32, target_thread: u32)
    ensures
        attaches_foreground(own_thread, foreground_thread) <==> (foreground_thread != own_thread
            && foreground_thread != 0),
        attaches_target(own_thread, foreground_thread, target_thread) <==> (target_thread
            != own_thread && target_thread != foreground_thread && target_thread != 0),
{
}

/// Ctrl+V is sent as Ctrl (virtual key 0x11) down, V (0x56) down, V up,
/// Ctrl up: V is typed while Ctrl is held, and both keys are released.
pub proof fn ctrl_v_is_typed_with_ctrl_held()
    ensures
        ctrl_v_strokes() == seq![
            (0x11u16, false),
            (0x56u16, false),
            (0x56u16, true),
            (0x11u16, true),
        ],
{
}

} // verus!
