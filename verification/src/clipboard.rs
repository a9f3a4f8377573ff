//! Putting text on the clipboard and reading it back.
//!
//! On Wayland the clipboard is served by `wl-copy` and read with `wl-paste`:
//! a clipboard library's own offer there vanishes as soon as its handle is
//! dropped, which is before the paste keystroke arrives. Elsewhere the
//! clipboard library is used, and setting the text is retried, since other
//! programs can hold the clipboard for a moment.
//!
//! Copying is a `CopySession`: `copy_to_clipboard` says what to do first,
//! the caller performs each `CopyAction` (pause for `pause_ms` milliseconds,
//! then set the text, run `wl-copy`, or stop with the result) and hands the
//! outcome to `CopySession::advance`.

use vstd::prelude::*;
use vstd::string::*;

use crate::text::{decode_lossy_utf8, joined, same_text, utf8_lossy};

verus! {

/// The session is a Wayland session when `WAYLAND_DISPLAY` is set, or when
/// `XDG_SESSION_TYPE` is `wayland`. `wayland_display_set` says whether the
/// first is set (to valid Unicode); `session_type` is the second, if set.
pub fn is_wayland_session(wayland_display_set: bool, session_type: Option<String>) -> (b: bool)
    ensures
        b == (wayland_display_set || session_type.deep_view() == Some("wayland"@)),
{
    if wayland_display_set {
        return true;
    }
    match &session_type {
        Some(t) => same_text(t.as_str(), "wayland"),
        None => false,
    }
}

/// Which clipboard implementation serves the session.
#[derive(Debug, PartialEq, Eq)]
pub enum ClipboardBackend {
    /// The `wl-copy` and `wl-paste` programs.
    WlClipboard,
    /// The clipboard library.
    Library,
}

/// Wayland sessions use `wl-copy`/`wl-paste`, all others the library.
pub fn clipboard_backend(wayland_session: bool) -> (b: ClipboardBackend)
    ensures
        b is WlClipboard <==> wayland_session,
{
    if wayland_session {
        ClipboardBackend::WlClipboard
    } else {
        ClipboardBackend::Library
    }
}

/// How far running `wl-copy` got.
#[derive(Debug, PartialEq, Eq)]
pub enum WlCopyProgress {
    /// `wl-copy` could not be started.
    SpawnFailed(String),
    /// Its standard input could not be taken.
    StdinUnavailable,
    /// Writing the text to it failed.
    WriteFailed(String),
    /// Waiting for it to finish failed.
    WaitFailed(String),
    /// It exited; `status` describes the exit status.
    Exited { success: bool, status: String },
}

pub open spec fn str_result(r: Result<(), String>) -> Result<(), Seq<char>> {
    match r {
        Ok(()) => Ok(()),
        Err(e) => Err(e@),
    }
}

/// What copying with `wl-copy` reports, given how far it got. `wl-copy`
/// forks a process that keeps serving the selection, and the foreground
/// process exits successfully once the offer stands.
pub open spec fn wl_copy_outcome(p: WlCopyProgress) -> Result<(), Seq<char>> {
    match p {
        WlCopyProgress::SpawnFailed(e) => Err("Failed to run wl-copy: "@ + e@),
        WlCopyProgress::StdinUnavailable => Err("wl-copy stdin unavailable"@),
        WlCopyProgress::WriteFailed(e) => Err("Failed to write to wl-copy: "@ + e@),
        WlCopyProgress::WaitFailed(e) => Err("wl-copy did not complete: "@ + e@),
        WlCopyProgress::Exited { success, status } => if success {
            Ok(())
        } else {
            Err("wl-copy exited with "@ + status@)
        },
    }
}

/// The result of copying with `wl-copy`, as `wl_copy_outcome` gives it.
pub fn wl_copy_result(p: &WlCopyProgress) -> (r: Result<(), String>)
    ensures
        str_result(r) == wl_copy_outcome(*p),
{
    match p {
        WlCopyProgress::SpawnFailed(e) => Err(joined("Failed to run wl-copy: ", e.as_str())),
        WlCopyProgress::StdinUnavailable => Err(String::from_str("wl-copy stdin unavailable")),
        WlCopyProgress::WriteFailed(e) => Err(joined("Failed to write to wl-copy: ", e.as_str())),
        WlCopyProgress::WaitFailed(e) => Err(joined("wl-copy did not complete: ", e.as_str())),
        WlCopyProgress::Exited { success, status } => if *success {
            Ok(())
        } else {
            Err(joined("wl-copy exited with ", status.as_str()))
        },
    }
}

/// What a finished helper program produced.
#[derive(Debug, PartialEq, Eq)]
pub struct CommandOutput {
    pub success: bool,
    pub stdout: Vec<u8>,
}

/// The clipboard text that `wl-paste --no-newline` gave, if it ran and exited
/// successfully (it does not when the clipboard is empty); its output decoded.
pub fn wl_paste_text(output: Option<CommandOutput>) -> (text: Option<String>)
    ensures
        text.deep_view() == match output {
            Some(o) => if o.success {
                Some(utf8_lossy(o.stdout@))
            } else {
                None
            },
            None => None,
        },
{
    match output {
        Some(o) => if o.success {
            Some(decode_lossy_utf8(o.stdout.as_slice()))
        } else {
            None
        },
        None => None,
    }
}

// ---------------------------------------------------------------------------
// The copy session

/// How many times the library is asked to set the text before copying fails.
pub const SET_TEXT_ATTEMPTS: u8 = 3;

/// Where a copy session stands.
pub enum CopyStage {
    /// Waiting for the result of `wl-copy`.
    WlCopy,
    /// Waiting for the result of the given attempt (counted from 1) to set
    /// the text through the library.
    Attempt(u8),
    Finished(Result<(), String>),
}

pub enum CopyStageView {
    WlCopy,
    Attempt(u8),
    Finished(Result<(), Seq<char>>),
}

impl View for CopyStage {
    type V = CopyStageView;

    open spec fn view(&self) -> CopyStageView {
        match self {
            CopyStage::WlCopy => CopyStageView::WlCopy,
            CopyStage::Attempt(k) => CopyStageView::Attempt(*k),
            CopyStage::Finished(r) => CopyStageView::Finished(str_result(*r)),
        }
    }
}

/// What the caller does next, after pausing.
#[derive(Debug, PartialEq, Eq)]
pub enum CopyStep {
    /// Copy the text with `wl-copy` and report `wl_copy_result`.
    RunWlCopy,
    /// Set the text through the clipboard library and report the result.
    SetText,
    Finish(Result<(), String>),
}

pub enum CopyStepView {
    RunWlCopy,
    SetText,
    Finish(Result<(), Seq<char>>),
}

/// Pause for `pause_ms` milliseconds, then take `step`.
#[derive(Debug, PartialEq, Eq)]
pub struct CopyAction {
    pub pause_ms: u64,
    pub step: CopyStep,
}

pub struct CopyActionView {
    pub pause_ms: u64,
    pub step: CopyStepView,
}

impl View for CopyAction {
    type V = CopyActionView;

    open spec fn view(&self) -> CopyActionView {
        CopyActionView {
            pause_ms: self.pause_ms,
            step: match self.step {
                CopyStep::RunWlCopy => CopyStepView::RunWlCopy,
                CopyStep::SetText => CopyStepView::SetText,
                CopyStep::Finish(r) => CopyStepView::Finish(str_result(r)),
            },
        }
    }
}

/// Copying one text.
pub struct CopySession {
    stage: CopyStage,
}

impl View for CopySession {
    type V = CopyStageView;

    closed spec fn view(&self) -> CopyStageView {
        self.stage@
    }
}

pub open spec fn copy_act(pause_ms: u64, step: CopyStepView) -> CopyActionView {
    CopyActionView { pause_ms, step }
}

pub open spec fn copy_finish(r: Result<(), Seq<char>>) -> (CopyStageView, CopyActionView) {
    (CopyStageView::Finished(r), copy_act(0, CopyStepView::Finish(r)))
}

pub open spec fn gave_up_message(last_error: Seq<char>) -> Seq<char> {
    "Clipboard failed after 3 attempts: "@ + last_error
}

/// How copying begins: with `wl-copy` on Wayland, else with a first attempt
/// to set the text.
pub open spec fn copy_start(wayland_session: bool) -> (CopyStageView, CopyActionView) {
    if wayland_session {
        (CopyStageView::WlCopy, copy_act(0, CopyStepView::RunWlCopy))
    } else {
        (CopyStageView::Attempt(1), copy_act(0, CopyStepView::SetText))
    }
}

/// How copying goes on after the awaited step reported `r`. `wl-copy` is
/// run once and its result stands. Setting the text is tried again after a
/// 50 ms pause while fewer than three attempts were made; after the third
/// failure copying fails with the last attempt's error.
pub open spec fn copy_next(stage: CopyStageView, r: Result<(), Seq<char>>) -> (
    CopyStageView,
    CopyActionView,
) {
    match stage {
        CopyStageView::WlCopy => copy_finish(r),
        CopyStageView::Attempt(k) => match r {
            Ok(()) => copy_finish(Ok(())),
            Err(e) => if k < SET_TEXT_ATTEMPTS {
                (CopyStageView::Attempt((k + 1) as u8), copy_act(50, CopyStepView::SetText))
            } else {
                copy_finish(Err(gave_up_message(e)))
            },
        },
        CopyStageView::Finished(done) => copy_finish(done),
    }
}

fn clone_result(r: &Result<(), String>) -> (c: Result<(), String>)
    ensures
        str_result(c) == str_result(*r),
{
    match r {
        Ok(()) => Ok(()),
        Err(e) => Err(e.clone()),
    }
}

fn finish_copy(r: Result<(), String>) -> (res: (CopyStage, CopyAction))
    ensures
        (res.0@, res.1@) == copy_finish(str_result(r)),
{
    (CopyStage::Finished(clone_result(&r)), CopyAction { pause_ms: 0, step: CopyStep::Finish(r) })
}

/// Begins copying a text, as `copy_start` describes.
pub fn copy_to_clipboard(wayland_session: bool) -> (res: (CopySession, CopyAction))
    ensures
        (res.0@, res.1@) == copy_start(wayland_session),
{
    match clipboard_backend(wayland_session) {
        ClipboardBackend::WlClipboard => (
            CopySession { stage: CopyStage::WlCopy },
            CopyAction { pause_ms: 0, step: CopyStep::RunWlCopy },
        ),
        ClipboardBackend::Library => (
            CopySession { stage: CopyStage::Attempt(1) },
            CopyAction { pause_ms: 0, step: CopyStep::SetText },
        ),
    }
}

impl CopySession {
    /// Takes the result of the step that the last action asked for and says
    /// what to do next, as `copy_next` describes.
    pub fn advance(&mut self, r: Result<(), String>) -> (a: CopyAction)
        ensures
            (final(self)@, a@) == copy_next(old(self)@, str_result(r)),
    {
        let (stage, a) = match &self.stage {
            CopyStage::WlCopy => finish_copy(r),
            CopyStage::Attempt(k) => match r {
                Ok(()) => finish_copy(Ok(())),
                Err(e) => if *k < SET_TEXT_ATTEMPTS {
                    (CopyStage::Attempt(*k + 1), CopyAction { pause_ms: 50, step: CopyStep::SetText })
                } else {
                    finish_copy(Err(joined("Clipboard failed after 3 attempts: ", e.as_str())))
                },
            },
            CopyStage::Finished(done) => finish_copy(clone_result(done)),
        };
        self.stage = stage;
        a
    }
}

// ---------------------------------------------------------------------------
// Laws

/// How many more times a session at this stage may still ask for a step.
pub open spec fn copy_steps_left(stage: CopyStageView) -> nat {
    match stage {
        CopyStageView::WlCopy => 1,
        CopyStageView::Attempt(k) => if k < SET_TEXT_ATTEMPTS {
            (SET_TEXT_ATTEMPTS - k + 1) as nat
        } else {
            1
        },
        CopyStageView::Finished(_) => 0,
    }
}

/// Copying stops: the library is asked to set the text at most three times,
/// each report brings the session strictly closer to the end, the action is
/// `Finish` exactly when it has stopped, and a stopped session keeps
/// reporting the same result.
pub proof fn copy_session_finishes(wayland_session: bool, stage: CopyStageView, r: Result<(), Seq<char>>)
    ensures
        copy_steps_left(copy_start(wayland_session).0) <= SET_TEXT_ATTEMPTS,
        copy_steps_left(stage) > 0 ==> copy_steps_left(copy_next(stage, r).0) < copy_steps_left(
            stage,
        ),
        (copy_next(stage, r).1.step is Finish) == (copy_next(stage, r).0 is Finished),
        stage matches CopyStageView::Finished(done) ==> copy_next(stage, r) == copy_finish(done),
{
}

/// Outside Wayland, the first successful attempt ends copying with success;
/// three failed attempts, 50 ms apart, end it with the last error.
pub proof fn copy_retries_three_times(
    e1: Seq<char>,
    e2: Seq<char>,
    e3: Seq<char>,
    r: Result<(), Seq<char>>,
)
    ensures
        ({
            let (s0, a0) = copy_start(false);
            let (s1, a1) = copy_next(s0, Err(e1));
            let (s2, a2) = copy_next(s1, Err(e2));
            let (s3, a3) = copy_next(s2, Err(e3));
            &&& a0 == copy_act(0, CopyStepView::SetText)
            &&& a1 == copy_act(50, CopyStepView::SetText)
            &&& a2 == copy_act(50, CopyStepView::SetText)
            &&& a3 == copy_act(0, CopyStepView::Finish(Err(gave_up_message(e3))))
            &&& copy_next(s0, Ok(())) == copy_finish(Ok(()))
            &&& copy_next(s1, Ok(())) == copy_finish(Ok(()))
            &&& copy_next(s2, Ok(())) == copy_finish(Ok(()))
        }),
        copy_start(true).1 == copy_act(0, CopyStepView::RunWlCopy),
        copy_next(copy_start(true).0, r) == copy_finish(r),
{
}

/// Copying with `wl-copy` succeeds exactly when it exited successfully; a
/// failure to start it, take or write its input, or wait for it, and an
/// unsuccessful exit, are reported with the step that failed and its cause.
pub proof fn wl_copy_succeeds_only_on_a_clean_exit(p: WlCopyProgress, e: String, status: String)
    ensures
        wl_copy_outcome(p) is Ok <==> (p matches WlCopyProgress::Exited { success, .. } && success),
        wl_copy_outcome(WlCopyProgress::SpawnFailed(e)) == Err::<(), Seq<char>>(
            "Failed to run wl-copy: "@ + e@,
        ),
        wl_copy_outcome(WlCopyProgress::StdinUnavailable) == Err::<(), Seq<char>>(
            "wl-copy stdin unavailable"@,
        ),
        wl_copy_outcome(WlCopyProgress::WriteFailed(e)) == Err::<(), Seq<char>>(
            "Failed to write to wl-copy: "@ + e@,
        ),
        wl_copy_outcome(WlCopyProgress::WaitFailed(e)) == Err::<(), Seq<char>>(
            "wl-copy did not complete: "@ + e@,
        ),
        wl_copy_outcome(WlCopyProgress::Exited { success: false, status }) == Err::<
            (),
            Seq<char>,
        >("wl-copy exited with "@ + status@),
{
}

/// Copying is reported done only when the step just reported succeeded (or
/// again by a session that already reported it), and the result of
/// `wl-copy` is the result of the copy.
pub proof fn copy_succeeds_only_after_a_successful_step(
    stage: CopyStageView,
    r: Result<(), Seq<char>>,
)
    ensures
        copy_next(stage, r).1.step == CopyStepView::Finish(Ok(())) ==> r is Ok || stage
            == CopyStageView::Finished(Ok(())),
        copy_next(CopyStageView::WlCopy, r) == (
            CopyStageView::Finished(r),
            CopyActionView { pause_ms: 0, step: CopyStepView::Finish(r) },
        ),
        stage is Attempt && r is Ok ==> copy_next(stage, r).1 == (CopyActionView {
            pause_ms: 0,
            step: CopyStepView::Finish(Ok(())),
        }),
{
}

/// Outside Wayland the library is asked three times at most, 50 ms apart,
/// and three failures end copying with
/// `Clipboard failed after 3 attempts: <last error>`; on Wayland `wl-copy`
/// is run at once.
pub proof fn copy_gives_up_with_the_last_error(e1: Seq<char>, e2: Seq<char>, e3: Seq<char>)
    ensures
        copy_start(false).1 == (CopyActionView { pause_ms: 0, step: CopyStepView::SetText }),
        copy_start(true).1 == (CopyActionView { pause_ms: 0, step: CopyStepView::RunWlCopy }),
        copy_next(copy_start(false).0, Err(e1)).1 == (CopyActionView {
            pause_ms: 50,
            step: CopyStepView::SetText,
        }),
        copy_next(copy_next(copy_start(false).0, Err(e1)).0, Err(e2)).1 == (CopyActionView {
            pause_ms: 50,
            step: CopyStepView::SetText,
        }),
        copy_next(copy_next(copy_next(copy_start(false).0, Err(e1)).0, Err(e2)).0, Err(e3)).1
            == (CopyActionView {
            pause_ms: 0,
            step: CopyStepView::Finish(Err("Clipboard failed after 3 attempts: "@ + e3)),
        }),
{
}

} // verus!
