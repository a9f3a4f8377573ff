//! Remembering which window had focus, and pasting into it again.
//!
//! A focus target is the text that `get_frontmost_target` produces:
//! `kwin:<id>` for a KWin window that `kdotool` reported, the marker
//! `wayland` when no window could be captured on Wayland, and otherwise an
//! X11 window id from `xdotool`.
//!
//! Pasting alternates between running helper programs, pausing, and deciding
//! what to do with their outcome. `paste_into_target` opens a `PasteSession`
//! and says what to do first; the caller performs each `PasteAction` (pause
//! for `pause_ms` milliseconds, then run the command or stop with the result)
//! and hands the command's outcome to `PasteSession::advance`.

use vstd::prelude::*;
use vstd::string::*;

use crate::text::{
    decode_lossy_utf8, is_ascii_digit_seq, is_ascii_digits, joined, same_text, strip_prefix, trim_whitespace,
    trimmed, utf8_lossy,
};

verus! {

/// A helper program and its arguments.
#[derive(Debug, PartialEq, Eq)]
pub struct ShellCommand {
    pub program: String,
    pub args: Vec<String>,
}

/// A helper program and its arguments, as text.
pub struct CommandView {
    pub program: Seq<char>,
    pub args: Seq<Seq<char>>,
}

impl View for ShellCommand {
    type V = CommandView;

    open spec fn view(&self) -> CommandView {
        CommandView { program: self.program@, args: self.args.deep_view() }
    }
}

/// How running a helper program went.
#[derive(Debug, PartialEq, Eq)]
pub enum CommandOutcome {
    /// The program could not be started; the text describes the error.
    SpawnFailed(String),
    /// The program ran; `status` describes its exit status.
    Exited { success: bool, status: String },
}

pub enum OutcomeView {
    SpawnFailed(Seq<char>),
    Exited { success: bool, status: Seq<char> },
}

impl View for CommandOutcome {
    type V = OutcomeView;

    open spec fn view(&self) -> OutcomeView {
        match self {
            CommandOutcome::SpawnFailed(e) => OutcomeView::SpawnFailed(e@),
            CommandOutcome::Exited { success, status } => OutcomeView::Exited {
                success: *success,
                status: status@,
            },
        }
    }
}

/// The program ran and exited successfully.
pub open spec fn succeeded(o: OutcomeView) -> bool {
    o matches OutcomeView::Exited { success, .. } && success
}

/// What the caller does next, after pausing.
#[derive(Debug, PartialEq, Eq)]
pub enum PasteStep {
    Run(ShellCommand),
    Finish(Result<(), String>),
}

pub enum StepView {
    Run(CommandView),
    Finish(Result<(), Seq<char>>),
}

/// Pause for `pause_ms` milliseconds, then take `step`.
#[derive(Debug, PartialEq, Eq)]
pub struct PasteAction {
    pub pause_ms: u64,
    pub step: PasteStep,
}

pub struct ActionView {
    pub pause_ms: u64,
    pub step: StepView,
}

pub open spec fn result_view(r: Result<(), String>) -> Result<(), Seq<char>> {
    match r {
        Ok(()) => Ok(()),
        Err(e) => Err(e@),
    }
}

impl View for PasteStep {
    type V = StepView;

    open spec fn view(&self) -> StepView {
        match self {
            PasteStep::Run(c) => StepView::Run(c@),
            PasteStep::Finish(r) => StepView::Finish(result_view(*r)),
        }
    }
}

impl View for PasteAction {
    type V = ActionView;

    open spec fn view(&self) -> ActionView {
        ActionView { pause_ms: self.pause_ms, step: self.step@ }
    }
}

/// Where a paste session stands: which command's outcome it waits for.
pub enum PasteStage {
    KwinActivating,
    KwinPressing,
    X11Activating,
    X11Pressing,
    WaylandYdotool,
    WaylandWtype,
    WaylandXdotool,
    Finished(Result<(), String>),
}

pub enum StageView {
    KwinActivating,
    KwinPressing,
    X11Activating,
    X11Pressing,
    WaylandYdotool,
    WaylandWtype,
    WaylandXdotool,
    Finished(Result<(), Seq<char>>),
}

impl View for PasteStage {
    type V = StageView;

    open spec fn view(&self) -> StageView {
        match self {
            PasteStage::KwinActivating => StageView::KwinActivating,
            PasteStage::KwinPressing => StageView::KwinPressing,
            PasteStage::X11Activating => StageView::X11Activating,
            PasteStage::X11Pressing => StageView::X11Pressing,
            PasteStage::WaylandYdotool => StageView::WaylandYdotool,
            PasteStage::WaylandWtype => StageView::WaylandWtype,
            PasteStage::WaylandXdotool => StageView::WaylandXdotool,
            PasteStage::Finished(r) => StageView::Finished(result_view(*r)),
        }
    }
}

/// One paste into one focus target.
pub struct PasteSession {
    stage: PasteStage,
}

impl View for PasteSession {
    type V = StageView;

    closed spec fn view(&self) -> StageView {
        self.stage@
    }
}

// ---------------------------------------------------------------------------
// The commands

/// `ydotool key -d 25 29:1 47:1 47:0 29:0`: Ctrl+V through kernel uinput,
/// with 25 ms between key events.
pub open spec fn ydotool_ctrl_v() -> CommandView {
    CommandView {
        program: "ydotool"@,
        args: seq!["key"@, "-d"@, "25"@, "29:1"@, "47:1"@, "47:0"@, "29:0"@],
    }
}

/// `wtype -M ctrl -k v -m ctrl`: Ctrl+V on wlroots compositors.
pub open spec fn wtype_ctrl_v() -> CommandView {
    CommandView { program: "wtype"@, args: seq!["-M"@, "ctrl"@, "-k"@, "v"@, "-m"@, "ctrl"@] }
}

/// `xdotool key --clearmodifiers ctrl+v`.
pub open spec fn xdotool_ctrl_v() -> CommandView {
    CommandView { program: "xdotool"@, args: seq!["key"@, "--clearmodifiers"@, "ctrl+v"@] }
}

/// `kdotool windowactivate <id>`: raise a KWin window.
pub open spec fn kdotool_activate(id: Seq<char>) -> CommandView {
    CommandView { program: "kdotool"@, args: seq!["windowactivate"@, id] }
}

/// `xdotool windowactivate --sync <id>`: raise an X11 window and wait for it.
pub open spec fn xdotool_activate(id: Seq<char>) -> CommandView {
    CommandView { program: "xdotool"@, args: seq!["windowactivate"@, "--sync"@, id] }
}

/// The command that reports the active window: `kdotool getactivewindow` on
/// Wayland, `xdotool getactivewindow` on X11.
pub open spec fn active_window_probe(wayland_session: bool) -> CommandView {
    CommandView {
        program: if wayland_session {
            "kdotool"@
        } else {
            "xdotool"@
        },
        args: seq!["getactivewindow"@],
    }
}

fn string_vec2(a: &str, b: &str) -> (v: Vec<String>)
    ensures
        v.deep_view() == seq![a@, b@],
{
    let mut v: Vec<String> = Vec::new();
    v.push(String::from_str(a));
    v.push(String::from_str(b));
    assert(v.deep_view() =~= seq![a@, b@]);
    v
}

fn string_vec3(a: &str, b: &str, c: &str) -> (v: Vec<String>)
    ensures
        v.deep_view() == seq![a@, b@, c@],
{
    let mut v: Vec<String> = Vec::new();
    v.push(String::from_str(a));
    v.push(String::from_str(b));
    v.push(String::from_str(c));
    assert(v.deep_view() =~= seq![a@, b@, c@]);
    v
}

fn ydotool_ctrl_v_command() -> (c: ShellCommand)
    ensures
        c@ == ydotool_ctrl_v(),
{
    let mut v: Vec<String> = Vec::new();
    v.push(String::from_str("key"));
    v.push(String::from_str("-d"));
    v.push(String::from_str("25"));
    v.push(String::from_str("29:1"));
    v.push(String::from_str("47:1"));
    v.push(String::from_str("47:0"));
    v.push(String::from_str("29:0"));
    assert(v.deep_view() =~= ydotool_ctrl_v().args);
    ShellCommand { program: String::from_str("ydotool"), args: v }
}

fn wtype_ctrl_v_command() -> (c: ShellCommand)
    ensures
        c@ == wtype_ctrl_v(),
{
    let mut v: Vec<String> = Vec::new();
    v.push(String::from_str("-M"));
    v.push(String::from_str("ctrl"));
    v.push(String::from_str("-k"));
    v.push(String::from_str("v"));
    v.push(String::from_str("-m"));
    v.push(String::from_str("ctrl"));
    assert(v.deep_view() =~= wtype_ctrl_v().args);
    ShellCommand { program: String::from_str("wtype"), args: v }
}

fn xdotool_ctrl_v_command() -> (c: ShellCommand)
    ensures
        c@ == xdotool_ctrl_v(),
{
    ShellCommand {
        program: String::from_str("xdotool"),
        args: string_vec3("key", "--clearmodifiers", "ctrl+v"),
    }
}

fn kdotool_activate_command(id: &str) -> (c: ShellCommand)
    ensures
        c@ == kdotool_activate(id@),
{
    ShellCommand { program: String::from_str("kdotool"), args: string_vec2("windowactivate", id) }
}

fn xdotool_activate_command(id: &str) -> (c: ShellCommand)
    ensures
        c@ == xdotool_activate(id@),
{
    ShellCommand {
        program: String::from_str("xdotool"),
        args: string_vec3("windowactivate", "--sync", id),
    }
}

/// The command whose standard output names the active window.
pub fn frontmost_probe(wayland_session: bool) -> (c: ShellCommand)
    ensures
        c@ == active_window_probe(wayland_session),
{
    let program = if wayland_session {
        String::from_str("kdotool")
    } else {
        String::from_str("xdotool")
    };
    let mut args: Vec<String> = Vec::new();
    args.push(String::from_str("getactivewindow"));
    assert(args.deep_view() =~= seq!["getactivewindow"@]);
    ShellCommand { program, args }
}

// ---------------------------------------------------------------------------
// Capturing the focus target

/// The window id in the probe's report: the report trimmed, or nothing.
pub open spec fn reported_id(report: Option<Seq<char>>) -> Seq<char> {
    match report {
        Some(text) => trimmed(text),
        None => Seq::empty(),
    }
}

/// The focus target for a session: `wayland_session` says whether it is a
/// Wayland session, and `report` is what `active_window_probe` wrote, when
/// it ran and exited successfully. An empty id counts as none.
pub open spec fn focus_target(wayland_session: bool, report: Option<Seq<char>>) -> Option<
    Seq<char>,
> {
    let id = reported_id(report);
    if wayland_session {
        if id.len() > 0 {
            Some("kwin:"@ + id)
        } else {
            Some("wayland"@)
        }
    } else {
        if id.len() > 0 {
            Some(id)
        } else {
            None
        }
    }
}

/// The focus target when the probe's raw standard output is `probe_stdout`:
/// as `focus_target`, of that output decoded.
pub open spec fn frontmost_target(wayland_session: bool, probe_stdout: Option<Seq<u8>>) -> Option<
    Seq<char>,
> {
    focus_target(
        wayland_session,
        match probe_stdout {
            Some(out) => Some(utf8_lossy(out)),
            None => None,
        },
    )
}

/// The window that paste should refocus, from the probe's report.
/// On Wayland this is `kwin:<id>`, or the marker `wayland` when kdotool gave
/// nothing (paste is then focus-blind); on X11 it is the window id, or none.
pub fn focus_target_from_report(wayland_session: bool, report: Option<&str>) -> (target: Option<
    String,
>)
    ensures
        target.deep_view() == focus_target(wayland_session, report.deep_view()),
{
    let id = match report {
        Some(text) => trim_whitespace(text),
        None => String::new(),
    };
    let has_id = id.as_str().unicode_len() > 0;
    if wayland_session {
        if has_id {
            Some(joined("kwin:", id.as_str()))
        } else {
            Some(String::from_str("wayland"))
        }
    } else {
        if has_id {
            Some(id)
        } else {
            None
        }
    }
}

/// The window that paste should refocus, from the probe's standard output
/// (`None` when the probe could not run or failed), decoded as UTF-8 with
/// invalid sequences replaced.
pub fn get_frontmost_target(wayland_session: bool, probe_stdout: Option<Vec<u8>>) -> (target:
    Option<String>)
    ensures
        target.deep_view() == frontmost_target(wayland_session, probe_stdout.deep_view()),
{
    match &probe_stdout {
        Some(out) => {
            assert(out.deep_view() == out@);
            let text = decode_lossy_utf8(out.as_slice());
            focus_target_from_report(wayland_session, Some(text.as_str()))
        },
        None => focus_target_from_report(wayland_session, None),
    }
}

// ---------------------------------------------------------------------------
// The paste session

pub open spec fn act(pause_ms: u64, step: StepView) -> ActionView {
    ActionView { pause_ms, step }
}

/// Stop with `r` after pausing `pause_ms`.
pub open spec fn finish(pause_ms: u64, r: Result<(), Seq<char>>) -> (StageView, ActionView) {
    (StageView::Finished(r), act(pause_ms, StepView::Finish(r)))
}

pub open spec fn invalid_window_id_message(id: Seq<char>) -> Seq<char> {
    "Invalid window ID '"@ + id + "': expected digits only"@
}

pub open spec fn ydotool_spawn_message(e: Seq<char>) -> Seq<char> {
    "Failed to run ydotool (is ydotoold running?): "@ + e
}

pub open spec fn ydotool_failed_message(status: Seq<char>) -> Seq<char> {
    "ydotool key ctrl+v failed with "@ + status
        + " \u{2014} is ydotoold running? (`systemctl --user enable --now ydotoold`)"@
}

pub open spec fn x11_activate_spawn_message(e: Seq<char>) -> Seq<char> {
    "Failed to run xdotool windowactivate: "@ + e
}

pub open spec fn x11_key_spawn_message(e: Seq<char>) -> Seq<char> {
    "Failed to run xdotool key: "@ + e
}

pub open spec fn x11_key_failed_message(status: Seq<char>) -> Seq<char> {
    "xdotool key ctrl+v failed with "@ + status
}

pub open spec fn all_failed_spawn_message(e: Seq<char>) -> Seq<char> {
    "All paste methods failed. Last error (xdotool): "@ + e
}

pub open spec fn all_failed_status_message(status: Seq<char>) -> Seq<char> {
    "All paste methods failed (ydotool, wtype, xdotool). xdotool exited with "@ + status
}

/// How a paste into `target` begins.
/// - `wayland`: pause 100 ms, then try ydotool, wtype and xdotool in turn.
/// - `kwin:<id>`: raise window `<id>` with kdotool, then send Ctrl+V with ydotool.
/// - anything else is an X11 window id: it must consist of digits only; the
///   window is raised with xdotool, which then sends Ctrl+V.
pub open spec fn paste_start(target: Seq<char>) -> (StageView, ActionView) {
    if target == "wayland"@ {
        (StageView::WaylandYdotool, act(100, StepView::Run(ydotool_ctrl_v())))
    } else if "kwin:"@.is_prefix_of(target) {
        (
            StageView::KwinActivating,
            act(0, StepView::Run(kdotool_activate(target.skip("kwin:"@.len() as int)))),
        )
    } else if is_ascii_digit_seq(target) {
        (StageView::X11Activating, act(0, StepView::Run(xdotool_activate(target))))
    } else {
        finish(0, Err(invalid_window_id_message(target)))
    }
}

/// How a paste session goes on once the command it waits for has the
/// outcome `o`. Every path that succeeds pauses 50 ms before it reports.
pub open spec fn paste_next(stage: StageView, o: OutcomeView) -> (StageView, ActionView) {
    match stage {
        StageView::KwinActivating => (
            StageView::KwinPressing,
            act(150, StepView::Run(ydotool_ctrl_v())),
        ),
        StageView::KwinPressing => match o {
            OutcomeView::SpawnFailed(e) => finish(0, Err(ydotool_spawn_message(e))),
            OutcomeView::Exited { success, status } => if success {
                finish(50, Ok(()))
            } else {
                finish(0, Err(ydotool_failed_message(status)))
            },
        },
        StageView::X11Activating => match o {
            OutcomeView::SpawnFailed(e) => finish(0, Err(x11_activate_spawn_message(e))),
            OutcomeView::Exited { .. } => (
                StageView::X11Pressing,
                act(100, StepView::Run(xdotool_ctrl_v())),
            ),
        },
        StageView::X11Pressing => match o {
            OutcomeView::SpawnFailed(e) => finish(0, Err(x11_key_spawn_message(e))),
            OutcomeView::Exited { success, status } => if success {
                finish(50, Ok(()))
            } else {
                finish(0, Err(x11_key_failed_message(status)))
            },
        },
        StageView::WaylandYdotool => if succeeded(o) {
            finish(50, Ok(()))
        } else {
            (StageView::WaylandWtype, act(0, StepView::Run(wtype_ctrl_v())))
        },
        StageView::WaylandWtype => if succeeded(o) {
            finish(50, Ok(()))
        } else {
            (StageView::WaylandXdotool, act(0, StepView::Run(xdotool_ctrl_v())))
        },
        StageView::WaylandXdotool => match o {
            OutcomeView::SpawnFailed(e) => finish(0, Err(all_failed_spawn_message(e))),
            OutcomeView::Exited { success, status } => if success {
                finish(50, Ok(()))
            } else {
                finish(0, Err(all_failed_status_message(status)))
            },
        },
        StageView::Finished(r) => finish(0, r),
    }
}

fn run_action(pause_ms: u64, command: ShellCommand) -> (a: PasteAction)
    ensures
        a@ == act(pause_ms, StepView::Run(command@)),
{
    PasteAction { pause_ms, step: PasteStep::Run(command) }
}

fn finish_action(pause_ms: u64, r: Result<(), String>) -> (res: (PasteStage, PasteAction))
    ensures
        (res.0@, res.1@) == finish(pause_ms, result_view(r)),
{
    let kept = match &r {
        Ok(()) => Ok(()),
        Err(e) => Err(e.clone()),
    };
    (PasteStage::Finished(kept), PasteAction { pause_ms, step: PasteStep::Finish(r) })
}

fn message(prefix: &str, detail: &str) -> (m: String)
    ensures
        m@ == prefix@ + detail@,
{
    joined(prefix, detail)
}

/// Begins pasting into `target`, as `paste_start` describes.
pub fn paste_into_target(target: String) -> (res: (PasteSession, PasteAction))
    ensures
        (res.0@, res.1@) == paste_start(target@),
{
    if same_text(target.as_str(), "wayland") {
        let a = run_action(100, ydotool_ctrl_v_command());
        return (PasteSession { stage: PasteStage::WaylandYdotool }, a);
    }
    match strip_prefix(target.as_str(), "kwin:") {
        Some(kwin_id) => {
            let a = run_action(0, kdotool_activate_command(kwin_id.as_str()));
            (PasteSession { stage: PasteStage::KwinActivating }, a)
        },
        None => {
            if is_ascii_digits(target.as_str()) {
                let a = run_action(0, xdotool_activate_command(target.as_str()));
                (PasteSession { stage: PasteStage::X11Activating }, a)
            } else {
                let mut m = String::from_str("Invalid window ID '");
                m.append(target.as_str());
                m.append("': expected digits only");
                let (stage, a) = finish_action(0, Err(m));
                (PasteSession { stage }, a)
            }
        },
    }
}

impl PasteSession {
    /// Takes the outcome of the command that the last action ran and says
    /// what to do next, as `paste_next` describes.
    pub fn advance(&mut self, outcome: &CommandOutcome) -> (a: PasteAction)
        ensures
            (final(self)@, a@) == paste_next(old(self)@, outcome@),
    {
        let (stage, a) = match &self.stage {
            PasteStage::KwinActivating => (
                PasteStage::KwinPressing,
                run_action(150, ydotool_ctrl_v_command()),
            ),
            PasteStage::KwinPressing => match outcome {
                CommandOutcome::SpawnFailed(e) => finish_action(
                    0,
                    Err(message("Failed to run ydotool (is ydotoold running?): ", e.as_str())),
                ),
                CommandOutcome::Exited { success, status } => if *success {
                    finish_action(50, Ok(()))
                } else {
                    let mut m = String::from_str("ydotool key ctrl+v failed with ");
                    m.append(status.as_str());
                    m.append(" \u{2014} is ydotoold running? (`systemctl --user enable --now ydotoold`)");
                    finish_action(0, Err(m))
                },
            },
            PasteStage::X11Activating => match outcome {
                CommandOutcome::SpawnFailed(e) => finish_action(
                    0,
                    Err(message("Failed to run xdotool windowactivate: ", e.as_str())),
                ),
                CommandOutcome::Exited { .. } => (
                    PasteStage::X11Pressing,
                    run_action(100, xdotool_ctrl_v_command()),
                ),
            },
            PasteStage::X11Pressing => match outcome {
                CommandOutcome::SpawnFailed(e) => finish_action(
                    0,
                    Err(message("Failed to run xdotool key: ", e.as_str())),
                ),
                CommandOutcome::Exited { success, status } => if *success {
                    finish_action(50, Ok(()))
                } else {
                    finish_action(
                        0,
                        Err(message("xdotool key ctrl+v failed with ", status.as_str())),
                    )
                },
            },
            PasteStage::WaylandYdotool => match outcome {
                CommandOutcome::Exited { success: true, .. } => finish_action(50, Ok(())),
                _ => (PasteStage::WaylandWtype, run_action(0, wtype_ctrl_v_command())),
            },
            PasteStage::WaylandWtype => match outcome {
                CommandOutcome::Exited { success: true, .. } => finish_action(50, Ok(())),
                _ => (PasteStage::WaylandXdotool, run_action(0, xdotool_ctrl_v_command())),
            },
            PasteStage::WaylandXdotool => match outcome {
                CommandOutcome::SpawnFailed(e) => finish_action(
                    0,
                    Err(message("All paste methods failed. Last error (xdotool): ", e.as_str())),
                ),
                CommandOutcome::Exited { success, status } => if *success {
                    finish_action(50, Ok(()))
                } else {
                    finish_action(
                        0,
                        Err(
                            message(
                                "All paste methods failed (ydotool, wtype, xdotool). xdotool exited with ",
                                status.as_str(),
                            ),
                        ),
                    )
                },
            },
            PasteStage::Finished(r) => {
                let r2 = match r {
                    Ok(()) => Ok(()),
                    Err(e) => Err(e.clone()),
                };
                finish_action(0, r2)
            },
        };
        self.stage = stage;
        a
    }
}

// ---------------------------------------------------------------------------
// Laws

/// A captured focus target is pasted into the window it names: a KWin id is
/// raised with kdotool, an X11 id made of digits is raised with xdotool (an X11
/// id with other characters is refused unless it reads as a marker or a KWin
/// target), and without an id a Wayland session falls back to the
/// focus-blind chain.
pub proof fn captured_target_routes_to_its_window(wayland_session: bool, report: Option<Seq<char>>)
    ensures
        ({
            let id = reported_id(report);
            let target = focus_target(wayland_session, report);
            &&& wayland_session && id.len() > 0 ==> target == Some("kwin:"@ + id)
                && paste_start(target->0) == (
                StageView::KwinActivating,
                act(0, StepView::Run(kdotool_activate(id))),
            )
            &&& wayland_session && id.len() == 0 ==> target == Some("wayland"@) && paste_start(
                target->0,
            ) == (StageView::WaylandYdotool, act(100, StepView::Run(ydotool_ctrl_v())))
            &&& !wayland_session && id.len() == 0 ==> target is None
            &&& !wayland_session && id.len() > 0 && is_ascii_digit_seq(id) ==> target == Some(id)
                && paste_start(target->0) == (
                StageView::X11Activating,
                act(0, StepView::Run(xdotool_activate(id))),
            )
            &&& !wayland_session && id.len() > 0 && !is_ascii_digit_seq(id) && id != "wayland"@
                && !"kwin:"@.is_prefix_of(id) ==> target == Some(id) && paste_start(target->0)
                == finish(0, Err(invalid_window_id_message(id)))
        }),
{
    reveal_strlit("kwin:");
    reveal_strlit("wayland");
    let id = reported_id(report);
    if wayland_session && id.len() > 0 {
        let t = "kwin:"@ + id;
        assert(t[0] != "wayland"@[0]);
        assert("kwin:"@ =~= t.subrange(0, 5));
        assert(t.skip(5) =~= id);
    }
    if !wayland_session && id.len() > 0 && is_ascii_digit_seq(id) {
        assert(0x30 <= (id[0] as u32) <= 0x39);
        assert(id[0] != "wayland"@[0]);
        assert(id != "wayland"@);
        assert(id.len() < 5 || id.subrange(0, 5)[0] != "kwin:"@[0]);
        assert(!"kwin:"@.is_prefix_of(id));
    }
}

/// Only a window id made of digits is ever handed to `xdotool windowactivate`.
pub proof fn xdotool_activates_only_numeric_ids(target: Seq<char>, stage: StageView, o: OutcomeView)
    ensures
        paste_start(target).1.step matches StepView::Run(c) ==> (c.program == "xdotool"@
            && c.args.len() > 0 && c.args[0] == "windowactivate"@ ==> c.args.len() == 3
            && is_ascii_digit_seq(c.args[2])),
        !(paste_next(stage, o).1.step matches StepView::Run(c) && c.program == "xdotool"@
            && c.args.len() > 0 && c.args[0] == "windowactivate"@),
{
    reveal_strlit("xdotool");
    reveal_strlit("kdotool");
    reveal_strlit("ydotool");
    reveal_strlit("wtype");
    reveal_strlit("key");
    reveal_strlit("windowactivate");
    assert("key"@.len() != "windowactivate"@.len());
    assert("ydotool"@[0] != "xdotool"@[0]);
    assert("kdotool"@[0] != "xdotool"@[0]);
    assert("wtype"@.len() != "xdotool"@.len());
}

/// How many more commands a session at this stage may still run.
pub open spec fn commands_left(stage: StageView) -> nat {
    match stage {
        StageView::WaylandYdotool => 3,
        StageView::WaylandWtype => 2,
        StageView::WaylandXdotool => 1,
        StageView::KwinActivating => 2,
        StageView::KwinPressing => 1,
        StageView::X11Activating => 2,
        StageView::X11Pressing => 1,
        StageView::Finished(_) => 0,
    }
}

/// Every paste session stops: it starts with at most three commands to go,
/// each outcome brings it strictly closer to the end, the action is `Finish`
/// exactly when the session has stopped, and a stopped session keeps
/// reporting the same result.
pub proof fn paste_session_finishes(target: Seq<char>, stage: StageView, o: OutcomeView)
    ensures
        commands_left(paste_start(target).0) <= 3,
        (paste_start(target).1.step is Finish) == (paste_start(target).0 is Finished),
        commands_left(stage) > 0 ==> commands_left(paste_next(stage, o).0) < commands_left(stage),
        (paste_next(stage, o).1.step is Finish) == (paste_next(stage, o).0 is Finished),
        stage matches StageView::Finished(r) ==> paste_next(stage, o) == finish(0, r),
{
}

/// Focus-blind Wayland paste tries ydotool, then wtype, then xdotool; it stops
/// at the first that succeeds, and fails only when all three did.
pub proof fn wayland_fallback_order(o1: OutcomeView, o2: OutcomeView, o3: OutcomeView)
    ensures
        ({
            let (s0, a0) = paste_start("wayland"@);
            let (s1, a1) = paste_next(s0, o1);
            let (s2, a2) = paste_next(s1, o2);
            let (s3, a3) = paste_next(s2, o3);
            &&& a0 == act(100, StepView::Run(ydotool_ctrl_v()))
            &&& succeeded(o1) ==> a1 == act(50, StepView::Finish(Ok(())))
            &&& !succeeded(o1) ==> a1 == act(0, StepView::Run(wtype_ctrl_v()))
            &&& !succeeded(o1) && succeeded(o2) ==> a2 == act(50, StepView::Finish(Ok(())))
            &&& !succeeded(o1) && !succeeded(o2) ==> a2 == act(0, StepView::Run(xdotool_ctrl_v()))
                && a3.step is Finish && (a3.step == StepView::Finish(Ok(())) <==> succeeded(o3))
        }),
{
}

/// Raising the window first is best effort: on KWin its outcome is ignored,
/// and on X11 only a failure to start xdotool stops the paste; the result is
/// then that of the key press.
pub proof fn refocus_is_best_effort(o1: OutcomeView, o2: OutcomeView, o3: OutcomeView)
    ensures
        paste_next(StageView::KwinActivating, o1) == paste_next(StageView::KwinActivating, o2),
        o1 is Exited && o2 is Exited ==> paste_next(StageView::X11Activating, o1) == paste_next(
            StageView::X11Activating,
            o2,
        ),
        (paste_next(StageView::KwinPressing, o3).1.step == StepView::Finish(Ok(())))
            == succeeded(o3),
        (paste_next(StageView::X11Pressing, o3).1.step == StepView::Finish(Ok(())))
            == succeeded(o3),
{
}

/// The stages that wait for a command that types Ctrl+V.
pub open spec fn presses_keys(stage: StageView) -> bool {
    ||| stage is KwinPressing
    ||| stage is X11Pressing
    ||| stage is WaylandYdotool
    ||| stage is WaylandWtype
    ||| stage is WaylandXdotool
}

/// A paste is reported done only right after a command that types Ctrl+V
/// (ydotool, wtype or `xdotool key`) exited successfully (or again by a
/// session that already reported it), never when it begins; and such a
/// success ends the session with `Ok` after a 50 ms pause.
pub proof fn paste_succeeds_only_after_a_key_press(target: Seq<char>, stage: StageView, o: OutcomeView)
    ensures
        paste_start(target).1.step != StepView::Finish(Ok(())),
        paste_next(stage, o).1.step == StepView::Finish(Ok(())) ==> (presses_keys(stage)
            && o == OutcomeView::Exited { success: true, status: o->status }) || stage
            == StageView::Finished(Ok(())),
        presses_keys(stage) && (o matches OutcomeView::Exited { success, .. } && success) ==> paste_next(stage, o) == (
            StageView::Finished(Ok(())),
            ActionView { pause_ms: 50, step: StepView::Finish(Ok(())) },
        ),
{
}

/// The error that ends a paste, whatever the failing program said: a
/// program that could not be started or that failed ends the session at
/// once with an error naming the step and carrying that text.
pub proof fn paste_failures_report_their_cause(e: Seq<char>, status: Seq<char>)
    ensures
        paste_next(StageView::X11Activating, OutcomeView::SpawnFailed(e)) == (
            StageView::Finished(Err("Failed to run xdotool windowactivate: "@ + e)),
            ActionView {
                pause_ms: 0,
                step: StepView::Finish(Err("Failed to run xdotool windowactivate: "@ + e)),
            },
        ),
        paste_next(StageView::X11Pressing, OutcomeView::SpawnFailed(e)) == (
            StageView::Finished(Err("Failed to run xdotool key: "@ + e)),
            ActionView {
                pause_ms: 0,
                step: StepView::Finish(Err("Failed to run xdotool key: "@ + e)),
            },
        ),
        paste_next(StageView::X11Pressing, OutcomeView::Exited { success: false, status })
            == (
            StageView::Finished(Err("xdotool key ctrl+v failed with "@ + status)),
            ActionView {
                pause_ms: 0,
                step: StepView::Finish(Err("xdotool key ctrl+v failed with "@ + status)),
            },
        ),
        paste_next(StageView::KwinPressing, OutcomeView::SpawnFailed(e)) == (
            StageView::Finished(Err("Failed to run ydotool (is ydotoold running?): "@ + e)),
            ActionView {
                pause_ms: 0,
                step: StepView::Finish(Err("Failed to run ydotool (is ydotoold running?): "@ + e)),
            },
        ),
        paste_next(StageView::KwinPressing, OutcomeView::Exited { success: false, status })
            == (
            StageView::Finished(
                Err(
                    "ydotool key ctrl+v failed with "@ + status
                        + " \u{2014} is ydotoold running? (`systemctl --user enable --now ydotoold`)"@,
                ),
            ),
            ActionView {
                pause_ms: 0,
                step: StepView::Finish(
                    Err(
                        "ydotool key ctrl+v failed with "@ + status
                            + " \u{2014} is ydotoold running? (`systemctl --user enable --now ydotoold`)"@,
                    ),
                ),
            },
        ),
        paste_next(StageView::WaylandXdotool, OutcomeView::SpawnFailed(e)) == (
            StageView::Finished(Err("All paste methods failed. Last error (xdotool): "@ + e)),
            ActionView {
                pause_ms: 0,
                step: StepView::Finish(Err("All paste methods failed. Last error (xdotool): "@ + e)),
            },
        ),
        paste_next(StageView::WaylandXdotool, OutcomeView::Exited { success: false, status })
            == (
            StageView::Finished(
                Err("All paste methods failed (ydotool, wtype, xdotool). xdotool exited with "@ + status),
            ),
            ActionView {
                pause_ms: 0,
                step: StepView::Finish(
                    Err("All paste methods failed (ydotool, wtype, xdotool). xdotool exited with "@
                        + status),
                ),
            },
        ),
{
}

/// The captured target is built from the whole report, decoded and trimmed:
/// on Wayland `kwin:` followed by all of it (the marker `wayland` when it is
/// empty or missing), on X11 all of it (nothing when it is empty or missing).
pub proof fn frontmost_target_keeps_the_whole_id(wayland_session: bool, out: Seq<u8>)
    ensures
        trimmed(utf8_lossy(out)).len() > 0 ==> frontmost_target(true, Some(out)) == Some(
            "kwin:"@ + trimmed(utf8_lossy(out)),
        ),
        trimmed(utf8_lossy(out)).len() > 0 ==> frontmost_target(false, Some(out)) == Some(
            trimmed(utf8_lossy(out)),
        ),
        trimmed(utf8_lossy(out)).len() == 0 ==> frontmost_target(true, Some(out)) == Some(
            "wayland"@,
        ),
        trimmed(utf8_lossy(out)).len() == 0 ==> frontmost_target(false, Some(out)) is None,
        frontmost_target(true, None) == Some("wayland"@),
        frontmost_target(false, None) is None,
{
}

/// The programs a paste runs, with their arguments and the pauses before
/// them: Ctrl+V is typed by `ydotool key -d 25 29:1 47:1 47:0 29:0`,
/// `wtype -M ctrl -k v -m ctrl` or `xdotool key --clearmodifiers ctrl+v`; a
/// KWin window is raised by `kdotool windowactivate <id>` (then 150 ms), an
/// X11 window by `xdotool windowactivate --sync <id>` (then 100 ms); the
/// focus-blind chain starts after 100 ms; the active window is reported by
/// `kdotool getactivewindow` on Wayland and `xdotool getactivewindow` on X11.
pub proof fn paste_runs_the_documented_commands(target: Seq<char>, o: OutcomeView)
    ensures
        ({
            let ydotool = CommandView {
                program: "ydotool"@,
                args: seq!["key"@, "-d"@, "25"@, "29:1"@, "47:1"@, "47:0"@, "29:0"@],
            };
            let wtype = CommandView {
                program: "wtype"@,
                args: seq!["-M"@, "ctrl"@, "-k"@, "v"@, "-m"@, "ctrl"@],
            };
            let xdotool_key = CommandView {
                program: "xdotool"@,
                args: seq!["key"@, "--clearmodifiers"@, "ctrl+v"@],
            };
            &&& paste_start("wayland"@).1 == (ActionView { pause_ms: 100, step: StepView::Run(ydotool) })
            &&& target.len() >= 5 && target.subrange(0, 5) == "kwin:"@ ==> paste_start(target).1
                == (ActionView {
                pause_ms: 0,
                step: StepView::Run(
                    CommandView { program: "kdotool"@, args: seq!["windowactivate"@, target.skip(5)] },
                ),
            })
            &&& target != "wayland"@ && !(target.len() >= 5 && target.subrange(0, 5) == "kwin:"@)
                && is_ascii_digit_seq(target) ==> paste_start(target).1 == (ActionView {
                pause_ms: 0,
                step: StepView::Run(
                    CommandView {
                        program: "xdotool"@,
                        args: seq!["windowactivate"@, "--sync"@, target],
                    },
                ),
            })
            &&& target != "wayland"@ && !(target.len() >= 5 && target.subrange(0, 5) == "kwin:"@)
                && !is_ascii_digit_seq(target) ==> paste_start(target).1 == (ActionView {
                pause_ms: 0,
                step: StepView::Finish(Err("Invalid window ID '"@ + target + "': expected digits only"@)),
            })
            &&& paste_next(StageView::KwinActivating, o).1 == (ActionView {
                pause_ms: 150,
                step: StepView::Run(ydotool),
            })
            &&& o is Exited ==> paste_next(StageView::X11Activating, o).1 == (ActionView {
                pause_ms: 100,
                step: StepView::Run(xdotool_key),
            })
            &&& !(o matches OutcomeView::Exited { success, .. } && success) ==> paste_next(
                StageView::WaylandYdotool,
                o,
            ).1 == (ActionView { pause_ms: 0, step: StepView::Run(wtype) })
            &&& !(o matches OutcomeView::Exited { success, .. } && success) ==> paste_next(
                StageView::WaylandWtype,
                o,
            ).1 == (ActionView { pause_ms: 0, step: StepView::Run(xdotool_key) })
            &&& active_window_probe(true) == (CommandView {
                program: "kdotool"@,
                args: seq!["getactivewindow"@],
            })
            &&& active_window_probe(false) == (CommandView {
                program: "xdotool"@,
                args: seq!["getactivewindow"@],
            })
        }),
{
    reveal_strlit("kwin:");
    reveal_strlit("wayland");
    if target.len() >= 5 && target.subrange(0, 5) == "kwin:"@ {
        assert("kwin:"@.is_prefix_of(target));
        assert(target[0] == target.subrange(0, 5)[0]);
        assert(target[0] != "wayland"@[0]);
    }
    if !(target.len() >= 5 && target.subrange(0, 5) == "kwin:"@) {
        assert(!"kwin:"@.is_prefix_of(target));
    }
}

} // verus!
