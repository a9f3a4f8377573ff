use paste_output::paste::{
    focus_target_from_report, frontmost_probe, get_frontmost_target, paste_into_target, CommandOutcome, PasteAction,
    PasteStep, ShellCommand,
};

fn cmd(program: &str, args: &[&str]) -> ShellCommand {
    ShellCommand {
        program: program.to_string(),
        args: args.iter().map(|a| a.to_string()).collect(),
    }
}

fn run(pause_ms: u64, program: &str, args: &[&str]) -> PasteAction {
    PasteAction { pause_ms, step: PasteStep::Run(cmd(program, args)) }
}

fn done(pause_ms: u64, r: Result<(), &str>) -> PasteAction {
    PasteAction { pause_ms, step: PasteStep::Finish(r.map_err(|e| e.to_string())) }
}

fn exited(success: bool, status: &str) -> CommandOutcome {
    CommandOutcome::Exited { success, status: status.to_string() }
}

fn spawn_failed(e: &str) -> CommandOutcome {
    CommandOutcome::SpawnFailed(e.to_string())
}

const YDOTOOL: &[&str] = &["key", "-d", "25", "29:1", "47:1", "47:0", "29:0"];
const XDOTOOL_KEY: &[&str] = &["key", "--clearmodifiers", "ctrl+v"];
const WTYPE: &[&str] = &["-M", "ctrl", "-k", "v", "-m", "ctrl"];

#[test]
fn wayland_marker_starts_with_ydotool_after_a_pause() {
    let (_, a) = paste_into_target("wayland".to_string());
    assert_eq!(a, run(100, "ydotool", YDOTOOL));
}

#[test]
fn kwin_target_raises_window_then_sends_ctrl_v() {
    let (mut s, a) = paste_into_target("kwin:{9b1f3c2e}".to_string());
    assert_eq!(a, run(0, "kdotool", &["windowactivate", "{9b1f3c2e}"]));
    let a = s.advance(&exited(false, "exit status: 1"));
    assert_eq!(a, run(150, "ydotool", YDOTOOL));
    let a = s.advance(&exited(true, "exit status: 0"));
    assert_eq!(a, done(50, Ok(())));
}

#[test]
fn kwin_activation_failure_is_ignored() {
    let (mut s, _) = paste_into_target("kwin:7".to_string());
    let a = s.advance(&spawn_failed("No such file or directory (os error 2)"));
    assert_eq!(a, run(150, "ydotool", YDOTOOL));
}

#[test]
fn kwin_ydotool_spawn_failure_is_reported() {
    let (mut s, _) = paste_into_target("kwin:7".to_string());
    s.advance(&exited(true, "exit status: 0"));
    let a = s.advance(&spawn_failed("No such file or directory (os error 2)"));
    assert_eq!(
        a,
        done(0, Err("Failed to run ydotool (is ydotoold running?): No such file or directory (os error 2)"))
    );
}

#[test]
fn kwin_ydotool_exit_failure_is_reported() {
    let (mut s, _) = paste_into_target("kwin:7".to_string());
    s.advance(&exited(true, "exit status: 0"));
    let a = s.advance(&exited(false, "exit status: 1"));
    assert_eq!(
        a,
        done(
            0,
            Err("ydotool key ctrl+v failed with exit status: 1 \u{2014} is ydotoold running? (`systemctl --user enable --now ydotoold`)")
        )
    );
}

#[test]
fn x11_id_raises_window_then_sends_ctrl_v() {
    let (mut s, a) = paste_into_target("4194311".to_string());
    assert_eq!(a, run(0, "xdotool", &["windowactivate", "--sync", "4194311"]));
    let a = s.advance(&exited(false, "exit status: 1"));
    assert_eq!(a, run(100, "xdotool", XDOTOOL_KEY));
    let a = s.advance(&exited(true, "exit status: 0"));
    assert_eq!(a, done(50, Ok(())));
}

#[test]
fn x11_id_with_non_digits_is_refused() {
    let (mut s, a) = paste_into_target("12; rm -rf ~".to_string());
    assert_eq!(a, done(0, Err("Invalid window ID '12; rm -rf ~': expected digits only")));
    let a = s.advance(&exited(true, "exit status: 0"));
    assert_eq!(a, done(0, Err("Invalid window ID '12; rm -rf ~': expected digits only")));
}

#[test]
fn empty_x11_id_passes_the_digit_check() {
    let (_, a) = paste_into_target(String::new());
    assert_eq!(a, run(0, "xdotool", &["windowactivate", "--sync", ""]));
}

#[test]
fn x11_activation_spawn_failure_is_reported() {
    let (mut s, _) = paste_into_target("42".to_string());
    let a = s.advance(&spawn_failed("permission denied"));
    assert_eq!(a, done(0, Err("Failed to run xdotool windowactivate: permission denied")));
}

#[test]
fn x11_key_failures_are_reported() {
    let (mut s, _) = paste_into_target("42".to_string());
    s.advance(&exited(true, "exit status: 0"));
    let a = s.advance(&exited(false, "exit status: 1"));
    assert_eq!(a, done(0, Err("xdotool key ctrl+v failed with exit status: 1")));

    let (mut s, _) = paste_into_target("42".to_string());
    s.advance(&exited(true, "exit status: 0"));
    let a = s.advance(&spawn_failed("gone"));
    assert_eq!(a, done(0, Err("Failed to run xdotool key: gone")));
}

#[test]
fn wayland_chain_stops_at_wtype() {
    let (mut s, _) = paste_into_target("wayland".to_string());
    let a = s.advance(&exited(false, "exit status: 1"));
    assert_eq!(a, run(0, "wtype", WTYPE));
    let a = s.advance(&exited(true, "exit status: 0"));
    assert_eq!(a, done(50, Ok(())));
}

#[test]
fn wayland_chain_first_success_wins() {
    let (mut s, _) = paste_into_target("wayland".to_string());
    let a = s.advance(&exited(true, "exit status: 0"));
    assert_eq!(a, done(50, Ok(())));
}

#[test]
fn wayland_chain_falls_through_to_xdotool() {
    let (mut s, _) = paste_into_target("wayland".to_string());
    s.advance(&spawn_failed("missing"));
    let a = s.advance(&spawn_failed("missing"));
    assert_eq!(a, run(0, "xdotool", XDOTOOL_KEY));
    let a = s.advance(&exited(true, "exit status: 0"));
    assert_eq!(a, done(50, Ok(())));
}

#[test]
fn wayland_chain_reports_when_all_fail() {
    let (mut s, _) = paste_into_target("wayland".to_string());
    s.advance(&exited(false, "exit status: 1"));
    s.advance(&exited(false, "exit status: 1"));
    let a = s.advance(&spawn_failed("not found"));
    assert_eq!(a, done(0, Err("All paste methods failed. Last error (xdotool): not found")));

    let (mut s, _) = paste_into_target("wayland".to_string());
    s.advance(&exited(false, "exit status: 1"));
    s.advance(&exited(false, "exit status: 1"));
    let a = s.advance(&exited(false, "exit status: 2"));
    assert_eq!(
        a,
        done(0, Err("All paste methods failed (ydotool, wtype, xdotool). xdotool exited with exit status: 2"))
    );
}

#[test]
fn finished_session_repeats_its_result() {
    let (mut s, _) = paste_into_target("wayland".to_string());
    s.advance(&exited(true, "exit status: 0"));
    let a = s.advance(&exited(false, "exit status: 9"));
    assert_eq!(a, done(0, Ok(())));
}

#[test]
fn probe_commands() {
    assert_eq!(frontmost_probe(true), cmd("kdotool", &["getactivewindow"]));
    assert_eq!(frontmost_probe(false), cmd("xdotool", &["getactivewindow"]));
}

#[test]
fn frontmost_on_kwin_is_prefixed_and_trimmed() {
    let t = get_frontmost_target(true, Some(b"  {0f3e-11aa}\n".to_vec()));
    assert_eq!(t, Some("kwin:{0f3e-11aa}".to_string()));
}

#[test]
fn frontmost_on_wayland_without_id_is_the_marker() {
    assert_eq!(get_frontmost_target(true, None), Some("wayland".to_string()));
    assert_eq!(get_frontmost_target(true, Some(b" \n\t".to_vec())), Some("wayland".to_string()));
}

#[test]
fn frontmost_on_x11() {
    assert_eq!(get_frontmost_target(false, Some(b"4194311\n".to_vec())), Some("4194311".to_string()));
    assert_eq!(get_frontmost_target(false, Some(b"\n".to_vec())), None);
    assert_eq!(get_frontmost_target(false, None), None);
}

#[test]
fn frontmost_decodes_invalid_utf8_lossily() {
    let t = get_frontmost_target(false, Some(vec![0x31, 0xff, 0x32]));
    assert_eq!(t, Some("1\u{FFFD}2".to_string()));
}

#[test]
fn captured_targets_route_back_to_their_window() {
    let t = get_frontmost_target(true, Some(b"{abc}\n".to_vec())).unwrap();
    let (_, a) = paste_into_target(t);
    assert_eq!(a, run(0, "kdotool", &["windowactivate", "{abc}"]));

    let t = get_frontmost_target(true, None).unwrap();
    let (_, a) = paste_into_target(t);
    assert_eq!(a, run(100, "ydotool", YDOTOOL));

    let t = get_frontmost_target(false, Some(b"88\n".to_vec())).unwrap();
    let (_, a) = paste_into_target(t);
    assert_eq!(a, run(0, "xdotool", &["windowactivate", "--sync", "88"]));
}

#[test]
fn focus_target_from_decoded_reports() {
    assert_eq!(focus_target_from_report(true, Some(" 12 \n")), Some("kwin:12".to_string()));
    assert_eq!(focus_target_from_report(true, Some("")), Some("wayland".to_string()));
    assert_eq!(focus_target_from_report(false, Some("\u{3000}77\u{85}")), Some("77".to_string()));
    assert_eq!(focus_target_from_report(false, None), None);
}

#[test]
fn frontmost_decodes_multibyte_output() {
    let t = get_frontmost_target(false, Some("\u{20ac}1\n".as_bytes().to_vec()));
    assert_eq!(t, Some("\u{20ac}1".to_string()));
}
