use paste_output::clipboard::{
    clipboard_backend, copy_to_clipboard, is_wayland_session, wl_copy_result, wl_paste_text,
    ClipboardBackend, CommandOutput, CopyAction, CopyStep, WlCopyProgress,
};

fn act(pause_ms: u64, step: CopyStep) -> CopyAction {
    CopyAction { pause_ms, step }
}

#[test]
fn wayland_detection() {
    assert!(is_wayland_session(true, None));
    assert!(is_wayland_session(false, Some("wayland".to_string())));
    assert!(!is_wayland_session(false, Some("x11".to_string())));
    assert!(!is_wayland_session(false, Some("Wayland".to_string())));
    assert!(!is_wayland_session(false, None));
}

#[test]
fn backend_choice() {
    assert_eq!(clipboard_backend(true), ClipboardBackend::WlClipboard);
    assert_eq!(clipboard_backend(false), ClipboardBackend::Library);
}

#[test]
fn copy_gives_up_after_three_attempts_with_last_error() {
    let (mut s, a) = copy_to_clipboard(false);
    assert_eq!(a, act(0, CopyStep::SetText));
    assert_eq!(s.advance(Err("locked by another app".to_string())), act(50, CopyStep::SetText));
    assert_eq!(s.advance(Err("still locked".to_string())), act(50, CopyStep::SetText));
    assert_eq!(
        s.advance(Err("clipboard busy".to_string())),
        act(0, CopyStep::Finish(Err("Clipboard failed after 3 attempts: clipboard busy".to_string())))
    );
}

#[test]
fn copy_succeeds_on_second_attempt() {
    let (mut s, _) = copy_to_clipboard(false);
    assert_eq!(s.advance(Err("locked".to_string())), act(50, CopyStep::SetText));
    assert_eq!(s.advance(Ok(())), act(0, CopyStep::Finish(Ok(()))));
    assert_eq!(s.advance(Err("late".to_string())), act(0, CopyStep::Finish(Ok(()))));
}

#[test]
fn copy_on_wayland_uses_wl_copy_once() {
    let (mut s, a) = copy_to_clipboard(true);
    assert_eq!(a, act(0, CopyStep::RunWlCopy));
    assert_eq!(
        s.advance(Err("wl-copy exited with exit status: 1".to_string())),
        act(0, CopyStep::Finish(Err("wl-copy exited with exit status: 1".to_string())))
    );
}

#[test]
fn wl_copy_results() {
    assert_eq!(
        wl_copy_result(&WlCopyProgress::SpawnFailed("not found".to_string())),
        Err("Failed to run wl-copy: not found".to_string())
    );
    assert_eq!(
        wl_copy_result(&WlCopyProgress::StdinUnavailable),
        Err("wl-copy stdin unavailable".to_string())
    );
    assert_eq!(
        wl_copy_result(&WlCopyProgress::WriteFailed("broken pipe".to_string())),
        Err("Failed to write to wl-copy: broken pipe".to_string())
    );
    assert_eq!(
        wl_copy_result(&WlCopyProgress::WaitFailed("interrupted".to_string())),
        Err("wl-copy did not complete: interrupted".to_string())
    );
    assert_eq!(
        wl_copy_result(&WlCopyProgress::Exited { success: false, status: "exit status: 1".to_string() }),
        Err("wl-copy exited with exit status: 1".to_string())
    );
    assert_eq!(
        wl_copy_result(&WlCopyProgress::Exited { success: true, status: "exit status: 0".to_string() }),
        Ok(())
    );
}

#[test]
fn wl_paste_output() {
    let ok = CommandOutput { success: true, stdout: "héllo".as_bytes().to_vec() };
    assert_eq!(wl_paste_text(Some(ok)), Some("héllo".to_string()));
    let empty = CommandOutput { success: false, stdout: Vec::new() };
    assert_eq!(wl_paste_text(Some(empty)), None);
    assert_eq!(wl_paste_text(None), None);
    let bad = CommandOutput { success: true, stdout: vec![0x61, 0xc3] };
    assert_eq!(wl_paste_text(Some(bad)), Some("a\u{FFFD}".to_string()));
}
