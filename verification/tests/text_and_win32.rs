use paste_output::win32::{
    ctrl_v_keystrokes, send_input_result, thread_attach_plan, window_gone_message, KeyStroke,
    ThreadAttachPlan,
};
use paste_output::{is_ascii_digits, trim_whitespace};

#[test]
fn trimming() {
    assert_eq!(trim_whitespace("  42\n"), "42");
    assert_eq!(trim_whitespace("\u{3000}a b\u{85}"), "a b");
    assert_eq!(trim_whitespace(" \t\r\n"), "");
    assert_eq!(trim_whitespace(""), "");
}

#[test]
fn digit_check() {
    assert!(is_ascii_digits("0123456789"));
    assert!(is_ascii_digits(""));
    assert!(!is_ascii_digits("12a"));
    assert!(!is_ascii_digits("\u{0663}"));
}

#[test]
fn attach_plans() {
    assert_eq!(
        thread_attach_plan(10, 20, 30),
        ThreadAttachPlan { attach_foreground: true, attach_target: true }
    );
    assert_eq!(
        thread_attach_plan(10, 20, 20),
        ThreadAttachPlan { attach_foreground: true, attach_target: false }
    );
    assert_eq!(
        thread_attach_plan(10, 10, 10),
        ThreadAttachPlan { attach_foreground: false, attach_target: false }
    );
    assert_eq!(
        thread_attach_plan(10, 0, 0),
        ThreadAttachPlan { attach_foreground: false, attach_target: false }
    );
}

#[test]
fn ctrl_v_events() {
    assert_eq!(
        ctrl_v_keystrokes(),
        vec![
            KeyStroke { virtual_key: 0x11, key_up: false },
            KeyStroke { virtual_key: 0x56, key_up: false },
            KeyStroke { virtual_key: 0x56, key_up: true },
            KeyStroke { virtual_key: 0x11, key_up: true },
        ]
    );
}

#[test]
fn send_input_counts() {
    assert_eq!(send_input_result(4), Ok(()));
    assert_eq!(send_input_result(2), Err("SendInput sent 2 of 4 events".to_string()));
    assert_eq!(send_input_result(0), Err("SendInput sent 0 of 4 events".to_string()));
}

#[test]
fn window_gone() {
    assert_eq!(
        window_gone_message(132456),
        "Target window (HWND 132456) is no longer valid \u{2014} it may have been closed"
    );
    assert_eq!(
        window_gone_message(-7),
        "Target window (HWND -7) is no longer valid \u{2014} it may have been closed"
    );
}
