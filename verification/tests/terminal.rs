use tickloop::term::{
    apply_cmd, apply_cmds, setup_commands, teardown_commands, TermCmd, TermMode,
};

fn normal() -> TermMode {
    TermMode {
        alternate_screen: false,
        cursor_hidden: false,
        mouse_capture: false,
        raw_mode: false,
    }
}

#[test]
fn setup_sequence_is_exact() {
    assert_eq!(
        setup_commands(),
        vec![
            TermCmd::EnterAlternateScreen,
            TermCmd::HideCursor,
            TermCmd::ClearAll,
            TermCmd::EnableMouseCapture,
            TermCmd::EnableRawMode,
            TermCmd::Flush,
        ]
    );
}

#[test]
fn teardown_sequence_is_exact() {
    assert_eq!(
        teardown_commands(),
        vec![
            TermCmd::ShowCursor,
            TermCmd::LeaveAlternateScreen,
            TermCmd::DisableRawMode,
            TermCmd::DisableMouseCapture,
            TermCmd::Flush,
        ]
    );
}

#[test]
fn setup_acquires_the_interactive_mode() {
    let acquired = apply_cmds(normal(), &setup_commands());
    assert!(acquired.alternate_screen);
    assert!(acquired.cursor_hidden);
    assert!(acquired.mouse_capture);
    assert!(acquired.raw_mode);
}

#[test]
fn hiding_the_cursor_twice_equals_hiding_it_once() {
    let once = apply_cmd(normal(), TermCmd::HideCursor);
    let twice = apply_cmd(once, TermCmd::HideCursor);
    assert_eq!(twice, once);
    assert!(twice.cursor_hidden);
}

#[test]
fn teardown_restores_the_ordinary_mode() {
    let acquired = apply_cmds(normal(), &setup_commands());
    let released = apply_cmds(acquired, &teardown_commands());
    assert_eq!(released, normal());
}

#[test]
fn teardown_restores_from_any_mode() {
    let odd = TermMode {
        alternate_screen: true,
        cursor_hidden: false,
        mouse_capture: true,
        raw_mode: false,
    };
    let released = apply_cmds(apply_cmds(odd, &setup_commands()), &teardown_commands());
    assert_eq!(released, normal());
}

#[test]
fn clear_and_flush_leave_the_mode_bits_alone() {
    let m = apply_cmds(normal(), &setup_commands());
    assert_eq!(apply_cmd(m, TermCmd::ClearAll), m);
    assert_eq!(apply_cmd(m, TermCmd::Flush), m);
}
