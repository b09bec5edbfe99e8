//! The terminal session as a scoped resource: the mode bits the session
//! manager toggles, the exact setup and teardown command sequences, and what
//! each command does to the mode.

use vstd::prelude::*;

verus! {

/// The terminal's interactive-mode bits that the session manager owns.
#[derive(Clone, Copy, Debug, PartialEq, Eq, Structural)]
pub struct TermMode {
    pub alternate_screen: bool,
    pub cursor_hidden: bool,
    pub mouse_capture: bool,
    pub raw_mode: bool,
}

/// One terminal control command the session manager or the render pass
/// issues. Clearing and flushing move bytes, not mode bits.
#[derive(Clone, Copy, Debug, PartialEq, Eq, Structural)]
pub enum TermCmd {
    EnterAlternateScreen,
    LeaveAlternateScreen,
    HideCursor,
    ShowCursor,
    ClearAll,
    EnableMouseCapture,
    DisableMouseCapture,
    EnableRawMode,
    DisableRawMode,
    Flush,
}

/// The ordinary mode a terminal starts in: main screen, visible cursor, no
/// mouse capture, cooked input.
pub open spec fn spec_normal_mode() -> TermMode {
    TermMode { alternate_screen: false, cursor_hidden: false, mouse_capture: false, raw_mode: false }
}

/// What one command does to the mode bits.
pub open spec fn spec_apply_cmd(m: TermMode, c: TermCmd) -> TermMode {
    match c {
        TermCmd::EnterAlternateScreen => TermMode { alternate_screen: true, ..m },
        TermCmd::LeaveAlternateScreen => TermMode { alternate_screen: false, ..m },
        TermCmd::HideCursor => TermMode { cursor_hidden: true, ..m },
        TermCmd::ShowCursor => TermMode { cursor_hidden: false, ..m },
        TermCmd::EnableMouseCapture => TermMode { mouse_capture: true, ..m },
        TermCmd::DisableMouseCapture => TermMode { mouse_capture: false, ..m },
        TermCmd::EnableRawMode => TermMode { raw_mode: true, ..m },
        TermCmd::DisableRawMode => TermMode { raw_mode: false, ..m },
        TermCmd::ClearAll => m,
        TermCmd::Flush => m,
    }
}

/// The mode after a whole command sequence, applied in order.
pub open spec fn spec_apply_cmds(m: TermMode, cs: Seq<TermCmd>) -> TermMode
    decreases cs.len(),
{
    if cs.len() == 0 {
        m
    } else {
        spec_apply_cmds(spec_apply_cmd(m, cs[0]), cs.skip(1))
    }
}

/// Applies one command to a mode value.
pub fn apply_cmd(m: TermMode, c: TermCmd) -> (r: TermMode)
    ensures
        r == spec_apply_cmd(m, c),
{
    match c {
        TermCmd::EnterAlternateScreen => TermMode { alternate_screen: true, ..m },
        TermCmd::LeaveAlternateScreen => TermMode { alternate_screen: false, ..m },
        TermCmd::HideCursor => TermMode { cursor_hidden: true, ..m },
        TermCmd::ShowCursor => TermMode { cursor_hidden: false, ..m },
        TermCmd::EnableMouseCapture => TermMode { mouse_capture: true, ..m },
        TermCmd::DisableMouseCapture => TermMode { mouse_capture: false, ..m },
        TermCmd::EnableRawMode => TermMode { raw_mode: true, ..m },
        TermCmd::DisableRawMode => TermMode { raw_mode: false, ..m },
        TermCmd::ClearAll => m,
        TermCmd::Flush => m,
    }
}

/// Applies a whole command sequence in order.
pub fn apply_cmds(m: TermMode, cs: &Vec<TermCmd>) -> (r: TermMode)
    ensures
        r == spec_apply_cmds(m, cs@),
{
    let mut cur = m;
    let mut i: usize = 0;
    proof {
        assert(cs@.skip(0) =~= cs@);
    }
    while i < cs.len()
        invariant
            i <= cs@.len(),
            spec_apply_cmds(m, cs@) == spec_apply_cmds(cur, cs@.skip(i as int)),
        decreases cs@.len() - i,
    {
        proof {
            assert(cs@.skip(i as int)[0] == cs@[i as int]);
            assert(cs@.skip(i as int).skip(1) =~= cs@.skip(i as int + 1));
        }
        cur = apply_cmd(cur, cs[i]);
        i = i + 1;
    }
    proof {
        assert(cs@.skip(cs@.len() as int) =~= Seq::<TermCmd>::empty());
    }
    cur
}

/// The setup sequence, issued once before the loop starts: enter the
/// alternate screen, hide the cursor, clear everything, capture the mouse,
/// enter raw mode, then flush.
pub open spec fn spec_setup_cmds() -> Seq<TermCmd> {
    seq![
        TermCmd::EnterAlternateScreen,
        TermCmd::HideCursor,
        TermCmd::ClearAll,
        TermCmd::EnableMouseCapture,
        TermCmd::EnableRawMode,
        TermCmd::Flush,
    ]
}

/// The teardown sequence, issued once after the loop exits: show the cursor,
/// leave the alternate screen, leave raw mode, release the mouse, then
/// flush. It is the logical inverse of setup.
pub open spec fn spec_teardown_cmds() -> Seq<TermCmd> {
    seq![
        TermCmd::ShowCursor,
        TermCmd::LeaveAlternateScreen,
        TermCmd::DisableRawMode,
        TermCmd::DisableMouseCapture,
        TermCmd::Flush,
    ]
}

/// The commands that acquire the terminal's interactive mode.
pub fn setup_commands() -> (cs: Vec<TermCmd>)
    ensures
        cs@ == spec_setup_cmds(),
{
    let mut cs: Vec<TermCmd> = Vec::new();
    cs.push(TermCmd::EnterAlternateScreen);
    cs.push(TermCmd::HideCursor);
    cs.push(TermCmd::ClearAll);
    cs.push(TermCmd::EnableMouseCapture);
    cs.push(TermCmd::EnableRawMode);
    cs.push(TermCmd::Flush);
    proof {
        assert(cs@ =~= spec_setup_cmds());
    }
    cs
}

/// The commands that release the terminal's interactive mode.
pub fn teardown_commands() -> (cs: Vec<TermCmd>)
    ensures
        cs@ == spec_teardown_cmds(),
{
    let mut cs: Vec<TermCmd> = Vec::new();
    cs.push(TermCmd::ShowCursor);
    cs.push(TermCmd::LeaveAlternateScreen);
    cs.push(TermCmd::DisableRawMode);
    cs.push(TermCmd::DisableMouseCapture);
    cs.push(TermCmd::Flush);
    proof {
        assert(cs@ =~= spec_teardown_cmds());
    }
    cs
}

/// Hiding the cursor is idempotent: hiding it twice in a row, before any
/// show, leaves the terminal exactly as hiding it once does.
pub proof fn lemma_hide_cursor_idempotent(m: TermMode)
    ensures
        spec_apply_cmd(spec_apply_cmd(m, TermCmd::HideCursor), TermCmd::HideCursor)
            == spec_apply_cmd(m, TermCmd::HideCursor),
{
}

/// Teardown undoes setup: from any starting mode, running the setup sequence
/// and then the teardown sequence leaves the terminal in its ordinary mode.
pub proof fn lemma_teardown_restores(m: TermMode)
    ensures
        spec_apply_cmds(spec_apply_cmds(m, spec_setup_cmds()), spec_teardown_cmds())
            == spec_normal_mode(),
{
    let s = spec_setup_cmds();
    let t = spec_teardown_cmds();
    let m1 = spec_apply_cmd(m, TermCmd::EnterAlternateScreen);
    let m2 = spec_apply_cmd(m1, TermCmd::HideCursor);
    let m3 = spec_apply_cmd(m2, TermCmd::ClearAll);
    let m4 = spec_apply_cmd(m3, TermCmd::EnableMouseCapture);
    let m5 = spec_apply_cmd(m4, TermCmd::EnableRawMode);
    let m6 = spec_apply_cmd(m5, TermCmd::Flush);
    let s1 = s.skip(1);
    let s2 = s1.skip(1);
    let s3 = s2.skip(1);
    let s4 = s3.skip(1);
    let s5 = s4.skip(1);
    let s6 = s5.skip(1);
    assert(s1 =~= seq![
        TermCmd::HideCursor,
        TermCmd::ClearAll,
        TermCmd::EnableMouseCapture,
        TermCmd::EnableRawMode,
        TermCmd::Flush,
    ]);
    assert(s2 =~= seq![
        TermCmd::ClearAll,
        TermCmd::EnableMouseCapture,
        TermCmd::EnableRawMode,
        TermCmd::Flush,
    ]);
    assert(s3 =~= seq![TermCmd::EnableMouseCapture, TermCmd::EnableRawMode, TermCmd::Flush]);
    assert(s4 =~= seq![TermCmd::EnableRawMode, TermCmd::Flush]);
    assert(s5 =~= seq![TermCmd::Flush]);
    assert(s6 =~= Seq::<TermCmd>::empty());
    assert(spec_apply_cmds(m, s) == spec_apply_cmds(m1, s1));
    assert(spec_apply_cmds(m1, s1) == spec_apply_cmds(m2, s2));
    assert(spec_apply_cmds(m2, s2) == spec_apply_cmds(m3, s3));
    assert(spec_apply_cmds(m3, s3) == spec_apply_cmds(m4, s4));
    assert(spec_apply_cmds(m4, s4) == spec_apply_cmds(m5, s5));
    assert(spec_apply_cmds(m5, s5) == spec_apply_cmds(m6, s6));
    assert(spec_apply_cmds(m6, s6) == m6);
    let n1 = spec_apply_cmd(m6, TermCmd::ShowCursor);
    let n2 = spec_apply_cmd(n1, TermCmd::LeaveAlternateScreen);
    let n3 = spec_apply_cmd(n2, TermCmd::DisableRawMode);
    let n4 = spec_apply_cmd(n3, TermCmd::DisableMouseCapture);
    let n5 = spec_apply_cmd(n4, TermCmd::Flush);
    let t1 = t.skip(1);
    let t2 = t1.skip(1);
    let t3 = t2.skip(1);
    let t4 = t3.skip(1);
    let t5 = t4.skip(1);
    assert(t1 =~= seq![
        TermCmd::LeaveAlternateScreen,
        TermCmd::DisableRawMode,
        TermCmd::DisableMouseCapture,
        TermCmd::Flush,
    ]);
    assert(t2 =~= seq![TermCmd::DisableRawMode, TermCmd::DisableMouseCapture, TermCmd::Flush]);
    assert(t3 =~= seq![TermCmd::DisableMouseCapture, TermCmd::Flush]);
    assert(t4 =~= seq![TermCmd::Flush]);
    assert(t5 =~= Seq::<TermCmd>::empty());
    assert(spec_apply_cmds(m6, t) == spec_apply_cmds(n1, t1));
    assert(spec_apply_cmds(n1, t1) == spec_apply_cmds(n2, t2));
    assert(spec_apply_cmds(n2, t2) == spec_apply_cmds(n3, t3));
    assert(spec_apply_cmds(n3, t3) == spec_apply_cmds(n4, t4));
    assert(spec_apply_cmds(n4, t4) == spec_apply_cmds(n5, t5));
    assert(spec_apply_cmds(n5, t5) == n5);
}

} // verus!
