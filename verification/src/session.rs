//! The terminal session's plan: which terminal operations setup
//! performs, and which teardown performs.
//!
//! The driving binary executes each [`TerminalOp`] against the real
//! terminal; the library fixes the two sequences and proves that
//! teardown is exactly setup undone: the inverse of each operation,
//! in the opposite order, leaving every terminal mode switched off.

use vstd::prelude::*;

verus! {

/// One reversible switch of terminal state. The first four are what
/// setup performs; the last four undo them, one for one.
#[derive(Clone, Copy, Debug, PartialEq, Eq, Structural)]
pub enum TerminalOp {
    EnterAlternateScreen,
    EnableRawMode,
    EnableMouseCapture,
    HideCursor,
    LeaveAlternateScreen,
    DisableRawMode,
    DisableMouseCapture,
    ShowCursor,
}

/// The operation that undoes `op`.
pub open spec fn inverse_op(op: TerminalOp) -> TerminalOp {
    match op {
        TerminalOp::EnterAlternateScreen => TerminalOp::LeaveAlternateScreen,
        TerminalOp::EnableRawMode => TerminalOp::DisableRawMode,
        TerminalOp::EnableMouseCapture => TerminalOp::DisableMouseCapture,
        TerminalOp::HideCursor => TerminalOp::ShowCursor,
        TerminalOp::LeaveAlternateScreen => TerminalOp::EnterAlternateScreen,
        TerminalOp::DisableRawMode => TerminalOp::EnableRawMode,
        TerminalOp::DisableMouseCapture => TerminalOp::EnableMouseCapture,
        TerminalOp::ShowCursor => TerminalOp::HideCursor,
    }
}

/// The operations session setup performs, in order: enter the
/// alternate screen, switch to raw input, capture the mouse, hide
/// the cursor.
pub open spec fn open_ops() -> Seq<TerminalOp> {
    seq![
        TerminalOp::EnterAlternateScreen,
        TerminalOp::EnableRawMode,
        TerminalOp::EnableMouseCapture,
        TerminalOp::HideCursor,
    ]
}

/// The operations session teardown performs, in order: each setup
/// operation undone, last first.
pub open spec fn close_ops() -> Seq<TerminalOp> {
    seq![
        TerminalOp::ShowCursor,
        TerminalOp::DisableMouseCapture,
        TerminalOp::DisableRawMode,
        TerminalOp::LeaveAlternateScreen,
    ]
}

/// The four terminal modes a session switches; the user's shell
/// expects all of them off.
pub struct TerminalModes {
    pub alternate_screen: bool,
    pub raw_mode: bool,
    pub mouse_capture: bool,
    pub cursor_hidden: bool,
}

/// The terminal as an ordinary shell leaves it: no alternate screen,
/// cooked input, no mouse capture, cursor visible.
pub open spec fn shell_modes() -> TerminalModes {
    TerminalModes {
        alternate_screen: false,
        raw_mode: false,
        mouse_capture: false,
        cursor_hidden: false,
    }
}

/// How one operation changes the terminal's modes.
pub open spec fn apply_op(m: TerminalModes, op: TerminalOp) -> TerminalModes {
    TerminalModes {
        alternate_screen: match op {
            TerminalOp::EnterAlternateScreen => true,
            TerminalOp::LeaveAlternateScreen => false,
            _ => m.alternate_screen,
        },
        raw_mode: match op {
            TerminalOp::EnableRawMode => true,
            TerminalOp::DisableRawMode => false,
            _ => m.raw_mode,
        },
        mouse_capture: match op {
            TerminalOp::EnableMouseCapture => true,
            TerminalOp::DisableMouseCapture => false,
            _ => m.mouse_capture,
        },
        cursor_hidden: match op {
            TerminalOp::HideCursor => true,
            TerminalOp::ShowCursor => false,
            _ => m.cursor_hidden,
        },
    }
}

/// How a whole sequence of operations, applied first to last, changes
/// the terminal's modes.
pub open spec fn apply_ops(m: TerminalModes, ops: Seq<TerminalOp>) -> TerminalModes
    decreases ops.len(),
{
    if ops.len() == 0 {
        m
    } else {
        apply_ops(apply_op(m, ops.first()), ops.drop_first())
    }
}

/// The operations session setup performs, for the driving binary to
/// execute in order.
pub fn open_sequence() -> (v: Vec<TerminalOp>)
    ensures
        v@ == open_ops(),
{
    let mut v: Vec<TerminalOp> = Vec::new();
    v.push(TerminalOp::EnterAlternateScreen);
    v.push(TerminalOp::EnableRawMode);
    v.push(TerminalOp::EnableMouseCapture);
    v.push(TerminalOp::HideCursor);
    proof {
        assert(v@ =~= open_ops());
    }
    v
}

/// The operations session teardown performs, for the driving binary
/// to execute in order.
pub fn close_sequence() -> (v: Vec<TerminalOp>)
    ensures
        v@ == close_ops(),
{
    let mut v: Vec<TerminalOp> = Vec::new();
    v.push(TerminalOp::ShowCursor);
    v.push(TerminalOp::DisableMouseCapture);
    v.push(TerminalOp::DisableRawMode);
    v.push(TerminalOp::LeaveAlternateScreen);
    proof {
        assert(v@ =~= close_ops());
    }
    v
}

/// Teardown is exactly setup inverted: it issues the inverse of each
/// setup operation, in the opposite order.
pub proof fn lemma_close_inverts_open()
    ensures
        close_ops() == open_ops().reverse().map_values(|op: TerminalOp| inverse_op(op)),
{
    let mapped = open_ops().reverse().map_values(|op: TerminalOp| inverse_op(op));
    assert(close_ops() =~= mapped);
}

/// Teardown returns the terminal to the shell's modes from any modes
/// whatever — however many frames were drawn in between, and whatever
/// state setup and the run left the terminal in.
pub proof fn lemma_close_restores_shell(m: TerminalModes)
    ensures
        apply_ops(m, close_ops()) == shell_modes(),
{
    reveal_with_fuel(apply_ops, 5);
    let s = close_ops();
    assert(s.drop_first() =~= seq![
        TerminalOp::DisableMouseCapture,
        TerminalOp::DisableRawMode,
        TerminalOp::LeaveAlternateScreen,
    ]);
    assert(s.drop_first().drop_first() =~= seq![
        TerminalOp::DisableRawMode,
        TerminalOp::LeaveAlternateScreen,
    ]);
    assert(s.drop_first().drop_first().drop_first() =~= seq![TerminalOp::LeaveAlternateScreen]);
    assert(s.drop_first().drop_first().drop_first().drop_first() =~= Seq::<TerminalOp>::empty());
}

/// A full session — setup, then teardown — leaves the terminal's
/// modes exactly as an ordinary shell had them.
pub proof fn lemma_session_round_trip()
    ensures
        apply_ops(apply_ops(shell_modes(), open_ops()), close_ops()) == shell_modes(),
{
    lemma_close_restores_shell(apply_ops(shell_modes(), open_ops()));
}

} // verus!
