//! Raw terminal mode: which local-mode bits to clear, and a guard that hands out
//! the captured settings for restoration exactly once.

use vstd::prelude::*;

verus! {

/// Relies on `termios::ICANON`, the canonical-input bit of `c_lflag`: `0o000002`
/// in the crate's tables for Linux, Android, illumos and Solaris, `0x00000100`
/// in those for macOS and the BSDs.
#[verifier::external_body]
fn canonical_flag() -> (r: termios::tcflag_t)
    ensures
        r == 0o2 || r == 0x100,
{
    termios::ICANON
}

/// Relies on `termios::ECHO`, the local-echo bit of `c_lflag`: `0o000010`
/// (that is `0x8`) in the crate's tables for every platform.
#[verifier::external_body]
fn echo_flag() -> (r: termios::tcflag_t)
    ensures
        r == 0o10,
{
    termios::ECHO
}

/// `lflag` with canonical input and echo turned off, for a canonical-input bit
/// of `canonical`; every other bit is kept.
pub open spec fn raw_of(lflag: termios::tcflag_t, canonical: termios::tcflag_t) -> termios::tcflag_t {
    lflag & !(canonical | 0o10)
}

/// The local modes of raw mode: `lflag` with canonical input and echo cleared.
pub fn raw_local_flags(lflag: termios::tcflag_t) -> (r: termios::tcflag_t)
    ensures
        r == raw_of(lflag, 0o2) || r == raw_of(lflag, 0x100),
{
    lflag & !(canonical_flag() | echo_flag())
}

/// The terminal's local modes after a restoration step: `Some(f)` applies `f`,
/// `None` leaves the terminal as it is.
pub open spec fn applied(current: termios::tcflag_t, action: Option<termios::tcflag_t>) -> termios::tcflag_t {
    match action {
        Some(f) => f,
        None => current,
    }
}

/// The settings captured when raw mode was entered, and whether they are still
/// owed to the terminal.
pub struct TerminalGuard {
    pub original: termios::tcflag_t,
    pub raw: termios::tcflag_t,
    pub pending: bool,
}

/// What `restore` does: the first call hands out the original settings, every
/// later one hands out nothing.
pub open spec fn restore_step(g: TerminalGuard) -> (TerminalGuard, Option<termios::tcflag_t>) {
    if g.pending {
        (TerminalGuard { pending: false, ..g }, Some(g.original))
    } else {
        (g, None)
    }
}

impl TerminalGuard {
    /// Captures `current` and computes the raw-mode flags to apply.
    pub fn enable(current: termios::tcflag_t) -> (r: TerminalGuard)
        ensures
            r.original == current,
            r.raw == raw_of(current, 0o2) || r.raw == raw_of(current, 0x100),
            r.pending,
    {
        TerminalGuard { original: current, raw: raw_local_flags(current), pending: true }
    }

    /// The settings to put back, the first time only; later calls return `None`.
    pub fn restore(&mut self) -> (r: Option<termios::tcflag_t>)
        ensures
            (*final(self), r) == restore_step(*old(self)),
    {
        if self.pending {
            self.pending = false;
            Some(self.original)
        } else {
            None
        }
    }
}

/// Restoring twice leaves the terminal as restoring once does, whether the guard
/// is asked twice or the captured settings are applied twice.
pub proof fn lemma_restore_idempotent(g: TerminalGuard, t: termios::tcflag_t)
    ensures
        ({
            let (g1, a1) = restore_step(g);
            let (g2, a2) = restore_step(g1);
            applied(applied(t, a1), a2) == applied(t, a1)
        }),
        applied(applied(t, Some(g.original)), Some(g.original)) == applied(t, Some(g.original)),
        g.pending ==> applied(t, restore_step(g).1) == g.original,
{
}

} // verus!
