use vstd::prelude::*;

use crate::error::Error;

verus! {

/// Terminal mode token. ToyOS has no termios, so the token carries no data:
/// it only proves that raw mode was entered before it can be restored.
#[derive(Clone, Copy)]
pub struct TermMode;

/// Switch standard input to raw (byte-at-a-time, no-echo) mode and hand back
/// the token that restores it. ToyOS already delivers unprocessed input, so
/// this is a no-op that always succeeds.
pub fn enable_raw_mode() -> (r: Result<TermMode, Error>)
    ensures
        r is Ok,
{
    Ok(TermMode)
}

/// Restore the terminal mode recorded in the token. ToyOS has no distinct
/// terminal modes, so this is a no-op that always succeeds.
pub fn set_term_mode(_term: &TermMode) -> (r: Result<(), Error>)
    ensures
        r is Ok,
{
    Ok(())
}

/// Register a handler for window-resize signals. ToyOS does not support
/// signals, so this is a no-op that always succeeds.
pub fn register_winsize_change_signal_handler() -> (r: Result<(), Error>)
    ensures
        r is Ok,
{
    Ok(())
}

/// Poll whether the window size has changed since the last query. ToyOS does
/// not support window-resize signals, so the answer is always false.
pub fn has_window_size_changed() -> (r: bool)
    ensures
        r == false,
{
    false
}

} // verus!
