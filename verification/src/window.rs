//! Model of the single application window: the five attributes the shell
//! sets at startup, the two cursor-mode commands that may change one of
//! them afterwards, and the startup sequence's fail-fast outcome.

use vstd::prelude::*;

verus! {

/// The attributes of the one application window. After startup only
/// `ignore_cursor_events` is ever changed, and only by the two cursor
/// commands.
#[derive(Clone, Copy, PartialEq, Eq, Structural, Debug)]
pub struct WindowState {
    pub always_on_top: bool,
    pub skip_taskbar: bool,
    pub decorations: bool,
    pub transparent: bool,
    pub ignore_cursor_events: bool,
}

/// A cursor-mode command from the front end. `SetInteractive` makes the
/// window receive pointer input; `SetIgnore` makes it click-through.
#[derive(Clone, Copy, PartialEq, Eq, Structural, Debug)]
pub enum CursorCommand {
    SetInteractive,
    SetIgnore,
}

/// The first startup step that failed. Any of these aborts startup; no
/// partially configured window is left running.
#[derive(Clone, Copy, PartialEq, Eq, Structural, Debug)]
pub enum StartupError {
    WindowNotFound,
    SkipTaskbarFailed,
    DecorationsFailed,
    IgnoreCursorFailed,
}

/// The value every attribute holds right after a successful startup:
/// always on top, off the taskbar, undecorated, transparent, and
/// click-through.
pub open spec fn initial_state() -> WindowState {
    WindowState {
        always_on_top: true,
        skip_taskbar: true,
        decorations: false,
        transparent: true,
        ignore_cursor_events: true,
    }
}

/// What one cursor command does to the window: it writes
/// `ignore_cursor_events` and leaves every other attribute alone.
pub open spec fn apply_command(w: WindowState, c: CursorCommand) -> WindowState {
    match c {
        CursorCommand::SetInteractive => WindowState { ignore_cursor_events: false, ..w },
        CursorCommand::SetIgnore => WindowState { ignore_cursor_events: true, ..w },
    }
}

/// The window state after a whole sequence of cursor commands, applied in
/// order.
pub open spec fn apply_commands(w: WindowState, cmds: Seq<CursorCommand>) -> WindowState
    decreases cmds.len(),
{
    if cmds.len() == 0 {
        w
    } else {
        apply_command(apply_commands(w, cmds.drop_last()), cmds.last())
    }
}

impl WindowState {
    /// The state a freshly configured window is in.
    pub fn startup_state() -> (w: WindowState)
        ensures
            w == initial_state(),
    {
        WindowState {
            always_on_top: true,
            skip_taskbar: true,
            decorations: false,
            transparent: true,
            ignore_cursor_events: true,
        }
    }

    /// Outcome of the startup sequence, decided from what the window system
    /// reported: whether the window named "main" was found, then whether each
    /// checked attribute call succeeded, in the order the calls are made.
    /// Errors from the always-on-top and transparency calls are deliberately
    /// ignored, so those calls report no outcome here. Startup succeeds if
    /// and only if every checked step succeeded, and it surfaces the first
    /// failure otherwise.
    pub fn startup(
        window_found: bool,
        skip_taskbar_ok: bool,
        decorations_ok: bool,
        ignore_cursor_ok: bool,
    ) -> (r: Result<WindowState, StartupError>)
        ensures
            r is Ok <==> (window_found && skip_taskbar_ok && decorations_ok && ignore_cursor_ok),
            r is Ok ==> r->Ok_0 == initial_state(),
            !window_found ==> r == Result::<WindowState, StartupError>::Err(
                StartupError::WindowNotFound,
            ),
            window_found && !skip_taskbar_ok ==> r == Result::<WindowState, StartupError>::Err(
                StartupError::SkipTaskbarFailed,
            ),
            window_found && skip_taskbar_ok && !decorations_ok ==> r == Result::<
                WindowState,
                StartupError,
            >::Err(StartupError::DecorationsFailed),
            window_found && skip_taskbar_ok && decorations_ok && !ignore_cursor_ok ==> r
                == Result::<WindowState, StartupError>::Err(StartupError::IgnoreCursorFailed),
    {
        if !window_found {
            return Err(StartupError::WindowNotFound);
        }
        if !skip_taskbar_ok {
            return Err(StartupError::SkipTaskbarFailed);
        }
        if !decorations_ok {
            return Err(StartupError::DecorationsFailed);
        }
        if !ignore_cursor_ok {
            return Err(StartupError::IgnoreCursorFailed);
        }
        Ok(WindowState::startup_state())
    }

    /// Make the window receive pointer input: `ignore_cursor_events`
    /// becomes false, every other attribute is kept.
    pub fn set_interactive(&mut self)
        ensures
            *final(self) == apply_command(*old(self), CursorCommand::SetInteractive),
            !final(self).ignore_cursor_events,
    {
        self.ignore_cursor_events = false;
    }

    /// Make the window click-through: `ignore_cursor_events` becomes true,
    /// every other attribute is kept.
    pub fn set_ignore(&mut self)
        ensures
            *final(self) == apply_command(*old(self), CursorCommand::SetIgnore),
            final(self).ignore_cursor_events,
    {
        self.ignore_cursor_events = true;
    }

    /// Apply one cursor command.
    pub fn apply(&mut self, c: CursorCommand)
        ensures
            *final(self) == apply_command(*old(self), c),
    {
        match c {
            CursorCommand::SetInteractive => self.set_interactive(),
            CursorCommand::SetIgnore => self.set_ignore(),
        }
    }

    /// Apply a whole sequence of cursor commands, in order.
    pub fn apply_all(&mut self, cmds: &Vec<CursorCommand>)
        ensures
            *final(self) == apply_commands(*old(self), cmds@),
    {
        let n = cmds.len();
        let mut i: usize = 0;
        while i < n
            invariant
                i <= n,
                n == cmds@.len(),
                *self == apply_commands(*old(self), cmds@.subrange(0, i as int)),
            decreases n - i,
        {
            assert(cmds@.subrange(0, i + 1).drop_last() =~= cmds@.subrange(0, i as int));
            assert(cmds@.subrange(0, i + 1).last() == cmds@[i as int]);
            self.apply(cmds[i]);
            i += 1;
        }
        assert(cmds@.subrange(0, n as int) =~= cmds@);
    }
}

/// Law: after startup the window is click-through, and the four attributes
/// that are never toggled hold their startup values.
pub proof fn lemma_initial_click_through()
    ensures
        initial_state().ignore_cursor_events,
        initial_state().always_on_top,
        initial_state().skip_taskbar,
        !initial_state().decorations,
        initial_state().transparent,
{
}

/// Law: every cursor command is idempotent: applying the same command
/// twice in a row leaves the window exactly where one application left it.
/// In particular `SetIgnore` twice leaves `ignore_cursor_events` at true
/// and `SetInteractive` twice leaves it at false.
pub proof fn lemma_command_idempotent(w: WindowState, c: CursorCommand)
    ensures
        apply_command(apply_command(w, c), c) == apply_command(w, c),
{
}

/// Law: after any sequence of cursor commands the window is click-through
/// if and only if the last command was `SetIgnore`, or no command was made
/// and the window started click-through.
pub proof fn lemma_last_command_decides(w: WindowState, cmds: Seq<CursorCommand>)
    ensures
        apply_commands(w, cmds).ignore_cursor_events == if cmds.len() == 0 {
            w.ignore_cursor_events
        } else {
            cmds.last() is SetIgnore
        },
{
}

/// Law: from the startup state, the window is click-through after a
/// sequence of cursor commands if and only if the sequence is empty or
/// ends in `SetIgnore`.
pub proof fn lemma_click_through_iff_last_ignore(cmds: Seq<CursorCommand>)
    ensures
        apply_commands(initial_state(), cmds).ignore_cursor_events <==> (cmds.len() == 0
            || cmds.last() is SetIgnore),
{
}

/// Law: cursor commands mutate `ignore_cursor_events` only: the other four
/// attributes survive any sequence of commands unchanged.
pub proof fn lemma_commands_touch_only_cursor(w: WindowState, cmds: Seq<CursorCommand>)
    ensures
        apply_commands(w, cmds).always_on_top == w.always_on_top,
        apply_commands(w, cmds).skip_taskbar == w.skip_taskbar,
        apply_commands(w, cmds).decorations == w.decorations,
        apply_commands(w, cmds).transparent == w.transparent,
    decreases cmds.len(),
{
    if cmds.len() > 0 {
        lemma_commands_touch_only_cursor(w, cmds.drop_last());
    }
}

} // verus!
