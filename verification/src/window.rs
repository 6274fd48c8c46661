//! The command by which the front-end, once it is ready, has the main window
//! shown.
//!
//! The platform call itself is the host's business. What is decided here is
//! what that call's answer means: the window's state afterwards, or the one
//! failure after which the host does not go on.

use vstd::prelude::*;

verus! {

/// Whether the main window is on screen.
#[derive(Clone, Copy, Debug, PartialEq, Eq, Structural)]
pub enum Visibility {
    Hidden,
    Visible,
}

/// What the platform answered when asked to show the window.
#[derive(Clone, Copy, Debug, PartialEq, Eq, Structural)]
pub enum PlatformReply {
    Done,
    Failed,
}

/// The one failure of the shell: the window could not be shown. The host
/// stops on it.
#[derive(Clone, Copy, Debug, PartialEq, Eq, Structural)]
pub enum ShowError {
    WindowNotShown,
}

/// The window's state after a show command that the platform carried out.
pub open spec fn shown(before: Visibility) -> Visibility {
    Visibility::Visible
}

/// The outcome of a show command: the window's new state where the platform
/// carried it out, the failure where it did not.
pub open spec fn show_outcome(before: Visibility, reply: PlatformReply) -> Result<
    Visibility,
    ShowError,
> {
    match reply {
        PlatformReply::Done => Ok(shown(before)),
        PlatformReply::Failed => Err(ShowError::WindowNotShown),
    }
}

/// Settles a show command on a window that was in state `before`, given the
/// platform's answer. A window already visible is no special case: the
/// command is carried out again and the window stays visible.
pub fn show_main_window(before: Visibility, reply: PlatformReply) -> (outcome: Result<
    Visibility,
    ShowError,
>)
    ensures
        outcome == show_outcome(before, reply),
{
    match reply {
        PlatformReply::Done => Ok(Visibility::Visible),
        PlatformReply::Failed => Err(ShowError::WindowNotShown),
    }
}

/// A show command that the platform carries out leaves the window visible,
/// whatever it was before, and a second one changes nothing and does not
/// fail.
pub proof fn lemma_show_is_idempotent(before: Visibility)
    ensures
        show_outcome(before, PlatformReply::Done) == Ok::<Visibility, ShowError>(
            Visibility::Visible,
        ),
        show_outcome(shown(before), PlatformReply::Done) == show_outcome(
            before,
            PlatformReply::Done,
        ),
{
}

} // verus!
