//! Choice of the platform shell that hosts the overlay.

use vstd::prelude::*;

verus! {

/// The platform shells the application can run in.
#[derive(Debug, Clone, Copy, PartialEq, Eq, Structural)]
pub enum ShellKind {
    /// Native Win32 always-on-top overlay with click-through, tray icon and
    /// global hotkeys.
    Win32Overlay,
    /// winit-based transparent window used on Linux and for previews.
    WinitPreview,
}

/// Select the shell to run: the native Win32 overlay on Windows, the winit
/// preview shell everywhere else.
pub fn run(on_windows: bool) -> (shell: ShellKind)
    ensures
        shell == (if on_windows { ShellKind::Win32Overlay } else { ShellKind::WinitPreview }),
{
    if on_windows {
        ShellKind::Win32Overlay
    } else {
        ShellKind::WinitPreview
    }
}

} // verus!
