use vstd::prelude::*;

verus! {

/// Label of the single application window.
pub const MAIN_WINDOW_LABEL: &'static str = "main";

/// Accelerator of the global shortcut: the platform's primary modifier, Shift and S.
pub const SHORTCUT: &'static str = "CommandOrControl+Shift+S";

/// Name of the notification broadcast to the frontend on each activation.
pub const EVENT_NAME: &'static str = "trigger_screen_analysis";

/// The operating system the shell runs on, as far as the setup pass cares.
#[derive(Clone, Copy, Debug, PartialEq, Eq, Structural)]
pub enum Platform {
    MacOs,
    Other,
}

impl Platform {
    /// Whether windows on this platform can be pinned across virtual workspaces.
    pub open spec fn spec_has_workspaces(self) -> bool {
        self is MacOs
    }

    pub fn has_workspaces(self) -> (r: bool)
        ensures
            r == self.spec_has_workspaces(),
    {
        match self {
            Platform::MacOs => true,
            Platform::Other => false,
        }
    }
}

} // verus!
