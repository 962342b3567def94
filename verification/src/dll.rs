use vstd::prelude::*;

verus! {

/// The reason code with which the loader calls the entry point when the library
/// is unloaded from a process.
pub const DLL_PROCESS_DETACH: u32 = 0;

/// The reason code with which the loader calls the entry point when the library
/// is loaded into a process.
pub const DLL_PROCESS_ATTACH: u32 = 1;

/// What the entry point does for a notification from the loader.
#[derive(Clone, Copy, PartialEq, Eq, Structural, Debug)]
pub enum DllAction {
    /// Stop thread notifications and start the set-up on a thread of its own.
    Attach,
    /// Run the tear-down on the calling thread.
    Detach,
    /// Do nothing.
    Ignore,
}

/// Decides what the entry point does: set up on attach; tear down on detach,
/// but only when the reserved pointer is not null; nothing for any other
/// notification.
pub fn dll_action(reason: u32, reserved_is_null: bool) -> (r: DllAction)
    ensures
        r == (if reason == DLL_PROCESS_ATTACH {
            DllAction::Attach
        } else if reason == DLL_PROCESS_DETACH && !reserved_is_null {
            DllAction::Detach
        } else {
            DllAction::Ignore
        }),
{
    if reason == DLL_PROCESS_ATTACH {
        DllAction::Attach
    } else if reason == DLL_PROCESS_DETACH && !reserved_is_null {
        DllAction::Detach
    } else {
        DllAction::Ignore
    }
}

} // verus!
