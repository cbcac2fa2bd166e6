use vstd::prelude::*;

verus! {

/// Every failure of the pseudo-terminal subsystem, with the OS code or status
/// and the context needed to diagnose it.
#[derive(Clone, Debug, PartialEq, Eq)]
pub enum PtyError {
    /// An anonymous pipe could not be created.
    PipeCreation { code: u32 },
    /// The process attribute list could not be initialised or updated.
    AttributeList { code: u32 },
    /// The pseudo-console could not be created or resized to the given grid.
    PseudoConsole { hresult: i32, rows: u16, cols: u16 },
    /// The OS refused to create the process for the given command line.
    ProcessCreation { code: u32, command_line: String },
    /// A handle could not be duplicated.
    HandleDuplication { code: u32 },
    /// The exit status of a process could not be queried.
    StatusQuery { code: u32 },
    /// The running OS has no pseudo-console facility.
    PlatformUnsupported,
}

} // verus!
