//! Error kinds of the injector and of the payload's PE walk.

use vstd::prelude::*;

verus! {

/// A fatal condition met by the injector. Variants that arise directly from a
/// failed OS call carry the OS last-error code that was observed.
#[derive(Clone, Copy, Debug, PartialEq, Eq, Structural)]
pub enum InjectorError {
    /// The target name matched no enumerated process.
    ProcessNotFound,
    /// The OS refused the required access rights on the target.
    HandleOpenDenied(u32),
    /// Remote allocation of the path buffer failed.
    RemoteAllocFailed(u32),
    /// Fewer bytes were written to the remote buffer than requested.
    RemoteWriteShort,
    /// The bytes read back from the remote buffer differ from what was written.
    RemoteReadMismatch,
    /// Downgrading the remote buffer to read-only failed (non-fatal; logged).
    RemoteProtectFailed(u32),
    /// A needed module is not mapped in the target.
    ModuleNotFoundInTarget,
    /// A named routine was not exported by the injector's own loader module.
    RoutineNotExported(u32),
    /// Creating a thread in the target failed.
    RemoteThreadCreateFailed(u32),
    /// The bounded wait on a remote thread timed out.
    RemoteThreadTimeout,
    /// The wait on a remote thread ended with an unexpected status.
    RemoteThreadNonzeroWaitStatus(u32),
    /// The payload module was still present after the unload thread ran.
    UnloadVerificationFailed,
    /// The payload never signalled the handshake event within the retry budget.
    HandshakeTimeout,
    /// Any otherwise unclassified OS last-error.
    UnknownOsError(u32),
}

/// The process exit code that reports `e`: a distinct nonzero code per kind.
pub open spec fn spec_exit_code(e: InjectorError) -> u32 {
    match e {
        InjectorError::ProcessNotFound => 1,
        InjectorError::HandleOpenDenied(_) => 2,
        InjectorError::RemoteAllocFailed(_) => 3,
        InjectorError::RemoteWriteShort => 4,
        InjectorError::RemoteReadMismatch => 5,
        InjectorError::RemoteProtectFailed(_) => 6,
        InjectorError::ModuleNotFoundInTarget => 7,
        InjectorError::RoutineNotExported(_) => 8,
        InjectorError::RemoteThreadCreateFailed(_) => 9,
        InjectorError::RemoteThreadTimeout => 10,
        InjectorError::RemoteThreadNonzeroWaitStatus(_) => 11,
        InjectorError::UnloadVerificationFailed => 12,
        InjectorError::HandshakeTimeout => 13,
        InjectorError::UnknownOsError(_) => 14,
    }
}

impl InjectorError {
    /// The exit code for this error; never zero, so a failed run is always
    /// distinguishable from a successful one.
    pub fn exit_code(&self) -> (c: u32)
        ensures
            c == spec_exit_code(*self),
            c != 0,
    {
        match *self {
            InjectorError::ProcessNotFound => 1,
            InjectorError::HandleOpenDenied(_) => 2,
            InjectorError::RemoteAllocFailed(_) => 3,
            InjectorError::RemoteWriteShort => 4,
            InjectorError::RemoteReadMismatch => 5,
            InjectorError::RemoteProtectFailed(_) => 6,
            InjectorError::ModuleNotFoundInTarget => 7,
            InjectorError::RoutineNotExported(_) => 8,
            InjectorError::RemoteThreadCreateFailed(_) => 9,
            InjectorError::RemoteThreadTimeout => 10,
            InjectorError::RemoteThreadNonzeroWaitStatus(_) => 11,
            InjectorError::UnloadVerificationFailed => 12,
            InjectorError::HandshakeTimeout => 13,
            InjectorError::UnknownOsError(_) => 14,
        }
    }
}

/// A failure of the payload's in-memory PE walk.
#[derive(Clone, Copy, Debug, PartialEq, Eq, Structural)]
pub enum ParseError {
    /// An imported module's name could not be decoded (unterminated within the
    /// image, or not valid UTF-8).
    GetModuleNameError,
    /// An imported function's name could not be decoded.
    GetFuncNameError,
    /// No import descriptor names the requested module.
    ModuleNotFoundError,
    /// The requested function is not imported by name from the module.
    FunctionNotFoundError,
    /// Any otherwise unclassified OS error code.
    UnknownError(u32),
}

} // verus!
