//! The injector's run as a state machine.
//!
//! The injector has no authority over the target but through OS calls, so its
//! run is modelled as a session that alternates decisions with outside work:
//! `step` consumes the outcome of the last OS call (an [`Event`]) and returns
//! the next call to make (an [`Action`]). The unverified shell performs each
//! action and reports back; every decision in between — which process to
//! open, what bytes to stage, whether the read-back matches, when to give up,
//! what still has to be released — is made and verified here.
//!
//! Resource accounting is part of the machine: each handle or remote region
//! the shell acquires flips a flag, each is released by exactly one cleanup
//! action, and a session only exits once everything is released and, in
//! create-suspended mode, the target's main thread runs again.

use vstd::prelude::*;

use crate::addr::{function_addr_in_target, function_offset};
use crate::bytes::{copy_bytes, eq_bytes, find_nul, read_u16, scan_nul};
use crate::errors::{spec_exit_code, InjectorError};
use crate::paths::{file_name_of, path_with_nul, select_payload_path, spec_file_name,
    spec_strip_prefix, spec_with_nul, strip_long_path_prefix};
use crate::bytes::le_at;
use crate::pe::DOS_MAGIC;
use crate::bytes::eq_ignore_case;
use crate::procs::{eq_ignore_case_listed, find_module_base, is_target_running, names_match,
    ModuleEntry, ProcessEntry};

verus! {

/// Bounded wait on the remote load thread.
pub const LOAD_WAIT_MS: u32 = 1000;

/// Bounded wait on the remote unload thread.
pub const UNLOAD_WAIT_MS: u32 = 1000;

/// One handshake wait.
pub const HANDSHAKE_WAIT_MS: u32 = 1000;

/// Handshake retry budget: this many waits in all.
pub const HANDSHAKE_RETRIES: u32 = 5;

/// Size of the DOS header read back to check the seal.
pub const DOS_HEADER_SIZE: usize = 64;

/// How the injector reaches its target.
#[derive(Clone, Copy, Debug, PartialEq, Eq, Structural)]
pub enum Mode {
    /// Attach to an already-running process found by name.
    Attach,
    /// Create the target suspended, inject, handshake, then resume it.
    CreateSuspended,
}

/// What a remote thread is for.
#[derive(Clone, Copy, Debug, PartialEq, Eq, Structural)]
pub enum Purpose {
    Load,
    Unload,
}

/// Where the session stands: each phase waits for the outcome of one OS call.
#[derive(Clone, Copy, Debug, PartialEq, Eq, Structural)]
pub enum Phase {
    Start,
    AwaitProcs,
    AwaitCreate,
    AwaitOpen,
    AwaitBitness,
    AwaitCanonical,
    AwaitAlloc,
    AwaitWrite,
    AwaitProtect,
    AwaitVerify,
    AwaitKernel32,
    AwaitPulse,
    AwaitRoutineAddrs(Purpose),
    AwaitSpawn(Purpose),
    AwaitThreadWait(Purpose),
    AwaitLoadVerify,
    AwaitSeal,
    AwaitHandshake,
    AwaitResume,
    AwaitUnloadExit,
    AwaitUnloadVerify,
    Cleanup,
    Done,
}

/// The outcome of the last action, reported by the shell.
#[derive(Debug)]
pub enum Event {
    Begin,
    Procs(Vec<ProcessEntry>),
    ProcsFailed(u32),
    Created,
    CreateFailed(u32),
    Opened,
    OpenFailed(u32),
    Bitness(bool),
    BitnessFailed(u32),
    Canonical(Vec<u8>),
    CanonicalFailed(u32),
    Allocated,
    AllocFailed(u32),
    Written(usize),
    WriteFailed(u32),
    Protected,
    ProtectFailed(u32),
    ReadBack(Vec<u8>),
    ReadFailed(u32),
    Modules(Vec<ModuleEntry>),
    ModulesFailed(u32),
    OwnAddrs { module_base: usize, function_addr: usize },
    OwnAddrsFailed(u32),
    Pulsed,
    Spawned,
    SpawnFailed(u32),
    WaitDone,
    WaitTimeout,
    WaitFailed(u32),
    UnloadExitCode(u32),
    UnloadExitCodeFailed(u32),
    HandshakeSignaled,
    HandshakeTimedOut,
    Resumed,
    ResumeFailed(u32),
    CleanupAck,
}

/// The argument handed to a remote thread.
#[derive(Clone, Copy, Debug, PartialEq, Eq, Structural)]
pub enum RemoteArg {
    /// The remote path buffer (the shell holds its address).
    PathBuffer,
    /// A module base in the target, for the unloader.
    ModuleBase(usize),
}

/// The next OS call the shell must make.
#[derive(Debug)]
pub enum Action {
    EnumerateProcesses,
    /// Create the target (held in the session) suspended.
    CreateSuspendedProcess(Vec<u8>),
    /// Open the process with query, vm-read, vm-write, vm-operation and
    /// create-thread rights.
    OpenTarget(u32),
    QueryBitness,
    /// Canonicalize this payload path to an absolute path.
    CanonicalizePath(Vec<u8>),
    /// Reserve and commit this many read-write bytes in the target.
    AllocateRemote(usize),
    /// Write these bytes to the remote buffer.
    WriteRemote(Vec<u8>),
    /// Downgrade this many bytes of the remote buffer to read-only.
    ProtectRemoteReadOnly(usize),
    /// Read this many bytes back from the remote buffer.
    ReadRemote(usize),
    /// Enumerate the modules mapped in the target.
    EnumerateModules,
    /// Read `len` bytes at address `base` in the target, to check the loaded
    /// payload's DOS signature.
    ReadImageHeader { base: usize, len: usize },
    /// Resolve the loader module's base and the loader routine's address in
    /// the injector's own process.
    ResolveLoaderAddrs,
    /// Resolve the loader module's base and the unloader routine's address in
    /// the injector's own process.
    ResolveUnloaderAddrs,
    /// Resume the target's main thread for one millisecond, then suspend it
    /// again, so the OS loader can make progress.
    PulseMainThread,
    /// Create a remote thread entered at `entry` with the given argument.
    SpawnRemoteThread { entry: usize, arg: RemoteArg },
    /// Bounded wait on the last spawned remote thread.
    WaitForThread { ms: u32 },
    /// Read the unload thread's exit code.
    GetUnloadExitCode,
    /// Bounded wait on the handshake event.
    WaitHandshake { ms: u32 },
    /// Resume the target's main thread once.
    ResumeMainThread,
    /// Wait for the load thread with this bounded timeout, then close its
    /// handle.
    CloseLoadThread { wait_ms: u32 },
    /// Wait for the unload thread with this bounded timeout, then close its
    /// handle.
    CloseUnloadThread { wait_ms: u32 },
    /// Release the remote buffer (the whole allocation).
    FreeRemoteBuffer,
    /// Close the suspended main thread's handle.
    CloseMainThread,
    /// Close the target process handle.
    CloseProcess,
    /// The run is over; exit with this code.
    Exit(u32),
}

/// Which resources the shell holds on the session's behalf.
#[derive(Clone, Copy, Debug, PartialEq, Eq, Structural)]
pub struct Resources {
    pub process_open: bool,
    pub buffer_allocated: bool,
    pub load_thread_open: bool,
    pub unload_thread_open: bool,
    pub main_thread_open: bool,
    /// How often the session still holds the target's main thread suspended.
    pub suspend_count: u32,
}

/// How many releases cleanup still owes: the held flags and the outstanding
/// suspension. Every cleanup step lowers it, so the cascade terminates.
pub open spec fn held_count(r: Resources) -> int {
    (if r.process_open { 1int } else { 0int }) + (if r.buffer_allocated { 1int } else { 0int })
        + (if r.load_thread_open { 1int } else { 0int }) + (if r.unload_thread_open { 1int } else {
        0int
    }) + (if r.main_thread_open { 1int } else { 0int }) + r.suspend_count
}

/// No resource is held.
pub open spec fn all_released(r: Resources) -> bool {
    &&& !r.process_open
    &&& !r.buffer_allocated
    &&& !r.load_thread_open
    &&& !r.unload_thread_open
    &&& !r.main_thread_open
    &&& r.suspend_count == 0
}

/// One injection run.
pub struct Session {
    pub mode: Mode,
    pub phase: Phase,
    /// Attach mode: the target process name. Create-suspended mode: the
    /// target executable's path.
    pub target: Vec<u8>,
    /// The 32-bit payload path (attach mode).
    pub path32: Vec<u8>,
    /// The 64-bit payload path; the only payload path in create-suspended
    /// mode.
    pub path64: Vec<u8>,
    /// The bytes staged in the target: the normalized payload path and its
    /// terminating NUL.
    pub staged: Vec<u8>,
    /// The payload's file name, used to find it in the target's module list.
    pub payload_file_name: Vec<u8>,
    /// The loader module's base in the target.
    pub kernel32_base: usize,
    /// The payload module's base in the target, once loaded.
    pub payload_base: usize,
    /// The first fatal condition met, if any.
    pub error: Option<InjectorError>,
    /// Handshake waits spent so far.
    pub handshake_tries: u32,
    pub res: Resources,
}

/// Phases in which the target process handle is held.
pub open spec fn phase_holds_process(p: Phase) -> bool {
    !(p is Start || p is AwaitProcs || p is AwaitCreate || p is AwaitOpen || p is Cleanup
        || p is Done)
}

/// Phases only an attach-mode session reaches.
pub open spec fn attach_only_phase(p: Phase) -> bool {
    ||| p is AwaitProcs
    ||| p is AwaitOpen
    ||| p is AwaitBitness
    ||| p is AwaitUnloadExit
    ||| p is AwaitUnloadVerify
    ||| (p is AwaitRoutineAddrs && p->AwaitRoutineAddrs_0 is Unload)
    ||| (p is AwaitSpawn && p->AwaitSpawn_0 is Unload)
    ||| (p is AwaitThreadWait && p->AwaitThreadWait_0 is Unload)
}

/// Phases only a create-suspended session reaches.
pub open spec fn suspended_only_phase(p: Phase) -> bool {
    p is AwaitCreate || p is AwaitPulse || p is AwaitHandshake || p is AwaitResume
}

impl Session {
    /// Resource accounting is consistent.
    pub open spec fn res_wf(self) -> bool {
        &&& (self.res.buffer_allocated ==> self.res.process_open)
        &&& self.res.suspend_count <= 1
        &&& (self.mode is Attach ==> self.res.suspend_count == 0 && !self.res.main_thread_open)
        &&& (self.mode is CreateSuspended && phase_holds_process(self.phase)
            ==> self.res.suspend_count == 1 && self.res.main_thread_open)
        &&& self.handshake_tries <= HANDSHAKE_RETRIES
    }

    /// The phase agrees with the mode, the held resources and the error.
    pub open spec fn phase_wf(self) -> bool {
        &&& (self.error is Some ==> self.phase is Cleanup || self.phase is Done)
        &&& (self.phase is Done ==> all_released(self.res))
        &&& (phase_holds_process(self.phase) ==> self.res.process_open)
        &&& (attach_only_phase(self.phase) ==> self.mode is Attach)
        &&& (suspended_only_phase(self.phase) ==> self.mode is CreateSuspended)
    }

    /// Session well-formedness: every constructor establishes it and every
    /// step preserves it.
    pub open spec fn wf(self) -> bool {
        self.res_wf() && self.phase_wf()
    }

    /// Which events answer the pending action of the current phase.
    pub open spec fn accepts(self, ev: Event) -> bool {
        match self.phase {
            Phase::Start => ev is Begin,
            Phase::AwaitProcs => ev is Procs || ev is ProcsFailed,
            Phase::AwaitCreate => ev is Created || ev is CreateFailed,
            Phase::AwaitOpen => ev is Opened || ev is OpenFailed,
            Phase::AwaitBitness => ev is Bitness || ev is BitnessFailed,
            Phase::AwaitCanonical => ev is Canonical || ev is CanonicalFailed,
            Phase::AwaitAlloc => ev is Allocated || ev is AllocFailed,
            Phase::AwaitWrite => ev is Written || ev is WriteFailed,
            Phase::AwaitProtect => ev is Protected || ev is ProtectFailed,
            Phase::AwaitVerify => ev is ReadBack || ev is ReadFailed,
            Phase::AwaitKernel32 => ev is Modules || ev is ModulesFailed,
            Phase::AwaitPulse => ev is Pulsed,
            Phase::AwaitRoutineAddrs(_) => ev is OwnAddrs || ev is OwnAddrsFailed,
            Phase::AwaitSpawn(_) => ev is Spawned || ev is SpawnFailed,
            Phase::AwaitThreadWait(_) => ev is WaitDone || ev is WaitTimeout || ev is WaitFailed,
            Phase::AwaitLoadVerify => ev is Modules || ev is ModulesFailed,
            Phase::AwaitSeal => ev is ReadBack || ev is ReadFailed,
            Phase::AwaitHandshake => ev is HandshakeSignaled || ev is HandshakeTimedOut,
            Phase::AwaitResume => ev is Resumed || ev is ResumeFailed,
            Phase::AwaitUnloadExit => ev is UnloadExitCode || ev is UnloadExitCodeFailed,
            Phase::AwaitUnloadVerify => ev is Modules || ev is ModulesFailed,
            Phase::Cleanup => ev is CleanupAck,
            Phase::Done => false,
        }
    }

    /// Begin an attach-mode session from the command line:
    /// `<target_process_name> <32-bit payload path> <64-bit payload path>`
    /// after the program name. Any other argument count is refused, before
    /// any process is touched.
    pub fn attach_from_args(args: Vec<Vec<u8>>) -> (r: Option<Session>)
        ensures
            r is Some <==> args@.len() == 4,
            r is Some ==> ({
                let s = r->0;
                &&& s.wf()
                &&& s.mode is Attach
                &&& s.phase is Start
                &&& s.error is None
                &&& all_released(s.res)
                &&& s.target@ == args@[1]@
                &&& s.path32@ == args@[2]@
                &&& s.path64@ == args@[3]@
            }),
    {
        let mut args = args;
        if args.len() != 4 {
            return None;
        }
        let path64 = args.pop().unwrap();
        let path32 = args.pop().unwrap();
        let target = args.pop().unwrap();
        Some(
            Session {
                mode: Mode::Attach,
                phase: Phase::Start,
                target,
                path32,
                path64,
                staged: Vec::new(),
                payload_file_name: Vec::new(),
                kernel32_base: 0,
                payload_base: 0,
                error: None,
                handshake_tries: 0,
                res: Resources {
                    process_open: false,
                    buffer_allocated: false,
                    load_thread_open: false,
                    unload_thread_open: false,
                    main_thread_open: false,
                    suspend_count: 0,
                },
            },
        )
    }

    /// Begin a create-suspended session from the command line:
    /// `<target_exe_path> <payload_path>` after the program name. Any other
    /// argument count is refused, before any process is created.
    pub fn create_suspended_from_args(args: Vec<Vec<u8>>) -> (r: Option<Session>)
        ensures
            r is Some <==> args@.len() == 3,
            r is Some ==> ({
                let s = r->0;
                &&& s.wf()
                &&& s.mode is CreateSuspended
                &&& s.phase is Start
                &&& s.error is None
                &&& all_released(s.res)
                &&& s.target@ == args@[1]@
                &&& s.path64@ == args@[2]@
            }),
    {
        let mut args = args;
        if args.len() != 3 {
            return None;
        }
        let payload = args.pop().unwrap();
        let target = args.pop().unwrap();
        Some(
            Session {
                mode: Mode::CreateSuspended,
                phase: Phase::Start,
                target,
                path32: Vec::new(),
                path64: payload,
                staged: Vec::new(),
                payload_file_name: Vec::new(),
                kernel32_base: 0,
                payload_base: 0,
                error: None,
                handshake_tries: 0,
                res: Resources {
                    process_open: false,
                    buffer_allocated: false,
                    load_thread_open: false,
                    unload_thread_open: false,
                    main_thread_open: false,
                    suspend_count: 0,
                },
            },
        )
    }

    /// Release the next held resource, in the fixed order: remote threads,
    /// then the remote buffer (while the process handle is still open), then
    /// — in create-suspended mode — the resumption of the main thread, then
    /// the remaining handles. When nothing is held the session exits, with
    /// code zero exactly when no error was recorded.
    fn enter_cleanup(self) -> (r: (Session, Action))
        requires
            self.res_wf(),
        ensures
            r.0.wf(),
            r.0.mode == self.mode,
            r.0.error == self.error,
            r.0.phase is Cleanup || r.0.phase is Done,
            // cleanup only releases: no new process, memory or thread action
            (r.1 is CloseLoadThread || r.1 is CloseUnloadThread || r.1 is FreeRemoteBuffer
                || r.1 is ResumeMainThread || r.1 is CloseMainThread || r.1 is CloseProcess
                || r.1 is Exit),
            r.0.res.suspend_count <= self.res.suspend_count,
            // everything the run recorded is kept
            r.0.target@ == self.target@,
            r.0.staged@ == self.staged@,
            r.0.payload_file_name@ == self.payload_file_name@,
            r.0.kernel32_base == self.kernel32_base,
            r.0.payload_base == self.payload_base,
            // each release is enabled by its flag, happens at most once, and
            // keeps the order: threads, then the buffer while the process
            // handle is still open, then resumption, then the handles
            r.1 is CloseLoadThread ==> self.res.load_thread_open && !r.0.res.load_thread_open
                && r.1->CloseLoadThread_wait_ms == LOAD_WAIT_MS,
            r.1 is CloseUnloadThread ==> self.res.unload_thread_open
                && !r.0.res.unload_thread_open && r.1->CloseUnloadThread_wait_ms == UNLOAD_WAIT_MS,
            r.1 is FreeRemoteBuffer ==> self.res.buffer_allocated && !r.0.res.buffer_allocated
                && r.0.res.process_open,
            r.1 is ResumeMainThread ==> self.res.suspend_count > 0,
            (r.1 is ResumeMainThread && (r.0.phase is Cleanup || r.0.phase is Done))
                ==> r.0.res.suspend_count == 0,
            r.1 is CloseMainThread ==> self.res.main_thread_open && !r.0.res.main_thread_open
                && r.0.res.suspend_count == 0 && !r.0.res.buffer_allocated,
            r.1 is CloseProcess ==> self.res.process_open && !r.0.res.process_open
                && !self.res.buffer_allocated && r.0.res.suspend_count == 0
                && !r.0.res.main_thread_open,
            // a session holding nothing exits at once
            all_released(self.res) ==> r.0.phase is Done,
            // every cleanup step lowers what is still owed
            !(r.0.phase is Done) ==> held_count(r.0.res) < held_count(self.res),
            r.0.phase is Done ==> ({
                &&& r.1 is Exit
                &&& all_released(r.0.res)
                &&& (r.1->Exit_0 == 0 <==> r.0.error is None)
                &&& (r.0.error is Some ==> r.1->Exit_0 == spec_exit_code(r.0.error->0))
            }),
    {
        let mut s = self;
        s.phase = Phase::Cleanup;
        if s.res.load_thread_open {
            s.res.load_thread_open = false;
            (s, Action::CloseLoadThread { wait_ms: LOAD_WAIT_MS })
        } else if s.res.unload_thread_open {
            s.res.unload_thread_open = false;
            (s, Action::CloseUnloadThread { wait_ms: UNLOAD_WAIT_MS })
        } else if s.res.buffer_allocated {
            s.res.buffer_allocated = false;
            (s, Action::FreeRemoteBuffer)
        } else if s.res.suspend_count > 0 {
            s.res.suspend_count = 0;
            (s, Action::ResumeMainThread)
        } else if s.res.main_thread_open {
            s.res.main_thread_open = false;
            (s, Action::CloseMainThread)
        } else if s.res.process_open {
            s.res.process_open = false;
            (s, Action::CloseProcess)
        } else {
            s.phase = Phase::Done;
            let code: u32 = match &s.error {
                None => 0,
                Some(e) => e.exit_code(),
            };
            (s, Action::Exit(code))
        }
    }

    /// Record the first fatal condition and head for cleanup.
    fn fail(self, e: InjectorError) -> (r: (Session, Action))
        requires
            self.res_wf(),
            self.error is None,
        ensures
            r.0.wf(),
            r.0.mode == self.mode,
            r.0.error == Some(e),
            r.0.phase is Cleanup || r.0.phase is Done,
            // cleanup only releases: no new process, memory or thread action
            (r.1 is CloseLoadThread || r.1 is CloseUnloadThread || r.1 is FreeRemoteBuffer
                || r.1 is ResumeMainThread || r.1 is CloseMainThread || r.1 is CloseProcess
                || r.1 is Exit),
            r.0.res.suspend_count <= self.res.suspend_count,
            // everything the run recorded is kept
            r.0.target@ == self.target@,
            r.0.staged@ == self.staged@,
            r.0.payload_file_name@ == self.payload_file_name@,
            r.0.kernel32_base == self.kernel32_base,
            r.0.payload_base == self.payload_base,
            // each release is enabled by its flag, happens at most once, and
            // keeps the order: threads, then the buffer while the process
            // handle is still open, then resumption, then the handles
            r.1 is CloseLoadThread ==> self.res.load_thread_open && !r.0.res.load_thread_open
                && r.1->CloseLoadThread_wait_ms == LOAD_WAIT_MS,
            r.1 is CloseUnloadThread ==> self.res.unload_thread_open
                && !r.0.res.unload_thread_open && r.1->CloseUnloadThread_wait_ms == UNLOAD_WAIT_MS,
            r.1 is FreeRemoteBuffer ==> self.res.buffer_allocated && !r.0.res.buffer_allocated
                && r.0.res.process_open,
            r.1 is ResumeMainThread ==> self.res.suspend_count > 0,
            (r.1 is ResumeMainThread && (r.0.phase is Cleanup || r.0.phase is Done))
                ==> r.0.res.suspend_count == 0,
            r.1 is CloseMainThread ==> self.res.main_thread_open && !r.0.res.main_thread_open
                && r.0.res.suspend_count == 0 && !r.0.res.buffer_allocated,
            r.1 is CloseProcess ==> self.res.process_open && !r.0.res.process_open
                && !self.res.buffer_allocated && r.0.res.suspend_count == 0
                && !r.0.res.main_thread_open,
            // a session holding nothing exits at once
            all_released(self.res) ==> r.0.phase is Done,
            // every cleanup step lowers what is still owed
            !(r.0.phase is Done) ==> held_count(r.0.res) < held_count(self.res),
            r.0.phase is Done ==> ({
                &&& r.1 is Exit
                &&& all_released(r.0.res)
                &&& r.1->Exit_0 == spec_exit_code(e)
            }),
    {
        let mut s = self;
        s.error = Some(e);
        s.enter_cleanup()
    }

    /// Consume the outcome of the last OS call and decide the next one.
    ///
    /// Every fatal outcome records its error kind and turns to cleanup; the
    /// run only ends in an `Exit` action once every acquired resource has
    /// been released and a suspended target runs again, and the exit code is
    /// zero exactly when no error was recorded. The staging bytes are gated:
    /// the session proceeds past verification only when the bytes read back
    /// equal the bytes written, NUL included.
    #[verifier::rlimit(100)]
    pub fn step(self, ev: Event) -> (r: (Session, Action))
        requires
            self.wf(),
            self.accepts(ev),
        ensures
            r.0.wf(),
            r.0.mode == self.mode,
            self.error is Some ==> r.0.error == self.error,
            r.0.phase is Done ==> ({
                &&& r.1 is Exit
                &&& all_released(r.0.res)
                &&& (r.1->Exit_0 == 0 <==> r.0.error is None)
                &&& (r.0.error is Some ==> r.1->Exit_0 == spec_exit_code(r.0.error->0))
            }),
            // the run begins with discovery (attach) or creation (suspended)
            self.phase is Start && ev is Begin ==> ({
                &&& self.mode is Attach ==> r.0.phase is AwaitProcs && r.1 is EnumerateProcesses
                &&& self.mode is CreateSuspended ==> r.0.phase is AwaitCreate
                    && r.1 is CreateSuspendedProcess
            }),
            // the target is opened exactly when some enumerated process
            // matches the target name
            self.phase is AwaitProcs && ev is Procs ==> ((r.0.phase is AwaitOpen && r.1
                is OpenTarget) <==> exists|i: int|
                0 <= i < ev->Procs_0@.len() && #[trigger] names_match(
                    ev->Procs_0@[i].name@,
                    self.target@,
                )),
            // a write is complete exactly when every staged byte was written
            self.phase is AwaitWrite && ev is Written ==> ((r.0.phase is AwaitProtect)
                <==> ev->Written_0 == self.staged@.len()),
            self.phase is AwaitVerify && ev is ReadBack ==> ((r.0.phase is AwaitKernel32)
                <==> ev->ReadBack_0@ == self.staged@),
            // the load is verified exactly when the payload's file name is in
            // the target's module list
            self.phase is AwaitLoadVerify && ev is Modules ==> ((r.0.phase is AwaitSeal && r.1
                is ReadImageHeader) <==> eq_ignore_case_listed(
                ev->Modules_0@,
                self.payload_file_name@,
            )),
            // the seal holds exactly when the read-back header bears the DOS
            // signature
            self.phase is AwaitSeal && ev is ReadBack ==> ((r.0.phase is AwaitRoutineAddrs
                || r.0.phase is AwaitHandshake) <==> (ev->ReadBack_0@.len() >= 2 && le_at(
                ev->ReadBack_0@,
                0,
                2,
            ) == DOS_MAGIC)),
            // a zero exit code of the unloader is a failed unload
            self.phase is AwaitUnloadExit && ev is UnloadExitCode ==> ((r.0.phase
                is AwaitUnloadVerify) <==> ev->UnloadExitCode_0 != 0),
            // the unload is verified exactly when the payload is gone from
            // the target's module list
            self.phase is AwaitUnloadVerify && ev is Modules ==> ((r.0.error is None)
                <==> !eq_ignore_case_listed(ev->Modules_0@, self.payload_file_name@)),
            // a signalled handshake resumes the target's main thread
            self.phase is AwaitHandshake && ev is HandshakeSignaled ==> r.1 is ResumeMainThread,
            self.phase is AwaitResume && ev is Resumed ==> r.0.res.suspend_count == 0,
            self.phase == Phase::AwaitThreadWait(Purpose::Load) && ev is WaitTimeout ==> ({
                &&& r.0.error == Some(InjectorError::RemoteThreadTimeout)
                &&& (r.0.phase is Cleanup || r.0.phase is Done)
            }),
            self.phase is AwaitHandshake && ev is HandshakeTimedOut ==> ({
                if self.handshake_tries + 1 < HANDSHAKE_RETRIES {
                    &&& r.0.phase is AwaitHandshake
                    &&& r.0.handshake_tries == self.handshake_tries + 1
                    &&& r.1 is WaitHandshake
                } else {
                    &&& r.0.error == Some(InjectorError::HandshakeTimeout)
                    &&& (r.0.phase is Cleanup || r.0.phase is Done)
                }
            }),
            // the in-target entry address is the module's in-target base plus
            // the routine's distance from the module base in the injector's
            // own process
            self.phase is AwaitRoutineAddrs && ev is OwnAddrs && (r.1 is SpawnRemoteThread) ==> ({
                &&& ev->OwnAddrs_function_addr >= ev->OwnAddrs_module_base
                &&& r.1->SpawnRemoteThread_entry == self.kernel32_base + (
                ev->OwnAddrs_function_addr - ev->OwnAddrs_module_base)
            }),
            self.phase is AwaitCanonical && ev is Canonical && r.0.phase is AwaitAlloc ==> ({
                &&& r.0.staged@ == spec_with_nul(spec_strip_prefix(ev->Canonical_0@))
                &&& r.0.payload_file_name@ == spec_file_name(spec_strip_prefix(ev->Canonical_0@))
                &&& r.1 is AllocateRemote
                &&& r.1->AllocateRemote_0 == r.0.staged@.len()
            }),
            // a canonical path is staged exactly when, after stripping the
            // long-path prefix, it holds no interior NUL (the remote loader
            // reads only up to the first one) and a NUL can be appended
            self.phase is AwaitCanonical && ev is Canonical ==> ((r.0.phase is AwaitAlloc) <==> (
            find_nul(spec_strip_prefix(ev->Canonical_0@), 0) < 0 && spec_strip_prefix(
                ev->Canonical_0@,
            ).len() < usize::MAX)),
            // an error is recorded only by a fatal outcome, and never cleared
            r.0.error != self.error ==> self.error is None && r.0.error is Some,
            // cleanup acknowledgements keep the recorded outcome, release one
            // held resource each, never return to a working phase, and exit
            // once nothing is held
            self.phase is Cleanup ==> r.0.error == self.error && (r.0.phase is Cleanup
                || r.0.phase is Done),
            self.phase is Cleanup && !(r.0.phase is Done) ==> held_count(r.0.res) < held_count(
                self.res,
            ),
            (r.0.phase is Cleanup || r.0.phase is Done) && all_released(self.res) ==> r.0.phase
                is Done && r.1 is Exit,
            // once the run turns to or stands in cleanup, only releases are
            // asked for
            (r.0.phase is Cleanup || r.0.phase is Done) ==> (r.1 is CloseLoadThread || r.1
                is CloseUnloadThread || r.1 is FreeRemoteBuffer || r.1 is ResumeMainThread || r.1
                is CloseMainThread || r.1 is CloseProcess || r.1 is Exit),
            // each release is enabled by its flag and happens at most once, in
            // reverse acquisition order: threads first, the buffer while the
            // process handle is still open, resumption before the remaining
            // handles close
            r.1 is CloseLoadThread ==> self.res.load_thread_open && !r.0.res.load_thread_open
                && r.1->CloseLoadThread_wait_ms == LOAD_WAIT_MS,
            r.1 is CloseUnloadThread ==> self.res.unload_thread_open
                && !r.0.res.unload_thread_open && r.1->CloseUnloadThread_wait_ms
                == UNLOAD_WAIT_MS,
            r.1 is FreeRemoteBuffer ==> self.res.buffer_allocated && !r.0.res.buffer_allocated
                && r.0.res.process_open,
            r.1 is ResumeMainThread ==> self.res.suspend_count > 0,
            (r.1 is ResumeMainThread && (r.0.phase is Cleanup || r.0.phase is Done))
                ==> r.0.res.suspend_count == 0,
            r.1 is CloseMainThread ==> self.res.main_thread_open && !r.0.res.main_thread_open
                && r.0.res.suspend_count == 0 && !r.0.res.buffer_allocated,
            r.1 is CloseProcess ==> self.res.process_open && !r.0.res.process_open
                && !self.res.buffer_allocated && r.0.res.suspend_count == 0
                && !r.0.res.main_thread_open,
            // a failed downgrade to read-only is logged by the shell but not
            // fatal: the run proceeds to verification either way
            self.phase is AwaitProtect ==> r.0.phase is AwaitVerify && r.1 is ReadRemote
                && r.0.error == self.error,
            // a mismatched read-back records its own kind
            self.phase is AwaitVerify && ev is ReadBack && ev->ReadBack_0@ != self.staged@
                ==> r.0.error == Some(InjectorError::RemoteReadMismatch),
            // a failed own-process resolution records routine-not-exported
            self.phase is AwaitRoutineAddrs && ev is OwnAddrsFailed ==> r.0.error == Some(
                InjectorError::RoutineNotExported(ev->OwnAddrsFailed_0),
            ),
            self.phase is AwaitResume && ev is Resumed ==> r.0.error == self.error,
            // each outward operation is asked for from exactly one place, so
            // the staging and load order cannot be rearranged
            r.1 is EnumerateProcesses ==> self.phase is Start,
            r.1 is OpenTarget ==> self.phase is AwaitProcs,
            r.1 is QueryBitness ==> self.phase is AwaitOpen,
            r.1 is CanonicalizePath ==> self.phase is AwaitBitness || self.phase is AwaitCreate,
            r.1 is AllocateRemote ==> self.phase is AwaitCanonical,
            r.1 is WriteRemote ==> self.phase is AwaitAlloc && ev is Allocated,
            r.1 is ProtectRemoteReadOnly ==> self.phase is AwaitWrite,
            r.1 is ReadRemote ==> self.phase is AwaitProtect,
            r.1 is ResolveLoaderAddrs ==> self.phase is AwaitKernel32,
            r.1 is PulseMainThread ==> self.phase is AwaitKernel32,
            r.1 is SpawnRemoteThread ==> self.phase is AwaitRoutineAddrs && ev is OwnAddrs,
            r.1 is WaitForThread ==> self.phase is AwaitSpawn && ev is Spawned,
            r.1 is ReadImageHeader ==> self.phase is AwaitLoadVerify,
            r.1 is ResolveUnloaderAddrs ==> self.phase is AwaitSeal,
            r.1 is GetUnloadExitCode ==> self.phase == Phase::AwaitThreadWait(Purpose::Unload),
            // the session's recorded bytes and bases change only where they
            // are computed
            !(self.phase is AwaitCanonical) ==> r.0.staged@ == self.staged@
                && r.0.payload_file_name@ == self.payload_file_name@,
            !(self.phase is AwaitKernel32) ==> r.0.kernel32_base == self.kernel32_base,
            !(self.phase is AwaitLoadVerify) ==> r.0.payload_base == self.payload_base,
            // the write stages exactly the recorded bytes
            self.phase is AwaitAlloc && ev is Allocated ==> r.1 is WriteRemote
                && r.1->WriteRemote_0@ == self.staged@,
            // the bitness rule picks the payload: 32-bit under emulation
            self.phase is AwaitBitness && ev is Bitness ==> r.1 is CanonicalizePath && ({
                if ev->Bitness_0 {
                    r.1->CanonicalizePath_0@ == self.path32@
                } else {
                    r.1->CanonicalizePath_0@ == self.path64@
                }
            }),
            // the loader module's recorded base is the first case-insensitive
            // match in the enumerated list
            self.phase is AwaitKernel32 && ev is Modules && (r.0.phase is AwaitRoutineAddrs)
                ==> r.1 is ResolveLoaderAddrs && exists|i: int|
                {
                    &&& 0 <= i < ev->Modules_0@.len()
                    &&& #[trigger] eq_ignore_case(ev->Modules_0@[i].name@, kernel32_name())
                    &&& r.0.kernel32_base == ev->Modules_0@[i].base
                    &&& forall|j: int|
                        0 <= j < i ==> !eq_ignore_case(ev->Modules_0@[j].name@, kernel32_name())
                },
            // the seal is read from the matched payload module's base
            self.phase is AwaitLoadVerify && ev is Modules && (r.0.phase is AwaitSeal) ==> ({
                &&& r.1->ReadImageHeader_base == r.0.payload_base
                &&& r.1->ReadImageHeader_len == DOS_HEADER_SIZE
                &&& exists|i: int|
                    {
                        &&& 0 <= i < ev->Modules_0@.len()
                        &&& #[trigger] eq_ignore_case(
                            ev->Modules_0@[i].name@,
                            self.payload_file_name@,
                        )
                        &&& r.0.payload_base == ev->Modules_0@[i].base
                        &&& forall|j: int|
                            0 <= j < i ==> !eq_ignore_case(
                                ev->Modules_0@[j].name@,
                                self.payload_file_name@,
                            )
                    }
            }),
            // the remote-thread waits carry the bounded timeouts
            self.phase is AwaitSpawn && ev is Spawned ==> r.1 is WaitForThread && ({
                if self.phase->AwaitSpawn_0 is Load {
                    r.1->WaitForThread_ms == LOAD_WAIT_MS
                } else {
                    r.1->WaitForThread_ms == UNLOAD_WAIT_MS
                }
            }),
            // the spawned thread's argument: the path buffer for the loader,
            // the payload's in-target base for the unloader
            self.phase is AwaitRoutineAddrs && ev is OwnAddrs && (r.1 is SpawnRemoteThread)
                ==> ({
                if self.phase->AwaitRoutineAddrs_0 is Load {
                    r.1->SpawnRemoteThread_arg is PathBuffer
                } else {
                    r.1->SpawnRemoteThread_arg == RemoteArg::ModuleBase(self.payload_base)
                }
            }),
    {
        match (self.phase, ev) {
            (Phase::Start, Event::Begin) => {
                match self.mode {
                    Mode::Attach => {
                        let mut s = self;
                        s.phase = Phase::AwaitProcs;
                        (s, Action::EnumerateProcesses)
                    },
                    Mode::CreateSuspended => {
                        let path = copy_bytes(&self.target);
                        let mut s = self;
                        s.phase = Phase::AwaitCreate;
                        (s, Action::CreateSuspendedProcess(path))
                    },
                }
            },
            (Phase::AwaitProcs, Event::Procs(procs)) => {
                match is_target_running(&procs, &self.target) {
                    Some(pid) => {
                        let mut s = self;
                        s.phase = Phase::AwaitOpen;
                        (s, Action::OpenTarget(pid))
                    },
                    None => self.fail(InjectorError::ProcessNotFound),
                }
            },
            (Phase::AwaitProcs, Event::ProcsFailed(c)) => self.fail(
                InjectorError::UnknownOsError(c),
            ),
            (Phase::AwaitCreate, Event::Created) => {
                let path = copy_bytes(&self.path64);
                let mut s = self;
                s.res.process_open = true;
                s.res.main_thread_open = true;
                s.res.suspend_count = 1;
                s.phase = Phase::AwaitCanonical;
                (s, Action::CanonicalizePath(path))
            },
            (Phase::AwaitCreate, Event::CreateFailed(c)) => self.fail(
                InjectorError::UnknownOsError(c),
            ),
            (Phase::AwaitOpen, Event::Opened) => {
                let mut s = self;
                s.res.process_open = true;
                s.phase = Phase::AwaitBitness;
                (s, Action::QueryBitness)
            },
            (Phase::AwaitOpen, Event::OpenFailed(c)) => self.fail(
                InjectorError::HandleOpenDenied(c),
            ),
            (Phase::AwaitBitness, Event::Bitness(is_wow64)) => {
                let p32 = copy_bytes(&self.path32);
                let p64 = copy_bytes(&self.path64);
                let selected = select_payload_path(is_wow64, p32, p64);
                let mut s = self;
                s.phase = Phase::AwaitCanonical;
                (s, Action::CanonicalizePath(selected))
            },
            (Phase::AwaitBitness, Event::BitnessFailed(c)) => self.fail(
                InjectorError::UnknownOsError(c),
            ),
            (Phase::AwaitCanonical, Event::Canonical(p)) => {
                let stripped = strip_long_path_prefix(&p);
                if scan_nul(&stripped, 0).is_some() {
                    // a path with an interior NUL cannot be staged: the
                    // remote loader would read only its head
                    return self.fail(InjectorError::UnknownOsError(0));
                }
                let fname = file_name_of(&stripped);
                match path_with_nul(&stripped) {
                    Some(staged) => {
                        let len = staged.len();
                        let mut s = self;
                        s.staged = staged;
                        s.payload_file_name = fname;
                        s.phase = Phase::AwaitAlloc;
                        (s, Action::AllocateRemote(len))
                    },
                    None => self.fail(InjectorError::UnknownOsError(0)),
                }
            },
            (Phase::AwaitCanonical, Event::CanonicalFailed(c)) => self.fail(
                InjectorError::UnknownOsError(c),
            ),
            (Phase::AwaitAlloc, Event::Allocated) => {
                let bytes = copy_bytes(&self.staged);
                let mut s = self;
                s.res.buffer_allocated = true;
                s.phase = Phase::AwaitWrite;
                (s, Action::WriteRemote(bytes))
            },
            (Phase::AwaitAlloc, Event::AllocFailed(c)) => self.fail(
                InjectorError::RemoteAllocFailed(c),
            ),
            (Phase::AwaitWrite, Event::Written(bytes_written)) => {
                if bytes_written == self.staged.len() {
                    let len = self.staged.len();
                    let mut s = self;
                    s.phase = Phase::AwaitProtect;
                    (s, Action::ProtectRemoteReadOnly(len))
                } else {
                    self.fail(InjectorError::RemoteWriteShort)
                }
            },
            (Phase::AwaitWrite, Event::WriteFailed(c)) => self.fail(
                InjectorError::UnknownOsError(c),
            ),
            (Phase::AwaitProtect, Event::Protected) => {
                let len = self.staged.len();
                let mut s = self;
                s.phase = Phase::AwaitVerify;
                (s, Action::ReadRemote(len))
            },
            (Phase::AwaitProtect, Event::ProtectFailed(_)) => {
                // a failed downgrade to read-only is logged by the shell but
                // does not stop the injection
                let len = self.staged.len();
                let mut s = self;
                s.phase = Phase::AwaitVerify;
                (s, Action::ReadRemote(len))
            },
            (Phase::AwaitVerify, Event::ReadBack(bytes)) => {
                if eq_bytes(&bytes, &self.staged) {
                    let mut s = self;
                    s.phase = Phase::AwaitKernel32;
                    (s, Action::EnumerateModules)
                } else {
                    self.fail(InjectorError::RemoteReadMismatch)
                }
            },
            (Phase::AwaitVerify, Event::ReadFailed(c)) => self.fail(
                InjectorError::UnknownOsError(c),
            ),
            (Phase::AwaitKernel32, Event::Modules(modules)) => {
                let loader = kernel32_name_vec();
                match find_module_base(&modules, &loader) {
                    Ok(base) => {
                        let mut s = self;
                        s.kernel32_base = base;
                        s.phase = Phase::AwaitRoutineAddrs(Purpose::Load);
                        (s, Action::ResolveLoaderAddrs)
                    },
                    Err(_) => {
                        match self.mode {
                            Mode::Attach => self.fail(InjectorError::ModuleNotFoundInTarget),
                            Mode::CreateSuspended => {
                                // the loader has not mapped kernel32 yet: let
                                // the suspended target run for a moment
                                let mut s = self;
                                s.phase = Phase::AwaitPulse;
                                (s, Action::PulseMainThread)
                            },
                        }
                    },
                }
            },
            (Phase::AwaitKernel32, Event::ModulesFailed(c)) => {
                match self.mode {
                    Mode::Attach => self.fail(InjectorError::UnknownOsError(c)),
                    Mode::CreateSuspended => {
                        let mut s = self;
                        s.phase = Phase::AwaitPulse;
                        (s, Action::PulseMainThread)
                    },
                }
            },
            (Phase::AwaitPulse, Event::Pulsed) => {
                let mut s = self;
                s.phase = Phase::AwaitKernel32;
                (s, Action::EnumerateModules)
            },
            (Phase::AwaitRoutineAddrs(purpose), Event::OwnAddrs { module_base, function_addr }) => {
                match function_offset(function_addr, module_base) {
                    None => self.fail(InjectorError::RoutineNotExported(0)),
                    Some(offset) => {
                        match function_addr_in_target(self.kernel32_base, offset) {
                            None => self.fail(InjectorError::UnknownOsError(0)),
                            Some(entry) => {
                                let arg = match purpose {
                                    Purpose::Load => RemoteArg::PathBuffer,
                                    Purpose::Unload => RemoteArg::ModuleBase(self.payload_base),
                                };
                                let mut s = self;
                                s.phase = Phase::AwaitSpawn(purpose);
                                (s, Action::SpawnRemoteThread { entry, arg })
                            },
                        }
                    },
                }
            },
            (Phase::AwaitRoutineAddrs(_), Event::OwnAddrsFailed(c)) => self.fail(
                InjectorError::RoutineNotExported(c),
            ),
            (Phase::AwaitSpawn(purpose), Event::Spawned) => {
                let mut s = self;
                let ms: u32 = match purpose {
                    Purpose::Load => {
                        s.res.load_thread_open = true;
                        LOAD_WAIT_MS
                    },
                    Purpose::Unload => {
                        s.res.unload_thread_open = true;
                        UNLOAD_WAIT_MS
                    },
                };
                s.phase = Phase::AwaitThreadWait(purpose);
                (s, Action::WaitForThread { ms })
            },
            (Phase::AwaitSpawn(_), Event::SpawnFailed(c)) => self.fail(
                InjectorError::RemoteThreadCreateFailed(c),
            ),
            (Phase::AwaitThreadWait(purpose), Event::WaitDone) => {
                match purpose {
                    Purpose::Load => {
                        let mut s = self;
                        s.phase = Phase::AwaitLoadVerify;
                        (s, Action::EnumerateModules)
                    },
                    Purpose::Unload => {
                        let mut s = self;
                        s.phase = Phase::AwaitUnloadExit;
                        (s, Action::GetUnloadExitCode)
                    },
                }
            },
            (Phase::AwaitThreadWait(_), Event::WaitTimeout) => self.fail(
                InjectorError::RemoteThreadTimeout,
            ),
            (Phase::AwaitThreadWait(_), Event::WaitFailed(c)) => self.fail(
                InjectorError::RemoteThreadNonzeroWaitStatus(c),
            ),
            (Phase::AwaitLoadVerify, Event::Modules(modules)) => {
                match find_module_base(&modules, &self.payload_file_name) {
                    Ok(base) => {
                        let mut s = self;
                        s.payload_base = base;
                        s.phase = Phase::AwaitSeal;
                        (s, Action::ReadImageHeader { base, len: DOS_HEADER_SIZE })
                    },
                    Err(_) => self.fail(InjectorError::ModuleNotFoundInTarget),
                }
            },
            (Phase::AwaitLoadVerify, Event::ModulesFailed(c)) => self.fail(
                InjectorError::UnknownOsError(c),
            ),
            (Phase::AwaitSeal, Event::ReadBack(header)) => {
                if header.len() >= 2 && read_u16(&header, 0) == DOS_MAGIC {
                    match self.mode {
                        Mode::Attach => {
                            let mut s = self;
                            s.phase = Phase::AwaitRoutineAddrs(Purpose::Unload);
                            (s, Action::ResolveUnloaderAddrs)
                        },
                        Mode::CreateSuspended => {
                            let mut s = self;
                            s.phase = Phase::AwaitHandshake;
                            s.handshake_tries = 0;
                            (s, Action::WaitHandshake { ms: HANDSHAKE_WAIT_MS })
                        },
                    }
                } else {
                    self.fail(InjectorError::RemoteReadMismatch)
                }
            },
            (Phase::AwaitSeal, Event::ReadFailed(c)) => self.fail(
                InjectorError::UnknownOsError(c),
            ),
            (Phase::AwaitHandshake, Event::HandshakeSignaled) => {
                let mut s = self;
                s.phase = Phase::AwaitResume;
                (s, Action::ResumeMainThread)
            },
            (Phase::AwaitHandshake, Event::HandshakeTimedOut) => {
                let tries = self.handshake_tries + 1;
                if tries < HANDSHAKE_RETRIES {
                    let mut s = self;
                    s.handshake_tries = tries;
                    (s, Action::WaitHandshake { ms: HANDSHAKE_WAIT_MS })
                } else {
                    self.fail(InjectorError::HandshakeTimeout)
                }
            },
            (Phase::AwaitResume, Event::Resumed) => {
                let mut s = self;
                s.phase = Phase::Cleanup;
                s.res.suspend_count = 0;
                s.enter_cleanup()
            },
            (Phase::AwaitResume, Event::ResumeFailed(c)) => self.fail(
                InjectorError::UnknownOsError(c),
            ),
            (Phase::AwaitUnloadExit, Event::UnloadExitCode(code)) => {
                if code != 0 {
                    let mut s = self;
                    s.phase = Phase::AwaitUnloadVerify;
                    (s, Action::EnumerateModules)
                } else {
                    self.fail(InjectorError::UnloadVerificationFailed)
                }
            },
            (Phase::AwaitUnloadExit, Event::UnloadExitCodeFailed(c)) => self.fail(
                InjectorError::UnknownOsError(c),
            ),
            (Phase::AwaitUnloadVerify, Event::Modules(modules)) => {
                match find_module_base(&modules, &self.payload_file_name) {
                    Ok(_) => self.fail(InjectorError::UnloadVerificationFailed),
                    Err(_) => self.enter_cleanup(),
                }
            },
            (Phase::AwaitUnloadVerify, Event::ModulesFailed(c)) => self.fail(
                InjectorError::UnknownOsError(c),
            ),
            (Phase::Cleanup, Event::CleanupAck) => self.enter_cleanup(),
            _ => {
                // no other pairing of phase and event is accepted
                proof {
                    assert(false);
                }
                (self, Action::Exit(1))
            },
        }
    }
}

/// The loader module's base name, as matched case-insensitively in the
/// target's module list.
pub open spec fn kernel32_name() -> Seq<u8> {
    seq![107u8, 101u8, 114u8, 110u8, 101u8, 108u8, 51u8, 50u8, 46u8, 100u8, 108u8, 108u8]
}

/// `kernel32.dll` as bytes.
pub fn kernel32_name_vec() -> (r: Vec<u8>)
    ensures
        r@ == kernel32_name(),
{
    let mut v: Vec<u8> = Vec::new();
    v.push(107);
    v.push(101);
    v.push(114);
    v.push(110);
    v.push(101);
    v.push(108);
    v.push(51);
    v.push(50);
    v.push(46);
    v.push(100);
    v.push(108);
    v.push(108);
    assert(v@ =~= kernel32_name());
    v
}

} // verus!
