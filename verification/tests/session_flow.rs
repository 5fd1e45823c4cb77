//! Tests that drive the injection session through whole runs.

use injector::errors::InjectorError;
use injector::procs::{ModuleEntry, ProcessEntry};
use injector::session::{Action, Event, Mode, Phase, RemoteArg, Session, HANDSHAKE_RETRIES};

fn args(list: &[&[u8]]) -> Vec<Vec<u8>> {
    list.iter().map(|a| a.to_vec()).collect()
}

fn attach_session() -> Session {
    Session::attach_from_args(args(&[b"injector", b"notepad.exe", b"p32.dll", b"p64.dll"]))
        .unwrap()
}

fn suspended_session() -> Session {
    Session::create_suspended_from_args(args(&[
        b"injector",
        b"C:\\Windows\\System32\\calc.exe",
        b"C:\\tmp\\payload.dll",
    ]))
    .unwrap()
}

fn notepad_procs() -> Event {
    Event::Procs(vec![
        ProcessEntry { pid: 4, name: b"System".to_vec() },
        ProcessEntry { pid: 1234, name: b"notepad.exe".to_vec() },
    ])
}

fn kernel32_modules() -> Event {
    Event::Modules(vec![
        ModuleEntry { name: b"ntdll.dll".to_vec(), base: 0x7FF8_0000_0000 },
        ModuleEntry { name: b"KERNEL32.DLL".to_vec(), base: 0x7FF8_4000_0000 },
    ])
}

fn modules_with_payload() -> Event {
    Event::Modules(vec![
        ModuleEntry { name: b"ntdll.dll".to_vec(), base: 0x7FF8_0000_0000 },
        ModuleEntry { name: b"KERNEL32.DLL".to_vec(), base: 0x7FF8_4000_0000 },
        ModuleEntry { name: b"payload.dll".to_vec(), base: 0x0000_0002_4000_0000 },
    ])
}

fn modules_without_payload() -> Event {
    kernel32_modules()
}

fn mz_header() -> Vec<u8> {
    let mut h = vec![0u8; 64];
    h[0] = 0x4D;
    h[1] = 0x5A;
    h
}

fn staged_payload() -> Vec<u8> {
    let mut v = b"C:\\tmp\\payload.dll".to_vec();
    v.push(0);
    v
}

/// Feed cleanup acknowledgements until the session exits; return the actions
/// seen, the exit code and the final session.
fn drain_cleanup(mut s: Session, mut act: Action) -> (Vec<Action>, u32, Session) {
    let mut seen = Vec::new();
    loop {
        match act {
            Action::Exit(code) => {
                assert!(matches!(s.phase, Phase::Done));
                // nothing leaks: every acquired resource has been released
                assert!(!s.res.process_open);
                assert!(!s.res.buffer_allocated);
                assert!(!s.res.load_thread_open);
                assert!(!s.res.unload_thread_open);
                assert!(!s.res.main_thread_open);
                assert_eq!(s.res.suspend_count, 0);
                return (seen, code, s);
            }
            other => {
                seen.push(other);
                let (next, next_act) = s.step(Event::CleanupAck);
                s = next;
                act = next_act;
            }
        }
    }
}

/// Drive an attach session up to the point where the load thread is waited
/// on, with the standard happy-path events.
fn attach_until_load_wait() -> Session {
    let s = attach_session();
    let (s, act) = s.step(Event::Begin);
    assert!(matches!(act, Action::EnumerateProcesses));
    let (s, act) = s.step(notepad_procs());
    assert!(matches!(act, Action::OpenTarget(1234)));
    let (s, act) = s.step(Event::Opened);
    assert!(matches!(act, Action::QueryBitness));
    let (s, act) = s.step(Event::Bitness(false));
    match act {
        Action::CanonicalizePath(p) => assert_eq!(p, b"p64.dll".to_vec()),
        other => panic!("unexpected action: {:?}", other),
    }
    let (s, act) = s.step(Event::Canonical(b"\\\\?\\C:\\tmp\\payload.dll".to_vec()));
    match act {
        Action::AllocateRemote(len) => assert_eq!(len, staged_payload().len()),
        other => panic!("unexpected action: {:?}", other),
    }
    let (s, act) = s.step(Event::Allocated);
    match act {
        Action::WriteRemote(bytes) => assert_eq!(bytes, staged_payload()),
        other => panic!("unexpected action: {:?}", other),
    }
    let (s, act) = s.step(Event::Written(staged_payload().len()));
    assert!(matches!(act, Action::ProtectRemoteReadOnly(_)));
    let (s, act) = s.step(Event::Protected);
    match act {
        Action::ReadRemote(len) => assert_eq!(len, staged_payload().len()),
        other => panic!("unexpected action: {:?}", other),
    }
    let (s, act) = s.step(Event::ReadBack(staged_payload()));
    assert!(matches!(act, Action::EnumerateModules));
    let (s, act) = s.step(kernel32_modules());
    assert!(matches!(act, Action::ResolveLoaderAddrs));
    let (s, act) = s.step(Event::OwnAddrs {
        module_base: 0x0000_0001_0000_0000,
        function_addr: 0x0000_0001_0000_0500,
    });
    match act {
        Action::SpawnRemoteThread { entry, arg } => {
            // offset carried over: target kernel32 base + own-process offset
            assert_eq!(entry, 0x7FF8_4000_0500);
            assert!(matches!(arg, RemoteArg::PathBuffer));
        }
        other => panic!("unexpected action: {:?}", other),
    }
    let (s, act) = s.step(Event::Spawned);
    assert!(matches!(act, Action::WaitForThread { ms: 1000 }));
    s
}

#[test]
fn wrong_argument_count_is_refused_before_any_process_is_opened() {
    assert!(Session::attach_from_args(args(&[b"injector", b"a", b"b"])).is_none());
    assert!(Session::attach_from_args(args(&[b"injector", b"a", b"b", b"c", b"d"])).is_none());
    assert!(Session::create_suspended_from_args(args(&[b"injector", b"a"])).is_none());
    let s = attach_session();
    assert!(matches!(s.mode, Mode::Attach));
    assert!(matches!(s.phase, Phase::Start));
    assert!(!s.res.process_open);
    assert_eq!(s.target, b"notepad.exe".to_vec());
}

#[test]
fn absent_target_exits_nonzero_without_opening_anything() {
    let s = attach_session();
    let (s, _) = s.step(Event::Begin);
    let (s, act) = s.step(Event::Procs(vec![ProcessEntry {
        pid: 4,
        name: b"System".to_vec(),
    }]));
    // nothing was acquired, so the failure exits at once
    let (actions, code, _) = drain_cleanup(s, act);
    assert!(actions.is_empty());
    assert_ne!(code, 0);
}

#[test]
fn denied_open_exits_nonzero() {
    let s = attach_session();
    let (s, _) = s.step(Event::Begin);
    let (s, _) = s.step(notepad_procs());
    let (s, act) = s.step(Event::OpenFailed(5));
    let (actions, code, _) = drain_cleanup(s, act);
    assert!(actions.is_empty());
    assert_ne!(code, 0);
}

#[test]
fn short_write_is_fatal_and_frees_the_buffer() {
    let s = attach_session();
    let (s, _) = s.step(Event::Begin);
    let (s, _) = s.step(notepad_procs());
    let (s, _) = s.step(Event::Opened);
    let (s, _) = s.step(Event::Bitness(true));
    let (s, act) = s.step(Event::Canonical(b"C:\\tmp\\payload32.dll".to_vec()));
    assert!(matches!(act, Action::AllocateRemote(_)));
    let (s, _) = s.step(Event::Allocated);
    let (s, act) = s.step(Event::Written(3));
    let (actions, code, _) = drain_cleanup(s, act);
    assert_ne!(code, 0);
    assert!(actions.iter().any(|a| matches!(a, Action::FreeRemoteBuffer)));
    assert!(actions.iter().any(|a| matches!(a, Action::CloseProcess)));
}

#[test]
fn mismatched_read_back_is_fatal() {
    let s = attach_session();
    let (s, _) = s.step(Event::Begin);
    let (s, _) = s.step(notepad_procs());
    let (s, _) = s.step(Event::Opened);
    let (s, _) = s.step(Event::Bitness(false));
    let (s, _) = s.step(Event::Canonical(b"C:\\tmp\\payload.dll".to_vec()));
    let (s, _) = s.step(Event::Allocated);
    let (s, _) = s.step(Event::Written(staged_payload().len()));
    let (s, _) = s.step(Event::Protected);
    let (s, act) = s.step(Event::ReadBack(b"C:\\tmp\\garbage.dll\0".to_vec()));
    let (_, code, _) = drain_cleanup(s, act);
    assert_ne!(code, 0);
}

#[test]
fn protect_failure_is_not_fatal() {
    let s = attach_session();
    let (s, _) = s.step(Event::Begin);
    let (s, _) = s.step(notepad_procs());
    let (s, _) = s.step(Event::Opened);
    let (s, _) = s.step(Event::Bitness(false));
    let (s, _) = s.step(Event::Canonical(b"C:\\tmp\\payload.dll".to_vec()));
    let (s, _) = s.step(Event::Allocated);
    let (s, _) = s.step(Event::Written(staged_payload().len()));
    let (s, act) = s.step(Event::ProtectFailed(87));
    assert!(matches!(act, Action::ReadRemote(_)));
    assert!(matches!(s.phase, Phase::AwaitVerify));
}

#[test]
fn load_wait_timeout_cleans_up_without_unload() {
    let s = attach_until_load_wait();
    let (s, act) = s.step(Event::WaitTimeout);
    let (actions, code, _) = drain_cleanup(s, act);
    assert_ne!(code, 0);
    // the remote load thread is waited on and closed, the buffer freed, the
    // process handle closed; no further remote thread is driven
    assert!(actions.iter().any(|a| matches!(a, Action::CloseLoadThread { wait_ms: 1000 })));
    assert!(actions.iter().any(|a| matches!(a, Action::FreeRemoteBuffer)));
    assert!(actions.iter().any(|a| matches!(a, Action::CloseProcess)));
    assert!(!actions.iter().any(|a| matches!(a, Action::SpawnRemoteThread { .. })));
}

#[test]
fn full_attach_cycle_exits_zero() {
    let s = attach_until_load_wait();
    let (s, act) = s.step(Event::WaitDone);
    assert!(matches!(act, Action::EnumerateModules));
    let (s, act) = s.step(modules_with_payload());
    match act {
        Action::ReadImageHeader { base, len } => {
            assert_eq!(base, 0x0000_0002_4000_0000);
            assert_eq!(len, 64);
        }
        other => panic!("unexpected action: {:?}", other),
    }
    let (s, act) = s.step(Event::ReadBack(mz_header()));
    assert!(matches!(act, Action::ResolveUnloaderAddrs));
    let (s, act) = s.step(Event::OwnAddrs {
        module_base: 0x0000_0001_0000_0000,
        function_addr: 0x0000_0001_0000_0600,
    });
    match act {
        Action::SpawnRemoteThread { entry, arg } => {
            assert_eq!(entry, 0x7FF8_4000_0600);
            assert!(matches!(arg, RemoteArg::ModuleBase(0x0000_0002_4000_0000)));
        }
        other => panic!("unexpected action: {:?}", other),
    }
    let (s, act) = s.step(Event::Spawned);
    assert!(matches!(act, Action::WaitForThread { ms: 1000 }));
    let (s, act) = s.step(Event::WaitDone);
    assert!(matches!(act, Action::GetUnloadExitCode));
    let (s, act) = s.step(Event::UnloadExitCode(1));
    assert!(matches!(act, Action::EnumerateModules));
    let (s, act) = s.step(modules_without_payload());
    let (actions, code, _) = drain_cleanup(s, act);
    assert_eq!(code, 0);
    assert!(actions.iter().any(|a| matches!(a, Action::CloseLoadThread { wait_ms: 1000 })));
    assert!(actions.iter().any(|a| matches!(a, Action::CloseUnloadThread { wait_ms: 1000 })));
    assert!(actions.iter().any(|a| matches!(a, Action::FreeRemoteBuffer)));
    assert!(actions.iter().any(|a| matches!(a, Action::CloseProcess)));
}

#[test]
fn bad_seal_is_fatal() {
    let s = attach_until_load_wait();
    let (s, _) = s.step(Event::WaitDone);
    let (s, _) = s.step(modules_with_payload());
    let (s, act) = s.step(Event::ReadBack(vec![0u8; 64]));
    let (_, code, _) = drain_cleanup(s, act);
    assert_ne!(code, 0);
}

#[test]
fn payload_still_present_after_unload_is_fatal() {
    let s = attach_until_load_wait();
    let (s, _) = s.step(Event::WaitDone);
    let (s, _) = s.step(modules_with_payload());
    let (s, _) = s.step(Event::ReadBack(mz_header()));
    let (s, _) = s.step(Event::OwnAddrs {
        module_base: 0x0000_0001_0000_0000,
        function_addr: 0x0000_0001_0000_0600,
    });
    let (s, _) = s.step(Event::Spawned);
    let (s, _) = s.step(Event::WaitDone);
    let (s, _) = s.step(Event::UnloadExitCode(1));
    let (s, act) = s.step(modules_with_payload());
    let (_, code, _) = drain_cleanup(s, act);
    assert_ne!(code, 0);
}

/// Drive a create-suspended session up to the handshake wait.
fn suspended_until_handshake() -> Session {
    let s = suspended_session();
    let (s, act) = s.step(Event::Begin);
    match act {
        Action::CreateSuspendedProcess(p) => {
            assert_eq!(p, b"C:\\Windows\\System32\\calc.exe".to_vec())
        }
        other => panic!("unexpected action: {:?}", other),
    }
    let (s, act) = s.step(Event::Created);
    assert_eq!(s.res.suspend_count, 1);
    assert!(matches!(act, Action::CanonicalizePath(_)));
    let (s, _) = s.step(Event::Canonical(b"C:\\tmp\\payload.dll".to_vec()));
    let (s, _) = s.step(Event::Allocated);
    let (s, _) = s.step(Event::Written(staged_payload().len()));
    let (s, _) = s.step(Event::Protected);
    let (s, act) = s.step(Event::ReadBack(staged_payload()));
    assert!(matches!(act, Action::EnumerateModules));
    // the loader has not mapped kernel32 yet: the session pulses the main
    // thread and enumerates again
    let (s, act) = s.step(Event::Modules(Vec::new()));
    assert!(matches!(act, Action::PulseMainThread));
    let (s, act) = s.step(Event::Pulsed);
    assert!(matches!(act, Action::EnumerateModules));
    let (s, _) = s.step(kernel32_modules());
    let (s, _) = s.step(Event::OwnAddrs {
        module_base: 0x0000_0001_0000_0000,
        function_addr: 0x0000_0001_0000_0500,
    });
    let (s, _) = s.step(Event::Spawned);
    let (s, _) = s.step(Event::WaitDone);
    let (s, _) = s.step(modules_with_payload());
    let (s, act) = s.step(Event::ReadBack(mz_header()));
    assert!(matches!(act, Action::WaitHandshake { ms: 1000 }));
    s
}

#[test]
fn suspended_run_resumes_after_handshake_and_exits_zero() {
    let s = suspended_until_handshake();
    let (s, act) = s.step(Event::HandshakeSignaled);
    assert!(matches!(act, Action::ResumeMainThread));
    let (s, act) = s.step(Event::Resumed);
    assert_eq!(s.res.suspend_count, 0);
    let (actions, code, fin) = drain_cleanup(s, act);
    assert_eq!(code, 0);
    assert_eq!(fin.res.suspend_count, 0);
    assert!(actions.iter().any(|a| matches!(a, Action::CloseMainThread)));
    assert!(actions.iter().any(|a| matches!(a, Action::CloseProcess)));
}

#[test]
fn silent_handshake_resumes_during_cleanup_after_five_waits() {
    let mut s = suspended_until_handshake();
    // the wait that brought us here was the first of five
    for _ in 0..(HANDSHAKE_RETRIES - 1) {
        let (next, act) = s.step(Event::HandshakeTimedOut);
        assert!(matches!(act, Action::WaitHandshake { ms: 1000 }));
        s = next;
    }
    let (s, act) = s.step(Event::HandshakeTimedOut);
    let (actions, code, fin) = drain_cleanup(s, act);
    assert_ne!(code, 0);
    // the target is not left frozen: the cleanup resumes its main thread
    assert!(actions.iter().any(|a| matches!(a, Action::ResumeMainThread)));
    assert_eq!(fin.res.suspend_count, 0);
}

#[test]
fn each_error_kind_exits_with_its_own_code() {
    let kinds = [
        InjectorError::ProcessNotFound,
        InjectorError::HandleOpenDenied(5),
        InjectorError::RemoteAllocFailed(8),
        InjectorError::RemoteWriteShort,
        InjectorError::RemoteReadMismatch,
        InjectorError::RemoteProtectFailed(87),
        InjectorError::ModuleNotFoundInTarget,
        InjectorError::RoutineNotExported(127),
        InjectorError::RemoteThreadCreateFailed(5),
        InjectorError::RemoteThreadTimeout,
        InjectorError::RemoteThreadNonzeroWaitStatus(6),
        InjectorError::UnloadVerificationFailed,
        InjectorError::HandshakeTimeout,
        InjectorError::UnknownOsError(1),
    ];
    let mut seen = Vec::new();
    for k in kinds.iter() {
        let code = k.exit_code();
        assert_ne!(code, 0);
        assert!(!seen.contains(&code));
        seen.push(code);
    }
}

#[test]
fn interior_nul_in_canonical_path_is_fatal() {
    let s = attach_session();
    let (s, _) = s.step(Event::Begin);
    let (s, _) = s.step(notepad_procs());
    let (s, _) = s.step(Event::Opened);
    let (s, _) = s.step(Event::Bitness(false));
    let (s, act) = s.step(Event::Canonical(b"C:\\tmp\0payload.dll".to_vec()));
    assert!(!matches!(act, Action::AllocateRemote(_)));
    let (_, code, _) = drain_cleanup(s, act);
    assert_ne!(code, 0);
}

#[test]
fn cleanup_with_nothing_held_makes_no_call() {
    let s = attach_session();
    let (s, _) = s.step(Event::Begin);
    let (s, act) = s.step(Event::ProcsFailed(6));
    match act {
        Action::Exit(code) => {
            assert!(matches!(s.phase, Phase::Done));
            assert_ne!(code, 0);
        }
        other => panic!("unexpected action: {:?}", other),
    }
}
