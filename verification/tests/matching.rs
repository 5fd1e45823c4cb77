//! Tests of process selection and module lookup.

use injector::procs::{find_module_base, is_target_running, ModuleEntry, ProcessEntry,
    MODULE_NOT_FOUND_SENTINEL};

fn proc_entry(pid: u32, name: &[u8]) -> ProcessEntry {
    ProcessEntry { pid, name: name.to_vec() }
}

fn module_entry(name: &[u8], base: usize) -> ModuleEntry {
    ModuleEntry { name: name.to_vec(), base }
}

#[test]
fn match_is_case_insensitive() {
    let procs = vec![proc_entry(7, b"NotePad.EXE")];
    assert_eq!(is_target_running(&procs, &b"notepad.exe".to_vec()), Some(7));
}

#[test]
fn match_is_symmetric_substring() {
    // the user's name is a substring of the process name
    let procs = vec![proc_entry(11, b"notepad.exe")];
    assert_eq!(is_target_running(&procs, &b"notepad".to_vec()), Some(11));
    // the process name is a substring of the user's name
    let procs2 = vec![proc_entry(12, b"pad.exe")];
    assert_eq!(is_target_running(&procs2, &b"notepad.exe".to_vec()), Some(12));
}

#[test]
fn first_enumeration_match_wins() {
    // the target name is a strict substring of several process names: the
    // first in enumeration order is chosen
    let procs = vec![
        proc_entry(100, b"svchost.exe"),
        proc_entry(200, b"notepad.exe"),
        proc_entry(300, b"notepad2.exe"),
        proc_entry(400, b"xnotepadx.exe"),
    ];
    assert_eq!(is_target_running(&procs, &b"notepad".to_vec()), Some(200));
}

#[test]
fn no_match_is_none() {
    let procs = vec![proc_entry(1, b"alpha.exe"), proc_entry(2, b"beta.exe")];
    assert_eq!(is_target_running(&procs, &b"doesnotexistxyz.exe".to_vec()), None);
}

#[test]
fn empty_list_is_none() {
    let procs: Vec<ProcessEntry> = Vec::new();
    assert_eq!(is_target_running(&procs, &b"anything".to_vec()), None);
}

#[test]
fn module_found_by_case_insensitive_name() {
    let mods = vec![
        module_entry(b"ntdll.dll", 0x7FF8_0000_0000),
        module_entry(b"KERNEL32.DLL", 0x7FF8_1000_0000),
    ];
    assert_eq!(find_module_base(&mods, &b"kernel32.dll".to_vec()), Ok(0x7FF8_1000_0000));
}

#[test]
fn module_lookup_is_not_substring_match() {
    let mods = vec![module_entry(b"kernel32.dll", 0x1000)];
    assert_eq!(
        find_module_base(&mods, &b"kernel32".to_vec()),
        Err(MODULE_NOT_FOUND_SENTINEL)
    );
}

#[test]
fn absent_module_gives_sentinel() {
    let mods = vec![module_entry(b"ntdll.dll", 0x1000)];
    let r = find_module_base(&mods, &b"payload.dll".to_vec());
    assert_eq!(r, Err(404));
}

#[test]
fn module_list_restored_after_load_unload_cycle() {
    // a load appends the payload to the module list; the unload removes it;
    // lookups see the same list before and after the cycle
    let before = vec![
        module_entry(b"ntdll.dll", 0x1000),
        module_entry(b"kernel32.dll", 0x2000),
    ];
    let mut during = vec![
        module_entry(b"ntdll.dll", 0x1000),
        module_entry(b"kernel32.dll", 0x2000),
    ];
    assert_eq!(find_module_base(&before, &b"payload.dll".to_vec()), Err(404));
    during.push(module_entry(b"payload.dll", 0x3000));
    assert_eq!(find_module_base(&during, &b"payload.dll".to_vec()), Ok(0x3000));
    during.pop();
    assert_eq!(find_module_base(&during, &b"payload.dll".to_vec()), Err(404));
    for (a, b) in before.iter().zip(during.iter()) {
        assert_eq!(a.name, b.name);
        assert_eq!(a.base, b.base);
    }
    assert_eq!(before.len(), during.len());
}
