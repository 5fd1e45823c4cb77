//! Process discovery and module lookup: matching an enumerated process list
//! against a target name, and finding a module's base in an enumerated module
//! list. Enumeration itself is an OS call made by the unverified shell; the
//! selection rules live here.

use vstd::prelude::*;

use crate::bytes::{contains_sub, eq_ignore_case, eq_names_ignore_case, is_substring, lower_seq,
    to_lower_vec};

verus! {

/// One enumerated process: its id and the base name of its main image, as the
/// OS reports it (an ANSI byte string).
#[derive(Debug)]
pub struct ProcessEntry {
    pub pid: u32,
    pub name: Vec<u8>,
}

/// One module mapped in the target: its base name and its image base address
/// in the target's address space.
#[derive(Debug)]
pub struct ModuleEntry {
    pub name: Vec<u8>,
    pub base: usize,
}

/// The symmetric, case-insensitive match rule of process selection: the target
/// name is a substring of the process name, or the process name a substring of
/// the target name, both lowered.
pub open spec fn names_match(proc_name: Seq<u8>, target: Seq<u8>) -> bool {
    is_substring(lower_seq(target), lower_seq(proc_name)) || is_substring(
        lower_seq(proc_name),
        lower_seq(target),
    )
}

/// Whether the target process is running: the pid of the first enumerated
/// process whose name matches `target_proc_name`, or `None` when none does.
/// The first match wins; enumeration order is whatever the OS reported.
pub fn is_target_running(proc_info: &Vec<ProcessEntry>, target_proc_name: &Vec<u8>) -> (r: Option<
    u32,
>)
    ensures
        r is None ==> forall|j: int|
            0 <= j < proc_info@.len() ==> !names_match(proc_info@[j].name@, target_proc_name@),
        r is Some ==> exists|i: int|
            {
                &&& 0 <= i < proc_info@.len()
                &&& #[trigger] names_match(proc_info@[i].name@, target_proc_name@)
                &&& r->0 == proc_info@[i].pid
                &&& forall|j: int|
                    0 <= j < i ==> !names_match(proc_info@[j].name@, target_proc_name@)
            },
{
    let target_lower = to_lower_vec(target_proc_name);
    let mut i: usize = 0;
    while i < proc_info.len()
        invariant
            target_lower@ == lower_seq(target_proc_name@),
            i <= proc_info@.len(),
            forall|j: int|
                0 <= j < i ==> !names_match(proc_info@[j].name@, target_proc_name@),
        decreases proc_info.len() - i,
    {
        let name_lower = to_lower_vec(&proc_info[i].name);
        if contains_sub(&name_lower, &target_lower) || contains_sub(&target_lower, &name_lower) {
            assert(names_match(proc_info@[i as int].name@, target_proc_name@));
            return Some(proc_info[i].pid);
        }
        i = i + 1;
    }
    None
}

/// The sentinel reported when a module is absent from the target, kept
/// distinguishable from every OS last-error code the injector stores.
pub const MODULE_NOT_FOUND_SENTINEL: u32 = 404;

/// The base address of the first module of `modules` whose name equals
/// `module_name` up to ASCII case, or the distinguished sentinel when no
/// module matches.
pub fn find_module_base(modules: &Vec<ModuleEntry>, module_name: &Vec<u8>) -> (r: Result<
    usize,
    u32,
>)
    ensures
        r is Err ==> r->Err_0 == MODULE_NOT_FOUND_SENTINEL && forall|j: int|
            0 <= j < modules@.len() ==> !eq_ignore_case(modules@[j].name@, module_name@),
        r is Ok ==> exists|i: int|
            {
                &&& 0 <= i < modules@.len()
                &&& #[trigger] eq_ignore_case(modules@[i].name@, module_name@)
                &&& r->Ok_0 == modules@[i].base
                &&& forall|j: int| 0 <= j < i ==> !eq_ignore_case(modules@[j].name@, module_name@)
            },
{
    let mut i: usize = 0;
    while i < modules.len()
        invariant
            i <= modules@.len(),
            forall|j: int| 0 <= j < i ==> !eq_ignore_case(modules@[j].name@, module_name@),
        decreases modules.len() - i,
    {
        if eq_names_ignore_case(&modules[i].name, module_name) {
            assert(eq_ignore_case(modules@[i as int].name@, module_name@));
            return Ok(modules[i].base);
        }
        i = i + 1;
    }
    Err(MODULE_NOT_FOUND_SENTINEL)
}

/// Whether some entry of an enumerated module list has this name, up to
/// ASCII case.
pub open spec fn eq_ignore_case_listed(modules: Seq<ModuleEntry>, name: Seq<u8>) -> bool {
    exists|i: int| 0 <= i < modules.len() && eq_ignore_case(#[trigger] modules[i].name@, name)
}

/// Whether any module of `names` matches `name` up to ASCII case.
pub open spec fn module_listed(names: Seq<Seq<u8>>, name: Seq<u8>) -> bool {
    exists|i: int| 0 <= i < names.len() && eq_ignore_case(#[trigger] names[i], name)
}

/// The module list after the OS loader maps one more module: the new name is
/// appended to the list.
pub open spec fn list_after_load(names: Seq<Seq<u8>>, loaded: Seq<u8>) -> Seq<Seq<u8>> {
    names.push(loaded)
}

/// The module list after the loader unmaps the first module matching `name`.
pub open spec fn list_after_unload(names: Seq<Seq<u8>>, name: Seq<u8>) -> Seq<Seq<u8>>
    decreases names.len(),
{
    if names.len() == 0 {
        names
    } else if eq_ignore_case(names[0], name) {
        names.drop_first()
    } else {
        seq![names[0]] + list_after_unload(names.drop_first(), name)
    }
}

/// Load/unload idempotence over one cycle: when the payload is not already in
/// the target's module list, loading it and then unloading it restores the
/// module list that was there before.
pub proof fn lemma_load_unload_round_trip(names: Seq<Seq<u8>>, payload: Seq<u8>)
    requires
        !module_listed(names, payload),
    ensures
        list_after_unload(list_after_load(names, payload), payload) == names,
    decreases names.len(),
{
    if names.len() == 0 {
        assert(list_after_load(names, payload)[0] == payload);
        assert(list_after_unload(list_after_load(names, payload), payload) =~= names);
    } else {
        assert(!eq_ignore_case(names[0], payload));
        assert(forall|i: int|
            0 <= i < names.drop_first().len() ==> names.drop_first()[i] == names[i + 1]);
        assert(!module_listed(names.drop_first(), payload)) by {
            if module_listed(names.drop_first(), payload) {
                let i = choose|i: int|
                    0 <= i < names.drop_first().len() && eq_ignore_case(
                        #[trigger] names.drop_first()[i],
                        payload,
                    );
                assert(eq_ignore_case(names[i + 1], payload));
            }
        }
        lemma_load_unload_round_trip(names.drop_first(), payload);
        assert(list_after_load(names, payload).drop_first() =~= list_after_load(
            names.drop_first(),
            payload,
        ));
        assert(list_after_unload(list_after_load(names, payload), payload) =~= names);
    }
}

} // verus!
