//! Address arithmetic over a foreign address space.
//!
//! Remote addresses are plain integers: the injector never dereferences them.
//! The one invariant exploited is that an export of a module sits at the same
//! offset from the module's base in every process where the module is mapped.

use vstd::prelude::*;

verus! {

/// The offset of a routine within its module, computed in the injector's own
/// process: the routine's address minus the module's base address.
/// Returns `None` when the pair is inconsistent (the routine's address lies
/// below the module's base), which a healthy loader never reports.
pub fn function_offset(function_addr: usize, module_base: usize) -> (r: Option<usize>)
    ensures
        r is Some <==> function_addr >= module_base,
        r is Some ==> r->0 == function_addr - module_base,
{
    if function_addr >= module_base {
        Some(function_addr - module_base)
    } else {
        None
    }
}

/// The address of a routine inside the target process: the module's in-target
/// base plus the offset computed in the injector's own process.
/// Returns `None` when the sum does not fit in an address.
pub fn function_addr_in_target(module_base: usize, offset: usize) -> (r: Option<usize>)
    ensures
        r is Some <==> module_base + offset <= usize::MAX,
        r is Some ==> r->0 == module_base + offset,
{
    module_base.checked_add(offset)
}

/// Address arithmetic round trip: with `delta` the distance of routine `f`
/// from its module's base in the injector's own process, the computed
/// in-target address of `f` equals the module's in-target base plus `delta`.
pub proof fn lemma_offset_translation(
    own_function_addr: usize,
    own_module_base: usize,
    target_module_base: usize,
)
    requires
        own_function_addr >= own_module_base,
        target_module_base + (own_function_addr - own_module_base) <= usize::MAX,
    ensures
        ({
            let delta = own_function_addr - own_module_base;
            target_module_base + delta == target_module_base as int + own_function_addr
                - own_module_base
        }),
{
}

} // verus!
