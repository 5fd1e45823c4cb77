//! The payload's in-memory PE walk.
//!
//! The hosting executable's mapped image is a byte string indexed by relative
//! virtual addresses (RVAs). The walk reads the DOS header, follows
//! `e_lfanew` to the NT headers, takes the import directory from the optional
//! header's data directory, scans the import descriptors for the target
//! module, and then walks the Import Name Table (INT) and Import Address
//! Table (IAT) in lockstep for the target function. What it returns is the
//! RVA of the IAT slot itself, the address a trampoline installer needs.

use vstd::prelude::*;
use vstd::utf8::valid_utf8;

use crate::bytes::{cstr_at, eq_bytes, le_at, read_cstr, read_u16, read_u32, read_u64};
use crate::errors::ParseError;

verus! {

/// DOS header magic `MZ`.
pub const DOS_MAGIC: u16 = 0x5A4D;

/// NT headers signature `PE\0\0`.
pub const PE_SIGNATURE: u32 = 0x4550;

/// Optional header magic of a 32-bit image.
pub const PE32_MAGIC: u16 = 0x10B;

/// Optional header magic of a 64-bit image.
pub const PE32PLUS_MAGIC: u16 = 0x20B;

/// Size of one import descriptor.
pub const IMPORT_DESCRIPTOR_SIZE: usize = 20;

/// Relies on core::str::from_utf8: it accepts exactly the byte strings that
/// are valid UTF-8, which vstd states as `valid_utf8`.
#[verifier::external_body]
fn utf8_valid(bytes: &Vec<u8>) -> (r: bool)
    ensures
        r == valid_utf8(bytes@),
{
    core::str::from_utf8(bytes.as_slice()).is_ok()
}

/// The pointer width and import directory RVA of a well-formed image, read
/// from the DOS header, the NT signature and the optional header's data
/// directory; `None` when the headers are malformed or truncated.
pub open spec fn spec_pe_layout(img: Seq<u8>) -> Option<(nat, nat)> {
    if img.len() < 0x40 {
        None
    } else if le_at(img, 0, 2) != DOS_MAGIC {
        None
    } else {
        let pe = le_at(img, 0x3C, 4);
        if pe + 26 > img.len() {
            None
        } else if le_at(img, pe as int, 4) != PE_SIGNATURE {
            None
        } else {
            let magic = le_at(img, pe as int + 24, 2);
            if magic == PE32_MAGIC {
                if pe + 132 <= img.len() {
                    Some((4nat, le_at(img, pe as int + 128, 4)))
                } else {
                    None
                }
            } else if magic == PE32PLUS_MAGIC {
                if pe + 148 <= img.len() {
                    Some((8nat, le_at(img, pe as int + 144, 4)))
                } else {
                    None
                }
            } else {
                None
            }
        }
    }
}

/// Read the image's pointer width and import directory RVA. Mirrors
/// `spec_pe_layout`; the import directory sits at index 1 of the optional
/// header's data directory, 96 bytes into a 32-bit optional header and 112
/// bytes into a 64-bit one.
pub fn get_import_directory_addr(img: &Vec<u8>) -> (r: Option<(usize, usize)>)
    ensures
        r is Some <==> spec_pe_layout(img@) is Some,
        r is Some ==> (r->0).0 == (spec_pe_layout(img@)->0).0 && (r->0).1 == (spec_pe_layout(img@)->0).1,
{
    let n = img.len();
    if n < 0x40 {
        return None;
    }
    if read_u16(img, 0) != DOS_MAGIC {
        return None;
    }
    let pe = read_u32(img, 0x3C) as usize;
    proof {
        crate::bytes::lemma_le_at_bound(img@, 0x3C, 4);
    }
    if n < 26 || pe > n - 26 {
        return None;
    }
    if read_u32(img, pe) != PE_SIGNATURE {
        return None;
    }
    let magic = read_u16(img, pe + 24);
    if magic == PE32_MAGIC {
        if n >= 132 && pe <= n - 132 {
            Some((4, read_u32(img, pe + 128) as usize))
        } else {
            None
        }
    } else if magic == PE32PLUS_MAGIC {
        if n >= 148 && pe <= n - 148 {
            Some((8, read_u32(img, pe + 144) as usize))
        } else {
            None
        }
    } else {
        None
    }
}

/// The result of the import-descriptor scan that starts at descriptor offset
/// `off`: the `(IAT RVA, INT RVA)` pair of the first descriptor whose module
/// name equals `target`, walking descriptors until the terminator (a zero
/// Original First Thunk) or the end of the image. A module name that cannot
/// be decoded (no NUL before the image ends, or not UTF-8) stops the scan.
pub open spec fn spec_locate(img: Seq<u8>, off: int, target: Seq<u8>) -> Result<
    (nat, nat),
    ParseError,
>
    decreases img.len() - off when 0 <= off
{
    if off < 0 || off + IMPORT_DESCRIPTOR_SIZE > img.len() {
        Err(ParseError::ModuleNotFoundError)
    } else {
        let oft = le_at(img, off, 4);
        if oft == 0 {
            Err(ParseError::ModuleNotFoundError)
        } else {
            let name_rva = le_at(img, off + 12, 4);
            match cstr_at(img, name_rva as int) {
                None => Err(ParseError::GetModuleNameError),
                Some(name) => if !valid_utf8(name) {
                    Err(ParseError::GetModuleNameError)
                } else if name == target {
                    Ok((le_at(img, off + 16, 4), oft))
                } else {
                    spec_locate(img, off + IMPORT_DESCRIPTOR_SIZE, target)
                },
            }
        }
    }
}

/// Scan the import descriptors that start at `import_dir_rva` for the one
/// naming `target_module`, and return its `(IAT RVA, INT RVA)`.
pub fn locate_iat_and_int(img: &Vec<u8>, import_dir_rva: usize, target_module: &Vec<u8>) -> (r:
    Result<(usize, usize), ParseError>)
    ensures
        ({
            let s = spec_locate(img@, import_dir_rva as int, target_module@);
            &&& r is Ok <==> s is Ok
            &&& r is Ok ==> (r->Ok_0).0 == (s->Ok_0).0 && (r->Ok_0).1 == (s->Ok_0).1
            &&& r is Err ==> r->Err_0 == s->Err_0
        }),
{
    let n = img.len();
    let mut off: usize = import_dir_rva;
    loop
        invariant
            n == img@.len(),
            spec_locate(img@, import_dir_rva as int, target_module@) == spec_locate(
                img@,
                off as int,
                target_module@,
            ),
        decreases n - off,
    {
        if n < IMPORT_DESCRIPTOR_SIZE || off > n - IMPORT_DESCRIPTOR_SIZE {
            return Err(ParseError::ModuleNotFoundError);
        }
        let oft = read_u32(img, off);
        if oft == 0 {
            return Err(ParseError::ModuleNotFoundError);
        }
        let name_rva = read_u32(img, off + 12) as usize;
        proof {
            crate::bytes::lemma_le_at_bound(img@, off + 12, 4);
        }
        if name_rva > n {
            return Err(ParseError::GetModuleNameError);
        }
        let name = match read_cstr(img, name_rva) {
            Some(name) => name,
            None => {
                return Err(ParseError::GetModuleNameError);
            },
        };
        if !utf8_valid(&name) {
            return Err(ParseError::GetModuleNameError);
        }
        if eq_bytes(&name, target_module) {
            let iat_rva = read_u32(img, off + 16) as usize;
            return Ok((iat_rva, oft as usize));
        }
        off = off + IMPORT_DESCRIPTOR_SIZE;
    }
}

/// The ordinal flag of an INT entry: the entry's top bit. An entry with the
/// flag set names its import by ordinal, not by name.
pub open spec fn ordinal_flag(ptr_size: nat) -> nat {
    if ptr_size == 4 {
        0x8000_0000
    } else {
        0x8000_0000_0000_0000
    }
}

/// The result of the lockstep INT/IAT walk at entry offsets `int_off` and
/// `iat_off`: the RVA of the IAT slot parallel to the first INT entry that
/// names `target`, walking entries until the terminator (a zero INT entry) or
/// the end of the image. Ordinal imports carry no name and are skipped, so a
/// function only imported by ordinal is reported as not found. A function
/// name that cannot be decoded stops the walk.
pub open spec fn spec_find_slot(
    img: Seq<u8>,
    int_off: int,
    iat_off: int,
    ptr_size: nat,
    target: Seq<u8>,
) -> Result<nat, ParseError>
    decreases img.len() - int_off when 0 <= int_off && ptr_size >= 1
{
    if int_off < 0 || int_off + ptr_size > img.len() || iat_off < 0 || iat_off + ptr_size
        > usize::MAX {
        Err(ParseError::FunctionNotFoundError)
    } else {
        let thunk = le_at(img, int_off, ptr_size);
        if thunk == 0 {
            Err(ParseError::FunctionNotFoundError)
        } else if thunk >= ordinal_flag(ptr_size) {
            spec_find_slot(img, int_off + ptr_size, iat_off + ptr_size, ptr_size, target)
        } else {
            match cstr_at(img, thunk as int + 2) {
                None => Err(ParseError::GetFuncNameError),
                Some(name) => if !valid_utf8(name) {
                    Err(ParseError::GetFuncNameError)
                } else if name == target {
                    Ok(iat_off as nat)
                } else {
                    spec_find_slot(img, int_off + ptr_size, iat_off + ptr_size, ptr_size, target)
                },
            }
        }
    }
}

/// Walk the INT at `int_rva` and the IAT at `iat_rva` in lockstep for
/// `target_function`, and return the RVA of the matching IAT slot — the slot
/// itself, not its contents, since the trampoline installer must rewrite it.
pub fn get_func_address_in_iat(
    img: &Vec<u8>,
    int_rva: usize,
    iat_rva: usize,
    ptr_size: usize,
    target_function: &Vec<u8>,
) -> (r: Result<usize, ParseError>)
    requires
        ptr_size == 4 || ptr_size == 8,
    ensures
        ({
            let s = spec_find_slot(img@, int_rva as int, iat_rva as int, ptr_size as nat,
                target_function@);
            &&& r is Ok <==> s is Ok
            &&& r is Ok ==> r->Ok_0 == s->Ok_0
            &&& r is Err ==> r->Err_0 == s->Err_0
        }),
{
    let n = img.len();
    let mut int_off: usize = int_rva;
    let mut iat_off: usize = iat_rva;
    loop
        invariant
            n == img@.len(),
            ptr_size == 4 || ptr_size == 8,
            spec_find_slot(img@, int_rva as int, iat_rva as int, ptr_size as nat,
                target_function@) == spec_find_slot(img@, int_off as int, iat_off as int,
                ptr_size as nat, target_function@),
        decreases n - int_off,
    {
        if n < ptr_size || int_off > n - ptr_size {
            return Err(ParseError::FunctionNotFoundError);
        }
        if iat_off > usize::MAX - ptr_size {
            return Err(ParseError::FunctionNotFoundError);
        }
        let thunk: u64 = if ptr_size == 4 {
            read_u32(img, int_off) as u64
        } else {
            read_u64(img, int_off)
        };
        if thunk == 0 {
            return Err(ParseError::FunctionNotFoundError);
        }
        let is_ordinal: bool = if ptr_size == 4 {
            thunk >= 0x8000_0000u64
        } else {
            thunk >= 0x8000_0000_0000_0000u64
        };
        if !is_ordinal {
            proof {
                crate::bytes::lemma_le_at_bound(img@, int_off as int, ptr_size as nat);
            }
            if thunk > (n as u64) || n < 2 || (thunk as usize) > n - 2 {
                return Err(ParseError::GetFuncNameError);
            }
            let name = match read_cstr(img, (thunk as usize) + 2) {
                Some(name) => name,
                None => {
                    return Err(ParseError::GetFuncNameError);
                },
            };
            if !utf8_valid(&name) {
                return Err(ParseError::GetFuncNameError);
            }
            if eq_bytes(&name, target_function) {
                return Ok(iat_off);
            }
        }
        int_off = int_off + ptr_size;
        iat_off = iat_off + ptr_size;
    }
}

/// Number of INT entries the import walk examines from `int_off` before it
/// stops at the terminator or at the image's end; the lockstep walk of
/// `spec_find_slot` recurses at most this many times.
pub open spec fn walk_visits(img: Seq<u8>, int_off: int, ptr_size: nat) -> nat
    decreases img.len() - int_off when 0 <= int_off && ptr_size >= 1
{
    if int_off < 0 || int_off + ptr_size > img.len() {
        0
    } else if le_at(img, int_off, ptr_size) == 0 {
        0
    } else {
        1 + walk_visits(img, int_off + ptr_size, ptr_size)
    }
}

/// Import table walk termination bound: the walk visits at most the entries
/// up to the first zero INT slot. If the INT entry `k` steps from the start
/// reads zero, at most `k` entries are visited.
pub proof fn lemma_walk_visits_bounded(img: Seq<u8>, int_off: int, ptr_size: nat, k: nat)
    requires
        ptr_size >= 1,
        0 <= int_off,
        int_off + ptr_size * k + ptr_size <= img.len(),
        le_at(img, int_off + ptr_size * k, ptr_size) == 0,
    ensures
        walk_visits(img, int_off, ptr_size) <= k,
    decreases k,
{
    if k == 0 {
        assert(ptr_size * k == 0) by (nonlinear_arith)
            requires k == 0;
        assert(walk_visits(img, int_off, ptr_size) == 0);
    } else {
        if int_off + ptr_size > img.len() || le_at(img, int_off, ptr_size) == 0 {
        } else {
            assert(ptr_size * k == ptr_size + ptr_size * (k - 1)) by (nonlinear_arith);
            assert(int_off + ptr_size + ptr_size * (k - 1) + ptr_size <= img.len());
            lemma_walk_visits_bounded(img, int_off + ptr_size, ptr_size, (k - 1) as nat);
        }
    }
}

/// The whole payload-side walk: parse the host image's headers, locate the
/// import descriptor of `target_module`, then walk its INT/IAT for
/// `target_function`, returning the RVA of the function's IAT slot. An image
/// whose headers are malformed carries no import of the module, and is
/// reported as module-not-found.
pub open spec fn spec_begin_hooking(img: Seq<u8>, module: Seq<u8>, function: Seq<u8>) -> Result<
    nat,
    ParseError,
> {
    match spec_pe_layout(img) {
        None => Err(ParseError::ModuleNotFoundError),
        Some(layout) => match spec_locate(img, layout.1 as int, module) {
            Err(e) => Err(e),
            Ok(tables) => spec_find_slot(img, tables.1 as int, tables.0 as int, layout.0,
                function),
        },
    }
}

/// Find the IAT slot of `(target_module, target_function)` in the hosting
/// image. This is the payload's work on attach; the caller installs the hook
/// at the returned slot.
pub fn begin_hooking(img: &Vec<u8>, target_module: &Vec<u8>, target_function: &Vec<u8>) -> (r:
    Result<usize, ParseError>)
    ensures
        ({
            let s = spec_begin_hooking(img@, target_module@, target_function@);
            &&& r is Ok <==> s is Ok
            &&& r is Ok ==> r->Ok_0 == s->Ok_0
            &&& r is Err ==> r->Err_0 == s->Err_0
        }),
{
    let (ptr_size, import_dir_rva) = match get_import_directory_addr(img) {
        Some(layout) => layout,
        None => {
            return Err(ParseError::ModuleNotFoundError);
        },
    };
    let (iat_rva, int_rva) = match locate_iat_and_int(img, import_dir_rva, target_module) {
        Ok(tables) => tables,
        Err(e) => {
            return Err(e);
        },
    };
    get_func_address_in_iat(img, int_rva, iat_rva, ptr_size, target_function)
}

/// Trampoline installation hook point. The swap itself is deliberately not
/// designed here: the function leaves the slot untouched and reports no
/// previous address.
#[allow(unused_variables)]
pub fn perform_hook(iat: usize) -> (r: usize)
    ensures
        r == 0,
{
    0
}

/// Replacement function the trampoline would dispatch to. Like the trampoline
/// itself it is deliberately empty: it performs no work and reports nothing.
#[allow(unused_variables)]
pub fn hook_function(arg: usize) -> (r: usize)
    ensures
        r == 0,
{
    0
}

} // verus!
