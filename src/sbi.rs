//! Answers to the environment calls a loaded kernel makes, and where the
//! trapped hart resumes.
use vstd::prelude::*;

verus! {

pub const SBI_EXT_LEGACY_CONSOLE_PUTCHAR: u64 = 0x01;
pub const SBI_EXT_BASE: u64 = 0x10;
pub const SBI_EXT_TIMER: u64 = 0x5449_4d45;
pub const SBI_EXT_SYSTEM_RESET: u64 = 0x5352_5354;
pub const SBI_EXT_VENDOR: u64 = 0x444e_4942;
pub const SBI_SUCCESS: u64 = 0;
/// SBI_ERR_NOT_SUPPORTED, -2 as a register value.
pub const SBI_ERR_NOT_SUPPORTED: u64 = 0xffff_ffff_ffff_fffe;
/// The value a console read returns when no byte is waiting, -1.
pub const SBI_NO_INPUT: u64 = 0xffff_ffff_ffff_ffff;
pub const SBI_SPEC_VERSION: u64 = 2;
/// "RSSB".
pub const SBI_IMPL_ID: u64 = 0x5253_5342;
pub const SBI_IMPL_VERSION: u64 = 1;
/// Exception causes handled here.
pub const CAUSE_INSTRUCTION_ACCESS_FAULT: u64 = 0x1;
pub const CAUSE_SUPERVISOR_ECALL: u64 = 0x9;
pub const CAUSE_MACHINE_ECALL: u64 = 0xb;

/// The `(error, value)` pair an SBI call returns in a0 and a1.
pub type SbiRet = (u64, u64);

/// What a trap comes to.
#[derive(Debug, Clone, Copy)]
pub enum TrapAction {
    /// Resume at `pc` with `ret` in a0/a1, after printing `output`.
    Resume { pc: u64, ret: SbiRet, output: Option<u8> },
    /// Resume at `pc`, registers untouched.
    Skip { pc: u64 },
    /// Power the machine off.
    Shutdown,
}

pub open spec fn not_supported() -> SbiRet {
    (SBI_ERR_NOT_SUPPORTED, 0)
}

/// The address after the 4-byte instruction at `pc`.
pub open spec fn past(pc: u64) -> u64 {
    ((pc + 4) % 0x1_0000_0000_0000_0000) as u64
}

pub open spec fn console_reply(function_id: u64, arg0: u64) -> (SbiRet, Option<u8>) {
    if function_id == 0 {
        ((SBI_SUCCESS, 0), Some((arg0 % 256) as u8))
    } else if function_id == 1 {
        ((SBI_SUCCESS, SBI_NO_INPUT), None)
    } else {
        (not_supported(), None)
    }
}

pub open spec fn base_reply(function_id: u64) -> SbiRet {
    if function_id == 0 {
        (SBI_SUCCESS, SBI_SPEC_VERSION)
    } else if function_id == 1 {
        (SBI_SUCCESS, SBI_IMPL_ID)
    } else if function_id == 2 {
        (SBI_SUCCESS, SBI_IMPL_VERSION)
    } else {
        not_supported()
    }
}

pub open spec fn timer_reply(function_id: u64) -> SbiRet {
    if function_id == 0 {
        (SBI_SUCCESS, 0)
    } else {
        not_supported()
    }
}

/// The answer to an SBI call with extension id `ext` (a7) and function id
/// `fid` (a6): system reset powers off; console, base and timer calls are
/// answered; anything else is not supported. The hart resumes past the
/// `ecall`.
pub open spec fn sbi_action(ext: u64, fid: u64, arg0: u64, mepc: u64) -> TrapAction {
    if ext == SBI_EXT_SYSTEM_RESET {
        TrapAction::Shutdown
    } else if ext == SBI_EXT_LEGACY_CONSOLE_PUTCHAR {
        TrapAction::Resume { pc: past(mepc), ret: console_reply(fid, arg0).0, output: console_reply(fid, arg0).1 }
    } else if ext == SBI_EXT_BASE {
        TrapAction::Resume { pc: past(mepc), ret: base_reply(fid), output: None }
    } else if ext == SBI_EXT_TIMER {
        TrapAction::Resume { pc: past(mepc), ret: timer_reply(fid), output: None }
    } else {
        TrapAction::Resume { pc: past(mepc), ret: not_supported(), output: None }
    }
}

/// What a trap with cause `mcause` at `mepc` comes to.
pub open spec fn trap_action(mcause: u64, mepc: u64, a0: u64, a6: u64, a7: u64) -> TrapAction {
    let cause = mcause % 0x8000_0000;
    if cause == CAUSE_SUPERVISOR_ECALL {
        sbi_action(a7, a6, a0, mepc)
    } else if cause == CAUSE_MACHINE_ECALL || cause == CAUSE_INSTRUCTION_ACCESS_FAULT {
        TrapAction::Skip { pc: past(mepc) }
    } else {
        TrapAction::Shutdown
    }
}

/// Legacy console: function 0 prints the low byte of `arg0`, function 1
/// reads (no input is ever waiting).
pub fn handle_console_extension(function_id: u64, arg0: u64, _arg1: u64) -> (r: (SbiRet, Option<u8>))
    ensures
        r == console_reply(function_id, arg0),
{
    if function_id == 0 {
        ((SBI_SUCCESS, 0), Some((arg0 % 256) as u8))
    } else if function_id == 1 {
        ((SBI_SUCCESS, SBI_NO_INPUT), None)
    } else {
        ((SBI_ERR_NOT_SUPPORTED, 0), None)
    }
}

/// Base extension: spec version, implementation id, implementation version.
pub fn handle_base_extension(function_id: u64, _arg0: u64, _arg1: u64) -> (r: SbiRet)
    ensures
        r == base_reply(function_id),
{
    if function_id == 0 {
        (SBI_SUCCESS, SBI_SPEC_VERSION)
    } else if function_id == 1 {
        (SBI_SUCCESS, SBI_IMPL_ID)
    } else if function_id == 2 {
        (SBI_SUCCESS, SBI_IMPL_VERSION)
    } else {
        (SBI_ERR_NOT_SUPPORTED, 0)
    }
}

/// Timer: function 0 sets the timer, which this platform accepts.
pub fn handle_timer_extension(function_id: u64, _arg0: u64, _arg1: u64) -> (r: SbiRet)
    ensures
        r == timer_reply(function_id),
{
    if function_id == 0 {
        (SBI_SUCCESS, 0)
    } else {
        (SBI_ERR_NOT_SUPPORTED, 0)
    }
}

/// Vendor calls are not implemented.
pub fn handle_vendor_extension(_function_id: u64, _arg0: u64, _arg1: u64) -> (r: SbiRet)
    ensures
        r == not_supported(),
{
    (SBI_ERR_NOT_SUPPORTED, 0)
}

/// An environment call from supervisor mode, dispatched on the extension
/// id in a7; the hart resumes past the `ecall`.
pub fn handle_sbi_call_direct(extension_id: u64, function_id: u64, arg0: u64, arg1: u64, mepc: u64) -> (r: TrapAction)
    ensures
        r == sbi_action(extension_id, function_id, arg0, mepc),
{
    let pc = mepc.wrapping_add(4);
    if extension_id == SBI_EXT_SYSTEM_RESET {
        return TrapAction::Shutdown;
    }
    if extension_id == SBI_EXT_LEGACY_CONSOLE_PUTCHAR {
        let (ret, output) = handle_console_extension(function_id, arg0, arg1);
        return TrapAction::Resume { pc, ret, output };
    }
    let ret = if extension_id == SBI_EXT_BASE {
        handle_base_extension(function_id, arg0, arg1)
    } else if extension_id == SBI_EXT_TIMER {
        handle_timer_extension(function_id, arg0, arg1)
    } else if extension_id == SBI_EXT_VENDOR {
        handle_vendor_extension(function_id, arg0, arg1)
    } else {
        (SBI_ERR_NOT_SUPPORTED, 0)
    };
    TrapAction::Resume { pc, ret, output: None }
}

/// An `ecall` from machine mode: skip it.
pub fn handle_mmode_ecall_direct(mepc: u64) -> (r: TrapAction)
    ensures
        r == (TrapAction::Skip { pc: past(mepc) }),
{
    TrapAction::Skip { pc: mepc.wrapping_add(4) }
}

/// Any other trap: an instruction access fault is stepped over, anything
/// else shuts the machine down.
pub fn handle_unknown_trap_direct(mcause: u64, mepc: u64) -> (r: TrapAction)
    ensures
        mcause % 0x8000_0000 == CAUSE_INSTRUCTION_ACCESS_FAULT ==> r == (TrapAction::Skip {
            pc: past(mepc),
        }),
        mcause % 0x8000_0000 != CAUSE_INSTRUCTION_ACCESS_FAULT ==> r == TrapAction::Shutdown,
{
    if mcause % 0x8000_0000 == CAUSE_INSTRUCTION_ACCESS_FAULT {
        TrapAction::Skip { pc: mepc.wrapping_add(4) }
    } else {
        TrapAction::Shutdown
    }
}

/// Dispatches a trap on its cause (the low 31 bits of mcause), given the
/// argument registers a0, a1, a6 and a7.
pub fn handle_trap(mcause: u64, mepc: u64, a0: u64, a1: u64, a6: u64, a7: u64) -> (r: TrapAction)
    ensures
        r == trap_action(mcause, mepc, a0, a6, a7),
{
    let cause = mcause % 0x8000_0000;
    if cause == CAUSE_SUPERVISOR_ECALL {
        handle_sbi_call_direct(a7, a6, a0, a1, mepc)
    } else if cause == CAUSE_MACHINE_ECALL {
        handle_mmode_ecall_direct(mepc)
    } else {
        handle_unknown_trap_direct(mcause, mepc)
    }
}

} // verus!
