use vstd::prelude::*;

verus! {

/// Guest general-purpose register save area pushed by the VM-exit entry stub.
///
/// The field order matches the push order of the entry stub exactly.
#[derive(Debug, Clone, Copy, Default, PartialEq, Eq)]
pub struct GuestContext {
    pub rax: u64,
    pub rcx: u64,
    pub rdx: u64,
    pub rbx: u64,
    pub rbp: u64,
    pub rsi: u64,
    pub rdi: u64,
    pub r8: u64,
    pub r9: u64,
    pub r10: u64,
    pub r11: u64,
    pub r12: u64,
    pub r13: u64,
    pub r14: u64,
    pub r15: u64,
}

/// Number of general-purpose registers saved by the VM-exit entry stub.
pub const GUEST_CONTEXT_GPR_COUNT: usize = 15;

} // verus!
