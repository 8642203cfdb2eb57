//! The process model: one schedulable unit of execution, its execution
//! state, and the fixed-layout snapshot of its CPU registers.

use vstd::prelude::*;

verus! {

/// Execution state of a process. Running means eligible for CPU time on the
/// next scheduling decision; Stopped means retained in the table but never
/// dispatched.
#[derive(Clone, Copy, PartialEq, Eq, Structural, Debug)]
pub enum State {
    Running,
    Stopped,
}

/// An exact snapshot of every general-purpose register plus the instruction
/// pointer and the flags register at the moment a process was last
/// suspended. The field order matches the raw save/restore routine's layout
/// and must not be reordered.
#[derive(Clone, Copy, PartialEq, Eq, Structural, Debug)]
pub struct Context {
    pub rax: u64,
    pub rbx: u64,
    pub rcx: u64,
    pub rdx: u64,
    pub rsi: u64,
    pub rdi: u64,
    pub rsp: u64,
    pub rbp: u64,
    pub r8: u64,
    pub r9: u64,
    pub r10: u64,
    pub r11: u64,
    pub r12: u64,
    pub r13: u64,
    pub r14: u64,
    pub r15: u64,
    pub rip: u64,
    pub rflags: u64,
}

impl Context {
    /// Every register, the instruction pointer and the flags are zero.
    pub open spec fn is_zeroed(self) -> bool {
        &&& self.rax == 0
        &&& self.rbx == 0
        &&& self.rcx == 0
        &&& self.rdx == 0
        &&& self.rsi == 0
        &&& self.rdi == 0
        &&& self.rsp == 0
        &&& self.rbp == 0
        &&& self.r8 == 0
        &&& self.r9 == 0
        &&& self.r10 == 0
        &&& self.r11 == 0
        &&& self.r12 == 0
        &&& self.r13 == 0
        &&& self.r14 == 0
        &&& self.r15 == 0
        &&& self.rip == 0
        &&& self.rflags == 0
    }
}

impl Default for Context {
    /// The zero-initialized register snapshot a fresh process starts with.
    fn default() -> (c: Context)
        ensures
            c.is_zeroed(),
    {
        Context {
            rax: 0,
            rbx: 0,
            rcx: 0,
            rdx: 0,
            rsi: 0,
            rdi: 0,
            rsp: 0,
            rbp: 0,
            r8: 0,
            r9: 0,
            r10: 0,
            r11: 0,
            r12: 0,
            r13: 0,
            r14: 0,
            r15: 0,
            rip: 0,
            rflags: 0,
        }
    }
}

/// Identity and scheduling metadata for one unit of execution. Uniqueness
/// of identifiers among live processes is the scheduler's responsibility,
/// not the process's.
pub struct Process {
    pub id: u64,
    pub context: Context,
    pub name: String,
    pub state: State,
}

impl Process {
    /// A new process with a zeroed register context.
    pub fn new(id: u64, name: &str, state: State) -> (p: Process)
        ensures
            p.id == id,
            p.name@ == name@,
            p.state == state,
            p.context.is_zeroed(),
    {
        Process { id, context: Context::default(), name: String::from_str(name), state }
    }

    /// Numeric identifier of this process.
    pub fn get_id(&self) -> (id: u64)
        ensures
            id == self.id,
    {
        self.id
    }

    /// Human-readable name of this process.
    pub fn get_name(&self) -> (name: &str)
        ensures
            name@ == self.name@,
    {
        self.name.as_str()
    }

    /// Replace the identifier; nothing else changes.
    pub fn set_id(&mut self, id: u64)
        ensures
            final(self).id == id,
            final(self).context == old(self).context,
            final(self).name == old(self).name,
            final(self).state == old(self).state,
    {
        self.id = id;
    }

    /// Replace the execution state; nothing else changes.
    pub fn set_state(&mut self, state: State)
        ensures
            final(self).state == state,
            final(self).id == old(self).id,
            final(self).context == old(self).context,
            final(self).name == old(self).name,
    {
        self.state = state;
    }

    /// Boundary of the raw context-switch routine: overwrite this process's
    /// saved context with the outgoing CPU state.
    pub fn save_context(&mut self, cpu: &Context)
        ensures
            final(self).context == *cpu,
            final(self).id == old(self).id,
            final(self).name == old(self).name,
            final(self).state == old(self).state,
    {
        self.context = *cpu;
    }

    /// Boundary of the raw context-switch routine: load this process's saved
    /// context into the CPU state.
    pub fn restore_context(&self, cpu: &mut Context)
        ensures
            *final(cpu) == self.context,
    {
        *cpu = self.context;
    }
}

/// Law: saving a register context and immediately restoring it, with no
/// intervening mutation, leaves every field byte-identical — every
/// general-purpose register, the instruction pointer and the flags.
pub proof fn lemma_context_round_trip(saved: Context, restored: Context)
    requires
        restored == saved,
    ensures
        restored.rax == saved.rax,
        restored.rbx == saved.rbx,
        restored.rcx == saved.rcx,
        restored.rdx == saved.rdx,
        restored.rsi == saved.rsi,
        restored.rdi == saved.rdi,
        restored.rsp == saved.rsp,
        restored.rbp == saved.rbp,
        restored.r8 == saved.r8,
        restored.r9 == saved.r9,
        restored.r10 == saved.r10,
        restored.r11 == saved.r11,
        restored.r12 == saved.r12,
        restored.r13 == saved.r13,
        restored.r14 == saved.r14,
        restored.r15 == saved.r15,
        restored.rip == saved.rip,
        restored.rflags == saved.rflags,
{
}

} // verus!
