//! The boot sequence and the kernel's interrupt-driven step function: build
//! and load the interrupt vector table, program the interrupt controllers,
//! enable interrupts, and thereafter route every hardware interrupt or CPU
//! fault to its handler. Once a fatal fault halts the processor, nothing is
//! observed afterward.

use crate::interrupts;
use crate::interrupts::{
    complete, disposition, eoi_writes, exception_log_message, has_error_code, severity,
    ChainedPics, Disposition, Exception, Idt, PIC_1_OFFSET, PIC_2_OFFSET, PRIMARY_POLICY_MASK,
    SECONDARY_POLICY_MASK,
};
use crate::logger::{appended, Level, Log, Logger};
use crate::scheduler::{tick_post, Scheduler};
use vstd::prelude::*;

verus! {

/// The kernel's interrupt-relevant state: the vector table, the controller
/// pair, the scheduler, the monotonic tick counter, the log buffer, and
/// whether a fatal fault has permanently halted the processor.
pub struct Kernel {
    pub idt: Idt,
    pub pics: ChainedPics,
    pub scheduler: Scheduler,
    pub ticks: u64,
    pub logger: Logger,
    pub halted: bool,
}

impl Kernel {
    /// The vector table covers everything the hardware can raise and the
    /// scheduler's invariants hold.
    pub open spec fn wf(self) -> bool {
        &&& complete(self.idt)
        &&& self.scheduler.wf()
    }
}

/// What one timer interrupt does to the kernel: nothing at all on a halted
/// processor; otherwise the tick counter advances (wrapping), the scheduler
/// performs exactly one tick, the interrupt is acknowledged, and nothing
/// else changes.
pub open spec fn timer_post(pre: Kernel, post: Kernel, writes: Seq<(u16, u8)>) -> bool {
    if pre.halted {
        post == pre && writes == Seq::<(u16, u8)>::empty()
    } else {
        &&& tick_post(pre.scheduler, post.scheduler)
        &&& post.ticks == (if pre.ticks == u64::MAX {
            0u64
        } else {
            (pre.ticks + 1) as u64
        })
        &&& writes == eoi_writes(pre.pics, 32)
        &&& post.idt == pre.idt
        &&& post.pics == pre.pics
        &&& post.logger == pre.logger
        &&& post.halted == pre.halted
    }
}

/// What one synchronous exception does to the kernel: nothing on a halted
/// processor; otherwise the fault is classified and logged, the processor
/// halts exactly when the classification is fatal, and the fatal entry —
/// which bypasses the buffer — is handed back for synchronous transmission.
pub open spec fn exception_post(
    pre: Kernel,
    post: Kernel,
    e: Exception,
    code: Option<u64>,
    fatal: Option<Log>,
) -> bool {
    if pre.halted {
        post == pre && fatal is None
    } else {
        &&& post.halted == (disposition(e) is Halt)
        &&& (disposition(e) is Resume ==> fatal is None && appended(
            pre.logger.logs@,
            post.logger.logs@,
            severity(e),
            exception_log_message(e, code),
        ))
        &&& (disposition(e) is Halt ==> post.logger == pre.logger && (fatal matches Some(log)
            && log.level == Level::Fatal && log.message@ == exception_log_message(e, code)))
        &&& post.idt == pre.idt
        &&& post.pics == pre.pics
        &&& post.scheduler == pre.scheduler
        &&& post.ticks == pre.ticks
    }
}

impl Kernel {
    /// One timer interrupt.
    pub fn timer_interrupt(&mut self) -> (writes: Vec<(u16, u8)>)
        requires
            old(self).wf(),
        ensures
            final(self).wf(),
            timer_post(*old(self), *final(self), writes@),
    {
        if self.halted {
            return Vec::new();
        }
        interrupts::timer_handler(&mut self.scheduler, &mut self.ticks, &self.pics)
    }

    /// One keyboard interrupt. The keyboard driver's interpretation step is
    /// an external collaborator the shell invokes first; the kernel decides
    /// the acknowledgement. A halted processor acknowledges nothing.
    pub fn keyboard_interrupt(&self) -> (writes: Vec<(u16, u8)>)
        ensures
            self.halted ==> writes@ == Seq::<(u16, u8)>::empty(),
            !self.halted ==> writes@ == eoi_writes(self.pics, 33),
    {
        if self.halted {
            return Vec::new();
        }
        interrupts::keyboard_handler(&self.pics)
    }

    /// One serial-receive interrupt. `interpreted` reports whether the
    /// serial console's interpretation step succeeded; a failure is fatal
    /// and the interrupt is not acknowledged.
    pub fn serial_interrupt(&self, interpreted: bool) -> (r: Option<Vec<(u16, u8)>>)
        ensures
            self.halted ==> (r matches Some(w) && w@ == Seq::<(u16, u8)>::empty()),
            !self.halted ==> {
                &&& (interpreted <==> r is Some)
                &&& (r matches Some(w) ==> w@ == eoi_writes(self.pics, 36))
            },
    {
        if self.halted {
            return Some(Vec::new());
        }
        interrupts::serial_handler(interpreted, &self.pics)
    }

    /// One synchronous CPU exception: classify, log, and halt the processor
    /// exactly when the condition is fatal. The returned Fatal entry, if
    /// any, must be transmitted synchronously out of band.
    pub fn exception(&mut self, e: Exception, code: Option<u64>) -> (fatal: Option<Log>)
        requires
            old(self).wf(),
            code is Some <==> has_error_code(e),
        ensures
            final(self).wf(),
            exception_post(*old(self), *final(self), e, code, fatal),
    {
        if self.halted {
            return None;
        }
        let (d, fatal) = interrupts::handle_exception(e, code, &mut self.logger);
        match d {
            Disposition::Halt => {
                self.halted = true;
            },
            Disposition::Resume => {},
        }
        fatal
    }

    /// The monotonic tick counter, for preemption cadence and coarse
    /// elapsed-time reading.
    pub fn get_ticks(&self) -> (t: u64)
        ensures
            t == self.ticks,
    {
        self.ticks
    }
}

/// The boot sequence: build the complete vector table, hand it to the CPU,
/// program the interrupt controllers to the remapped offsets and the
/// extended-configuration masks, then enable interrupts. Returns the
/// running kernel and the exact port writes the shell must perform.
pub fn run() -> (r: (Kernel, Vec<(u16, u8)>))
    ensures
        r.0.wf(),
        r.0.idt.state is Active,
        r.0.pics.primary_offset == PIC_1_OFFSET,
        r.0.pics.secondary_offset == PIC_2_OFFSET,
        r.0.pics.primary_mask == PRIMARY_POLICY_MASK,
        r.0.pics.secondary_mask == SECONDARY_POLICY_MASK,
        r.0.scheduler.table@.len() == 0,
        r.0.scheduler.active is None,
        r.0.ticks == 0,
        r.0.logger.logs@.len() == 0,
        !r.0.halted,
        r.1@ == interrupts::pic_init_writes(PIC_1_OFFSET, PIC_2_OFFSET, 0xFF, 0xFF) + seq![
            (interrupts::PIC_1_DATA, PRIMARY_POLICY_MASK),
            (interrupts::PIC_2_DATA, SECONDARY_POLICY_MASK),
        ],
{
    let (mut idt, pics, writes) = interrupts::initialize();
    idt.activate();
    let kernel = Kernel {
        idt,
        pics,
        scheduler: Scheduler::new(),
        ticks: 0,
        logger: Logger::new(),
        halted: false,
    };
    (kernel, writes)
}

/// Law: a double-fault invocation always takes the halt path — the fatal
/// entry is emitted out of band and the processor is halted — and no
/// further tick is observed afterward: a subsequent timer interrupt changes
/// nothing and acknowledges nothing.
pub proof fn lemma_double_fault_halts(
    pre: Kernel,
    post: Kernel,
    code: Option<u64>,
    fatal: Option<Log>,
    after_tick: Kernel,
    writes: Seq<(u16, u8)>,
)
    requires
        !pre.halted,
        exception_post(pre, post, Exception::DoubleFault, code, fatal),
        timer_post(post, after_tick, writes),
    ensures
        post.halted,
        fatal is Some,
        after_tick == post,
        after_tick.ticks == post.ticks,
        writes == Seq::<(u16, u8)>::empty(),
{
}

} // verus!
