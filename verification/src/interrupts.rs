//! The interrupt-dispatch core: the classifier for every synchronous CPU
//! exception vector, the interrupt vector table and its build/load/activate
//! state machine, the driver model of the two chained legacy 8-bit
//! interrupt controllers, and the thin device dispatch handlers for the
//! timer, keyboard and serial-receive vectors.
//!
//! Hardware port writes are not performed here: every operation returns the
//! exact `(port, value)` sequence the unverified shell must write, in
//! order, and the contracts pin that sequence down byte for byte.

use crate::logger::{appended, Level, Log, Logger};
use crate::scheduler::{tick_post, Scheduler};
use crate::text::{hex_seq, u64_to_hex};
use vstd::prelude::*;

verus! {

/// Base vector of the primary interrupt controller after remapping.
pub const PIC_1_OFFSET: u8 = 32;

/// Base vector of the secondary interrupt controller after remapping.
pub const PIC_2_OFFSET: u8 = PIC_1_OFFSET + 8;

/// Command port of the primary controller.
pub const PIC_1_COMMAND: u16 = 0x20;

/// Data port of the primary controller.
pub const PIC_1_DATA: u16 = 0x21;

/// Command port of the secondary controller.
pub const PIC_2_COMMAND: u16 = 0xA0;

/// Data port of the secondary controller.
pub const PIC_2_DATA: u16 = 0xA1;

/// Port written with garbage between initialization bytes, as a delay.
pub const WAIT_PORT: u16 = 0x80;

/// Command byte that begins the controller initialization sequence.
pub const CMD_INIT: u8 = 0x11;

/// Command byte that acknowledges end of interrupt.
pub const CMD_END_OF_INTERRUPT: u8 = 0x20;

/// Mode byte selecting the controllers' 8086 mode.
pub const MODE_8086: u8 = 0x01;

/// Mask for the primary controller in the extended configuration: timer
/// (line 0), keyboard (line 1), the cascade from the secondary controller
/// (line 2) and the first serial port (line 4) unmasked, all others masked
/// (1 = masked).
pub const PRIMARY_POLICY_MASK: u8 = 0b1110_1000;

/// Mask for the secondary controller in the extended configuration: every
/// line masked.
pub const SECONDARY_POLICY_MASK: u8 = 0b1111_1111;

/// The synchronous CPU exception vectors the target architecture defines.
#[derive(Clone, Copy, PartialEq, Eq, Structural, Debug)]
pub enum Exception {
    DivideError,
    Debug,
    NonMaskableInterrupt,
    Breakpoint,
    Overflow,
    BoundRangeExceeded,
    InvalidOpcode,
    DeviceNotAvailable,
    DoubleFault,
    InvalidTss,
    SegmentNotPresent,
    StackSegmentFault,
    GeneralProtectionFault,
    PageFault,
    X87FloatingPoint,
    AlignmentCheck,
    MachineCheck,
    SimdFloatingPoint,
    Virtualization,
    ControlProtection,
    HypervisorInjection,
    VmmCommunication,
    Security,
}

/// What a fault handler does after logging: resume the faulting context, or
/// halt the processor permanently.
#[derive(Clone, Copy, PartialEq, Eq, Structural, Debug)]
pub enum Disposition {
    Resume,
    Halt,
}

/// The architectural vector number of each exception.
pub open spec fn exception_vector(e: Exception) -> int {
    match e {
        Exception::DivideError => 0,
        Exception::Debug => 1,
        Exception::NonMaskableInterrupt => 2,
        Exception::Breakpoint => 3,
        Exception::Overflow => 4,
        Exception::BoundRangeExceeded => 5,
        Exception::InvalidOpcode => 6,
        Exception::DeviceNotAvailable => 7,
        Exception::DoubleFault => 8,
        Exception::InvalidTss => 10,
        Exception::SegmentNotPresent => 11,
        Exception::StackSegmentFault => 12,
        Exception::GeneralProtectionFault => 13,
        Exception::PageFault => 14,
        Exception::X87FloatingPoint => 16,
        Exception::AlignmentCheck => 17,
        Exception::MachineCheck => 18,
        Exception::SimdFloatingPoint => 19,
        Exception::Virtualization => 20,
        Exception::ControlProtection => 21,
        Exception::HypervisorInjection => 28,
        Exception::VmmCommunication => 29,
        Exception::Security => 30,
    }
}

/// Whether the architecture pushes an error code for this exception.
pub open spec fn has_error_code(e: Exception) -> bool {
    match e {
        Exception::DoubleFault => true,
        Exception::InvalidTss => true,
        Exception::SegmentNotPresent => true,
        Exception::StackSegmentFault => true,
        Exception::GeneralProtectionFault => true,
        Exception::PageFault => true,
        Exception::AlignmentCheck => true,
        Exception::ControlProtection => true,
        Exception::VmmCommunication => true,
        Exception::Security => true,
        _ => false,
    }
}

/// Log severity of each exception: debug traps lowest, the breakpoint trap
/// a warning, fatal conditions highest, everything else an error.
pub open spec fn severity(e: Exception) -> Level {
    match e {
        Exception::Debug => Level::Debug,
        Exception::Breakpoint => Level::Warn,
        Exception::DoubleFault => Level::Fatal,
        Exception::MachineCheck => Level::Fatal,
        _ => Level::Error,
    }
}

/// Whether the condition is loggable-and-resumable or fatal. Only a double
/// fault and a machine check halt the processor.
pub open spec fn disposition(e: Exception) -> Disposition {
    match e {
        Exception::DoubleFault => Disposition::Halt,
        Exception::MachineCheck => Disposition::Halt,
        _ => Disposition::Resume,
    }
}

/// The base message each exception is logged with.
pub open spec fn exception_message(e: Exception) -> Seq<char> {
    match e {
        Exception::DivideError => "Division error was thrown"@,
        Exception::Debug => "Debug exception was thrown"@,
        Exception::NonMaskableInterrupt => "Non-Maskable Interrupt (NMI) was thrown"@,
        Exception::Breakpoint => "Breakpoint exception was thrown"@,
        Exception::Overflow => "Overflow exception was thrown"@,
        Exception::BoundRangeExceeded => "Bound range exceeded exception was thrown"@,
        Exception::InvalidOpcode => "Invalid opcode exception was thrown"@,
        Exception::DeviceNotAvailable => "Device not available exception was thrown"@,
        Exception::DoubleFault => "Double fault was thrown"@,
        Exception::InvalidTss => "Invalid TSS exception was thrown"@,
        Exception::SegmentNotPresent => "Segment not present exception was thrown"@,
        Exception::StackSegmentFault => "Stack segment fault was thrown"@,
        Exception::GeneralProtectionFault => "General protection fault was thrown"@,
        Exception::PageFault => "Page fault was thrown"@,
        Exception::X87FloatingPoint => "x87 floating point exception was thrown"@,
        Exception::AlignmentCheck => "Alignment check exception was thrown"@,
        Exception::MachineCheck => "Machine check exception was thrown"@,
        Exception::SimdFloatingPoint => "SIMD floating point exception was thrown"@,
        Exception::Virtualization => "Virtualization exception was thrown"@,
        Exception::ControlProtection => "Control protection exception was thrown"@,
        Exception::HypervisorInjection => "Hypervisor injection exception was thrown"@,
        Exception::VmmCommunication => "VMM communication exception was thrown"@,
        Exception::Security => "Security exception was thrown"@,
    }
}

/// The full log message: the base message, and the hardware-supplied error
/// code in hexadecimal where the architecture provides one.
pub open spec fn exception_log_message(e: Exception, code: Option<u64>) -> Seq<char> {
    match code {
        Some(c) => exception_message(e) + " (code 0x"@ + hex_seq(c as nat) + ")"@,
        None => exception_message(e),
    }
}

/// The architectural vector number of each exception.
pub fn vector_of(e: Exception) -> (v: u8)
    ensures
        v as int == exception_vector(e),
{
    match e {
        Exception::DivideError => 0,
        Exception::Debug => 1,
        Exception::NonMaskableInterrupt => 2,
        Exception::Breakpoint => 3,
        Exception::Overflow => 4,
        Exception::BoundRangeExceeded => 5,
        Exception::InvalidOpcode => 6,
        Exception::DeviceNotAvailable => 7,
        Exception::DoubleFault => 8,
        Exception::InvalidTss => 10,
        Exception::SegmentNotPresent => 11,
        Exception::StackSegmentFault => 12,
        Exception::GeneralProtectionFault => 13,
        Exception::PageFault => 14,
        Exception::X87FloatingPoint => 16,
        Exception::AlignmentCheck => 17,
        Exception::MachineCheck => 18,
        Exception::SimdFloatingPoint => 19,
        Exception::Virtualization => 20,
        Exception::ControlProtection => 21,
        Exception::HypervisorInjection => 28,
        Exception::VmmCommunication => 29,
        Exception::Security => 30,
    }
}

/// Classify and log one synchronous exception. A resumable condition is
/// buffered at its severity and the first component of the result says to
/// resume; a fatal condition (double fault, machine check) leaves the
/// buffer untouched and hands back the Fatal entry for synchronous
/// out-of-band transmission, and the first component says to halt.
pub fn handle_exception(e: Exception, code: Option<u64>, logger: &mut Logger) -> (r: (
    Disposition,
    Option<Log>,
))
    requires
        code is Some <==> has_error_code(e),
    ensures
        r.0 == disposition(e),
        disposition(e) is Resume ==> r.1 is None && appended(
            old(logger).logs@,
            final(logger).logs@,
            severity(e),
            exception_log_message(e, code),
        ),
        disposition(e) is Halt ==> *final(logger) == *old(logger) && (r.1 matches Some(log)
            && log.level == Level::Fatal && log.message@ == exception_log_message(e, code)),
{
    let base = match e {
        Exception::DivideError => "Division error was thrown",
        Exception::Debug => "Debug exception was thrown",
        Exception::NonMaskableInterrupt => "Non-Maskable Interrupt (NMI) was thrown",
        Exception::Breakpoint => "Breakpoint exception was thrown",
        Exception::Overflow => "Overflow exception was thrown",
        Exception::BoundRangeExceeded => "Bound range exceeded exception was thrown",
        Exception::InvalidOpcode => "Invalid opcode exception was thrown",
        Exception::DeviceNotAvailable => "Device not available exception was thrown",
        Exception::DoubleFault => "Double fault was thrown",
        Exception::InvalidTss => "Invalid TSS exception was thrown",
        Exception::SegmentNotPresent => "Segment not present exception was thrown",
        Exception::StackSegmentFault => "Stack segment fault was thrown",
        Exception::GeneralProtectionFault => "General protection fault was thrown",
        Exception::PageFault => "Page fault was thrown",
        Exception::X87FloatingPoint => "x87 floating point exception was thrown",
        Exception::AlignmentCheck => "Alignment check exception was thrown",
        Exception::MachineCheck => "Machine check exception was thrown",
        Exception::SimdFloatingPoint => "SIMD floating point exception was thrown",
        Exception::Virtualization => "Virtualization exception was thrown",
        Exception::ControlProtection => "Control protection exception was thrown",
        Exception::HypervisorInjection => "Hypervisor injection exception was thrown",
        Exception::VmmCommunication => "VMM communication exception was thrown",
        Exception::Security => "Security exception was thrown",
    };
    assert(base@ == exception_message(e));
    let message = match code {
        Some(c) => {
            let mut s = String::from_str(base);
            s.append(" (code 0x");
            s.append(u64_to_hex(c).as_str());
            s.append(")");
            assert(s@ =~= exception_log_message(e, code));
            s
        },
        None => String::from_str(base),
    };
    match e {
        Exception::DoubleFault | Exception::MachineCheck => (
            Disposition::Halt,
            Some(Logger::fatal(message.as_str())),
        ),
        Exception::Debug => {
            logger.debug(message.as_str());
            (Disposition::Resume, None)
        },
        Exception::Breakpoint => {
            logger.warn(message.as_str());
            (Disposition::Resume, None)
        },
        _ => {
            logger.error(message.as_str());
            (Disposition::Resume, None)
        },
    }
}

/// The hardware interrupt-request lines this kernel routes through the
/// remapped controllers.
#[derive(Clone, Copy, PartialEq, Eq, Structural, Debug)]
pub enum InterruptIndex {
    Timer,
    Keyboard,
    Cascade,
    COM2,
    COM1,
}

/// The CPU vector each hardware line is remapped to.
pub open spec fn irq_vector(i: InterruptIndex) -> int {
    match i {
        InterruptIndex::Timer => 32,
        InterruptIndex::Keyboard => 33,
        InterruptIndex::Cascade => 34,
        InterruptIndex::COM2 => 35,
        InterruptIndex::COM1 => 36,
    }
}

impl InterruptIndex {
    /// The CPU vector this hardware line is remapped to.
    pub fn vector(self) -> (v: u8)
        ensures
            v as int == irq_vector(self),
    {
        match self {
            InterruptIndex::Timer => 32,
            InterruptIndex::Keyboard => 33,
            InterruptIndex::Cascade => 34,
            InterruptIndex::COM2 => 35,
            InterruptIndex::COM1 => 36,
        }
    }
}

/// The driver model of the two chained 8-bit interrupt controllers: the
/// remapped base vector and the last programmed interrupt mask of each.
/// Operations return the exact port writes the hardware requires.
#[derive(Clone, Copy, PartialEq, Eq, Structural, Debug)]
pub struct ChainedPics {
    pub primary_offset: u8,
    pub secondary_offset: u8,
    pub primary_mask: u8,
    pub secondary_mask: u8,
}

/// One controller with base `offset` serves vectors `offset..offset + 8`.
pub open spec fn pic_handles(offset: u8, vector: u8) -> bool {
    (offset as int) <= (vector as int) && (vector as int) < (offset as int) + 8
}

/// The port-write sequence of the controllers' initialization protocol:
/// the initialization command to each command port, then on each data port
/// the base offset, the cascade wiring (line 4 on the primary, identity 2
/// on the secondary) and the 8086 mode byte, each write followed by a
/// delay write to the wait port; finally the saved masks are restored.
pub open spec fn pic_init_writes(o1: u8, o2: u8, m1: u8, m2: u8) -> Seq<(u16, u8)> {
    seq![
        (PIC_1_COMMAND, CMD_INIT),
        (WAIT_PORT, 0u8),
        (PIC_2_COMMAND, CMD_INIT),
        (WAIT_PORT, 0u8),
        (PIC_1_DATA, o1),
        (WAIT_PORT, 0u8),
        (PIC_2_DATA, o2),
        (WAIT_PORT, 0u8),
        (PIC_1_DATA, 4u8),
        (WAIT_PORT, 0u8),
        (PIC_2_DATA, 2u8),
        (WAIT_PORT, 0u8),
        (PIC_1_DATA, MODE_8086),
        (WAIT_PORT, 0u8),
        (PIC_2_DATA, MODE_8086),
        (WAIT_PORT, 0u8),
        (PIC_1_DATA, m1),
        (PIC_2_DATA, m2),
    ]
}

/// The port writes that acknowledge end of interrupt for `vector`: the
/// secondary controller is acknowledged first when the vector is chained
/// through it, then the primary; a vector neither controller serves needs
/// no write.
pub open spec fn eoi_writes(p: ChainedPics, vector: u8) -> Seq<(u16, u8)> {
    if pic_handles(p.secondary_offset, vector) {
        seq![(PIC_2_COMMAND, CMD_END_OF_INTERRUPT), (PIC_1_COMMAND, CMD_END_OF_INTERRUPT)]
    } else if pic_handles(p.primary_offset, vector) {
        seq![(PIC_1_COMMAND, CMD_END_OF_INTERRUPT)]
    } else {
        Seq::empty()
    }
}

/// The controller masks were reprogrammed to `m1` and `m2` and nothing else
/// changed.
pub open spec fn masks_written(pre: ChainedPics, post: ChainedPics, m1: u8, m2: u8) -> bool {
    post == ChainedPics {
        primary_mask: m1,
        secondary_mask: m2,
        ..pre
    }
}

impl ChainedPics {
    /// A controller pair remapped to the given base vectors. Every line is
    /// masked until the masks are programmed.
    pub fn new(offset1: u8, offset2: u8) -> (p: ChainedPics)
        ensures
            p.primary_offset == offset1,
            p.secondary_offset == offset2,
            p.primary_mask == 0xFF,
            p.secondary_mask == 0xFF,
    {
        ChainedPics {
            primary_offset: offset1,
            secondary_offset: offset2,
            primary_mask: 0xFF,
            secondary_mask: 0xFF,
        }
    }

    /// The initialization protocol: remap both controllers to this pair's
    /// offsets and restore the current masks afterward. Returns the exact
    /// port writes, in order; the controller state itself is unchanged.
    pub fn initialize(&self) -> (writes: Vec<(u16, u8)>)
        ensures
            writes@ == pic_init_writes(
                self.primary_offset,
                self.secondary_offset,
                self.primary_mask,
                self.secondary_mask,
            ),
    {
        let mut w: Vec<(u16, u8)> = Vec::new();
        w.push((PIC_1_COMMAND, CMD_INIT));
        w.push((WAIT_PORT, 0));
        w.push((PIC_2_COMMAND, CMD_INIT));
        w.push((WAIT_PORT, 0));
        w.push((PIC_1_DATA, self.primary_offset));
        w.push((WAIT_PORT, 0));
        w.push((PIC_2_DATA, self.secondary_offset));
        w.push((WAIT_PORT, 0));
        w.push((PIC_1_DATA, 4));
        w.push((WAIT_PORT, 0));
        w.push((PIC_2_DATA, 2));
        w.push((WAIT_PORT, 0));
        w.push((PIC_1_DATA, MODE_8086));
        w.push((WAIT_PORT, 0));
        w.push((PIC_2_DATA, MODE_8086));
        w.push((WAIT_PORT, 0));
        w.push((PIC_1_DATA, self.primary_mask));
        w.push((PIC_2_DATA, self.secondary_mask));
        assert(w@ =~= pic_init_writes(
            self.primary_offset,
            self.secondary_offset,
            self.primary_mask,
            self.secondary_mask,
        ));
        w
    }

    /// Program which of the 16 hardware lines are allowed through
    /// (1 = masked). Returns the two data-port writes.
    pub fn write_masks(&mut self, mask1: u8, mask2: u8) -> (writes: Vec<(u16, u8)>)
        ensures
            masks_written(*old(self), *final(self), mask1, mask2),
            writes@ =~= seq![(PIC_1_DATA, mask1), (PIC_2_DATA, mask2)],
    {
        self.primary_mask = mask1;
        self.secondary_mask = mask2;
        let mut w: Vec<(u16, u8)> = Vec::new();
        w.push((PIC_1_DATA, mask1));
        w.push((PIC_2_DATA, mask2));
        w
    }

    /// The current mask of each controller, primary first.
    pub fn read_masks(&self) -> (masks: (u8, u8))
        ensures
            masks.0 == self.primary_mask,
            masks.1 == self.secondary_mask,
    {
        (self.primary_mask, self.secondary_mask)
    }

    /// Whether either controller serves this vector.
    pub fn handles_interrupt(&self, vector: u8) -> (r: bool)
        ensures
            r == (pic_handles(self.primary_offset, vector) || pic_handles(
                self.secondary_offset,
                vector,
            )),
    {
        let v = vector as u16;
        let p = self.primary_offset as u16;
        let s = self.secondary_offset as u16;
        (p <= v && v < p + 8) || (s <= v && v < s + 8)
    }

    /// The end-of-interrupt acknowledgement for `vector`: exactly the port
    /// writes of `eoi_writes`, which must be sent once, at the tail of the
    /// handler.
    pub fn notify_end_of_interrupt(&self, vector: u8) -> (writes: Vec<(u16, u8)>)
        ensures
            writes@ == eoi_writes(*self, vector),
    {
        let mut w: Vec<(u16, u8)> = Vec::new();
        let v = vector as u16;
        let s = self.secondary_offset as u16;
        let p = self.primary_offset as u16;
        if s <= v && v < s + 8 {
            w.push((PIC_2_COMMAND, CMD_END_OF_INTERRUPT));
            w.push((PIC_1_COMMAND, CMD_END_OF_INTERRUPT));
        } else if p <= v && v < p + 8 {
            w.push((PIC_1_COMMAND, CMD_END_OF_INTERRUPT));
        }
        assert(w@ =~= eoi_writes(*self, vector));
        w
    }
}

/// Law: programming the controller masks and reading them straight back
/// reflects exactly the bits written — no bit leaks in from
/// controller-internal defaults.
pub proof fn lemma_write_masks_read_back(pre: ChainedPics, post: ChainedPics, m1: u8, m2: u8)
    requires
        masks_written(pre, post, m1, m2),
    ensures
        post.primary_mask == m1,
        post.secondary_mask == m2,
{
}

/// What an installed table slot dispatches to: a synchronous exception
/// handler or a device interrupt handler.
#[derive(Clone, Copy, PartialEq, Eq, Structural, Debug)]
pub enum Handler {
    Exception(Exception),
    Device(InterruptIndex),
}

/// Lifecycle of the interrupt vector table: handlers not yet registered,
/// registered in memory, handed to the CPU, and live with interrupts
/// globally enabled.
#[derive(Clone, Copy, PartialEq, Eq, Structural, Debug)]
pub enum IdtState {
    Uninitialized,
    Built,
    Loaded,
    Active,
}

/// Whether the architecture defines vector `v` as a synchronous exception
/// this kernel must handle.
pub open spec fn defined_exception_vector(v: int) -> bool {
    ||| v == 0
    ||| v == 1
    ||| v == 2
    ||| v == 3
    ||| v == 4
    ||| v == 5
    ||| v == 6
    ||| v == 7
    ||| v == 8
    ||| v == 10
    ||| v == 11
    ||| v == 12
    ||| v == 13
    ||| v == 14
    ||| v == 16
    ||| v == 17
    ||| v == 18
    ||| v == 19
    ||| v == 20
    ||| v == 21
    ||| v == 28
    ||| v == 29
    ||| v == 30
}

/// Whether the hardware can raise vector `v` in this configuration: every
/// defined synchronous exception, plus the remapped timer, keyboard and
/// first-serial-port lines.
pub open spec fn required_vector(v: int) -> bool {
    ||| defined_exception_vector(v)
    ||| v == 32
    ||| v == 33
    ||| v == 36
}

/// The interrupt vector table: one slot per CPU vector, and the lifecycle
/// state.
pub struct Idt {
    pub entries: Vec<Option<Handler>>,
    pub state: IdtState,
}

/// Every vector the hardware can raise has an installed handler.
pub open spec fn complete(idt: Idt) -> bool {
    &&& idt.entries@.len() == 256
    &&& forall|v: int| required_vector(v) ==> (#[trigger] idt.entries@[v]) is Some
}

impl Idt {
    /// An empty table: 256 slots, none handled, not yet built.
    pub fn new() -> (idt: Idt)
        ensures
            idt.entries@.len() == 256,
            forall|v: int| 0 <= v < 256 ==> (#[trigger] idt.entries@[v]) is None,
            idt.state is Uninitialized,
    {
        let mut entries: Vec<Option<Handler>> = Vec::new();
        let mut i: usize = 0;
        while i < 256
            invariant
                i <= 256,
                entries@.len() == i,
                forall|v: int| 0 <= v < i ==> (#[trigger] entries@[v]) is None,
            decreases 256 - i,
        {
            entries.push(None);
            i += 1;
        }
        Idt { entries, state: IdtState::Uninitialized }
    }

    /// Install one handler.
    fn register(&mut self, vector: u8, handler: Handler)
        requires
            old(self).entries@.len() == 256,
        ensures
            final(self).entries@ == old(self).entries@.update(vector as int, Some(handler)),
            final(self).state == old(self).state,
    {
        let v = vector as usize;
        self.entries[v] = Some(handler);
    }

    /// Build the table: install a classifier handler on every defined
    /// synchronous exception vector and the device dispatch handlers on the
    /// timer, keyboard and first-serial-port vectors. The result is
    /// complete: no vector the hardware can raise is left unhandled.
    pub fn build() -> (idt: Idt)
        ensures
            complete(idt),
            idt.state is Built,
            forall|v: int|
                0 <= v < 256 && !required_vector(v) ==> (#[trigger] idt.entries@[v]) is None,
    {
        let mut idt = Idt::new();
        idt.register(0, Handler::Exception(Exception::DivideError));
        idt.register(1, Handler::Exception(Exception::Debug));
        idt.register(2, Handler::Exception(Exception::NonMaskableInterrupt));
        idt.register(3, Handler::Exception(Exception::Breakpoint));
        idt.register(4, Handler::Exception(Exception::Overflow));
        idt.register(5, Handler::Exception(Exception::BoundRangeExceeded));
        idt.register(6, Handler::Exception(Exception::InvalidOpcode));
        idt.register(7, Handler::Exception(Exception::DeviceNotAvailable));
        idt.register(8, Handler::Exception(Exception::DoubleFault));
        idt.register(10, Handler::Exception(Exception::InvalidTss));
        idt.register(11, Handler::Exception(Exception::SegmentNotPresent));
        idt.register(12, Handler::Exception(Exception::StackSegmentFault));
        idt.register(13, Handler::Exception(Exception::GeneralProtectionFault));
        idt.register(14, Handler::Exception(Exception::PageFault));
        idt.register(16, Handler::Exception(Exception::X87FloatingPoint));
        idt.register(17, Handler::Exception(Exception::AlignmentCheck));
        idt.register(18, Handler::Exception(Exception::MachineCheck));
        idt.register(19, Handler::Exception(Exception::SimdFloatingPoint));
        idt.register(20, Handler::Exception(Exception::Virtualization));
        idt.register(21, Handler::Exception(Exception::ControlProtection));
        idt.register(28, Handler::Exception(Exception::HypervisorInjection));
        idt.register(29, Handler::Exception(Exception::VmmCommunication));
        idt.register(30, Handler::Exception(Exception::Security));
        idt.register(32, Handler::Device(InterruptIndex::Timer));
        idt.register(33, Handler::Device(InterruptIndex::Keyboard));
        idt.register(36, Handler::Device(InterruptIndex::COM1));
        idt.state = IdtState::Built;
        idt
    }

    /// Hand the table to the CPU. A table with a gap — any vector the
    /// hardware can raise but no handler serves — is rejected with the
    /// lowest such vector, and nothing changes; a complete table moves to
    /// the Loaded state.
    pub fn load(&mut self) -> (r: Result<(), u8>)
        requires
            old(self).entries@.len() == 256,
            old(self).state is Built,
        ensures
            r is Ok <==> complete(*old(self)),
            r is Ok ==> final(self).entries@ == old(self).entries@ && final(self).state
                is Loaded,
            r matches Err(v) ==> {
                &&& *final(self) == *old(self)
                &&& required_vector(v as int)
                &&& old(self).entries@[v as int] is None
                &&& forall|w: int|
                    0 <= w < v && required_vector(w) ==> (#[trigger] old(self).entries@[w])
                        is Some
            },
    {
        let mut v: usize = 0;
        while v < 256
            invariant
                v <= 256,
                self.entries@.len() == 256,
                *self == *old(self),
                forall|w: int|
                    0 <= w < v && required_vector(w) ==> (#[trigger] self.entries@[w]) is Some,
            decreases 256 - v,
        {
            if Self::required(v as u8) && self.entries[v].is_none() {
                return Err(v as u8);
            }
            v += 1;
        }
        assert(complete(*self));
        self.state = IdtState::Loaded;
        Ok(())
    }

    /// Interrupts are being globally enabled: the table becomes Active.
    /// Only a loaded table — complete by construction — may go live.
    pub fn activate(&mut self)
        requires
            old(self).state is Loaded,
        ensures
            final(self).entries@ == old(self).entries@,
            final(self).state is Active,
    {
        self.state = IdtState::Active;
    }

    /// Whether the hardware can raise vector `v` in this configuration.
    fn required(v: u8) -> (r: bool)
        ensures
            r == required_vector(v as int),
    {
        (v <= 8) || (10 <= v && v <= 14) || (16 <= v && v <= 21) || (28 <= v && v <= 30) || v
            == 32 || v == 33 || v == 36
    }
}

/// Law: in a complete table, every synchronous exception vector the
/// architecture defines has a non-empty handler slot — a gap cannot survive
/// to the point where the table is handed to the CPU.
pub proof fn lemma_complete_covers_every_exception(idt: Idt, v: int)
    requires
        complete(idt),
        defined_exception_vector(v),
    ensures
        idt.entries@[v] is Some,
{
}

/// The timer dispatch handler: advance the wrapping tick counter, run one
/// scheduler tick under its lock, and acknowledge the interrupt. Returns
/// the end-of-interrupt port writes.
pub fn timer_handler(scheduler: &mut Scheduler, ticks: &mut u64, pics: &ChainedPics) -> (writes:
    Vec<(u16, u8)>)
    requires
        old(scheduler).wf(),
    ensures
        final(scheduler).wf(),
        tick_post(*old(scheduler), *final(scheduler)),
        *final(ticks) == (if *old(ticks) == u64::MAX {
            0u64
        } else {
            (*old(ticks) + 1) as u64
        }),
        writes@ == eoi_writes(*pics, 32),
{
    if *ticks == u64::MAX {
        *ticks = 0;
    } else {
        *ticks = *ticks + 1;
    }
    scheduler.tick();
    pics.notify_end_of_interrupt(32)
}

/// The keyboard dispatch handler. The keyboard driver's single
/// interpretation step is an external collaborator the shell invokes
/// first; this decides the acknowledgement: the end-of-interrupt writes
/// for the keyboard vector.
pub fn keyboard_handler(pics: &ChainedPics) -> (writes: Vec<(u16, u8)>)
    ensures
        writes@ == eoi_writes(*pics, 33),
{
    pics.notify_end_of_interrupt(33)
}

/// The serial-receive dispatch handler. `interpreted` reports whether the
/// serial console's interpretation step succeeded; failure is a fatal
/// expectation violation, the interrupt is not acknowledged, and the shell
/// must not continue. On success the end-of-interrupt writes for the
/// first serial port's vector are returned.
pub fn serial_handler(interpreted: bool, pics: &ChainedPics) -> (r: Option<Vec<(u16, u8)>>)
    ensures
        interpreted <==> r is Some,
        r matches Some(writes) ==> writes@ == eoi_writes(*pics, 36),
{
    if interpreted {
        Some(pics.notify_end_of_interrupt(36))
    } else {
        None
    }
}

/// Boot-time configuration of the dispatch hardware: build the complete
/// vector table, hand it to the CPU, and program the controller pair —
/// remap to the configured offsets, then apply the extended-configuration
/// mask policy. Returns the table, the controller state, and the exact
/// port writes the shell must perform, in order.
pub fn initialize() -> (r: (Idt, ChainedPics, Vec<(u16, u8)>))
    ensures
        complete(r.0),
        r.0.state is Loaded,
        r.1.primary_offset == PIC_1_OFFSET,
        r.1.secondary_offset == PIC_2_OFFSET,
        r.1.primary_mask == PRIMARY_POLICY_MASK,
        r.1.secondary_mask == SECONDARY_POLICY_MASK,
        r.2@ == pic_init_writes(PIC_1_OFFSET, PIC_2_OFFSET, 0xFF, 0xFF) + seq![
            (PIC_1_DATA, PRIMARY_POLICY_MASK),
            (PIC_2_DATA, SECONDARY_POLICY_MASK),
        ],
{
    let mut idt = Idt::build();
    let loaded = idt.load();
    match loaded {
        Ok(()) => {},
        Err(_) => {
            proof {
                assert(false);
            }
        },
    }
    let mut pics = ChainedPics::new(PIC_1_OFFSET, PIC_2_OFFSET);
    let mut writes = pics.initialize();
    let mut mask_writes = pics.write_masks(PRIMARY_POLICY_MASK, SECONDARY_POLICY_MASK);
    writes.append(&mut mask_writes);
    assert(writes@ =~= pic_init_writes(PIC_1_OFFSET, PIC_2_OFFSET, 0xFF, 0xFF) + seq![
        (PIC_1_DATA, PRIMARY_POLICY_MASK),
        (PIC_2_DATA, SECONDARY_POLICY_MASK),
    ]);
    (idt, pics, writes)
}

} // verus!
