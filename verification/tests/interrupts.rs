use kernel::interrupts::{
    ChainedPics, Disposition, Exception, Idt, IdtState, InterruptIndex,
};
use kernel::logger::{Level, Logger};

#[test]
fn masks_read_back_exactly() {
    let mut pics = ChainedPics::new(32, 40);
    assert_eq!(pics.read_masks(), (0xFF, 0xFF));
    let writes = pics.write_masks(0b1110_1000, 0b1111_1111);
    assert_eq!(writes, vec![(0x21, 0b1110_1000), (0xA1, 0b1111_1111)]);
    assert_eq!(pics.read_masks(), (0b1110_1000, 0b1111_1111));
    pics.write_masks(0x00, 0xA5);
    assert_eq!(pics.read_masks(), (0x00, 0xA5));
}

#[test]
fn initialization_write_sequence() {
    let pics = ChainedPics::new(32, 40);
    let writes = pics.initialize();
    assert_eq!(
        writes,
        vec![
            (0x20, 0x11),
            (0x80, 0x00),
            (0xA0, 0x11),
            (0x80, 0x00),
            (0x21, 32),
            (0x80, 0x00),
            (0xA1, 40),
            (0x80, 0x00),
            (0x21, 4),
            (0x80, 0x00),
            (0xA1, 2),
            (0x80, 0x00),
            (0x21, 1),
            (0x80, 0x00),
            (0xA1, 1),
            (0x80, 0x00),
            (0x21, 0xFF),
            (0xA1, 0xFF),
        ]
    );
}

#[test]
fn end_of_interrupt_targets_the_right_controller() {
    let pics = ChainedPics::new(32, 40);
    // A primary-controller vector: one acknowledgement.
    assert_eq!(pics.notify_end_of_interrupt(32), vec![(0x20, 0x20)]);
    assert_eq!(pics.notify_end_of_interrupt(36), vec![(0x20, 0x20)]);
    // A secondary-controller vector: the secondary first, then the primary.
    assert_eq!(pics.notify_end_of_interrupt(40), vec![(0xA0, 0x20), (0x20, 0x20)]);
    assert_eq!(pics.notify_end_of_interrupt(47), vec![(0xA0, 0x20), (0x20, 0x20)]);
    // A vector neither controller serves: no acknowledgement.
    assert_eq!(pics.notify_end_of_interrupt(3), Vec::<(u16, u8)>::new());
    assert!(pics.handles_interrupt(33));
    assert!(!pics.handles_interrupt(48));
}

#[test]
fn built_table_is_complete_and_loads() {
    let mut idt = Idt::build();
    assert_eq!(idt.state, IdtState::Built);
    assert_eq!(idt.load(), Ok(()));
    assert_eq!(idt.state, IdtState::Loaded);
    idt.activate();
    assert_eq!(idt.state, IdtState::Active);
}

#[test]
fn table_with_gap_is_rejected() {
    let mut empty = Idt::new();
    empty.state = IdtState::Built;
    // The lowest vector the hardware can raise is reported as the gap.
    assert_eq!(empty.load(), Err(0));
    assert_eq!(empty.state, IdtState::Built);

    let mut gapped = Idt::build();
    gapped.entries[14] = None;
    assert_eq!(gapped.load(), Err(14));
}

#[test]
fn resumable_fault_is_logged_and_resumed() {
    let mut logger = Logger::new();
    let (d, fatal) =
        kernel::interrupts::handle_exception(Exception::Breakpoint, None, &mut logger);
    assert_eq!(d, Disposition::Resume);
    assert!(fatal.is_none());
    let logs = logger.get_logs();
    assert_eq!(logs.len(), 1);
    assert_eq!(logs[0].get_level(), Level::Warn);
    assert_eq!(logs[0].get_message(), "Breakpoint exception was thrown");
}

#[test]
fn fault_log_carries_the_error_code() {
    let mut logger = Logger::new();
    let (d, fatal) = kernel::interrupts::handle_exception(
        Exception::GeneralProtectionFault,
        Some(0x2A),
        &mut logger,
    );
    assert_eq!(d, Disposition::Resume);
    assert!(fatal.is_none());
    let logs = logger.get_logs();
    assert_eq!(logs[0].get_level(), Level::Error);
    assert_eq!(
        logs[0].get_message(),
        "General protection fault was thrown (code 0x2a)"
    );
}

#[test]
fn double_fault_is_fatal() {
    let mut logger = Logger::new();
    let (d, fatal) =
        kernel::interrupts::handle_exception(Exception::DoubleFault, Some(0), &mut logger);
    assert_eq!(d, Disposition::Halt);
    // Fatal entries bypass the buffer.
    assert_eq!(logger.get_logs().len(), 0);
    let log = fatal.unwrap();
    assert_eq!(log.get_level(), Level::Fatal);
    assert_eq!(log.get_message(), "Double fault was thrown (code 0x0)");
}

#[test]
fn machine_check_is_fatal() {
    let mut logger = Logger::new();
    let (d, fatal) =
        kernel::interrupts::handle_exception(Exception::MachineCheck, None, &mut logger);
    assert_eq!(d, Disposition::Halt);
    let log = fatal.unwrap();
    assert_eq!(log.get_level(), Level::Fatal);
    assert_eq!(log.get_message(), "Machine check exception was thrown");
}

#[test]
fn debug_trap_logs_at_low_severity() {
    let mut logger = Logger::new();
    let (d, _) = kernel::interrupts::handle_exception(Exception::Debug, None, &mut logger);
    assert_eq!(d, Disposition::Resume);
    assert_eq!(logger.get_logs()[0].get_level(), Level::Debug);
}

#[test]
fn irq_vectors_follow_the_remap() {
    assert_eq!(InterruptIndex::Timer.vector(), 32);
    assert_eq!(InterruptIndex::Keyboard.vector(), 33);
    assert_eq!(InterruptIndex::Cascade.vector(), 34);
    assert_eq!(InterruptIndex::COM2.vector(), 35);
    assert_eq!(InterruptIndex::COM1.vector(), 36);
}

#[test]
fn boot_configuration() {
    let (idt, pics, writes) = kernel::interrupts::initialize();
    assert_eq!(idt.state, IdtState::Loaded);
    assert_eq!(pics.primary_offset, 32);
    assert_eq!(pics.secondary_offset, 40);
    assert_eq!(pics.read_masks(), (0b1110_1000, 0b1111_1111));
    assert_eq!(writes.len(), 20);
    assert_eq!(writes[0], (0x20, 0x11));
    assert_eq!(writes[18], (0x21, 0b1110_1000));
    assert_eq!(writes[19], (0xA1, 0b1111_1111));
}
