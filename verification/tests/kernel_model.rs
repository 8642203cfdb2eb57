use kernel::init;
use kernel::interrupts::Exception;
use kernel::logger::{Level, Log, Logger};
use kernel::process::{Process, State};
use kernel::serial::{Port, Serial};

#[test]
fn boot_sequence() {
    let (k, writes) = init::run();
    assert!(!k.halted);
    assert_eq!(k.get_ticks(), 0);
    assert_eq!(k.pics.read_masks(), (0b1110_1000, 0b1111_1111));
    assert_eq!(k.logger.get_logs().len(), 0);
    assert_eq!(writes.len(), 20);
}

#[test]
fn timer_interrupt_ticks_and_acknowledges() {
    let (mut k, _) = init::run();
    assert!(k.scheduler.add(Process::new(1, "one", State::Running)));
    let writes = k.timer_interrupt();
    assert_eq!(k.get_ticks(), 1);
    assert_eq!(k.scheduler.get_active_id(), Some(1));
    assert_eq!(writes, vec![(0x20, 0x20)]);
}

#[test]
fn tick_counter_wraps() {
    let (mut k, _) = init::run();
    k.ticks = u64::MAX;
    k.timer_interrupt();
    assert_eq!(k.get_ticks(), 0);
}

#[test]
fn double_fault_halts_and_stops_ticks() {
    let (mut k, _) = init::run();
    assert!(k.scheduler.add(Process::new(1, "one", State::Running)));
    k.timer_interrupt();
    let ticks_before = k.get_ticks();
    let fatal = k.exception(Exception::DoubleFault, Some(7));
    assert!(k.halted);
    let log = fatal.unwrap();
    assert_eq!(log.get_level(), Level::Fatal);
    assert_eq!(log.get_message(), "Double fault was thrown (code 0x7)");
    // No further ticks are observed afterward.
    let writes = k.timer_interrupt();
    assert_eq!(k.get_ticks(), ticks_before);
    assert_eq!(writes, Vec::<(u16, u8)>::new());
    assert_eq!(k.keyboard_interrupt(), Vec::<(u16, u8)>::new());
}

#[test]
fn resumable_fault_does_not_halt() {
    let (mut k, _) = init::run();
    let fatal = k.exception(Exception::PageFault, Some(2));
    assert!(fatal.is_none());
    assert!(!k.halted);
    assert_eq!(
        k.logger.get_logs()[0].get_message(),
        "Page fault was thrown (code 0x2)"
    );
    // The machine keeps ticking.
    k.timer_interrupt();
    assert_eq!(k.get_ticks(), 1);
}

#[test]
fn keyboard_and_serial_acknowledgements() {
    let (k, _) = init::run();
    assert_eq!(k.keyboard_interrupt(), vec![(0x20, 0x20)]);
    let eoi = k.serial_interrupt(true).unwrap();
    assert_eq!(eoi, vec![(0x20, 0x20)]);
    // A failed console interpretation is fatal: no acknowledgement.
    assert!(k.serial_interrupt(false).is_none());
}

#[test]
fn logger_buffers_in_order() {
    let mut logger = Logger::new();
    logger.trace("first");
    logger.debug("second");
    logger.info("third");
    logger.warn("fourth");
    logger.error("fifth");
    let logs = logger.get_logs();
    assert_eq!(logs.len(), 5);
    assert_eq!(logs[0].get_level(), Level::Trace);
    assert_eq!(logs[1].get_level(), Level::Debug);
    assert_eq!(logs[2].get_level(), Level::Info);
    assert_eq!(logs[3].get_level(), Level::Warn);
    assert_eq!(logs[4].get_level(), Level::Error);
    assert_eq!(logs[0].get_message(), "first");
    assert_eq!(logs[4].get_message(), "fifth");
}

#[test]
fn fatal_bypasses_the_buffer() {
    let log = Logger::fatal("serial handshake failed");
    assert_eq!(log.get_level(), Level::Fatal);
    assert_eq!(log.get_message(), "serial handshake failed");
    assert_eq!(log.render(), "[FATAL] serial handshake failed");
}

#[test]
fn log_rendering() {
    let log = Log { level: Level::Info, message: String::from("ready") };
    assert_eq!(log.render(), "[INFO] ready");
}

#[test]
fn smp_initialize_logs_core_count() {
    let mut logger = Logger::new();
    kernel::smp::initialize(8, &mut logger);
    let logs = logger.get_logs();
    assert_eq!(logs[0].get_level(), Level::Debug);
    assert_eq!(logs[0].get_message(), "Detected that the processor has 8 core(s).");
}

#[test]
fn serial_initialization_protocol() {
    let serial = Serial::new(Port::COM1);
    assert_eq!(serial.address, 0x3F8);
    let writes = serial.initialize_writes();
    assert_eq!(
        writes,
        vec![
            (0x3F9, 0x00),
            (0x3FB, 0x80),
            (0x3F8, 0x03),
            (0x3F9, 0x00),
            (0x3FB, 0x03),
            (0x3FA, 0xC7),
            (0x3FC, 0x0B),
            (0x3FC, 0x1E),
            (0x3F8, 0xAE),
        ]
    );
    // A correct loopback echo completes the handshake.
    assert_eq!(serial.initialize(0xAE), Some((0x3FC, 0x0F)));
    // Any other reply is a boot-time defect.
    assert_eq!(serial.initialize(0x00), None);
}

#[test]
fn serial_status_bits() {
    let serial = Serial::new(Port::COM1);
    assert_eq!(serial.line_status_port(), 0x3FD);
    assert_eq!(serial.transmit_empty(0x20), 0x20);
    assert_eq!(serial.transmit_empty(0xDF), 0x00);
    assert_eq!(serial.received(0x01), 0x01);
    assert_eq!(serial.received(0xFE), 0x00);
    assert_eq!(serial.read(0x01, b'a'), Some(b'a'));
    assert_eq!(serial.read(0x00, b'a'), None);
}
