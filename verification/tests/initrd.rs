use kernel::initrd::{File, Initrd};
use kernel::logger::{Level, Logger};

#[test]
fn debut_timestamp() {
    let result = File::parse_timestamp(1671476400);
    assert_eq!(result, "2022-12-19 19:00");
}

#[test]
fn epoch_timestamp() {
    let result = File::parse_timestamp(0);
    assert_eq!(result, "1970-01-01 00:00");
}

#[test]
fn leap_day_timestamp() {
    // 2024-02-29 12:30:00 UTC
    let result = File::parse_timestamp(1709209800);
    assert_eq!(result, "2024-02-29 12:30");
}

#[test]
fn year_boundary_timestamp() {
    // The last minute of 2021.
    let result = File::parse_timestamp(1640995199);
    assert_eq!(result, "2021-12-31 23:59");
}

#[test]
fn permissions() {
    assert_eq!(File::parse_permission(7), "rwx");
    assert_eq!(File::parse_permission(6), "rw-");
    assert_eq!(File::parse_permission(5), "r-x");
    assert_eq!(File::parse_permission(4), "r--");
    assert_eq!(File::parse_permission(0), "---");
}

fn put(block: &mut [u8], offset: usize, text: &[u8]) {
    block[offset..offset + text.len()].copy_from_slice(text);
}

/// One well-formed archive: a header block for `hello.txt` declaring eleven
/// data bytes, one data block, and the zero end-marker block.
fn sample_archive() -> Vec<u8> {
    let mut bytes = vec![0u8; 3 * 512];
    put(&mut bytes, 0, b"hello.txt");
    put(&mut bytes, 100, b"644");
    put(&mut bytes, 108, b"0");
    put(&mut bytes, 116, b"0");
    put(&mut bytes, 124, b"13"); // 11 bytes, in octal
    put(&mut bytes, 136, b"14350132260"); // 1671476400, in octal
    put(&mut bytes, 265, b"root");
    put(&mut bytes, 297, b"root");
    put(&mut bytes, 512, b"hello world");
    bytes
}

#[test]
fn parse_archive() {
    let bytes = sample_archive();
    let initrd = Initrd::new(&bytes);
    let files = initrd.get_files();
    assert_eq!(files.len(), 1);
    assert_eq!(files[0].header.name, "hello.txt");
    assert_eq!(files[0].header.mode, 644);
    assert_eq!(files[0].header.user_id, 0);
    assert_eq!(files[0].header.group_id, 0);
    assert_eq!(files[0].header.size, 11);
    assert_eq!(files[0].header.mtime, 1671476400);
    assert_eq!(files[0].header.username, "root");
    assert_eq!(files[0].header.group, "root");
    assert_eq!(files[0].data, b"hello world".to_vec());
}

#[test]
fn archive_lookup_by_path() {
    let bytes = sample_archive();
    let initrd = Initrd::new(&bytes);
    let data = initrd.get_data("hello.txt");
    assert_eq!(data, &b"hello world".to_vec());
}

#[test]
fn empty_archive() {
    let bytes = vec![0u8; 512];
    let initrd = Initrd::new(&bytes);
    assert_eq!(initrd.get_files().len(), 0);
}

#[test]
fn zero_size_file() {
    let mut bytes = vec![0u8; 2 * 512];
    put(&mut bytes, 0, b"empty");
    put(&mut bytes, 108, b"0");
    put(&mut bytes, 116, b"0");
    put(&mut bytes, 124, b"0");
    put(&mut bytes, 136, b"0");
    let initrd = Initrd::new(&bytes);
    let files = initrd.get_files();
    assert_eq!(files.len(), 1);
    assert_eq!(files[0].header.size, 0);
    assert_eq!(files[0].data.len(), 0);
}

#[test]
fn field_parsers() {
    let data: Vec<u8> = b"12345\0\0\0777\0zzz\09999999999\0".to_vec();
    assert_eq!(Initrd::parse_integer(&data, 0, 8), 12345);
    assert_eq!(Initrd::parse_octal(&data, 8, 4), 0o777);
    assert_eq!(Initrd::parse_string(&data, 12, 4), "zzz");
    // Not a decimal numeral: parses to zero.
    assert_eq!(Initrd::parse_integer(&data, 12, 4), 0);
    // Too large for the field type: parses to zero.
    assert_eq!(Initrd::parse_integer(&data, 16, 11), 0);
}

#[test]
fn file_listing_line() {
    let bytes = sample_archive();
    let initrd = Initrd::new(&bytes);
    let line = initrd.get_files()[0].render();
    assert_eq!(line, "-rw-r--r-- root/root 11 2022-12-19 19:00 hello.txt");
}

#[test]
fn directory_listing_line() {
    let mut bytes = sample_archive();
    bytes[156] = b'5'; // type flag: directory
    let initrd = Initrd::new(&bytes);
    let line = initrd.get_files()[0].render();
    assert_eq!(line, "drw-r--r-- root/root 11 2022-12-19 19:00 hello.txt");
}

#[test]
fn initrd_initialize_logs_count() {
    let bytes = sample_archive();
    let initrd = Initrd::new(&bytes);
    let mut logger = Logger::new();
    kernel::initrd::initialize(&initrd, &mut logger);
    let logs = logger.get_logs();
    assert_eq!(logs.len(), 1);
    assert_eq!(logs[0].get_level(), Level::Debug);
    assert_eq!(logs[0].get_message(), "Loaded 1 files from the initial ramdisk.");
}
