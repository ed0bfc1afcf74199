use sentinel::event::{DecodeError, ExecEvent, EVENT_SIZE};
use sentinel::report::format_line;
use sentinel::text::{field_text, trimmed_len};

fn record(pid: u32, comm: &[u8], filename: &[u8]) -> Vec<u8> {
    let mut b = pid.to_le_bytes().to_vec();
    let mut c = [0u8; 16];
    c[..comm.len()].copy_from_slice(comm);
    let mut f = [0u8; 128];
    f[..filename.len()].copy_from_slice(filename);
    b.extend_from_slice(&c);
    b.extend_from_slice(&f);
    b
}

#[test]
fn short_regions_are_too_short() {
    for n in [0usize, 1, 4, 20, 147] {
        let b = vec![7u8; n];
        assert_eq!(ExecEvent::try_from(&b).unwrap_err(), DecodeError::TooShort);
    }
}

#[test]
fn exact_and_longer_regions_decode() {
    let mut b = record(9, b"sh", b"/bin/sh");
    assert_eq!(b.len(), EVENT_SIZE);
    assert!(ExecEvent::try_from(&b).is_ok());
    b.extend_from_slice(&[0xff; 52]);
    let e = ExecEvent::try_from(&b).unwrap();
    assert_eq!(e.pid, 9);
    assert_eq!(e.filename_text(), "/bin/sh");
}

#[test]
fn decode_of_copy_is_equal() {
    let b = record(77, b"cat", b"/usr/bin/cat");
    let copy = b.clone();
    let e1 = ExecEvent::try_from(&b).unwrap();
    let e2 = ExecEvent::try_from(&copy).unwrap();
    assert_eq!(e1.pid, e2.pid);
    assert_eq!(e1.comm, e2.comm);
    assert_eq!(e1.filename, e2.filename);
}

#[test]
fn pid_is_little_endian() {
    let mut b = vec![0u8; EVENT_SIZE];
    b[0] = 1;
    b[1] = 2;
    b[2] = 3;
    b[3] = 4;
    assert_eq!(ExecEvent::try_from(&b).unwrap().pid, 0x0403_0201);
    let max = record(u32::MAX, b"", b"");
    assert_eq!(ExecEvent::try_from(&max).unwrap().pid, u32::MAX);
}

#[test]
fn encode_then_decode_round_trips() {
    let mut comm = [0u8; 16];
    comm[..4].copy_from_slice(b"bash");
    let mut filename = [0u8; 128];
    filename[..9].copy_from_slice(b"/bin/bash");
    let e = ExecEvent { pid: 0x1234_5678, comm, filename };
    let bytes = e.encode();
    assert_eq!(bytes.len(), EVENT_SIZE);
    assert_eq!(&bytes[..4], &[0x78, 0x56, 0x34, 0x12]);
    let d = ExecEvent::try_from(&bytes).unwrap();
    assert_eq!(d.pid, e.pid);
    assert_eq!(d.comm, e.comm);
    assert_eq!(d.filename, e.filename);
    assert_eq!(d.comm_text(), "bash");
    assert_eq!(d.filename_text(), "/bin/bash");
}

#[test]
fn comm_abc_decodes_to_abc() {
    let b = record(1, b"abc", b"");
    assert_eq!(ExecEvent::try_from(&b).unwrap().comm_text(), "abc");
}

#[test]
fn filename_bin_ls_decodes_to_bin_ls() {
    let b = record(1, b"ls", b"/bin/ls");
    assert_eq!(ExecEvent::try_from(&b).unwrap().filename_text(), "/bin/ls");
}

#[test]
fn full_width_fields_keep_every_byte() {
    let b = record(5, b"abcdefghijklmnop", &[b'x'; 128]);
    let e = ExecEvent::try_from(&b).unwrap();
    assert_eq!(e.comm_text(), "abcdefghijklmnop");
    assert_eq!(e.filename_text().len(), 128);
}

#[test]
fn invalid_utf8_is_replaced() {
    assert_eq!(field_text(&[b'a', 0xff, b'b', 0, 0]), "a\u{FFFD}b");
    assert_eq!(field_text(&[0xe2, 0x82, 0]), "\u{FFFD}");
}

#[test]
fn trailing_nuls_only_are_trimmed() {
    assert_eq!(trimmed_len(&[b'a', 0, b'b', 0, 0]), 3);
    assert_eq!(trimmed_len(&[0, 0, 0]), 0);
    assert_eq!(trimmed_len(&[]), 0);
    assert_eq!(field_text(&[b'a', 0, b'b', 0]), "a\0b");
    assert_eq!(field_text(&[0; 16]), "");
}

#[test]
fn format_has_the_audit_shape() {
    let b = record(42, b"abc", b"/bin/ls");
    let e = ExecEvent::try_from(&b).unwrap();
    assert_eq!(
        e.format(),
        "PID: 42     | COMM: abc             | FILENAME: /bin/ls"
    );
}

#[test]
fn format_twice_is_identical() {
    let b = record(3141, b"vim", b"/usr/bin/vim");
    let e = ExecEvent::try_from(&b).unwrap();
    assert_eq!(e.format(), e.format());
}

#[test]
fn wide_values_are_not_cut() {
    assert_eq!(
        format_line(1234567, "averylongcommandname", "/x"),
        "PID: 1234567 | COMM: averylongcommandname | FILENAME: /x"
    );
    assert_eq!(format_line(0, "", ""), "PID: 0      | COMM:                 | FILENAME: ");
    assert_eq!(
        format_line(u32::MAX, "é", "/é"),
        "PID: 4294967295 | COMM: é               | FILENAME: /é"
    );
}
