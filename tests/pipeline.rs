use sentinel::consumer::{handle_batch, handle_record, next_step, Delivery, Step, Warning};
use sentinel::event::DecodeError;

fn record(pid: u32, comm: &[u8], filename: &[u8]) -> Vec<u8> {
    let mut b = pid.to_le_bytes().to_vec();
    let mut c = [0u8; 16];
    c[..comm.len()].copy_from_slice(comm);
    let mut f = [0u8; 128];
    f[..filename.len()].copy_from_slice(filename);
    b.extend_from_slice(&c);
    b.extend_from_slice(&f);
    b
}

#[test]
fn record_delivery_is_reported() {
    match next_step(Delivery::Record(record(7, b"ls", b"/bin/ls"))) {
        Step::Report(line) => {
            assert_eq!(line, "PID: 7      | COMM: ls              | FILENAME: /bin/ls")
        }
        other => panic!("unexpected step {:?}", other),
    }
}

#[test]
fn short_delivery_warns_and_continues() {
    assert!(matches!(
        next_step(Delivery::Record(vec![1, 2, 3])),
        Step::Warn(Warning::Malformed(DecodeError::TooShort))
    ));
    assert_eq!(handle_record(&[0u8; 147]), Err(DecodeError::TooShort));
}

#[test]
fn failed_read_warns() {
    assert!(matches!(
        next_step(Delivery::ReadFailed),
        Step::Warn(Warning::Unreadable)
    ));
}

#[test]
fn cancel_stops_the_loop() {
    assert!(matches!(next_step(Delivery::Cancelled), Step::Stop));
}

#[test]
fn thousand_records_reported_in_order() {
    let records: Vec<Vec<u8>> = (0..1000u32)
        .map(|i| record(i, b"proc", format!("/bin/p{}", i).as_bytes()))
        .collect();
    let out = handle_batch(&records);
    assert_eq!(out.len(), 1000);
    for (i, r) in out.iter().enumerate() {
        let line = r.as_ref().unwrap();
        assert_eq!(
            line,
            &format!("PID: {:<6} | COMM: {:<15} | FILENAME: /bin/p{}", i, "proc", i)
        );
    }
}

#[test]
fn batch_keeps_position_of_bad_records() {
    let records = vec![record(1, b"a", b"/a"), vec![0u8; 10], record(2, b"b", b"/b")];
    let out = handle_batch(&records);
    assert!(out[0].as_ref().unwrap().starts_with("PID: 1 "));
    assert_eq!(out[1], Err(DecodeError::TooShort));
    assert!(out[2].as_ref().unwrap().ends_with("FILENAME: /b"));
    assert!(handle_batch(&Vec::new()).is_empty());
}
