use drogue_device::change_cipher_spec::{ChangeCipherSpec, ParseStep, PartialRecord, TlsError};

fn more(step: ParseStep) -> PartialRecord {
    match step {
        ParseStep::More(record) => record,
        ParseStep::Done(_) => panic!("the record was not complete"),
    }
}

fn complete(step: ParseStep) -> bool {
    matches!(step, ParseStep::Done(Ok(_)))
}

#[test]
fn one_read_completes_a_record() {
    let record = PartialRecord::new(1);
    assert_eq!(record.window(), (0, 1));
    assert!(complete(ChangeCipherSpec::parse::<()>(record, Ok(1))));
}

#[test]
fn reads_add_up() {
    let record = PartialRecord::new(2048);
    let record = more(ChangeCipherSpec::parse::<()>(record, Ok(1000)));
    assert_eq!(record.window(), (1000, 2048));
    let record = more(ChangeCipherSpec::parse::<()>(record, Ok(1047)));
    assert_eq!(record.window(), (2047, 2048));
    assert!(complete(ChangeCipherSpec::parse::<()>(record, Ok(1))));
}

#[test]
fn an_empty_read_changes_nothing() {
    let record = PartialRecord::new(5);
    let record = more(ChangeCipherSpec::parse::<()>(record, Ok(2)));
    let record = more(ChangeCipherSpec::parse::<()>(record, Ok(0)));
    assert_eq!(record.window(), (2, 5));
}

#[test]
fn an_empty_record_takes_one_empty_read() {
    let record = PartialRecord::new(0);
    assert_eq!(record.window(), (0, 0));
    assert!(complete(ChangeCipherSpec::parse::<()>(record, Ok(0))));
}

#[test]
fn a_failed_read_makes_the_record_invalid() {
    let record = PartialRecord::new(5);
    let record = more(ChangeCipherSpec::parse::<&str>(record, Ok(4)));
    match ChangeCipherSpec::parse(record, Err("closed")) {
        ParseStep::Done(Err(e)) => assert_eq!(e, TlsError::InvalidRecord),
        _ => panic!("the read failed"),
    }
}

#[test]
fn a_failed_first_read_makes_even_an_empty_record_invalid() {
    match ChangeCipherSpec::parse(PartialRecord::new(0), Err("closed")) {
        ParseStep::Done(Err(e)) => assert_eq!(e, TlsError::InvalidRecord),
        _ => panic!("the read failed"),
    }
}
