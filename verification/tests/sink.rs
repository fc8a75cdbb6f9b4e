use fitfile::sink::BoundedByteSink;
use fitfile::sink::CapacityError;

#[test]
fn sink_append_and_read_back() {
    let mut sink = BoundedByteSink::<4>::new();
    assert_eq!(sink.length(), 0);
    sink.append(&[1, 2]).unwrap();
    assert_eq!(sink.length(), 2);
    assert_eq!(sink.as_slice(), &[1, 2]);
    sink.append(&[3, 4]).unwrap();
    assert_eq!(sink.as_slice(), &[1, 2, 3, 4]);
}

#[test]
fn sink_append_is_all_or_nothing() {
    let mut sink = BoundedByteSink::<3>::new();
    sink.append(&[1, 2]).unwrap();
    assert_eq!(sink.append(&[9, 9]), Err(CapacityError));
    assert_eq!(sink.length(), 2);
    assert_eq!(sink.as_slice(), &[1, 2]);
    sink.append(&[3]).unwrap();
    assert_eq!(sink.as_slice(), &[1, 2, 3]);
    assert_eq!(sink.append(&[4]), Err(CapacityError));
}

#[test]
fn sink_insert_shifts_right() {
    let mut sink = BoundedByteSink::<4>::new();
    sink.append(&[1, 2, 3]).unwrap();
    sink.insert_at(1, 9).unwrap();
    assert_eq!(sink.as_slice(), &[1, 9, 2, 3]);
    assert_eq!(sink.insert_at(0, 8), Err(CapacityError));
    assert_eq!(sink.as_slice(), &[1, 9, 2, 3]);
}
