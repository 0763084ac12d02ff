use pg_replication::messages::{DecodeError, TupleData, Tuples, Violation};

#[test]
fn tuple_value_null_consumes_one_byte() {
    assert_eq!(TupleData::decode(&[b'n', 0xAA]), Ok((TupleData::Null, 1)));
}

#[test]
fn tuple_value_toast_consumes_one_byte() {
    assert_eq!(TupleData::decode(&[b'u']), Ok((TupleData::UnchangedToast, 1)));
}

#[test]
fn tuple_value_text_exact_length() {
    let mut b = vec![b't'];
    b.extend_from_slice(&3i32.to_be_bytes());
    b.extend_from_slice(b"abcZZ");
    assert_eq!(TupleData::decode(&b), Ok((TupleData::Text(b"abc".to_vec()), 8)));
}

#[test]
fn tuple_value_binary_exact_length() {
    let mut b = vec![b'b'];
    b.extend_from_slice(&2i32.to_be_bytes());
    b.extend_from_slice(&[0x00, 0xFF]);
    assert_eq!(TupleData::decode(&b), Ok((TupleData::Binary(vec![0x00, 0xFF]), 7)));
}

#[test]
fn tuple_value_empty_text() {
    let mut b = vec![b't'];
    b.extend_from_slice(&0i32.to_be_bytes());
    assert_eq!(TupleData::decode(&b), Ok((TupleData::Text(vec![]), 5)));
}

#[test]
fn tuple_value_unknown_tag_is_violation() {
    assert_eq!(
        TupleData::decode(&[b'z']),
        Err(DecodeError::ProtocolViolation(Violation::UnknownTupleTag(b'z')))
    );
}

#[test]
fn tuple_value_negative_length_is_violation() {
    let mut b = vec![b't'];
    b.extend_from_slice(&(-5i32).to_be_bytes());
    assert_eq!(
        TupleData::decode(&b),
        Err(DecodeError::ProtocolViolation(Violation::NegativeValueLength(-5)))
    );
}

#[test]
fn tuple_value_short_payload_underruns() {
    let mut b = vec![b't'];
    b.extend_from_slice(&4i32.to_be_bytes());
    b.extend_from_slice(b"abc");
    assert_eq!(TupleData::decode(&b), Err(DecodeError::BufferUnderrun));
}

#[test]
fn tuple_value_empty_buffer_underruns() {
    assert_eq!(TupleData::decode(&[]), Err(DecodeError::BufferUnderrun));
}

#[test]
fn tuples_empty_row() {
    let b = 0i16.to_be_bytes();
    assert_eq!(Tuples::decode(&b), Ok((Tuples(vec![]), 2)));
}

#[test]
fn tuples_preserve_column_order() {
    let mut b = 3i16.to_be_bytes().to_vec();
    b.push(b'u');
    b.push(b't');
    b.extend_from_slice(&1i32.to_be_bytes());
    b.push(b'q');
    b.push(b'n');
    assert_eq!(
        Tuples::decode(&b),
        Ok((
            Tuples(vec![
                TupleData::UnchangedToast,
                TupleData::Text(vec![b'q']),
                TupleData::Null
            ]),
            10
        ))
    );
}

#[test]
fn tuples_negative_count_is_violation() {
    let b = (-1i16).to_be_bytes();
    assert_eq!(
        Tuples::decode(&b),
        Err(DecodeError::ProtocolViolation(Violation::NegativeColumnCount(-1)))
    );
}

#[test]
fn tuples_count_larger_than_buffer_underruns() {
    let mut b = 2i16.to_be_bytes().to_vec();
    b.push(b'n');
    assert_eq!(Tuples::decode(&b), Err(DecodeError::BufferUnderrun));
}

#[test]
fn tuples_ignore_bytes_past_the_row() {
    let mut b = 1i16.to_be_bytes().to_vec();
    b.push(b'n');
    b.extend_from_slice(&[9, 9, 9]);
    assert_eq!(Tuples::decode(&b), Ok((Tuples(vec![TupleData::Null]), 3)));
}
