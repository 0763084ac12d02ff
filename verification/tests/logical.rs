use pg_replication::messages::{
    Commit, DecodeError, Delete, Insert, LogicalReplication, Replication, TupleData, Tuples,
    Update, Violation,
};

fn commit_bytes(commit_lsn: i64, flags: i8, transaction_lsn: i64, timestamp: i64) -> Vec<u8> {
    let mut b = vec![b'C'];
    b.extend_from_slice(&commit_lsn.to_be_bytes());
    b.push(flags as u8);
    b.extend_from_slice(&transaction_lsn.to_be_bytes());
    b.extend_from_slice(&timestamp.to_be_bytes());
    b
}

fn row_header(tag: u8, transaction_id: i32, oid: i32) -> Vec<u8> {
    let mut b = vec![tag];
    b.extend_from_slice(&transaction_id.to_be_bytes());
    b.extend_from_slice(&oid.to_be_bytes());
    b
}

fn text_column(s: &[u8]) -> Vec<u8> {
    let mut b = vec![b't'];
    b.extend_from_slice(&(s.len() as i32).to_be_bytes());
    b.extend_from_slice(s);
    b
}

#[test]
fn commit_roundtrip() {
    let b = commit_bytes(100, 0, 110, 999);
    let m = LogicalReplication::decode(&b).unwrap();
    assert_eq!(
        m,
        LogicalReplication::Commit(Commit {
            commit_lsn: 100,
            flags: 0,
            transaction_lsn: 110,
            timestamp: 999
        })
    );
}

#[test]
fn commit_negative_fields() {
    let b = commit_bytes(-2, -1, i64::MIN, -999);
    let m = LogicalReplication::decode(&b).unwrap();
    assert_eq!(
        m,
        LogicalReplication::Commit(Commit {
            commit_lsn: -2,
            flags: -1,
            transaction_lsn: i64::MIN,
            timestamp: -999
        })
    );
}

#[test]
fn commit_truncated_underruns() {
    let b = commit_bytes(100, 0, 110, 999);
    for k in 0..b.len() {
        assert_eq!(LogicalReplication::decode(&b[..k]), Err(DecodeError::BufferUnderrun));
    }
}

#[test]
fn insert_with_one_null_column() {
    let mut b = row_header(b'I', 1, 16400);
    b.push(b'N');
    b.extend_from_slice(&1i16.to_be_bytes());
    b.push(b'n');
    let m = LogicalReplication::decode(&b).unwrap();
    assert_eq!(
        m,
        LogicalReplication::Insert(Insert {
            transaction_id: 1,
            oid: 16400,
            data: Tuples(vec![TupleData::Null])
        })
    );
}

#[test]
fn insert_all_column_kinds_in_order() {
    let mut b = row_header(b'I', 9, 77);
    b.push(b'N');
    b.extend_from_slice(&4i16.to_be_bytes());
    b.push(b'n');
    b.push(b'u');
    b.extend_from_slice(&text_column(b"hi"));
    b.push(b'b');
    b.extend_from_slice(&3i32.to_be_bytes());
    b.extend_from_slice(&[1, 2, 3]);
    let m = LogicalReplication::decode(&b).unwrap();
    assert_eq!(
        m,
        LogicalReplication::Insert(Insert {
            transaction_id: 9,
            oid: 77,
            data: Tuples(vec![
                TupleData::Null,
                TupleData::UnchangedToast,
                TupleData::Text(b"hi".to_vec()),
                TupleData::Binary(vec![1, 2, 3]),
            ])
        })
    );
}

#[test]
fn insert_missing_new_row_marker() {
    let mut b = row_header(b'I', 1, 2);
    b.push(b'Q');
    assert_eq!(
        LogicalReplication::decode(&b),
        Err(DecodeError::ProtocolViolation(Violation::MissingNewRow(b'Q')))
    );
}

#[test]
fn insert_truncated_underruns() {
    let mut b = row_header(b'I', 1, 16400);
    b.push(b'N');
    b.extend_from_slice(&1i16.to_be_bytes());
    b.extend_from_slice(&text_column(b"abc"));
    for k in 0..b.len() {
        assert_eq!(LogicalReplication::decode(&b[..k]), Err(DecodeError::BufferUnderrun));
    }
}

#[test]
fn update_with_key_image() {
    let mut b = row_header(b'U', 1, 16400);
    b.push(b'K');
    b.extend_from_slice(&1i16.to_be_bytes());
    b.extend_from_slice(&text_column(b"x"));
    b.push(b'N');
    b.extend_from_slice(&1i16.to_be_bytes());
    b.extend_from_slice(&text_column(b"y"));
    let m = LogicalReplication::decode(&b).unwrap();
    assert_eq!(
        m,
        LogicalReplication::Update(Update {
            transaction_id: 1,
            oid: 16400,
            old_data: None,
            key_data: Some(Tuples(vec![TupleData::Text(b"x".to_vec())])),
            new_data: Tuples(vec![TupleData::Text(b"y".to_vec())]),
        })
    );
}

#[test]
fn update_with_old_image() {
    let mut b = row_header(b'U', 3, 4);
    b.push(b'O');
    b.extend_from_slice(&1i16.to_be_bytes());
    b.push(b'n');
    b.push(b'N');
    b.extend_from_slice(&1i16.to_be_bytes());
    b.push(b'u');
    let m = LogicalReplication::decode(&b).unwrap();
    assert_eq!(
        m,
        LogicalReplication::Update(Update {
            transaction_id: 3,
            oid: 4,
            old_data: Some(Tuples(vec![TupleData::Null])),
            key_data: None,
            new_data: Tuples(vec![TupleData::UnchangedToast]),
        })
    );
}

#[test]
fn update_without_optional_image() {
    let mut b = row_header(b'U', 5, 6);
    b.push(b'N');
    b.extend_from_slice(&0i16.to_be_bytes());
    let m = LogicalReplication::decode(&b).unwrap();
    assert_eq!(
        m,
        LogicalReplication::Update(Update {
            transaction_id: 5,
            oid: 6,
            old_data: None,
            key_data: None,
            new_data: Tuples(vec![]),
        })
    );
}

#[test]
fn update_peeked_marker_is_not_consumed() {
    // A byte that is neither K nor O must be read again as the new-row
    // marker; here it is wrong there too, and is the byte the error cites.
    let mut b = row_header(b'U', 5, 6);
    b.push(b'Z');
    assert_eq!(
        LogicalReplication::decode(&b),
        Err(DecodeError::ProtocolViolation(Violation::MissingNewRow(b'Z')))
    );
}

#[test]
fn update_truncated_underruns() {
    let mut b = row_header(b'U', 1, 16400);
    b.push(b'K');
    b.extend_from_slice(&1i16.to_be_bytes());
    b.extend_from_slice(&text_column(b"x"));
    b.push(b'N');
    b.extend_from_slice(&1i16.to_be_bytes());
    b.extend_from_slice(&text_column(b"y"));
    for k in 0..b.len() {
        assert_eq!(LogicalReplication::decode(&b[..k]), Err(DecodeError::BufferUnderrun));
    }
}

#[test]
fn delete_with_key_image() {
    let mut b = row_header(b'D', 1, 16400);
    b.push(b'K');
    b.extend_from_slice(&1i16.to_be_bytes());
    b.extend_from_slice(&text_column(b"k"));
    let m = LogicalReplication::decode(&b).unwrap();
    assert_eq!(
        m,
        LogicalReplication::Delete(Delete {
            transaction_id: 1,
            oid: 16400,
            key_data: Some(Tuples(vec![TupleData::Text(b"k".to_vec())])),
            old_data: None,
        })
    );
}

#[test]
fn delete_with_old_image() {
    let mut b = row_header(b'D', 2, 3);
    b.push(b'O');
    b.extend_from_slice(&2i16.to_be_bytes());
    b.push(b'n');
    b.push(b'u');
    let m = LogicalReplication::decode(&b).unwrap();
    assert_eq!(
        m,
        LogicalReplication::Delete(Delete {
            transaction_id: 2,
            oid: 3,
            key_data: None,
            old_data: Some(Tuples(vec![TupleData::Null, TupleData::UnchangedToast])),
        })
    );
}

#[test]
fn delete_unknown_marker_is_violation() {
    let mut b = row_header(b'D', 1, 16400);
    b.push(0xFF);
    assert_eq!(
        LogicalReplication::decode(&b),
        Err(DecodeError::ProtocolViolation(Violation::UnknownRowMarker(0xFF)))
    );
}

#[test]
fn delete_truncated_underruns() {
    let mut b = row_header(b'D', 1, 16400);
    b.push(b'K');
    b.extend_from_slice(&1i16.to_be_bytes());
    b.extend_from_slice(&text_column(b"k"));
    for k in 0..b.len() {
        assert_eq!(LogicalReplication::decode(&b[..k]), Err(DecodeError::BufferUnderrun));
    }
}

#[test]
fn tag_only_variants() {
    let cases: Vec<(u8, LogicalReplication)> = vec![
        (b'B', LogicalReplication::Begin),
        (b'M', LogicalReplication::Message),
        (b'O', LogicalReplication::Origin),
        (b'R', LogicalReplication::Relation),
        (b'Y', LogicalReplication::Type),
        (b'T', LogicalReplication::Truncate),
        (b'S', LogicalReplication::StreamStart),
        (b'E', LogicalReplication::StreamStop),
        (b'c', LogicalReplication::StreamCommit),
        (b'A', LogicalReplication::StreamAbort),
        (b'b', LogicalReplication::BeginPrepare),
        (b'P', LogicalReplication::Prepare),
        (b'K', LogicalReplication::CommitPrepared),
        (b'r', LogicalReplication::RollbackPrepared),
        (b'p', LogicalReplication::StreamPrepare),
    ];
    for (tag, want) in cases {
        // The tag alone suffices, and any body bytes are ignored.
        assert_eq!(LogicalReplication::decode(&[tag]), Ok(want.clone()));
        assert_eq!(LogicalReplication::decode(&[tag, 0x11, 0x22]), Ok(want));
    }
}

#[test]
fn unknown_logical_tag_is_violation() {
    assert_eq!(
        LogicalReplication::decode(&[b'x']),
        Err(DecodeError::ProtocolViolation(Violation::UnknownLogicalTag(b'x')))
    );
    assert_eq!(
        LogicalReplication::decode(&[0x00, 1, 2]),
        Err(DecodeError::ProtocolViolation(Violation::UnknownLogicalTag(0x00)))
    );
}

#[test]
fn logical_empty_buffer_underruns() {
    assert_eq!(LogicalReplication::decode(&[]), Err(DecodeError::BufferUnderrun));
}

#[test]
fn xlog_payload_feeds_logical_decoder() {
    // The nested grammar: the physical chunk carries an encoded logical
    // message, handed on in a second explicit step.
    let inner = commit_bytes(100, 0, 110, 999);
    let mut outer = vec![b'w'];
    outer.extend_from_slice(&10i64.to_be_bytes());
    outer.extend_from_slice(&20i64.to_be_bytes());
    outer.extend_from_slice(&5i64.to_be_bytes());
    outer.extend_from_slice(&inner);
    let m = Replication::decode(&outer).unwrap();
    match m {
        Replication::XLogData(x) => {
            assert_eq!(x.data, inner);
            let l = LogicalReplication::decode(&x.data).unwrap();
            assert_eq!(
                l,
                LogicalReplication::Commit(Commit {
                    commit_lsn: 100,
                    flags: 0,
                    transaction_lsn: 110,
                    timestamp: 999
                })
            );
        }
        other => panic!("expected a WAL chunk, got {:?}", other),
    }
}
