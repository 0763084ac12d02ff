use pg_replication::messages::{DecodeError, PrimaryKeepalive, Replication, Violation, XLogData};

fn keepalive_bytes(wal_end: i64, timestamp: i64, reply: u8) -> Vec<u8> {
    let mut b = vec![b'k'];
    b.extend_from_slice(&wal_end.to_be_bytes());
    b.extend_from_slice(&timestamp.to_be_bytes());
    b.push(reply);
    b
}

fn xlog_bytes(wal_start: i64, wal_end: i64, timestamp: i64, payload: &[u8]) -> Vec<u8> {
    let mut b = vec![b'w'];
    b.extend_from_slice(&wal_start.to_be_bytes());
    b.extend_from_slice(&wal_end.to_be_bytes());
    b.extend_from_slice(&timestamp.to_be_bytes());
    b.extend_from_slice(payload);
    b
}

#[test]
fn keepalive_roundtrip() {
    let b = keepalive_bytes(100, 2000, 1);
    let m = Replication::decode(&b).unwrap();
    assert_eq!(
        m,
        Replication::PrimaryKeepalive(PrimaryKeepalive { wal_end: 100, timestamp: 2000, reply: 1 })
    );
}

#[test]
fn keepalive_ignores_trailing_bytes() {
    let mut b = keepalive_bytes(7, 8, 0);
    b.extend_from_slice(&[0xAA, 0xBB]);
    let m = Replication::decode(&b).unwrap();
    assert_eq!(
        m,
        Replication::PrimaryKeepalive(PrimaryKeepalive { wal_end: 7, timestamp: 8, reply: 0 })
    );
}

#[test]
fn keepalive_negative_fields() {
    let b = keepalive_bytes(-1, i64::MIN, 0xFF);
    let m = Replication::decode(&b).unwrap();
    assert_eq!(
        m,
        Replication::PrimaryKeepalive(PrimaryKeepalive {
            wal_end: -1,
            timestamp: i64::MIN,
            reply: 0xFF
        })
    );
}

#[test]
fn keepalive_truncated_underruns() {
    let b = keepalive_bytes(100, 2000, 1);
    for k in 0..b.len() {
        assert_eq!(Replication::decode(&b[..k]), Err(DecodeError::BufferUnderrun));
    }
}

#[test]
fn xlogdata_roundtrip() {
    let b = xlog_bytes(10, 20, 5, &[0x42, 0x43]);
    let m = Replication::decode(&b).unwrap();
    assert_eq!(
        m,
        Replication::XLogData(XLogData {
            wal_start: 10,
            wal_end: 20,
            timestamp: 5,
            data: vec![0x42, 0x43]
        })
    );
}

#[test]
fn xlogdata_empty_payload() {
    let b = xlog_bytes(1, 2, 3, &[]);
    let m = Replication::decode(&b).unwrap();
    assert_eq!(
        m,
        Replication::XLogData(XLogData { wal_start: 1, wal_end: 2, timestamp: 3, data: vec![] })
    );
}

#[test]
fn xlogdata_truncated_underruns() {
    let b = xlog_bytes(10, 20, 5, &[]);
    assert_eq!(b.len(), 25);
    for k in 0..b.len() {
        assert_eq!(Replication::decode(&b[..k]), Err(DecodeError::BufferUnderrun));
    }
}

#[test]
fn empty_buffer_underruns() {
    assert_eq!(Replication::decode(&[]), Err(DecodeError::BufferUnderrun));
}

#[test]
fn unknown_replication_tag_is_violation() {
    let b = keepalive_bytes(0, 0, 0);
    let mut bad = b.clone();
    bad[0] = b'Q';
    assert_eq!(
        Replication::decode(&bad),
        Err(DecodeError::ProtocolViolation(Violation::UnknownReplicationTag(b'Q')))
    );
    bad[0] = 0xFF;
    assert_eq!(
        Replication::decode(&bad),
        Err(DecodeError::ProtocolViolation(Violation::UnknownReplicationTag(0xFF)))
    );
}

#[test]
fn arbitrary_bytes_never_panic() {
    // Totality on a spread of junk inputs: always a message or a typed error.
    let mut junk: Vec<u8> = Vec::new();
    for i in 0..64u32 {
        junk.push((i.wrapping_mul(97) % 251) as u8);
        let _ = Replication::decode(&junk);
    }
}
