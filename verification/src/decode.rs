//! The executable decoders. Each one is proved to return exactly what the
//! spec grammar in [`crate::grammar`] assigns to its input bytes: the same
//! message on success, the same error otherwise. None of them panics, and
//! none returns a partial result.

use vstd::prelude::*;

verus! {

use crate::grammar::{
    dec_commit, dec_delete, dec_insert, dec_keepalive, dec_logical, dec_optional_tuples,
    dec_replication, dec_tuple_seq, dec_tuple_value, dec_tuples, dec_update, dec_xlog, MARKER_KEY,
    MARKER_NEW, MARKER_OLD, TAG_BEGIN, TAG_BEGIN_PREPARE, TAG_COMMIT, TAG_COMMIT_PREPARED,
    TAG_DELETE, TAG_INSERT, TAG_KEEPALIVE, TAG_MESSAGE, TAG_ORIGIN, TAG_PREPARE, TAG_RELATION,
    TAG_ROLLBACK_PREPARED, TAG_STREAM_ABORT, TAG_STREAM_COMMIT, TAG_STREAM_PREPARE,
    TAG_STREAM_START, TAG_STREAM_STOP, TAG_TRUNCATE, TAG_TYPE, TAG_UPDATE, TAG_XLOG_DATA,
    VALUE_BINARY, VALUE_NULL, VALUE_TEXT, VALUE_TOAST,
};
use crate::messages::{
    opt_view, tuple_views, Commit, DecodeError, Delete, Insert, LogicalReplication,
    PrimaryKeepalive, Replication, TupleData, TupleDataView, Tuples, Update, Violation, XLogData,
};
use crate::wire;

impl TupleData {
    /// Decodes one column value from the front of `buf`, returning it with
    /// the number of bytes consumed.
    pub fn decode(buf: &[u8]) -> (r: Result<(TupleData, usize), DecodeError>)
        ensures
            match r {
                Ok((v, n)) => {
                    &&& n <= buf@.len()
                    &&& dec_tuple_value(buf@) matches Ok((sv, su)) && sv == v@ && su == n
                },
                Err(e) => dec_tuple_value(buf@) matches Err(e2) && e2 == e,
            },
    {
        let len = buf.len();
        if len < 1 {
            return Err(DecodeError::BufferUnderrun);
        }
        let tag = buf[0];
        if tag == VALUE_NULL {
            Ok((TupleData::Null, 1))
        } else if tag == VALUE_TOAST {
            Ok((TupleData::UnchangedToast, 1))
        } else if tag == VALUE_TEXT || tag == VALUE_BINARY {
            let (vlen, p) = match wire::read_i32(buf, 1) {
                Ok(t) => t,
                Err(e) => {
                    return Err(e);
                },
            };
            if vlen < 0 {
                return Err(DecodeError::ProtocolViolation(Violation::NegativeValueLength(vlen)));
            }
            let (payload, end) = match wire::read_bytes(buf, p, vlen as usize) {
                Ok(t) => t,
                Err(e) => {
                    return Err(e);
                },
            };
            if tag == VALUE_TEXT {
                Ok((TupleData::Text(payload), end))
            } else {
                Ok((TupleData::Binary(payload), end))
            }
        } else {
            Err(DecodeError::ProtocolViolation(Violation::UnknownTupleTag(tag)))
        }
    }
}

impl Tuples {
    /// Decodes a row image from the front of `buf`: a column count, then
    /// that many values. Returns the row with the bytes consumed.
    pub fn decode(buf: &[u8]) -> (r: Result<(Tuples, usize), DecodeError>)
        ensures
            match r {
                Ok((t, n)) => {
                    &&& n <= buf@.len()
                    &&& dec_tuples(buf@) matches Ok((sv, su)) && sv == t@ && su == n
                },
                Err(e) => dec_tuples(buf@) matches Err(e2) && e2 == e,
            },
    {
        let len = buf.len();
        let (count, start) = match wire::read_i16(buf, 0) {
            Ok(t) => t,
            Err(e) => {
                return Err(e);
            },
        };
        if count < 0 {
            return Err(DecodeError::ProtocolViolation(Violation::NegativeColumnCount(count)));
        }
        let total: usize = count as usize;
        let mut items: Vec<TupleData> = Vec::new();
        let mut pos: usize = start;
        let mut i: usize = 0;
        while i < total
            invariant
                len == buf@.len(),
                buf@.len() <= usize::MAX,
                2 <= pos <= buf@.len(),
                i <= total,
                total == count as int,
                count >= 0,
                count == crate::wire::be_i16(buf@.subrange(0, 2)),
                items@.len() == i,
                match dec_tuple_seq(buf@.skip(pos as int), count - i) {
                    Ok((vs, u)) => dec_tuple_seq(buf@.skip(2), count as int) matches Ok((vs2, u2))
                        && vs2 == tuple_views(items@) + vs && u2 == (pos - 2) + u,
                    Err(e) => dec_tuple_seq(buf@.skip(2), count as int) matches Err(e2) && e2 == e,
                },
            decreases total - i,
        {
            let ghost pos0 = pos as int;
            let ghost items0 = items@;
            let ghost remaining0 = count - i;
            let tail = &buf[pos..len];
            proof {
                assert(tail@ =~= buf@.skip(pos0));
            }
            let (val, used) = match TupleData::decode(tail) {
                Ok(t) => t,
                Err(e) => {
                    proof {
                        assert(dec_tuple_seq(buf@.skip(pos0), remaining0) == Err::<
                            (Seq<TupleDataView>, int),
                            DecodeError,
                        >(e));
                    }
                    return Err(e);
                },
            };
            items.push(val);
            pos = pos + used;
            i = i + 1;
            proof {
                assert(buf@.skip(pos0).skip(used as int) =~= buf@.skip(pos as int));
                assert(tuple_views(items@) =~= tuple_views(items0).push(val@));
                assert(tuple_views(items0).push(val@) =~= tuple_views(items0) + seq![val@]);
                match dec_tuple_seq(buf@.skip(pos as int), count - i) {
                    Ok((vs, u2)) => {
                        assert(dec_tuple_seq(buf@.skip(pos0), remaining0) == Ok::<
                            (Seq<TupleDataView>, int),
                            DecodeError,
                        >((seq![val@] + vs, used + u2)));
                        assert(tuple_views(items0) + (seq![val@] + vs) =~= tuple_views(items@)
                            + vs);
                    },
                    Err(e) => {
                        assert(dec_tuple_seq(buf@.skip(pos0), remaining0) == Err::<
                            (Seq<TupleDataView>, int),
                            DecodeError,
                        >(e));
                    },
                }
            }
        }
        proof {
            assert(dec_tuple_seq(buf@.skip(pos as int), 0) == Ok::<
                (Seq<TupleDataView>, int),
                DecodeError,
            >((Seq::empty(), 0)));
            assert(tuple_views(items@) + Seq::<TupleDataView>::empty() =~= tuple_views(items@));
        }
        Ok((Tuples(items), pos))
    }
}

impl Commit {
    /// Decodes a commit body: four fixed scalar fields. Trailing bytes are
    /// ignored, as the dispatcher hands over the whole remaining buffer.
    pub fn decode(buf: &[u8]) -> (r: Result<Commit, DecodeError>)
        ensures
            match r {
                Ok(m) => dec_commit(buf@) matches Ok((v, _)) && v == m,
                Err(e) => dec_commit(buf@) matches Err(e2) && e2 == e,
            },
    {
        let (commit_lsn, p1) = match wire::read_i64(buf, 0) {
            Ok(t) => t,
            Err(e) => {
                return Err(e);
            },
        };
        let (flags, p2) = match wire::read_i8(buf, p1) {
            Ok(t) => t,
            Err(e) => {
                return Err(e);
            },
        };
        let (transaction_lsn, p3) = match wire::read_i64(buf, p2) {
            Ok(t) => t,
            Err(e) => {
                return Err(e);
            },
        };
        let (timestamp, _) = match wire::read_i64(buf, p3) {
            Ok(t) => t,
            Err(e) => {
                return Err(e);
            },
        };
        Ok(Commit { commit_lsn, flags, transaction_lsn, timestamp })
    }
}

impl Insert {
    /// Decodes an insert body: ids, the mandatory `N` marker, then the new
    /// row image.
    pub fn decode(buf: &[u8]) -> (r: Result<Insert, DecodeError>)
        ensures
            match r {
                Ok(m) => dec_insert(buf@) matches Ok((v, _)) && v == m@,
                Err(e) => dec_insert(buf@) matches Err(e2) && e2 == e,
            },
    {
        let len = buf.len();
        let (transaction_id, _) = match wire::read_i32(buf, 0) {
            Ok(t) => t,
            Err(e) => {
                return Err(e);
            },
        };
        let (oid, p2) = match wire::read_i32(buf, 4) {
            Ok(t) => t,
            Err(e) => {
                return Err(e);
            },
        };
        let (marker, p3) = match wire::read_u8(buf, p2) {
            Ok(t) => t,
            Err(e) => {
                return Err(e);
            },
        };
        if marker != MARKER_NEW {
            return Err(DecodeError::ProtocolViolation(Violation::MissingNewRow(marker)));
        }
        let tail = &buf[p3..len];
        proof {
            assert(tail@ =~= buf@.skip(8).skip(1));
        }
        let (data, _) = match Tuples::decode(tail) {
            Ok(t) => t,
            Err(e) => {
                return Err(e);
            },
        };
        Ok(Insert { transaction_id, oid, data })
    }
}

impl Update {
    /// Decodes an update body: ids, an optional key or old row image
    /// chosen by a peeked marker byte, the mandatory `N` marker, then the
    /// new row image.
    pub fn decode(buf: &[u8]) -> (r: Result<Update, DecodeError>)
        ensures
            match r {
                Ok(m) => dec_update(buf@) matches Ok((v, _)) && v == m@ && !(m.key_data is Some
                    && m.old_data is Some),
                Err(e) => dec_update(buf@) matches Err(e2) && e2 == e,
            },
    {
        let len = buf.len();
        let (transaction_id, _) = match wire::read_i32(buf, 0) {
            Ok(t) => t,
            Err(e) => {
                return Err(e);
            },
        };
        let (oid, p2) = match wire::read_i32(buf, 4) {
            Ok(t) => t,
            Err(e) => {
                return Err(e);
            },
        };
        let mut key_data: Option<Tuples> = None;
        let mut old_data: Option<Tuples> = None;
        let mut pos: usize = p2;
        if pos < len {
            let m = buf[pos];
            if m == MARKER_KEY {
                let tail = &buf[9..len];
                proof {
                    assert(tail@ =~= buf@.skip(8).skip(1));
                }
                let (t, used) = match Tuples::decode(tail) {
                    Ok(t) => t,
                    Err(e) => {
                        return Err(e);
                    },
                };
                key_data = Some(t);
                pos = 9 + used;
                proof {
                    assert(dec_optional_tuples(buf@.skip(8)) == Ok::<
                        ((Option<Seq<TupleDataView>>, Option<Seq<TupleDataView>>), int),
                        DecodeError,
                    >(((opt_view(key_data), opt_view(old_data)), pos - 8)));
                }
            } else if m == MARKER_OLD {
                let tail = &buf[9..len];
                proof {
                    assert(tail@ =~= buf@.skip(8).skip(1));
                }
                let (t, used) = match Tuples::decode(tail) {
                    Ok(t) => t,
                    Err(e) => {
                        return Err(e);
                    },
                };
                old_data = Some(t);
                pos = 9 + used;
                proof {
                    assert(dec_optional_tuples(buf@.skip(8)) == Ok::<
                        ((Option<Seq<TupleDataView>>, Option<Seq<TupleDataView>>), int),
                        DecodeError,
                    >(((opt_view(key_data), opt_view(old_data)), pos - 8)));
                }
            } else {
                proof {
                    assert(dec_optional_tuples(buf@.skip(8)) == Ok::<
                        ((Option<Seq<TupleDataView>>, Option<Seq<TupleDataView>>), int),
                        DecodeError,
                    >(((opt_view(key_data), opt_view(old_data)), 0)));
                }
            }
        } else {
            proof {
                assert(buf@.skip(8).len() == 0);
                assert(dec_optional_tuples(buf@.skip(8)) == Ok::<
                    ((Option<Seq<TupleDataView>>, Option<Seq<TupleDataView>>), int),
                    DecodeError,
                >(((opt_view(key_data), opt_view(old_data)), 0)));
            }
        }
        let (marker, p4) = match wire::read_u8(buf, pos) {
            Ok(t) => t,
            Err(e) => {
                return Err(e);
            },
        };
        if marker != MARKER_NEW {
            return Err(DecodeError::ProtocolViolation(Violation::MissingNewRow(marker)));
        }
        let tail2 = &buf[p4..len];
        proof {
            assert(tail2@ =~= buf@.skip(pos as int).skip(1));
        }
        let (new_data, _) = match Tuples::decode(tail2) {
            Ok(t) => t,
            Err(e) => {
                return Err(e);
            },
        };
        Ok(Update { transaction_id, oid, old_data, key_data, new_data })
    }
}

impl Delete {
    /// Decodes a delete body: ids, then one consumed marker byte choosing
    /// a key image or an old full image. Any other marker is a protocol
    /// violation.
    pub fn decode(buf: &[u8]) -> (r: Result<Delete, DecodeError>)
        ensures
            match r {
                Ok(m) => dec_delete(buf@) matches Ok((v, _)) && v == m@ && !(m.key_data is Some
                    && m.old_data is Some),
                Err(e) => dec_delete(buf@) matches Err(e2) && e2 == e,
            },
    {
        let len = buf.len();
        let (transaction_id, _) = match wire::read_i32(buf, 0) {
            Ok(t) => t,
            Err(e) => {
                return Err(e);
            },
        };
        let (oid, p2) = match wire::read_i32(buf, 4) {
            Ok(t) => t,
            Err(e) => {
                return Err(e);
            },
        };
        let (marker, p3) = match wire::read_u8(buf, p2) {
            Ok(t) => t,
            Err(e) => {
                return Err(e);
            },
        };
        if marker == MARKER_KEY {
            let tail = &buf[p3..len];
            proof {
                assert(tail@ =~= buf@.skip(9));
            }
            let (t, _) = match Tuples::decode(tail) {
                Ok(t) => t,
                Err(e) => {
                    return Err(e);
                },
            };
            Ok(Delete { transaction_id, oid, key_data: Some(t), old_data: None })
        } else if marker == MARKER_OLD {
            let tail = &buf[p3..len];
            proof {
                assert(tail@ =~= buf@.skip(9));
            }
            let (t, _) = match Tuples::decode(tail) {
                Ok(t) => t,
                Err(e) => {
                    return Err(e);
                },
            };
            Ok(Delete { transaction_id, oid, key_data: None, old_data: Some(t) })
        } else {
            Err(DecodeError::ProtocolViolation(Violation::UnknownRowMarker(marker)))
        }
    }
}

impl PrimaryKeepalive {
    /// Decodes a keepalive body: wal position, timestamp, reply flag.
    pub fn decode(buf: &[u8]) -> (r: Result<PrimaryKeepalive, DecodeError>)
        ensures
            match r {
                Ok(m) => dec_keepalive(buf@) matches Ok((v, _)) && v == m,
                Err(e) => dec_keepalive(buf@) matches Err(e2) && e2 == e,
            },
    {
        let (wal_end, p1) = match wire::read_i64(buf, 0) {
            Ok(t) => t,
            Err(e) => {
                return Err(e);
            },
        };
        let (timestamp, p2) = match wire::read_i64(buf, p1) {
            Ok(t) => t,
            Err(e) => {
                return Err(e);
            },
        };
        let (reply, _) = match wire::read_u8(buf, p2) {
            Ok(t) => t,
            Err(e) => {
                return Err(e);
            },
        };
        Ok(PrimaryKeepalive { wal_end, timestamp, reply })
    }
}

impl XLogData {
    /// Decodes a WAL-chunk body: three scalar fields, then every remaining
    /// byte as the still-encoded logical payload.
    pub fn decode(buf: &[u8]) -> (r: Result<XLogData, DecodeError>)
        ensures
            match r {
                Ok(m) => dec_xlog(buf@) matches Ok((v, _)) && v == m@,
                Err(e) => dec_xlog(buf@) matches Err(e2) && e2 == e,
            },
    {
        let len = buf.len();
        let (wal_start, p1) = match wire::read_i64(buf, 0) {
            Ok(t) => t,
            Err(e) => {
                return Err(e);
            },
        };
        let (wal_end, p2) = match wire::read_i64(buf, p1) {
            Ok(t) => t,
            Err(e) => {
                return Err(e);
            },
        };
        let (timestamp, p3) = match wire::read_i64(buf, p2) {
            Ok(t) => t,
            Err(e) => {
                return Err(e);
            },
        };
        let (data, _) = match wire::read_bytes(buf, p3, len - p3) {
            Ok(t) => t,
            Err(e) => {
                return Err(e);
            },
        };
        proof {
            assert(data@ =~= buf@.skip(24));
        }
        Ok(XLogData { wal_start, wal_end, timestamp, data })
    }
}

impl LogicalReplication {
    /// Decodes one complete logical-stream message: a tag byte routed to
    /// the matching body decoder. Total over all inputs: every byte
    /// sequence yields either a message or a typed error, never a panic.
    pub fn decode(buf: &[u8]) -> (r: Result<LogicalReplication, DecodeError>)
        ensures
            match r {
                Ok(m) => dec_logical(buf@) matches Ok((v, _)) && v == m@,
                Err(e) => dec_logical(buf@) matches Err(e2) && e2 == e,
            },
    {
        let len = buf.len();
        let (tag, p1) = match wire::read_u8(buf, 0) {
            Ok(t) => t,
            Err(e) => {
                return Err(e);
            },
        };
        let tail = &buf[p1..len];
        proof {
            assert(tail@ =~= buf@.skip(1));
        }
        if tag == TAG_BEGIN {
            Ok(LogicalReplication::Begin)
        } else if tag == TAG_MESSAGE {
            Ok(LogicalReplication::Message)
        } else if tag == TAG_COMMIT {
            match Commit::decode(tail) {
                Ok(c) => Ok(LogicalReplication::Commit(c)),
                Err(e) => Err(e),
            }
        } else if tag == TAG_ORIGIN {
            Ok(LogicalReplication::Origin)
        } else if tag == TAG_RELATION {
            Ok(LogicalReplication::Relation)
        } else if tag == TAG_TYPE {
            Ok(LogicalReplication::Type)
        } else if tag == TAG_INSERT {
            match Insert::decode(tail) {
                Ok(m) => Ok(LogicalReplication::Insert(m)),
                Err(e) => Err(e),
            }
        } else if tag == TAG_UPDATE {
            match Update::decode(tail) {
                Ok(m) => Ok(LogicalReplication::Update(m)),
                Err(e) => Err(e),
            }
        } else if tag == TAG_DELETE {
            match Delete::decode(tail) {
                Ok(m) => Ok(LogicalReplication::Delete(m)),
                Err(e) => Err(e),
            }
        } else if tag == TAG_TRUNCATE {
            Ok(LogicalReplication::Truncate)
        } else if tag == TAG_STREAM_START {
            Ok(LogicalReplication::StreamStart)
        } else if tag == TAG_STREAM_STOP {
            Ok(LogicalReplication::StreamStop)
        } else if tag == TAG_STREAM_COMMIT {
            Ok(LogicalReplication::StreamCommit)
        } else if tag == TAG_STREAM_ABORT {
            Ok(LogicalReplication::StreamAbort)
        } else if tag == TAG_BEGIN_PREPARE {
            Ok(LogicalReplication::BeginPrepare)
        } else if tag == TAG_PREPARE {
            Ok(LogicalReplication::Prepare)
        } else if tag == TAG_COMMIT_PREPARED {
            Ok(LogicalReplication::CommitPrepared)
        } else if tag == TAG_ROLLBACK_PREPARED {
            Ok(LogicalReplication::RollbackPrepared)
        } else if tag == TAG_STREAM_PREPARE {
            Ok(LogicalReplication::StreamPrepare)
        } else {
            Err(DecodeError::ProtocolViolation(Violation::UnknownLogicalTag(tag)))
        }
    }
}

impl Replication {
    /// Decodes one complete physical-stream message: `w` routes to the
    /// WAL-chunk decoder, `k` to the keepalive decoder. Total over all
    /// inputs: every byte sequence yields either a message or a typed
    /// error, never a panic.
    pub fn decode(buf: &[u8]) -> (r: Result<Replication, DecodeError>)
        ensures
            match r {
                Ok(m) => dec_replication(buf@) matches Ok(v) && v == m@,
                Err(e) => dec_replication(buf@) matches Err(e2) && e2 == e,
            },
    {
        let len = buf.len();
        let (tag, p1) = match wire::read_u8(buf, 0) {
            Ok(t) => t,
            Err(e) => {
                return Err(e);
            },
        };
        let tail = &buf[p1..len];
        proof {
            assert(tail@ =~= buf@.skip(1));
        }
        if tag == TAG_XLOG_DATA {
            match XLogData::decode(tail) {
                Ok(x) => Ok(Replication::XLogData(x)),
                Err(e) => Err(e),
            }
        } else if tag == TAG_KEEPALIVE {
            match PrimaryKeepalive::decode(tail) {
                Ok(k) => Ok(Replication::PrimaryKeepalive(k)),
                Err(e) => Err(e),
            }
        } else {
            Err(DecodeError::ProtocolViolation(Violation::UnknownReplicationTag(tag)))
        }
    }
}

} // verus!
