//! The wire grammar, as spec functions over byte sequences. Each function
//! states what one production decodes to: `Ok((value, consumed))` with the
//! number of bytes the production takes, or the exact error. The exec
//! decoders are proved to return exactly these results.

use vstd::prelude::*;

verus! {

use crate::messages::{
    Commit, DecodeError, DeleteView, InsertView, LogicalView, PrimaryKeepalive, ReplicationView,
    TupleDataView, UpdateView, Violation, XLogDataView,
};
use crate::wire::{be_i16, be_i32, be_i64};

/// Physical tag `w`: a WAL data chunk.
pub const TAG_XLOG_DATA: u8 = 0x77;

/// Physical tag `k`: a keepalive ping.
pub const TAG_KEEPALIVE: u8 = 0x6B;

/// Logical tag `B`.
pub const TAG_BEGIN: u8 = 0x42;

/// Logical tag `M`.
pub const TAG_MESSAGE: u8 = 0x4D;

/// Logical tag `C`.
pub const TAG_COMMIT: u8 = 0x43;

/// Logical tag `O`.
pub const TAG_ORIGIN: u8 = 0x4F;

/// Logical tag `R`.
pub const TAG_RELATION: u8 = 0x52;

/// Logical tag `Y`.
pub const TAG_TYPE: u8 = 0x59;

/// Logical tag `I`.
pub const TAG_INSERT: u8 = 0x49;

/// Logical tag `U`.
pub const TAG_UPDATE: u8 = 0x55;

/// Logical tag `D`.
pub const TAG_DELETE: u8 = 0x44;

/// Logical tag `T`.
pub const TAG_TRUNCATE: u8 = 0x54;

/// Logical tag `S`.
pub const TAG_STREAM_START: u8 = 0x53;

/// Logical tag `E`.
pub const TAG_STREAM_STOP: u8 = 0x45;

/// Logical tag `c`.
pub const TAG_STREAM_COMMIT: u8 = 0x63;

/// Logical tag `A`.
pub const TAG_STREAM_ABORT: u8 = 0x41;

/// Logical tag `b`.
pub const TAG_BEGIN_PREPARE: u8 = 0x62;

/// Logical tag `P`.
pub const TAG_PREPARE: u8 = 0x50;

/// Logical tag `K`.
pub const TAG_COMMIT_PREPARED: u8 = 0x4B;

/// Logical tag `r`.
pub const TAG_ROLLBACK_PREPARED: u8 = 0x72;

/// Logical tag `p`.
pub const TAG_STREAM_PREPARE: u8 = 0x70;

/// Marker `N`: the mandatory new-row section of inserts and updates.
pub const MARKER_NEW: u8 = 0x4E;

/// Marker `K`: a key row image follows.
pub const MARKER_KEY: u8 = 0x4B;

/// Marker `O`: an old full row image follows.
pub const MARKER_OLD: u8 = 0x4F;

/// Column kind `n`: a null value.
pub const VALUE_NULL: u8 = 0x6E;

/// Column kind `u`: an unchanged out-of-line value, not re-transmitted.
pub const VALUE_TOAST: u8 = 0x75;

/// Column kind `t`: a length-prefixed text value.
pub const VALUE_TEXT: u8 = 0x74;

/// Column kind `b`: a length-prefixed binary value.
pub const VALUE_BINARY: u8 = 0x62;

/// One column value: a kind tag, then for `t`/`b` a 4-byte length and
/// exactly that many payload bytes.
pub open spec fn dec_tuple_value(s: Seq<u8>) -> Result<(TupleDataView, int), DecodeError> {
    if s.len() < 1 {
        Err(DecodeError::BufferUnderrun)
    } else {
        let tag = s[0];
        if tag == VALUE_NULL {
            Ok((TupleDataView::Null, 1))
        } else if tag == VALUE_TOAST {
            Ok((TupleDataView::UnchangedToast, 1))
        } else if tag == VALUE_TEXT || tag == VALUE_BINARY {
            if s.len() < 5 {
                Err(DecodeError::BufferUnderrun)
            } else {
                let len = be_i32(s.subrange(1, 5));
                if len < 0 {
                    Err(DecodeError::ProtocolViolation(Violation::NegativeValueLength(len)))
                } else if s.len() < 5 + len {
                    Err(DecodeError::BufferUnderrun)
                } else {
                    let payload = s.subrange(5, 5 + len);
                    if tag == VALUE_TEXT {
                        Ok((TupleDataView::Text(payload), 5 + len))
                    } else {
                        Ok((TupleDataView::Binary(payload), 5 + len))
                    }
                }
            }
        } else {
            Err(DecodeError::ProtocolViolation(Violation::UnknownTupleTag(tag)))
        }
    }
}

/// `n` column values in sequence.
pub open spec fn dec_tuple_seq(s: Seq<u8>, n: int) -> Result<
    (Seq<TupleDataView>, int),
    DecodeError,
>
    decreases n,
{
    if n <= 0 {
        Ok((Seq::empty(), 0))
    } else {
        match dec_tuple_value(s) {
            Ok((v, u)) => match dec_tuple_seq(s.skip(u), n - 1) {
                Ok((vs, u2)) => Ok((seq![v] + vs, u + u2)),
                Err(e) => Err(e),
            },
            Err(e) => Err(e),
        }
    }
}

/// A row image: a 2-byte signed column count, then that many values.
/// A negative count is a protocol violation, never an allocation size.
pub open spec fn dec_tuples(s: Seq<u8>) -> Result<(Seq<TupleDataView>, int), DecodeError> {
    if s.len() < 2 {
        Err(DecodeError::BufferUnderrun)
    } else {
        let n = be_i16(s.subrange(0, 2));
        if n < 0 {
            Err(DecodeError::ProtocolViolation(Violation::NegativeColumnCount(n)))
        } else {
            match dec_tuple_seq(s.skip(2), n as int) {
                Ok((vs, u)) => Ok((vs, 2 + u)),
                Err(e) => Err(e),
            }
        }
    }
}

/// Commit body: four fixed scalar fields, 25 bytes in all.
pub open spec fn dec_commit(s: Seq<u8>) -> Result<(Commit, int), DecodeError> {
    if s.len() < 25 {
        Err(DecodeError::BufferUnderrun)
    } else {
        Ok(
            (
                Commit {
                    commit_lsn: be_i64(s.subrange(0, 8)),
                    flags: s[8] as i8,
                    transaction_lsn: be_i64(s.subrange(9, 17)),
                    timestamp: be_i64(s.subrange(17, 25)),
                },
                25,
            ),
        )
    }
}

/// The mandatory new-row section of inserts and updates: the `N` marker,
/// then one row image. A different marker byte is a protocol violation.
pub open spec fn dec_new_section(s: Seq<u8>) -> Result<(Seq<TupleDataView>, int), DecodeError> {
    if s.len() < 1 {
        Err(DecodeError::BufferUnderrun)
    } else if s[0] != MARKER_NEW {
        Err(DecodeError::ProtocolViolation(Violation::MissingNewRow(s[0])))
    } else {
        match dec_tuples(s.skip(1)) {
            Ok((vs, u)) => Ok((vs, 1 + u)),
            Err(e) => Err(e),
        }
    }
}

/// Insert body: transaction id, relation oid, then the mandatory new-row
/// section.
pub open spec fn dec_insert(s: Seq<u8>) -> Result<(InsertView, int), DecodeError> {
    if s.len() < 8 {
        Err(DecodeError::BufferUnderrun)
    } else {
        match dec_new_section(s.skip(8)) {
            Ok((vs, u)) => Ok(
                (
                    InsertView {
                        transaction_id: be_i32(s.subrange(0, 4)),
                        oid: be_i32(s.subrange(4, 8)),
                        data: vs,
                    },
                    8 + u,
                ),
            ),
            Err(e) => Err(e),
        }
    }
}

/// Update's optional section: a peeked marker byte. `K` or `O` is consumed
/// together with one row image; any other byte is left unconsumed and both
/// images stay absent.
pub open spec fn dec_optional_tuples(s: Seq<u8>) -> Result<
    ((Option<Seq<TupleDataView>>, Option<Seq<TupleDataView>>), int),
    DecodeError,
> {
    if s.len() >= 1 && s[0] == MARKER_KEY {
        match dec_tuples(s.skip(1)) {
            Ok((t, u)) => Ok(((Some(t), None), 1 + u)),
            Err(e) => Err(e),
        }
    } else if s.len() >= 1 && s[0] == MARKER_OLD {
        match dec_tuples(s.skip(1)) {
            Ok((t, u)) => Ok(((None, Some(t)), 1 + u)),
            Err(e) => Err(e),
        }
    } else {
        Ok(((None, None), 0))
    }
}

/// Update body: ids, an optional key or old image, then the mandatory
/// new-row section.
pub open spec fn dec_update(s: Seq<u8>) -> Result<(UpdateView, int), DecodeError> {
    if s.len() < 8 {
        Err(DecodeError::BufferUnderrun)
    } else {
        match dec_optional_tuples(s.skip(8)) {
            Ok(((key, old), u1)) => match dec_new_section(s.skip(8 + u1)) {
                Ok((vs, u2)) => Ok(
                    (
                        UpdateView {
                            transaction_id: be_i32(s.subrange(0, 4)),
                            oid: be_i32(s.subrange(4, 8)),
                            old_data: old,
                            key_data: key,
                            new_data: vs,
                        },
                        8 + u1 + u2,
                    ),
                ),
                Err(e) => Err(e),
            },
            Err(e) => Err(e),
        }
    }
}

/// Delete body: ids, then one consumed marker byte choosing the key image
/// (`K`) or the old image (`O`). Any other marker is a protocol violation.
pub open spec fn dec_delete(s: Seq<u8>) -> Result<(DeleteView, int), DecodeError> {
    if s.len() < 9 {
        Err(DecodeError::BufferUnderrun)
    } else if s[8] == MARKER_KEY {
        match dec_tuples(s.skip(9)) {
            Ok((vs, u)) => Ok(
                (
                    DeleteView {
                        transaction_id: be_i32(s.subrange(0, 4)),
                        oid: be_i32(s.subrange(4, 8)),
                        key_data: Some(vs),
                        old_data: None,
                    },
                    9 + u,
                ),
            ),
            Err(e) => Err(e),
        }
    } else if s[8] == MARKER_OLD {
        match dec_tuples(s.skip(9)) {
            Ok((vs, u)) => Ok(
                (
                    DeleteView {
                        transaction_id: be_i32(s.subrange(0, 4)),
                        oid: be_i32(s.subrange(4, 8)),
                        key_data: None,
                        old_data: Some(vs),
                    },
                    9 + u,
                ),
            ),
            Err(e) => Err(e),
        }
    } else {
        Err(DecodeError::ProtocolViolation(Violation::UnknownRowMarker(s[8])))
    }
}

/// Keepalive body: wal position, timestamp, reply flag; 17 bytes.
pub open spec fn dec_keepalive(s: Seq<u8>) -> Result<(PrimaryKeepalive, int), DecodeError> {
    if s.len() < 17 {
        Err(DecodeError::BufferUnderrun)
    } else {
        Ok(
            (
                PrimaryKeepalive {
                    wal_end: be_i64(s.subrange(0, 8)),
                    timestamp: be_i64(s.subrange(8, 16)),
                    reply: s[16],
                },
                17,
            ),
        )
    }
}

/// WAL-chunk body: three wal/time fields, then every remaining byte as the
/// still-encoded logical payload.
pub open spec fn dec_xlog(s: Seq<u8>) -> Result<(XLogDataView, int), DecodeError> {
    if s.len() < 24 {
        Err(DecodeError::BufferUnderrun)
    } else {
        Ok(
            (
                XLogDataView {
                    wal_start: be_i64(s.subrange(0, 8)),
                    wal_end: be_i64(s.subrange(8, 16)),
                    timestamp: be_i64(s.subrange(16, 24)),
                    data: s.skip(24),
                },
                s.len() as int,
            ),
        )
    }
}

/// The logical-stream dispatch: one tag byte routes to the matching body.
/// Unstructured variants consume the tag alone and ignore what follows.
pub open spec fn dec_logical(s: Seq<u8>) -> Result<(LogicalView, int), DecodeError> {
    if s.len() < 1 {
        Err(DecodeError::BufferUnderrun)
    } else {
        let tag = s[0];
        let rest = s.skip(1);
        if tag == TAG_BEGIN {
            Ok((LogicalView::Begin, 1))
        } else if tag == TAG_MESSAGE {
            Ok((LogicalView::Message, 1))
        } else if tag == TAG_COMMIT {
            match dec_commit(rest) {
                Ok((c, u)) => Ok((LogicalView::Commit(c), 1 + u)),
                Err(e) => Err(e),
            }
        } else if tag == TAG_ORIGIN {
            Ok((LogicalView::Origin, 1))
        } else if tag == TAG_RELATION {
            Ok((LogicalView::Relation, 1))
        } else if tag == TAG_TYPE {
            Ok((LogicalView::Type, 1))
        } else if tag == TAG_INSERT {
            match dec_insert(rest) {
                Ok((m, u)) => Ok((LogicalView::Insert(m), 1 + u)),
                Err(e) => Err(e),
            }
        } else if tag == TAG_UPDATE {
            match dec_update(rest) {
                Ok((m, u)) => Ok((LogicalView::Update(m), 1 + u)),
                Err(e) => Err(e),
            }
        } else if tag == TAG_DELETE {
            match dec_delete(rest) {
                Ok((m, u)) => Ok((LogicalView::Delete(m), 1 + u)),
                Err(e) => Err(e),
            }
        } else if tag == TAG_TRUNCATE {
            Ok((LogicalView::Truncate, 1))
        } else if tag == TAG_STREAM_START {
            Ok((LogicalView::StreamStart, 1))
        } else if tag == TAG_STREAM_STOP {
            Ok((LogicalView::StreamStop, 1))
        } else if tag == TAG_STREAM_COMMIT {
            Ok((LogicalView::StreamCommit, 1))
        } else if tag == TAG_STREAM_ABORT {
            Ok((LogicalView::StreamAbort, 1))
        } else if tag == TAG_BEGIN_PREPARE {
            Ok((LogicalView::BeginPrepare, 1))
        } else if tag == TAG_PREPARE {
            Ok((LogicalView::Prepare, 1))
        } else if tag == TAG_COMMIT_PREPARED {
            Ok((LogicalView::CommitPrepared, 1))
        } else if tag == TAG_ROLLBACK_PREPARED {
            Ok((LogicalView::RollbackPrepared, 1))
        } else if tag == TAG_STREAM_PREPARE {
            Ok((LogicalView::StreamPrepare, 1))
        } else {
            Err(DecodeError::ProtocolViolation(Violation::UnknownLogicalTag(tag)))
        }
    }
}

/// The physical-stream dispatch: `w` routes to the WAL-chunk body, `k` to
/// the keepalive body.
pub open spec fn dec_replication(s: Seq<u8>) -> Result<ReplicationView, DecodeError> {
    if s.len() < 1 {
        Err(DecodeError::BufferUnderrun)
    } else if s[0] == TAG_XLOG_DATA {
        match dec_xlog(s.skip(1)) {
            Ok((x, _)) => Ok(ReplicationView::XLogData(x)),
            Err(e) => Err(e),
        }
    } else if s[0] == TAG_KEEPALIVE {
        match dec_keepalive(s.skip(1)) {
            Ok((k, _)) => Ok(ReplicationView::PrimaryKeepalive(k)),
            Err(e) => Err(e),
        }
    } else {
        Err(DecodeError::ProtocolViolation(Violation::UnknownReplicationTag(s[0])))
    }
}

} // verus!
