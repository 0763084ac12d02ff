//! Properties of the wire grammar, proved once and for all inputs: every
//! unrecognized tag is reported as a protocol violation citing the byte,
//! key and old row images are mutually exclusive, and a buffer cut below
//! the bytes a successful decode consumed always underruns — truncation
//! never yields a different successful parse.

use vstd::prelude::*;

verus! {

use crate::grammar::{
    dec_commit, dec_delete, dec_insert, dec_keepalive, dec_logical, dec_new_section,
    dec_optional_tuples, dec_replication, dec_tuple_seq, dec_tuple_value, dec_tuples, dec_update,
    MARKER_KEY, MARKER_NEW, MARKER_OLD, TAG_BEGIN, TAG_BEGIN_PREPARE, TAG_COMMIT,
    TAG_COMMIT_PREPARED, TAG_DELETE, TAG_INSERT, TAG_KEEPALIVE, TAG_MESSAGE, TAG_ORIGIN,
    TAG_PREPARE, TAG_RELATION, TAG_ROLLBACK_PREPARED, TAG_STREAM_ABORT, TAG_STREAM_COMMIT,
    TAG_STREAM_PREPARE, TAG_STREAM_START, TAG_STREAM_STOP, TAG_TRUNCATE, TAG_TYPE, TAG_UPDATE,
    TAG_XLOG_DATA, VALUE_BINARY, VALUE_NULL, VALUE_TEXT, VALUE_TOAST,
};
use crate::messages::{
    DecodeError, DeleteView, InsertView, LogicalView, ReplicationView, TupleDataView, UpdateView,
    Violation,
};

/// A physical-stream tag outside the recognized set always yields a
/// protocol violation citing that byte.
pub proof fn lemma_unknown_replication_tag(s: Seq<u8>)
    requires
        s.len() >= 1,
        s[0] != TAG_XLOG_DATA,
        s[0] != TAG_KEEPALIVE,
    ensures
        dec_replication(s) == Err::<ReplicationView, DecodeError>(
            DecodeError::ProtocolViolation(Violation::UnknownReplicationTag(s[0])),
        ),
{
}

/// A logical-stream tag outside the recognized set always yields a
/// protocol violation citing that byte.
pub proof fn lemma_unknown_logical_tag(s: Seq<u8>)
    requires
        s.len() >= 1,
        s[0] != TAG_BEGIN,
        s[0] != TAG_MESSAGE,
        s[0] != TAG_COMMIT,
        s[0] != TAG_ORIGIN,
        s[0] != TAG_RELATION,
        s[0] != TAG_TYPE,
        s[0] != TAG_INSERT,
        s[0] != TAG_UPDATE,
        s[0] != TAG_DELETE,
        s[0] != TAG_TRUNCATE,
        s[0] != TAG_STREAM_START,
        s[0] != TAG_STREAM_STOP,
        s[0] != TAG_STREAM_COMMIT,
        s[0] != TAG_STREAM_ABORT,
        s[0] != TAG_BEGIN_PREPARE,
        s[0] != TAG_PREPARE,
        s[0] != TAG_COMMIT_PREPARED,
        s[0] != TAG_ROLLBACK_PREPARED,
        s[0] != TAG_STREAM_PREPARE,
    ensures
        dec_logical(s) == Err::<(LogicalView, int), DecodeError>(
            DecodeError::ProtocolViolation(Violation::UnknownLogicalTag(s[0])),
        ),
{
}

/// A column-value kind tag outside the recognized set always yields a
/// protocol violation citing that byte.
pub proof fn lemma_unknown_tuple_tag(s: Seq<u8>)
    requires
        s.len() >= 1,
        s[0] != VALUE_NULL,
        s[0] != VALUE_TOAST,
        s[0] != VALUE_TEXT,
        s[0] != VALUE_BINARY,
    ensures
        dec_tuple_value(s) == Err::<(TupleDataView, int), DecodeError>(
            DecodeError::ProtocolViolation(Violation::UnknownTupleTag(s[0])),
        ),
{
}

/// A delete whose row-image marker is neither `K` nor `O` always yields a
/// protocol violation citing that byte.
pub proof fn lemma_unknown_row_marker(s: Seq<u8>)
    requires
        s.len() >= 9,
        s[8] != MARKER_KEY,
        s[8] != MARKER_OLD,
    ensures
        dec_delete(s) == Err::<(DeleteView, int), DecodeError>(
            DecodeError::ProtocolViolation(Violation::UnknownRowMarker(s[8])),
        ),
{
}

/// An insert whose new-row marker is not `N` always yields a protocol
/// violation citing that byte.
pub proof fn lemma_missing_new_row(s: Seq<u8>)
    requires
        s.len() >= 9,
        s[8] != MARKER_NEW,
    ensures
        dec_insert(s) == Err::<(InsertView, int), DecodeError>(
            DecodeError::ProtocolViolation(Violation::MissingNewRow(s[8])),
        ),
{
    assert(s.skip(8).len() >= 1);
    assert(s.skip(8)[0] == s[8]);
}

/// A decoded update never carries both a key image and an old image.
pub proof fn lemma_update_row_images_exclusive(s: Seq<u8>)
    ensures
        dec_update(s) matches Ok((v, _)) ==> !(v.key_data is Some && v.old_data is Some),
{
}

/// A decoded delete never carries both a key image and an old image.
pub proof fn lemma_delete_row_images_exclusive(s: Seq<u8>)
    ensures
        dec_delete(s) matches Ok((v, _)) ==> !(v.key_data is Some && v.old_data is Some),
{
}

/// A successful column-value decode consumes at least the kind tag and
/// never more than the buffer holds.
pub proof fn lemma_tuple_value_consumed(s: Seq<u8>)
    ensures
        dec_tuple_value(s) matches Ok((_, u)) ==> 1 <= u <= s.len(),
{
}

/// A successful value-sequence decode consumes at most the buffer and
/// yields exactly the demanded number of values.
pub proof fn lemma_tuple_seq_consumed(s: Seq<u8>, n: int)
    ensures
        dec_tuple_seq(s, n) matches Ok((vs, u)) ==> {
            &&& 0 <= u <= s.len()
            &&& (n >= 0 ==> vs.len() == n)
        },
    decreases n,
{
    if n > 0 {
        match dec_tuple_value(s) {
            Ok((v, u1)) => {
                lemma_tuple_value_consumed(s);
                lemma_tuple_seq_consumed(s.skip(u1), n - 1);
            },
            Err(_) => {},
        }
    }
}

/// A successful row-image decode consumes at least the count and never
/// more than the buffer holds.
pub proof fn lemma_tuples_consumed(s: Seq<u8>)
    ensures
        dec_tuples(s) matches Ok((_, u)) ==> 2 <= u <= s.len(),
{
    if s.len() >= 2 {
        let n = crate::wire::be_i16(s.subrange(0, 2));
        lemma_tuple_seq_consumed(s.skip(2), n as int);
    }
}

/// Extending a buffer beyond what a column-value decode consumed does not
/// change its result.
pub proof fn lemma_tuple_value_prefix(s: Seq<u8>, v: TupleDataView, u: int, k: int)
    requires
        dec_tuple_value(s) == Ok::<(TupleDataView, int), DecodeError>((v, u)),
        u <= k <= s.len(),
    ensures
        dec_tuple_value(s.take(k)) == Ok::<(TupleDataView, int), DecodeError>((v, u)),
{
    lemma_tuple_value_consumed(s);
    assert(s.take(k)[0] == s[0]);
    if s[0] == VALUE_TEXT || s[0] == VALUE_BINARY {
        assert(s.take(k).subrange(1, 5) =~= s.subrange(1, 5));
        let len = crate::wire::be_i32(s.subrange(1, 5));
        assert(s.take(k).subrange(5, 5 + len) =~= s.subrange(5, 5 + len));
    }
}

/// Cutting a buffer below what a column-value decode consumed always
/// underruns.
pub proof fn lemma_tuple_value_truncated(s: Seq<u8>, v: TupleDataView, u: int, k: int)
    requires
        dec_tuple_value(s) == Ok::<(TupleDataView, int), DecodeError>((v, u)),
        0 <= k < u,
    ensures
        dec_tuple_value(s.take(k)) == Err::<(TupleDataView, int), DecodeError>(
            DecodeError::BufferUnderrun,
        ),
{
    if k >= 1 {
        assert(s.take(k)[0] == s[0]);
        if k >= 5 {
            assert(s.take(k).subrange(1, 5) =~= s.subrange(1, 5));
        }
    }
}

/// Extending a buffer beyond what a value-sequence decode consumed does
/// not change its result.
pub proof fn lemma_tuple_seq_prefix(s: Seq<u8>, n: int, vs: Seq<TupleDataView>, u: int, k: int)
    requires
        dec_tuple_seq(s, n) == Ok::<(Seq<TupleDataView>, int), DecodeError>((vs, u)),
        u <= k <= s.len(),
    ensures
        dec_tuple_seq(s.take(k), n) == Ok::<(Seq<TupleDataView>, int), DecodeError>((vs, u)),
    decreases n,
{
    if n > 0 {
        match dec_tuple_value(s) {
            Ok((v, u1)) => {
                lemma_tuple_value_consumed(s);
                match dec_tuple_seq(s.skip(u1), n - 1) {
                    Ok((vs2, u2)) => {
                        lemma_tuple_seq_consumed(s.skip(u1), n - 1);
                        lemma_tuple_value_prefix(s, v, u1, k);
                        assert(s.take(k).skip(u1) =~= s.skip(u1).take(k - u1));
                        lemma_tuple_seq_prefix(s.skip(u1), n - 1, vs2, u2, k - u1);
                    },
                    Err(_) => {
                        assert(false);
                    },
                }
            },
            Err(_) => {
                assert(false);
            },
        }
    }
}

/// Cutting a buffer below what a value-sequence decode consumed always
/// underruns.
pub proof fn lemma_tuple_seq_truncated(s: Seq<u8>, n: int, vs: Seq<TupleDataView>, u: int, k: int)
    requires
        dec_tuple_seq(s, n) == Ok::<(Seq<TupleDataView>, int), DecodeError>((vs, u)),
        0 <= k < u,
    ensures
        dec_tuple_seq(s.take(k), n) == Err::<(Seq<TupleDataView>, int), DecodeError>(
            DecodeError::BufferUnderrun,
        ),
    decreases n,
{
    lemma_tuple_seq_consumed(s, n);
    if n <= 0 {
        assert(false);
    } else {
        match dec_tuple_value(s) {
            Ok((v, u1)) => {
                lemma_tuple_value_consumed(s);
                match dec_tuple_seq(s.skip(u1), n - 1) {
                    Ok((vs2, u2)) => {
                        lemma_tuple_seq_consumed(s.skip(u1), n - 1);
                        if k < u1 {
                            lemma_tuple_value_truncated(s, v, u1, k);
                        } else {
                            lemma_tuple_value_prefix(s, v, u1, k);
                            assert(s.take(k).skip(u1) =~= s.skip(u1).take(k - u1));
                            lemma_tuple_seq_truncated(s.skip(u1), n - 1, vs2, u2, k - u1);
                        }
                    },
                    Err(_) => {
                        assert(false);
                    },
                }
            },
            Err(_) => {
                assert(false);
            },
        }
    }
}

/// Extending a buffer beyond what a row-image decode consumed does not
/// change its result.
pub proof fn lemma_tuples_prefix(s: Seq<u8>, vs: Seq<TupleDataView>, u: int, k: int)
    requires
        dec_tuples(s) == Ok::<(Seq<TupleDataView>, int), DecodeError>((vs, u)),
        u <= k <= s.len(),
    ensures
        dec_tuples(s.take(k)) == Ok::<(Seq<TupleDataView>, int), DecodeError>((vs, u)),
{
    lemma_tuples_consumed(s);
    assert(s.take(k).subrange(0, 2) =~= s.subrange(0, 2));
    let n = crate::wire::be_i16(s.subrange(0, 2));
    match dec_tuple_seq(s.skip(2), n as int) {
        Ok((vs2, u2)) => {
            assert(s.take(k).skip(2) =~= s.skip(2).take(k - 2));
            lemma_tuple_seq_prefix(s.skip(2), n as int, vs2, u2, k - 2);
        },
        Err(_) => {
            assert(false);
        },
    }
}

/// Cutting a buffer below what a row-image decode consumed always
/// underruns.
pub proof fn lemma_tuples_truncated(s: Seq<u8>, vs: Seq<TupleDataView>, u: int, k: int)
    requires
        dec_tuples(s) == Ok::<(Seq<TupleDataView>, int), DecodeError>((vs, u)),
        0 <= k < u,
    ensures
        dec_tuples(s.take(k)) == Err::<(Seq<TupleDataView>, int), DecodeError>(
            DecodeError::BufferUnderrun,
        ),
{
    lemma_tuples_consumed(s);
    if k >= 2 {
        assert(s.take(k).subrange(0, 2) =~= s.subrange(0, 2));
        let n = crate::wire::be_i16(s.subrange(0, 2));
        match dec_tuple_seq(s.skip(2), n as int) {
            Ok((vs2, u2)) => {
                assert(s.take(k).skip(2) =~= s.skip(2).take(k - 2));
                lemma_tuple_seq_truncated(s.skip(2), n as int, vs2, u2, k - 2);
            },
            Err(_) => {
                assert(false);
            },
        }
    }
}

/// A successful new-row-section decode consumes at least the marker and
/// never more than the buffer holds.
pub proof fn lemma_new_section_consumed(s: Seq<u8>)
    ensures
        dec_new_section(s) matches Ok((_, u)) ==> 1 <= u <= s.len(),
{
    if s.len() >= 1 && s[0] == MARKER_NEW {
        lemma_tuples_consumed(s.skip(1));
    }
}

/// Extending a buffer beyond what a new-row-section decode consumed does
/// not change its result.
pub proof fn lemma_new_section_prefix(s: Seq<u8>, vs: Seq<TupleDataView>, u: int, k: int)
    requires
        dec_new_section(s) == Ok::<(Seq<TupleDataView>, int), DecodeError>((vs, u)),
        u <= k <= s.len(),
    ensures
        dec_new_section(s.take(k)) == Ok::<(Seq<TupleDataView>, int), DecodeError>((vs, u)),
{
    lemma_new_section_consumed(s);
    assert(s.take(k)[0] == s[0]);
    match dec_tuples(s.skip(1)) {
        Ok((vs2, u2)) => {
            assert(s.take(k).skip(1) =~= s.skip(1).take(k - 1));
            lemma_tuples_prefix(s.skip(1), vs2, u2, k - 1);
        },
        Err(_) => {
            assert(false);
        },
    }
}

/// Cutting a buffer below what a new-row-section decode consumed always
/// underruns.
pub proof fn lemma_new_section_truncated(s: Seq<u8>, vs: Seq<TupleDataView>, u: int, k: int)
    requires
        dec_new_section(s) == Ok::<(Seq<TupleDataView>, int), DecodeError>((vs, u)),
        0 <= k < u,
    ensures
        dec_new_section(s.take(k)) == Err::<(Seq<TupleDataView>, int), DecodeError>(
            DecodeError::BufferUnderrun,
        ),
{
    lemma_new_section_consumed(s);
    if k >= 1 {
        assert(s.take(k)[0] == s[0]);
        match dec_tuples(s.skip(1)) {
            Ok((vs2, u2)) => {
                assert(s.take(k).skip(1) =~= s.skip(1).take(k - 1));
                lemma_tuples_truncated(s.skip(1), vs2, u2, k - 1);
            },
            Err(_) => {
                assert(false);
            },
        }
    }
}

/// A successful optional-section decode never consumes more than the
/// buffer holds.
pub proof fn lemma_optional_consumed(s: Seq<u8>)
    ensures
        dec_optional_tuples(s) matches Ok((_, u)) ==> 0 <= u <= s.len(),
{
    if s.len() >= 1 && (s[0] == MARKER_KEY || s[0] == MARKER_OLD) {
        lemma_tuples_consumed(s.skip(1));
    }
}

/// Extending a buffer beyond what an optional-section decode consumed
/// does not change its result.
pub proof fn lemma_optional_prefix(
    s: Seq<u8>,
    key: Option<Seq<TupleDataView>>,
    old: Option<Seq<TupleDataView>>,
    u: int,
    k: int,
)
    requires
        dec_optional_tuples(s) == Ok::<
            ((Option<Seq<TupleDataView>>, Option<Seq<TupleDataView>>), int),
            DecodeError,
        >(((key, old), u)),
        u <= k <= s.len(),
    ensures
        dec_optional_tuples(s.take(k)) == Ok::<
            ((Option<Seq<TupleDataView>>, Option<Seq<TupleDataView>>), int),
            DecodeError,
        >(((key, old), u)),
{
    lemma_optional_consumed(s);
    if s.len() >= 1 && (s[0] == MARKER_KEY || s[0] == MARKER_OLD) {
        lemma_tuples_consumed(s.skip(1));
        assert(s.take(k)[0] == s[0]);
        match dec_tuples(s.skip(1)) {
            Ok((vs2, u2)) => {
                assert(s.take(k).skip(1) =~= s.skip(1).take(k - 1));
                lemma_tuples_prefix(s.skip(1), vs2, u2, k - 1);
            },
            Err(_) => {
                assert(false);
            },
        }
    } else {
        if k >= 1 {
            assert(s.take(k)[0] == s[0]);
        }
    }
}

/// Cutting a buffer into the middle of a present optional section always
/// underruns. (Cutting it to nothing instead reads as an absent section;
/// the enclosing update then underruns at its mandatory new-row section.)
pub proof fn lemma_optional_truncated(
    s: Seq<u8>,
    key: Option<Seq<TupleDataView>>,
    old: Option<Seq<TupleDataView>>,
    u: int,
    k: int,
)
    requires
        dec_optional_tuples(s) == Ok::<
            ((Option<Seq<TupleDataView>>, Option<Seq<TupleDataView>>), int),
            DecodeError,
        >(((key, old), u)),
        1 <= k < u,
    ensures
        dec_optional_tuples(s.take(k)) == Err::<
            ((Option<Seq<TupleDataView>>, Option<Seq<TupleDataView>>), int),
            DecodeError,
        >(DecodeError::BufferUnderrun),
{
    lemma_optional_consumed(s);
    assert(s.take(k)[0] == s[0]);
    match dec_tuples(s.skip(1)) {
        Ok((vs2, u2)) => {
            assert(s.take(k).skip(1) =~= s.skip(1).take(k - 1));
            lemma_tuples_truncated(s.skip(1), vs2, u2, k - 1);
        },
        Err(_) => {
            assert(false);
        },
    }
}

/// A successful insert decode consumes at least its fixed fields and
/// marker, and never more than the buffer holds.
pub proof fn lemma_insert_consumed(s: Seq<u8>)
    ensures
        dec_insert(s) matches Ok((_, u)) ==> 9 <= u <= s.len(),
{
    if s.len() >= 8 {
        lemma_new_section_consumed(s.skip(8));
    }
}

/// A successful update decode consumes at least its fixed fields and
/// marker, and never more than the buffer holds.
pub proof fn lemma_update_consumed(s: Seq<u8>)
    ensures
        dec_update(s) matches Ok((_, u)) ==> 9 <= u <= s.len(),
{
    if s.len() >= 8 {
        lemma_optional_consumed(s.skip(8));
        match dec_optional_tuples(s.skip(8)) {
            Ok(((key, old), u1)) => {
                lemma_new_section_consumed(s.skip(8 + u1));
            },
            Err(_) => {},
        }
    }
}

/// A successful delete decode consumes at least its fixed fields and
/// marker, and never more than the buffer holds.
pub proof fn lemma_delete_consumed(s: Seq<u8>)
    ensures
        dec_delete(s) matches Ok((_, u)) ==> 9 <= u <= s.len(),
{
    if s.len() >= 9 {
        lemma_tuples_consumed(s.skip(9));
    }
}

/// A successful logical-message decode consumes at least its tag and
/// never more than the buffer holds.
pub proof fn lemma_logical_consumed(s: Seq<u8>)
    ensures
        dec_logical(s) matches Ok((_, u)) ==> 1 <= u <= s.len(),
{
    if s.len() >= 1 {
        let rest = s.skip(1);
        if s[0] == TAG_INSERT {
            lemma_insert_consumed(rest);
        } else if s[0] == TAG_UPDATE {
            lemma_update_consumed(rest);
        } else if s[0] == TAG_DELETE {
            lemma_delete_consumed(rest);
        }
    }
}

/// A commit body cut below its 25 fixed bytes always underruns.
pub proof fn lemma_commit_truncated(s: Seq<u8>, k: int)
    requires
        0 <= k < 25,
        k <= s.len(),
    ensures
        dec_commit(s.take(k)) == Err::<(crate::messages::Commit, int), DecodeError>(
            DecodeError::BufferUnderrun,
        ),
{
}

/// Cutting a buffer below what an insert decode consumed always
/// underruns.
pub proof fn lemma_insert_truncated(s: Seq<u8>, v: InsertView, u: int, k: int)
    requires
        dec_insert(s) == Ok::<(InsertView, int), DecodeError>((v, u)),
        0 <= k < u,
    ensures
        dec_insert(s.take(k)) == Err::<(InsertView, int), DecodeError>(DecodeError::BufferUnderrun),
{
    lemma_new_section_consumed(s.skip(8));
    if k >= 8 {
        match dec_new_section(s.skip(8)) {
            Ok((vs, un)) => {
                assert(s.take(k).skip(8) =~= s.skip(8).take(k - 8));
                lemma_new_section_truncated(s.skip(8), vs, un, k - 8);
            },
            Err(_) => {
                assert(false);
            },
        }
    }
}

/// Cutting a buffer below what an update decode consumed always
/// underruns.
pub proof fn lemma_update_truncated(s: Seq<u8>, v: UpdateView, u: int, k: int)
    requires
        dec_update(s) == Ok::<(UpdateView, int), DecodeError>((v, u)),
        0 <= k < u,
    ensures
        dec_update(s.take(k)) == Err::<(UpdateView, int), DecodeError>(DecodeError::BufferUnderrun),
{
    lemma_optional_consumed(s.skip(8));
    if k >= 8 {
        match dec_optional_tuples(s.skip(8)) {
            Ok(((key, old), u1)) => {
                lemma_new_section_consumed(s.skip(8 + u1));
                assert(s.take(k).skip(8) =~= s.skip(8).take(k - 8));
                match dec_new_section(s.skip(8 + u1)) {
                    Ok((vs, u2)) => {
                        if k - 8 == 0 {
                            assert(s.take(k).skip(8).len() == 0);
                            assert(s.take(k).skip(8 + 0int) =~= s.take(k).skip(8));
                        } else if k - 8 < u1 {
                            lemma_optional_truncated(s.skip(8), key, old, u1, k - 8);
                        } else {
                            lemma_optional_prefix(s.skip(8), key, old, u1, k - 8);
                            assert(s.take(k).skip(8 + u1) =~= s.skip(8 + u1).take(k - 8 - u1));
                            lemma_new_section_truncated(s.skip(8 + u1), vs, u2, k - 8 - u1);
                        }
                    },
                    Err(_) => {
                        assert(false);
                    },
                }
            },
            Err(_) => {
                assert(false);
            },
        }
    }
}

/// Cutting a buffer below what a delete decode consumed always underruns.
pub proof fn lemma_delete_truncated(s: Seq<u8>, v: DeleteView, u: int, k: int)
    requires
        dec_delete(s) == Ok::<(DeleteView, int), DecodeError>((v, u)),
        0 <= k < u,
    ensures
        dec_delete(s.take(k)) == Err::<(DeleteView, int), DecodeError>(DecodeError::BufferUnderrun),
{
    lemma_tuples_consumed(s.skip(9));
    if k >= 9 {
        assert(s.take(k)[8] == s[8]);
        match dec_tuples(s.skip(9)) {
            Ok((vs, ut)) => {
                assert(s.take(k).skip(9) =~= s.skip(9).take(k - 9));
                lemma_tuples_truncated(s.skip(9), vs, ut, k - 9);
            },
            Err(_) => {
                assert(false);
            },
        }
    }
}

/// Cutting a buffer below what a successful logical-message decode
/// consumed always underruns: truncation never yields a different
/// successful parse.
pub proof fn lemma_logical_truncated(s: Seq<u8>, v: LogicalView, u: int, k: int)
    requires
        dec_logical(s) == Ok::<(LogicalView, int), DecodeError>((v, u)),
        0 <= k < u,
    ensures
        dec_logical(s.take(k)) == Err::<(LogicalView, int), DecodeError>(
            DecodeError::BufferUnderrun,
        ),
{
    lemma_logical_consumed(s);
    if k >= 1 {
        assert(s.take(k)[0] == s[0]);
        let rest = s.skip(1);
        assert(s.take(k).skip(1) =~= rest.take(k - 1));
        if s[0] == TAG_COMMIT {
            match dec_commit(rest) {
                Ok((c, uc)) => {
                    lemma_commit_truncated(rest, k - 1);
                },
                Err(_) => {
                    assert(false);
                },
            }
        } else if s[0] == TAG_INSERT {
            match dec_insert(rest) {
                Ok((m, um)) => {
                    lemma_insert_truncated(rest, m, um, k - 1);
                },
                Err(_) => {
                    assert(false);
                },
            }
        } else if s[0] == TAG_UPDATE {
            match dec_update(rest) {
                Ok((m, um)) => {
                    lemma_update_truncated(rest, m, um, k - 1);
                },
                Err(_) => {
                    assert(false);
                },
            }
        } else if s[0] == TAG_DELETE {
            match dec_delete(rest) {
                Ok((m, um)) => {
                    lemma_delete_truncated(rest, m, um, k - 1);
                },
                Err(_) => {
                    assert(false);
                },
            }
        }
    }
}

/// A WAL-chunk message cut below its 25 mandatory bytes (tag plus three
/// scalar fields) always underruns.
pub proof fn lemma_xlog_truncated(s: Seq<u8>, k: int)
    requires
        s.len() >= 1,
        s[0] == TAG_XLOG_DATA,
        0 <= k < 25,
        k <= s.len(),
    ensures
        dec_replication(s.take(k)) == Err::<ReplicationView, DecodeError>(
            DecodeError::BufferUnderrun,
        ),
{
    if k >= 1 {
        assert(s.take(k)[0] == s[0]);
        assert(s.take(k).skip(1).len() < 24);
    }
}

/// A keepalive message cut below its 18 mandatory bytes (tag plus body)
/// always underruns.
pub proof fn lemma_keepalive_truncated(s: Seq<u8>, k: int)
    requires
        s.len() >= 1,
        s[0] == TAG_KEEPALIVE,
        0 <= k < 18,
        k <= s.len(),
    ensures
        dec_replication(s.take(k)) == Err::<ReplicationView, DecodeError>(
            DecodeError::BufferUnderrun,
        ),
{
    if k >= 1 {
        assert(s.take(k)[0] == s[0]);
        assert(s.take(k).skip(1).len() < 17);
    }
}

} // verus!
