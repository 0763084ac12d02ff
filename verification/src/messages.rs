//! The message types that decoding produces, the error channel, and the
//! mathematical views that the decoding contracts are stated over.

use vstd::prelude::*;

verus! {

/// Why a buffer was rejected as a protocol violation: the dispatch point
/// together with the offending value.
#[derive(Debug, Clone, Copy, PartialEq, Eq)]
pub enum Violation {
    /// The leading replication-message tag byte is neither `w` nor `k`.
    UnknownReplicationTag(u8),
    /// The leading logical-message tag byte is outside the recognized set.
    UnknownLogicalTag(u8),
    /// A column value carries a kind tag other than `n`, `u`, `t` or `b`.
    UnknownTupleTag(u8),
    /// An insert or update reached the mandatory new-row section but the
    /// marker byte there is not `N`.
    MissingNewRow(u8),
    /// A delete carries a row-image marker other than `K` or `O`.
    UnknownRowMarker(u8),
    /// A row declared a negative column count.
    NegativeColumnCount(i16),
    /// A column value declared a negative byte length.
    NegativeValueLength(i32),
}

/// A decoding failure: either the bytes break the protocol grammar, or the
/// buffer ends before a required read.
#[derive(Debug, Clone, Copy, PartialEq, Eq)]
pub enum DecodeError {
    ProtocolViolation(Violation),
    BufferUnderrun,
}

/// One column value of a row image.
#[derive(Debug, Clone, PartialEq, Eq)]
pub enum TupleData {
    Null,
    UnchangedToast,
    Text(Vec<u8>),
    Binary(Vec<u8>),
}

/// A row image: the column values, in source-row order.
#[derive(Debug, Clone, PartialEq, Eq)]
pub struct Tuples(pub Vec<TupleData>);

/// End of a transaction in the logical stream.
#[derive(Debug, Clone, Copy, PartialEq, Eq)]
pub struct Commit {
    pub commit_lsn: i64,
    pub flags: i8,
    pub transaction_lsn: i64,
    pub timestamp: i64,
}

/// A newly inserted row.
#[derive(Debug, Clone, PartialEq, Eq)]
pub struct Insert {
    pub transaction_id: i32,
    pub oid: i32,
    pub data: Tuples,
}

/// A changed row: the mandatory new image, and at most one of a key image
/// or an old full image.
#[derive(Debug, Clone, PartialEq, Eq)]
pub struct Update {
    pub transaction_id: i32,
    pub oid: i32,
    pub old_data: Option<Tuples>,
    pub key_data: Option<Tuples>,
    pub new_data: Tuples,
}

/// A removed row: at most one of a key image or an old full image.
#[derive(Debug, Clone, PartialEq, Eq)]
pub struct Delete {
    pub transaction_id: i32,
    pub oid: i32,
    pub key_data: Option<Tuples>,
    pub old_data: Option<Tuples>,
}

/// A message of the logical-decoding stream. Most variants are recognized
/// by tag only; their bodies are not parsed at this layer.
#[derive(Debug, Clone, PartialEq, Eq)]
pub enum LogicalReplication {
    Begin,
    Message,
    Commit(Commit),
    Origin,
    Relation,
    Type,
    Insert(Insert),
    Update(Update),
    Delete(Delete),
    Truncate,
    StreamStart,
    StreamStop,
    StreamCommit,
    StreamAbort,
    BeginPrepare,
    Prepare,
    CommitPrepared,
    RollbackPrepared,
    StreamPrepare,
}

/// A liveness ping from the server; a non-zero `reply` asks the client to
/// send a status update.
#[derive(Debug, Clone, Copy, PartialEq, Eq)]
pub struct PrimaryKeepalive {
    pub wal_end: i64,
    pub timestamp: i64,
    pub reply: u8,
}

/// A chunk of WAL data; `data` is the still-encoded logical message.
#[derive(Debug, Clone, PartialEq, Eq)]
pub struct XLogData {
    pub wal_start: i64,
    pub wal_end: i64,
    pub timestamp: i64,
    pub data: Vec<u8>,
}

/// A message of the outer physical replication stream.
#[derive(Debug, Clone, PartialEq, Eq)]
pub enum Replication {
    XLogData(XLogData),
    PrimaryKeepalive(PrimaryKeepalive),
}

/// Mathematical view of one column value.
#[verifier::ext_equal]
pub enum TupleDataView {
    Null,
    UnchangedToast,
    Text(Seq<u8>),
    Binary(Seq<u8>),
}

/// The views of a sequence of column values.
pub open spec fn tuple_views(s: Seq<TupleData>) -> Seq<TupleDataView> {
    s.map_values(|t: TupleData| t@)
}

/// The view of an optional row image.
pub open spec fn opt_view(o: Option<Tuples>) -> Option<Seq<TupleDataView>> {
    match o {
        Some(t) => Some(t@),
        None => None,
    }
}

impl View for TupleData {
    type V = TupleDataView;

    open spec fn view(&self) -> TupleDataView {
        match self {
            TupleData::Null => TupleDataView::Null,
            TupleData::UnchangedToast => TupleDataView::UnchangedToast,
            TupleData::Text(b) => TupleDataView::Text(b@),
            TupleData::Binary(b) => TupleDataView::Binary(b@),
        }
    }
}

impl View for Tuples {
    type V = Seq<TupleDataView>;

    open spec fn view(&self) -> Seq<TupleDataView> {
        tuple_views(self.0@)
    }
}

/// Mathematical view of an insert.
#[verifier::ext_equal]
pub struct InsertView {
    pub transaction_id: i32,
    pub oid: i32,
    pub data: Seq<TupleDataView>,
}

impl View for Insert {
    type V = InsertView;

    open spec fn view(&self) -> InsertView {
        InsertView { transaction_id: self.transaction_id, oid: self.oid, data: self.data@ }
    }
}

/// Mathematical view of an update.
#[verifier::ext_equal]
pub struct UpdateView {
    pub transaction_id: i32,
    pub oid: i32,
    pub old_data: Option<Seq<TupleDataView>>,
    pub key_data: Option<Seq<TupleDataView>>,
    pub new_data: Seq<TupleDataView>,
}

impl View for Update {
    type V = UpdateView;

    open spec fn view(&self) -> UpdateView {
        UpdateView {
            transaction_id: self.transaction_id,
            oid: self.oid,
            old_data: opt_view(self.old_data),
            key_data: opt_view(self.key_data),
            new_data: self.new_data@,
        }
    }
}

/// Mathematical view of a delete.
#[verifier::ext_equal]
pub struct DeleteView {
    pub transaction_id: i32,
    pub oid: i32,
    pub key_data: Option<Seq<TupleDataView>>,
    pub old_data: Option<Seq<TupleDataView>>,
}

impl View for Delete {
    type V = DeleteView;

    open spec fn view(&self) -> DeleteView {
        DeleteView {
            transaction_id: self.transaction_id,
            oid: self.oid,
            key_data: opt_view(self.key_data),
            old_data: opt_view(self.old_data),
        }
    }
}

/// Mathematical view of a logical-stream message.
#[verifier::ext_equal]
pub enum LogicalView {
    Begin,
    Message,
    Commit(Commit),
    Origin,
    Relation,
    Type,
    Insert(InsertView),
    Update(UpdateView),
    Delete(DeleteView),
    Truncate,
    StreamStart,
    StreamStop,
    StreamCommit,
    StreamAbort,
    BeginPrepare,
    Prepare,
    CommitPrepared,
    RollbackPrepared,
    StreamPrepare,
}

impl View for LogicalReplication {
    type V = LogicalView;

    open spec fn view(&self) -> LogicalView {
        match self {
            LogicalReplication::Begin => LogicalView::Begin,
            LogicalReplication::Message => LogicalView::Message,
            LogicalReplication::Commit(c) => LogicalView::Commit(*c),
            LogicalReplication::Origin => LogicalView::Origin,
            LogicalReplication::Relation => LogicalView::Relation,
            LogicalReplication::Type => LogicalView::Type,
            LogicalReplication::Insert(m) => LogicalView::Insert(m@),
            LogicalReplication::Update(m) => LogicalView::Update(m@),
            LogicalReplication::Delete(m) => LogicalView::Delete(m@),
            LogicalReplication::Truncate => LogicalView::Truncate,
            LogicalReplication::StreamStart => LogicalView::StreamStart,
            LogicalReplication::StreamStop => LogicalView::StreamStop,
            LogicalReplication::StreamCommit => LogicalView::StreamCommit,
            LogicalReplication::StreamAbort => LogicalView::StreamAbort,
            LogicalReplication::BeginPrepare => LogicalView::BeginPrepare,
            LogicalReplication::Prepare => LogicalView::Prepare,
            LogicalReplication::CommitPrepared => LogicalView::CommitPrepared,
            LogicalReplication::RollbackPrepared => LogicalView::RollbackPrepared,
            LogicalReplication::StreamPrepare => LogicalView::StreamPrepare,
        }
    }
}

/// Mathematical view of a WAL data chunk.
#[verifier::ext_equal]
pub struct XLogDataView {
    pub wal_start: i64,
    pub wal_end: i64,
    pub timestamp: i64,
    pub data: Seq<u8>,
}

impl View for XLogData {
    type V = XLogDataView;

    open spec fn view(&self) -> XLogDataView {
        XLogDataView {
            wal_start: self.wal_start,
            wal_end: self.wal_end,
            timestamp: self.timestamp,
            data: self.data@,
        }
    }
}

/// Mathematical view of a physical-stream message.
#[verifier::ext_equal]
pub enum ReplicationView {
    XLogData(XLogDataView),
    PrimaryKeepalive(PrimaryKeepalive),
}

impl View for Replication {
    type V = ReplicationView;

    open spec fn view(&self) -> ReplicationView {
        match self {
            Replication::XLogData(x) => ReplicationView::XLogData(x@),
            Replication::PrimaryKeepalive(k) => ReplicationView::PrimaryKeepalive(*k),
        }
    }
}

} // verus!
