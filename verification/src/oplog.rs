//! The operation log of one actor: an append-only sequence of records, each
//! keyed by its sequence number.

use crate::message::is_decision;
use crate::message::Entry;
use crate::message::Message;
use crate::message::MessageType;
use crate::message::ProtocolMessage;
use vstd::prelude::*;

verus! {

/// One record of an operation log.
///
/// The message of a record is generated by the log itself when the record is
/// appended: its `uid` is the record's sequence number, so that two records
/// of the same event stay apart.
#[derive(Debug, PartialEq, Eq)]
pub struct LogRecord {
    pub seqno: u64,
    pub message: ProtocolMessage,
}

impl Clone for LogRecord {
    fn clone(&self) -> (res: Self)
        ensures
            res == *self,
    {
        LogRecord { seqno: self.seqno, message: self.message.clone() }
    }
}

/// The mathematical content of a log record.
pub struct Record {
    pub seqno: nat,
    pub message: Message,
}

impl View for LogRecord {
    type V = Record;

    open spec fn view(&self) -> Record {
        Record { seqno: self.seqno as nat, message: self.message@ }
    }
}

/// What each of the records `records` logs.
pub open spec fn entries(records: Seq<LogRecord>) -> Seq<Entry> {
    Seq::new(records.len(), |i: int| records[i].message@.entry())
}

/// Every record carries its position as its sequence number and as the
/// identifier of its message.
pub open spec fn in_sequence(records: Seq<LogRecord>) -> bool {
    forall|i: int|
        0 <= i < records.len() ==> (#[trigger] records[i]).seqno == i && records[i].message.uid
            == i
}

/// The content of each of the records `records`.
pub open spec fn contents(records: Seq<LogRecord>) -> Seq<Record> {
    Seq::new(records.len(), |i: int| records[i]@)
}

/// An entry is a decision on the transaction `txid` that is not of kind
/// `kind`, where `kind` is a decision too: one of the two commits and the
/// other aborts.
pub open spec fn opposes(e: Entry, kind: MessageType, txid: int) -> bool {
    is_decision(e.kind) && is_decision(kind) && e.txid == txid && e.kind != kind
}

/// The log holds a decision on the transaction `txid` that opposes a
/// decision of kind `kind`.
pub open spec fn contradicts(log: Seq<Entry>, kind: MessageType, txid: int) -> bool {
    exists|i: int| 0 <= i < log.len() && opposes(#[trigger] log[i], kind, txid)
}

/// On no transaction does the first log hold a commit and the second an
/// abort, or the other way round.
pub open spec fn agree(first: Seq<Entry>, second: Seq<Entry>) -> bool {
    forall|i: int, j: int|
        0 <= i < first.len() && 0 <= j < second.len() ==> !opposes(
            #[trigger] first[i],
            (#[trigger] second[j]).kind,
            second[j].txid,
        )
}

/// How many entries of `log` are of kind `kind`.
pub open spec fn count_kind(log: Seq<Entry>, kind: MessageType) -> nat
    decreases log.len(),
{
    if log.len() == 0 {
        0
    } else {
        count_kind(log.drop_last(), kind) + if log.last().kind == kind {
            1nat
        } else {
            0nat
        }
    }
}

/// Appending one entry raises the count of its own kind by one and leaves
/// the count of every other kind as it was.
pub proof fn lemma_count_kind_push(log: Seq<Entry>, entry: Entry, kind: MessageType)
    ensures
        count_kind(log.push(entry), kind) == count_kind(log, kind) + if entry.kind == kind {
            1nat
        } else {
            0nat
        },
{
    assert(log.push(entry).drop_last() =~= log);
}

/// The operation log of one actor.
pub struct OpLog {
    path: String,
    records: Vec<LogRecord>,
}

impl View for OpLog {
    type V = Seq<Entry>;

    /// The logged entries, oldest first.
    closed spec fn view(&self) -> Seq<Entry> {
        entries(self.records@)
    }
}

impl OpLog {
    /// Every record carries its position as its sequence number and as the
    /// identifier of its message.
    pub closed spec fn wf(&self) -> bool {
        in_sequence(self.records@)
    }

    /// The path of the file that holds this log.
    pub closed spec fn path_view(&self) -> Seq<char> {
        self.path@
    }

    /// The records as they are kept: the record at position `i` has sequence
    /// number `i` and holds entry `i` of the log.
    pub closed spec fn records_view(&self) -> Seq<LogRecord> {
        self.records@
    }

    /// The records of a log can be counted in a `usize`.
    pub proof fn lemma_len_fits(&self)
        ensures
            self@.len() <= usize::MAX,
    {
        vstd::std_specs::vec::axiom_spec_len(&self.records);
    }

    /// An empty log whose file is at `path`.
    pub fn new(path: String) -> (log: OpLog)
        ensures
            log.wf(),
            log@ == Seq::<Entry>::empty(),
            log.path_view() == path@,
    {
        let log = OpLog { path, records: Vec::new() };
        assert(log@ =~= Seq::<Entry>::empty());
        log
    }

    /// Appends a record of the event `(mtype, txid, senderid, opid)` under the
    /// next sequence number.
    pub fn append(&mut self, mtype: MessageType, txid: i32, senderid: String, opid: i32)
        requires
            old(self).wf(),
        ensures
            final(self).wf(),
            final(self)@ == old(self)@.push(
                Entry { kind: mtype, txid: txid as int, sender: senderid@, opid: opid as int },
            ),
            final(self).path_view() == old(self).path_view(),
    {
        let seqno = self.records.len() as u64;
        let message = ProtocolMessage::generate(mtype, seqno, txid, senderid, opid);
        self.records.push(LogRecord { seqno, message });
        assert(self@ =~= old(self)@.push(
            Entry { kind: mtype, txid: txid as int, sender: senderid@, opid: opid as int },
        ));
    }

    /// Whether the log holds a decision on the transaction `txid` that
    /// opposes a decision of kind `mtype`.
    pub fn holds_opposite(&self, mtype: MessageType, txid: i32) -> (b: bool)
        ensures
            b == contradicts(self@, mtype, txid as int),
    {
        if !mtype.decides() {
            return false;
        }
        let mut i: usize = 0;
        while i < self.records.len()
            invariant
                i <= self.records@.len(),
                is_decision(mtype),
                forall|j: int| 0 <= j < i ==> !opposes(#[trigger] self@[j], mtype, txid as int),
            decreases self.records@.len() - i,
        {
            let m = &self.records[i].message;
            assert(self@[i as int] == m@.entry());
            if m.mtype.decides() && m.txid == txid && m.mtype != mtype {
                assert(opposes(self@[i as int], mtype, txid as int));
                return true;
            }
            i += 1;
        }
        false
    }

    /// How many records of kind `kind` the log holds.
    pub fn count(&self, kind: MessageType) -> (n: usize)
        ensures
            n == count_kind(self@, kind),
    {
        let mut n: usize = 0;
        let mut i: usize = 0;
        while i < self.records.len()
            invariant
                i <= self.records@.len(),
                n <= i,
                n == count_kind(self@.subrange(0, i as int), kind),
            decreases self.records@.len() - i,
        {
            proof {
                assert(self@.subrange(0, i + 1) =~= self@.subrange(0, i as int).push(self@[i as int]));
                lemma_count_kind_push(self@.subrange(0, i as int), self@[i as int], kind);
            }
            if self.records[i].message.mtype == kind {
                n += 1;
            }
            i += 1;
        }
        assert(self@.subrange(0, i as int) =~= self@);
        n
    }

    /// Whether this log and `other` agree: on no transaction does one of
    /// them hold a commit and the other an abort.
    pub fn agrees_with(&self, other: &OpLog) -> (b: bool)
        ensures
            b == agree(self@, other@),
    {
        let mut j: usize = 0;
        while j < other.records.len()
            invariant
                j <= other.records@.len(),
                forall|i: int, k: int|
                    0 <= i < self@.len() && 0 <= k < j ==> !opposes(
                        #[trigger] self@[i],
                        (#[trigger] other@[k]).kind,
                        other@[k].txid,
                    ),
            decreases other.records@.len() - j,
        {
            let m = &other.records[j].message;
            assert(other@[j as int] == m@.entry());
            if self.holds_opposite(m.mtype, m.txid) {
                return false;
            }
            j += 1;
        }
        true
    }

    /// The log at `path` that holds the records `records`, if each of them
    /// carries its position as its sequence number and as the identifier of
    /// its message.
    pub fn restore(path: String, records: Vec<LogRecord>) -> (log: Option<OpLog>)
        ensures
            log.is_some() <==> in_sequence(records@),
            log matches Some(l) ==> l.wf() && l.records_view() == records@ && l@ == entries(
                records@,
            ) && l.path_view() == path@,
    {
        let mut i: usize = 0;
        while i < records.len()
            invariant
                i <= records@.len(),
                forall|j: int|
                    0 <= j < i ==> (#[trigger] records@[j]).seqno == j && records@[j].message.uid
                        == j,
            decreases records@.len() - i,
        {
            if records[i].seqno != i as u64 || records[i].message.uid != i as u64 {
                return None;
            }
            i += 1;
        }
        Some(OpLog { path, records })
    }

    /// The number of records.
    pub fn len(&self) -> (n: usize)
        ensures
            n == self@.len(),
    {
        self.records.len()
    }

    /// The path of the file that holds this log.
    pub fn path(&self) -> (p: &String)
        ensures
            p@ == self.path_view(),
    {
        &self.path
    }

    /// All records, oldest first.
    pub fn records(&self) -> (all: &Vec<LogRecord>)
        ensures
            all@ == self.records_view(),
            all@.len() == self@.len(),
            forall|i: int| 0 <= i < all@.len() ==> (#[trigger] all@[i]).message@.entry() == self@[i],
            self.wf() ==> forall|i: int|
                0 <= i < all@.len() ==> (#[trigger] all@[i]).seqno == i && all@[i].message.uid
                    == i,
    {
        &self.records
    }

    /// The record with sequence number `seqno`, if the log has one.
    pub fn read(&self, seqno: u64) -> (found: Option<&LogRecord>)
        requires
            self.wf(),
        ensures
            found.is_some() <==> seqno < self@.len(),
            found matches Some(r) ==> r.seqno == seqno && r.message@.entry() == self@[seqno as int]
                && *r == self.records_view()[seqno as int],
    {
        if seqno < self.records.len() as u64 {
            Some(&self.records[seqno as usize])
        } else {
            None
        }
    }
}

} // verus!
