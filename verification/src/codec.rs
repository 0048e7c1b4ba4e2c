//! The format of a log file: the records of a log, one after the other.
//!
//! A record is written as its sequence number and the identifier of its
//! message (8 bytes each), the tag of its kind (1 byte), its transaction
//! identifier and its operation identifier (4 bytes each, raised by 2^31 so
//! that they are never negative), the length of the sender's name in bytes
//! (8 bytes) and the name in UTF-8. All numbers are written least
//! significant byte first. The length makes a record end where the next one
//! begins.

use crate::message::tag_of;
use crate::message::MessageType;
use crate::message::ProtocolMessage;
use crate::oplog::contents;
use crate::oplog::LogRecord;
use crate::oplog::Record;
use vstd::bytes::lemma_auto_spec_u32_to_from_le_bytes;
use vstd::bytes::lemma_auto_spec_u64_to_from_le_bytes;
use vstd::bytes::spec_u32_to_le_bytes;
use vstd::bytes::spec_u64_to_le_bytes;
use vstd::bytes::u32_from_le_bytes;
use vstd::bytes::u32_to_le_bytes;
use vstd::bytes::u64_from_le_bytes;
use vstd::bytes::u64_to_le_bytes;
use vstd::prelude::*;
use vstd::slice::slice_subrange;
use vstd::slice::slice_to_vec;
use vstd::utf8::decode_utf8;
use vstd::utf8::decode_utf8_encode_utf8;
use vstd::utf8::encode_utf8;
use vstd::utf8::encode_utf8_decode_utf8;
use vstd::utf8::encode_utf8_valid_utf8;
use vstd::utf8::valid_utf8;

verus! {

/// The number of bytes of a record before the sender's name.
pub const HEADER_LEN: usize = 33;

/// A record that can be written: its numbers fit their fields.
pub open spec fn writable(r: Record) -> bool {
    &&& r.seqno <= u64::MAX
    &&& r.message.uid <= u64::MAX
    &&& i32::MIN <= r.message.txid <= i32::MAX
    &&& i32::MIN <= r.message.opid <= i32::MAX
    &&& encode_utf8(r.message.sender).len() <= u64::MAX
}

/// A 32-bit integer raised by 2^31.
pub open spec fn raised(i: int) -> u32 {
    (i + 0x8000_0000) as u32
}

/// The bytes of one record.
pub open spec fn encoded(r: Record) -> Seq<u8> {
    spec_u64_to_le_bytes(r.seqno as u64) + spec_u64_to_le_bytes(r.message.uid as u64) + seq![
        tag_of(r.message.kind),
    ] + spec_u32_to_le_bytes(raised(r.message.txid)) + spec_u32_to_le_bytes(
        raised(r.message.opid),
    ) + spec_u64_to_le_bytes(encode_utf8(r.message.sender).len() as u64) + encode_utf8(
        r.message.sender,
    )
}

/// The bytes of a run of records.
pub open spec fn encoded_all(rs: Seq<Record>) -> Seq<u8>
    decreases rs.len(),
{
    if rs.len() == 0 {
        Seq::<u8>::empty()
    } else {
        encoded_all(rs.drop_last()) + encoded(rs.last())
    }
}

/// Every record of a run can be written.
pub open spec fn all_writable(rs: Seq<Record>) -> bool {
    forall|i: int| 0 <= i < rs.len() ==> writable(#[trigger] rs[i])
}

/// `String::from_utf8`: the text that `bytes` spell in UTF-8. There is one
/// exactly if the bytes are valid UTF-8, and it is made of the characters
/// that they decode to.
#[verifier::external_body]
fn text_of(bytes: Vec<u8>) -> (text: Option<String>)
    ensures
        text.is_some() <==> valid_utf8(bytes@),
        text matches Some(s) ==> s@ == decode_utf8(bytes@),
{
    String::from_utf8(bytes).ok()
}

fn raise(i: i32) -> (u: u32)
    ensures
        u == raised(i as int),
{
    (i as i64 + 0x8000_0000) as u32
}

fn lower(u: u32) -> (i: i32)
    ensures
        raised(i as int) == u,
{
    (u as i64 - 0x8000_0000) as i32
}

/// The parts of a record stand at fixed places in front of whatever
/// follows it.
proof fn lemma_parts(r: Record, rest: Seq<u8>)
    requires
        writable(r),
    ensures
        ({
            let bytes = encoded(r) + rest;
            let n = encode_utf8(r.message.sender).len() as int;
            &&& encoded(r).len() == HEADER_LEN + n
            &&& bytes.subrange(0, 8) == spec_u64_to_le_bytes(r.seqno as u64)
            &&& bytes.subrange(8, 16) == spec_u64_to_le_bytes(r.message.uid as u64)
            &&& bytes[16] == tag_of(r.message.kind)
            &&& bytes.subrange(17, 21) == spec_u32_to_le_bytes(raised(r.message.txid))
            &&& bytes.subrange(21, 25) == spec_u32_to_le_bytes(raised(r.message.opid))
            &&& bytes.subrange(25, 33) == spec_u64_to_le_bytes(n as u64)
            &&& bytes.subrange(33, 33 + n) == encode_utf8(r.message.sender)
            &&& bytes.subrange(0, 33 + n) == encoded(r)
        }),
{
    lemma_auto_spec_u32_to_from_le_bytes();
    lemma_auto_spec_u64_to_from_le_bytes();
    let bytes = encoded(r) + rest;
    let n = encode_utf8(r.message.sender).len() as int;
    assert(bytes.subrange(0, 8) =~= spec_u64_to_le_bytes(r.seqno as u64));
    assert(bytes.subrange(8, 16) =~= spec_u64_to_le_bytes(r.message.uid as u64));
    assert(bytes.subrange(17, 21) =~= spec_u32_to_le_bytes(raised(r.message.txid)));
    assert(bytes.subrange(21, 25) =~= spec_u32_to_le_bytes(raised(r.message.opid)));
    assert(bytes.subrange(25, 33) =~= spec_u64_to_le_bytes(n as u64));
    assert(bytes.subrange(33, 33 + n) =~= encode_utf8(r.message.sender));
    assert(bytes.subrange(0, 33 + n) =~= encoded(r));
}

/// The bytes of a run of records are those of its first `k` records
/// followed by those of the others.
proof fn lemma_encoded_all_split(rs: Seq<Record>, k: int)
    requires
        0 <= k <= rs.len(),
    ensures
        encoded_all(rs) == encoded_all(rs.subrange(0, k)) + encoded_all(
            rs.subrange(k, rs.len() as int),
        ),
    decreases rs.len(),
{
    let back = rs.subrange(k, rs.len() as int);
    if k == rs.len() {
        assert(rs.subrange(0, k) =~= rs);
        assert(encoded_all(rs) + encoded_all(back) =~= encoded_all(rs));
    } else {
        lemma_encoded_all_split(rs.drop_last(), k);
        assert(rs.drop_last().subrange(0, k) =~= rs.subrange(0, k));
        assert(rs.drop_last().subrange(k, rs.len() - 1) =~= back.drop_last());
        assert(back.last() == rs.last());
        assert(encoded_all(rs.subrange(0, k)) + encoded_all(back.drop_last()) + encoded(rs.last())
            =~= encoded_all(rs.subrange(0, k)) + (encoded_all(back.drop_last()) + encoded(
            rs.last(),
        )));
    }
}

/// The bytes of a run of records begin with those of its first record.
proof fn lemma_encoded_all_front(rs: Seq<Record>)
    requires
        rs.len() > 0,
    ensures
        encoded_all(rs) == encoded(rs[0]) + encoded_all(rs.subrange(1, rs.len() as int)),
{
    lemma_encoded_all_split(rs, 1);
    let head = rs.subrange(0, 1);
    assert(head.drop_last() =~= Seq::<Record>::empty());
    assert(head.last() == rs[0]);
    assert(encoded_all(head.drop_last()) =~= Seq::<u8>::empty());
    assert(encoded_all(head) =~= encoded(rs[0]));
}

/// Appends the bytes of `record` to `out`.
pub fn encode_record(record: &LogRecord, out: &mut Vec<u8>)
    ensures
        final(out)@ == old(out)@ + encoded(record@),
        writable(record@),
{
    let name = record.message.senderid.as_str().as_bytes();
    let mut seqno = u64_to_le_bytes(record.seqno);
    let mut uid = u64_to_le_bytes(record.message.uid);
    let mut txid = u32_to_le_bytes(raise(record.message.txid));
    let mut opid = u32_to_le_bytes(raise(record.message.opid));
    let mut len = u64_to_le_bytes(name.len() as u64);
    let mut sender = slice_to_vec(name);
    out.append(&mut seqno);
    out.append(&mut uid);
    out.push(record.message.mtype.tag());
    out.append(&mut txid);
    out.append(&mut opid);
    out.append(&mut len);
    out.append(&mut sender);
    assert(out@ =~= old(out)@ + encoded(record@));
}

/// The bytes of the records `records`, one after the other.
pub fn encode(records: &Vec<LogRecord>) -> (bytes: Vec<u8>)
    ensures
        bytes@ == encoded_all(contents(records@)),
        all_writable(contents(records@)),
{
    let mut bytes: Vec<u8> = Vec::new();
    let mut i: usize = 0;
    while i < records.len()
        invariant
            i <= records@.len(),
            bytes@ == encoded_all(contents(records@).subrange(0, i as int)),
            forall|j: int| 0 <= j < i ==> writable(#[trigger] contents(records@)[j]),
        decreases records@.len() - i,
    {
        encode_record(&records[i], &mut bytes);
        assert(contents(records@).subrange(0, i + 1).drop_last() =~= contents(records@).subrange(
            0,
            i as int,
        ));
        i += 1;
    }
    assert(contents(records@).subrange(0, i as int) =~= contents(records@));
    bytes
}

/// Reads the record that begins at position `start` of `bytes`.
///
/// The result is the record and the position behind it, if the bytes from
/// `start` on begin with a record; that record is then the only one they
/// begin with. There is none if the bytes end too early, the tag stands for
/// no kind, or the name is not UTF-8.
pub fn decode_record(bytes: &[u8], start: usize) -> (found: Option<(LogRecord, usize)>)
    requires
        start <= bytes@.len(),
    ensures
        found matches Some((record, next)) ==> start < next <= bytes@.len() && bytes@.subrange(
            start as int,
            next as int,
        ) == encoded(record@),
        forall|r: Record, rest: Seq<u8>|
            writable(r) && bytes@.subrange(start as int, bytes@.len() as int) == #[trigger] (
            encoded(r) + rest) ==> found.is_some() && found.unwrap().0@ == r && found.unwrap().1
                == start + encoded(r).len(),
{
    let ghost tail = bytes@.subrange(start as int, bytes@.len() as int);
    proof {
        lemma_auto_spec_u32_to_from_le_bytes();
        lemma_auto_spec_u64_to_from_le_bytes();
        assert forall|r: Record, rest: Seq<u8>| writable(r) && tail == #[trigger] (encoded(r)
            + rest) implies tail.len() >= HEADER_LEN + encode_utf8(r.message.sender).len() by {
            lemma_parts(r, rest);
        }
    }
    if bytes.len() - start < HEADER_LEN {
        return None;
    }
    let seqno = u64_from_le_bytes(slice_subrange(bytes, start, start + 8));
    let uid = u64_from_le_bytes(slice_subrange(bytes, start + 8, start + 16));
    let tag = bytes[start + 16];
    let txid = lower(u32_from_le_bytes(slice_subrange(bytes, start + 17, start + 21)));
    let opid = lower(u32_from_le_bytes(slice_subrange(bytes, start + 21, start + 25)));
    let len = u64_from_le_bytes(slice_subrange(bytes, start + 25, start + 33));
    proof {
        assert(bytes@.subrange(start as int, start + 8) =~= tail.subrange(0, 8));
        assert(bytes@.subrange(start + 8, start + 16) =~= tail.subrange(8, 16));
        assert(bytes@[start + 16] == tail[16]);
        assert(bytes@.subrange(start + 17, start + 21) =~= tail.subrange(17, 21));
        assert(bytes@.subrange(start + 21, start + 25) =~= tail.subrange(21, 25));
        assert(bytes@.subrange(start + 25, start + 33) =~= tail.subrange(25, 33));
        assert forall|r: Record, rest: Seq<u8>| writable(r) && tail == #[trigger] (encoded(r)
            + rest) implies {
            &&& seqno == r.seqno
            &&& uid == r.message.uid
            &&& tag == tag_of(r.message.kind)
            &&& txid == r.message.txid
            &&& opid == r.message.opid
            &&& len == encode_utf8(r.message.sender).len()
        } by {
            lemma_parts(r, rest);
        }
    }
    let room = bytes.len() - start - HEADER_LEN;
    if len > room as u64 {
        return None;
    }
    let n = len as usize;
    let kind = match MessageType::from_tag(tag) {
        Some(kind) => kind,
        None => {
            return None;
        },
    };
    let name = slice_to_vec(slice_subrange(bytes, start + HEADER_LEN, start + HEADER_LEN + n));
    proof {
        assert(bytes@.subrange(start + HEADER_LEN, start + HEADER_LEN + n) =~= tail.subrange(
            33,
            33 + n,
        ));
        assert forall|r: Record, rest: Seq<u8>| writable(r) && tail == #[trigger] (encoded(r)
            + rest) implies name@ == encode_utf8(r.message.sender) && kind == r.message.kind by {
            lemma_parts(r, rest);
        }
        assert forall|r: Record, rest: Seq<u8>| writable(r) && tail == #[trigger] (encoded(r)
            + rest) implies valid_utf8(name@) && decode_utf8(name@) == r.message.sender by {
            encode_utf8_valid_utf8(r.message.sender);
            encode_utf8_decode_utf8(r.message.sender);
        }
    }
    let senderid = match text_of(name) {
        Some(senderid) => senderid,
        None => {
            return None;
        },
    };
    let record = LogRecord {
        seqno,
        message: ProtocolMessage::generate(kind, uid, txid, senderid, opid),
    };
    let next = start + HEADER_LEN + n;
    proof {
        decode_utf8_encode_utf8(name@);
        assert(encode_utf8(record@.message.sender) == name@);
        assert(bytes@.subrange(start as int, next as int) =~= encoded(record@));
    }
    Some((record, next))
}

/// Reads a whole log file.
///
/// The result is the records that `bytes` are the encoding of, if there are
/// such records; they are then the only ones. What `encode` wrote, `decode`
/// reads back.
pub fn decode(bytes: &Vec<u8>) -> (records: Option<Vec<LogRecord>>)
    ensures
        records matches Some(rs) ==> encoded_all(contents(rs@)) == bytes@,
        forall|rs: Seq<Record>|
            all_writable(rs) && #[trigger] encoded_all(rs) == bytes@ ==> records.is_some()
                && contents(records.unwrap()@) == rs,
{
    let mut out: Vec<LogRecord> = Vec::new();
    let mut pos: usize = 0;
    let all = bytes.as_slice();
    while pos < all.len()
        invariant
            all@ == bytes@,
            pos <= all@.len(),
            all@.subrange(0, pos as int) == encoded_all(contents(out@)),
            forall|rs: Seq<Record>|
                all_writable(rs) && #[trigger] encoded_all(rs) == bytes@ ==> out@.len() <= rs.len()
                    && rs.subrange(0, out@.len() as int) == contents(out@),
        decreases all@.len() - pos,
    {
        let ghost before = out@;
        let found = decode_record(all, pos);
        proof {
            assert forall|rs: Seq<Record>|
                all_writable(rs) && #[trigger] encoded_all(rs) == bytes@ implies {
                &&& before.len() < rs.len()
                &&& found.is_some()
                &&& found.unwrap().0@ == rs[before.len() as int]
            } by {
                let k = before.len() as int;
                let back = rs.subrange(k, rs.len() as int);
                lemma_encoded_all_split(rs, k);
                assert(all@.subrange(pos as int, all@.len() as int) =~= encoded_all(back));
                if back.len() == 0 {
                    assert(encoded_all(back).len() == 0);
                }
                lemma_encoded_all_front(back);
                assert(back[0] == rs[k]);
                assert(writable(rs[k]));
                assert(all@.subrange(pos as int, all@.len() as int) == encoded(rs[k])
                    + encoded_all(back.subrange(1, back.len() as int)));
            }
        }
        match found {
            Some((record, next)) => {
                out.push(record);
                proof {
                    assert(all@.subrange(0, next as int) =~= all@.subrange(0, pos as int)
                        + all@.subrange(pos as int, next as int));
                    assert(contents(out@).drop_last() =~= contents(before));
                    assert(contents(out@).last() == record@);
                    assert forall|rs: Seq<Record>|
                        all_writable(rs) && #[trigger] encoded_all(rs)
                            == bytes@ implies out@.len() <= rs.len() && rs.subrange(
                        0,
                        out@.len() as int,
                    ) == contents(out@) by {
                        assert(rs.subrange(0, before.len() as int) == contents(before));
                        assert(rs.subrange(0, out@.len() as int) =~= rs.subrange(
                            0,
                            before.len() as int,
                        ).push(rs[before.len() as int]));
                        assert(contents(out@) =~= contents(before).push(record@));
                    }
                }
                pos = next;
            },
            None => {
                return None;
            },
        }
    }
    proof {
        assert(all@.subrange(0, pos as int) =~= bytes@);
        assert forall|rs: Seq<Record>|
            all_writable(rs) && #[trigger] encoded_all(rs) == bytes@ implies contents(out@)
            == rs by {
            let k = out@.len() as int;
            let back = rs.subrange(k, rs.len() as int);
            lemma_encoded_all_split(rs, k);
            assert(encoded_all(back).len() == 0);
            if back.len() > 0 {
                lemma_encoded_all_front(back);
                assert(writable(rs[k]));
                assert(back[0] == rs[k]);
                lemma_parts(back[0], Seq::<u8>::empty());
            }
            assert(rs.subrange(0, k) =~= rs);
        }
    }
    Some(out)
}

} // verus!
