use vstd::prelude::*;

verus! {

/// The byte that ends each record on the command channel.
pub const NEWLINE: u8 = 10;

/// Whether the bytes hold a line terminator.
pub open spec fn has_newline(s: Seq<u8>) -> bool {
    exists|i: int| 0 <= i < s.len() && s[i] == NEWLINE
}

/// Why a record cannot be framed.
#[derive(Debug, Clone, Copy, PartialEq, Eq, Structural)]
pub enum FrameError {
    /// The record holds a line terminator, so a reader would cut it short.
    EmbeddedNewline,
}

/// Frames one encoded record for the channel: the record, then one line
/// terminator.
pub fn frame_record(record: &Vec<u8>) -> (r: Result<Vec<u8>, FrameError>)
    ensures
        r is Ok <==> !has_newline(record@),
        r matches Ok(f) ==> f@ == record@.push(NEWLINE),
        r matches Err(e) ==> e == FrameError::EmbeddedNewline,
{
    let mut out: Vec<u8> = Vec::new();
    let mut i: usize = 0;
    while i < record.len()
        invariant
            i <= record@.len(),
            out@ == record@.subrange(0, i as int),
            forall|j: int| 0 <= j < i ==> record@[j] != NEWLINE,
        decreases record@.len() - i,
    {
        let b = record[i];
        if b == NEWLINE {
            return Err(FrameError::EmbeddedNewline);
        }
        out.push(b);
        i = i + 1;
        assert(out@ =~= record@.subrange(0, i as int));
    }
    assert(out@ =~= record@);
    out.push(NEWLINE);
    Ok(out)
}

/// Splits the first complete record off the received bytes: the bytes before
/// the first line terminator, and those after it. `None` while no terminator
/// has arrived.
pub fn split_record(buf: &Vec<u8>) -> (r: Option<(Vec<u8>, Vec<u8>)>)
    ensures
        r is None <==> !has_newline(buf@),
        r matches Some((line, rest)) ==> buf@ == line@.push(NEWLINE) + rest@ && !has_newline(
            line@,
        ),
{
    let mut i: usize = 0;
    while i < buf.len()
        invariant
            i <= buf@.len(),
            forall|j: int| 0 <= j < i ==> buf@[j] != NEWLINE,
        decreases buf@.len() - i,
    {
        if buf[i] == NEWLINE {
            let mut line: Vec<u8> = Vec::new();
            let mut rest: Vec<u8> = Vec::new();
            let mut k: usize = 0;
            while k < buf.len()
                invariant
                    i < buf@.len(),
                    k <= buf@.len(),
                    k <= i ==> line@ == buf@.subrange(0, k as int) && rest@.len() == 0,
                    k > i ==> line@ == buf@.subrange(0, i as int) && rest@ == buf@.subrange(
                        i + 1,
                        k as int,
                    ),
                decreases buf@.len() - k,
            {
                if k < i {
                    line.push(buf[k]);
                } else if k > i {
                    rest.push(buf[k]);
                }
                k = k + 1;
                assert(k <= i ==> line@ =~= buf@.subrange(0, k as int));
                assert(k > i + 1 ==> rest@ =~= buf@.subrange(i + 1, k as int));
                assert(k == i + 1 ==> rest@ =~= buf@.subrange(i + 1, k as int));
            }
            assert(buf@ =~= line@.push(NEWLINE) + rest@);
            return Some((line, rest));
        }
        i = i + 1;
    }
    None
}

/// A record and the bytes after its terminator are fixed by the buffer:
/// two ways of writing one buffer as a terminator-free line, a terminator,
/// and a rest, agree.
proof fn lemma_split_unique(l1: Seq<u8>, r1: Seq<u8>, l2: Seq<u8>, r2: Seq<u8>)
    requires
        !has_newline(l1),
        !has_newline(l2),
        l1.push(NEWLINE) + r1 == l2.push(NEWLINE) + r2,
    ensures
        l1 == l2,
        r1 == r2,
{
    let b = l1.push(NEWLINE) + r1;
    assert(b[l1.len() as int] == NEWLINE);
    assert(b[l2.len() as int] == NEWLINE);
    if l1.len() < l2.len() {
        assert(l2[l1.len() as int] == NEWLINE);
    } else if l2.len() < l1.len() {
        assert(l1[l2.len() as int] == NEWLINE);
    }
    assert(l1 =~= b.subrange(0, l1.len() as int));
    assert(l2 =~= b.subrange(0, l2.len() as int));
    assert(r1 =~= b.subrange(l1.len() as int + 1, b.len() as int));
    assert(r2 =~= b.subrange(l2.len() as int + 1, b.len() as int));
}

/// Framing round trip: a record without a terminator, framed and followed by
/// any further bytes, is split back into exactly that record and those bytes.
pub proof fn lemma_frame_round_trip(
    record: Seq<u8>,
    after: Seq<u8>,
    line: Seq<u8>,
    rest: Seq<u8>,
)
    requires
        !has_newline(record),
        record.push(NEWLINE) + after == line.push(NEWLINE) + rest,
        !has_newline(line),
    ensures
        line == record,
        rest == after,
{
    lemma_split_unique(record, after, line, rest);
}

/// Collects the bytes of one connection until a full record has arrived.
/// Each connection gets a fresh reader, so nothing received on one
/// connection reaches the parse of another.
pub struct RecordReader {
    pending: Vec<u8>,
}

impl View for RecordReader {
    type V = Seq<u8>;

    /// The bytes received and not yet handed out as a record.
    closed spec fn view(&self) -> Seq<u8> {
        self.pending@
    }
}

impl RecordReader {
    /// A reader that has received nothing.
    pub fn new() -> (r: RecordReader)
        ensures
            r@ == Seq::<u8>::empty(),
    {
        RecordReader { pending: Vec::new() }
    }

    /// Takes in received bytes. Once a terminator has arrived, hands out the
    /// record before it and keeps what follows it.
    pub fn receive(&mut self, chunk: &[u8]) -> (r: Option<Vec<u8>>)
        ensures
            r is None <==> !has_newline(old(self)@ + chunk@),
            r is None ==> final(self)@ == old(self)@ + chunk@,
            r matches Some(line) ==> old(self)@ + chunk@ == line@.push(NEWLINE) + final(self)@
                && !has_newline(line@),
    {
        crate::digest::push_bytes(&mut self.pending, chunk);
        match split_record(&self.pending) {
            None => None,
            Some((line, rest)) => {
                self.pending = rest;
                Some(line)
            },
        }
    }
}

} // verus!
