//! The change-cipher-spec record of a TLS connection, which is read and then ignored.
//!
//! A record is read into a buffer in as many reads as the socket needs. The reads are the
//! caller's; how many bytes are still to come, and when the record is complete, is decided here.

use vstd::prelude::*;

verus! {

/// The size of the buffer that a record is read into.
pub const BUFFER_SIZE: u16 = 2048;

/// How reading a record fails.
#[derive(Clone, Copy, Debug, PartialEq, Eq, Structural)]
pub enum TlsError {
    InvalidRecord,
}

/// A change-cipher-spec record. Nothing of its contents is kept.
#[derive(Clone, Copy, Debug)]
pub struct ChangeCipherSpec {}

/// A record of which some bytes have been read.
#[derive(Debug)]
pub struct PartialRecord {
    len: u16,
    num_read: usize,
}

impl PartialRecord {
    /// The length of the record.
    pub closed spec fn len(&self) -> nat {
        self.len as nat
    }

    /// The number of bytes read so far.
    pub closed spec fn num_read(&self) -> nat {
        self.num_read as nat
    }

    /// The bytes read are part of the record, and the record fits the buffer.
    pub open spec fn wf(&self) -> bool {
        self.num_read() <= self.len() <= BUFFER_SIZE
    }

    /// A record of the given length, of which nothing has been read.
    pub fn new(len: u16) -> (record: PartialRecord)
        requires
            len <= BUFFER_SIZE,
        ensures
            record.wf(),
            record.len() == len,
            record.num_read() == 0,
    {
        PartialRecord { len, num_read: 0 }
    }

    /// The part of the buffer, from the first index up to but without the second, that the next
    /// read goes to.
    pub fn window(&self) -> (window: (usize, usize))
        requires
            self.wf(),
        ensures
            window.0 == self.num_read(),
            window.1 == self.len(),
    {
        (self.num_read, self.len as usize)
    }
}

/// How reading a record goes on after a read.
pub enum ParseStep {
    /// The rest of the record is still to be read.
    More(PartialRecord),
    /// The record has been read, or could not be.
    Done(Result<ChangeCipherSpec, TlsError>),
}

/// What one read makes of a record, in numbers of bytes.
pub enum Reading {
    More(nat),
    Complete,
    Failed,
}

/// What a read that brought some bytes, or `None` where it failed, makes of a record of which
/// `num_read` bytes were there.
pub open spec fn after_read(len: nat, num_read: nat, received: Option<nat>) -> Reading {
    match received {
        None => Reading::Failed,
        Some(n) => if num_read + n == len {
            Reading::Complete
        } else {
            Reading::More(num_read + n)
        },
    }
}

/// The number of bytes that a read brought, if it did not fail.
pub open spec fn bytes_received<E>(received: Result<usize, E>) -> Option<nat> {
    match received {
        Ok(n) => Some(n as nat),
        Err(_) => None,
    }
}

impl ChangeCipherSpec {
    /// Goes on after a read into the record's window. The record is complete once as many bytes
    /// have been read as it is long; a read that fails makes it invalid. The contents do not
    /// matter.
    pub fn parse<E>(record: PartialRecord, received: Result<usize, E>) -> (step: ParseStep)
        requires
            record.wf(),
            received matches Ok(n) ==> record.num_read() + n <= record.len(),
        ensures
            step is More <==> (received matches Ok(n) && record.num_read() + n < record.len()),
            step matches ParseStep::Done(Ok(_)) <==> (received matches Ok(n) && record.num_read() + n
                == record.len()),
            step matches ParseStep::Done(Err(_)) <==> received is Err,
            match after_read(record.len(), record.num_read(), bytes_received(received)) {
                Reading::More(num_read) => {
                    &&& step matches ParseStep::More(more)
                    &&& more.wf()
                    &&& more.len() == record.len()
                    &&& more.num_read() == num_read
                },
                Reading::Complete => step matches ParseStep::Done(Ok(_)),
                Reading::Failed => step matches ParseStep::Done(Err(e)) && e
                    == TlsError::InvalidRecord,
            },
    {
        match received {
            Err(_) => ParseStep::Done(Err(TlsError::InvalidRecord)),
            Ok(n) => {
                let num_read: usize = record.num_read + n;
                if num_read == record.len as usize {
                    ParseStep::Done(Ok(ChangeCipherSpec {  }))
                } else {
                    ParseStep::More(PartialRecord { len: record.len, num_read })
                }
            },
        }
    }
}

/// Each read counts for what it brought, no more and no less: the record is complete when nothing
/// is missing any more, otherwise the bytes add up, and no number of bytes makes up for a failure.
pub proof fn law_each_read_counts<E>(len: nat, num_read: nat, received: Result<usize, E>)
    requires
        received matches Ok(n) ==> num_read + n <= len,
    ensures
        after_read(len, num_read, bytes_received(received)) is Failed <==> received is Err,
        after_read(len, num_read, bytes_received(received)) is Complete <==> (received matches Ok(n)
            && n == len - num_read),
        after_read(len, num_read, bytes_received(received)) matches Reading::More(more)
            ==> received matches Ok(n) && more - num_read == n && more < len,
{
}

/// A record may be as long as the whole buffer of 2048 bytes, and not longer.
pub proof fn law_records_fill_the_buffer(record: PartialRecord)
    ensures
        record.wf() <==> record.num_read() <= record.len() && record.len() <= 2048,
{
}

/// What a sequence of reads makes of a record of which `num_read` bytes were there. Reads after
/// the last one that mattered are not made.
pub open spec fn after_reads(len: nat, num_read: nat, reads: Seq<Option<nat>>) -> Reading
    decreases reads.len(),
{
    if reads.len() == 0 {
        Reading::More(num_read)
    } else {
        match after_read(len, num_read, reads.first()) {
            Reading::More(more) => after_reads(len, more, reads.drop_first()),
            reading => reading,
        }
    }
}

/// Reads that bring the given numbers of bytes.
pub open spec fn successful(counts: Seq<nat>) -> Seq<Option<nat>> {
    counts.map_values(|n: nat| Some(n))
}

/// The number of bytes that reads bring together.
pub open spec fn total(counts: Seq<nat>) -> nat
    decreases counts.len(),
{
    if counts.len() == 0 {
        0
    } else {
        counts.first() + total(counts.drop_first())
    }
}

/// However a record is cut into reads, it is complete exactly when they brought as many bytes as
/// it is long, and until then every byte is counted.
pub proof fn law_record_is_complete_when_all_is_read(len: nat, num_read: nat, counts: Seq<nat>)
    requires
        counts.len() > 0,
        num_read + total(counts) <= len,
        num_read + total(counts.drop_last()) < len || counts.len() == 1,
    ensures
        after_reads(len, num_read, successful(counts)) == (if num_read + total(counts) == len {
            Reading::Complete
        } else {
            Reading::More(num_read + total(counts))
        }),
    decreases counts.len(),
{
    let reads = successful(counts);
    let rest = counts.drop_first();
    assert(reads.drop_first() =~= successful(rest));
    if rest.len() == 0 {
        assert(total(rest) == 0);
        assert(after_reads(len, num_read + counts.first(), reads.drop_first()) == Reading::More(
            num_read + counts.first(),
        ));
    } else {
        assert(counts.drop_last().first() == counts.first());
        assert(counts.drop_last().drop_first() =~= rest.drop_last());
        assert(total(counts.drop_last()) == counts.first() + total(rest.drop_last()));
        law_record_is_complete_when_all_is_read(len, num_read + counts.first(), rest);
    }
}

/// A read that fails makes the record invalid, however much was read before. Reads are made while
/// the record is not complete, and the first one is made in any case.
pub proof fn law_failed_read_makes_record_invalid(len: nat, num_read: nat, counts: Seq<nat>)
    requires
        num_read + total(counts) < len || counts.len() == 0,
    ensures
        after_reads(len, num_read, successful(counts).push(None)) == Reading::Failed,
    decreases counts.len(),
{
    let reads = successful(counts).push(None);
    if counts.len() > 0 {
        let rest = counts.drop_first();
        assert(reads.drop_first() =~= successful(rest).push(None));
        law_failed_read_makes_record_invalid(len, num_read + counts.first(), rest);
    }
}

} // verus!
