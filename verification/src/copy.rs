use vstd::prelude::*;
use crate::session::CopyOutcome;

verus! {

/// What one read on a copy direction's source half produced: a chunk of
/// bytes, end of stream, or an I/O error with its text.
#[derive(PartialEq, Eq, Debug)]
pub enum ReadEvent {
    Data(Vec<u8>),
    Eof,
    ReadError(String),
}

/// The bytes a copy direction hands to its sink, given what its source
/// produced: every chunk in order, byte for byte, up to the first end of
/// stream or error.
pub open spec fn spec_delivered(reads: Seq<ReadEvent>) -> Seq<u8>
    decreases reads.len(),
{
    if reads.len() == 0 {
        Seq::empty()
    } else {
        match reads[0] {
            ReadEvent::Data(chunk) => chunk@ + spec_delivered(reads.drop_first()),
            _ => Seq::empty(),
        }
    }
}

/// How a copy direction ends on this source trace: `None` while every read
/// so far produced data, otherwise the first end of stream or error.
pub open spec fn spec_copy_end(reads: Seq<ReadEvent>) -> Option<CopyOutcome>
    decreases reads.len(),
{
    if reads.len() == 0 {
        None
    } else {
        match reads[0] {
            ReadEvent::Data(_) => spec_copy_end(reads.drop_first()),
            ReadEvent::Eof => Some(CopyOutcome::Eof),
            ReadEvent::ReadError(e) => Some(CopyOutcome::Failed(e)),
        }
    }
}

/// While no read has ended the stream, one more read appends its chunk to
/// what is delivered, and only an end of stream or an error ends the copy.
pub proof fn lemma_copy_snoc(es: Seq<ReadEvent>, e: ReadEvent)
    requires
        spec_copy_end(es) is None,
    ensures
        spec_copy_end(es.push(e)) == (match e {
            ReadEvent::Data(_) => None::<CopyOutcome>,
            ReadEvent::Eof => Some(CopyOutcome::Eof),
            ReadEvent::ReadError(err) => Some(CopyOutcome::Failed(err)),
        }),
        spec_delivered(es.push(e)) == spec_delivered(es) + (match e {
            ReadEvent::Data(chunk) => chunk@,
            _ => Seq::<u8>::empty(),
        }),
    decreases es.len(),
{
    reveal_with_fuel(spec_copy_end, 3);
    reveal_with_fuel(spec_delivered, 3);
    if es.len() == 0 {
        assert(es.push(e)[0] == e);
        assert(es.push(e).drop_first() =~= Seq::<ReadEvent>::empty());
        assert(spec_delivered(es.push(e)) =~= spec_delivered(es) + (match e {
            ReadEvent::Data(chunk) => chunk@,
            _ => Seq::<u8>::empty(),
        }));
    } else {
        assert(es[0] is Data);
        assert(es.push(e)[0] == es[0]);
        assert(es.push(e).drop_first() =~= es.drop_first().push(e));
        lemma_copy_snoc(es.drop_first(), e);
        assert(spec_delivered(es.push(e)) =~= spec_delivered(es) + (match e {
            ReadEvent::Data(chunk) => chunk@,
            _ => Seq::<u8>::empty(),
        }));
    }
}

/// Once a prefix of the trace has ended the copy, the rest of the trace
/// changes neither what was delivered nor how the copy ended.
pub proof fn lemma_copy_ended(es: Seq<ReadEvent>, k: int)
    requires
        0 <= k <= es.len(),
        spec_copy_end(es.take(k)) is Some,
    ensures
        spec_copy_end(es) == spec_copy_end(es.take(k)),
        spec_delivered(es) == spec_delivered(es.take(k)),
    decreases es.len(),
{
    reveal_with_fuel(spec_copy_end, 2);
    reveal_with_fuel(spec_delivered, 2);
    if k == 0 {
        assert(es.take(0) =~= Seq::<ReadEvent>::empty());
        assert(false);
    } else {
        assert(es.take(k)[0] == es[0]);
        match es[0] {
            ReadEvent::Data(chunk) => {
                assert(es.take(k).drop_first() =~= es.drop_first().take(k - 1));
                lemma_copy_ended(es.drop_first(), k - 1);
                assert(spec_delivered(es) =~= spec_delivered(es.take(k)));
            },
            _ => {
                assert(spec_delivered(es) =~= spec_delivered(es.take(k)));
            },
        }
    }
}

/// Runs one copy direction over a recorded source trace: returns the bytes
/// handed to the sink — every chunk in order, byte for byte, up to the first
/// end of stream or error — and how the copy ended, `None` if the trace ran
/// out while the stream was still open.
pub fn run_copy(reads: &Vec<ReadEvent>) -> (r: (Vec<u8>, Option<CopyOutcome>))
    ensures
        r.0@ == spec_delivered(reads@),
        r.1 == spec_copy_end(reads@),
{
    let mut out: Vec<u8> = Vec::new();
    let mut i: usize = 0;
    proof {
        assert(reads@.take(0) =~= Seq::<ReadEvent>::empty());
    }
    while i < reads.len()
        invariant
            i <= reads.len(),
            spec_copy_end(reads@.take(i as int)) is None,
            out@ == spec_delivered(reads@.take(i as int)),
        decreases reads.len() - i,
    {
        proof {
            lemma_copy_snoc(reads@.take(i as int), reads@[i as int]);
            assert(reads@.take(i as int).push(reads@[i as int]) =~= reads@.take(i as int + 1));
        }
        match &reads[i] {
            ReadEvent::Data(chunk) => {
                let mut j: usize = 0;
                proof {
                    assert(out@ =~= spec_delivered(reads@.take(i as int)) + chunk@.take(0));
                }
                while j < chunk.len()
                    invariant
                        j <= chunk.len(),
                        out@ == spec_delivered(reads@.take(i as int)) + chunk@.take(j as int),
                    decreases chunk.len() - j,
                {
                    out.push(chunk[j]);
                    proof {
                        assert(chunk@.take(j as int).push(chunk@[j as int]) =~= chunk@.take(
                            j as int + 1,
                        ));
                        assert(out@ =~= spec_delivered(reads@.take(i as int)) + chunk@.take(
                            j as int + 1,
                        ));
                    }
                    j = j + 1;
                }
                proof {
                    assert(chunk@.take(chunk@.len() as int) =~= chunk@);
                }
            },
            ReadEvent::Eof => {
                proof {
                    lemma_copy_ended(reads@, i as int + 1);
                    assert(spec_delivered(reads@) =~= out@);
                }
                return (out, Some(CopyOutcome::Eof));
            },
            ReadEvent::ReadError(e) => {
                proof {
                    lemma_copy_ended(reads@, i as int + 1);
                    assert(spec_delivered(reads@) =~= out@);
                }
                return (out, Some(CopyOutcome::Failed(e.clone())));
            },
        }
        i = i + 1;
    }
    proof {
        assert(reads@.take(reads@.len() as int) =~= reads@);
    }
    (out, None)
}

/// A byte of the delivered stream and where it came from: byte `k` of the
/// data chunk read at position `j` of the same direction's own trace.
pub open spec fn spec_byte_from(reads: Seq<ReadEvent>, j: int, k: int, i: int) -> bool {
    &&& 0 <= j < reads.len()
    &&& reads[j] is Data
    &&& 0 <= k < reads[j]->Data_0@.len()
    &&& spec_delivered(reads)[i] == reads[j]->Data_0@[k]
}

/// Sessions do not cross-talk: every byte a direction delivers comes from a
/// chunk of that direction's own source trace — no other session's trace
/// appears in the statement at all.
pub proof fn lemma_no_cross_talk(reads: Seq<ReadEvent>, i: int)
    requires
        0 <= i < spec_delivered(reads).len(),
    ensures
        exists|j: int, k: int| spec_byte_from(reads, j, k, i),
    decreases reads.len(),
{
    reveal_with_fuel(spec_delivered, 2);
    match reads[0] {
        ReadEvent::Data(chunk) => {
            if i < chunk@.len() {
                assert(spec_byte_from(reads, 0, i, i));
            } else {
                lemma_no_cross_talk(reads.drop_first(), i - chunk@.len());
                let (j2, k2) = choose|j2: int, k2: int|
                    #[trigger] spec_byte_from(reads.drop_first(), j2, k2, i - chunk@.len());
                assert(reads[j2 + 1] == reads.drop_first()[j2]);
                assert(spec_byte_from(reads, j2 + 1, k2, i));
            }
        },
        _ => {
            assert(false);
        },
    }
}

} // verus!
