//! Cutting the bytes read from a growing file into lines.
//!
//! A line is complete once its line feed has been read. What follows the
//! last line feed waits in the buffer for the reads to come.

use crate::text::{lemma_split_on, lemma_split_whole, split_on};
use vstd::prelude::*;

verus! {

/// The byte that ends a line.
pub const LINE_FEED: u8 = 10;

/// The byte that may stand before the line feed, and is no part of the line.
pub const CARRIAGE_RETURN: u8 = 13;

/// The complete lines of `data`, each without its line feed.
pub open spec fn complete_lines(data: Seq<u8>) -> Seq<Seq<u8>> {
    split_on(data, LINE_FEED).drop_last()
}

/// What follows the last line feed of `data`: the start of a line that is
/// not complete yet.
pub open spec fn remainder(data: Seq<u8>) -> Seq<u8> {
    split_on(data, LINE_FEED).last()
}

/// The line without the carriage returns at its end.
pub open spec fn strip_carriage_returns(line: Seq<u8>) -> Seq<u8>
    decreases line.len(),
{
    if line.len() > 0 && line.last() == CARRIAGE_RETURN {
        strip_carriage_returns(line.drop_last())
    } else {
        line
    }
}

/// The lines as they are handed out: without line feed and carriage returns.
pub open spec fn trimmed_lines(lines: Seq<Seq<u8>>) -> Seq<Seq<u8>> {
    lines.map_values(|line: Seq<u8>| strip_carriage_returns(line))
}

/// The lines handed out when `chunk` is read with `pending` in the buffer.
pub open spec fn emitted_lines(pending: Seq<u8>, chunk: Seq<u8>) -> Seq<Seq<u8>> {
    trimmed_lines(complete_lines(pending + chunk))
}

/// The bytes of a sequence of chunks, in order.
pub open spec fn concat_all(chunks: Seq<Seq<u8>>) -> Seq<u8>
    decreases chunks.len(),
{
    if chunks.len() == 0 {
        Seq::empty()
    } else {
        concat_all(chunks.drop_last()) + chunks.last()
    }
}

/// The buffer after the chunks were read one by one, and the lines handed
/// out on the way, in order.
pub open spec fn feed_all(pending: Seq<u8>, chunks: Seq<Seq<u8>>) -> (Seq<u8>, Seq<Seq<u8>>)
    decreases chunks.len(),
{
    if chunks.len() == 0 {
        (pending, Seq::empty())
    } else {
        let (waiting, lines) = feed_all(pending, chunks.drop_last());
        (remainder(waiting + chunks.last()), lines + emitted_lines(waiting, chunks.last()))
    }
}

/// What waits in the buffer holds no line feed, so it is no complete line
/// and stays what waits.
pub proof fn lemma_remainder_is_open(data: Seq<u8>)
    ensures
        complete_lines(remainder(data)) == Seq::<Seq<u8>>::empty(),
        remainder(remainder(data)) == remainder(data),
{
    lemma_split_on(data, LINE_FEED);
    let pieces = split_on(data, LINE_FEED);
    let rest = remainder(data);
    assert forall|i: int| 0 <= i < rest.len() implies rest[i] != LINE_FEED by {
        assert(pieces[pieces.len() - 1][i] != LINE_FEED);
    }
    lemma_split_whole(rest, LINE_FEED);
    assert(seq![rest].drop_last() =~= Seq::<Seq<u8>>::empty());
}

/// Reading `more` after `data` completes the lines that `data` and what it
/// left waiting complete together: no line is lost where a read ends, and
/// none is handed out twice.
pub proof fn lemma_lines_across_reads(data: Seq<u8>, more: Seq<u8>)
    ensures
        complete_lines(data + more) == complete_lines(data) + complete_lines(
            remainder(data) + more,
        ),
        remainder(data + more) == remainder(remainder(data) + more),
    decreases more.len(),
{
    lemma_remainder_is_open(data);
    let rest = remainder(data);
    if more.len() == 0 {
        assert(data + more =~= data);
        assert(rest + more =~= rest);
        assert(complete_lines(data) + Seq::<Seq<u8>>::empty() =~= complete_lines(data));
    } else {
        let shorter = more.drop_last();
        lemma_lines_across_reads(data, shorter);
        lemma_split_on(data + shorter, LINE_FEED);
        lemma_split_on(rest + shorter, LINE_FEED);
        assert((data + more).drop_last() =~= data + shorter);
        assert((rest + more).drop_last() =~= rest + shorter);
        assert((data + more).last() == more.last());
        assert((rest + more).last() == more.last());
        let whole = split_on(data + shorter, LINE_FEED);
        let part = split_on(rest + shorter, LINE_FEED);
        if more.last() == LINE_FEED {
            assert(complete_lines(data + more) =~= whole);
            assert(complete_lines(rest + more) =~= part);
            assert(whole =~= whole.drop_last().push(whole.last()));
            assert(part =~= part.drop_last().push(part.last()));
            assert(complete_lines(data + more) =~= complete_lines(data) + complete_lines(
                rest + more,
            ));
        } else {
            assert(complete_lines(data + more) =~= whole.drop_last());
            assert(complete_lines(rest + more) =~= part.drop_last());
        }
    }
}

/// Trimming the lines of two runs is trimming each run.
pub proof fn lemma_trimmed_lines_add(first: Seq<Seq<u8>>, second: Seq<Seq<u8>>)
    ensures
        trimmed_lines(first + second) == trimmed_lines(first) + trimmed_lines(second),
{
    assert(trimmed_lines(first + second) =~= trimmed_lines(first) + trimmed_lines(second));
}

/// However the bytes appended to a file are cut into reads, the lines handed
/// out are the complete lines of all the bytes together, each once and in
/// order, and what waits is what follows the last line feed.
pub proof fn lemma_every_line_once(pending: Seq<u8>, chunks: Seq<Seq<u8>>)
    requires
        remainder(pending) == pending,
    ensures
        feed_all(pending, chunks).0 == remainder(pending + concat_all(chunks)),
        feed_all(pending, chunks).1 == emitted_lines(pending, concat_all(chunks)),
    decreases chunks.len(),
{
    if chunks.len() == 0 {
        assert(pending + concat_all(chunks) =~= pending);
        lemma_split_on(pending, LINE_FEED);
        assert forall|i: int| 0 <= i < pending.len() implies pending[i] != LINE_FEED by {
            assert(split_on(pending, LINE_FEED)[split_on(pending, LINE_FEED).len() - 1][i]
                != LINE_FEED);
        }
        lemma_split_whole(pending, LINE_FEED);
        assert(complete_lines(pending) =~= Seq::<Seq<u8>>::empty());
        assert(emitted_lines(pending, concat_all(chunks)) =~= Seq::<Seq<u8>>::empty());
    } else {
        let earlier = chunks.drop_last();
        lemma_every_line_once(pending, earlier);
        let so_far = pending + concat_all(earlier);
        lemma_lines_across_reads(so_far, chunks.last());
        assert(pending + concat_all(chunks) =~= so_far + chunks.last());
        lemma_trimmed_lines_add(
            complete_lines(so_far),
            complete_lines(remainder(so_far) + chunks.last()),
        );
    }
}

/// The bytes of each line of a list.
pub open spec fn bytes_of(lines: Seq<Vec<u8>>) -> Seq<Seq<u8>> {
    lines.map_values(|line: Vec<u8>| line@)
}

/// The part of a line that is read and waits for its line feed.
#[derive(Debug)]
pub struct LineBuffer {
    pending: Vec<u8>,
}

impl View for LineBuffer {
    type V = Seq<u8>;

    closed spec fn view(&self) -> Seq<u8> {
        self.pending@
    }
}

impl LineBuffer {
    #[verifier::type_invariant]
    spec fn holds_no_line(self) -> bool {
        remainder(self.pending@) == self.pending@
    }

    /// An empty buffer.
    pub fn new() -> (buffer: Self)
        ensures
            buffer@ == Seq::<u8>::empty(),
    {
        proof {
            lemma_split_whole(Seq::<u8>::empty(), LINE_FEED);
        }
        LineBuffer { pending: Vec::new() }
    }

    /// How many bytes wait. No line feed is among them.
    pub fn len(&self) -> (n: usize)
        ensures
            n == self@.len(),
            remainder(self@) == self@,
    {
        proof {
            use_type_invariant(self);
        }
        self.pending.len()
    }

    /// Forgets what waits.
    pub fn clear(&mut self)
        ensures
            final(self)@ == Seq::<u8>::empty(),
    {
        proof {
            lemma_split_whole(Seq::<u8>::empty(), LINE_FEED);
        }
        self.pending = Vec::new();
    }

    /// Takes the bytes of one read and hands out the lines that they
    /// complete, without line feed and carriage returns.
    pub fn feed(&mut self, chunk: &[u8]) -> (lines: Vec<Vec<u8>>)
        ensures
            remainder(old(self)@) == old(self)@,
            bytes_of(lines@) == emitted_lines(old(self)@, chunk@),
            final(self)@ == remainder(old(self)@ + chunk@),
    {
        proof {
            use_type_invariant(&*self);
        }
        let ghost before = self.pending@;
        let mut pending: Vec<u8> = Vec::new();
        std::mem::swap(&mut pending, &mut self.pending);
        proof {
            lemma_split_whole(Seq::<u8>::empty(), LINE_FEED);
        }
        let mut lines: Vec<Vec<u8>> = Vec::new();
        let ghost mut raw: Seq<Seq<u8>> = Seq::empty();
        let mut i: usize = 0;
        proof {
            assert(before + chunk@.take(0) =~= before);
            lemma_split_on(before, LINE_FEED);
            assert(split_on(before, LINE_FEED) =~= split_on(before, LINE_FEED).drop_last().push(
                before,
            ));
            lemma_remainder_is_open(before);
            assert(split_on(before, LINE_FEED).drop_last() =~= raw);
        }
        while i < chunk.len()
            invariant
                i <= chunk.len(),
                split_on(before + chunk@.take(i as int), LINE_FEED) == raw.push(pending@),
                bytes_of(lines@) == trimmed_lines(raw),
            decreases chunk.len() - i,
        {
            proof {
                assert((before + chunk@.take(i + 1)).drop_last() =~= before + chunk@.take(i as int));
                assert((before + chunk@.take(i + 1)).last() == chunk@[i as int]);
            }
            let byte = chunk[i];
            if byte == LINE_FEED {
                let ghost line = pending@;
                let mut done: Vec<u8> = Vec::new();
                std::mem::swap(&mut done, &mut pending);
                strip_line_end(&mut done);
                let ghost listed = lines@;
                lines.push(done);
                proof {
                    assert(bytes_of(lines@) =~= bytes_of(listed).push(
                        strip_carriage_returns(line),
                    ));
                    assert(trimmed_lines(raw.push(line)) =~= trimmed_lines(raw).push(
                        strip_carriage_returns(line),
                    ));
                    raw = raw.push(line);
                }
            } else {
                let ghost waiting = pending@;
                pending.push(byte);
                assert(raw.push(waiting).drop_last().push(waiting.push(byte)) =~= raw.push(
                    pending@,
                ));
            }
            i += 1;
        }
        proof {
            assert(chunk@.take(i as int) =~= chunk@);
            assert(raw.push(pending@).drop_last() =~= raw);
            lemma_remainder_is_open(before + chunk@);
        }
        self.pending = pending;
        lines
    }
}

/// Takes the carriage returns off the end of a line.
fn strip_line_end(line: &mut Vec<u8>)
    ensures
        final(line)@ == strip_carriage_returns(old(line)@),
{
    while line.len() > 0 && line[line.len() - 1] == CARRIAGE_RETURN
        invariant
            strip_carriage_returns(old(line)@) == strip_carriage_returns(line@),
        decreases line.len(),
    {
        let ghost longer = line@;
        line.pop();
        assert(line@ =~= longer.drop_last());
    }
}

} // verus!
