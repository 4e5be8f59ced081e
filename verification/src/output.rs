//! The captured output of a service: a capped byte buffer with an index of
//! its line breaks.

use vstd::prelude::*;

verus! {

/// Largest number of bytes an output buffer retains.
pub const OUTPUT_CAP: usize = 2_000_000;

/// The byte that ends a line.
pub const LINE_BREAK: u8 = 10;

/// Offsets of the line breaks of `bytes`, in increasing order.
pub open spec fn line_breaks(bytes: Seq<u8>) -> Seq<int>
    decreases bytes.len(),
{
    if bytes.len() == 0 {
        Seq::empty()
    } else if bytes.last() == LINE_BREAK {
        line_breaks(bytes.drop_last()).push(bytes.len() - 1)
    } else {
        line_breaks(bytes.drop_last())
    }
}

/// What a buffer holding `buffer` holds after `chunk` arrives: both joined,
/// or nothing once the join would pass the cap.
pub open spec fn appended(buffer: Seq<u8>, chunk: Seq<u8>) -> Seq<u8> {
    if buffer.len() + chunk.len() > OUTPUT_CAP {
        Seq::empty()
    } else {
        buffer + chunk
    }
}

/// What a buffer holding `buffer` holds after `chunks` arrived one by one.
pub open spec fn drained(buffer: Seq<u8>, chunks: Seq<Seq<u8>>) -> Seq<u8>
    decreases chunks.len(),
{
    if chunks.len() == 0 {
        buffer
    } else {
        appended(drained(buffer, chunks.drop_last()), chunks.last())
    }
}

/// The bytes of `chunks` joined in order.
pub open spec fn joined(chunks: Seq<Seq<u8>>) -> Seq<u8>
    decreases chunks.len(),
{
    if chunks.len() == 0 {
        Seq::empty()
    } else {
        joined(chunks.drop_last()) + chunks.last()
    }
}

/// Number of line breaks among the first `upto` bytes.
pub open spec fn breaks_before(bytes: Seq<u8>, upto: int) -> nat {
    line_breaks(bytes.take(upto)).len()
}

/// The offsets as mathematical integers.
pub open spec fn offsets(index: Seq<usize>) -> Seq<int> {
    index.map_values(|o: usize| o as int)
}

/// The byte sequences that the vectors hold.
pub open spec fn chunk_views(chunks: Seq<Vec<u8>>) -> Seq<Seq<u8>> {
    chunks.map_values(|c: Vec<u8>| c@)
}

/// Captured output of one service with the offsets of its line breaks.
#[derive(Debug)]
pub struct OutputBuffer {
    bytes: Vec<u8>,
    line_index: Vec<usize>,
}

impl View for OutputBuffer {
    type V = Seq<u8>;

    closed spec fn view(&self) -> Seq<u8> {
        self.bytes@
    }
}

impl OutputBuffer {
    #[verifier::type_invariant]
    spec fn inv(self) -> bool {
        &&& self.bytes@.len() <= OUTPUT_CAP
        &&& offsets(self.line_index@) == line_breaks(self.bytes@)
    }

    /// An empty buffer.
    pub fn new() -> (out: OutputBuffer)
        ensures
            out@ == Seq::<u8>::empty(),
    {
        let bytes: Vec<u8> = Vec::new();
        let line_index: Vec<usize> = Vec::new();
        assert(offsets(line_index@) =~= line_breaks(bytes@));
        OutputBuffer { bytes, line_index }
    }

    /// Appends one chunk and indexes its line breaks. Where the chunk would
    /// take the buffer past the cap, the buffer and its line index are
    /// emptied instead.
    pub fn append(&mut self, chunk: &[u8])
        ensures
            final(self)@ == appended(old(self)@, chunk@),
            old(self)@.len() + chunk@.len() <= OUTPUT_CAP ==> final(self)@ == old(self)@ + chunk@,
            old(self)@.len() + chunk@.len() > OUTPUT_CAP ==> final(self)@ == Seq::<u8>::empty()
                && line_breaks(final(self)@) == Seq::<int>::empty(),
    {
        let mut taken = OutputBuffer::new();
        std::mem::swap(self, &mut taken);
        proof {
            use_type_invariant(&taken);
        }
        let OutputBuffer { bytes, line_index } = taken;
        let mut bytes = bytes;
        let mut line_index = line_index;
        if chunk.len() > OUTPUT_CAP - bytes.len() {
            return ;
        }
        let ghost before = bytes@;
        let mut i: usize = 0;
        while i < chunk.len()
            invariant
                i <= chunk.len(),
                before.len() + chunk.len() <= OUTPUT_CAP,
                bytes@ == before + chunk@.take(i as int),
                offsets(line_index@) == line_breaks(bytes@),
            decreases chunk.len() - i,
        {
            let b = chunk[i];
            let at = bytes.len();
            let ghost bytes_before = bytes@;
            bytes.push(b);
            if b == LINE_BREAK {
                line_index.push(at);
            }
            i = i + 1;
            proof {
                assert(bytes@.drop_last() =~= bytes_before);
                assert(chunk@.take(i as int) =~= chunk@.take(i - 1).push(b));
                assert(bytes@ =~= before + chunk@.take(i as int));
                assert(offsets(line_index@) =~= line_breaks(bytes@));
            }
        }
        *self = OutputBuffer { bytes, line_index };
    }

    /// Appends the chunks in the order given.
    pub fn append_all(&mut self, chunks: &Vec<Vec<u8>>)
        ensures
            final(self)@ == drained(old(self)@, chunk_views(chunks@)),
    {
        let mut i: usize = 0;
        while i < chunks.len()
            invariant
                i <= chunks.len(),
                self@ == drained(old(self)@, chunk_views(chunks@).take(i as int)),
            decreases chunks.len() - i,
        {
            self.append(chunks[i].as_slice());
            i = i + 1;
            proof {
                let views = chunk_views(chunks@);
                assert(views.take(i as int).drop_last() =~= views.take(i - 1));
            }
        }
        assert(chunk_views(chunks@).take(i as int) =~= chunk_views(chunks@));
    }

    /// Drops everything captured so far.
    pub fn clear(&mut self)
        ensures
            final(self)@ == Seq::<u8>::empty(),
    {
        *self = OutputBuffer::new();
    }

    /// The captured bytes.
    pub fn bytes(&self) -> (r: &Vec<u8>)
        ensures
            r@ == self@,
    {
        &self.bytes
    }

    /// The offset of every line break among the captured bytes, in increasing
    /// order: entry `i` is where line break number `i` stands.
    pub fn line_index(&self) -> (r: &Vec<usize>)
        ensures
            offsets(r@) == line_breaks(self@),
    {
        proof {
            use_type_invariant(self);
        }
        &self.line_index
    }

    /// Number of captured bytes.
    pub fn len(&self) -> (n: usize)
        ensures
            n == self@.len(),
            n <= OUTPUT_CAP,
    {
        proof {
            use_type_invariant(self);
        }
        self.bytes.len()
    }
}

/// A line break of `bytes` stands at every offset that `line_breaks` lists,
/// the offsets are below the length, and they increase.
pub proof fn lemma_line_breaks_sound(bytes: Seq<u8>)
    ensures
        line_breaks(bytes).len() <= bytes.len(),
        forall|i: int|
            0 <= i < line_breaks(bytes).len() ==> 0 <= #[trigger] line_breaks(bytes)[i]
                < bytes.len() && bytes[line_breaks(bytes)[i]] == LINE_BREAK,
        forall|i: int, j: int|
            0 <= i < j < line_breaks(bytes).len() ==> #[trigger] line_breaks(bytes)[i]
                < #[trigger] line_breaks(bytes)[j],
    decreases bytes.len(),
{
    if bytes.len() > 0 {
        lemma_line_breaks_sound(bytes.drop_last());
    }
}

/// Every line break of `bytes` is listed by `line_breaks`.
pub proof fn lemma_line_breaks_complete(bytes: Seq<u8>, at: int)
    requires
        0 <= at < bytes.len(),
        bytes[at] == LINE_BREAK,
    ensures
        line_breaks(bytes).contains(at),
    decreases bytes.len(),
{
    if at == bytes.len() - 1 {
        let rest = line_breaks(bytes.drop_last());
        assert(rest.push(at)[rest.len() as int] == at);
    } else {
        lemma_line_breaks_complete(bytes.drop_last(), at);
        let rest = line_breaks(bytes.drop_last());
        let k = choose|k: int| 0 <= k < rest.len() && rest[k] == at;
        assert(line_breaks(bytes)[k] == at);
    }
}

/// The line breaks of a prefix are a prefix of the line breaks.
pub proof fn lemma_line_breaks_prefix(bytes: Seq<u8>, upto: int)
    requires
        0 <= upto <= bytes.len(),
    ensures
        breaks_before(bytes, upto) <= line_breaks(bytes).len(),
        line_breaks(bytes.take(upto)) == line_breaks(bytes).take(breaks_before(bytes, upto) as int),
    decreases bytes.len(),
{
    if upto == bytes.len() {
        assert(bytes.take(upto) =~= bytes);
        assert(line_breaks(bytes).take(line_breaks(bytes).len() as int) =~= line_breaks(bytes));
    } else {
        lemma_line_breaks_prefix(bytes.drop_last(), upto);
        assert(bytes.drop_last().take(upto) =~= bytes.take(upto));
        let rest = line_breaks(bytes.drop_last());
        let n = breaks_before(bytes, upto) as int;
        assert(line_breaks(bytes).take(n) =~= rest.take(n));
    }
}

/// Entry `i` of the line index is the offset of line break number `i`: a line
/// break stands there, and exactly `i` line breaks stand before it.
pub proof fn lemma_line_index_entry(bytes: Seq<u8>, i: int)
    requires
        0 <= i < line_breaks(bytes).len(),
    ensures
        0 <= line_breaks(bytes)[i] < bytes.len(),
        bytes[line_breaks(bytes)[i]] == LINE_BREAK,
        breaks_before(bytes, line_breaks(bytes)[i]) == i,
{
    lemma_line_breaks_sound(bytes);
    let at = line_breaks(bytes)[i];
    lemma_line_breaks_prefix(bytes, at);
    lemma_line_breaks_prefix(bytes, at + 1);
    let before = breaks_before(bytes, at) as int;
    let through = breaks_before(bytes, at + 1) as int;
    assert(bytes.take(at + 1).drop_last() =~= bytes.take(at));
    assert(through == before + 1);
    assert(line_breaks(bytes.take(at + 1))[before] == at);
    assert(line_breaks(bytes)[before] == at);
    if before < i {
        assert(line_breaks(bytes)[before] < line_breaks(bytes)[i]);
    }
    if i < before {
        assert(line_breaks(bytes)[i] < line_breaks(bytes)[before]);
    }
}

/// The line index has one entry for each line break.
pub proof fn lemma_line_index_len(bytes: Seq<u8>)
    ensures
        line_breaks(bytes).len() == breaks_before(bytes, bytes.len() as int),
{
    assert(bytes.take(bytes.len() as int) =~= bytes);
}

/// A chunk that would take the buffer past the cap leaves the buffer and its
/// line index empty.
pub proof fn lemma_overflow_clears(buffer: Seq<u8>, chunk: Seq<u8>)
    requires
        buffer.len() + chunk.len() > OUTPUT_CAP,
    ensures
        appended(buffer, chunk) == Seq::<u8>::empty(),
        line_breaks(appended(buffer, chunk)) == Seq::<int>::empty(),
{
}

/// Total number of bytes in `chunks`.
pub open spec fn total_len(chunks: Seq<Seq<u8>>) -> nat {
    joined(chunks).len()
}

/// While the cap is not passed, draining chunks into a buffer leaves the
/// buffer followed by the chunks' bytes in arrival order.
pub proof fn lemma_drained_is_joined(buffer: Seq<u8>, chunks: Seq<Seq<u8>>)
    requires
        buffer.len() + total_len(chunks) <= OUTPUT_CAP,
    ensures
        drained(buffer, chunks) == buffer + joined(chunks),
    decreases chunks.len(),
{
    if chunks.len() == 0 {
        assert(buffer + joined(chunks) =~= buffer);
    } else {
        lemma_drained_is_joined(buffer, chunks.drop_last());
        assert(buffer + joined(chunks) =~= (buffer + joined(chunks.drop_last())) + chunks.last());
    }
}

/// A chunk that fits stands at the end of the buffer after it was appended.
pub proof fn lemma_appended_ends_with(buffer: Seq<u8>, chunk: Seq<u8>)
    requires
        buffer.len() + chunk.len() <= OUTPUT_CAP,
    ensures
        appended(buffer, chunk).len() == buffer.len() + chunk.len(),
        appended(buffer, chunk).skip(buffer.len() as int) == chunk,
        appended(buffer, chunk).take(buffer.len() as int) == buffer,
{
    assert((buffer + chunk).skip(buffer.len() as int) =~= chunk);
    assert((buffer + chunk).take(buffer.len() as int) =~= buffer);
}

} // verus!
