use vstd::prelude::*;

verus! {

/// `s` cut to at most `cap` bytes: the bytes of a stream that a drain keeps.
pub open spec fn capped(s: Seq<u8>, cap: nat) -> Seq<u8> {
    if s.len() <= cap {
        s
    } else {
        s.take(cap as int)
    }
}

/// What a drain holds after it was fed `chunks` in order, one at a time.
pub open spec fn drained(chunks: Seq<Seq<u8>>, cap: nat) -> Seq<u8>
    decreases chunks.len(),
{
    if chunks.len() == 0 {
        Seq::empty()
    } else {
        capped(drained(chunks.drop_last(), cap) + chunks.last(), cap)
    }
}

/// The bounded buffer that one output stream of a child process is read into.
/// Bytes past `cap` are dropped; the stream can keep being read.
pub struct Drain {
    pub bytes: Vec<u8>,
    pub cap: usize,
}

impl Drain {
    pub open spec fn well_formed(&self) -> bool {
        self.bytes@.len() <= self.cap
    }

    /// An empty drain that keeps at most `cap` bytes.
    pub fn new(cap: usize) -> (d: Drain)
        ensures
            d.bytes@ == Seq::<u8>::empty(),
            d.cap == cap,
            d.well_formed(),
    {
        Drain { bytes: Vec::new(), cap }
    }

    /// Appends what fits of `chunk`. The result tells whether the whole chunk
    /// fitted, that is whether reading the stream on is still of use.
    pub fn feed(&mut self, chunk: &[u8]) -> (more: bool)
        requires
            old(self).well_formed(),
        ensures
            final(self).well_formed(),
            final(self).cap == old(self).cap,
            final(self).bytes@ == capped(old(self).bytes@ + chunk@, old(self).cap as nat),
            more == (old(self).bytes@.len() + chunk@.len() <= old(self).cap),
    {
        let ghost start = self.bytes@;
        let room = self.cap - self.bytes.len();
        let take = if chunk.len() <= room { chunk.len() } else { room };
        let mut i: usize = 0;
        while i < take
            invariant
                take <= chunk@.len(),
                take <= room,
                room == self.cap - start.len(),
                self.bytes@ == start + chunk@.take(i as int),
                i <= take,
            decreases take - i,
        {
            self.bytes.push(chunk[i]);
            assert(chunk@.take(i as int + 1) =~= chunk@.take(i as int).push(chunk@[i as int]));
            i = i + 1;
        }
        assert(capped(start + chunk@, self.cap as nat) =~= start + chunk@.take(take as int));
        chunk.len() <= room
    }

    /// The bytes kept, handed over.
    pub fn into_bytes(self) -> (r: Vec<u8>)
        ensures
            r@ == self.bytes@,
    {
        self.bytes
    }
}

/// Capping twice comes to capping once: feeding a drain chunk by chunk keeps
/// what capping the whole stream at once would keep.
pub proof fn lemma_capped_feed(kept: Seq<u8>, chunk: Seq<u8>, cap: nat)
    ensures
        capped(capped(kept, cap) + chunk, cap) == capped(kept + chunk, cap),
{
    if kept.len() <= cap {
    } else {
        assert(capped(capped(kept, cap) + chunk, cap) =~= capped(kept + chunk, cap));
    }
}

/// A drain fed any sequence of chunks holds exactly the first `cap` bytes of
/// the concatenated stream, or the whole stream where it is shorter.
pub proof fn lemma_drained_is_capped_stream(chunks: Seq<Seq<u8>>, cap: nat)
    ensures
        drained(chunks, cap) == capped(chunks.flatten_alt(), cap),
        drained(chunks, cap).len() == if chunks.flatten_alt().len() <= cap {
            chunks.flatten_alt().len()
        } else {
            cap
        },
    decreases chunks.len(),
{
    if chunks.len() > 0 {
        lemma_drained_is_capped_stream(chunks.drop_last(), cap);
        lemma_capped_feed(chunks.drop_last().flatten_alt(), chunks.last(), cap);
    }
}

} // verus!
