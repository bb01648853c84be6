//! Newline framing of a raw byte stream.
//!
//! The server's event stream arrives as arbitrary byte chunks. `LineFramer`
//! buffers the bytes and hands out every completed line (terminated by a
//! line feed) as soon as it is available, tolerating an event split across
//! any number of chunks and a final line without a trailing newline.

use vstd::prelude::*;

verus! {

/// The line feed byte that terminates a line on the wire.
pub open spec fn nl() -> u8 {
    10u8
}

/// The carriage return byte optionally preceding the line feed.
pub open spec fn cr() -> u8 {
    13u8
}

/// Splits `input` into completed lines, starting from an unfinished line
/// `cur` carried over from earlier input. Returns the completed lines (without
/// their terminators) and the bytes of the still unfinished last line.
pub open spec fn framed(input: Seq<u8>, cur: Seq<u8>) -> (Seq<Seq<u8>>, Seq<u8>)
    decreases input.len(),
{
    if input.len() == 0 {
        (Seq::empty(), cur)
    } else if input[0] == nl() {
        let r = framed(input.skip(1), Seq::empty());
        (seq![cur] + r.0, r.1)
    } else {
        framed(input.skip(1), cur.push(input[0]))
    }
}

/// `raw` with one trailing carriage return removed: the wire protocol
/// tolerates `\r\n` line terminators.
pub open spec fn strip_cr_s(raw: Seq<u8>) -> Seq<u8> {
    if raw.len() > 0 && raw[raw.len() - 1] == cr() {
        raw.drop_last()
    } else {
        raw
    }
}

/// Chunk boundaries do not matter: framing a byte stream fed in two pieces
/// yields exactly the lines of the whole, with the same unfinished tail — a
/// line split across any number of reads is reassembled intact.
pub proof fn lemma_framed_chunks_compose(a: Seq<u8>, b: Seq<u8>, cur: Seq<u8>)
    ensures
        ({
            let ra = framed(a, cur);
            let rb = framed(b, ra.1);
            framed(a + b, cur).0 == ra.0 + rb.0 && framed(a + b, cur).1 == rb.1
        }),
    decreases a.len(),
{
    let ra = framed(a, cur);
    let rb = framed(b, ra.1);
    if a.len() == 0 {
        assert(a + b =~= b);
        assert(ra.0 + rb.0 =~= rb.0);
    } else {
        assert((a + b)[0] == a[0]);
        assert((a + b).skip(1) =~= a.skip(1) + b);
        if a[0] == nl() {
            lemma_framed_chunks_compose(a.skip(1), b, Seq::empty());
            let rmid = framed(a.skip(1), Seq::empty());
            let rtail = framed(b, rmid.1);
            assert(seq![cur] + (rmid.0 + rtail.0) =~= (seq![cur] + rmid.0) + rtail.0);
        } else {
            lemma_framed_chunks_compose(a.skip(1), b, cur.push(a[0]));
        }
    }
}

/// Incremental newline framer over a byte stream.
pub struct LineFramer {
    buf: Vec<u8>,
}

impl View for LineFramer {
    type V = Seq<u8>;

    closed spec fn view(&self) -> Seq<u8> {
        self.buf@
    }
}

impl LineFramer {
    /// A framer with nothing buffered.
    pub fn new() -> (s: Self)
        ensures
            s@ == Seq::<u8>::empty(),
    {
        LineFramer { buf: Vec::new() }
    }

    /// Feeds one chunk of bytes and returns every line completed by it, in
    /// arrival order; the unfinished tail stays buffered.
    pub fn push(&mut self, chunk: &[u8]) -> (lines: Vec<Vec<u8>>)
        ensures
            lines@.map_values(|l: Vec<u8>| l@) == framed(chunk@, old(self)@).0,
            final(self)@ == framed(chunk@, old(self)@).1,
    {
        let mut lines: Vec<Vec<u8>> = Vec::new();
        let mut i: usize = 0;
        proof {
            assert(chunk@.skip(0) =~= chunk@);
            assert(lines@.map_values(|l: Vec<u8>| l@) + framed(chunk@, self.buf@).0 =~= framed(
                chunk@,
                self.buf@,
            ).0);
        }
        while i < chunk.len()
            invariant
                i <= chunk.len(),
                framed(chunk@, old(self)@) == {
                    let r = framed(chunk@.skip(i as int), self.buf@);
                    (lines@.map_values(|l: Vec<u8>| l@) + r.0, r.1)
                },
            decreases chunk.len() - i,
        {
            let b = chunk[i];
            let ghost rest = chunk@.skip(i as int);
            proof {
                assert(rest[0] == b);
                assert(rest.skip(1) =~= chunk@.skip(i + 1));
            }
            if b == 10u8 {
                let ghost cur = self.buf@;
                let line = self.buf.split_off(0);
                let ghost prev_lines = lines@;
                proof {
                    assert(line@ =~= cur);
                    assert(self.buf@ =~= Seq::<u8>::empty());
                }
                lines.push(line);
                proof {
                    assert(lines@.map_values(|l: Vec<u8>| l@) =~= prev_lines.map_values(
                        |l: Vec<u8>| l@,
                    ) + seq![cur]);
                    assert(framed(rest, cur) == {
                        let r = framed(rest.skip(1), Seq::<u8>::empty());
                        (seq![cur] + r.0, r.1)
                    });
                    assert(prev_lines.map_values(|l: Vec<u8>| l@) + (seq![cur] + framed(
                        chunk@.skip(i + 1),
                        self.buf@,
                    ).0) =~= lines@.map_values(|l: Vec<u8>| l@) + framed(
                        chunk@.skip(i + 1),
                        self.buf@,
                    ).0);
                }
            } else {
                self.buf.push(b);
            }
            i += 1;
        }
        proof {
            assert(chunk@.skip(chunk@.len() as int) =~= Seq::<u8>::empty());
        }
        lines
    }

    /// Ends the stream: hands out the unfinished last line, if any, exactly
    /// as the wire protocol treats a final line without a trailing newline.
    pub fn finish(&mut self) -> (tail: Option<Vec<u8>>)
        ensures
            final(self)@ == Seq::<u8>::empty(),
            old(self)@.len() == 0 ==> tail is None,
            old(self)@.len() > 0 ==> (tail matches Some(l) && l@ == old(self)@),
    {
        if self.buf.len() == 0 {
            None
        } else {
            Some(self.buf.split_off(0))
        }
    }

    /// Drops whatever is buffered.
    pub fn clear(&mut self)
        ensures
            final(self)@ == Seq::<u8>::empty(),
    {
        self.buf.clear();
    }
}

/// `raw` with one trailing carriage return removed.
pub fn strip_cr(mut raw: Vec<u8>) -> (r: Vec<u8>)
    ensures
        r@ == strip_cr_s(raw@),
{
    if raw.len() > 0 && raw[raw.len() - 1] == 13u8 {
        raw.pop();
    }
    raw
}

} // verus!
