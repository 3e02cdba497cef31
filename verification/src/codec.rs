//! The reference line decoder: a resumable two-phase scanner that splits a
//! byte stream on line feeds, tolerating a terminator split across two reads.

use vstd::prelude::*;

use crate::channel;
use crate::channel::QueueSender;
use crate::dispatcher::{ParserDispatcher, ReadOutcome};

verus! {

/// The line-feed byte that terminates a record.
pub const LINE_FEED: u8 = 10;
/// The carriage-return byte that may trail a line feed.
pub const CARRIAGE_RETURN: u8 = 13;

/// Scan phase of the line decoder.
#[derive(Clone, Copy, PartialEq, Eq, Structural, Debug)]
pub enum LineCodecState {
    /// Scanning line content.
    Data,
    /// Just past a line feed; a single trailing carriage return is consumed
    /// here, and any other byte is rescanned as line content.
    NL,
}

/// One decoder step on one byte: the next phase, the next accumulator, and
/// the completed message if the byte finished one.
pub open spec fn step_state(s: LineCodecState, acc: Seq<u8>, b: u8) -> (LineCodecState, Seq<u8>, Option<Seq<u8>>) {
    if s is NL && b == CARRIAGE_RETURN {
        (LineCodecState::Data, acc, None)
    } else if b == LINE_FEED {
        (LineCodecState::NL, Seq::empty(), Some(acc))
    } else {
        (LineCodecState::Data, acc.push(b), None)
    }
}

/// The decoder over a whole chunk: the final phase, the final accumulator,
/// and the completed messages in order of discovery.
pub open spec fn consume_spec(s: LineCodecState, acc: Seq<u8>, input: Seq<u8>) -> (LineCodecState, Seq<u8>, Seq<Seq<u8>>)
    decreases input.len(),
{
    if input.len() == 0 {
        (s, acc, Seq::empty())
    } else {
        let first = step_state(s, acc, input[0]);
        let rest = consume_spec(first.0, first.1, input.subrange(1, input.len() as int));
        let msgs = match first.2 {
            Some(m) => seq![m] + rest.2,
            None => rest.2,
        };
        (rest.0, rest.1, msgs)
    }
}

/// Feeding a concatenation equals feeding its two parts in turn, with the
/// emitted messages concatenated.
pub proof fn lemma_consume_append(s: LineCodecState, acc: Seq<u8>, a: Seq<u8>, b: Seq<u8>)
    ensures ({
        let r1 = consume_spec(s, acc, a);
        let r2 = consume_spec(r1.0, r1.1, b);
        consume_spec(s, acc, a + b) == (r2.0, r2.1, r1.2 + r2.2)
    }),
    decreases a.len(),
{
    if a.len() == 0 {
        assert(a + b =~= b);
        let r2 = consume_spec(s, acc, b);
        assert(consume_spec(s, acc, a).2 + r2.2 =~= r2.2);
    } else {
        let first = step_state(s, acc, a[0]);
        let atail = a.subrange(1, a.len() as int);
        lemma_consume_append(first.0, first.1, atail, b);
        assert((a + b).subrange(1, (a + b).len() as int) =~= atail + b);
        assert((a + b)[0] == a[0]);
        let r1t = consume_spec(first.0, first.1, atail);
        let r2 = consume_spec(r1t.0, r1t.1, b);
        match first.2 {
            Some(m) => {
                assert(seq![m] + (r1t.2 + r2.2) =~= (seq![m] + r1t.2) + r2.2);
            }
            None => {}
        }
    }
}

/// Feeding one more byte equals one more step after the rest.
pub proof fn lemma_consume_push(s: LineCodecState, acc: Seq<u8>, x: Seq<u8>, b: u8)
    ensures ({
        let r1 = consume_spec(s, acc, x);
        let st = step_state(r1.0, r1.1, b);
        consume_spec(s, acc, x.push(b)) == (st.0, st.1, match st.2 {
            Some(m) => r1.2.push(m),
            None => r1.2,
        })
    }),
{
    lemma_consume_append(s, acc, x, seq![b]);
    assert(x.push(b) =~= x + seq![b]);
    let r1 = consume_spec(s, acc, x);
    let st = step_state(r1.0, r1.1, b);
    let sing = seq![b];
    assert(sing.len() == 1 && sing[0] == b);
    assert(sing.subrange(1, 1) =~= Seq::<u8>::empty());
    assert(consume_spec(st.0, st.1, Seq::<u8>::empty()) == (st.0, st.1, Seq::<Seq<u8>>::empty()));
    let r2 = consume_spec(r1.0, r1.1, sing);
    assert(r2 == (st.0, st.1, match st.2 {
        Some(m) => seq![m] + Seq::<Seq<u8>>::empty(),
        None => Seq::<Seq<u8>>::empty(),
    }));
    match st.2 {
        Some(m) => {
            assert(seq![m] + Seq::<Seq<u8>>::empty() =~= seq![m]);
            assert(r1.2 + seq![m] =~= r1.2.push(m));
        }
        None => {
            assert(r1.2 + Seq::<Seq<u8>>::empty() =~= r1.2);
            assert(consume_spec(s, acc, x.push(b)) == (st.0, st.1, r1.2));
        }
    }
}

/// A record is line content: it holds no line-feed byte.
pub open spec fn record_ok(r: Seq<u8>) -> bool {
    forall|i: int| 0 <= i < r.len() ==> r[i] != LINE_FEED
}

/// The wire form of a record list: each record, then a line feed, then — when
/// the matching flag is set — one trailing carriage return.
pub open spec fn encode_records(rs: Seq<Seq<u8>>, crs: Seq<bool>) -> Seq<u8>
    decreases rs.len(),
{
    if rs.len() == 0 {
        Seq::empty()
    } else {
        rs[0] + seq![LINE_FEED] + (if crs[0] { seq![CARRIAGE_RETURN] } else { Seq::empty() })
            + encode_records(rs.subrange(1, rs.len() as int), crs.subrange(1, crs.len() as int))
    }
}

/// A well-formed record list: one terminator flag per record, no record holds
/// a line feed, and after a terminator without a carriage return the next
/// record does not begin with one (such a leading carriage return would be
/// taken for part of the terminator).
pub open spec fn records_wf(rs: Seq<Seq<u8>>, crs: Seq<bool>) -> bool {
    &&& crs.len() == rs.len()
    &&& (forall|i: int| 0 <= i < rs.len() ==> record_ok(#[trigger] rs[i]))
    &&& (forall|i: int| 0 <= i < rs.len() - 1 && !crs[i] && rs[i + 1].len() > 0
            ==> (#[trigger] rs[i + 1])[0] != CARRIAGE_RETURN)
}

/// Scanning a chunk that holds no line feed only extends the accumulator.
pub proof fn lemma_scan_content(acc: Seq<u8>, r: Seq<u8>)
    requires
        record_ok(r),
    ensures
        consume_spec(LineCodecState::Data, acc, r)
            == (LineCodecState::Data, acc + r, Seq::<Seq<u8>>::empty()),
    decreases r.len(),
{
    if r.len() == 0 {
        assert(acc + r =~= acc);
    } else {
        let rtail = r.subrange(1, r.len() as int);
        assert(record_ok(rtail));
        lemma_scan_content(acc.push(r[0]), rtail);
        assert(acc.push(r[0]) + rtail =~= acc + r);
    }
}

/// In the phase after a delimiter, a first byte other than a carriage return
/// is scanned exactly as in the content phase.
pub proof fn lemma_nl_like_data(acc: Seq<u8>, input: Seq<u8>)
    requires
        input.len() > 0,
        input[0] != CARRIAGE_RETURN,
    ensures
        consume_spec(LineCodecState::NL, acc, input)
            == consume_spec(LineCodecState::Data, acc, input),
{
    assert(step_state(LineCodecState::NL, acc, input[0])
        == step_state(LineCodecState::Data, acc, input[0]));
}

/// Decoding the wire form of a well-formed record list yields exactly the
/// records, in order, with nothing left buffered. The start phase may also be
/// the one after a delimiter, provided the stream does not begin with a
/// carriage return that the scanner would take for part of the previous
/// terminator.
pub proof fn lemma_decode_encoded_from(s: LineCodecState, rs: Seq<Seq<u8>>, crs: Seq<bool>)
    requires
        records_wf(rs, crs),
        (s is NL && rs.len() > 0 && rs[0].len() > 0) ==> rs[0][0] != CARRIAGE_RETURN,
    ensures ({
        let r = consume_spec(s, Seq::empty(), encode_records(rs, crs));
        r.1 == Seq::<u8>::empty() && r.2 == rs
    }),
    decreases rs.len(),
{
    let e: Seq<u8> = Seq::empty();
    if rs.len() == 0 {
        assert(consume_spec(s, e, encode_records(rs, crs)).2 =~= rs);
    } else {
        let r0 = rs[0];
        let tail_rs = rs.subrange(1, rs.len() as int);
        let tail_crs = crs.subrange(1, crs.len() as int);
        let term: Seq<u8> = if crs[0] { seq![CARRIAGE_RETURN] } else { Seq::empty() };
        let head = r0 + seq![LINE_FEED] + term;
        let rest = encode_records(tail_rs, tail_crs);
        assert(encode_records(rs, crs) == head + rest);

        // the head decodes to exactly one message, the first record
        let endphase = if crs[0] { LineCodecState::Data } else { LineCodecState::NL };
        assert(consume_spec(LineCodecState::Data, e, head) == (endphase, e, seq![r0])) by {
            lemma_scan_content(e, r0);
            assert(e + r0 =~= r0);
            let h2 = seq![LINE_FEED] + term;
            assert(head =~= r0 + h2);
            lemma_consume_append(LineCodecState::Data, e, r0, h2);
            assert(h2[0] == LINE_FEED);
            assert(step_state(LineCodecState::Data, r0, LINE_FEED)
                == (LineCodecState::NL, e, Some(r0)));
            assert(h2.subrange(1, h2.len() as int) =~= term);
            if crs[0] {
                assert(term[0] == CARRIAGE_RETURN);
                assert(step_state(LineCodecState::NL, e, CARRIAGE_RETURN)
                    == (LineCodecState::Data, e, None::<Seq<u8>>));
                assert(term.subrange(1, term.len() as int) =~= Seq::<u8>::empty());
                assert(consume_spec(LineCodecState::Data, e, Seq::<u8>::empty())
                    == (LineCodecState::Data, e, Seq::<Seq<u8>>::empty()));
                assert(consume_spec(LineCodecState::NL, e, term)
                    == (LineCodecState::Data, e, Seq::<Seq<u8>>::empty()));
            } else {
                assert(consume_spec(LineCodecState::NL, e, term)
                    == (LineCodecState::NL, e, Seq::<Seq<u8>>::empty()));
            }
            assert(consume_spec(LineCodecState::Data, r0, h2) == (endphase, e, seq![r0])) by {
                assert(seq![r0] + Seq::<Seq<u8>>::empty() =~= seq![r0]);
            }
            assert(Seq::<Seq<u8>>::empty() + seq![r0] =~= seq![r0]);
        }

        // the tail is a well-formed record list on its own
        assert(records_wf(tail_rs, tail_crs)) by {
            assert(forall|i: int| 0 <= i < tail_rs.len() ==> record_ok(#[trigger] tail_rs[i]))
                by {
                assert(forall|i: int| 0 <= i < tail_rs.len() ==> tail_rs[i] == rs[i + 1]);
            }
            assert(forall|i: int| 0 <= i < tail_rs.len() - 1 && !tail_crs[i]
                    && tail_rs[i + 1].len() > 0
                    ==> (#[trigger] tail_rs[i + 1])[0] != CARRIAGE_RETURN) by {
                assert(forall|i: int| 0 <= i < tail_rs.len() ==> tail_rs[i] == rs[i + 1]);
                assert(forall|i: int| 0 <= i < tail_crs.len() ==> tail_crs[i] == crs[i + 1]);
            }
        }
        lemma_decode_encoded_from(endphase, tail_rs, tail_crs);

        // stitch head and tail together, from either allowed start phase
        lemma_consume_append(LineCodecState::Data, e, head, rest);
        assert(seq![r0] + tail_rs =~= rs);
        if s is NL {
            let whole = head + rest;
            assert(whole.len() > 0);
            assert(whole[0] != CARRIAGE_RETURN) by {
                if r0.len() > 0 {
                    assert(whole[0] == r0[0]);
                } else {
                    assert(head =~= seq![LINE_FEED] + term);
                    assert(whole[0] == LINE_FEED);
                }
            }
            lemma_nl_like_data(e, whole);
        }
    }
}

/// The byte stream a chunk list delivers, in order.
pub open spec fn concat_chunks(chunks: Seq<Seq<u8>>) -> Seq<u8>
    decreases chunks.len(),
{
    if chunks.len() == 0 {
        Seq::empty()
    } else {
        chunks[0] + concat_chunks(chunks.subrange(1, chunks.len() as int))
    }
}

/// The decoder fed one chunk per call, resuming its state between calls: the
/// final phase, the final accumulator, and every message emitted, in order.
pub open spec fn consume_chunks(s: LineCodecState, acc: Seq<u8>, chunks: Seq<Seq<u8>>) -> (LineCodecState, Seq<u8>, Seq<Seq<u8>>)
    decreases chunks.len(),
{
    if chunks.len() == 0 {
        (s, acc, Seq::empty())
    } else {
        let first = consume_spec(s, acc, chunks[0]);
        let rest = consume_chunks(first.0, first.1, chunks.subrange(1, chunks.len() as int));
        (rest.0, rest.1, first.2 + rest.2)
    }
}

/// Chunking is invisible: feeding chunks one call at a time emits the same
/// messages, and leaves the same state, as feeding the whole stream at once.
pub proof fn lemma_chunks_like_concat(s: LineCodecState, acc: Seq<u8>, chunks: Seq<Seq<u8>>)
    ensures
        consume_chunks(s, acc, chunks) == consume_spec(s, acc, concat_chunks(chunks)),
    decreases chunks.len(),
{
    if chunks.len() == 0 {
        assert(consume_spec(s, acc, concat_chunks(chunks)).2 =~= consume_chunks(s, acc, chunks).2);
    } else {
        let first = consume_spec(s, acc, chunks[0]);
        let ctail = chunks.subrange(1, chunks.len() as int);
        lemma_chunks_like_concat(first.0, first.1, ctail);
        lemma_consume_append(s, acc, chunks[0], concat_chunks(ctail));
    }
}

/// Reassembly invariance: however a well-formed, line-feed-delimited record
/// stream is cut into chunks, a fresh decoder fed those chunks one call at a
/// time emits exactly the original records, content-identical and in their
/// original order, independent of the chunk boundaries.
pub proof fn lemma_reassembly_invariance(rs: Seq<Seq<u8>>, crs: Seq<bool>, chunks: Seq<Seq<u8>>)
    requires
        records_wf(rs, crs),
        concat_chunks(chunks) == encode_records(rs, crs),
    ensures
        consume_chunks(LineCodecState::Data, Seq::empty(), chunks).2 == rs,
{
    lemma_chunks_like_concat(LineCodecState::Data, Seq::empty(), chunks);
    lemma_decode_encoded_from(LineCodecState::Data, rs, crs);
}

/// The reference line decoder. It scans for line feeds, buffers an
/// unterminated line across calls, and hands each completed line to a
/// bounded output queue, dropping the line when that queue is full.
pub struct LineCodec {
    state: LineCodecState,
    current: Vec<u8>,
    /// The output queue for completed messages.
    pub tx: QueueSender<Vec<u8>>,
}

impl LineCodec {
    /// The scan phase the decoder will resume in.
    pub closed spec fn phase(&self) -> LineCodecState {
        self.state
    }

    /// The bytes of the current line accumulated so far and not yet
    /// terminated.
    pub closed spec fn buffered(&self) -> Seq<u8> {
        self.current@
    }

    /// The output queue this decoder emits to.
    pub closed spec fn out_queue(&self) -> QueueSender<Vec<u8>> {
        self.tx
    }

    /// A fresh decoder that emits completed lines to `tx`.
    pub fn new(tx: QueueSender<Vec<u8>>) -> (r: LineCodec)
        ensures
            r.phase() == LineCodecState::Data,
            r.buffered() == Seq::<u8>::empty(),
            r.out_queue() == tx,
    {
        LineCodec { state: LineCodecState::Data, current: Vec::new(), tx }
    }

    /// Scans the first `n` bytes of `buf`, keeps unterminated bytes buffered,
    /// and returns the completed messages in order of discovery.
    pub fn consume(&mut self, buf: &Vec<u8>, n: usize) -> (msgs: Vec<Vec<u8>>)
        requires
            n <= buf@.len(),
        ensures ({
            let r = consume_spec(old(self).phase(), old(self).buffered(), buf@.take(n as int));
            &&& final(self).phase() == r.0
            &&& final(self).buffered() == r.1
            &&& msgs@.map_values(|m: Vec<u8>| m@) == r.2
            &&& final(self).out_queue() == old(self).out_queue()
        }),
    {
        let ghost s0 = self.phase();
        let ghost a0 = self.buffered();
        let mut msgs: Vec<Vec<u8>> = Vec::new();
        let mut i: usize = 0;
        while i < n
            invariant
                i <= n,
                n <= buf@.len(),
                self.out_queue() == old(self).out_queue(),
                ({
                    let r = consume_spec(s0, a0, buf@.take(i as int));
                    &&& self.phase() == r.0
                    &&& self.buffered() == r.1
                    &&& msgs@.map_values(|m: Vec<u8>| m@) == r.2
                }),
            decreases n - i,
        {
            let b = buf[i];
            proof {
                lemma_consume_push(s0, a0, buf@.take(i as int), buf@[i as int]);
                assert(buf@.take((i + 1) as int) =~= buf@.take(i as int).push(buf@[i as int]));
            }
            let ghost msgs_before = msgs@;
            if matches!(self.state, LineCodecState::NL) && b == CARRIAGE_RETURN {
                self.state = LineCodecState::Data;
            } else if b == LINE_FEED {
                let mut msg: Vec<u8> = Vec::new();
                core::mem::swap(&mut msg, &mut self.current);
                let ghost mv = msg@;
                msgs.push(msg);
                self.state = LineCodecState::NL;
                proof {
                    assert(msgs@.map_values(|m: Vec<u8>| m@)
                        =~= msgs_before.map_values(|m: Vec<u8>| m@).push(mv));
                }
            } else {
                self.current.push(b);
                self.state = LineCodecState::Data;
            }
            i = i + 1;
        }
        msgs
    }

    /// Feeds one read outcome to the decoder: on a completed read the filled
    /// bytes are scanned and each completed line is handed to the output
    /// queue in order of discovery, dropped when the queue is full or closed;
    /// a failed read changes nothing.
    pub fn ingest(&mut self, buf: &Vec<u8>, sz: ReadOutcome)
        requires
            sz matches ReadOutcome::Read(n) ==> n <= buf@.len(),
        ensures
            (match sz {
                ReadOutcome::Read(n) => {
                    let r = consume_spec(old(self).phase(), old(self).buffered(), buf@.take(n as int));
                    final(self).phase() == r.0 && final(self).buffered() == r.1
                }
                ReadOutcome::Failed =>
                    final(self).phase() == old(self).phase()
                    && final(self).buffered() == old(self).buffered(),
            }),
            final(self).out_queue() == old(self).out_queue(),
    {
        match sz {
            ReadOutcome::Read(n) => {
                let mut msgs = self.consume(buf, n);
                let ghost mid = *self;
                while msgs.len() > 0
                    invariant
                        *self == mid,
                    decreases msgs.len(),
                {
                    let m = msgs.remove(0);
                    let _ = channel::try_send_to(&self.tx, m);
                }
            }
            ReadOutcome::Failed => {}
        }
    }
}

impl ParserDispatcher for LineCodec {
    type Message = Vec<u8>;

    fn parse_and_dispatch(&mut self, buf: &Vec<u8>, sz: ReadOutcome) {
        self.ingest(buf, sz);
    }
}

} // verus!

