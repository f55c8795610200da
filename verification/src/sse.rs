//! Server-sent-event frame decoder for the remote chat endpoint.
//!
//! The decoder turns an arbitrary partition of the response byte stream into
//! text fragments. A line is significant only when it starts with `data: `;
//! its payload is either the `[DONE]` sentinel, which terminates the stream,
//! or a JSON chunk whose first choice's incremental content is the line's
//! text. Malformed payloads are dropped without ending the stream. Bytes are
//! buffered across chunk boundaries, so a frame split anywhere decodes as if
//! it had arrived whole.
//!
//! The byte-at-a-time model (`step_byte`, `run_model`, `run_text`) is the
//! specification the executable decoder is proved against, and the statements
//! about chunk splitting and stream termination are proved of the model.

use vstd::prelude::*;

verus! {

/// The line terminator of the server-sent-event framing.
pub const LINE_FEED: u8 = 10;

/// Stripped from a line end, so that `\r\n` framing decodes like `\n`.
pub const CARRIAGE_RETURN: u8 = 13;

/// Decoder state as the specification sees it: the bytes of the current,
/// not yet terminated line, and whether the `[DONE]` sentinel was consumed.
pub struct DecodeModel {
    pub buf: Seq<u8>,
    pub done: bool,
}

impl DecodeModel {
    /// The state of a fresh decoder.
    pub open spec fn init() -> DecodeModel {
        DecodeModel { buf: Seq::empty(), done: false }
    }
}

/// The significant-line prefix, `data: `.
pub open spec fn spec_data_prefix() -> Seq<u8> {
    seq![100, 97, 116, 97, 58, 32]  // "data: "
}

/// The termination sentinel payload, `[DONE]`.
pub open spec fn spec_done_payload() -> Seq<u8> {
    seq![91, 68, 79, 78, 69, 93]  // "[DONE]"
}

/// A line with its trailing carriage return, if any, removed.
pub open spec fn strip_cr(line: Seq<u8>) -> Seq<u8> {
    if line.len() > 0 && line.last() == CARRIAGE_RETURN {
        line.drop_last()
    } else {
        line
    }
}

/// Whether a (carriage-return-stripped) line starts with `data: `.
pub open spec fn is_data_line(l: Seq<u8>) -> bool {
    l.len() >= 6 && l.subrange(0, 6) == spec_data_prefix()
}

/// The bytes after the `data: ` prefix.
pub open spec fn payload_of(l: Seq<u8>) -> Seq<u8> {
    l.subrange(6, l.len() as int)
}

/// What the JSON layer extracts from a `data: ` payload: the first choice's
/// incremental content field, if the payload parses and carries one. It is a
/// function of the payload bytes alone; no statement pins its value on any
/// given payload.
pub uninterp spec fn delta_content(payload: Seq<u8>) -> Option<Seq<char>>;

/// Whether this raw line is the `data: [DONE]` sentinel.
pub open spec fn line_finishes(raw: Seq<u8>) -> bool {
    let l = strip_cr(raw);
    is_data_line(l) && payload_of(l) == spec_done_payload()
}

/// The text a raw line contributes: the extracted content of a non-sentinel
/// `data: ` line, and nothing for any other line.
pub open spec fn line_text(raw: Seq<u8>) -> Option<Seq<char>> {
    let l = strip_cr(raw);
    if is_data_line(l) && payload_of(l) != spec_done_payload() {
        delta_content(payload_of(l))
    } else {
        None
    }
}

/// One byte of input: a line feed ends and processes the buffered line;
/// anything else extends it. A terminated decoder ignores all input.
pub open spec fn step_byte(m: DecodeModel, b: u8) -> DecodeModel {
    if m.done {
        m
    } else if b == LINE_FEED {
        DecodeModel { buf: Seq::empty(), done: line_finishes(m.buf) }
    } else {
        DecodeModel { buf: m.buf.push(b), done: false }
    }
}

/// The text one byte of input contributes.
pub open spec fn byte_text(m: DecodeModel, b: u8) -> Option<Seq<char>> {
    if !m.done && b == LINE_FEED {
        line_text(m.buf)
    } else {
        None
    }
}

/// Concatenation of optional texts; `None` means no content-bearing line,
/// which is distinct from an empty content.
pub open spec fn opt_concat(a: Option<Seq<char>>, b: Option<Seq<char>>) -> Option<Seq<char>> {
    match (a, b) {
        (Option::None, Option::None) => None,
        (Option::Some(x), Option::None) => Some(x),
        (Option::None, Option::Some(y)) => Some(y),
        (Option::Some(x), Option::Some(y)) => Some(x + y),
    }
}

/// The decoder state after consuming a byte sequence.
pub open spec fn run_model(m: DecodeModel, s: Seq<u8>) -> DecodeModel
    decreases s.len(),
{
    if s.len() == 0 {
        m
    } else {
        run_model(step_byte(m, s.first()), s.drop_first())
    }
}

/// The concatenated text a byte sequence contributes.
pub open spec fn run_text(m: DecodeModel, s: Seq<u8>) -> Option<Seq<char>>
    decreases s.len(),
{
    if s.len() == 0 {
        None
    } else {
        opt_concat(byte_text(m, s.first()), run_text(step_byte(m, s.first()), s.drop_first()))
    }
}

/// The view of an optional fragment.
pub open spec fn opt_text_view(o: Option<String>) -> Option<Seq<char>> {
    match o {
        Option::Some(s) => Some(s@),
        Option::None => None,
    }
}

proof fn lemma_opt_concat_assoc(a: Option<Seq<char>>, b: Option<Seq<char>>, c: Option<Seq<char>>)
    ensures
        opt_concat(opt_concat(a, b), c) == opt_concat(a, opt_concat(b, c)),
{
    match (a, b, c) {
        (Option::Some(x), Option::Some(y), Option::Some(z)) => {
            assert((x + y) + z =~= x + (y + z));
        },
        _ => {},
    }
}

proof fn lemma_run_single(m: DecodeModel, b: u8)
    ensures
        run_model(m, seq![b]) == step_byte(m, b),
        run_text(m, seq![b]) == byte_text(m, b),
{
    reveal_with_fuel(run_model, 2);
    reveal_with_fuel(run_text, 2);
    assert(seq![b].first() == b);
    assert(seq![b].drop_first() =~= Seq::<u8>::empty());
}

proof fn lemma_run_snoc(m: DecodeModel, s: Seq<u8>, b: u8)
    ensures
        run_model(m, s.push(b)) == step_byte(run_model(m, s), b),
        run_text(m, s.push(b)) == opt_concat(run_text(m, s), byte_text(run_model(m, s), b)),
{
    assert(s.push(b) =~= s + seq![b]);
    lemma_feed_split(m, s, seq![b]);
    lemma_run_single(run_model(m, s), b);
}

/// Chunk-boundary independence: consuming a byte stream in two pieces leaves
/// the decoder in the same state, and contributes the same concatenated
/// text, as consuming it whole — wherever the stream is split.
pub proof fn lemma_feed_split(m: DecodeModel, a: Seq<u8>, b: Seq<u8>)
    ensures
        run_model(m, a + b) == run_model(run_model(m, a), b),
        run_text(m, a + b) == opt_concat(run_text(m, a), run_text(run_model(m, a), b)),
    decreases a.len(),
{
    if a.len() == 0 {
        assert(a + b =~= b);
    } else {
        assert((a + b).first() == a.first());
        assert((a + b).drop_first() =~= a.drop_first() + b);
        lemma_feed_split(step_byte(m, a.first()), a.drop_first(), b);
        lemma_opt_concat_assoc(
            byte_text(m, a.first()),
            run_text(step_byte(m, a.first()), a.drop_first()),
            run_text(run_model(m, a), b),
        );
        assert(run_model(m, a) == run_model(step_byte(m, a.first()), a.drop_first()));
    }
}

/// A terminated decoder is terminal: no later bytes change its state or
/// produce any text.
pub proof fn lemma_done_is_terminal(m: DecodeModel, s: Seq<u8>)
    requires
        m.done,
    ensures
        run_model(m, s) == m,
        run_text(m, s) is None,
    decreases s.len(),
{
    if s.len() > 0 {
        lemma_done_is_terminal(m, s.drop_first());
    }
}

/// Bytes without a line feed only extend the line buffer and contribute no
/// text.
pub proof fn lemma_plain_bytes(m: DecodeModel, s: Seq<u8>)
    requires
        !m.done,
        forall|i: int| 0 <= i < s.len() ==> s[i] != LINE_FEED,
    ensures
        run_model(m, s) == (DecodeModel { buf: m.buf + s, done: false }),
        run_text(m, s) is None,
    decreases s.len(),
{
    if s.len() == 0 {
        assert(m.buf + s =~= m.buf);
    } else {
        lemma_plain_bytes(step_byte(m, s.first()), s.drop_first());
        assert(m.buf.push(s.first()) + s.drop_first() =~= m.buf + s);
    }
}

/// A `data: [DONE]` line terminates the sequence with no further items,
/// regardless of what follows in the same chunk: from a line-aligned state,
/// the sentinel line followed by anything at all contributes no text and
/// leaves the decoder terminated.
pub proof fn lemma_done_line_terminates(m: DecodeModel, line: Seq<u8>, rest: Seq<u8>)
    requires
        !m.done,
        m.buf.len() == 0,
        line_finishes(line),
        forall|i: int| 0 <= i < line.len() ==> line[i] != LINE_FEED,
    ensures
        run_model(m, line + seq![LINE_FEED] + rest).done,
        run_text(m, line + seq![LINE_FEED] + rest) is None,
{
    lemma_feed_split(m, line, seq![LINE_FEED] + rest);
    lemma_plain_bytes(m, line);
    let m1 = run_model(m, line);
    assert(m.buf + line =~= line);
    lemma_feed_split(m1, seq![LINE_FEED], rest);
    lemma_run_single(m1, LINE_FEED);
    let m2 = run_model(m1, seq![LINE_FEED]);
    assert(m2.done);
    lemma_done_is_terminal(m2, rest);
    assert(line + seq![LINE_FEED] + rest =~= line + (seq![LINE_FEED] + rest));
}

/// A malformed `data: ` JSON line neither terminates the stream nor
/// produces a fragment: from a line-aligned state, a `data: ` line whose
/// payload is not the sentinel and yields no content leaves the decoder
/// line-aligned, unterminated, and silent.
pub proof fn lemma_malformed_data_line_harmless(m: DecodeModel, line: Seq<u8>)
    requires
        !m.done,
        m.buf.len() == 0,
        is_data_line(strip_cr(line)),
        payload_of(strip_cr(line)) != spec_done_payload(),
        delta_content(payload_of(strip_cr(line))) is None,
        forall|i: int| 0 <= i < line.len() ==> line[i] != LINE_FEED,
    ensures
        run_model(m, line + seq![LINE_FEED]) == DecodeModel::init(),
        run_text(m, line + seq![LINE_FEED]) is None,
{
    lemma_feed_split(m, line, seq![LINE_FEED]);
    lemma_plain_bytes(m, line);
    assert(m.buf + line =~= line);
    let m1 = run_model(m, line);
    lemma_run_single(m1, LINE_FEED);
    assert(!line_finishes(line));
    assert(line_text(line) is None);
}

/// What a line contributed to the decoder's outcome, as the executable
/// decoder reports it.
enum LineClass {
    Ignore,
    Finish,
    Text(String),
}

/// Relies on serde_json (`from_str`, `Value::pointer`, `Value::as_str`):
/// parses a `data: ` payload as JSON and extracts the first choice's
/// incremental content field, `choices[0].delta.content`. Returns `None` for
/// a payload that does not parse or carries no such field. The result is a
/// function of the payload bytes alone.
#[verifier::external_body]
fn extract_delta(payload: &[u8]) -> (r: Option<String>)
    ensures
        opt_text_view(r) == delta_content(payload@),
{
    let text = String::from_utf8_lossy(payload);
    let value: serde_json::Value = match serde_json::from_str(&text) {
        Ok(v) => v,
        Err(_) => return None,
    };
    value.pointer("/choices/0/delta/content").and_then(|c| c.as_str()).map(|s| s.to_string())
}

fn classify_line(line: &Vec<u8>) -> (r: LineClass)
    ensures
        line_finishes(line@) ==> r is Finish,
        !line_finishes(line@) ==> match line_text(line@) {
            Option::Some(t) => r matches LineClass::Text(s) && s@ == t,
            Option::None => r is Ignore,
        },
{
    let len = line.len();
    let eff: usize = if len > 0 && line[len - 1] == CARRIAGE_RETURN {
        len - 1
    } else {
        len
    };
    proof {
        assert(strip_cr(line@) =~= line@.take(eff as int));
    }
    let ghost l = strip_cr(line@);
    if eff < 6 {
        return LineClass::Ignore;
    }
    // The bytes of "data: ".
    if !(line[0] == 100 && line[1] == 97 && line[2] == 116 && line[3] == 97 && line[4]
        == 58 && line[5] == 32) {
        proof {
            if is_data_line(l) {
                assert(l.subrange(0, 6) == spec_data_prefix());
                assert(l[0] == 100) by { assert(l.subrange(0, 6)[0] == l[0]); }
                assert(l[1] == 97) by { assert(l.subrange(0, 6)[1] == l[1]); }
                assert(l[2] == 116) by { assert(l.subrange(0, 6)[2] == l[2]); }
                assert(l[3] == 97) by { assert(l.subrange(0, 6)[3] == l[3]); }
                assert(l[4] == 58) by { assert(l.subrange(0, 6)[4] == l[4]); }
                assert(l[5] == 32) by { assert(l.subrange(0, 6)[5] == l[5]); }
            }
        }
        return LineClass::Ignore;
    }
    proof {
        assert(is_data_line(l)) by {
            assert(l.subrange(0, 6) =~= spec_data_prefix());
        }
    }
    let payload = vstd::slice::slice_subrange(line.as_slice(), 6, eff);
    proof {
        assert(payload@ =~= payload_of(l));
    }
    // The bytes of "[DONE]".
    if payload.len() == 6 && payload[0] == 91 && payload[1] == 68 && payload[2] == 79
        && payload[3] == 78 && payload[4] == 69 && payload[5] == 93 {
        proof {
            assert(payload_of(l) =~= spec_done_payload());
        }
        return LineClass::Finish;
    }
    proof {
        if payload_of(l) == spec_done_payload() {
            assert(payload@.len() == 6);
            assert(payload@[0] == 91);
            assert(payload@[1] == 68);
            assert(payload@[2] == 79);
            assert(payload@[3] == 78);
            assert(payload@[4] == 69);
            assert(payload@[5] == 93);
        }
    }
    match extract_delta(payload) {
        Some(s) => LineClass::Text(s),
        None => LineClass::Ignore,
    }
}

/// Incremental server-sent-event decoder. Feed it the response body's byte
/// chunks in order, exactly as they arrive; each call returns the text the
/// chunk's completed lines contribute, and the decoder reports when the
/// stream's `[DONE]` sentinel has been consumed.
pub struct SseDecoder {
    buf: Vec<u8>,
    done: bool,
}

impl SseDecoder {
    /// The decoder's state in the specification's terms.
    pub closed spec fn model(&self) -> DecodeModel {
        DecodeModel { buf: self.buf@, done: self.done }
    }

    pub fn new() -> (d: SseDecoder)
        ensures
            d.model() == DecodeModel::init(),
    {
        SseDecoder { buf: Vec::new(), done: false }
    }

    /// Whether the `[DONE]` sentinel has been consumed; afterwards no input
    /// produces any further fragment.
    pub fn is_done(&self) -> (b: bool)
        ensures
            b == self.model().done,
    {
        self.done
    }

    /// Consumes one chunk of the byte stream. Returns the concatenated
    /// content of the content-bearing lines completed within this chunk, or
    /// `None` if it completed none.
    pub fn feed(&mut self, chunk: &[u8]) -> (frag: Option<String>)
        ensures
            final(self).model() == run_model(old(self).model(), chunk@),
            opt_text_view(frag) == run_text(old(self).model(), chunk@),
    {
        let ghost m0 = self.model();
        let mut frag: Option<String> = None;
        let n = chunk.len();
        let mut i: usize = 0;
        while i < n
            invariant
                n == chunk@.len(),
                i <= n,
                self.model() == run_model(m0, chunk@.take(i as int)),
                opt_text_view(frag) == run_text(m0, chunk@.take(i as int)),
            decreases n - i,
        {
            let b = chunk[i];
            proof {
                assert(chunk@.take(i + 1) =~= chunk@.take(i as int).push(chunk@[i as int]));
                lemma_run_snoc(m0, chunk@.take(i as int), b);
            }
            if !self.done {
                if b == LINE_FEED {
                    match classify_line(&self.buf) {
                        LineClass::Finish => {
                            self.done = true;
                        },
                        LineClass::Text(t) => {
                            frag = match frag {
                                Some(mut acc) => {
                                    acc.append(t.as_str());
                                    Some(acc)
                                },
                                None => Some(t),
                            };
                        },
                        LineClass::Ignore => {},
                    }
                    self.buf.clear();
                } else {
                    self.buf.push(b);
                }
            }
            i = i + 1;
        }
        proof {
            assert(chunk@.take(n as int) =~= chunk@);
        }
        frag
    }

    /// What `finish` leaves behind: a terminated decoder stays as it is; an
    /// unterminated one processes its buffered, unterminated final line.
    pub open spec fn finish_model(m: DecodeModel) -> DecodeModel {
        if m.done {
            m
        } else {
            DecodeModel { buf: Seq::empty(), done: line_finishes(m.buf) }
        }
    }

    /// The text `finish` reports.
    pub open spec fn finish_text(m: DecodeModel) -> Option<Seq<char>> {
        if m.done {
            None
        } else {
            line_text(m.buf)
        }
    }

    /// Ends the stream: processes a final line that arrived without its
    /// terminating line feed, if any.
    pub fn finish(&mut self) -> (frag: Option<String>)
        ensures
            final(self).model() == Self::finish_model(old(self).model()),
            opt_text_view(frag) == Self::finish_text(old(self).model()),
    {
        if self.done {
            return None;
        }
        let mut frag: Option<String> = None;
        match classify_line(&self.buf) {
            LineClass::Finish => {
                self.done = true;
            },
            LineClass::Text(t) => {
                frag = Some(t);
            },
            LineClass::Ignore => {},
        }
        self.buf.clear();
        frag
    }
}

} // verus!
