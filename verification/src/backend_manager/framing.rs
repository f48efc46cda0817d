//! Backends send JSON objects over TCP with nothing between them but what
//! may precede an object. A message runs from its first `{` to the `}` that
//! closes it, braces inside strings not counted.
use vstd::prelude::*;

use vstd::utf8::{decode_utf8, valid_utf8};

verus! {

/// Where the scan of a message stands after some bytes.
#[derive(Clone, Copy, Debug, PartialEq, Eq, Structural)]
pub struct ScanState {
    /// The opening `{` has been seen.
    pub started: bool,
    /// Braces open outside strings.
    pub depth: u64,
    /// Inside a string.
    pub in_string: bool,
    /// The previous byte was a backslash inside a string.
    pub escape_next: bool,
    /// The closing `}` has been seen.
    pub complete: bool,
}

pub open spec fn initial_scan() -> ScanState {
    ScanState { started: false, depth: 0, in_string: false, escape_next: false, complete: false }
}

/// The scan after one more byte.
pub open spec fn scan_step(s: ScanState, byte: u8) -> ScanState {
    if s.complete {
        s
    } else if !s.started {
        if byte == 123u8 {
            ScanState { started: true, depth: 1, ..s }
        } else {
            s
        }
    } else if s.escape_next {
        ScanState { escape_next: false, ..s }
    } else if byte == 92u8 && s.in_string {
        ScanState { escape_next: true, ..s }
    } else if byte == 34u8 {
        ScanState { in_string: !s.in_string, ..s }
    } else if byte == 123u8 && !s.in_string {
        ScanState { depth: (s.depth + 1) as u64, ..s }
    } else if byte == 125u8 && !s.in_string {
        if s.depth <= 1 {
            ScanState { depth: 0, complete: true, ..s }
        } else {
            ScanState { depth: (s.depth - 1) as u64, ..s }
        }
    } else {
        s
    }
}

/// The scan after the bytes `b`.
pub open spec fn scan(b: Seq<u8>) -> ScanState
    decreases b.len(),
{
    if b.len() == 0 {
        initial_scan()
    } else {
        scan_step(scan(b.drop_last()), b.last())
    }
}

/// One event of the byte stream that a message is read from.
pub enum ByteRead {
    /// The peer closed the stream.
    Eof,
    Byte(u8),
    /// Reading failed with this error text.
    Failed(String),
}

/// What reading one more byte gave.
pub enum FrameStep {
    /// The message is not complete yet.
    NeedMore,
    /// The message is complete: its text, or the error when its bytes are not
    /// UTF-8.
    Complete(Result<String, String>),
    /// The stream ended or failed before the message was complete.
    Failed(String),
}

/// Collects the bytes of one message.
pub struct JsonFramer {
    buffer: Vec<u8>,
    state: ScanState,
}

/// The decoding of a message's bytes (`String::from_utf8`): the text when
/// they are UTF-8, else an error whose text is not stated.
#[verifier::external_body]
fn decode_message(bytes: Vec<u8>) -> (r: Result<String, String>)
    ensures
        r is Ok <==> valid_utf8(bytes@),
        r matches Ok(s) ==> s@ == decode_utf8(bytes@),
{
    match String::from_utf8(bytes) {
        Ok(s) => Ok(s),
        Err(e) => Err(e.to_string()),
    }
}

/// The error given when the stream ends inside a message.
pub open spec fn eof_error() -> Seq<char> {
    "EOF while reading JSON message"@
}

impl JsonFramer {
    /// The bytes read so far, all kept (those before the `{` too).
    pub closed spec fn bytes(&self) -> Seq<u8> {
        self.buffer@
    }

    pub closed spec fn wf(&self) -> bool {
        &&& self.state == scan(self.buffer@)
        &&& self.state.depth <= self.buffer@.len()
    }

    /// Whether the message is complete.
    pub open spec fn is_complete(&self) -> bool {
        scan(self.bytes()).complete
    }

    pub fn new() -> (f: Self)
        ensures
            f.wf(),
            f.bytes() == Seq::<u8>::empty(),
    {
        JsonFramer { buffer: Vec::new(), state: ScanState { started: false, depth: 0, in_string: false, escape_next: false, complete: false } }
    }

    /// Adds a byte; returns whether the message is now complete.
    pub fn push(&mut self, byte: u8) -> (done: bool)
        requires
            old(self).wf(),
            old(self).bytes().len() < usize::MAX,
        ensures
            final(self).wf(),
            final(self).bytes() == old(self).bytes().push(byte),
            done == final(self).is_complete(),
    {
        proof {
            assert(self.buffer@.push(byte).drop_last() =~= self.buffer@);
        }
        let s = self.state;
        let next = if s.complete {
            s
        } else if !s.started {
            if byte == 123u8 {
                ScanState { started: true, depth: 1, ..s }
            } else {
                s
            }
        } else if s.escape_next {
            ScanState { escape_next: false, ..s }
        } else if byte == 92u8 && s.in_string {
            ScanState { escape_next: true, ..s }
        } else if byte == 34u8 {
            ScanState { in_string: !s.in_string, ..s }
        } else if byte == 123u8 && !s.in_string {
            ScanState { depth: s.depth + 1, ..s }
        } else if byte == 125u8 && !s.in_string {
            if s.depth <= 1 {
                ScanState { depth: 0, complete: true, ..s }
            } else {
                ScanState { depth: s.depth - 1, ..s }
            }
        } else {
            s
        };
        self.buffer.push(byte);
        self.state = next;
        next.complete
    }

    /// Handles one event of the stream: a byte is added, the end or a failure
    /// of the stream ends the read with an error.
    pub fn feed(&mut self, event: ByteRead) -> (step: FrameStep)
        requires
            old(self).wf(),
            !old(self).is_complete(),
            old(self).bytes().len() < usize::MAX,
        ensures
            final(self).wf(),
            match event {
                ByteRead::Eof => final(self).bytes() == old(self).bytes() && (step matches FrameStep::Failed(t) && t@ == eof_error()),
                ByteRead::Failed(e) => final(self).bytes() == old(self).bytes() && step == FrameStep::Failed(e),
                ByteRead::Byte(b) => {
                    &&& final(self).bytes() == old(self).bytes().push(b)
                    &&& if final(self).is_complete() {
                        step matches FrameStep::Complete(r) && (r is Ok <==> valid_utf8(final(self).bytes()))
                            && (r matches Ok(s) ==> s@ == decode_utf8(final(self).bytes()))
                    } else {
                        step is NeedMore
                    }
                },
            },
    {
        match event {
            ByteRead::Eof => FrameStep::Failed("EOF while reading JSON message".to_owned()),
            ByteRead::Failed(e) => FrameStep::Failed(e),
            ByteRead::Byte(b) => {
                if self.push(b) {
                    let bytes = self.buffer.clone();
                    FrameStep::Complete(decode_message(bytes))
                } else {
                    FrameStep::NeedMore
                }
            },
        }
    }
}

/// Once a message is complete, further bytes do not change the scan: a
/// message ends at the brace that closes it.
pub proof fn law_complete_is_final(b: Seq<u8>, c: Seq<u8>)
    requires
        scan(b).complete,
    ensures
        scan(b + c) == scan(b),
    decreases c.len(),
{
    if c.len() == 0 {
        assert(b + c =~= b);
    } else {
        law_complete_is_final(b, c.drop_last());
        assert((b + c).drop_last() =~= b + c.drop_last());
    }
}

/// Bytes before the first `{` are skipped: they do not change the scan of
/// what follows them.
pub proof fn law_leading_bytes_skipped(b: Seq<u8>, c: Seq<u8>)
    requires
        forall|i: int| 0 <= i < b.len() ==> b[i] != 123u8,
    ensures
        scan(b + c) == scan(c),
    decreases c.len(),
{
    if c.len() == 0 {
        assert(b + c =~= b);
        lemma_no_open_brace(b);
    } else {
        law_leading_bytes_skipped(b, c.drop_last());
        assert((b + c).drop_last() =~= b + c.drop_last());
    }
}

proof fn lemma_no_open_brace(b: Seq<u8>)
    requires
        forall|i: int| 0 <= i < b.len() ==> b[i] != 123u8,
    ensures
        scan(b) == initial_scan(),
    decreases b.len(),
{
    if b.len() > 0 {
        lemma_no_open_brace(b.drop_last());
    }
}

/// The byte that completes a message is a closing brace.
pub proof fn law_completed_by_closing_brace(b: Seq<u8>)
    requires
        b.len() > 0,
        scan(b).complete,
        !scan(b.drop_last()).complete,
    ensures
        b.last() == 125u8,
{
}

/// Whether a byte is one of `{`, `}`, `"` or a backslash.
pub open spec fn is_structural(byte: u8) -> bool {
    byte == 123u8 || byte == 125u8 || byte == 34u8 || byte == 92u8
}

/// The content of a JSON string, as the framer reads it.
pub enum JsonText {
    End,
    /// A byte that is neither a quote nor a backslash, then the rest.
    Char(u8, Box<JsonText>),
    /// A backslash and the byte it escapes (a quote, a backslash or any
    /// other), then the rest.
    Escaped(u8, Box<JsonText>),
}

/// The body of a JSON object, between its braces, as the framer reads it.
pub enum JsonBody {
    End,
    /// A byte that is not a brace, a quote or a backslash, then the rest.
    Plain(u8, Box<JsonBody>),
    /// A string `"..."`, then the rest.
    Text(JsonText, Box<JsonBody>),
    /// A nested object `{...}`, then the rest.
    Object(Box<JsonBody>, Box<JsonBody>),
}

/// Whether the pieces of a string are what they say they are.
pub open spec fn text_wf(t: JsonText) -> bool
    decreases t,
{
    match t {
        JsonText::End => true,
        JsonText::Char(c, rest) => c != 34u8 && c != 92u8 && text_wf(*rest),
        JsonText::Escaped(_, rest) => text_wf(*rest),
    }
}

/// Whether the pieces of a body are what they say they are.
pub open spec fn body_wf(b: JsonBody) -> bool
    decreases b,
{
    match b {
        JsonBody::End => true,
        JsonBody::Plain(c, rest) => !is_structural(c) && body_wf(*rest),
        JsonBody::Text(t, rest) => text_wf(t) && body_wf(*rest),
        JsonBody::Object(inner, rest) => body_wf(*inner) && body_wf(*rest),
    }
}

/// The bytes of a string's content.
pub open spec fn text_bytes(t: JsonText) -> Seq<u8>
    decreases t,
{
    match t {
        JsonText::End => Seq::empty(),
        JsonText::Char(c, rest) => seq![c] + text_bytes(*rest),
        JsonText::Escaped(c, rest) => seq![92u8, c] + text_bytes(*rest),
    }
}

/// The bytes of an object's body.
pub open spec fn body_bytes(b: JsonBody) -> Seq<u8>
    decreases b,
{
    match b {
        JsonBody::End => Seq::empty(),
        JsonBody::Plain(c, rest) => seq![c] + body_bytes(*rest),
        JsonBody::Text(t, rest) => seq![34u8] + text_bytes(t) + seq![34u8] + body_bytes(*rest),
        JsonBody::Object(inner, rest) => seq![123u8] + body_bytes(*inner) + seq![125u8] + body_bytes(*rest),
    }
}

/// The scan that goes on from `s` over the bytes `b`.
spec fn run(s: ScanState, b: Seq<u8>) -> ScanState
    decreases b.len(),
{
    if b.len() == 0 {
        s
    } else {
        run(scan_step(s, b[0]), b.drop_first())
    }
}

proof fn lemma_run_concat(s: ScanState, x: Seq<u8>, y: Seq<u8>)
    ensures
        run(s, x + y) == run(run(s, x), y),
    decreases x.len(),
{
    if x.len() == 0 {
        assert(x + y =~= y);
    } else {
        assert((x + y)[0] == x[0]);
        assert((x + y).drop_first() =~= x.drop_first() + y);
        lemma_run_concat(scan_step(s, x[0]), x.drop_first(), y);
    }
}

proof fn lemma_run_one(s: ScanState, c: u8)
    ensures
        run(s, seq![c]) == scan_step(s, c),
{
    assert(seq![c].drop_first() =~= Seq::<u8>::empty());
    assert(run(scan_step(s, c), Seq::<u8>::empty()) == scan_step(s, c));
}

proof fn lemma_scan_is_run(b: Seq<u8>)
    ensures
        scan(b) == run(initial_scan(), b),
    decreases b.len(),
{
    if b.len() > 0 {
        lemma_scan_is_run(b.drop_last());
        assert(b =~= b.drop_last() + seq![b.last()]);
        lemma_run_concat(initial_scan(), b.drop_last(), seq![b.last()]);
        lemma_run_one(run(initial_scan(), b.drop_last()), b.last());
    }
}

/// The scan state inside an object, `depth` braces deep, outside or inside
/// a string.
spec fn inside(depth: u64, in_string: bool) -> ScanState {
    ScanState { started: true, depth, in_string, escape_next: false, complete: false }
}

proof fn lemma_text_keeps_state(d: u64, t: JsonText)
    requires
        text_wf(t),
    ensures
        run(inside(d, true), text_bytes(t)) == inside(d, true),
    decreases t,
{
    match t {
        JsonText::End => {},
        JsonText::Char(c, rest) => {
            lemma_text_keeps_state(d, *rest);
            lemma_run_concat(inside(d, true), seq![c], text_bytes(*rest));
            lemma_run_one(inside(d, true), c);
        },
        JsonText::Escaped(c, rest) => {
            lemma_text_keeps_state(d, *rest);
            let escaped = ScanState { escape_next: true, ..inside(d, true) };
            assert(seq![92u8, c] =~= seq![92u8] + seq![c]);
            lemma_run_concat(inside(d, true), seq![92u8] + seq![c], text_bytes(*rest));
            lemma_run_concat(inside(d, true), seq![92u8], seq![c]);
            lemma_run_one(inside(d, true), 92u8);
            lemma_run_one(escaped, c);
        },
    }
}

proof fn lemma_body_keeps_state(d: u64, b: JsonBody)
    requires
        body_wf(b),
        1 <= d,
        d + body_bytes(b).len() <= u64::MAX,
    ensures
        run(inside(d, false), body_bytes(b)) == inside(d, false),
    decreases b,
{
    let s = inside(d, false);
    match b {
        JsonBody::End => {},
        JsonBody::Plain(c, rest) => {
            lemma_body_keeps_state(d, *rest);
            lemma_run_concat(s, seq![c], body_bytes(*rest));
            lemma_run_one(s, c);
        },
        JsonBody::Text(t, rest) => {
            let tb = text_bytes(t);
            let rb = body_bytes(*rest);
            lemma_body_keeps_state(d, *rest);
            lemma_text_keeps_state(d, t);
            lemma_run_concat(s, seq![34u8] + tb + seq![34u8], rb);
            lemma_run_concat(s, seq![34u8] + tb, seq![34u8]);
            lemma_run_concat(s, seq![34u8], tb);
            lemma_run_one(s, 34u8);
            lemma_run_one(inside(d, true), 34u8);
        },
        JsonBody::Object(inner, rest) => {
            let ib = body_bytes(*inner);
            let rb = body_bytes(*rest);
            assert(body_bytes(b).len() == ib.len() + rb.len() + 2);
            lemma_body_keeps_state(d, *rest);
            lemma_body_keeps_state((d + 1) as u64, *inner);
            lemma_run_concat(s, seq![123u8] + ib + seq![125u8], rb);
            lemma_run_concat(s, seq![123u8] + ib, seq![125u8]);
            lemma_run_concat(s, seq![123u8], ib);
            lemma_run_one(s, 123u8);
            lemma_run_one(inside((d + 1) as u64, false), 125u8);
        },
    }
}

/// A message is the object that begins at the first `{`. Whatever its body
/// holds (other bytes, strings with escaped quotes and braces in them,
/// nested objects), the message is complete at the brace that closes the
/// object, and at no byte before it.
pub proof fn law_message_ends_at_closing_brace(prefix: Seq<u8>, body: JsonBody)
    requires
        forall|i: int| 0 <= i < prefix.len() ==> prefix[i] != 123u8,
        body_wf(body),
        body_bytes(body).len() < u64::MAX,
    ensures
        scan(prefix + seq![123u8] + body_bytes(body) + seq![125u8]).complete,
        forall|k: int|
            0 <= k <= prefix.len() + 1 + body_bytes(body).len() ==> !(#[trigger] scan(
                (prefix + seq![123u8] + body_bytes(body) + seq![125u8]).take(k),
            )).complete,
{
    let bb = body_bytes(body);
    let open = seq![123u8] + bb;
    let message = open + seq![125u8];
    let whole = prefix + seq![123u8] + bb + seq![125u8];
    let before = prefix + seq![123u8] + bb;
    assert(whole =~= prefix + message);
    assert(before =~= prefix + open);
    law_leading_bytes_skipped(prefix, message);
    law_leading_bytes_skipped(prefix, open);
    lemma_scan_is_run(message);
    lemma_scan_is_run(open);
    lemma_run_concat(initial_scan(), seq![123u8], bb);
    lemma_run_concat(initial_scan(), open, seq![125u8]);
    lemma_run_one(initial_scan(), 123u8);
    lemma_body_keeps_state(1, body);
    lemma_run_one(inside(1, false), 125u8);
    assert(!scan(before).complete);
    assert forall|k: int| 0 <= k <= prefix.len() + 1 + bb.len() implies !(#[trigger] scan(
        whole.take(k),
    )).complete by {
        assert(whole.take(k) + before.skip(k) =~= before);
        if scan(whole.take(k)).complete {
            law_complete_is_final(whole.take(k), before.skip(k));
        }
    }
}

} // verus!
