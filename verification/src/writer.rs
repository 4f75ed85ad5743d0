//! The terminal-safe standard-output writer.
//!
//! When the destination is an interactive terminal, the writer caps the
//! payload it lets through at `SHORT_OUTPUT_LENGTH` bytes, refuses payloads
//! that are not well-formed UTF-8, and writes a fixed trailer message exactly
//! once, immediately when the cap is reached. Non-interactive destinations
//! (pipes, redirects) get a plain pass-through with no policy at all.

use vstd::prelude::*;
use vstd::string::StringSliceAdditionalSpecFns;
use vstd::slice::slice_subrange;
use vstd::utf8::valid_utf8;
use crate::errors::WriteError;

verus! {

/// The payload cap for interactive terminals: one assumed screenful of
/// 20 rows by 80 columns.
pub const SHORT_OUTPUT_LENGTH: usize = 20 * 80;

/// The bytes of the trailer message, written verbatim exactly once when the
/// cap is reached.
pub open spec fn trailer_bytes() -> Seq<u8> {
    "\n[truncated; use a pipe, a redirect, or --output to see full message]\n".spec_bytes()
}

/// The abstract state of a writer: the interactivity flag fixed at
/// construction, the payload byte count, the truncation flag, and the payload
/// bytes handed to the underlying standard-output stream by the successful
/// write calls so far. A write call that fails with an I/O error is not
/// recorded here, though the failed call may have delivered a prefix of its
/// payload to the stream before the error.
#[verifier::ext_equal]
pub ghost struct WriterView {
    pub is_tty: bool,
    pub count: int,
    pub truncated: bool,
    pub payload: Seq<u8>,
}

impl WriterView {
    /// The writer's invariant: the count never exceeds the cap, it mirrors
    /// the delivered payload on interactive destinations, truncation only
    /// happens on interactive destinations and only at the cap, and
    /// non-interactive destinations track no count at all.
    pub open spec fn wf(self) -> bool {
        &&& 0 <= self.count <= SHORT_OUTPUT_LENGTH
        &&& (self.is_tty ==> self.payload.len() == self.count)
        &&& (self.truncated ==> self.is_tty && self.count == SHORT_OUTPUT_LENGTH)
        &&& (!self.is_tty ==> self.count == 0)
    }

    /// Everything the destination has seen: the delivered payload, followed
    /// by the trailer exactly when the writer has truncated.
    pub open spec fn stream(self) -> Seq<u8> {
        if self.truncated {
            self.payload + trailer_bytes()
        } else {
            self.payload
        }
    }
}

/// The state transition of one successful write of `data` to an interactive
/// writer: in the truncated state nothing changes; otherwise the prefix of
/// `data` that fits under the cap is delivered, and reaching the cap sets the
/// truncation flag.
pub open spec fn step_write(v: WriterView, data: Seq<u8>) -> WriterView
    recommends
        v.is_tty,
{
    if v.truncated {
        v
    } else {
        let n = if SHORT_OUTPUT_LENGTH - v.count <= data.len() {
            SHORT_OUTPUT_LENGTH - v.count
        } else {
            data.len() as int
        };
        WriterView {
            is_tty: v.is_tty,
            count: v.count + n,
            truncated: v.count + n == SHORT_OUTPUT_LENGTH,
            payload: v.payload + data.take(n),
        }
    }
}

/// The state after a sequence of successful writes to an interactive writer,
/// each following `step_write`.
pub open spec fn run_writes(v: WriterView, chunks: Seq<Seq<u8>>) -> WriterView
    recommends
        v.is_tty,
    decreases chunks.len(),
{
    if chunks.len() == 0 {
        v
    } else {
        run_writes(step_write(v, chunks.first()), chunks.drop_first())
    }
}

/// Declares `std::io::Stdout` so the writer can own the handle; the library
/// only ever passes it to the trusted write and flush wrappers.
#[verifier::external_type_specification]
#[verifier::external_body]
pub struct ExStdout(std::io::Stdout);

/// Relies on `std::io::stdout`: returns a handle to the process's standard
/// output stream.
#[verifier::external_body]
fn stdout_handle() -> std::io::Stdout {
    std::io::stdout()
}

/// Relies on `<std::io::Stdout as std::io::Write>::write`: on success the
/// returned count is at most `data.len()` and exactly that prefix of `data`
/// was written to the stream; on failure nothing was written.
#[verifier::external_body]
fn stdout_write(out: &mut std::io::Stdout, data: &[u8]) -> (r: Result<usize, std::io::Error>)
    ensures
        match r {
            Ok(n) => n <= data@.len(),
            Err(_) => true,
        },
{
    std::io::Write::write(out, data)
}

/// Relies on `<std::io::Stdout as std::io::Write>::write_all`: on success the
/// whole buffer was written to the stream; on failure some prefix of it may
/// have been.
#[verifier::external_body]
fn stdout_write_all(out: &mut std::io::Stdout, data: &[u8]) -> (r: Result<(), std::io::Error>) {
    std::io::Write::write_all(out, data)
}

/// Relies on `<std::io::Stdout as std::io::Write>::flush`: flushes the
/// stream's buffer.
#[verifier::external_body]
fn stdout_flush(out: &mut std::io::Stdout) -> (r: Result<(), std::io::Error>) {
    std::io::Write::flush(out)
}

/// Relies on `std::str::from_utf8`: it succeeds exactly when the bytes are a
/// well-formed UTF-8 encoding, the property `vstd::utf8::valid_utf8` states.
#[verifier::external_body]
fn utf8_check(data: &[u8]) -> (r: bool)
    ensures
        r == valid_utf8(data@),
{
    std::str::from_utf8(data).is_ok()
}

/// Writer that wraps standard output to handle interactive terminals nicely.
pub struct StdoutWriter {
    inner: std::io::Stdout,
    count: usize,
    is_tty: bool,
    truncated: bool,
    delivered: Ghost<Seq<u8>>,
}

impl View for StdoutWriter {
    type V = WriterView;

    closed spec fn view(&self) -> WriterView {
        WriterView {
            is_tty: self.is_tty,
            count: self.count as int,
            truncated: self.truncated,
            payload: self.delivered@,
        }
    }
}

impl StdoutWriter {
    /// The writer's invariant, stated on its abstract state.
    pub open spec fn wf(self) -> bool {
        self@.wf()
    }

    /// A fresh writer for the given interactivity flag: nothing delivered,
    /// nothing truncated.
    pub fn new(is_tty: bool) -> (w: StdoutWriter)
        ensures
            w.wf(),
            w@ =~= (WriterView {
                is_tty: is_tty,
                count: 0,
                truncated: false,
                payload: Seq::<u8>::empty(),
            }),
    {
        StdoutWriter {
            inner: stdout_handle(),
            count: 0,
            is_tty,
            truncated: false,
            delivered: Ghost(Seq::empty()),
        }
    }

    /// How many payload bytes have been delivered to an interactive terminal.
    pub fn bytes_written(&self) -> (n: usize)
        ensures
            n == self@.count,
    {
        self.count
    }

    /// Whether the writer was constructed for an interactive terminal.
    pub fn is_interactive(&self) -> (b: bool)
        ensures
            b == self@.is_tty,
    {
        self.is_tty
    }

    /// Whether the cap has been reached and the trailer written.
    pub fn is_truncated(&self) -> (b: bool)
        ensures
            b == self@.truncated,
    {
        self.truncated
    }

    /// Writes the trailer message and records the transition into the
    /// truncated state. On an I/O failure nothing of the writer's state
    /// changes, so a later write attempts the trailer again: the trailer is
    /// never counted as written before it was.
    fn emit_trailer(&mut self) -> (r: Result<(), std::io::Error>)
        requires
            old(self).wf(),
            old(self)@.is_tty,
            old(self)@.count == SHORT_OUTPUT_LENGTH,
            !old(self)@.truncated,
        ensures
            final(self).wf(),
            match r {
                Ok(_) => final(self)@ =~= (WriterView { truncated: true, ..old(self)@ }),
                Err(_) => final(self)@ =~= old(self)@,
            },
    {
        let msg: &str = "\n[truncated; use a pipe, a redirect, or --output to see full message]\n";
        let msg_bytes: &[u8] = msg.as_bytes();
        match stdout_write_all(&mut self.inner, msg_bytes) {
            Ok(_) => {
                self.truncated = true;
                Ok(())
            },
            Err(e) => Err(e),
        }
    }

    /// Writes `data`. On a non-interactive destination this is a plain
    /// pass-through: some prefix of `data` is delivered unchanged and its
    /// length returned, whatever the content. On an interactive destination
    /// the payload must be well-formed UTF-8; the write then follows
    /// `step_write` and reports the full length as written, even where part
    /// of the payload was silently discarded past the cap. Once truncated,
    /// a write of valid text performs no I/O at all, so it cannot fail: it
    /// reports the full length and changes nothing.
    pub fn write(&mut self, data: &[u8]) -> (r: Result<usize, WriteError>)
        requires
            old(self).wf(),
        ensures
            final(self).wf(),
            final(self)@.is_tty == old(self)@.is_tty,
            old(self)@.truncated ==> final(self)@.truncated,
            old(self)@.is_tty ==> match r {
                Ok(n) => valid_utf8(data@) && n == data@.len() && final(self)@ =~= step_write(
                    old(self)@,
                    data@,
                ),
                Err(WriteError::UnprintableContent) => !valid_utf8(data@) && final(self)@
                    =~= old(self)@,
                Err(WriteError::Io(_)) => valid_utf8(data@) && !old(self)@.truncated
                    && (final(self)@ =~= old(self)@ || (step_write(old(self)@, data@).truncated
                    && final(self)@ =~= (WriterView {
                    truncated: false,
                    ..step_write(old(self)@, data@)
                }))),
            },
            !old(self)@.is_tty ==> match r {
                Ok(n) => n <= data@.len() && final(self)@ =~= (WriterView {
                    payload: old(self)@.payload + data@.take(n as int),
                    ..old(self)@
                }),
                Err(WriteError::Io(_)) => final(self)@ =~= old(self)@,
                Err(WriteError::UnprintableContent) => false,
            },
    {
        if self.is_tty {
            // Binary data must never be dumped to a terminal.
            if !utf8_check(data) {
                return Err(WriteError::UnprintableContent);
            }
            // Already at the cap: deliver nothing, report full success.
            if self.truncated || self.count == SHORT_OUTPUT_LENGTH {
                if !self.truncated {
                    match self.emit_trailer() {
                        Ok(_) => {},
                        Err(e) => {
                            return Err(WriteError::Io(e));
                        },
                    }
                }
                return Ok(data.len());
            }
            let mut to_write: usize = SHORT_OUTPUT_LENGTH - self.count;
            if to_write > data.len() {
                to_write = data.len();
            }
            let prefix: &[u8] = slice_subrange(data, 0, to_write);
            match stdout_write_all(&mut self.inner, prefix) {
                Ok(_) => {},
                Err(e) => {
                    return Err(WriteError::Io(e));
                },
            }
            self.count = self.count + to_write;
            self.delivered = Ghost(self.delivered@ + data@.take(to_write as int));
            // Reached the cap with this write: announce truncation once.
            if self.count == SHORT_OUTPUT_LENGTH {
                match self.emit_trailer() {
                    Ok(_) => {},
                    Err(e) => {
                        return Err(WriteError::Io(e));
                    },
                }
            }
            Ok(data.len())
        } else {
            match stdout_write(&mut self.inner, data) {
                Ok(n) => {
                    self.delivered = Ghost(self.delivered@ + data@.take(n as int));
                    Ok(n)
                },
                Err(e) => Err(WriteError::Io(e)),
            }
        }
    }

    /// Flushes the underlying standard-output stream; no state of the writer
    /// changes.
    pub fn flush(&mut self) -> (r: Result<(), std::io::Error>)
        ensures
            final(self)@ =~= old(self)@,
    {
        stdout_flush(&mut self.inner)
    }
}

/// The trailer message as bytes, for callers and scripts that must match it
/// verbatim.
pub fn trailer() -> (v: Vec<u8>)
    ensures
        v@ == trailer_bytes(),
{
    let msg: &str = "\n[truncated; use a pipe, a redirect, or --output to see full message]\n";
    vstd::slice::slice_to_vec(msg.as_bytes())
}

/// Law: one write step on an interactive writer preserves the invariant, so
/// the payload delivered to the terminal never exceeds the cap, whatever the
/// sequence of writes and chunk sizes.
pub proof fn lemma_payload_capped(v: WriterView, data: Seq<u8>)
    requires
        v.wf(),
        v.is_tty,
    ensures
        step_write(v, data).wf(),
        step_write(v, data).payload.len() <= SHORT_OUTPUT_LENGTH,
{
}

/// Law: the truncated state is absorbing. Once the cap is reached, a further
/// write changes nothing, so the stream the terminal sees is frozen: exactly
/// `SHORT_OUTPUT_LENGTH` payload bytes, then the trailer exactly once, and no
/// payload byte after it.
pub proof fn lemma_truncated_absorbing(v: WriterView, data: Seq<u8>)
    requires
        v.wf(),
        v.truncated,
    ensures
        step_write(v, data) == v,
        v.stream() =~= v.payload + trailer_bytes(),
        v.payload.len() == SHORT_OUTPUT_LENGTH,
{
}

/// Law: chunking-invariance. Writing `a` then `b` leaves an interactive
/// writer in the same state as writing `a + b` in one call, so splitting a
/// write into pieces of the same total content yields the same
/// terminal-visible stream up to the cap.
pub proof fn lemma_chunking(v: WriterView, a: Seq<u8>, b: Seq<u8>)
    requires
        v.wf(),
        v.is_tty,
    ensures
        step_write(step_write(v, a), b) =~~= step_write(v, a + b),
{
    let v1 = step_write(v, a);
    if v.truncated {
    } else {
        let rem = SHORT_OUTPUT_LENGTH - v.count;
        if rem <= a.len() {
            assert((a + b).take(rem) =~= a.take(rem));
        } else {
            assert(v1.count == v.count + a.len());
            if SHORT_OUTPUT_LENGTH - v1.count <= b.len() {
                let rem2 = SHORT_OUTPUT_LENGTH - v1.count;
                assert((a + b).take(a.len() + rem2) =~= a.take(a.len() as int) + b.take(rem2));
                assert(a.take(a.len() as int) =~= a);
            } else {
                assert((a + b).take((a + b).len() as int) =~= a.take(a.len() as int) + b.take(
                    b.len() as int,
                ));
                assert(a.take(a.len() as int) =~= a);
                assert(b.take(b.len() as int) =~= b);
            }
        }
    }
}

/// Law: over any sequence of write calls with any chunk sizes, an
/// interactive writer keeps its invariant, so the payload it has delivered
/// to the terminal never exceeds the cap.
pub proof fn lemma_run_capped(v: WriterView, chunks: Seq<Seq<u8>>)
    requires
        v.wf(),
        v.is_tty,
    ensures
        run_writes(v, chunks).wf(),
        run_writes(v, chunks).is_tty,
        run_writes(v, chunks).payload.len() <= SHORT_OUTPUT_LENGTH,
    decreases chunks.len(),
{
    if chunks.len() == 0 {
    } else {
        lemma_payload_capped(v, chunks.first());
        lemma_run_capped(step_write(v, chunks.first()), chunks.drop_first());
    }
}

/// Law: chunking-invariance in full. A non-empty sequence of writes leaves
/// an interactive writer exactly where one write of all the chunks'
/// concatenation would, so however a payload is split, the terminal sees the
/// same stream up to the cap.
pub proof fn lemma_chunking_seq(v: WriterView, chunks: Seq<Seq<u8>>)
    requires
        v.wf(),
        v.is_tty,
        chunks.len() >= 1,
    ensures
        run_writes(v, chunks) =~~= step_write(v, chunks.flatten()),
    decreases chunks.len(),
{
    let rest = chunks.drop_first();
    let v1 = step_write(v, chunks.first());
    lemma_payload_capped(v, chunks.first());
    assert(run_writes(v, chunks) == run_writes(v1, rest));
    assert(chunks.flatten() == chunks.first() + rest.flatten());
    if chunks.len() == 1 {
        assert(run_writes(v1, rest) == v1);
        assert(rest.flatten() == Seq::<u8>::empty());
        assert(chunks.flatten() =~= chunks.first());
        assert(step_write(v, chunks.flatten()) == v1);
    } else {
        lemma_chunking_seq(v1, rest);
        lemma_chunking(v, chunks.first(), rest.flatten());
        assert(run_writes(v1, rest) =~~= step_write(v1, rest.flatten()));
        assert(step_write(step_write(v, chunks.first()), rest.flatten()) =~~= step_write(
            v,
            chunks.first() + rest.flatten(),
        ));
    }
}

} // verus!
