//! The recording session state machine.
//!
//! A session moves `NotStarted -> Recording -> Finished` under a single
//! externally triggered transition, `advance`.  While recording, the
//! session exclusively owns the WAV encoder and appends every sample it is
//! fed, in arrival order.  The transition to `Finished` moves the encoder
//! out and finalizes the container exactly once; a further `advance` is a
//! no-op.  The caller performs the actual file creation and tells `advance`
//! whether the output location is writable; when it is not, the session
//! stays in `NotStarted` and reports the failure instead of starting a
//! partial session.

use vstd::prelude::*;
use crate::wav::{AudioFormat, WavEncoder, spec_wav_file, spec_data_bytes, MAX_DATA_LEN};

verus! {

/// The three session states.
#[derive(Clone, Copy, Debug, PartialEq, Eq, Structural)]
pub enum RecState {
    NotStarted,
    Recording,
    Finished,
}

/// The output location could not be opened for writing.
#[derive(Clone, Copy, Debug, PartialEq, Eq, Structural)]
pub struct FileError;

/// What an `advance` call did.
#[derive(Debug, PartialEq, Eq)]
pub enum AdvanceEffect {
    /// The session began recording.
    Started,
    /// The session ended; the complete WAV file is handed out, to be
    /// written once.
    Finalized(Vec<u8>),
    /// The session had already ended; nothing happened.
    AlreadyFinished,
}

/// The externally observable session: its state, when recording began, the
/// samples written so far, and the finalized file once it exists.
pub struct SessionView {
    pub state: RecState,
    pub start_ms: u64,
    pub written: Seq<i32>,
    pub output: Option<Seq<u8>>,
}

/// The observable outcome of an `advance` call.
pub enum AdvanceView {
    Started,
    Finalized(Seq<u8>),
    AlreadyFinished,
    Failed,
}

/// The session transition: what `advance` does to a session view, given
/// the format and whether the output location proved writable.
pub open spec fn spec_advance(m: SessionView, f: AudioFormat, now_ms: u64, file_ready: bool) -> (
    SessionView,
    AdvanceView,
) {
    match m.state {
        RecState::NotStarted => {
            if file_ready {
                (
                    SessionView {
                        state: RecState::Recording,
                        start_ms: now_ms,
                        written: Seq::empty(),
                        output: None,
                    },
                    AdvanceView::Started,
                )
            } else {
                (m, AdvanceView::Failed)
            }
        },
        RecState::Recording => {
            let file = spec_wav_file(f, m.written);
            (SessionView { state: RecState::Finished, output: Some(file), ..m },
            AdvanceView::Finalized(file))
        },
        RecState::Finished => (m, AdvanceView::AlreadyFinished),
    }
}

/// Finalizing is idempotent: from `Recording`, the first `advance` ends the
/// session and produces the file; a second `advance`, whatever its inputs,
/// changes nothing and produces nothing, so two calls have the same
/// externally observable effect as one.
pub proof fn lemma_advance_idempotent(
    m: SessionView,
    f: AudioFormat,
    now1: u64,
    ready1: bool,
    now2: u64,
    ready2: bool,
)
    requires
        m.state == RecState::Recording,
    ensures
        ({
            let (m1, e1) = spec_advance(m, f, now1, ready1);
            let (m2, e2) = spec_advance(m1, f, now2, ready2);
            &&& e1 == AdvanceView::Finalized(spec_wav_file(f, m.written))
            &&& m1.state == RecState::Finished
            &&& m2 == m1
            &&& e2 == AdvanceView::AlreadyFinished
        }),
{
}

/// Owns the recording lifecycle and, while recording, the WAV encoder.
pub struct RecordingController {
    state: RecState,
    start_ms: u64,
    encoder: Option<WavEncoder>,
    format: AudioFormat,
    output: Ghost<Option<Seq<u8>>>,
    written: Ghost<Seq<i32>>,
}

impl RecordingController {
    /// The format the session records in.
    pub closed spec fn format(self) -> AudioFormat {
        self.format
    }

    /// The externally observable session.
    pub closed spec fn model(self) -> SessionView {
        SessionView {
            state: self.state,
            start_ms: self.start_ms,
            written: self.written@,
            output: self.output@,
        }
    }

    /// At most one writer exists, exactly while recording; it carries
    /// exactly the samples fed so far; the file exists exactly once the
    /// session has finished.
    pub closed spec fn wf(self) -> bool {
        &&& self.format.wf()
        &&& (self.state == RecState::Recording) <==> (self.encoder is Some)
        &&& (self.state == RecState::Finished) <==> (self.output@ is Some)
        &&& self.encoder matches Some(e) ==> {
            &&& e.wf()
            &&& e.format() == self.format
            &&& e.history() == self.written@
        }
        &&& self.state == RecState::NotStarted ==> self.written@ == Seq::<i32>::empty()
    }

    /// A fresh session in `NotStarted`.
    pub fn new(format: AudioFormat) -> (c: RecordingController)
        requires
            format.wf(),
        ensures
            c.wf(),
            c.format() == format,
            c.model().state == RecState::NotStarted,
            c.model().written =~= Seq::<i32>::empty(),
            c.model().output is None,
    {
        RecordingController {
            state: RecState::NotStarted,
            start_ms: 0,
            encoder: None,
            format,
            output: Ghost(None),
            written: Ghost(Seq::empty()),
        }
    }

    /// The session state.
    pub fn state(&self) -> (s: RecState)
        ensures
            s == self.model().state,
    {
        self.state
    }

    /// Whether the session is currently recording.
    pub fn is_recording(&self) -> (r: bool)
        ensures
            r == (self.model().state == RecState::Recording),
    {
        match self.state {
            RecState::Recording => true,
            _ => false,
        }
    }

    /// Milliseconds since recording began; meaningful only while recording.
    pub fn elapsed_ms(&self, now_ms: u64) -> (e: u64)
        requires
            self.model().state == RecState::Recording,
            now_ms >= self.model().start_ms,
        ensures
            e == now_ms - self.model().start_ms,
    {
        now_ms - self.start_ms
    }

    /// The single external transition, as `spec_advance` states it.  From
    /// `NotStarted` with a writable output it begins recording at `now_ms`;
    /// with an unwritable one it fails and stays put.  From `Recording` it
    /// moves the writer out and finalizes the file exactly once.  From
    /// `Finished` it does nothing.
    pub fn advance(&mut self, now_ms: u64, file_ready: bool) -> (r: Result<
        AdvanceEffect,
        FileError,
    >)
        requires
            old(self).wf(),
        ensures
            final(self).wf(),
            final(self).format() == old(self).format(),
            ({
                let (m1, e1) = spec_advance(old(self).model(), old(self).format(), now_ms,
                    file_ready);
                &&& final(self).model() == m1
                &&& match r {
                    Ok(AdvanceEffect::Started) => e1 == AdvanceView::Started,
                    Ok(AdvanceEffect::Finalized(file)) => e1 == AdvanceView::Finalized(file@),
                    Ok(AdvanceEffect::AlreadyFinished) => e1 == AdvanceView::AlreadyFinished,
                    Err(FileError) => e1 == AdvanceView::Failed,
                }
            }),
    {
        match self.state {
            RecState::NotStarted => {
                if file_ready {
                    self.encoder = Some(WavEncoder::new(self.format));
                    self.state = RecState::Recording;
                    self.start_ms = now_ms;
                    proof {
                        self.written@ = Seq::empty();
                    }
                    Ok(AdvanceEffect::Started)
                } else {
                    Err(FileError)
                }
            },
            RecState::Recording => {
                let mut enc: Option<WavEncoder> = None;
                std::mem::swap(&mut enc, &mut self.encoder);
                match enc {
                    Some(e) => {
                        let file = e.finalize();
                        self.state = RecState::Finished;
                        proof {
                            self.output@ = Some(file@);
                        }
                        Ok(AdvanceEffect::Finalized(file))
                    },
                    None => {
                        // wf ties Recording to an owned encoder.
                        proof {
                            assert(false);
                        }
                        Err(FileError)
                    },
                }
            },
            RecState::Finished => Ok(AdvanceEffect::AlreadyFinished),
        }
    }

    /// Whether a batch of this many samples still fits in the container.
    pub fn can_accept(&self, n: usize) -> (r: bool)
        requires
            self.wf(),
        ensures
            r == (self.model().state == RecState::Recording ==> spec_data_bytes(
                self.format().kind,
                self.model().written,
            ).len() + n * self.format().kind.spec_sample_bytes() <= MAX_DATA_LEN),
    {
        match &self.encoder {
            Some(e) => {
                let bytes = self.format.kind.sample_bytes() as usize;
                let len = e.data_len();
                let room = ((MAX_DATA_LEN as usize) - len) / bytes;
                proof {
                    let k = MAX_DATA_LEN - len;
                    let b = bytes as int;
                    vstd::arithmetic::div_mod::lemma_fundamental_div_mod(k as int, b);
                    if n <= room {
                        vstd::arithmetic::mul::lemma_mul_inequality(n as int, k as int / b, b);
                    } else {
                        vstd::arithmetic::mul::lemma_mul_inequality(k as int / b + 1, n as int, b);
                    }
                }
                n <= room
            },
            None => true,
        }
    }

    /// Feed one batch: while recording, every sample is appended to the
    /// writer in arrival order; in any other state the batch is ignored.
    pub fn feed_batch(&mut self, batch: &Vec<i32>)
        requires
            old(self).wf(),
            old(self).model().state == RecState::Recording ==> spec_data_bytes(
                old(self).format().kind,
                old(self).model().written,
            ).len() + batch@.len() * old(self).format().kind.spec_sample_bytes() <= MAX_DATA_LEN,
        ensures
            final(self).wf(),
            final(self).format() == old(self).format(),
            final(self).model().state == old(self).model().state,
            final(self).model().start_ms == old(self).model().start_ms,
            final(self).model().output == old(self).model().output,
            old(self).model().state == RecState::Recording ==> final(self).model().written
                =~= old(self).model().written + batch@,
            old(self).model().state != RecState::Recording ==> final(self).model().written == old(
                self,
            ).model().written,
    {
        match &mut self.encoder {
            Some(e) => {
                let mut i: usize = 0;
                while i < batch.len()
                    invariant
                        0 <= i <= batch@.len(),
                        e.wf(),
                        e.format() == old(self).format(),
                        e.history() =~= old(self).model().written + batch@.take(i as int),
                        spec_data_bytes(e.format().kind, e.history()).len() + (batch@.len() - i)
                            * e.format().kind.spec_sample_bytes() <= MAX_DATA_LEN,
                    decreases batch@.len() - i,
                {
                    proof {
                        lemma_feed_step(e.format().kind, e.history(), batch@, i as int);
                    }
                    e.append_sample(batch[i]);
                    i = i + 1;
                    proof {
                        assert(e.history() =~= old(self).model().written + batch@.take(i as int));
                    }
                }
                proof {
                    assert(batch@.take(batch@.len() as int) =~= batch@);
                    self.written@ = self.written@ + batch@;
                    assert(e.history() =~= self.written@);
                }
            },
            None => {},
        }
    }
}

/// One step of feeding a batch stays inside the size bound.
proof fn lemma_feed_step(kind: crate::wav::SampleKind, h: Seq<i32>, b: Seq<i32>, i: int)
    requires
        0 <= i < b.len(),
        spec_data_bytes(kind, h).len() + (b.len() - i) * kind.spec_sample_bytes() <= MAX_DATA_LEN,
    ensures
        spec_data_bytes(kind, h).len() + kind.spec_sample_bytes() <= MAX_DATA_LEN,
        spec_data_bytes(kind, h.push(b[i])).len() + (b.len() - (i + 1))
            * kind.spec_sample_bytes() <= MAX_DATA_LEN,
{
    assert((b.len() - i) * kind.spec_sample_bytes() == (b.len() - (i + 1))
        * kind.spec_sample_bytes() + kind.spec_sample_bytes()) by (nonlinear_arith);
    assert((b.len() - (i + 1)) * kind.spec_sample_bytes() >= 0) by (nonlinear_arith)
        requires
            b.len() - (i + 1) >= 0,
            kind.spec_sample_bytes() >= 0,
    {
    }
    assert(h.push(b[i]).drop_last() =~= h);
    assert(spec_data_bytes(kind, h.push(b[i])) == spec_data_bytes(kind, h) + crate::wav::spec_sample_enc(
        kind,
        b[i],
    ));
}

} // verus!
