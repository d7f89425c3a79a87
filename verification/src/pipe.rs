//! One direction of the bidirectional byte pipe.
//!
//! A pipe copies bytes from an input socket to an output socket until it
//! observes a zero-length read (clean end-of-stream), a read error, or a
//! write error. It then half-closes: it shuts down the output's write side
//! and the input's read side, exactly once, and never acts again. The I/O
//! itself is the caller's: the caller reads, hands each outcome to
//! `Pipe::on_event`, and performs the action handed back.

use vstd::prelude::*;

verus! {

/// Where one pipe direction stands.
#[derive(Clone, Copy, Debug, PartialEq, Eq, Structural)]
pub enum PipeState {
    /// Waiting for the next read outcome.
    Reading,
    /// Waiting to hear whether the forwarded bytes were written.
    Writing,
    /// Half-closed; nothing further will ever be done.
    Finished,
}

/// What the caller observed on the sockets.
pub enum PipeEvent {
    /// A read returned these bytes; zero bytes means end-of-stream.
    Data { bytes: Vec<u8> },
    /// A read failed.
    ReadFailed,
    /// The forwarded bytes were all written.
    WroteOk,
    /// Writing the forwarded bytes failed.
    WriteFailed,
}

/// The mathematical value of a `PipeEvent`.
pub enum PipeEventModel {
    Data { bytes: Seq<u8> },
    ReadFailed,
    WroteOk,
    WriteFailed,
}

impl View for PipeEvent {
    type V = PipeEventModel;

    open spec fn view(&self) -> PipeEventModel {
        match self {
            PipeEvent::Data { bytes } => PipeEventModel::Data { bytes: bytes@ },
            PipeEvent::ReadFailed => PipeEventModel::ReadFailed,
            PipeEvent::WroteOk => PipeEventModel::WroteOk,
            PipeEvent::WriteFailed => PipeEventModel::WriteFailed,
        }
    }
}

/// What the caller is to do next.
pub enum PipeAction {
    /// Write all of these bytes to the output socket, then report the result.
    Forward { bytes: Vec<u8> },
    /// Shut down the output's write side and the input's read side.
    ShutdownBoth,
    /// Nothing to do; read on if the pipe is still running.
    Continue,
}

/// The mathematical value of a `PipeAction`.
pub enum PipeActionModel {
    Forward { bytes: Seq<u8> },
    ShutdownBoth,
    Continue,
}

impl View for PipeAction {
    type V = PipeActionModel;

    open spec fn view(&self) -> PipeActionModel {
        match self {
            PipeAction::Forward { bytes } => PipeActionModel::Forward { bytes: bytes@ },
            PipeAction::ShutdownBoth => PipeActionModel::ShutdownBoth,
            PipeAction::Continue => PipeActionModel::Continue,
        }
    }
}

/// The transition function of one pipe direction. Bytes read are forwarded
/// unmodified; end-of-stream and either kind of error half-close the pipe;
/// a finished pipe ignores every further event.
pub open spec fn pipe_step_model(s: PipeState, e: PipeEventModel) -> (PipeState, PipeActionModel) {
    match (s, e) {
        (PipeState::Reading, PipeEventModel::Data { bytes }) => if bytes.len() == 0 {
            (PipeState::Finished, PipeActionModel::ShutdownBoth)
        } else {
            (PipeState::Writing, PipeActionModel::Forward { bytes })
        },
        (PipeState::Reading, PipeEventModel::ReadFailed) => (
            PipeState::Finished,
            PipeActionModel::ShutdownBoth,
        ),
        (PipeState::Writing, PipeEventModel::WroteOk) => (
            PipeState::Reading,
            PipeActionModel::Continue,
        ),
        (PipeState::Writing, PipeEventModel::WriteFailed) => (
            PipeState::Finished,
            PipeActionModel::ShutdownBoth,
        ),
        _ => (s, PipeActionModel::Continue),
    }
}

/// One direction of the pipe.
pub struct Pipe {
    pub state: PipeState,
}

impl Pipe {
    /// A freshly spawned pipe, about to read.
    pub fn new() -> (p: Pipe)
        ensures
            p.state == PipeState::Reading,
    {
        Pipe { state: PipeState::Reading }
    }

    /// Feed one observation to the pipe and learn what to do next.
    pub fn on_event(&mut self, event: PipeEvent) -> (a: PipeAction)
        ensures
            ({
                let (s2, act) = pipe_step_model(old(self).state, event@);
                &&& final(self).state == s2
                &&& a@ == act
            }),
    {
        match (self.state, event) {
            (PipeState::Reading, PipeEvent::Data { bytes }) => {
                if bytes.len() == 0 {
                    self.state = PipeState::Finished;
                    PipeAction::ShutdownBoth
                } else {
                    self.state = PipeState::Writing;
                    PipeAction::Forward { bytes }
                }
            },
            (PipeState::Reading, PipeEvent::ReadFailed) => {
                self.state = PipeState::Finished;
                PipeAction::ShutdownBoth
            },
            (PipeState::Writing, PipeEvent::WroteOk) => {
                self.state = PipeState::Reading;
                PipeAction::Continue
            },
            (PipeState::Writing, PipeEvent::WriteFailed) => {
                self.state = PipeState::Finished;
                PipeAction::ShutdownBoth
            },
            _ => PipeAction::Continue,
        }
    }
}

/// How many shutdowns a run of the pipe performs: the pipe is stepped over
/// the events in order and the `ShutdownBoth` actions are counted.
pub open spec fn pipe_run_shutdowns(s: PipeState, events: Seq<PipeEventModel>) -> nat
    decreases events.len(),
{
    if events.len() == 0 {
        0
    } else {
        let (s2, a) = pipe_step_model(s, events[0]);
        (if a is ShutdownBoth {
            1nat
        } else {
            0nat
        }) + pipe_run_shutdowns(s2, events.skip(1))
    }
}

/// A finished pipe never shuts anything down again, whatever else it sees.
pub proof fn lemma_finished_quiescent(events: Seq<PipeEventModel>)
    ensures
        pipe_run_shutdowns(PipeState::Finished, events) == 0,
    decreases events.len(),
{
    if events.len() > 0 {
        lemma_finished_quiescent(events.skip(1));
    }
}

/// No run of a pipe, from any state and over any events, shuts down more
/// than once.
pub proof fn lemma_at_most_one_shutdown(s: PipeState, events: Seq<PipeEventModel>)
    ensures
        pipe_run_shutdowns(s, events) <= 1,
    decreases events.len(),
{
    if events.len() > 0 {
        let (s2, a) = pipe_step_model(s, events[0]);
        if a is ShutdownBoth {
            lemma_finished_quiescent(events.skip(1));
        } else {
            lemma_at_most_one_shutdown(s2, events.skip(1));
        }
    }
}

/// Every byte a run of the pipe forwards, in order: the payloads of its
/// `Forward` actions, concatenated.
pub open spec fn pipe_run_forwarded(s: PipeState, events: Seq<PipeEventModel>) -> Seq<u8>
    decreases events.len(),
{
    if events.len() == 0 {
        Seq::empty()
    } else {
        let (s2, a) = pipe_step_model(s, events[0]);
        (match a {
            PipeActionModel::Forward { bytes } => bytes,
            _ => Seq::empty(),
        }) + pipe_run_forwarded(s2, events.skip(1))
    }
}

/// The events of a clean session that reads these chunks in order, each
/// write succeeding.
pub open spec fn data_then_ack(chunks: Seq<Seq<u8>>) -> Seq<PipeEventModel>
    decreases chunks.len(),
{
    if chunks.len() == 0 {
        Seq::empty()
    } else {
        seq![PipeEventModel::Data { bytes: chunks[0] }, PipeEventModel::WroteOk]
            + data_then_ack(chunks.skip(1))
    }
}

/// These chunks, concatenated.
pub open spec fn concat_all(chunks: Seq<Seq<u8>>) -> Seq<u8>
    decreases chunks.len(),
{
    if chunks.len() == 0 {
        Seq::empty()
    } else {
        chunks[0] + concat_all(chunks.skip(1))
    }
}

/// A pipe that reads these chunks, none of them empty, forwards exactly
/// their bytes, unmodified and in order.
pub proof fn lemma_pipe_forwards_exactly(chunks: Seq<Seq<u8>>)
    requires
        forall|i: int| 0 <= i < chunks.len() ==> chunks[i].len() > 0,
    ensures
        pipe_run_forwarded(PipeState::Reading, data_then_ack(chunks)) == concat_all(chunks),
    decreases chunks.len(),
{
    if chunks.len() > 0 {
        let events = data_then_ack(chunks);
        let rest = data_then_ack(chunks.skip(1));
        let after_data = events.skip(1);
        assert(events[0] == PipeEventModel::Data { bytes: chunks[0] });
        assert(pipe_run_forwarded(PipeState::Reading, events) == chunks[0]
            + pipe_run_forwarded(PipeState::Writing, after_data));
        assert(after_data =~= seq![PipeEventModel::WroteOk] + rest);
        assert(after_data[0] == PipeEventModel::WroteOk);
        assert(after_data.skip(1) =~= rest);
        assert(pipe_run_forwarded(PipeState::Writing, after_data) == Seq::<u8>::empty()
            + pipe_run_forwarded(PipeState::Reading, rest));
        assert(Seq::<u8>::empty() + pipe_run_forwarded(PipeState::Reading, rest)
            =~= pipe_run_forwarded(PipeState::Reading, rest));
        assert(forall|i: int| 0 <= i < chunks.skip(1).len() ==> chunks.skip(1)[i].len() > 0);
        lemma_pipe_forwards_exactly(chunks.skip(1));
    }
}

/// Once a pipe observes a zero-length read it shuts down exactly once and
/// then terminates, however many further events — further zero-length reads
/// included — would follow.
pub proof fn lemma_half_close_once(rest: Seq<PipeEventModel>)
    ensures
        pipe_run_shutdowns(
            PipeState::Reading,
            seq![PipeEventModel::Data { bytes: Seq::empty() }] + rest,
        ) == 1,
{
    let events = seq![PipeEventModel::Data { bytes: Seq::<u8>::empty() }] + rest;
    assert(events.len() > 0);
    assert(events[0] == PipeEventModel::Data { bytes: Seq::<u8>::empty() });
    assert(events.skip(1) =~= rest);
    lemma_finished_quiescent(rest);
}

} // verus!
