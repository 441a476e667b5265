use vstd::prelude::*;
use crate::config::NegotiatedParameters;
use crate::errors::Error;
use crate::shared::SharedSignalBuffer;
use crate::staging::StagingBuffer;

verus! {

/// Where the delivery loop stands between two interactions with the driver.
#[derive(Clone, Copy, Debug, PartialEq, Eq, Structural)]
pub enum Phase {
    /// The producer owes samples: the loop asks the callback for `wanted`
    /// more before the next write (initially, for the whole capacity).
    NeedData,
    /// The staging buffer is topped up; the next step is a write attempt.
    Ready,
    /// The driver signalled "would block": the loop waits for readiness and
    /// then retries the same write, with the staging buffer untouched.
    Waiting,
    /// A write or a wait failed: the loop is over, `fault` says why.
    Stopped,
}

/// The driver's answer to one non-blocking write attempt.
#[derive(Clone, Copy, Debug, PartialEq, Eq, Structural)]
pub enum WriteOutcome {
    /// The driver accepted this many frames (possibly zero).
    Written(u64),
    /// No space was available; retry after waiting for readiness.
    WouldBlock,
    /// Any other failure, by negated errno. Fatal.
    Failed(i32),
}

/// The answer to one blocking wait for device readiness.
#[derive(Clone, Copy, Debug, PartialEq, Eq, Structural)]
pub enum PollOutcome {
    Ready,
    /// The wait itself failed, by negated errno. Fatal.
    Failed(i32),
}

/// What the loop's owner should do next, as decided by the session.
#[derive(Clone, Copy, Debug, PartialEq, Eq, Structural)]
pub enum Step {
    /// Invoke the producer callback for up to this many samples, then report
    /// them through `supply`.
    Fill(usize),
    /// Attempt a non-blocking write of the staged contents, then report the
    /// driver's answer through `on_write`.
    Write,
    /// Wait (blocking) for device readiness, then report through `on_poll`.
    Wait,
    /// Stop: the contained error is fatal.
    Halt(Error),
}

/// The mathematical state of a playback session: the staged samples, the
/// fixed bounds, the loop phase, and counters of the interactions so far.
#[verifier::ext_equal]
pub struct SessionModel<T> {
    /// The staged samples, front (oldest) first.
    pub samples: Seq<T>,
    /// Fixed bound on `samples`: buffer size in frames times channels.
    pub capacity: nat,
    /// Interleaved channel count; a frame is this many samples.
    pub channels: nat,
    pub phase: Phase,
    /// Samples the producer was asked for, meaningful in `NeedData`.
    pub wanted: nat,
    /// The fatal error, present exactly in `Stopped`.
    pub fault: Option<Error>,
    /// How often the producer callback has been invoked.
    pub callbacks: nat,
    /// How often the loop has waited for readiness.
    pub polls: nat,
    /// Write attempts, whatever the driver answered.
    pub write_attempts: nat,
    /// Write attempts the driver accepted.
    pub writes_ok: nat,
}

/// A session as it stands before the first callback invocation.
pub open spec fn initial_model<T>(capacity: nat, channels: nat) -> SessionModel<T> {
    SessionModel {
        samples: Seq::empty(),
        capacity: capacity,
        channels: channels,
        phase: Phase::NeedData,
        wanted: capacity,
        fault: None,
        callbacks: 0,
        polls: 0,
        write_attempts: 0,
        writes_ok: 0,
    }
}

/// The producer callback answered a request: its samples are appended at
/// the back, existing samples untouched.
pub open spec fn supply_tr<T>(m: SessionModel<T>, xs: Seq<T>) -> SessionModel<T> {
    SessionModel {
        samples: m.samples + xs,
        phase: Phase::Ready,
        wanted: 0,
        callbacks: m.callbacks + 1,
        ..m
    }
}

/// The driver accepted `frames` frames: exactly the corresponding oldest
/// samples leave the front, and the producer owes that many again.
pub open spec fn write_ok_tr<T>(m: SessionModel<T>, frames: nat) -> SessionModel<T> {
    SessionModel {
        samples: m.samples.skip((frames * m.channels) as int),
        phase: Phase::NeedData,
        wanted: frames * m.channels,
        write_attempts: m.write_attempts + 1,
        writes_ok: m.writes_ok + 1,
        ..m
    }
}

/// The driver signalled "would block": nothing is discarded, nothing is
/// requested; the loop will wait and retry.
pub open spec fn would_block_tr<T>(m: SessionModel<T>) -> SessionModel<T> {
    SessionModel { phase: Phase::Waiting, write_attempts: m.write_attempts + 1, ..m }
}

/// A write failed for good: the loop stops with a runtime write error.
pub open spec fn write_fail_tr<T>(m: SessionModel<T>, code: i32) -> SessionModel<T> {
    SessionModel {
        phase: Phase::Stopped,
        fault: Some(Error::RuntimeWriteError(code)),
        write_attempts: m.write_attempts + 1,
        ..m
    }
}

/// The device became ready: retry the same write, buffer untouched.
pub open spec fn poll_ok_tr<T>(m: SessionModel<T>) -> SessionModel<T> {
    SessionModel { phase: Phase::Ready, polls: m.polls + 1, ..m }
}

/// The wait failed: the loop stops with a poll error.
pub open spec fn poll_fail_tr<T>(m: SessionModel<T>, code: i32) -> SessionModel<T> {
    SessionModel {
        phase: Phase::Stopped,
        fault: Some(Error::PollError(code)),
        polls: m.polls + 1,
        ..m
    }
}

/// The session invariant. Beyond the capacity bound it pins down the
/// pre-fill discipline: while no callback has run the session still asks
/// for the full capacity, and by the time a write is attempted the callback
/// has run exactly once.
pub open spec fn session_inv<T>(m: SessionModel<T>) -> bool {
    &&& m.channels >= 1
    &&& m.samples.len() <= m.capacity
    &&& m.phase is NeedData ==> m.wanted + m.samples.len() <= m.capacity
    &&& (m.phase is Stopped <==> m.fault is Some)
    &&& m.callbacks == 0 ==> m.phase is NeedData && m.wanted == m.capacity && m.samples.len()
        == 0 && m.write_attempts == 0
    &&& m.write_attempts == 0 ==> m.callbacks <= 1
    &&& m.write_attempts == 0 && m.phase is NeedData ==> m.callbacks == 0
    &&& (m.phase is Ready || m.phase is Waiting) ==> m.callbacks >= 1
}

/// The capacity invariant is maintained by every transition of the loop:
/// from any state satisfying the invariant, each enabled step — a callback
/// answer, any of the three write outcomes, either poll outcome — leads to
/// a state satisfying it again. In particular the staged samples never
/// exceed the capacity.
pub proof fn lemma_transitions_preserve_inv<T>(
    m: SessionModel<T>,
    xs: Seq<T>,
    frames: nat,
    code: i32,
)
    requires
        session_inv(m),
    ensures
        m.phase is NeedData && xs.len() <= m.wanted ==> session_inv(supply_tr(m, xs)),
        m.phase is Ready && frames * m.channels <= m.samples.len() ==> session_inv(
            write_ok_tr(m, frames),
        ),
        m.phase is Ready ==> session_inv(would_block_tr(m)),
        m.phase is Ready ==> session_inv(write_fail_tr(m, code)),
        m.phase is Waiting ==> session_inv(poll_ok_tr(m)),
        m.phase is Waiting ==> session_inv(poll_fail_tr(m, code)),
{
}

/// Pre-fill, first half: while the callback has never been invoked, the
/// one outstanding request asks for exactly the full capacity and no write
/// has been attempted yet.
pub proof fn lemma_first_request_is_whole_capacity<T>(m: SessionModel<T>)
    requires
        session_inv(m),
        m.callbacks == 0,
    ensures
        m.phase is NeedData,
        m.wanted == m.capacity,
        m.samples == Seq::<T>::empty(),
        m.write_attempts == 0,
{
    assert(m.samples =~= Seq::<T>::empty());
}

/// Pre-fill, second half: when a session stands at a write attempt — or
/// waits to retry one — and no write has happened before, the callback has
/// been invoked exactly once.
pub proof fn lemma_callback_once_before_first_write<T>(m: SessionModel<T>)
    requires
        session_inv(m),
        m.write_attempts == 0,
        m.phase is Ready || m.phase is Waiting,
    ensures
        m.callbacks == 1,
{
}

/// FIFO drain: when the driver accepts `frames` frames, the samples that
/// leave are exactly the oldest `frames * channels`, in their original
/// order, and the rest stay queued in order behind them.
pub proof fn lemma_fifo_drain<T>(m: SessionModel<T>, frames: nat)
    requires
        session_inv(m),
        frames * m.channels <= m.samples.len(),
    ensures
        write_ok_tr(m, frames).samples == m.samples.skip((frames * m.channels) as int),
        m.samples == m.samples.subrange(0, (frames * m.channels) as int) + write_ok_tr(
            m,
            frames,
        ).samples,
{
    assert(m.samples =~= m.samples.subrange(0, (frames * m.channels) as int) + m.samples.skip(
        (frames * m.channels) as int,
    ));
}

/// Would-block retry: a "would block" answer followed by a successful wait
/// leaves the staged samples exactly as they were and invokes no callback;
/// the loop stands at the same write again.
pub proof fn lemma_would_block_preserves_buffer<T>(m: SessionModel<T>)
    requires
        session_inv(m),
        m.phase is Ready,
    ensures
        would_block_tr(m).samples == m.samples,
        would_block_tr(m).callbacks == m.callbacks,
        poll_ok_tr(would_block_tr(m)).samples == m.samples,
        poll_ok_tr(would_block_tr(m)).callbacks == m.callbacks,
        poll_ok_tr(would_block_tr(m)).phase is Ready,
{
}

/// The software model of a playback device's delivery loop: the staging
/// buffer, the negotiated sizes, and the write/poll protocol, with the
/// driver's answers supplied by the caller as events. The hardware calls
/// themselves live with the owner of the device handle.
pub struct PlaybackSession<T> {
    staging: StagingBuffer<T>,
    params: NegotiatedParameters,
    phase: Phase,
    wanted: usize,
    fault: Option<Error>,
    callbacks: Ghost<nat>,
    polls: Ghost<nat>,
    write_attempts: Ghost<nat>,
    writes_ok: Ghost<nat>,
}

impl<T: Copy> View for PlaybackSession<T> {
    type V = SessionModel<T>;

    closed spec fn view(&self) -> SessionModel<T> {
        SessionModel {
            samples: self.staging@,
            capacity: self.staging.spec_capacity(),
            channels: self.params.channels as nat,
            phase: self.phase,
            wanted: self.wanted as nat,
            fault: self.fault,
            callbacks: self.callbacks@,
            polls: self.polls@,
            write_attempts: self.write_attempts@,
            writes_ok: self.writes_ok@,
        }
    }
}

impl<T: Copy> PlaybackSession<T> {
    pub open spec fn wf(&self) -> bool {
        session_inv(self@)
    }

    /// A session over a freshly prepared device: empty staging buffer of
    /// capacity `buffer_size * channels` samples, and the producer owed one
    /// request for the whole capacity before the first write.
    pub fn new(params: &NegotiatedParameters) -> (s: Self)
        requires
            params.channels >= 1,
            params.buffer_size * params.channels <= usize::MAX,
        ensures
            s@ == initial_model::<T>((params.buffer_size * params.channels) as nat,
                params.channels as nat),
            s.wf(),
    {
        let capacity: usize = (params.buffer_size * (params.channels as u64)) as usize;
        let s = PlaybackSession {
            staging: StagingBuffer::new(capacity),
            params: *params,
            phase: Phase::NeedData,
            wanted: capacity,
            fault: None,
            callbacks: Ghost(0),
            polls: Ghost(0),
            write_attempts: Ghost(0),
            writes_ok: Ghost(0),
        };
        proof {
            assert(s@ =~= initial_model::<T>((params.buffer_size * params.channels) as nat,
                params.channels as nat));
        }
        s
    }

    /// What the loop's owner should do next: fill, write, wait, or halt.
    pub fn next_step(&self) -> (s: Step)
        requires
            self.wf(),
        ensures
            self@.phase is NeedData ==> (s matches Step::Fill(w) && w == self@.wanted),
            self@.phase is Ready ==> s is Write,
            self@.phase is Waiting ==> s is Wait,
            self@.phase is Stopped ==> (s matches Step::Halt(e) && Some(e) == self@.fault),
    {
        match self.phase {
            Phase::NeedData => Step::Fill(self.wanted),
            Phase::Ready => Step::Write,
            Phase::Waiting => Step::Wait,
            Phase::Stopped => {
                match self.fault {
                    Some(e) => Step::Halt(e),
                    // A stopped session carries its fault, by the invariant.
                    None => unreached(),
                }
            },
        }
    }

    /// Report the producer callback's answer to the outstanding request.
    /// The samples are appended behind the existing ones; the callback may
    /// have supplied fewer than asked, never more.
    pub fn supply(&mut self, xs: &Vec<T>)
        requires
            old(self).wf(),
            old(self)@.phase is NeedData,
            xs@.len() <= old(self)@.wanted,
        ensures
            final(self)@ == supply_tr(old(self)@, xs@),
            final(self).wf(),
    {
        self.staging.extend_from(xs);
        self.phase = Phase::Ready;
        self.wanted = 0;
        self.callbacks = Ghost(self.callbacks@ + 1);
        proof {
            assert(self@ =~= supply_tr(old(self)@, xs@));
            lemma_transitions_preserve_inv(old(self)@, xs@, 0, 0);
        }
    }

    /// The staged samples, oldest first: the payload of the next write.
    pub fn contents(&self) -> (v: &Vec<T>)
        ensures
            v@ == self@.samples,
    {
        self.staging.contents()
    }

    /// How many whole frames the staged samples cover: the most a write
    /// attempt may offer the driver.
    pub fn writable_frames(&self) -> (f: u64)
        requires
            self.wf(),
        ensures
            f == self@.samples.len() as int / self@.channels as int,
    {
        (self.staging.len() as u64) / (self.params.channels as u64)
    }

    /// Report the driver's answer to a write attempt. On success the
    /// accepted frames leave the front of the staging buffer and the
    /// producer owes that many samples again; on "would block" nothing
    /// changes and the loop turns to waiting; any other failure is fatal.
    pub fn on_write(&mut self, outcome: WriteOutcome)
        requires
            old(self).wf(),
            old(self)@.phase is Ready,
            outcome matches WriteOutcome::Written(n) ==> n * old(self)@.channels <= old(
                self,
            )@.samples.len(),
        ensures
            outcome matches WriteOutcome::Written(n) ==> final(self)@ == write_ok_tr(
                old(self)@,
                n as nat,
            ),
            outcome is WouldBlock ==> final(self)@ == would_block_tr(old(self)@),
            outcome matches WriteOutcome::Failed(c) ==> final(self)@ == write_fail_tr(
                old(self)@,
                c,
            ),
            final(self).wf(),
    {
        self.write_attempts = Ghost(self.write_attempts@ + 1);
        match outcome {
            WriteOutcome::Written(n) => {
                let cur: usize = self.staging.len();
                proof {
                    assert(n * (self.params.channels as u64) <= cur);
                }
                let count: usize = (n * (self.params.channels as u64)) as usize;
                let _ = self.staging.pop_front_n(count);
                self.phase = Phase::NeedData;
                self.wanted = count;
                self.writes_ok = Ghost(self.writes_ok@ + 1);
                proof {
                    assert(self@ =~= write_ok_tr(old(self)@, n as nat));
                    lemma_transitions_preserve_inv(old(self)@, Seq::<T>::empty(), n as nat, 0);
                }
            },
            WriteOutcome::WouldBlock => {
                self.phase = Phase::Waiting;
                proof {
                    assert(self@ =~= would_block_tr(old(self)@));
                    lemma_transitions_preserve_inv(old(self)@, Seq::<T>::empty(), 0, 0);
                }
            },
            WriteOutcome::Failed(c) => {
                self.phase = Phase::Stopped;
                self.fault = Some(Error::RuntimeWriteError(c));
                proof {
                    assert(self@ =~= write_fail_tr(old(self)@, c));
                    lemma_transitions_preserve_inv(old(self)@, Seq::<T>::empty(), 0, c);
                }
            },
        }
    }

    /// Report the outcome of the blocking wait for readiness. On success
    /// the loop retries the same write, staging buffer untouched; a failed
    /// wait is fatal.
    pub fn on_poll(&mut self, outcome: PollOutcome)
        requires
            old(self).wf(),
            old(self)@.phase is Waiting,
        ensures
            outcome is Ready ==> final(self)@ == poll_ok_tr(old(self)@),
            outcome matches PollOutcome::Failed(c) ==> final(self)@ == poll_fail_tr(
                old(self)@,
                c,
            ),
            final(self).wf(),
    {
        match outcome {
            PollOutcome::Ready => {
                self.phase = Phase::Ready;
                self.polls = Ghost(self.polls@ + 1);
                proof {
                    assert(self@ =~= poll_ok_tr(old(self)@));
                    lemma_transitions_preserve_inv(old(self)@, Seq::<T>::empty(), 0, 0);
                }
            },
            PollOutcome::Failed(c) => {
                self.phase = Phase::Stopped;
                self.fault = Some(Error::PollError(c));
                self.polls = Ghost(self.polls@ + 1);
                proof {
                    assert(self@ =~= poll_fail_tr(old(self)@, c));
                    lemma_transitions_preserve_inv(old(self)@, Seq::<T>::empty(), 0, c);
                }
            },
        }
    }

    pub fn staged_len(&self) -> (n: usize)
        ensures
            n == self@.samples.len(),
    {
        self.staging.len()
    }

    pub fn capacity(&self) -> (c: usize)
        ensures
            c == self@.capacity,
    {
        self.staging.capacity()
    }

    pub fn fault(&self) -> (f: Option<Error>)
        ensures
            f == self@.fault,
    {
        self.fault
    }
}

/// The producer callback of the concurrent variant, minus the lock around
/// it: drain up to the outstanding request from the shared buffer, in
/// order, and append what came out to the staging buffer. The result is the
/// shortfall — how many requested samples the shared buffer could not
/// provide (the insufficient-data condition; zero when it held enough).
pub fn feed_from_shared<T: Copy>(
    session: &mut PlaybackSession<T>,
    shared: &mut SharedSignalBuffer<T>,
) -> (shortfall: usize)
    requires
        old(session).wf(),
        old(session)@.phase is NeedData,
        old(shared).wf(),
    ensures
        final(session).wf(),
        final(shared).wf(),
        final(shared).spec_capacity() == old(shared).spec_capacity(),
        old(shared)@.len() >= old(session)@.wanted ==> final(session)@ == supply_tr(
            old(session)@,
            old(shared)@.subrange(0, old(session)@.wanted as int),
        ) && final(shared)@ == old(shared)@.skip(old(session)@.wanted as int) && shortfall == 0,
        old(shared)@.len() < old(session)@.wanted ==> final(session)@ == supply_tr(
            old(session)@,
            old(shared)@,
        ) && final(shared)@ == Seq::<T>::empty() && shortfall == old(session)@.wanted - old(
            shared,
        )@.len(),
{
    let wanted: usize = session.wanted;
    let got = shared.drain(wanted);
    let shortfall: usize = wanted - got.len();
    session.supply(&got);
    shortfall
}

} // verus!
