//! The rendering engine: the order in which the samples of a series of
//! pieces go to the sink.
//!
//! The engine decides and the caller performs. Each step hands the caller
//! one action (open the sink, write one sample, finalize, stop) and takes
//! back how the action went. The samples of the pieces are written one
//! piece after the other, each from its first sample to its last, and a
//! failure of the sink stops the rendering at once.

use vstd::prelude::*;

use crate::duration::sample_count_of;
use crate::error::AudioError;
use crate::format::Spec;
use crate::piece::{Piece, TemporalPiece};

verus! {

/// The number of samples of piece `k`.
pub open spec fn count_at(pieces: Seq<TemporalPiece>, rate: u32, k: int) -> nat {
    sample_count_of(pieces[k].1@, rate as nat)
}

/// The number of samples of the first `k` pieces together.
pub open spec fn samples_before(pieces: Seq<TemporalPiece>, rate: u32, k: int) -> nat
    decreases k,
{
    if k <= 0 {
        0
    } else {
        samples_before(pieces, rate, k - 1) + count_at(pieces, rate, k - 1)
    }
}

/// The number of samples of all the pieces together.
pub open spec fn total_samples(pieces: Seq<TemporalPiece>, rate: u32) -> nat {
    samples_before(pieces, rate, pieces.len() as int)
}

/// The samples of the first `k` pieces in the order of the recording, each
/// named by the number of its piece and its index in that piece.
pub open spec fn stream_upto(pieces: Seq<TemporalPiece>, rate: u32, k: int) -> Seq<(int, int)>
    decreases k,
{
    if k <= 0 {
        Seq::empty()
    } else {
        stream_upto(pieces, rate, k - 1) + Seq::new(
            count_at(pieces, rate, k - 1),
            |i: int| (k - 1, i),
        )
    }
}

/// The samples of the whole recording, in order.
pub open spec fn stream(pieces: Seq<TemporalPiece>, rate: u32) -> Seq<(int, int)> {
    stream_upto(pieces, rate, pieces.len() as int)
}

/// A fade that holds no sample: its envelope would divide by zero.
pub open spec fn is_hazard(pieces: Seq<TemporalPiece>, rate: u32, k: int) -> bool {
    pieces[k].0 is Fadeout && count_at(pieces, rate, k) == 0
}

/// A constant tone that holds no sample: the engine passes over it.
pub open spec fn is_silent(pieces: Seq<TemporalPiece>, rate: u32, k: int) -> bool {
    pieces[k].0 is Static && count_at(pieces, rate, k) == 0
}

/// The first piece from `k` on at which the engine has something to do, a
/// sample to write or a hazard to report; the number of pieces if there is
/// none.
pub open spec fn seek(pieces: Seq<TemporalPiece>, rate: u32, k: int) -> int
    decreases pieces.len() - k,
{
    if k < 0 || k >= pieces.len() {
        pieces.len() as int
    } else if is_silent(pieces, rate, k) {
        seek(pieces, rate, k + 1)
    } else {
        k
    }
}

/// How the last action went.
#[derive(Clone, Copy, Debug, PartialEq, Eq, Structural)]
pub enum Outcome {
    /// The sink did what was asked.
    Done,
    /// The sink reported a failure.
    Failed,
}

/// What the engine is waiting for.
#[derive(Clone, Copy, Debug, PartialEq, Eq)]
pub enum Phase {
    /// The sink is being opened.
    Opening,
    /// Sample `index` of piece number `piece` is being written.
    Writing { piece: usize, index: u64 },
    /// The sink is being finalized.
    Finalizing,
    /// The rendering is over, with this result.
    Stopped(Result<(), AudioError>),
}

/// What the caller does next.
#[derive(Clone, Copy, Debug, PartialEq, Eq)]
pub enum Action {
    /// Open the sink.
    Open,
    /// Write sample `index` of the `count` samples of `segment`.
    Write { segment: Piece, index: u64, count: u64 },
    /// Finalize the sink: every sample has been written.
    Finalize,
    /// Stop: the rendering is over, with this result.
    Stop(Result<(), AudioError>),
}

/// No fade among the first `k` pieces is without a sample.
pub open spec fn hazard_free(pieces: Seq<TemporalPiece>, rate: u32, k: int) -> bool {
    forall|j: int| 0 <= j < k ==> !is_hazard(pieces, rate, j)
}

/// A phase that fits the pieces: a sample being written is one of theirs, and
/// the engine has passed no fade without a sample.
pub open spec fn phase_valid(pieces: Seq<TemporalPiece>, rate: u32, phase: Phase) -> bool {
    match phase {
        Phase::Writing { piece, index } => {
            &&& piece < pieces.len()
            &&& index < count_at(pieces, rate, piece as int)
            &&& hazard_free(pieces, rate, piece as int)
        },
        Phase::Finalizing => hazard_free(pieces, rate, pieces.len() as int),
        _ => true,
    }
}

/// Where the engine goes when it turns to piece `k`: to the first sample of
/// the next piece that holds one, to a stop at a fade that holds none, or,
/// past the last piece, to finalizing.
pub open spec fn arrive(pieces: Seq<TemporalPiece>, rate: u32, k: int) -> (Phase, Action) {
    let j = seek(pieces, rate, k);
    if j >= pieces.len() {
        (Phase::Finalizing, Action::Finalize)
    } else if count_at(pieces, rate, j) == 0 {
        (
            Phase::Stopped(Err(AudioError::ArithmeticHazard)),
            Action::Stop(Err(AudioError::ArithmeticHazard)),
        )
    } else {
        (
            Phase::Writing { piece: j as usize, index: 0 },
            Action::Write { segment: pieces[j].0, index: 0, count: count_at(pieces, rate, j) as u64 },
        )
    }
}

/// The engine's rule: the next phase and the next action, from the phase and
/// the outcome of the action that the phase waits for.
pub open spec fn step_of(pieces: Seq<TemporalPiece>, rate: u32, phase: Phase, outcome: Outcome) -> (
    Phase,
    Action,
) {
    match phase {
        Phase::Stopped(result) => (phase, Action::Stop(result)),
        _ => if outcome is Failed {
            (Phase::Stopped(Err(AudioError::Sink)), Action::Stop(Err(AudioError::Sink)))
        } else {
            match phase {
                Phase::Opening => arrive(pieces, rate, 0),
                Phase::Writing { piece, index } => if index + 1 < count_at(
                    pieces,
                    rate,
                    piece as int,
                ) {
                    (
                        Phase::Writing { piece, index: (index + 1) as u64 },
                        Action::Write {
                            segment: pieces[piece as int].0,
                            index: (index + 1) as u64,
                            count: count_at(pieces, rate, piece as int) as u64,
                        },
                    )
                } else {
                    arrive(pieces, rate, piece + 1)
                },
                Phase::Finalizing => (Phase::Stopped(Ok(())), Action::Stop(Ok(()))),
                Phase::Stopped(result) => (phase, Action::Stop(result)),
            }
        },
    }
}

/// The number of samples that the engine has asked to write by the time it
/// is in `phase`.
pub open spec fn issued(pieces: Seq<TemporalPiece>, rate: u32, phase: Phase) -> nat {
    match phase {
        Phase::Opening => 0,
        Phase::Writing { piece, index } => (samples_before(pieces, rate, piece as int) + index + 1) as nat,
        Phase::Finalizing => total_samples(pieces, rate),
        Phase::Stopped(_) => 0,
    }
}

/// The phase of the engine after `n` steps that all went well.
pub open spec fn run(pieces: Seq<TemporalPiece>, rate: u32, n: nat) -> Phase
    decreases n,
{
    if n == 0 {
        Phase::Opening
    } else {
        step_of(pieces, rate, run(pieces, rate, (n - 1) as nat), Outcome::Done).0
    }
}

/// The action that the engine gives after `n` steps that all went well and
/// one more success: the action number `n`, counted from zero and after the
/// opening of the sink.
pub open spec fn action_at(pieces: Seq<TemporalPiece>, rate: u32, n: nat) -> Action {
    step_of(pieces, rate, run(pieces, rate, n), Outcome::Done).1
}

/// The engine over one series of pieces at one sample rate.
pub struct Renderer {
    pieces: Vec<TemporalPiece>,
    sample_rate: u32,
    phase: Phase,
}

impl Renderer {
    #[verifier::type_invariant]
    spec fn valid(self) -> bool {
        phase_valid(self.pieces@, self.sample_rate, self.phase)
    }

    /// The pieces being rendered.
    pub closed spec fn pieces(self) -> Seq<TemporalPiece> {
        self.pieces@
    }

    /// The sample rate of the recording.
    pub closed spec fn sample_rate(self) -> u32 {
        self.sample_rate
    }

    pub closed spec fn spec_phase(&self) -> Phase {
        self.phase
    }

    /// What the engine is waiting for.
    #[verifier::when_used_as_spec(spec_phase)]
    pub fn phase(&self) -> (phase: Phase)
        ensures
            phase == self.spec_phase(),
            phase_valid(self.pieces(), self.sample_rate(), phase),
    {
        proof {
            use_type_invariant(self);
        }
        self.phase
    }

    /// Begins a rendering of `pieces` at `sample_rate` samples per second. The
    /// first action is to open the sink. At a rate of zero no piece holds a
    /// sample.
    pub fn start(pieces: Vec<TemporalPiece>, sample_rate: u32) -> (begun: (Renderer, Action))
        ensures
            begun.0.pieces() == pieces@,
            begun.0.sample_rate() == sample_rate,
            begun.0.spec_phase() == Phase::Opening,
            begun.1 == Action::Open,
    {
        (Renderer { pieces, sample_rate, phase: Phase::Opening }, Action::Open)
    }

    /// Takes the outcome of the last action and gives the next one, by the
    /// engine's rule. A sample to write is always one of a piece that holds
    /// samples, so that the caller may divide by the count.
    pub fn step(self, outcome: Outcome) -> (next: (Renderer, Action))
        ensures
            next.0.pieces() == self.pieces(),
            next.0.sample_rate() == self.sample_rate(),
            (next.0.spec_phase(), next.1) == step_of(
                self.pieces(),
                self.sample_rate(),
                self.spec_phase(),
                outcome,
            ),
            phase_valid(next.0.pieces(), next.0.sample_rate(), next.0.spec_phase()),
            next.1 matches Action::Write { index, count, .. } ==> index < count,
    {
        proof {
            use_type_invariant(&self);
        }
        let (phase, action) = match self.phase {
            Phase::Stopped(result) => (self.phase, Action::Stop(result)),
            Phase::Opening => match outcome {
                Outcome::Failed => Self::abort(),
                Outcome::Done => Self::turn_to(&self.pieces, self.sample_rate, 0),
            },
            Phase::Writing { piece, index } => match outcome {
                Outcome::Failed => Self::abort(),
                Outcome::Done => {
                    let count = self.pieces[piece].1.sample_count(self.sample_rate);
                    if index + 1 < count {
                        (
                            Phase::Writing { piece, index: index + 1 },
                            Action::Write { segment: self.pieces[piece].0, index: index + 1, count },
                        )
                    } else {
                        assert(piece < self.pieces.len());
                        assert(!is_hazard(self.pieces@, self.sample_rate, piece as int));
                        Self::turn_to(&self.pieces, self.sample_rate, piece + 1)
                    }
                },
            },
            Phase::Finalizing => match outcome {
                Outcome::Failed => Self::abort(),
                Outcome::Done => (Phase::Stopped(Ok(())), Action::Stop(Ok(()))),
            },
        };
        (Renderer { pieces: self.pieces, sample_rate: self.sample_rate, phase }, action)
    }

    /// The stop after a failure of the sink.
    fn abort() -> (stop: (Phase, Action))
        ensures
            stop == (Phase::Stopped(Err(AudioError::Sink)), Action::Stop(Err(AudioError::Sink))),
    {
        (Phase::Stopped(Err(AudioError::Sink)), Action::Stop(Err(AudioError::Sink)))
    }

    /// Turns to piece `k`, passing over the constant tones that hold no sample.
    fn turn_to(pieces: &Vec<TemporalPiece>, sample_rate: u32, k: usize) -> (next: (Phase, Action))
        requires
            k <= pieces.len(),
            hazard_free(pieces@, sample_rate, k as int),
        ensures
            next == arrive(pieces@, sample_rate, k as int),
            phase_valid(pieces@, sample_rate, next.0),
    {
        let mut j: usize = k;
        while j < pieces.len()
            invariant
                k <= j <= pieces.len(),
                seek(pieces@, sample_rate, j as int) == seek(pieces@, sample_rate, k as int),
                hazard_free(pieces@, sample_rate, j as int),
            decreases pieces.len() - j,
        {
            let count = pieces[j].1.sample_count(sample_rate);
            if count > 0 {
                return (
                    Phase::Writing { piece: j, index: 0 },
                    Action::Write { segment: pieces[j].0, index: 0, count },
                );
            }
            if pieces[j].0.divides_by_count() {
                return (
                    Phase::Stopped(Err(AudioError::ArithmeticHazard)),
                    Action::Stop(Err(AudioError::ArithmeticHazard)),
                );
            }
            j += 1;
        }
        (Phase::Finalizing, Action::Finalize)
    }
}

/// Begins the rendering of `temporals` into the recording that `spec`
/// describes: the engine at its sample rate, and the first action, which is
/// to open the sink.
pub fn make<'a>(temporals: Vec<TemporalPiece>, spec: &Spec<'a>) -> (begun: (Renderer, Action))
    ensures
        begun.0.pieces() == temporals@,
        begun.0.sample_rate() == spec.sample_rate,
        begun.0.spec_phase() == Phase::Opening,
        begun.1 == Action::Open,
{
    Renderer::start(temporals, spec.sample_rate)
}

/// Passing over pieces changes nothing: from `k` the engine comes to rest at
/// a piece not before `k`, every piece that it passes is a constant tone
/// without a sample, and it rests at a piece with a sample or at a fade. The
/// pieces that it passes add no sample to the recording.
pub proof fn lemma_seek(pieces: Seq<TemporalPiece>, rate: u32, k: int)
    requires
        0 <= k <= pieces.len(),
    ensures
        k <= seek(pieces, rate, k) <= pieces.len(),
        forall|j: int| k <= j < seek(pieces, rate, k) ==> is_silent(pieces, rate, j),
        seek(pieces, rate, k) < pieces.len() ==> !is_silent(pieces, rate, seek(pieces, rate, k)),
        samples_before(pieces, rate, seek(pieces, rate, k)) == samples_before(pieces, rate, k),
    decreases pieces.len() - k,
{
    if k < pieces.len() && is_silent(pieces, rate, k) {
        lemma_seek(pieces, rate, k + 1);
    }
}

/// The recording is as long as the sample counts of its pieces together.
pub proof fn lemma_stream_length(pieces: Seq<TemporalPiece>, rate: u32, k: int)
    ensures
        stream_upto(pieces, rate, k).len() == samples_before(pieces, rate, k),
    decreases k,
{
    if k > 0 {
        lemma_stream_length(pieces, rate, k - 1);
    }
}

/// The recording is the pieces' samples laid end to end: sample `i` of piece
/// `j` stands after all the samples of the pieces before `j` and after the
/// first `i` samples of its own piece.
pub proof fn lemma_stream_order(pieces: Seq<TemporalPiece>, rate: u32, k: int, j: int, i: int)
    requires
        0 <= j < k,
        0 <= i < count_at(pieces, rate, j),
    ensures
        samples_before(pieces, rate, j) + i < stream_upto(pieces, rate, k).len(),
        stream_upto(pieces, rate, k)[samples_before(pieces, rate, j) + i] == (j, i),
    decreases k,
{
    lemma_stream_length(pieces, rate, k - 1);
    if j < k - 1 {
        lemma_stream_order(pieces, rate, k - 1, j, i);
    }
}

/// Every step keeps to the recording. A sample that the engine asks to write
/// is the next one of the recording, with the segment and the sample count of
/// its piece. The engine asks to finalize only when every sample of every
/// piece has been asked for and no fade was without a sample. It reports an
/// arithmetic hazard only at a fade without a sample, after exactly the
/// samples of the pieces before it. A failure of the sink stops it at once.
pub proof fn lemma_step_follows_stream(
    pieces: Seq<TemporalPiece>,
    rate: u32,
    phase: Phase,
    outcome: Outcome,
)
    requires
        pieces.len() <= usize::MAX,
        phase_valid(pieces, rate, phase),
    ensures
        ({
            let (next, action) = step_of(pieces, rate, phase, outcome);
            &&& phase_valid(pieces, rate, next)
            &&& action matches Action::Write { segment, index, count } ==> {
                &&& next matches Phase::Writing { piece, index: at }
                &&& at == index
                &&& index < count
                &&& segment == pieces[piece as int].0
                &&& count == count_at(pieces, rate, piece as int)
                &&& issued(pieces, rate, next) == issued(pieces, rate, phase) + 1
                &&& issued(pieces, rate, phase) < stream(pieces, rate).len()
                &&& stream(pieces, rate)[issued(pieces, rate, phase) as int] == (
                    piece as int,
                    index as int,
                )
            }
            &&& action is Finalize ==> {
                &&& issued(pieces, rate, phase) == stream(pieces, rate).len()
                &&& stream(pieces, rate).len() == total_samples(pieces, rate)
                &&& hazard_free(pieces, rate, pieces.len() as int)
            }
            &&& !(phase is Stopped) && action == Action::Stop(Err(AudioError::ArithmeticHazard))
                ==> exists|h: int|
                0 <= h < pieces.len() && #[trigger] is_hazard(pieces, rate, h) && hazard_free(
                    pieces,
                    rate,
                    h,
                ) && issued(pieces, rate, phase) == samples_before(pieces, rate, h)
            &&& !(phase is Stopped) && outcome is Failed ==> action == Action::Stop(
                Err(AudioError::Sink),
            )
            &&& phase matches Phase::Stopped(result) ==> action == Action::Stop(result) && next
                == phase
            &&& phase is Finalizing && outcome is Done ==> action == Action::Stop(Ok(()))
        }),
{
    let n = pieces.len() as int;
    lemma_stream_length(pieces, rate, n);
    if !(phase is Stopped) && outcome is Done {
        match phase {
            Phase::Opening => {
                lemma_arrive(pieces, rate, 0);
            },
            Phase::Writing { piece, index } => {
                if index + 1 < count_at(pieces, rate, piece as int) {
                    lemma_stream_order(pieces, rate, n, piece as int, index + 1);
                } else {
                    assert(!is_hazard(pieces, rate, piece as int));
                    lemma_arrive(pieces, rate, piece + 1);
                }
            },
            _ => {},
        }
    }
}

/// Turning to piece `k`, when the engine has passed no hazard and has asked
/// for the samples of the pieces before `k`, keeps to the recording.
proof fn lemma_arrive(pieces: Seq<TemporalPiece>, rate: u32, k: int)
    requires
        0 <= k <= pieces.len() <= usize::MAX,
        hazard_free(pieces, rate, k),
    ensures
        ({
            let (next, action) = arrive(pieces, rate, k);
            let j = seek(pieces, rate, k);
            &&& k <= j <= pieces.len()
            &&& samples_before(pieces, rate, j) == samples_before(pieces, rate, k)
            &&& hazard_free(pieces, rate, j)
            &&& phase_valid(pieces, rate, next)
            &&& action is Write ==> j < pieces.len() && samples_before(pieces, rate, k)
                < stream(pieces, rate).len() && stream(pieces, rate)[samples_before(
                pieces,
                rate,
                k,
            ) as int] == (j, 0int)
            &&& action is Finalize ==> j == pieces.len()
            &&& action is Stop ==> j < pieces.len() && is_hazard(pieces, rate, j)
        }),
{
    lemma_seek(pieces, rate, k);
    let j = seek(pieces, rate, k);
    assert forall|x: int| 0 <= x < j implies !is_hazard(pieces, rate, x) by {
        if k <= x {
            assert(is_silent(pieces, rate, x));
        }
    }
    if j < pieces.len() && count_at(pieces, rate, j) > 0 {
        lemma_stream_order(pieces, rate, pieces.len() as int, j, 0);
    }
}

/// More pieces never hold fewer samples.
pub proof fn lemma_samples_before_monotonic(
    pieces: Seq<TemporalPiece>,
    rate: u32,
    j: int,
    k: int,
)
    requires
        j <= k,
    ensures
        samples_before(pieces, rate, j) <= samples_before(pieces, rate, k),
    decreases k - j,
{
    if j < k {
        lemma_samples_before_monotonic(pieces, rate, j, k - 1);
    }
}

/// While the sink does what it is asked, and up to `limit` samples where no
/// fade without a sample stands before the sample number `limit`, the engine
/// has asked for one sample with each step.
proof fn lemma_run_prefix(pieces: Seq<TemporalPiece>, rate: u32, limit: nat, m: nat)
    requires
        pieces.len() <= usize::MAX,
        m <= limit <= total_samples(pieces, rate),
        forall|h: int|
            0 <= h < pieces.len() && #[trigger] is_hazard(pieces, rate, h) ==> limit
                <= samples_before(pieces, rate, h),
    ensures
        phase_valid(pieces, rate, run(pieces, rate, m)),
        issued(pieces, rate, run(pieces, rate, m)) == m,
        run(pieces, rate, m) is Opening || run(pieces, rate, m) is Writing,
    decreases m,
{
    if m > 0 {
        let before = run(pieces, rate, (m - 1) as nat);
        lemma_run_prefix(pieces, rate, limit, (m - 1) as nat);
        lemma_step_follows_stream(pieces, rate, before, Outcome::Done);
    }
}

/// A rendering that meets no failure writes every sample at its place: when
/// no fade before piece `j` is without a sample, action number
/// `samples_before(j) + i` is to write sample `i` of piece `j`, with the
/// segment and the sample count of that piece.
pub proof fn lemma_run_writes_each_sample(pieces: Seq<TemporalPiece>, rate: u32, j: int, i: int)
    requires
        0 <= j < pieces.len() <= usize::MAX,
        0 <= i < count_at(pieces, rate, j),
        hazard_free(pieces, rate, j),
    ensures
        action_at(pieces, rate, (samples_before(pieces, rate, j) + i) as nat) == (Action::Write {
            segment: pieces[j].0,
            index: i as u64,
            count: count_at(pieces, rate, j) as u64,
        }),
        stream(pieces, rate)[samples_before(pieces, rate, j) + i] == (j, i),
{
    let n = (samples_before(pieces, rate, j) + i) as nat;
    let limit = (n + 1) as nat;
    lemma_samples_before_monotonic(pieces, rate, j + 1, pieces.len() as int);
    assert forall|h: int| 0 <= h < pieces.len() && #[trigger] is_hazard(pieces, rate, h) implies limit
        <= samples_before(pieces, rate, h) by {
        lemma_samples_before_monotonic(pieces, rate, j + 1, h);
    }
    lemma_run_prefix(pieces, rate, limit, n);
    lemma_run_prefix(pieces, rate, limit, limit);
    lemma_step_follows_stream(pieces, rate, run(pieces, rate, n), Outcome::Done);
    lemma_stream_order(pieces, rate, pieces.len() as int, j, i);
    assert(run(pieces, rate, limit) == step_of(
        pieces,
        rate,
        run(pieces, rate, n),
        Outcome::Done,
    ).0);
}

/// A rendering that meets no failure ends well: when no fade is without a
/// sample, the action after the last sample is to finalize the sink, and the
/// one after that is to stop with success. With no piece at all these are
/// the first two actions.
pub proof fn lemma_run_finalizes(pieces: Seq<TemporalPiece>, rate: u32)
    requires
        pieces.len() <= usize::MAX,
        hazard_free(pieces, rate, pieces.len() as int),
    ensures
        action_at(pieces, rate, total_samples(pieces, rate)) == Action::Finalize,
        action_at(pieces, rate, total_samples(pieces, rate) + 1) == Action::Stop(Ok(())),
        stream(pieces, rate).len() == total_samples(pieces, rate),
{
    let total = total_samples(pieces, rate);
    lemma_stream_length(pieces, rate, pieces.len() as int);
    lemma_run_prefix(pieces, rate, total, total);
    lemma_step_follows_stream(pieces, rate, run(pieces, rate, total), Outcome::Done);
    assert(run(pieces, rate, total + 1) == step_of(
        pieces,
        rate,
        run(pieces, rate, total),
        Outcome::Done,
    ).0);
}

/// A fade without a sample stops the rendering: where piece `h` is the first
/// such fade, the action after the samples of the pieces before it is to
/// stop with an arithmetic hazard.
pub proof fn lemma_run_stops_at_hazard(pieces: Seq<TemporalPiece>, rate: u32, h: int)
    requires
        0 <= h < pieces.len() <= usize::MAX,
        is_hazard(pieces, rate, h),
        hazard_free(pieces, rate, h),
    ensures
        action_at(pieces, rate, samples_before(pieces, rate, h)) == Action::Stop(
            Err(AudioError::ArithmeticHazard),
        ),
{
    let limit = samples_before(pieces, rate, h);
    lemma_samples_before_monotonic(pieces, rate, h, pieces.len() as int);
    assert forall|x: int| 0 <= x < pieces.len() && #[trigger] is_hazard(pieces, rate, x) implies limit
        <= samples_before(pieces, rate, x) by {
        lemma_samples_before_monotonic(pieces, rate, h, x);
    }
    lemma_run_prefix(pieces, rate, limit, limit);
    let phase = run(pieces, rate, limit);
    lemma_step_follows_stream(pieces, rate, phase, Outcome::Done);
    let (next, action) = step_of(pieces, rate, phase, Outcome::Done);
    if action is Write {
        let piece = next->piece as int;
        assert(piece != h);
        if piece < h {
            lemma_samples_before_monotonic(pieces, rate, piece + 1, h);
        } else {
            assert(!is_hazard(pieces, rate, h));
        }
    }
}

} // verus!
