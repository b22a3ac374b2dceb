use vstd::prelude::*;

verus! {

/// What reading one sample from a source gave.
#[derive(Debug, Clone, Copy, PartialEq, Eq)]
pub enum ReadOutcome<T> {
    /// The next sample.
    Sample(T),
    /// The source failed (a decoding error, or a source that could not be
    /// reopened).
    Failed,
    /// The source has no more samples.
    Exhausted,
}

/// What to do when a source runs out of samples in the middle of a chunk.
#[derive(Debug, Clone, Copy, PartialEq, Eq)]
pub enum WhenExhausted {
    /// Reopen the source and go on filling the same chunk (a file played in
    /// a loop).
    Restart,
    /// Give the chunk up (a stream that has ended).
    GiveUp,
}

/// What the reader does after a sample was handed to the assembler.
#[derive(Debug, PartialEq, Eq)]
pub enum ChunkStep<T> {
    /// Read the next sample.
    NeedMore,
    /// Reopen the source, then read the next sample.
    Restart,
    /// The chunk is full: hand it on.
    Complete(Vec<T>),
    /// No chunk can be made: the source ended or failed; the samples
    /// gathered so far are dropped.
    Abandon,
}

/// Gathers samples, one at a time, into chunks of a fixed size.
pub struct ChunkAssembler<T> {
    samples: Vec<T>,
    size: usize,
    when_exhausted: WhenExhausted,
}

impl<T> ChunkAssembler<T> {
    #[verifier::type_invariant]
    spec fn partial(self) -> bool {
        0 < self.size && self.samples.len() < self.size
    }

    /// The samples of the chunk being filled, in the order they were read.
    pub closed spec fn pending(self) -> Seq<T> {
        self.samples@
    }

    /// The number of samples in a chunk.
    pub closed spec fn chunk_size(self) -> nat {
        self.size as nat
    }

    /// What happens when the source runs out.
    pub closed spec fn exhaustion_policy(self) -> WhenExhausted {
        self.when_exhausted
    }

    /// The assembler's outcome for one read, and its pending samples after it.
    pub open spec fn feed_result(self, outcome: ReadOutcome<T>, step: ChunkStep<T>, after: Seq<T>) -> bool {
        match outcome {
            ReadOutcome::Sample(sample) => if self.pending().len() + 1 == self.chunk_size() {
                step matches ChunkStep::Complete(chunk) && chunk@ == self.pending().push(sample)
                    && after == Seq::<T>::empty()
            } else {
                step is NeedMore && after == self.pending().push(sample)
            },
            ReadOutcome::Failed => step is Abandon && after == Seq::<T>::empty(),
            ReadOutcome::Exhausted => match self.exhaustion_policy() {
                WhenExhausted::Restart => step is Restart && after == self.pending(),
                WhenExhausted::GiveUp => step is Abandon && after == Seq::<T>::empty(),
            },
        }
    }

    /// An assembler for chunks of `size` samples.
    pub fn new(size: usize, when_exhausted: WhenExhausted) -> (assembler: Self)
        requires
            size > 0,
        ensures
            assembler.pending() == Seq::<T>::empty(),
            assembler.chunk_size() == size,
            assembler.exhaustion_policy() == when_exhausted,
    {
        ChunkAssembler { samples: Vec::new(), size, when_exhausted }
    }

    /// The number of samples gathered for the chunk being filled.
    pub fn pending_len(&self) -> (len: usize)
        ensures
            len == self.pending().len(),
            len < self.chunk_size(),
    {
        proof {
            use_type_invariant(self);
        }
        self.samples.len()
    }

    /// Hands the outcome of one read to the assembler: a sample is added to
    /// the chunk, and a full chunk is handed out; a failure drops the chunk;
    /// running out of samples restarts the source or drops the chunk,
    /// according to the policy.
    pub fn feed(&mut self, outcome: ReadOutcome<T>) -> (step: ChunkStep<T>)
        ensures
            old(self).feed_result(outcome, step, final(self).pending()),
            final(self).chunk_size() == old(self).chunk_size(),
            final(self).exhaustion_policy() == old(self).exhaustion_policy(),
    {
        proof {
            use_type_invariant(&*self);
        }
        match outcome {
            ReadOutcome::Sample(sample) => {
                let mut current: Vec<T> = Vec::new();
                std::mem::swap(&mut current, &mut self.samples);
                current.push(sample);
                if current.len() == self.size {
                    ChunkStep::Complete(current)
                } else {
                    std::mem::swap(&mut current, &mut self.samples);
                    ChunkStep::NeedMore
                }
            },
            ReadOutcome::Failed => {
                self.samples = Vec::new();
                ChunkStep::Abandon
            },
            ReadOutcome::Exhausted => match self.when_exhausted {
                WhenExhausted::Restart => ChunkStep::Restart,
                WhenExhausted::GiveUp => {
                    self.samples = Vec::new();
                    ChunkStep::Abandon
                },
            },
        }
    }
}

/// A chunk handed out by the assembler holds exactly the chunk size of
/// samples: those gathered before, in the order they were read, followed by
/// the sample just fed.
pub proof fn lemma_complete_chunk_is_full<T>(
    assembler: ChunkAssembler<T>,
    outcome: ReadOutcome<T>,
    step: ChunkStep<T>,
    after: Seq<T>,
)
    requires
        assembler.feed_result(outcome, step, after),
        step is Complete,
    ensures
        outcome is Sample,
        step->0@.len() == assembler.chunk_size(),
        step->0@ == assembler.pending().push(outcome->0),
        after.len() == 0,
{
}

/// Feeding a sample that does not fill the chunk puts it at the end of the
/// pending samples and leaves the earlier ones where they were; a failure
/// drops everything, and a restart keeps the pending samples as they are.
pub proof fn lemma_feed_appends_in_read_order<T>(
    assembler: ChunkAssembler<T>,
    outcome: ReadOutcome<T>,
    step: ChunkStep<T>,
    after: Seq<T>,
)
    requires
        assembler.feed_result(outcome, step, after),
    ensures
        outcome is Sample && !(step is Complete) ==> {
            &&& step is NeedMore
            &&& after.len() == assembler.pending().len() + 1
            &&& forall|i: int| 0 <= i < assembler.pending().len() ==> after[i] == assembler.pending()[i]
            &&& after[assembler.pending().len() as int] == outcome->0
        },
        outcome is Failed ==> step is Abandon && after.len() == 0,
        step is Restart ==> outcome is Exhausted && after == assembler.pending(),
        step is Abandon ==> after.len() == 0,
{
}

/// Feeding the samples `xs` one by one into an assembler with no samples
/// pending (fewer than make a chunk) leaves exactly `xs` pending, in the
/// order they were fed; with as many as make a chunk, the last feed hands out
/// exactly `xs`.
pub proof fn lemma_chunk_is_samples_in_read_order<T>(
    states: Seq<ChunkAssembler<T>>,
    xs: Seq<T>,
    steps: Seq<ChunkStep<T>>,
)
    requires
        states.len() == xs.len() + 1,
        steps.len() == xs.len(),
        states[0].pending().len() == 0,
        xs.len() <= states[0].chunk_size(),
        forall|i: int| 0 <= i < states.len() ==> #[trigger] states[i].chunk_size() == states[0].chunk_size(),
        forall|i: int|
            0 <= i < xs.len() ==> #[trigger] states[i].feed_result(
                ReadOutcome::Sample(xs[i]),
                steps[i],
                states[i + 1].pending(),
            ),
    ensures
        xs.len() < states[0].chunk_size() ==> states[xs.len() as int].pending() == xs,
        xs.len() == states[0].chunk_size() && xs.len() > 0 ==> (steps[xs.len() - 1] is Complete
            && steps[xs.len() - 1]->0@ == xs),
    decreases xs.len(),
{
    if xs.len() > 0 {
        let n = xs.len() - 1;
        lemma_chunk_is_samples_in_read_order(states.take(n + 1), xs.take(n), steps.take(n));
        assert(states.take(n + 1)[n] == states[n]);
        assert(states[n].pending() == xs.take(n));
        assert(states[n].feed_result(ReadOutcome::Sample(xs[n]), steps[n], states[n + 1].pending()));
        assert(xs.take(n).push(xs[n]) =~= xs);
    }
}

/// The first channel of interleaved audio: the first sample of every
/// complete frame of `channels` samples, in order; samples of an incomplete
/// last frame are left out.
pub fn first_channel<T: Copy>(data: &[T], channels: usize) -> (mono: Vec<T>)
    requires
        channels > 0,
    ensures
        mono@.len() == data@.len() / (channels as nat),
        forall|k: int| 0 <= k < mono@.len() ==> mono@[k] == data@[k * channels],
{
    let frames = data.len() / channels;
    let mut mono: Vec<T> = Vec::new();
    let mut k: usize = 0;
    while k < frames
        invariant
            channels > 0,
            frames == data@.len() / (channels as nat),
            k <= frames,
            mono@.len() == k,
            forall|j: int| 0 <= j < k ==> mono@[j] == data@[j * channels],
        decreases frames - k,
    {
        assert(k * channels < data@.len()) by (nonlinear_arith)
            requires
                k < frames,
                frames == data@.len() / (channels as nat),
                channels > 0,
        {
            assert(frames * channels <= data@.len());
            assert(k * channels + channels <= frames * channels);
        }
        assert(data@.len() == data.len());
        let start = k * channels;
        mono.push(data[start]);
        k = k + 1;
    }
    mono
}

} // verus!
