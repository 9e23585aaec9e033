//! What the loudspeaker plays: jitter-buffered playback and zero-order hold.
use vstd::prelude::*;

use crate::ring::{ring_len, ring_pop, SampleRing};

verus! {

/// Samples per second of the audio that the translation service takes and sends.
pub const TARGET_SAMPLE_RATE: u32 = 24_000;

/// Buffered audio at which a silent player starts.
pub const START_THRESHOLD_MS: usize = 250;

/// Buffered audio below which a running player pauses.
pub const PAUSE_THRESHOLD_MS: usize = 60;

/// How many seconds of audio wait for playback at most.
pub const BUFFER_SECONDS: usize = 5;

/// So many milliseconds of audio, in samples.
pub open spec fn samples_in_ms(ms: int) -> int {
    TARGET_SAMPLE_RATE * ms / 1000
}

/// The empty queue that a session plays from.
pub fn playback_ring() -> (r: SampleRing)
    ensures
        r@ == Seq::<i16>::empty(),
        r.capacity() == samples_in_ms(1000 * BUFFER_SECONDS),
{
    SampleRing::with_capacity((TARGET_SAMPLE_RATE as usize) * BUFFER_SECONDS)
}

/// How many frames an interleaved buffer holds, a partial one at its end counted.
pub open spec fn frames_in(samples: int, channels: u16) -> int {
    let width: int = if channels == 0 {
        1
    } else {
        channels as int
    };
    (samples + width - 1) / width
}

/// How many frames an interleaved buffer holds, a partial one at its end counted; a buffer of
/// no channels counts as one of one channel.
pub fn frame_count(samples: usize, channels: u16) -> (r: usize)
    ensures
        r == frames_in(samples as int, channels),
{
    let width: usize = if channels == 0 {
        1
    } else {
        channels as usize
    };
    let whole: usize = samples / width;
    let rest: usize = samples % width;
    proof {
        let (w, s) = (width as int, samples as int);
        vstd::arithmetic::div_mod::lemma_fundamental_div_mod(s, w);
        assert(w * whole == whole * w) by (nonlinear_arith);
        if rest == 0 {
            vstd::arithmetic::div_mod::lemma_fundamental_div_mod_converse(
                s + w - 1,
                w,
                whole as int,
                w - 1,
            );
        } else {
            assert((whole + 1) * w == whole * w + w) by (nonlinear_arith);
            vstd::arithmetic::div_mod::lemma_fundamental_div_mod_converse(
                s + w - 1,
                w,
                whole + 1,
                rest - 1,
            );
            assert(whole + 1 <= s) by (nonlinear_arith)
                requires
                    s == w * whole + rest,
                    w >= 1,
                    rest >= 1,
                    whole >= 0,
            ;
        }
    }
    if rest == 0 {
        whole
    } else {
        whole + 1
    }
}

/// The state of jitter-buffered playback, kept from one block of output to the next.
#[derive(Clone, Copy, Debug, PartialEq, Eq, Structural)]
pub struct PlaybackState {
    /// Whether audio plays; otherwise the output is silent.
    pub playing: bool,
    /// The position of the sample that plays, -1 before the first.
    pub last_idx: i64,
    /// The sample that plays.
    pub current_sample: i16,
    /// How many blocks of output were asked for; like every count here it wraps around.
    pub callbacks: u64,
    /// How often playback had to pause for want of audio.
    pub underruns: u64,
}

/// What a block of output found on its start.
#[derive(Clone, Copy, Debug, PartialEq, Eq, Structural)]
pub enum Gate {
    /// Playback starts, at position zero.
    Started,
    /// Playback pauses.
    Paused,
    /// Playback goes on, or stays silent.
    Unchanged,
}

/// What a block of output does to a player before so many buffered samples.
pub open spec fn gate(state: PlaybackState, buffered: nat) -> Gate {
    if !state.playing && buffered >= samples_in_ms(START_THRESHOLD_MS as int) {
        Gate::Started
    } else if state.playing && buffered < samples_in_ms(PAUSE_THRESHOLD_MS as int) {
        Gate::Paused
    } else {
        Gate::Unchanged
    }
}

/// The player once a block of output has begun.
pub open spec fn gated(state: PlaybackState, buffered: nat) -> PlaybackState {
    let counted = PlaybackState { callbacks: state.callbacks.wrapping_add(1), ..state };
    match gate(state, buffered) {
        Gate::Started => PlaybackState { playing: true, last_idx: (-1) as i64, ..counted },
        Gate::Paused => PlaybackState {
            playing: false,
            underruns: state.underruns.wrapping_add(1),
            ..counted
        },
        Gate::Unchanged => counted,
    }
}

/// How many samples a player takes to reach a position.
pub open spec fn pops(state: PlaybackState, idx: i64) -> int {
    if state.last_idx < idx {
        idx - state.last_idx
    } else {
        0
    }
}

/// What is left of a queue once so many samples were taken from its front.
pub open spec fn drained(queue: Seq<i16>, count: int) -> Seq<i16> {
    if count <= queue.len() {
        queue.skip(count)
    } else {
        Seq::empty()
    }
}

/// The sample at an index of a queue, silence behind its end.
pub open spec fn sample_or_silence(queue: Seq<i16>, index: int) -> i16 {
    if 0 <= index < queue.len() {
        queue[index]
    } else {
        0
    }
}

/// A player brought to a position: it takes the samples up to there and keeps the last.
pub open spec fn advanced(state: PlaybackState, queue: Seq<i16>, idx: i64) -> PlaybackState {
    let count = pops(state, idx);
    if count == 0 {
        state
    } else {
        PlaybackState { last_idx: idx, current_sample: sample_or_silence(queue, count - 1), ..state }
    }
}

/// The player, the queue and the output after frames at the given positions.
pub open spec fn played(state: PlaybackState, queue: Seq<i16>, positions: Seq<i64>) -> (
    PlaybackState,
    Seq<i16>,
    Seq<i16>,
)
    decreases positions.len(),
{
    if positions.len() == 0 {
        (state, queue, Seq::empty())
    } else {
        let (s, q, out) = played(state, queue, positions.drop_last());
        let next = advanced(s, q, positions.last());
        (next, drained(q, pops(s, positions.last())), out.push(next.current_sample))
    }
}

/// The player, the queue and the output after a block with frames at the given positions: a
/// player that does not play is silent and takes nothing.
pub open spec fn block_played(state: PlaybackState, queue: Seq<i16>, positions: Seq<i64>) -> (
    PlaybackState,
    Seq<i16>,
    Seq<i16>,
) {
    if state.playing {
        played(state, queue, positions)
    } else {
        (state, queue, Seq::new(positions.len(), |i: int| 0i16))
    }
}

impl PlaybackState {
    /// A player that has not started.
    pub fn new() -> (r: PlaybackState)
        ensures
            r == (PlaybackState {
                playing: false,
                last_idx: (-1) as i64,
                current_sample: 0,
                callbacks: 0,
                underruns: 0,
            }),
    {
        PlaybackState { playing: false, last_idx: -1, current_sample: 0, callbacks: 0, underruns: 0 }
    }

    /// Begins a block of output: a silent player starts once enough audio is buffered, and a
    /// running one pauses when it runs low.
    pub fn begin_block(&mut self, ring: &SampleRing) -> (r: Gate)
        ensures
            r == gate(*old(self), ring@.len()),
            *final(self) == gated(*old(self), ring@.len()),
    {
        let start: usize = (TARGET_SAMPLE_RATE as usize) * START_THRESHOLD_MS / 1000;
        let pause: usize = (TARGET_SAMPLE_RATE as usize) * PAUSE_THRESHOLD_MS / 1000;
        let buffered: usize = ring_len(ring);
        self.callbacks = self.callbacks.wrapping_add(1);
        if !self.playing && buffered >= start {
            self.playing = true;
            self.last_idx = -1;
            Gate::Started
        } else if self.playing && buffered < pause {
            self.playing = false;
            self.underruns = self.underruns.wrapping_add(1);
            Gate::Paused
        } else {
            Gate::Unchanged
        }
    }

    /// Takes samples up to a position and returns the one that plays there; silence stands in
    /// for samples that have not arrived.
    pub fn sample_at(&mut self, idx: i64, ring: &mut SampleRing) -> (r: i16)
        ensures
            *final(self) == advanced(*old(self), old(ring)@, idx),
            final(ring)@ == drained(old(ring)@, pops(*old(self), idx)),
            final(ring).capacity() == old(ring).capacity(),
            r == final(self).current_sample,
    {
        let ghost before = *self;
        let ghost queue = ring@;
        assert(drained(queue, 0) =~= queue);
        while self.last_idx < idx
            invariant
                before.last_idx <= self.last_idx,
                before.last_idx < self.last_idx ==> self.last_idx <= idx,
                *self == advanced(before, queue, self.last_idx),
                ring@ == drained(queue, self.last_idx - before.last_idx),
                ring.capacity() == old(ring).capacity(),
            decreases idx - self.last_idx,
        {
            let ghost taken = self.last_idx - before.last_idx;
            let popped: Option<i16> = ring_pop(ring);
            self.current_sample = match popped {
                Some(sample) => sample,
                None => 0,
            };
            self.last_idx = self.last_idx + 1;
            assert(ring@ =~= drained(queue, taken + 1));
        }
        self.current_sample
    }

    /// Plays one block: a sample for each frame, given by its position in the audio. A player
    /// that does not play gives silence and takes nothing.
    pub fn play_block(&mut self, positions: &[i64], ring: &mut SampleRing) -> (r: Vec<i16>)
        ensures
            old(self).playing ==> (*final(self), final(ring)@, r@) == played(
                *old(self),
                old(ring)@,
                positions@,
            ),
            !old(self).playing ==> {
                &&& *final(self) == *old(self)
                &&& final(ring)@ == old(ring)@
                &&& r@ == Seq::new(positions@.len(), |i: int| 0i16)
            },
            (*final(self), final(ring)@, r@) == block_played(*old(self), old(ring)@, positions@),
            final(ring).capacity() == old(ring).capacity(),
    {
        let mut out: Vec<i16> = Vec::new();
        let mut i: usize = 0;
        if !self.playing {
            while i < positions.len()
                invariant
                    i <= positions@.len(),
                    out@ == Seq::new(i as nat, |k: int| 0i16),
                decreases positions@.len() - i,
            {
                out.push(0);
                i = i + 1;
                assert(out@ =~= Seq::new(i as nat, |k: int| 0i16));
            }
            return out;
        }
        while i < positions.len()
            invariant
                i <= positions@.len(),
                (*self, ring@, out@) == played(*old(self), old(ring)@, positions@.take(i as int)),
                ring.capacity() == old(ring).capacity(),
            decreases positions@.len() - i,
        {
            let sample: i16 = self.sample_at(positions[i], ring);
            out.push(sample);
            i = i + 1;
            assert(positions@.take(i as int).drop_last() =~= positions@.take(i - 1));
        }
        assert(positions@.take(i as int) =~= positions@);
        out
    }
}

/// For how many output frames each sample is held at an output rate.
pub open spec fn hold_factor(out_rate: u32) -> int {
    if out_rate / TARGET_SAMPLE_RATE == 0 {
        1
    } else {
        (out_rate / TARGET_SAMPLE_RATE) as int
    }
}

/// The state of playback by zero-order hold, kept from one block of output to the next.
#[derive(Clone, Copy, Debug, PartialEq, Eq, Structural)]
pub struct HoldState {
    /// For how many more frames the sample plays.
    pub left: usize,
    /// The sample that plays.
    pub current: i16,
}

/// One frame of output: the sample that plays goes on for the frames that it has left, and the
/// next one is then taken for `factor` frames, silence standing in where there is none.
pub open spec fn held_frame(state: HoldState, queue: Seq<i16>, factor: int) -> (
    HoldState,
    Seq<i16>,
) {
    if state.left == 0 {
        (
            HoldState { left: (factor - 1) as usize, current: sample_or_silence(queue, 0) },
            drained(queue, 1),
        )
    } else {
        (HoldState { left: (state.left - 1) as usize, ..state }, queue)
    }
}

/// The state, the queue and the output after so many frames.
pub open spec fn held(state: HoldState, queue: Seq<i16>, factor: int, frames: nat) -> (
    HoldState,
    Seq<i16>,
    Seq<i16>,
)
    decreases frames,
{
    if frames == 0 {
        (state, queue, Seq::empty())
    } else {
        let (s, q, out) = held(state, queue, factor, (frames - 1) as nat);
        let (next, rest) = held_frame(s, q, factor);
        (next, rest, out.push(next.current))
    }
}

impl HoldState {
    /// Nothing has played.
    pub fn new() -> (r: HoldState)
        ensures
            r == (HoldState { left: 0, current: 0 }),
    {
        HoldState { left: 0, current: 0 }
    }

    /// Plays one block without buffering ahead: each sample is held for as many frames as the
    /// output rate is a multiple of the audio's, across the ends of blocks, silence standing in
    /// where the queue is empty.
    pub fn hold_block(&mut self, frames: usize, out_rate: u32, ring: &mut SampleRing) -> (r: Vec<
        i16,
    >)
        ensures
            (*final(self), final(ring)@, r@) == held(
                *old(self),
                old(ring)@,
                hold_factor(out_rate),
                frames as nat,
            ),
            final(ring).capacity() == old(ring).capacity(),
    {
        let ratio: u32 = out_rate / TARGET_SAMPLE_RATE;
        let factor: usize = if ratio == 0 {
            1
        } else {
            ratio as usize
        };
        let mut out: Vec<i16> = Vec::new();
        while out.len() < frames
            invariant
                factor == hold_factor(out_rate),
                factor >= 1,
                out@.len() <= frames,
                (*self, ring@, out@) == held(
                    *old(self),
                    old(ring)@,
                    hold_factor(out_rate),
                    out@.len(),
                ),
                ring.capacity() == old(ring).capacity(),
            decreases frames - out@.len(),
        {
            let ghost queue = ring@;
            if self.left == 0 {
                self.current = match ring_pop(ring) {
                    Some(sample) => sample,
                    None => 0,
                };
                self.left = factor - 1;
                assert(ring@ =~= drained(queue, 1));
            } else {
                self.left = self.left - 1;
            }
            out.push(self.current);
        }
        out
    }
}

/// Between the two thresholds a player keeps doing what it does; it starts only at the upper
/// one and pauses only below the lower one.
pub proof fn law_gate_has_hysteresis(state: PlaybackState, buffered: nat)
    ensures
        samples_in_ms(PAUSE_THRESHOLD_MS as int) <= buffered < samples_in_ms(
            START_THRESHOLD_MS as int,
        ) ==> gated(state, buffered).playing == state.playing,
        state.playing ==> (gated(state, buffered).playing <==> buffered >= samples_in_ms(
            PAUSE_THRESHOLD_MS as int,
        )),
        !state.playing ==> (gated(state, buffered).playing <==> buffered >= samples_in_ms(
            START_THRESHOLD_MS as int,
        )),
{
}

/// A player once blocks of output have begun at the given levels of buffered audio.
pub open spec fn gated_all(state: PlaybackState, levels: Seq<nat>) -> PlaybackState
    decreases levels.len(),
{
    if levels.len() == 0 {
        state
    } else {
        gated(gated_all(state, levels.drop_last()), levels.last())
    }
}

/// Once started, a player goes on block after block as long as the buffer never runs low; once
/// paused, it stays silent block after block until the buffer has filled again.
pub proof fn law_player_goes_on(state: PlaybackState, levels: Seq<nat>)
    ensures
        state.playing && (forall|i: int|
            0 <= i < levels.len() ==> #[trigger] levels[i] >= samples_in_ms(
                PAUSE_THRESHOLD_MS as int,
            )) ==> gated_all(state, levels).playing && gated_all(state, levels).underruns
            == state.underruns && gated_all(state, levels).last_idx == state.last_idx,
        !state.playing && (forall|i: int|
            0 <= i < levels.len() ==> #[trigger] levels[i] < samples_in_ms(
                START_THRESHOLD_MS as int,
            )) ==> !gated_all(state, levels).playing && gated_all(state, levels).underruns
            == state.underruns,
    decreases levels.len(),
{
    if levels.len() > 0 {
        let init = levels.drop_last();
        law_player_goes_on(state, init);
        assert(forall|i: int| 0 <= i < init.len() ==> #[trigger] init[i] == levels[i]);
        assert(levels.last() == levels[levels.len() - 1]);
    }
}

/// Where a player stands and what it has taken, once it played up to positions in order.
proof fn lemma_played_in_order(state: PlaybackState, queue: Seq<i16>, positions: Seq<i64>)
    requires
        positions.len() > 0,
        forall|i: int, j: int| 0 <= i <= j < positions.len() ==> positions[i] <= positions[j],
    ensures
        ({
            let (s, q, out) = played(state, queue, positions);
            &&& s == advanced(state, queue, positions.last())
            &&& q == drained(queue, pops(state, positions.last()))
            &&& out.len() == positions.len()
        }),
    decreases positions.len(),
{
    let init = positions.drop_last();
    if init.len() > 0 {
        lemma_played_in_order(state, queue, init);
        assert(init.last() == positions[positions.len() - 2]);
        let taken = pops(state, init.last());
        let more = pops(advanced(state, queue, init.last()), positions.last());
        assert(taken + more == pops(state, positions.last()));
        assert(drained(drained(queue, taken), more) =~= drained(queue, taken + more));
        assert(more > 0 ==> sample_or_silence(drained(queue, taken), more - 1)
            == sample_or_silence(queue, taken + more - 1));
    } else {
        reveal_with_fuel(played, 2);
    }
}

/// Positions in order play the samples that they number: a frame at a position plays the sample
/// that is so many further than the one that played before, holds it while the position stays,
/// and is silent where that sample has not arrived.
pub proof fn law_frames_play_their_positions(
    state: PlaybackState,
    queue: Seq<i16>,
    positions: Seq<i64>,
)
    requires
        forall|i: int, j: int| 0 <= i <= j < positions.len() ==> positions[i] <= positions[j],
    ensures
        played(state, queue, positions).2 == Seq::new(
            positions.len(),
            |j: int|
                if positions[j] <= state.last_idx {
                    state.current_sample
                } else if positions[j] - state.last_idx <= queue.len() {
                    queue[positions[j] - state.last_idx - 1]
                } else {
                    0
                },
        ),
    decreases positions.len(),
{
    let expected = Seq::new(
        positions.len(),
        |j: int|
            if positions[j] <= state.last_idx {
                state.current_sample
            } else if positions[j] - state.last_idx <= queue.len() {
                queue[positions[j] - state.last_idx - 1]
            } else {
                0
            },
    );
    if positions.len() > 0 {
        law_frames_play_their_positions(state, queue, positions.drop_last());
        lemma_played_in_order(state, queue, positions);
    }
    assert(played(state, queue, positions).2 =~= expected);
}

/// Playing two blocks one after the other is playing their frames as one block.
pub proof fn law_blocks_join(
    state: PlaybackState,
    queue: Seq<i16>,
    first: Seq<i64>,
    second: Seq<i64>,
)
    ensures
        ({
            let (s1, q1, out1) = played(state, queue, first);
            let (s2, q2, out2) = played(s1, q1, second);
            played(state, queue, first + second) == (s2, q2, out1 + out2)
        }),
    decreases second.len(),
{
    let (s1, q1, out1) = played(state, queue, first);
    if second.len() == 0 {
        assert(first + second =~= first);
        assert(out1 + played(s1, q1, second).2 =~= out1);
    } else {
        law_blocks_join(state, queue, first, second.drop_last());
        assert((first + second).drop_last() =~= first + second.drop_last());
        let out = played(s1, q1, second.drop_last()).2;
        let next = played(s1, q1, second).0.current_sample;
        assert((out1 + out).push(next) =~= out1 + out.push(next));
    }
}

/// Audio that arrives later does not change what already plays: as long as the positions stay
/// within the queue, what is appended to it is only appended to what is left.
pub proof fn law_later_audio_waits(
    state: PlaybackState,
    queue: Seq<i16>,
    later: Seq<i16>,
    positions: Seq<i64>,
)
    requires
        forall|i: int, j: int| 0 <= i <= j < positions.len() ==> positions[i] <= positions[j],
        positions.len() > 0 ==> pops(state, positions.last()) <= queue.len(),
    ensures
        ({
            let (s, q, out) = played(state, queue, positions);
            played(state, queue + later, positions) == (s, q + later, out)
        }),
    decreases positions.len(),
{
    if positions.len() > 0 {
        let init = positions.drop_last();
        law_later_audio_waits(state, queue, later, init);
        let (s, q, out) = played(state, queue, init);
        if init.len() > 0 {
            lemma_played_in_order(state, queue, init);
        }
        let count = pops(s, positions.last());
        assert(count <= q.len());
        assert(drained(q + later, count) =~= drained(q, count) + later);
    }
}

/// A player that has just started and advances one position per frame plays the queue as it
/// stands.
pub proof fn law_unit_rate_plays_the_queue(state: PlaybackState, queue: Seq<i16>, frames: nat)
    requires
        state.last_idx == -1,
        frames <= queue.len() <= i64::MAX,
    ensures
        played(state, queue, Seq::new(frames, |j: int| j as i64)).2 == queue.take(frames as int),
{
    let positions = Seq::new(frames, |j: int| j as i64);
    law_frames_play_their_positions(state, queue, positions);
    assert(played(state, queue, positions).2 =~= queue.take(frames as int));
}

/// Playing two blocks one after the other is playing their frames as one block: no hold breaks
/// off at the end of a block.
pub proof fn law_held_blocks_join(state: HoldState, queue: Seq<i16>, factor: int, a: nat, b: nat)
    ensures
        ({
            let (s1, q1, out1) = held(state, queue, factor, a);
            let (s2, q2, out2) = held(s1, q1, factor, b);
            held(state, queue, factor, a + b) == (s2, q2, out1 + out2)
        }),
    decreases b,
{
    let (s1, q1, out1) = held(state, queue, factor, a);
    if b == 0 {
        assert(out1 + held(s1, q1, factor, b).2 =~= out1);
    } else {
        law_held_blocks_join(state, queue, factor, a, (b - 1) as nat);
        let out = held(s1, q1, factor, (b - 1) as nat).2;
        let next = held(s1, q1, factor, b).0.current;
        assert((out1 + out).push(next) =~= out1 + out.push(next));
    }
}

/// How many samples frames of output take when each is held for `factor` frames.
pub open spec fn samples_for(frames: int, factor: int) -> int {
    (frames + factor - 1) / factor
}

/// Where no sample has frames left, each sample of the queue plays for `factor` frames, in order
/// and from the first on, and no more samples are taken than the frames need.
pub proof fn law_each_sample_is_held(state: HoldState, queue: Seq<i16>, factor: int, frames: nat)
    requires
        state.left == 0,
        1 <= factor <= usize::MAX,
    ensures
        held(state, queue, factor, frames).2 == Seq::new(
            frames,
            |k: int| sample_or_silence(queue, k / factor),
        ),
        held(state, queue, factor, frames).1 == drained(queue, samples_for(frames as int, factor)),
        held(state, queue, factor, frames).0.left == samples_for(frames as int, factor) * factor
            - frames,
        frames > 0 ==> held(state, queue, factor, frames).0.current == sample_or_silence(
            queue,
            samples_for(frames as int, factor) - 1,
        ),
    decreases frames,
{
    let expected = Seq::new(frames, |k: int| sample_or_silence(queue, k / factor));
    if frames == 0 {
        vstd::arithmetic::div_mod::lemma_fundamental_div_mod_converse(
            factor - 1,
            factor,
            0,
            factor - 1,
        );
        assert(drained(queue, 0) =~= queue);
    } else {
        let done = frames - 1;
        let taken = samples_for(done, factor);
        law_each_sample_is_held(state, queue, factor, done as nat);
        let (s, q, out) = held(state, queue, factor, done as nat);
        assert((taken + 1) * factor == taken * factor + factor) by (nonlinear_arith);
        assert((taken - 1) * factor == taken * factor - factor) by (nonlinear_arith);
        vstd::arithmetic::div_mod::lemma_fundamental_div_mod(done + factor - 1, factor);
        assert(factor * taken == taken * factor) by (nonlinear_arith);
        assert(taken >= 0) by {
            vstd::arithmetic::div_mod::lemma_div_pos_is_pos(done + factor - 1, factor);
        }
        if s.left == 0 {
            vstd::arithmetic::div_mod::lemma_fundamental_div_mod_converse(
                frames + factor - 1,
                factor,
                taken + 1,
                0,
            );
            vstd::arithmetic::div_mod::lemma_fundamental_div_mod_converse(done, factor, taken, 0);
            assert(drained(drained(queue, taken), 1) =~= drained(queue, taken + 1));
        } else {
            vstd::arithmetic::div_mod::lemma_fundamental_div_mod_converse(
                frames + factor - 1,
                factor,
                taken,
                factor - s.left,
            );
            vstd::arithmetic::div_mod::lemma_fundamental_div_mod_converse(
                done,
                factor,
                taken - 1,
                factor - s.left,
            );
        }
    }
    assert(held(state, queue, factor, frames).2 =~= expected);
}

/// A queue of five seconds takes 120000 samples.
pub proof fn law_five_seconds_wait_at_most()
    ensures
        samples_in_ms(1000 * BUFFER_SECONDS) == 5 * 24000,
{
}

/// A silent player starts at 250 ms of audio, which are 6000 samples, and a playing one pauses
/// below 60 ms, which are 1440; nothing else starts or pauses it. A start puts its position back
/// before the first sample. Every block is counted, every pause is counted as an underrun, and
/// the sample that played last is kept.
pub proof fn law_blocks_begin_by_the_thresholds(state: PlaybackState, buffered: nat)
    ensures
        ({
            let next = gated(state, buffered);
            let starts = !state.playing && buffered >= 6000;
            let pauses = state.playing && buffered < 1440;
            &&& gate(state, buffered) == Gate::Started <==> starts
            &&& gate(state, buffered) == Gate::Paused <==> pauses
            &&& next.playing <==> starts || (state.playing && buffered >= 1440)
            &&& starts ==> next.last_idx == -1
            &&& !starts ==> next.last_idx == state.last_idx
            &&& next.current_sample == state.current_sample
            &&& state.callbacks < u64::MAX ==> next.callbacks == state.callbacks + 1
            &&& state.callbacks == u64::MAX ==> next.callbacks == 0
            &&& !pauses ==> next.underruns == state.underruns
            &&& pauses && state.underruns < u64::MAX ==> next.underruns == state.underruns + 1
            &&& pauses && state.underruns == u64::MAX ==> next.underruns == 0
        }),
{
}

/// A frame at a position that is not ahead of the player plays the same sample on and takes
/// nothing. One further ahead takes as many samples as it is ahead and plays the last of them;
/// where they have not all arrived it takes what there is and plays silence. Nothing else about
/// the player changes, and no frame changes nothing at all.
pub proof fn law_one_frame_takes_up_to_its_position(
    state: PlaybackState,
    queue: Seq<i16>,
    idx: i64,
)
    ensures
        played(state, queue, Seq::empty()) == (state, queue, Seq::<i16>::empty()),
        ({
            let (s, q, out) = played(state, queue, seq![idx]);
            let ahead = idx - state.last_idx;
            &&& out == seq![s.current_sample]
            &&& s.playing == state.playing
            &&& s.callbacks == state.callbacks
            &&& s.underruns == state.underruns
            &&& ahead <= 0 ==> s == state && q == queue
            &&& ahead > 0 ==> s.last_idx == idx
            &&& 0 < ahead <= queue.len() ==> s.current_sample == queue[ahead - 1] && q
                == queue.skip(ahead)
            &&& ahead > queue.len() && ahead > 0 ==> s.current_sample == 0 && q.len() == 0
        }),
{
    reveal_with_fuel(played, 2);
    assert(seq![idx].drop_last() =~= Seq::empty());
    assert(seq![idx].last() == idx);
    assert(drained(queue, 0) =~= queue);
    let (s, q, out) = played(state, queue, seq![idx]);
    assert(out =~= seq![s.current_sample]);
}

/// The positions of so many frames that advance by one, from zero on.
pub open spec fn from_zero(frames: nat) -> Seq<i64> {
    Seq::new(frames, |j: int| j as i64)
}

/// Whatever a player did before, the block that starts it plays the queue from its first sample
/// on: frames at positions zero, one, two take and play the first, second and third sample.
pub proof fn law_start_plays_from_the_front(state: PlaybackState, queue: Seq<i16>, frames: nat)
    requires
        !state.playing,
        6000 <= queue.len() <= i64::MAX,
        frames <= queue.len(),
    ensures
        gate(state, queue.len()) == Gate::Started,
        ({
            let started = gated(state, queue.len());
            let (s, q, out) = played(started, queue, from_zero(frames));
            &&& started.playing && started.last_idx == -1
            &&& out == queue.take(frames as int)
            &&& q == queue.skip(frames as int)
            &&& s.playing && s.last_idx == frames - 1
        }),
{
    let started = gated(state, queue.len());
    law_blocks_begin_by_the_thresholds(state, queue.len());
    law_unit_rate_plays_the_queue(started, queue, frames);
    assert(queue.skip(0) =~= queue);
    if frames > 0 {
        lemma_played_in_order(started, queue, from_zero(frames));
        assert(from_zero(frames).last() == frames - 1);
    }
}

/// Start, play, run low, pause, fill up, start again: playback goes on with the eldest sample
/// that waits, so that none is lost, repeated or skipped by the pause.
pub proof fn law_restart_goes_on_where_it_paused(
    state: PlaybackState,
    queue: Seq<i16>,
    first: nat,
    refill: Seq<i16>,
    second: nat,
)
    requires
        !state.playing,
        6000 <= queue.len(),
        first <= queue.len(),
        queue.len() - first < 1440,
        6000 <= queue.len() - first + refill.len(),
        second <= queue.len() - first + refill.len(),
        queue.len() + refill.len() <= i64::MAX,
    ensures
        ({
            let (s1, q1, out1) = played(
                gated(state, queue.len()),
                queue,
                from_zero(first),
            );
            let paused = gated(s1, q1.len());
            let waiting = q1 + refill;
            let (s2, q2, out2) = played(
                gated(paused, waiting.len()),
                waiting,
                from_zero(second),
            );
            &&& gate(state, queue.len()) == Gate::Started
            &&& gate(s1, q1.len()) == Gate::Paused && !paused.playing
            &&& gate(paused, waiting.len()) == Gate::Started
            &&& out1 + out2 + q2 == queue + refill
            &&& out1.len() == first && out2.len() == second
            &&& s2.playing && s2.last_idx == second - 1
        }),
{
    law_start_plays_from_the_front(state, queue, first);
    let (s1, q1, out1) = played(gated(state, queue.len()), queue, from_zero(first));
    let paused = gated(s1, q1.len());
    law_blocks_begin_by_the_thresholds(s1, q1.len());
    let waiting = q1 + refill;
    law_start_plays_from_the_front(paused, waiting, second);
    let (s2, q2, out2) = played(gated(paused, waiting.len()), waiting, from_zero(second));
    assert(out2 + q2 =~= waiting);
    assert(out1 + out2 + q2 =~= out1 + (out2 + q2));
    assert(out1 + waiting =~= queue + refill);
}

/// An interleaved buffer of so many samples has just enough frames for them.
pub proof fn law_frames_hold_all_samples(samples: int, channels: u16)
    requires
        samples >= 0,
    ensures
        ({
            let frames = frames_in(samples, channels);
            let width: int = if channels == 0 { 1 } else { channels as int };
            (frames - 1) * width < samples <= frames * width
        }),
{
    let width: int = if channels == 0 {
        1
    } else {
        channels as int
    };
    let frames = frames_in(samples, channels);
    vstd::arithmetic::div_mod::lemma_fundamental_div_mod(samples + width - 1, width);
    vstd::arithmetic::div_mod::lemma_mod_bound(samples + width - 1, width);
    assert(width * frames == frames * width) by (nonlinear_arith);
    assert((frames - 1) * width == frames * width - width) by (nonlinear_arith);
}

/// A sample is held for as many whole times as 24000 goes into the output rate, and for one frame
/// at least.
pub proof fn law_hold_is_the_rate_over_24000(out_rate: u32)
    ensures
        out_rate < 24000 ==> hold_factor(out_rate) == 1,
        out_rate >= 24000 ==> 24000 * hold_factor(out_rate) <= out_rate < 24000 * (hold_factor(
            out_rate,
        ) + 1),
{
}

/// What frames play while the sample of an earlier block has frames left.
proof fn lemma_hold_goes_on(state: HoldState, queue: Seq<i16>, factor: int, frames: nat)
    requires
        frames <= state.left,
    ensures
        held(state, queue, factor, frames) == (
            HoldState { left: (state.left - frames) as usize, ..state },
            queue,
            Seq::new(frames, |k: int| state.current),
        ),
    decreases frames,
{
    if frames > 0 {
        lemma_hold_goes_on(state, queue, factor, (frames - 1) as nat);
    }
    assert(held(state, queue, factor, frames).2 =~= Seq::new(frames, |k: int| state.current));
}

/// Whatever an earlier block left, its sample plays for the frames that it has left, and each
/// sample of the queue then plays for its full number of frames, silence standing in behind the
/// last. As many samples are taken as have begun to play.
pub proof fn law_hold_in_any_state(state: HoldState, queue: Seq<i16>, factor: int, frames: nat)
    requires
        1 <= factor <= usize::MAX,
    ensures
        ({
            let (s, q, out) = held(state, queue, factor, frames);
            let taken = (frames - state.left + factor - 1) / factor;
            &&& out.len() == frames
            &&& forall|k: int|
                0 <= k < frames && k < state.left ==> #[trigger] out[k] == state.current
            &&& forall|k: int|
                state.left <= k < frames ==> #[trigger] out[k] == if (k - state.left) / factor
                    < queue.len() {
                    queue[(k - state.left) / factor]
                } else {
                    0
                }
            &&& frames <= state.left ==> q == queue && s.left == state.left - frames && s.current
                == state.current
            &&& frames > 0 ==> s.current == out[frames - 1]
            &&& frames > state.left ==> s.left == taken * factor - (frames - state.left)
            &&& frames > state.left && taken <= queue.len() ==> q == queue.skip(taken)
            &&& frames > state.left && taken > queue.len() ==> q.len() == 0
        }),
{
    if frames <= state.left {
        lemma_hold_goes_on(state, queue, factor, frames);
    } else {
        let rest = (frames - state.left) as nat;
        lemma_hold_goes_on(state, queue, factor, state.left as nat);
        let (s1, q1, out1) = held(state, queue, factor, state.left as nat);
        law_held_blocks_join(state, queue, factor, state.left as nat, rest);
        law_each_sample_is_held(s1, q1, factor, rest);
        let out = held(state, queue, factor, frames).2;
        assert forall|k: int| state.left <= k < frames implies #[trigger] out[k] == if (k
            - state.left) / factor < queue.len() {
            queue[(k - state.left) / factor]
        } else {
            0
        } by {
            vstd::arithmetic::div_mod::lemma_div_pos_is_pos(k - state.left, factor);
        }
    }
}

/// A player that does not play gives one silent sample for each frame and leaves itself and the
/// queue as they are; one that plays plays every frame.
pub proof fn law_silent_players_take_nothing(
    state: PlaybackState,
    queue: Seq<i16>,
    positions: Seq<i64>,
)
    ensures
        !state.playing ==> {
            let (s, q, out) = block_played(state, queue, positions);
            &&& s == state
            &&& q == queue
            &&& out.len() == positions.len()
            &&& forall|i: int| 0 <= i < out.len() ==> #[trigger] out[i] == 0
        },
        state.playing ==> block_played(state, queue, positions) == played(state, queue, positions),
        block_played(state, queue, positions).2.len() == positions.len(),
{
    lemma_one_sample_per_frame(state, queue, positions);
}

/// Every frame plays one sample.
proof fn lemma_one_sample_per_frame(state: PlaybackState, queue: Seq<i16>, positions: Seq<i64>)
    ensures
        played(state, queue, positions).2.len() == positions.len(),
    decreases positions.len(),
{
    if positions.len() > 0 {
        lemma_one_sample_per_frame(state, queue, positions.drop_last());
    }
}

} // verus!
