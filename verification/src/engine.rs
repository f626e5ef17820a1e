//! The voice pool and the render entry points.
//!
//! The pool holds a fixed set of sixteen voices; nothing is ever allocated
//! or freed while rendering. A note-on takes the first silent voice, or —
//! when none is silent — steals the voice whose envelope entered its current
//! stage most recently, first in pool order on a tie. A note-off releases
//! every voice playing that note. A choke silences everything at once.
//! Events queued for a block are applied in arrival order before any sample
//! of the block is rendered.

use vstd::prelude::*;
use crate::envelope::Envelope;
use crate::envelope::EnvelopeStage;
use crate::filter::OUT_HEADROOM_Q24;
use crate::fixed::Q_ONE;
use crate::fixed::abs_val;
use crate::fixed::clamp64;
use crate::fixed::mul_div;
use crate::fixed::spec_clamp;
use crate::fixed::spec_tanh;
use crate::fixed::tanh_q;
use crate::fixed::tdiv;
use crate::params::SineParams;
use crate::params::spec_clamp_params;
use crate::voice::Voice;
use crate::voice::spec_note_on_applied;
use crate::voice::spec_voice_out;
use crate::voice::spec_voice_ticked;

verus! {

/// How many voices the pool holds.
pub const POOL_SIZE: usize = 16;

/// One entry of the per-block event queue.
#[derive(Clone, Copy, PartialEq, Eq, Structural, Debug)]
pub enum NoteEvent {
    /// A key goes down; the velocity is a Q24 fraction, zero is ignored.
    NoteOn { note: u8, velocity: i64 },
    /// A key comes up.
    NoteOff { note: u8 },
    /// Silence everything at once, bypassing every release.
    Choke,
}

/// The first silent voice at or after `i`, or minus one.
pub open spec fn spec_find_inactive(vs: Seq<Voice>, i: int) -> int
    recommends
        0 <= i,
    decreases vs.len() - i,
{
    if i >= vs.len() {
        -1
    } else if !vs[i].active {
        i
    } else {
        spec_find_inactive(vs, i + 1)
    }
}

/// The steal scan from position `i` with `best` the winner so far: a voice
/// replaces the winner only by a strictly smaller stage clock, so the first
/// of equals wins.
pub open spec fn spec_steal_from(vs: Seq<Voice>, i: int, best: int) -> int
    recommends
        0 <= best < vs.len(),
        0 <= i,
    decreases vs.len() - i,
{
    if i >= vs.len() {
        best
    } else if vs[i].envelope.samples_elapsed < vs[best].envelope.samples_elapsed {
        spec_steal_from(vs, i + 1, i)
    } else {
        spec_steal_from(vs, i + 1, best)
    }
}

/// The voice a full pool gives up: the one whose envelope entered its
/// current stage most recently.
pub open spec fn spec_steal_index(vs: Seq<Voice>) -> int {
    spec_steal_from(vs, 1, 0)
}

/// The voice a note-on lands on: the first silent one, else the steal
/// choice.
pub open spec fn spec_alloc_target(vs: Seq<Voice>) -> int {
    let f = spec_find_inactive(vs, 0);
    if f >= 0 {
        f
    } else {
        spec_steal_index(vs)
    }
}

/// The free-voice scan finds exactly the first silent voice: when it
/// reports one, everything before it sounds; when it reports none, the
/// whole pool sounds.
pub proof fn lemma_find_inactive_is_first(vs: Seq<Voice>, i: int)
    requires
        0 <= i <= vs.len(),
    ensures
        ({
            let f = spec_find_inactive(vs, i);
            &&& (f == -1 ==> forall|j: int| i <= j < vs.len() ==> (#[trigger] vs[j]).active)
            &&& (f >= 0 ==> i <= f < vs.len() && !vs[f].active && forall|j: int|
                i <= j < f ==> (#[trigger] vs[j]).active)
        }),
    decreases vs.len() - i,
{
    if i < vs.len() && vs[i].active {
        lemma_find_inactive_is_first(vs, i + 1);
    }
}

/// The steal scan returns the position of the least stage clock, keeping
/// the earliest winner past the scan point.
proof fn lemma_steal_from_min(vs: Seq<Voice>, i: int, best: int)
    requires
        0 <= best < vs.len(),
        best < i <= vs.len(),
        forall|j: int|
            0 <= j < i ==> (#[trigger] vs[j].envelope.samples_elapsed)
                >= vs[best].envelope.samples_elapsed,
        forall|j: int|
            0 <= j < best ==> (#[trigger] vs[j].envelope.samples_elapsed)
                > vs[best].envelope.samples_elapsed,
    ensures
        ({
            let r = spec_steal_from(vs, i, best);
            &&& 0 <= r < vs.len()
            &&& forall|j: int|
                0 <= j < vs.len() ==> (#[trigger] vs[j].envelope.samples_elapsed)
                    >= vs[r].envelope.samples_elapsed
            &&& forall|j: int|
                0 <= j < r ==> (#[trigger] vs[j].envelope.samples_elapsed)
                    > vs[r].envelope.samples_elapsed
        }),
    decreases vs.len() - i,
{
    if i < vs.len() {
        if vs[i].envelope.samples_elapsed < vs[best].envelope.samples_elapsed {
            lemma_steal_from_min(vs, i + 1, i);
        } else {
            lemma_steal_from_min(vs, i + 1, best);
        }
    }
}

/// The stealing comparator always yields exactly one winner: the stolen
/// voice has the smallest stage clock of the pool, and every voice before
/// it in pool order has a strictly larger one — a tie breaks toward the
/// first.
pub proof fn lemma_steal_choice(vs: Seq<Voice>)
    requires
        vs.len() >= 1,
    ensures
        ({
            let r = spec_steal_index(vs);
            &&& 0 <= r < vs.len()
            &&& forall|j: int|
                0 <= j < vs.len() ==> (#[trigger] vs[j].envelope.samples_elapsed)
                    >= vs[r].envelope.samples_elapsed
            &&& forall|j: int|
                0 <= j < r ==> (#[trigger] vs[j].envelope.samples_elapsed)
                    > vs[r].envelope.samples_elapsed
        }),
{
    if vs.len() == 1 {
        assert(spec_steal_from(vs, 1, 0) == 0);
    } else {
        lemma_steal_from_min(vs, 1, 0);
    }
}

/// What a transport-stop reset leaves of one voice: hard-muted, identity
/// and spread kept, phases rewound, filter history cleared.
pub open spec fn spec_voice_rested(o: Voice, v: Voice) -> bool {
    &&& v.active == false
    &&& v.note == o.note
    &&& v.velocity == o.velocity
    &&& v.base_frequency == o.base_frequency
    &&& crate::voice::spec_bank_rewound(o.osc1, v.osc1)
    &&& crate::voice::spec_bank_rewound(o.osc2, v.osc2)
    &&& crate::voice::spec_bank_rewound(o.osc3, v.osc3)
    &&& v.filter == (crate::filter::BiquadFilter { x1: 0, x2: 0, y1: 0, y2: 0, ..o.filter })
    &&& v.envelope == (Envelope {
        stage: EnvelopeStage::Idle,
        current_level: 0,
        samples_elapsed: 0,
        ..o.envelope
    })
}

/// What one event does to the pool.
pub open spec fn spec_event_applied(before: Seq<Voice>, e: NoteEvent, after: Seq<Voice>) -> bool {
    match e {
        NoteEvent::NoteOn { note, velocity } => {
            let vel = spec_clamp(velocity as int, 0, Q_ONE as int);
            if vel <= 0 {
                after == before
            } else {
                let t = spec_alloc_target(before);
                &&& after.len() == before.len()
                &&& spec_note_on_applied(before[t], after[t], note as int, vel)
                &&& forall|j: int|
                    0 <= j < before.len() && j != t ==> #[trigger] after[j] == before[j]
            }
        },
        NoteEvent::NoteOff { note } => {
            &&& after.len() == before.len()
            &&& forall|j: int|
                0 <= j < before.len() ==> #[trigger] after[j] == (if before[j].note == note
                    && before[j].active {
                    Voice {
                        envelope: Envelope {
                            stage: EnvelopeStage::Release,
                            release_start_level: before[j].envelope.current_level,
                            samples_elapsed: 0,
                            ..before[j].envelope
                        },
                        ..before[j]
                    }
                } else {
                    before[j]
                })
        },
        NoteEvent::Choke => {
            &&& after.len() == before.len()
            &&& forall|j: int|
                0 <= j < before.len() ==> #[trigger] after[j] == (Voice {
                    active: false,
                    envelope: Envelope {
                        stage: EnvelopeStage::Idle,
                        current_level: 0,
                        samples_elapsed: 0,
                        ..before[j].envelope
                    },
                    ..before[j]
                })
        },
    }
}

/// What a queue of events does to the pool: each applied in turn, in
/// arrival order.
pub open spec fn spec_events_applied(before: Seq<Voice>, es: Seq<NoteEvent>, after: Seq<Voice>) -> bool
    decreases es.len(),
{
    if es.len() == 0 {
        after == before
    } else {
        exists|mid: Seq<Voice>|
            #[trigger] spec_event_applied(before, es[0], mid) && spec_events_applied(
                mid,
                es.skip(1),
                after,
            )
    }
}

/// Appending one event to a queue extends its effect by one application.
proof fn lemma_events_applied_snoc(
    before: Seq<Voice>,
    es: Seq<NoteEvent>,
    mid: Seq<Voice>,
    e: NoteEvent,
    after: Seq<Voice>,
)
    requires
        spec_events_applied(before, es, mid),
        spec_event_applied(mid, e, after),
    ensures
        spec_events_applied(before, es.push(e), after),
    decreases es.len(),
{
    if es.len() == 0 {
        assert(es.push(e)[0] == e);
        assert(es.push(e).skip(1) =~= Seq::<NoteEvent>::empty());
        assert(spec_event_applied(before, es.push(e)[0], after));
        assert(spec_events_applied(after, es.push(e).skip(1), after));
    } else {
        let m0 = choose|m: Seq<Voice>|
            #[trigger] spec_event_applied(before, es[0], m) && spec_events_applied(
                m,
                es.skip(1),
                mid,
            );
        lemma_events_applied_snoc(m0, es.skip(1), mid, e, after);
        assert(es.push(e)[0] == es[0]);
        assert(es.push(e).skip(1) =~= es.skip(1).push(e));
        assert(spec_event_applied(before, es.push(e)[0], m0));
    }
}

/// Sum of what the first `n` voices contribute at a parameter snapshot.
pub open spec fn spec_mix_all(vs: Seq<Voice>, p: SineParams, n: int) -> int
    decreases n,
{
    if n <= 0 {
        0
    } else {
        spec_mix_all(vs, p, n - 1) + spec_voice_out(vs[n - 1], p)
    }
}

/// The block sample the master stage writes: the voices' sum soft-clipped
/// and halved.
pub open spec fn spec_master_out(vs: Seq<Voice>, p: SineParams) -> int {
    tdiv(spec_tanh(spec_mix_all(vs, p, vs.len() as int)), 2)
}

/// The whole synthesizer: a fixed pool of voices at one sample rate.
pub struct SineSynth {
    /// The sixteen voices.
    pub voices: Vec<Voice>,
    /// The engine's sample rate.
    pub sample_rate: u32,
}

impl SineSynth {
    /// Structural invariant: exactly the pool's size of well-formed voices,
    /// all at the engine's sample rate.
    pub open spec fn wf(&self) -> bool {
        &&& self.voices@.len() == POOL_SIZE
        &&& forall|i: int| 0 <= i < POOL_SIZE ==> (#[trigger] self.voices@[i]).wf()
        &&& forall|i: int|
            0 <= i < POOL_SIZE ==> (#[trigger] self.voices@[i]).envelope.sample_rate
                == self.sample_rate
        &&& 41 <= self.sample_rate <= 1_000_000
    }

    /// A fresh pool of silent voices.
    pub fn new(sample_rate: u32) -> (r: Self)
        requires
            41 <= sample_rate <= 1_000_000,
        ensures
            r.wf(),
            r.sample_rate == sample_rate,
            forall|i: int|
                0 <= i < POOL_SIZE ==> crate::voice::spec_fresh_voice(
                    #[trigger] r.voices@[i],
                    sample_rate as int,
                ),
    {
        let mut voices: Vec<Voice> = Vec::new();
        let mut i: usize = 0;
        while i < POOL_SIZE
            invariant
                41 <= sample_rate <= 1_000_000,
                i <= POOL_SIZE,
                voices@.len() == i as int,
                forall|j: int| 0 <= j < i as int ==> (#[trigger] voices@[j]).wf(),
                forall|j: int|
                    0 <= j < i as int ==> crate::voice::spec_fresh_voice(
                        #[trigger] voices@[j],
                        sample_rate as int,
                    ),
            decreases POOL_SIZE - i,
        {
            voices.push(Voice::new(sample_rate));
            i = i + 1;
        }
        SineSynth { voices, sample_rate }
    }

    /// Change the sample rate: every voice's filter history clears and its
    /// envelope retimes.
    pub fn set_sample_rate(&mut self, sample_rate: u32)
        requires
            old(self).wf(),
            41 <= sample_rate <= 1_000_000,
        ensures
            final(self).wf(),
            final(self).sample_rate == sample_rate,
            forall|j: int|
                0 <= j < POOL_SIZE ==> #[trigger] final(self).voices@[j] == (Voice {
                    filter: crate::filter::BiquadFilter {
                        sample_rate,
                        x1: 0,
                        x2: 0,
                        y1: 0,
                        y2: 0,
                        ..old(self).voices@[j].filter
                    },
                    envelope: Envelope { sample_rate, ..old(self).voices@[j].envelope },
                    ..old(self).voices@[j]
                }),
    {
        self.sample_rate = sample_rate;
        let mut i: usize = 0;
        while i < POOL_SIZE
            invariant
                41 <= sample_rate <= 1_000_000,
                self.voices@.len() == POOL_SIZE,
                self.sample_rate == sample_rate,
                i <= POOL_SIZE,
                forall|j: int| 0 <= j < POOL_SIZE ==> (#[trigger] self.voices@[j]).wf(),
                forall|j: int|
                    0 <= j < i as int ==> #[trigger] self.voices@[j] == (Voice {
                        filter: crate::filter::BiquadFilter {
                            sample_rate,
                            x1: 0,
                            x2: 0,
                            y1: 0,
                            y2: 0,
                            ..old(self).voices@[j].filter
                        },
                        envelope: Envelope { sample_rate, ..old(self).voices@[j].envelope },
                        ..old(self).voices@[j]
                    }),
                forall|j: int|
                    i as int <= j < POOL_SIZE ==> #[trigger] self.voices@[j] == old(
                        self,
                    ).voices@[j],
                forall|j: int|
                    i as int <= j < POOL_SIZE ==> (#[trigger] self.voices@[j]).envelope.sample_rate
                        == old(self).sample_rate,
            decreases POOL_SIZE - i,
        {
            let v = &mut self.voices[i];
            v.set_sample_rate(sample_rate);
            i = i + 1;
        }
    }

    /// Silence and rewind everything, as a transport stop does: every voice
    /// is hard-muted, its phases rewound and its filter history cleared.
    pub fn reset(&mut self)
        requires
            old(self).wf(),
        ensures
            final(self).wf(),
            final(self).sample_rate == old(self).sample_rate,
            forall|i: int|
                0 <= i < POOL_SIZE ==> spec_voice_rested(
                    old(self).voices@[i],
                    #[trigger] final(self).voices@[i],
                ),
    {
        let mut i: usize = 0;
        while i < POOL_SIZE
            invariant
                self.voices@.len() == POOL_SIZE,
                self.sample_rate == old(self).sample_rate,
                41 <= self.sample_rate <= 1_000_000,
                i <= POOL_SIZE,
                forall|j: int| 0 <= j < POOL_SIZE ==> (#[trigger] self.voices@[j]).wf(),
                forall|j: int|
                    0 <= j < POOL_SIZE ==> (#[trigger] self.voices@[j]).envelope.sample_rate
                        == self.sample_rate,
                forall|j: int|
                    0 <= j < i as int ==> spec_voice_rested(
                        old(self).voices@[j],
                        #[trigger] self.voices@[j],
                    ),
                forall|j: int|
                    i as int <= j < POOL_SIZE ==> #[trigger] self.voices@[j] == old(
                        self,
                    ).voices@[j],
            decreases POOL_SIZE - i,
        {
            let v = &mut self.voices[i];
            v.choke();
            v.osc1.reset();
            v.osc2.reset();
            v.osc3.reset();
            v.filter.reset();
            i = i + 1;
        }
    }

    /// The first silent voice, or the pool's size when all sound.
    fn find_inactive(&self) -> (r: usize)
        requires
            self.wf(),
        ensures
            spec_find_inactive(self.voices@, 0) >= 0 ==> r as int == spec_find_inactive(
                self.voices@,
                0,
            ) && r < POOL_SIZE,
            spec_find_inactive(self.voices@, 0) < 0 ==> r == POOL_SIZE,
    {
        let mut i: usize = 0;
        let mut target: usize = POOL_SIZE;
        while i < POOL_SIZE
            invariant
                self.wf(),
                i <= POOL_SIZE,
                target == POOL_SIZE || target < i,
                target == POOL_SIZE ==> spec_find_inactive(self.voices@, 0) == spec_find_inactive(
                    self.voices@,
                    i as int,
                ),
                target < POOL_SIZE ==> spec_find_inactive(self.voices@, 0) == target as int,
            decreases POOL_SIZE - i,
        {
            if target == POOL_SIZE && !self.voices[i].active {
                target = i;
            }
            i = i + 1;
        }
        target
    }

    /// The voice to steal: smallest stage clock, first in pool order on a
    /// tie.
    fn steal_target(&self) -> (r: usize)
        requires
            self.wf(),
        ensures
            r < POOL_SIZE,
            r as int == spec_steal_index(self.voices@),
    {
        let mut i: usize = 1;
        let mut best: usize = 0;
        while i < POOL_SIZE
            invariant
                self.wf(),
                1 <= i <= POOL_SIZE,
                best < i,
                spec_steal_from(self.voices@, 1, 0) == spec_steal_from(
                    self.voices@,
                    i as int,
                    best as int,
                ),
            decreases POOL_SIZE - i,
        {
            if self.voices[i].envelope.samples_elapsed
                < self.voices[best].envelope.samples_elapsed {
                best = i;
            }
            i = i + 1;
        }
        best
    }

    /// A key goes down: the first silent voice plays it, or the steal
    /// choice gives up its note for it. A velocity at or below zero is
    /// ignored; velocities are clamped into `[0, 1]` at this boundary.
    pub fn note_on(&mut self, note: u8, velocity: i64)
        requires
            old(self).wf(),
        ensures
            final(self).wf(),
            final(self).sample_rate == old(self).sample_rate,
            spec_event_applied(
                old(self).voices@,
                NoteEvent::NoteOn { note, velocity },
                final(self).voices@,
            ),
    {
        let vel: i64 = clamp64(velocity, 0, Q_ONE);
        if vel <= 0 {
            return;
        }
        let f: usize = self.find_inactive();
        let t: usize = if f < POOL_SIZE {
            f
        } else {
            self.steal_target()
        };
        let v = &mut self.voices[t];
        v.note_on(note, vel);
    }

    /// A key comes up: every sounding voice playing that note starts its
    /// release.
    pub fn note_off(&mut self, note: u8)
        requires
            old(self).wf(),
        ensures
            final(self).wf(),
            final(self).sample_rate == old(self).sample_rate,
            spec_event_applied(old(self).voices@, NoteEvent::NoteOff { note }, final(self).voices@),
    {
        let mut i: usize = 0;
        while i < POOL_SIZE
            invariant
                self.voices@.len() == POOL_SIZE,
                self.sample_rate == old(self).sample_rate,
                41 <= self.sample_rate <= 1_000_000,
                i <= POOL_SIZE,
                forall|j: int| 0 <= j < POOL_SIZE ==> (#[trigger] self.voices@[j]).wf(),
                forall|j: int|
                    0 <= j < POOL_SIZE ==> (#[trigger] self.voices@[j]).envelope.sample_rate
                        == self.sample_rate,
                forall|j: int|
                    i as int <= j < POOL_SIZE ==> #[trigger] self.voices@[j] == old(
                        self,
                    ).voices@[j],
                forall|j: int|
                    0 <= j < i as int ==> #[trigger] self.voices@[j] == (if old(
                        self,
                    ).voices@[j].note == note && old(self).voices@[j].active {
                        Voice {
                            envelope: Envelope {
                                stage: EnvelopeStage::Release,
                                release_start_level: old(self).voices@[j].envelope.current_level,
                                samples_elapsed: 0,
                                ..old(self).voices@[j].envelope
                            },
                            ..old(self).voices@[j]
                        }
                    } else {
                        old(self).voices@[j]
                    }),
            decreases POOL_SIZE - i,
        {
            if self.voices[i].note == note && self.voices[i].active {
                let v = &mut self.voices[i];
                v.note_off();
            }
            i = i + 1;
        }
    }

    /// Hard-mute every voice at once, bypassing every release.
    pub fn choke(&mut self)
        requires
            old(self).wf(),
        ensures
            final(self).wf(),
            final(self).sample_rate == old(self).sample_rate,
            spec_event_applied(old(self).voices@, NoteEvent::Choke, final(self).voices@),
    {
        let mut i: usize = 0;
        while i < POOL_SIZE
            invariant
                self.voices@.len() == POOL_SIZE,
                self.sample_rate == old(self).sample_rate,
                41 <= self.sample_rate <= 1_000_000,
                i <= POOL_SIZE,
                forall|j: int| 0 <= j < POOL_SIZE ==> (#[trigger] self.voices@[j]).wf(),
                forall|j: int|
                    0 <= j < POOL_SIZE ==> (#[trigger] self.voices@[j]).envelope.sample_rate
                        == self.sample_rate,
                forall|j: int|
                    i as int <= j < POOL_SIZE ==> #[trigger] self.voices@[j] == old(
                        self,
                    ).voices@[j],
                forall|j: int|
                    0 <= j < i as int ==> #[trigger] self.voices@[j] == (Voice {
                        active: false,
                        envelope: Envelope {
                            stage: EnvelopeStage::Idle,
                            current_level: 0,
                            samples_elapsed: 0,
                            ..old(self).voices@[j].envelope
                        },
                        ..old(self).voices@[j]
                    }),
            decreases POOL_SIZE - i,
        {
            let v = &mut self.voices[i];
            v.choke();
            i = i + 1;
        }
    }

    /// Apply one queued event.
    pub fn handle_event(&mut self, e: NoteEvent)
        requires
            old(self).wf(),
        ensures
            final(self).wf(),
            final(self).sample_rate == old(self).sample_rate,
            spec_event_applied(old(self).voices@, e, final(self).voices@),
    {
        match e {
            NoteEvent::NoteOn { note, velocity } => self.note_on(note, velocity),
            NoteEvent::NoteOff { note } => self.note_off(note),
            NoteEvent::Choke => self.choke(),
        }
    }

    /// Drain a block's event queue, applying every event in arrival order
    /// before any sample of the block is rendered.
    pub fn handle_events(&mut self, events: &Vec<NoteEvent>)
        requires
            old(self).wf(),
        ensures
            final(self).wf(),
            final(self).sample_rate == old(self).sample_rate,
            spec_events_applied(old(self).voices@, events@, final(self).voices@),
    {
        let n: usize = events.len();
        let mut i: usize = 0;
        while i < n
            invariant
                self.wf(),
                self.sample_rate == old(self).sample_rate,
                n == events@.len(),
                i <= n,
                spec_events_applied(old(self).voices@, events@.take(i as int), self.voices@),
            decreases n - i,
        {
            let ghost before = self.voices@;
            self.handle_event(events[i]);
            proof {
                lemma_events_applied_snoc(
                    old(self).voices@,
                    events@.take(i as int),
                    before,
                    events@[i as int],
                    self.voices@,
                );
                assert(events@.take(i as int).push(events@[i as int]) =~= events@.take(
                    i as int + 1,
                ));
            }
            i = i + 1;
        }
        proof {
            assert(events@.take(n as int) =~= events@);
        }
    }

    /// Render one output sample at a parameter snapshot: every sounding
    /// voice advances one tick, their outputs sum, and the master stage
    /// soft-clips the sum and halves it. The same value belongs on every
    /// output channel. The result never leaves half of one.
    #[verifier::rlimit(100)]
    pub fn process_sample(&mut self, params: &SineParams) -> (out: i64)
        requires
            old(self).wf(),
        ensures
            final(self).wf(),
            final(self).sample_rate == old(self).sample_rate,
            forall|j: int|
                0 <= j < POOL_SIZE ==> spec_voice_ticked(
                    old(self).voices@[j],
                    #[trigger] final(self).voices@[j],
                    spec_clamp_params(*params),
                ),
            out == spec_master_out(old(self).voices@, spec_clamp_params(*params)),
            -Q_ONE / 2 <= out <= Q_ONE / 2,
    {
        let pc: SineParams = params.clamped();
        let mut sum: i64 = 0;
        let mut i: usize = 0;
        while i < POOL_SIZE
            invariant
                self.voices@.len() == POOL_SIZE,
                self.sample_rate == old(self).sample_rate,
                41 <= self.sample_rate <= 1_000_000,
                pc == spec_clamp_params(*params),
                crate::params::spec_params_valid(pc),
                i <= POOL_SIZE,
                forall|j: int| 0 <= j < POOL_SIZE ==> (#[trigger] self.voices@[j]).wf(),
                forall|j: int|
                    0 <= j < POOL_SIZE ==> (#[trigger] self.voices@[j]).envelope.sample_rate
                        == self.sample_rate,
                forall|j: int|
                    i as int <= j < POOL_SIZE ==> #[trigger] self.voices@[j] == old(
                        self,
                    ).voices@[j],
                forall|j: int|
                    0 <= j < i as int ==> spec_voice_ticked(
                        old(self).voices@[j],
                        #[trigger] self.voices@[j],
                        pc,
                    ),
                sum as int == spec_mix_all(old(self).voices@, pc, i as int),
                abs_val(sum as int) <= i as int * 0x4000_0000,
            decreases POOL_SIZE - i,
        {
            proof {
                assert(OUT_HEADROOM_Q24 == 0x4000_0000);
            }
            let v = &mut self.voices[i];
            let o: i64 = v.render_tick(&pc);
            sum = sum + o;
            i = i + 1;
        }
        let t: i64 = tanh_q(sum);
        mul_div(t, 1, 2)
    }
}

impl Default for SineSynth {
    /// A pool at the common audio rate.
    fn default() -> (r: Self)
        ensures
            r.wf(),
            r.sample_rate == 44100,
    {
        SineSynth::new(44100)
    }
}

} // verus!
