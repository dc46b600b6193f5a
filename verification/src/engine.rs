//! The audio engine: it ingests note events, reads the parameter store, and
//! turns each host buffer into an exact plan of per-sub-block render
//! commands for the signal graph, while keeping elapsed-time bookkeeping.
//!
//! The signal graph itself — oscillator, envelope, declick, fan-out — does
//! floating-point work outside this crate; the engine decides everything
//! the graph is told: which control inputs change, to what values, how the
//! host buffer is partitioned into sub-blocks, and whether each sub-block
//! is rendered or left silent.

use vstd::prelude::*;

use crate::midi::{decode_midi, freq_bits_of, midi_event_of, note_freq_bits, MidiEvent};
use crate::notes::NoteTracker;
use crate::params::{Parameter, Parameters};

verus! {

/// The control inputs wired into the signal graph, distinct from the
/// host-visible parameters: the oscillator frequency, the modulation depth,
/// and the timestamp of the most recent note-on.
#[derive(Clone, Copy, PartialEq, Eq, Structural, Debug)]
pub enum Tag {
    Freq,
    Modulation,
    NoteOn,
}

impl Tag {
    /// The graph-internal numeric id of this control input.
    pub open spec fn id_spec(self) -> i64 {
        match self {
            Tag::Freq => 0,
            Tag::Modulation => 1,
            Tag::NoteOn => 2,
        }
    }

    /// The graph-internal numeric id of this control input.
    pub fn id(self) -> (r: i64)
        ensures
            r == self.id_spec(),
    {
        match self {
            Tag::Freq => 0,
            Tag::Modulation => 1,
            Tag::NoteOn => 2,
        }
    }
}

/// Samples per render sub-block: the signal graph renders at most this many
/// samples in one call, so a host buffer is cut into pieces of this size.
pub const MAX_BUFFER_SIZE: usize = 64;

/// The sub-block lengths a host buffer of length `len` is cut into: full
/// sub-blocks of `MAX_BUFFER_SIZE` samples, then one shorter piece for
/// whatever remains.
pub open spec fn sub_block_partition(len: nat) -> Seq<nat>
    decreases len,
{
    if len == 0 {
        Seq::empty()
    } else if len <= MAX_BUFFER_SIZE {
        seq![len]
    } else {
        seq![MAX_BUFFER_SIZE as nat] + sub_block_partition((len - MAX_BUFFER_SIZE) as nat)
    }
}

/// The sum of a sequence of lengths.
pub open spec fn seq_sum(s: Seq<nat>) -> nat
    decreases s.len(),
{
    if s.len() == 0 {
        0
    } else {
        s[0] + seq_sum(s.drop_first())
    }
}

/// Block partitioning is exact: the sub-block lengths sum to the buffer
/// length, every sub-block is non-empty and no longer than
/// `MAX_BUFFER_SIZE`, and every sub-block but the last is full.
pub proof fn lemma_partition_exact(len: nat)
    ensures
        seq_sum(sub_block_partition(len)) == len,
        forall|i: int|
            0 <= i < sub_block_partition(len).len() ==> 0 < #[trigger] sub_block_partition(len)[i]
                <= MAX_BUFFER_SIZE,
        forall|i: int|
            0 <= i < sub_block_partition(len).len() - 1 ==> #[trigger] sub_block_partition(len)[i]
                == MAX_BUFFER_SIZE,
    decreases len,
{
    if len == 0 {
    } else if len <= MAX_BUFFER_SIZE {
        let p = sub_block_partition(len);
        assert(p.drop_first() =~= Seq::<nat>::empty());
        assert(seq_sum(p) == p[0] + seq_sum(p.drop_first()));
    } else {
        let p = sub_block_partition(len);
        let rest = sub_block_partition((len - MAX_BUFFER_SIZE) as nat);
        lemma_partition_exact((len - MAX_BUFFER_SIZE) as nat);
        assert(p.drop_first() =~= rest);
        assert(seq_sum(p) == p[0] + seq_sum(p.drop_first()));
    }
}

/// The engine: the note tracker, a snapshot store of the host-visible
/// parameters, the sample rate the host reported, and elapsed time counted
/// in samples.
pub struct Synthy {
    /// Snapshot of the host-visible knobs, as single-precision bit patterns.
    pub parameters: Parameters,
    /// The held note and the audibility flag.
    pub tracker: NoteTracker,
    /// IEEE-754 single-precision bits of the host's sample rate in Hertz.
    pub sample_rate_bits: u32,
    /// Samples rendered while audible since construction or the last sample
    /// rate change; elapsed seconds are this count over the sample rate.
    pub time_samples: u64,
}

/// What the engine tells the graph's driver to do with one host buffer:
/// values for the graph's control inputs, whether to render, and how the
/// buffer is cut into sub-blocks.
pub struct BlockPlan {
    /// Value for the `Freq` control input, as double-precision bits: the
    /// held note's frequency in Hertz, or zero when no note is held — the
    /// frequency input is driven to zero between notes. `None` only when
    /// nothing was planned and no control input is to be touched.
    pub freq_bits: Option<u64>,
    /// Whether each sub-block is rendered; when false the output stays
    /// silent and elapsed time does not advance.
    pub render: bool,
    /// The sub-block lengths, in order; they sum to the host buffer length.
    pub sub_lens: Vec<usize>,
}

/// The tracker state after one decoded event: note-on and note-off drive
/// the tracker, everything else is ignored.
pub open spec fn apply_event(t: NoteTracker, e: MidiEvent) -> NoteTracker {
    match e {
        MidiEvent::NoteOn { pitch, velocity } => t.note_on_spec(pitch, velocity),
        MidiEvent::NoteOff { pitch } => t.note_off_spec(pitch),
        MidiEvent::Other => t,
    }
}

/// The tracker state after a batch of raw three-byte events, applied in
/// order.
pub open spec fn apply_raw_events(t: NoteTracker, evs: Seq<[u8; 3]>) -> NoteTracker
    decreases evs.len(),
{
    if evs.len() == 0 {
        t
    } else {
        apply_event(apply_raw_events(t, evs.drop_last()), midi_event_of(evs.last()))
    }
}

/// A whole batch of raw events preserves the tracker's well-formedness:
/// a held note still implies an audible voice afterwards.
pub proof fn lemma_raw_events_preserve_wf(t: NoteTracker, evs: Seq<[u8; 3]>)
    requires
        t.wf(),
    ensures
        apply_raw_events(t, evs).wf(),
    decreases evs.len(),
{
    if evs.len() > 0 {
        lemma_raw_events_preserve_wf(t, evs.drop_last());
        match midi_event_of(evs.last()) {
            MidiEvent::NoteOn { pitch, velocity } => {
                crate::notes::lemma_operations_preserve_wf(
                    apply_raw_events(t, evs.drop_last()),
                    pitch,
                    velocity,
                );
            },
            MidiEvent::NoteOff { pitch } => {
                crate::notes::lemma_operations_preserve_wf(
                    apply_raw_events(t, evs.drop_last()),
                    pitch,
                    0,
                );
            },
            MidiEvent::Other => {},
        }
    }
}

/// Elapsed samples after rendering `len` samples: unchanged while the voice
/// is inaudible, advanced by `len` (saturating at the counter's top) while
/// it is audible.
pub open spec fn advanced_time(t: u64, enabled: bool, len: nat) -> u64 {
    if !enabled {
        t
    } else if t + len <= u64::MAX {
        (t + len) as u64
    } else {
        u64::MAX
    }
}

/// The engine state after planning one host buffer: with the expected two
/// channels, elapsed time advances while the voice is audible and nothing
/// else moves; with any other channel count the call is a no-op.
pub open spec fn process_state_spec(s: Synthy, host_len: nat, n_channels: nat) -> Synthy {
    if n_channels == 2 {
        Synthy {
            time_samples: advanced_time(s.time_samples, s.tracker.enabled, host_len),
            ..s
        }
    } else {
        s
    }
}

/// IEEE-754 single-precision bit pattern of 41000, the sample rate the
/// engine assumes until the host reports one.
pub const DEFAULT_SAMPLE_RATE_BITS: u32 = 0x4720_2800;

impl Synthy {
    /// A fresh engine: idle tracker, default knob values, default sample
    /// rate, elapsed time zero.
    pub fn new() -> (s: Synthy)
        ensures
            s.parameters == (Parameters {
                modulation: crate::params::DEFAULT_MODULATION_BITS,
                volume: crate::params::DEFAULT_VOLUME_BITS,
                slider_value: crate::params::DEFAULT_SLIDER_BITS,
            }),
            s.tracker.note is None,
            !s.tracker.enabled,
            s.sample_rate_bits == DEFAULT_SAMPLE_RATE_BITS,
            s.time_samples == 0,
    {
        Synthy {
            parameters: Parameters::new(),
            tracker: NoteTracker::new(),
            sample_rate_bits: DEFAULT_SAMPLE_RATE_BITS,
            time_samples: 0,
        }
    }

    /// Record the sample rate the host reported and reset elapsed time to
    /// zero; the caller must also reset the signal graph to the new rate.
    pub fn set_sample_rate(&mut self, rate_bits: u32)
        ensures
            final(self).sample_rate_bits == rate_bits,
            final(self).time_samples == 0,
            final(self).parameters == old(self).parameters,
            final(self).tracker == old(self).tracker,
    {
        self.sample_rate_bits = rate_bits;
        self.time_samples = 0;
    }

    /// Read a knob of the engine's parameter snapshot by host index.
    pub fn get_parameter(&self, index: i32) -> (r: u32)
        ensures
            r == self.parameters.get_spec(index),
    {
        self.parameters.get_parameter(index)
    }

    /// Write a knob of the engine's parameter snapshot by host index; this
    /// is how the driver hands the engine the values the host or the editor
    /// wrote between blocks.
    pub fn set_parameter(&mut self, index: i32, bits: u32)
        ensures
            final(self).parameters == old(self).parameters.set_spec(index, bits),
            final(self).tracker == old(self).tracker,
            final(self).sample_rate_bits == old(self).sample_rate_bits,
            final(self).time_samples == old(self).time_samples,
    {
        self.parameters.set_parameter(index, bits);
    }

    /// Ingest a batch of raw three-byte MIDI events, in order: each note-on
    /// replaces the held note and makes the voice audible, each note-off
    /// releases a matching held note, everything else is ignored. Returns
    /// whether any note-on was seen, in which case the driver must set the
    /// `NoteOn` control input to the current elapsed time.
    pub fn process_events(&mut self, events: &Vec<[u8; 3]>) -> (note_on_seen: bool)
        ensures
            final(self).tracker == apply_raw_events(old(self).tracker, events@),
            final(self).parameters == old(self).parameters,
            final(self).sample_rate_bits == old(self).sample_rate_bits,
            final(self).time_samples == old(self).time_samples,
            note_on_seen == exists|j: int|
                0 <= j < events@.len() && #[trigger] midi_event_of(events@[j]) is NoteOn,
    {
        let mut seen = false;
        let n = events.len();
        let mut i: usize = 0;
        while i < n
            invariant
                i <= n,
                n == events@.len(),
                self.tracker == apply_raw_events(old(self).tracker, events@.take(i as int)),
                self.parameters == old(self).parameters,
                self.sample_rate_bits == old(self).sample_rate_bits,
                self.time_samples == old(self).time_samples,
                seen == exists|j: int|
                    0 <= j < i && #[trigger] midi_event_of(events@[j]) is NoteOn,
            decreases n - i,
        {
            let ev = decode_midi(&events[i]);
            match ev {
                MidiEvent::NoteOn { pitch, velocity } => {
                    self.tracker.note_on(pitch, velocity);
                    seen = true;
                },
                MidiEvent::NoteOff { pitch } => {
                    self.tracker.note_off(pitch);
                },
                MidiEvent::Other => {},
            }
            proof {
                assert(events@.take(i + 1).drop_last() =~= events@.take(i as int));
                assert(events@.take(i + 1).last() == events@[i as int]);
            }
            i += 1;
        }
        proof {
            assert(events@.take(n as int) =~= events@);
        }
        seen
    }

    /// Plan the processing of one host buffer. If the host did not provide
    /// exactly two output channels nothing is done: the plan is empty and
    /// the engine is unchanged. Otherwise the plan carries the frequency
    /// the `Freq` control input is driven to — the held note's, or zero
    /// when no note is held — commands a render exactly when the voice is
    /// audible, cuts the buffer into sub-blocks, and elapsed time advances
    /// by the buffer length — one sub-block length per rendered sub-block —
    /// while the voice is audible. Before each sub-block the driver
    /// additionally refreshes the modulation control through
    /// `modulation_control`.
    pub fn process(&mut self, host_len: usize, n_channels: usize) -> (plan: BlockPlan)
        ensures
            *final(self) == process_state_spec(*old(self), host_len as nat, n_channels as nat),
            n_channels == 2 ==> {
                &&& plan.freq_bits == (match old(self).tracker.note {
                    Some((pitch, _velocity)) => Some(freq_bits_of(pitch)),
                    None => Some(0u64),
                })
                &&& plan.render == old(self).tracker.enabled
                &&& plan.sub_lens@.len() == sub_block_partition(host_len as nat).len()
                &&& forall|i: int|
                    0 <= i < plan.sub_lens@.len() ==> #[trigger] plan.sub_lens@[i] as nat
                        == sub_block_partition(host_len as nat)[i]
            },
            n_channels != 2 ==> {
                &&& !plan.render
                &&& plan.freq_bits is None
                &&& plan.sub_lens@.len() == 0
            },
    {
        if n_channels != 2 {
            return BlockPlan { freq_bits: None, render: false, sub_lens: Vec::new() };
        }
        let freq_bits = match self.tracker.note {
            Some((pitch, _velocity)) => Some(note_freq_bits(pitch)),
            // IEEE-754 zero is the all-zero pattern: silence the pitch
            None => Some(0u64),
        };
        let render = self.tracker.enabled;
        let sub_lens = sub_block_lengths(host_len);
        if render {
            let len64 = host_len as u64;
            if self.time_samples <= u64::MAX - len64 {
                self.time_samples = self.time_samples + len64;
            } else {
                self.time_samples = u64::MAX;
            }
        }
        BlockPlan { freq_bits, render, sub_lens }
    }

    /// The control update made before every sub-block: the driver hands in
    /// its fresh read of the thread-shared modulation cell, the engine
    /// records it in its snapshot store, and the returned bits — exactly
    /// the modulation knob — are what the `Modulation` control input is set
    /// from, after the driver's floating-point remap onto the graph's
    /// control range. Reading anew before each sub-block bounds how late a
    /// mid-buffer write reaches the graph by one sub-block.
    pub fn modulation_control(&mut self, fresh_bits: u32) -> (r: u32)
        ensures
            final(self).parameters == old(self).parameters.set_spec(
                Parameter::Modulation.index_spec(),
                fresh_bits,
            ),
            final(self).tracker == old(self).tracker,
            final(self).sample_rate_bits == old(self).sample_rate_bits,
            final(self).time_samples == old(self).time_samples,
            r == final(self).parameters.modulation,
    {
        self.parameters.set_parameter(Parameter::Modulation.index(), fresh_bits);
        self.parameters.get_parameter(Parameter::Modulation.index())
    }
}

/// Cut a host buffer length into sub-block lengths, full blocks first.
pub fn sub_block_lengths(len: usize) -> (r: Vec<usize>)
    ensures
        r@.len() == sub_block_partition(len as nat).len(),
        forall|i: int|
            0 <= i < r@.len() ==> #[trigger] r@[i] as nat == sub_block_partition(len as nat)[i],
{
    let mut r: Vec<usize> = Vec::new();
    let mut rem: usize = len;
    while rem > 0
        invariant
            rem <= len,
            sub_block_partition(len as nat) =~= r@.map_values(|x: usize| x as nat)
                + sub_block_partition(rem as nat),
        decreases rem,
    {
        let take: usize = if rem > MAX_BUFFER_SIZE {
            MAX_BUFFER_SIZE
        } else {
            rem
        };
        let ghost prev = r@;
        r.push(take);
        rem = rem - take;
        proof {
            assert(r@.map_values(|x: usize| x as nat) =~= prev.map_values(|x: usize| x as nat)
                + seq![take as nat]);
            assert(prev.map_values(|x: usize| x as nat) + seq![take as nat]
                + sub_block_partition(rem as nat) =~= prev.map_values(|x: usize| x as nat) + (
            seq![take as nat] + sub_block_partition(rem as nat)));
        }
    }
    proof {
        assert(sub_block_partition(len as nat) =~= r@.map_values(|x: usize| x as nat));
        assert(forall|i: int|
            0 <= i < r@.len() ==> #[trigger] r@[i] as nat == r@.map_values(|x: usize| x as nat)[i]);
    }
    r
}

/// Processing while the voice is inaudible is idempotent: however many
/// blocks of whatever lengths are planned, the engine — elapsed time
/// included — stays exactly as it was, and (by `process`'s contract) no
/// render is commanded, so the output stays silent.
pub proof fn lemma_idle_process_fixed_point(s: Synthy, host_len: nat, n_channels: nat)
    requires
        !s.tracker.enabled,
    ensures
        process_state_spec(s, host_len, n_channels) == s,
{
}

} // verus!
