//! The note-tracking state machine: at most one (pitch, velocity) pair is
//! held at a time, together with the flag that makes the signal graph
//! audible.

use vstd::prelude::*;

verus! {

/// Tracks the single currently-sounding note of the monophonic voice.
///
/// A note-on unconditionally replaces whatever is held (last-note priority)
/// and marks the voice audible. A note-off clears the held note only when
/// its pitch matches the held pitch, and never clears `enabled`: silence
/// after release comes from the envelope, not from a hard mute.
pub struct NoteTracker {
    /// The held (pitch, velocity) pair, if any.
    pub note: Option<(u8, u8)>,
    /// Whether the signal graph's output is audible.
    pub enabled: bool,
}

impl NoteTracker {
    /// Well-formedness: a held note implies an audible voice. This holds in
    /// every state the tracker's own operations can reach, since a note-on
    /// both installs the note and enables the voice, and nothing else
    /// installs a note.
    pub open spec fn wf(self) -> bool {
        self.note is Some ==> self.enabled
    }

    /// The tracker state after a note-on for `pitch` at `velocity`.
    pub open spec fn note_on_spec(self, pitch: u8, velocity: u8) -> NoteTracker {
        NoteTracker { note: Some((pitch, velocity)), enabled: true }
    }

    /// The tracker state after a note-off for `pitch`: the held note is
    /// cleared only when `pitch` matches it, and `enabled` is never touched.
    pub open spec fn note_off_spec(self, pitch: u8) -> NoteTracker {
        match self.note {
            Some((held, _velocity)) => if held == pitch {
                NoteTracker { note: None, enabled: self.enabled }
            } else {
                self
            },
            None => self,
        }
    }

    /// A fresh tracker: idle and inaudible.
    pub fn new() -> (t: NoteTracker)
        ensures
            t.note is None,
            !t.enabled,
            t.wf(),
    {
        NoteTracker { note: None, enabled: false }
    }

    /// Replace any held note with the new one and make the voice audible.
    pub fn note_on(&mut self, pitch: u8, velocity: u8)
        ensures
            *final(self) == old(self).note_on_spec(pitch, velocity),
    {
        self.note = Some((pitch, velocity));
        self.enabled = true;
    }

    /// Clear the held note if `pitch` matches it; otherwise do nothing.
    /// A stale note-off can therefore never cut a newer note.
    pub fn note_off(&mut self, pitch: u8)
        ensures
            *final(self) == old(self).note_off_spec(pitch),
    {
        match self.note {
            Some((held, _velocity)) => {
                if held == pitch {
                    self.note = None;
                }
            },
            None => {},
        }
    }
}

/// Last-note priority: after a note-on for `p1` followed by a note-on for a
/// different pitch `p2`, the tracker holds exactly the second note, audible,
/// with nothing stacked behind it.
pub proof fn lemma_last_note_priority(t: NoteTracker, p1: u8, v1: u8, p2: u8, v2: u8)
    requires
        p1 != p2,
    ensures
        t.note_on_spec(p1, v1).note_on_spec(p2, v2).note == Some((p2, v2)),
        t.note_on_spec(p1, v1).note_on_spec(p2, v2).enabled,
{
}

/// Both tracker operations preserve well-formedness, so it is an invariant
/// of every state reachable from a fresh tracker.
pub proof fn lemma_operations_preserve_wf(t: NoteTracker, pitch: u8, velocity: u8)
    requires
        t.wf(),
    ensures
        t.note_on_spec(pitch, velocity).wf(),
        t.note_off_spec(pitch).wf(),
{
}

/// Releasing never mutes: in any well-formed state with a held note, a
/// note-off for that pitch clears the note but leaves the voice audible,
/// so the release tail decays through the envelope rather than being cut.
pub proof fn lemma_release_keeps_voice_audible(t: NoteTracker, pitch: u8, velocity: u8)
    requires
        t.wf(),
        t.note == Some((pitch, velocity)),
    ensures
        t.note_off_spec(pitch).note is None,
        t.note_off_spec(pitch).enabled,
{
}

/// A note-off whose pitch is not the currently held pitch leaves the
/// tracker exactly as it was.
pub proof fn lemma_note_off_other_pitch(t: NoteTracker, pitch: u8)
    requires
        match t.note {
            Some((held, _velocity)) => held != pitch,
            None => true,
        },
    ensures
        t.note_off_spec(pitch) == t,
{
}

} // verus!
