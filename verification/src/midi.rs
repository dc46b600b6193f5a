//! Decoding of the host's three-byte MIDI events and the pitch-to-frequency
//! table, both reached through the `wmidi` crate.

use vstd::prelude::*;

verus! {

/// A decoded MIDI channel-voice event, reduced to what the engine acts on.
#[derive(Clone, Copy, PartialEq, Eq, Structural, Debug)]
pub enum MidiEvent {
    /// A key went down: hold this pitch at this velocity.
    NoteOn { pitch: u8, velocity: u8 },
    /// A key came up: release this pitch, if it is the one held.
    NoteOff { pitch: u8 },
    /// Any other, or malformed, message; the engine ignores it.
    Other,
}

/// The meaning of a three-byte MIDI message, exactly as the decoder returns
/// it: a note-on status (0x90..=0x9F) with two data bytes is a note-on,
/// except that velocity zero decodes as a note-off; a note-off status
/// (0x80..=0x8F) with two data bytes is a note-off; everything else —
/// other message kinds, data bytes with the high bit set, a leading data
/// byte — is `Other`.
pub open spec fn midi_event_of(b: [u8; 3]) -> MidiEvent {
    if b[0] & 0xF0 == 0x90 && b[1] < 128 && b[2] < 128 && b[2] != 0 {
        MidiEvent::NoteOn { pitch: b[1], velocity: b[2] }
    } else if b[0] & 0xF0 == 0x90 && b[1] < 128 && b[2] == 0 {
        MidiEvent::NoteOff { pitch: b[1] }
    } else if b[0] & 0xF0 == 0x80 && b[1] < 128 && b[2] < 128 {
        MidiEvent::NoteOff { pitch: b[1] }
    } else {
        MidiEvent::Other
    }
}

/// Decode one three-byte MIDI message.
///
/// Relies on `wmidi::MidiMessage::try_from` for the byte-level grammar: a
/// status byte with high nibble 9 and two valid data bytes parses as
/// `NoteOn` — or as `NoteOff` when the velocity byte is zero, which that
/// parser folds into note-off — high nibble 8 parses as `NoteOff`, and
/// every other or malformed message is an error or a message kind this
/// crate does not act on, mapped to `Other` here.
#[verifier::external_body]
pub(crate) fn decode_midi(bytes: &[u8; 3]) -> (r: MidiEvent)
    ensures
        r == midi_event_of(*bytes),
{
    match wmidi::MidiMessage::try_from(bytes.as_slice()) {
        Ok(wmidi::MidiMessage::NoteOn(_channel, note, velocity)) => MidiEvent::NoteOn {
            pitch: u8::from(note),
            velocity: u8::from(velocity),
        },
        Ok(wmidi::MidiMessage::NoteOff(_channel, note, _velocity)) => MidiEvent::NoteOff {
            pitch: u8::from(note),
        },
        _ => MidiEvent::Other,
    }
}

/// The oscillator frequency in Hertz for a MIDI pitch, under twelve-tone
/// equal temperament around A4 = 440 Hz, as IEEE-754 double-precision bits.
pub uninterp spec fn freq_bits_of(pitch: u8) -> u64;

/// Look a pitch's frequency up.
///
/// Relies on `wmidi::Note::to_freq_f64`: a fixed 128-entry table of
/// equal-temperament frequencies tuned to A-440, indexed by the low seven
/// bits of the pitch (`Note::from_u8_lossy` masks the high bit). The stated
/// bits for pitch 69 are the table's own A4 entry, 440 Hz up to one part
/// in 10^15.
#[verifier::external_body]
pub(crate) fn note_freq_bits(pitch: u8) -> (r: u64)
    ensures
        r == freq_bits_of(pitch),
        pitch == 69 ==> r == 0x407B_8000_0000_0002u64,
{
    wmidi::Note::from_u8_lossy(pitch).to_freq_f64().to_bits()
}

} // verus!
