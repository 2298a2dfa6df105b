use vstd::prelude::*;
use crate::event::{
    combine14, first_status_from, frame_decode, is_status, lemma_first_status_bound,
    min_frame_len, wire_decode, DecodeError, EventView, MidiEvent,
};
use core::convert::TryFrom;
use wmidi::FromBytesError as F;
use wmidi::MidiMessage as W;

verus! {

#[verifier::external_type_specification]
#[verifier::external_body]
pub struct ExMidiMessage<'a>(wmidi::MidiMessage<'a>);

#[verifier::external_type_specification]
#[verifier::external_body]
pub struct ExFromBytesError(wmidi::FromBytesError);

/// Relies on `wmidi::MidiMessage::try_from(&[u8])`, which decodes one MIDI 1.0
/// message from the start of a byte slice as `wire_decode` describes.
#[verifier::external_body]
fn wmidi_decode(frame: &[u8]) -> (r: Result<MidiEvent, DecodeError>)
    ensures
        match (r, wire_decode(frame@)) {
            (Ok(e), Ok(v)) => e@ == v,
            (Err(e), Err(d)) => e == d,
            _ => false,
        },
{
    match wmidi::MidiMessage::try_from(frame) {
        Ok(m) => Ok(event_from(m)),
        Err(e) => Err(error_from(e)),
    }
}

/// Moves a decoded wmidi message into a `MidiEvent`, the SysEx payload by
/// `wmidi::U7::data_to_bytes`; channel messages go on to `voice_event_from`.
#[verifier::external_body]
fn event_from(m: wmidi::MidiMessage) -> MidiEvent {
    match m {
        W::SysEx(d) => MidiEvent::SystemExclusive { payload: wmidi::U7::data_to_bytes(d).to_vec() },
        W::TimingClock => MidiEvent::TimingClock,
        m => voice_event_from(m),
    }
}

/// Moves the fields of a wmidi channel message into a `MidiEvent`: channels by
/// `wmidi::Channel::index`, 7- and 14-bit values by wmidi's `From` impls into
/// `u8` and `u16`. Any other message becomes `MidiEvent::Other`.
#[verifier::external_body]
fn voice_event_from(m: wmidi::MidiMessage) -> MidiEvent {
    match m {
        W::NoteOff(c, n, v) => MidiEvent::NoteOff { channel: c.index(), note: n.into(), velocity: v.into() },
        W::NoteOn(c, n, v) => MidiEvent::NoteOn { channel: c.index(), note: n.into(), velocity: v.into() },
        W::PitchBendChange(c, b) => MidiEvent::PitchBendChange { channel: c.index(), value: b.into() },
        W::ControlChange(c, f, v) => MidiEvent::ControlChange { channel: c.index(), function: f.into(), value: v.into() },
        _ => MidiEvent::Other,
    }
}

/// Moves a `wmidi::FromBytesError` into the variant of `DecodeError` of the same name.
#[verifier::external_body]
fn error_from(e: wmidi::FromBytesError) -> DecodeError {
    match e {
        F::ChannelOutOfRange => DecodeError::ChannelOutOfRange,
        F::NoBytes => DecodeError::NoBytes,
        F::NoSysExEndByte => DecodeError::NoSysExEndByte,
        F::NotEnoughBytes => DecodeError::NotEnoughBytes,
        F::UnexpectedEndSysExByte => DecodeError::UnexpectedEndSysExByte,
        F::UnexpectedNonSysExEndByte(b) => DecodeError::UnexpectedNonSysExEndByte(b),
        F::UnexpectedDataByte => DecodeError::UnexpectedDataByte,
        F::UnexpectedStatusByte => DecodeError::UnexpectedStatusByte,
        F::NoteOutOfRange => DecodeError::NoteOutOfRange,
        F::DataByteOutOfRange => DecodeError::DataByteOutOfRange,
        F::U14OutOfRange => DecodeError::U14OutOfRange,
    }
}

fn min_len(s: u8) -> (r: usize)
    ensures
        r == min_frame_len(s),
{
    let class = s / 16;
    if class == 0x8 || class == 0x9 || class == 0xA || class == 0xB || class == 0xE || s == 0xF2 {
        3
    } else if class == 0xC || class == 0xD || s == 0xF0 || s == 0xF1 || s == 0xF3 {
        2
    } else {
        1
    }
}

/// Decodes one frame as delivered by the transport.
pub fn decode(frame: &[u8]) -> (r: Result<MidiEvent, DecodeError>)
    ensures
        r is Ok <==> frame_decode(frame@) is Ok,
        r matches Ok(e) ==> frame_decode(frame@) == Ok::<_, DecodeError>(e@),
        r matches Err(e) ==> frame_decode(frame@) == Err::<EventView, _>(e),
{
    let ev = match wmidi_decode(frame) {
        Ok(ev) => ev,
        Err(e) => return Err(e),
    };
    proof {
        lemma_first_status_bound(frame@, 1);
    }
    let too_long = match &ev {
        MidiEvent::SystemExclusive { payload } => frame.len() - 2 > payload.len(),
        _ => frame.len() > min_len(frame[0]),
    };
    if too_long {
        return Err(DecodeError::TooManyBytes);
    }
    match ev {
        MidiEvent::NoteOff { channel, note, velocity } => if frame[0] / 16 == 0x9 {
            Ok(MidiEvent::NoteOn { channel, note, velocity })
        } else {
            Ok(MidiEvent::NoteOff { channel, note, velocity })
        },
        ev => Ok(ev),
    }
}

/// A note-on frame `[0x90 | n, note, velocity]` decodes to a note-on on
/// channel `n` with that note and velocity, velocity 0 included.
pub proof fn lemma_note_on(channel: u8, note: u8, velocity: u8)
    requires
        channel < 16,
        note < 128,
        velocity < 128,
    ensures
        frame_decode(seq![(0x90 + channel) as u8, note, velocity])
            == Ok::<_, DecodeError>(EventView::NoteOn { channel, note, velocity }),
{
}

/// A pitch-bend frame `[0xE0 | n, lsb, msb]` decodes to the 14-bit value
/// `lsb | (msb << 7)`, which is 8192, the centre, for `lsb == 0` and `msb == 0x40`.
pub proof fn lemma_pitch_bend(channel: u8, lsb: u8, msb: u8)
    requires
        channel < 16,
        lsb < 128,
        msb < 128,
    ensures
        frame_decode(seq![(0xE0 + channel) as u8, lsb, msb]) == Ok::<_, DecodeError>(
            EventView::PitchBendChange { channel, value: (lsb as u16) | ((msb as u16) << 7u16) },
        ),
        combine14(lsb, msb) < 16384,
        lsb == 0 && msb == 0x40 ==> combine14(lsb, msb) == 8192,
{
    let l = lsb as u16;
    let m = msb as u16;
    assert(l < 128 && m < 128 ==> l | (m << 7u16) == l + 128 * m) by (bit_vector);
}

/// A frame shorter than its status byte's message needs is rejected.
pub proof fn lemma_short_frame_fails(f: Seq<u8>)
    requires
        f.len() >= 1,
        f.len() < min_frame_len(f[0]),
    ensures
        wire_decode(f) is Err,
        frame_decode(f) is Err,
{
    if f[0] == 0xF0 {
        assert(first_status_from(f, 1) == None::<int>);
    }
}

/// A frame of 0xF0, data bytes and 0xF7 decodes to a system-exclusive message
/// whose payload is the data bytes, without the delimiters.
pub proof fn lemma_sysex(payload: Seq<u8>)
    requires
        forall|i: int| 0 <= i < payload.len() ==> !is_status(#[trigger] payload[i]),
    ensures
        frame_decode(seq![0xF0u8] + payload + seq![0xF7u8])
            == Ok::<_, DecodeError>(EventView::SystemExclusive { payload }),
{
    let f = seq![0xF0u8] + payload + seq![0xF7u8];
    let end: int = payload.len() as int + 1;
    assert forall|i: int| 1 <= i <= end implies first_status_from(f, i) == Some(end) by {
        lemma_first_status_scan(f, i, end);
    }
    assert(f.subrange(1, end) =~= payload);
}

proof fn lemma_first_status_scan(f: Seq<u8>, i: int, end: int)
    requires
        1 <= i <= end < f.len(),
        is_status(f[end]),
        forall|j: int| i <= j < end ==> !is_status(#[trigger] f[j]),
    ensures
        first_status_from(f, i) == Some(end),
    decreases end - i,
{
    if i < end {
        lemma_first_status_scan(f, i + 1, end);
    }
}

} // verus!
