use vstd::prelude::*;

verus! {

/// A decoded MIDI message.
///
/// Channels are indices 0..=15, notes and other 7-bit fields are 0..=127,
/// and a pitch bend is a 14-bit value with 8192 as its centre.
/// A system-exclusive payload holds the bytes between the 0xF0 and 0xF7
/// delimiters, without the delimiters.
#[allow(inconsistent_fields)]
#[derive(Clone, Debug, PartialEq, Eq)]
pub enum MidiEvent {
    NoteOff { channel: u8, note: u8, velocity: u8 },
    NoteOn { channel: u8, note: u8, velocity: u8 },
    PitchBendChange { channel: u8, value: u16 },
    ControlChange { channel: u8, function: u8, value: u8 },
    SystemExclusive { payload: Vec<u8> },
    TimingClock,
    /// A well-formed message of a kind this library does not interpret.
    Other,
}

/// Why a frame could not be decoded.
#[derive(Clone, Copy, Debug, PartialEq, Eq, Structural)]
pub enum DecodeError {
    ChannelOutOfRange,
    NoBytes,
    NoSysExEndByte,
    NotEnoughBytes,
    UnexpectedEndSysExByte,
    UnexpectedNonSysExEndByte(u8),
    UnexpectedDataByte,
    UnexpectedStatusByte,
    NoteOutOfRange,
    DataByteOutOfRange,
    U14OutOfRange,
    /// The frame holds bytes after the end of its message.
    TooManyBytes,
}

/// The mathematical value of an event: a system-exclusive payload as a sequence.
#[allow(inconsistent_fields)]
pub enum EventView {
    NoteOff { channel: u8, note: u8, velocity: u8 },
    NoteOn { channel: u8, note: u8, velocity: u8 },
    PitchBendChange { channel: u8, value: u16 },
    ControlChange { channel: u8, function: u8, value: u8 },
    SystemExclusive { payload: Seq<u8> },
    TimingClock,
    Other,
}

impl View for MidiEvent {
    type V = EventView;

    open spec fn view(&self) -> EventView {
        match self {
            MidiEvent::NoteOff { channel, note, velocity } => EventView::NoteOff {
                channel: *channel,
                note: *note,
                velocity: *velocity,
            },
            MidiEvent::NoteOn { channel, note, velocity } => EventView::NoteOn {
                channel: *channel,
                note: *note,
                velocity: *velocity,
            },
            MidiEvent::PitchBendChange { channel, value } => EventView::PitchBendChange {
                channel: *channel,
                value: *value,
            },
            MidiEvent::ControlChange { channel, function, value } => EventView::ControlChange {
                channel: *channel,
                function: *function,
                value: *value,
            },
            MidiEvent::SystemExclusive { payload } => EventView::SystemExclusive {
                payload: payload@,
            },
            MidiEvent::TimingClock => EventView::TimingClock,
            MidiEvent::Other => EventView::Other,
        }
    }
}

/// A status byte has its high bit set; a data byte has it clear.
pub open spec fn is_status(b: u8) -> bool {
    b >= 0x80
}

/// The data byte at index `i` of a frame, or why there is none.
pub open spec fn data_at(f: Seq<u8>, i: int) -> Result<u8, DecodeError> {
    if i >= f.len() {
        Err(DecodeError::NotEnoughBytes)
    } else if is_status(f[i]) {
        Err(DecodeError::UnexpectedStatusByte)
    } else {
        Ok(f[i])
    }
}

/// The first data byte, then the second: the first failure wins.
pub open spec fn data_pair(f: Seq<u8>) -> Result<(u8, u8), DecodeError> {
    match data_at(f, 1) {
        Err(e) => Err(e),
        Ok(a) => match data_at(f, 2) {
            Err(e) => Err(e),
            Ok(b) => Ok((a, b)),
        },
    }
}

/// The index of the first status byte at or after `i`, if any.
pub open spec fn first_status_from(f: Seq<u8>, i: int) -> Option<int>
    decreases f.len() - i,
{
    if i < 0 || i >= f.len() {
        None
    } else if is_status(f[i]) {
        Some(i)
    } else {
        first_status_from(f, i + 1)
    }
}

/// A system-exclusive frame: 0xF0, data bytes, and 0xF7 as the first status
/// byte after the start. Bytes after the end byte are not read.
pub open spec fn sysex_decode(f: Seq<u8>) -> Result<EventView, DecodeError> {
    match first_status_from(f, 1) {
        None => Err(DecodeError::NoSysExEndByte),
        Some(end) => if f[end] != 0xF7 {
            Err(DecodeError::UnexpectedNonSysExEndByte(f[end]))
        } else {
            Ok(EventView::SystemExclusive { payload: f.subrange(1, end) })
        },
    }
}

/// The 14-bit value whose low seven bits are `lsb` and high seven bits are `msb`.
pub open spec fn combine14(lsb: u8, msb: u8) -> u16 {
    (lsb + 128 * msb) as u16
}

/// How the start of a byte slice reads as a MIDI 1.0 message, the way
/// wmidi reads it.
///
/// Only the bytes the message needs are read: bytes after it are not looked at.
/// A note-on with velocity 0 reads as a note-off.
pub open spec fn wire_decode(f: Seq<u8>) -> Result<EventView, DecodeError> {
    if f.len() == 0 {
        Err(DecodeError::NoBytes)
    } else if !is_status(f[0]) {
        Err(DecodeError::UnexpectedDataByte)
    } else {
        let s = f[0];
        let channel = (s % 16) as u8;
        let class = s / 16;
        if class == 0x8 {
            match data_pair(f) {
                Err(e) => Err(e),
                Ok((n, v)) => Ok(EventView::NoteOff { channel, note: n, velocity: v }),
            }
        } else if class == 0x9 {
            match data_at(f, 2) {
                Err(e) => Err(e),
                Ok(v) => match data_at(f, 1) {
                    Err(e) => Err(e),
                    Ok(n) => if v == 0 {
                        Ok(EventView::NoteOff { channel, note: n, velocity: 0 })
                    } else {
                        Ok(EventView::NoteOn { channel, note: n, velocity: v })
                    },
                },
            }
        } else if class == 0xB {
            match data_pair(f) {
                Err(e) => Err(e),
                Ok((c, v)) => Ok(EventView::ControlChange { channel, function: c, value: v }),
            }
        } else if class == 0xE {
            match data_pair(f) {
                Err(e) => Err(e),
                Ok((l, m)) => Ok(EventView::PitchBendChange { channel, value: combine14(l, m) }),
            }
        } else if class == 0xA || s == 0xF2 {
            match data_pair(f) {
                Err(e) => Err(e),
                Ok(_) => Ok(EventView::Other),
            }
        } else if class == 0xC || class == 0xD || s == 0xF1 || s == 0xF3 {
            match data_at(f, 1) {
                Err(e) => Err(e),
                Ok(_) => Ok(EventView::Other),
            }
        } else if s == 0xF0 {
            sysex_decode(f)
        } else if s == 0xF7 {
            Err(DecodeError::UnexpectedEndSysExByte)
        } else if s == 0xF8 {
            Ok(EventView::TimingClock)
        } else {
            Ok(EventView::Other)
        }
    }
}

/// The number of bytes a message with status byte `s` needs.
pub open spec fn min_frame_len(s: u8) -> nat {
    let class = s / 16;
    if class == 0x8 || class == 0x9 || class == 0xA || class == 0xB || class == 0xE
        || s == 0xF2 {
        3
    } else if class == 0xC || class == 0xD || s == 0xF0 || s == 0xF1 || s == 0xF3 {
        2
    } else {
        1
    }
}

/// The length of the message that a frame starting with `s` decoded to.
pub open spec fn message_len(s: u8, v: EventView) -> nat {
    match v {
        EventView::SystemExclusive { payload } => payload.len() + 2,
        _ => min_frame_len(s),
    }
}

/// How a frame decodes: it holds exactly one message, and a note-on keeps
/// its velocity as encoded, 0 included.
pub open spec fn frame_decode(f: Seq<u8>) -> Result<EventView, DecodeError> {
    match wire_decode(f) {
        Err(e) => Err(e),
        Ok(v) => if f.len() > message_len(f[0], v) {
            Err(DecodeError::TooManyBytes)
        } else {
            match v {
                EventView::NoteOff { channel, note, velocity } => if f[0] / 16 == 0x9 {
                    Ok(EventView::NoteOn { channel, note, velocity })
                } else {
                    Ok(v)
                },
                _ => Ok(v),
            }
        },
    }
}

/// A status byte found by the scan lies at or after where it started.
pub proof fn lemma_first_status_bound(f: Seq<u8>, i: int)
    ensures
        first_status_from(f, i) matches Some(k) ==> 0 <= i <= k < f.len() && is_status(f[k]),
    decreases f.len() - i,
{
    if 0 <= i < f.len() && !is_status(f[i]) {
        lemma_first_status_bound(f, i + 1);
    }
}

} // verus!
