use vstd::prelude::*;
use vstd::string::StringExecFns;
use crate::decode::decode;
use crate::event::{frame_decode, DecodeError, EventView, MidiEvent};

verus! {

/// The character of a decimal digit.
pub open spec fn digit_char(d: nat) -> char {
    if d == 0 { '0' } else if d == 1 { '1' } else if d == 2 { '2' } else if d == 3 { '3' }
    else if d == 4 { '4' } else if d == 5 { '5' } else if d == 6 { '6' } else if d == 7 { '7' }
    else if d == 8 { '8' } else { '9' }
}

/// The decimal notation of `n`, without leading zeros.
pub open spec fn decimal_text(n: nat) -> Seq<char>
    decreases n,
{
    if n < 10 {
        seq![digit_char(n)]
    } else {
        decimal_text(n / 10) + seq![digit_char(n % 10)]
    }
}

/// The bytes of a payload in decimal, separated by ", ".
pub open spec fn list_text(p: Seq<u8>) -> Seq<char>
    decreases p.len(),
{
    if p.len() == 0 {
        Seq::empty()
    } else if p.len() == 1 {
        decimal_text(p[0] as nat)
    } else {
        list_text(p.drop_last()) + ", "@ + decimal_text(p.last() as nat)
    }
}

/// How a channel index is shown: channels are numbered from 1.
pub open spec fn channel_text(channel: u8) -> Seq<char> {
    "Ch"@ + decimal_text(channel as nat + 1)
}

/// The name of a pitch class, 0 being C.
pub open spec fn pitch_class_name(p: nat) -> Seq<char> {
    if p == 0 { "C"@ } else if p == 1 { "C#/Db"@ } else if p == 2 { "D"@ }
    else if p == 3 { "D#/Eb"@ } else if p == 4 { "E"@ } else if p == 5 { "F"@ }
    else if p == 6 { "F#/Gb"@ } else if p == 7 { "G"@ } else if p == 8 { "G#/Ab"@ }
    else if p == 9 { "A"@ } else if p == 10 { "A#/Bb"@ } else { "B"@ }
}

/// The name of a note number, such as `C4` for 60 and `C-1` for 0: the pitch
/// class, then the octave `n / 12 - 1`. Only the low seven bits are read.
pub open spec fn note_name_of(note: u8) -> Seq<char> {
    let n = (note % 128) as nat;
    pitch_class_name(n % 12) + if n / 12 == 0 {
        "-1"@
    } else {
        decimal_text((n / 12 - 1) as nat)
    }
}

/// Relies on `wmidi::Note::from_u8_lossy`, which keeps the low seven bits, and
/// `wmidi::Note::to_str`, which names the note by pitch class and octave.
#[verifier::external_body]
fn note_name(note: u8) -> (r: &'static str)
    ensures
        r@ == note_name_of(note),
{
    wmidi::Note::from_u8_lossy(note).to_str()
}

/// The field line of a note-on, given the note's name.
pub open spec fn note_on_text(channel: u8, note: u8, velocity: u8, name: Seq<char>) -> Seq<
    char,
> {
    "Channel: "@ + channel_text(channel) + " | Note: "@ + name + "("@ + decimal_text(note as nat)
        + ")"@ + " | Velocity: "@ + decimal_text(velocity as nat)
}

/// Renders the field line of a note-on whose note is called `name`.
pub fn note_on_line(channel: u8, note: u8, velocity: u8, name: &str) -> (r: String)
    ensures
        r@ == note_on_text(channel, note, velocity, name@),
{
    String::from_str("Channel: ").concat(channel_string(channel).as_str()).concat(
        " | Note: ",
    ).concat(name).concat("(").concat(decimal(note as u64).as_str()).concat(")").concat(
        " | Velocity: ",
    ).concat(decimal(velocity as u64).as_str())
}

/// The lines that report an event: a heading, then its fields.
pub open spec fn summary(e: EventView) -> Seq<Seq<char>> {
    match e {
        EventView::NoteOff { .. } => seq!["Note off:"@],
        EventView::NoteOn { channel, note, velocity } => seq![
            "Note on:"@,
            note_on_text(channel, note, velocity, note_name_of(note)),
        ],
        EventView::PitchBendChange { channel, value } => seq![
            "Pitch Bend Change:"@,
            "Channel: "@ + channel_text(channel) + " | Value: "@ + decimal_text(value as nat),
        ],
        EventView::ControlChange { channel, function, value } => seq![
            "Control Change:"@,
            "Channel: "@ + channel_text(channel) + " | Function: "@ + decimal_text(
                function as nat,
            ) + " | Value: "@ + decimal_text(value as nat),
        ],
        EventView::SystemExclusive { payload } => seq![
            "System Exclusive Message: ["@ + list_text(payload) + "]"@,
        ],
        EventView::TimingClock => seq!["CLOCK"@],
        EventView::Other => seq!["Placeholder..."@],
    }
}

fn digit(d: u64) -> (r: &'static str)
    requires
        d < 10,
    ensures
        r@ == seq![digit_char(d as nat)],
{
    proof {
        reveal_strlit("0");
        reveal_strlit("1");
        reveal_strlit("2");
        reveal_strlit("3");
        reveal_strlit("4");
        reveal_strlit("5");
        reveal_strlit("6");
        reveal_strlit("7");
        reveal_strlit("8");
        reveal_strlit("9");
    }
    match d {
        0 => "0",
        1 => "1",
        2 => "2",
        3 => "3",
        4 => "4",
        5 => "5",
        6 => "6",
        7 => "7",
        8 => "8",
        _ => "9",
    }
}

/// Renders `n` in decimal.
pub fn decimal(n: u64) -> (r: String)
    ensures
        r@ == decimal_text(n as nat),
    decreases n,
{
    if n < 10 {
        String::from_str(digit(n))
    } else {
        decimal(n / 10).concat(digit(n % 10))
    }
}

fn channel_string(channel: u8) -> (r: String)
    ensures
        r@ == channel_text(channel),
{
    String::from_str("Ch").concat(decimal(channel as u64 + 1).as_str())
}

fn list_string(p: &Vec<u8>) -> (r: String)
    ensures
        r@ == list_text(p@),
{
    let mut s = String::new();
    let mut i: usize = 0;
    while i < p.len()
        invariant
            i <= p.len(),
            s@ == list_text(p@.subrange(0, i as int)),
        decreases p.len() - i,
    {
        proof {
            let sub = p@.subrange(0, i as int + 1);
            assert(sub.drop_last() =~= p@.subrange(0, i as int));
        }
        if i > 0 {
            s = s.concat(", ");
        }
        s = s.concat(decimal(p[i] as u64).as_str());
        i = i + 1;
    }
    assert(p@.subrange(0, p.len() as int) =~= p@);
    s
}

/// Reports an event as human-readable lines, one heading and one line of fields.
pub fn describe(e: &MidiEvent) -> (r: Vec<String>)
    ensures
        r@.len() == summary(e@).len(),
        forall|i: int| 0 <= i < r@.len() ==> #[trigger] r@[i]@ == summary(e@)[i],
{
    let mut lines: Vec<String> = Vec::new();
    match e {
        MidiEvent::NoteOff { .. } => {
            lines.push(String::from_str("Note off:"));
        },
        MidiEvent::NoteOn { channel, note, velocity } => {
            lines.push(String::from_str("Note on:"));
            lines.push(note_on_line(*channel, *note, *velocity, note_name(*note)));
        },
        MidiEvent::PitchBendChange { channel, value } => {
            lines.push(String::from_str("Pitch Bend Change:"));
            lines.push(
                String::from_str("Channel: ").concat(channel_string(*channel).as_str()).concat(
                    " | Value: ",
                ).concat(decimal(*value as u64).as_str()),
            );
        },
        MidiEvent::ControlChange { channel, function, value } => {
            lines.push(String::from_str("Control Change:"));
            lines.push(
                String::from_str("Channel: ").concat(channel_string(*channel).as_str()).concat(
                    " | Function: ",
                ).concat(decimal(*function as u64).as_str()).concat(" | Value: ").concat(
                    decimal(*value as u64).as_str(),
                ),
            );
        },
        MidiEvent::SystemExclusive { payload } => {
            lines.push(
                String::from_str("System Exclusive Message: [").concat(
                    list_string(payload).as_str(),
                ).concat("]"),
            );
        },
        MidiEvent::TimingClock => {
            lines.push(String::from_str("CLOCK"));
        },
        MidiEvent::Other => {
            lines.push(String::from_str("Placeholder..."));
        },
    }
    lines
}

/// Decodes a frame and reports it, or says why it could not be decoded.
pub fn report_frame(frame: &[u8]) -> (r: Result<Vec<String>, DecodeError>)
    ensures
        r is Ok <==> frame_decode(frame@) is Ok,
        r matches Ok(lines) ==> frame_decode(frame@) matches Ok(v) && lines@.len() == summary(
            v,
        ).len() && forall|i: int| 0 <= i < lines@.len() ==> #[trigger] lines@[i]@ == summary(v)[i],
        r matches Err(e) ==> frame_decode(frame@) == Err::<EventView, _>(e),
{
    match decode(frame) {
        Ok(e) => Ok(describe(&e)),
        Err(e) => Err(e),
    }
}

} // verus!
