use vstd::prelude::*;
use vstd::string::StringExecFns;
use crate::report::{decimal, decimal_text};

verus! {

/// Classes of frames the transport may drop before they reach the decoder.
#[derive(Clone, Copy, Debug, PartialEq, Eq, Structural)]
pub enum IgnoreFilter {
    /// Nothing is dropped.
    Nothing,
    Sysex,
    Time,
    SysexAndTime,
    ActiveSense,
    SysexAndActiveSense,
    TimeAndActiveSense,
    All,
}

/// Why the operator's port choice could not be used.
#[derive(Clone, Copy, Debug, PartialEq, Eq, Structural)]
pub enum SelectionError {
    /// The line is not a number.
    Unparsable,
    /// No port has this index.
    InvalidIndex(usize),
}

/// White space as Unicode's `White_Space` property defines it.
pub open spec fn is_white_space(c: char) -> bool {
    ||| '\u{9}' <= c && c <= '\u{d}'
    ||| c == ' ' || c == '\u{85}' || c == '\u{a0}' || c == '\u{1680}'
    ||| '\u{2000}' <= c && c <= '\u{200a}'
    ||| c == '\u{2028}' || c == '\u{2029}' || c == '\u{202f}' || c == '\u{205f}'
    ||| c == '\u{3000}'
}

/// `s` without its leading white space.
pub open spec fn trim_start_text(s: Seq<char>) -> Seq<char>
    decreases s.len(),
{
    if s.len() > 0 && is_white_space(s[0]) {
        trim_start_text(s.drop_first())
    } else {
        s
    }
}

/// `s` without its trailing white space.
pub open spec fn trim_end_text(s: Seq<char>) -> Seq<char>
    decreases s.len(),
{
    if s.len() > 0 && is_white_space(s.last()) {
        trim_end_text(s.drop_last())
    } else {
        s
    }
}

/// `s` with leading and trailing white space removed.
pub open spec fn trimmed(s: Seq<char>) -> Seq<char> {
    trim_end_text(trim_start_text(s))
}

/// Relies on `str::trim`, which removes leading and trailing characters with
/// Unicode's `White_Space` property.
#[verifier::external_body]
fn trim(s: &str) -> (r: &str)
    ensures
        r@ == trimmed(s@),
{
    s.trim()
}

pub open spec fn is_decimal_digit(c: char) -> bool {
    '0' <= c && c <= '9'
}

/// The value of a run of decimal digits.
pub open spec fn digits_value(s: Seq<char>) -> nat
    decreases s.len(),
{
    if s.len() == 0 {
        0
    } else {
        digits_value(s.drop_last()) * 10 + (s.last() as u32 - '0' as u32) as nat
    }
}

/// What `usize`'s `FromStr` accepts: an optional `+`, then one or more decimal
/// digits whose value fits in a `usize`.
pub open spec fn usize_text(s: Seq<char>) -> Option<usize> {
    let d = if s.len() > 0 && s[0] == '+' { s.drop_first() } else { s };
    if d.len() > 0 && (forall|i: int| 0 <= i < d.len() ==> is_decimal_digit(#[trigger] d[i]))
        && digits_value(d) <= usize::MAX {
        Some(digits_value(d) as usize)
    } else {
        None
    }
}

/// Relies on `str::parse::<usize>`, which reads an optional `+` and decimal
/// digits and fails on anything else or on overflow.
#[verifier::external_body]
fn parse_usize(s: &str) -> (r: Option<usize>)
    ensures
        r == usize_text(s@),
{
    s.parse::<usize>().ok()
}

/// The filter for a menu choice: 1 to 8 in the order of the variants, and no
/// filter for anything else.
pub open spec fn ignore_for(choice: Option<usize>) -> IgnoreFilter {
    match choice {
        Some(1) => IgnoreFilter::Nothing,
        Some(2) => IgnoreFilter::Sysex,
        Some(3) => IgnoreFilter::Time,
        Some(4) => IgnoreFilter::SysexAndTime,
        Some(5) => IgnoreFilter::ActiveSense,
        Some(6) => IgnoreFilter::SysexAndActiveSense,
        Some(7) => IgnoreFilter::TimeAndActiveSense,
        Some(8) => IgnoreFilter::All,
        _ => IgnoreFilter::Nothing,
    }
}

/// The filter for a parsed menu choice; `None` stands for a line that was not a number.
pub fn ignore_from_choice(choice: Option<usize>) -> (r: IgnoreFilter)
    ensures
        r == ignore_for(choice),
        !(choice matches Some(n) && 1 <= n <= 8) ==> r == IgnoreFilter::Nothing,
{
    match choice {
        Some(1) => IgnoreFilter::Nothing,
        Some(2) => IgnoreFilter::Sysex,
        Some(3) => IgnoreFilter::Time,
        Some(4) => IgnoreFilter::SysexAndTime,
        Some(5) => IgnoreFilter::ActiveSense,
        Some(6) => IgnoreFilter::SysexAndActiveSense,
        Some(7) => IgnoreFilter::TimeAndActiveSense,
        Some(8) => IgnoreFilter::All,
        _ => IgnoreFilter::Nothing,
    }
}

/// The notice shown when the operator's choice falls back to no filter.
pub open spec fn fallback_notice(choice: Option<usize>) -> Option<Seq<char>> {
    match choice {
        Some(n) => if 1 <= n <= 8 {
            None
        } else {
            Some("Input out of range. Choosing None as default"@)
        },
        None => Some("Could not parse Input. Chosing None as default!"@),
    }
}

/// Reads the operator's ignore-filter choice from a line of input. A choice
/// outside the menu does not fail: it selects no filter and comes with a notice.
pub fn ignore_from_line(line: &str) -> (r: (IgnoreFilter, Option<String>))
    ensures
        r.0 == ignore_for(usize_text(trimmed(line@))),
        match (r.1, fallback_notice(usize_text(trimmed(line@)))) {
            (Some(m), Some(t)) => m@ == t,
            (None, None) => true,
            _ => false,
        },
{
    let choice = parse_usize(trim(line));
    let notice = match choice {
        Some(n) => if 1 <= n && n <= 8 {
            None
        } else {
            Some(String::from_str("Input out of range. Choosing None as default"))
        },
        None => Some(String::from_str("Could not parse Input. Chosing None as default!")),
    };
    (ignore_from_choice(choice), notice)
}

/// The port index the operator chose, given `available` ports.
pub open spec fn port_choice(line: Seq<char>, available: usize) -> Result<usize, SelectionError> {
    match usize_text(trimmed(line)) {
        None => Err(SelectionError::Unparsable),
        Some(n) => if n < available {
            Ok(n)
        } else {
            Err(SelectionError::InvalidIndex(n))
        },
    }
}

/// Reads a port index from a line of input and checks it against the number
/// of available ports.
pub fn select_port_index(line: &str, available: usize) -> (r: Result<usize, SelectionError>)
    ensures
        r == port_choice(line@, available),
{
    match parse_usize(trim(line)) {
        None => Err(SelectionError::Unparsable),
        Some(n) => if n < available {
            Ok(n)
        } else {
            Err(SelectionError::InvalidIndex(n))
        },
    }
}

/// The menu line for the port at `index`.
pub open spec fn port_line(index: int, name: Seq<char>) -> Seq<char> {
    decimal_text(index as nat) + ": "@ + name
}

/// Lists ports for the operator, one line each, numbered from 0.
pub fn port_menu(names: &Vec<String>) -> (r: Vec<String>)
    ensures
        r@.len() == names@.len(),
        forall|i: int| 0 <= i < r@.len() ==> #[trigger] r@[i]@ == port_line(i, names@[i]@),
{
    let mut lines: Vec<String> = Vec::new();
    let mut i: usize = 0;
    while i < names.len()
        invariant
            i <= names@.len(),
            lines@.len() == i,
            forall|j: int| 0 <= j < i ==> #[trigger] lines@[j]@ == port_line(j, names@[j]@),
        decreases names.len() - i,
    {
        let line = decimal(i as u64).concat(": ").concat(names[i].as_str());
        lines.push(line);
        i = i + 1;
    }
    lines
}

} // verus!
