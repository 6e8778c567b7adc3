//! Handoff to the status display: button events and the text shown for
//! the latest reading.
use vstd::prelude::*;
use vstd::string::StringExecFns;
use crate::packet::EnvReading;

verus! {

/// Capacity, in bytes, of the text handed to the display.
pub const MESSAGE_CAPACITY: usize = 64;

/// Button events for the display task, in the order they were produced.
#[derive(Clone, Copy, Debug, PartialEq, Eq)]
pub enum Event {
    DisplayActivated,
    DisplayDeactivated,
}

/// The character of a decimal digit.
pub open spec fn digit_char(d: nat) -> char {
    if d == 0 {
        '0'
    } else if d == 1 {
        '1'
    } else if d == 2 {
        '2'
    } else if d == 3 {
        '3'
    } else if d == 4 {
        '4'
    } else if d == 5 {
        '5'
    } else if d == 6 {
        '6'
    } else if d == 7 {
        '7'
    } else if d == 8 {
        '8'
    } else {
        '9'
    }
}

/// The decimal notation of `n`, without leading zeros.
pub open spec fn decimal(n: nat) -> Seq<char>
    decreases n,
{
    if n < 10 {
        seq![digit_char(n)]
    } else {
        decimal(n / 10).push(digit_char(n % 10))
    }
}

/// The four lines shown for a reading: temperature, humidity, PM2.5, PM10.
pub open spec fn message_text(r: EnvReading) -> Seq<char> {
    seq!['T', 'e', 'm', 'p', ':', ' '] + decimal(r.temperature as nat) + seq!['F', '\n']
        + seq!['H', 'u', 'm', 'i', 'd', 'i', 't', 'y', ':', ' '] + decimal(r.humidity as nat)
        + seq!['%', '\n'] + seq!['A', 'Q', ' ', 'P', 'M', ' ', '2', '.', '5', ':', ' ']
        + decimal(r.aq_pm2_5 as nat) + seq!['\n']
        + seq!['A', 'Q', ' ', 'P', 'M', ' ', '1', '0', ':', ' '] + decimal(r.aq_pm10 as nat)
}

fn digit_str(d: u16) -> (s: &'static str)
    requires
        d < 10,
    ensures
        s@ == seq![digit_char(d as nat)],
{
    if d == 0 {
        proof { reveal_strlit("0"); }
        "0"
    } else if d == 1 {
        proof { reveal_strlit("1"); }
        "1"
    } else if d == 2 {
        proof { reveal_strlit("2"); }
        "2"
    } else if d == 3 {
        proof { reveal_strlit("3"); }
        "3"
    } else if d == 4 {
        proof { reveal_strlit("4"); }
        "4"
    } else if d == 5 {
        proof { reveal_strlit("5"); }
        "5"
    } else if d == 6 {
        proof { reveal_strlit("6"); }
        "6"
    } else if d == 7 {
        proof { reveal_strlit("7"); }
        "7"
    } else if d == 8 {
        proof { reveal_strlit("8"); }
        "8"
    } else {
        proof { reveal_strlit("9"); }
        "9"
    }
}

/// Appends the decimal notation of `n` to `s`.
pub fn push_decimal(s: &mut String, n: u16)
    ensures
        final(s)@ == old(s)@ + decimal(n as nat),
    decreases n,
{
    if n >= 10 {
        push_decimal(s, n / 10);
    }
    s.append(digit_str(n % 10));
    assert(s@ =~= old(s)@ + decimal(n as nat));
}

proof fn lemma_decimal_len(n: nat)
    ensures
        1 <= decimal(n).len(),
        n < 10 ==> decimal(n).len() == 1,
        n < 100 ==> decimal(n).len() <= 2,
        n < 1000 ==> decimal(n).len() <= 3,
        n < 10000 ==> decimal(n).len() <= 4,
        n < 100000 ==> decimal(n).len() <= 5,
    decreases n,
{
    if n >= 10 {
        lemma_decimal_len(n / 10);
    }
}

/// The text shown on the display for a reading; it always fits the
/// display's text capacity.
pub fn reading_message(r: &EnvReading) -> (m: String)
    ensures
        m@ == message_text(*r),
        m@.len() < MESSAGE_CAPACITY,
{
    let mut m = String::from_str("Temp: ");
    push_decimal(&mut m, r.temperature);
    m.append("F\nHumidity: ");
    push_decimal(&mut m, r.humidity);
    m.append("%\nAQ PM 2.5: ");
    push_decimal(&mut m, r.aq_pm2_5);
    m.append("\nAQ PM 10: ");
    push_decimal(&mut m, r.aq_pm10);
    proof {
        reveal_strlit("Temp: ");
        reveal_strlit("F\nHumidity: ");
        reveal_strlit("%\nAQ PM 2.5: ");
        reveal_strlit("\nAQ PM 10: ");
    }
    assert(m@ =~= message_text(*r));
    proof {
        lemma_decimal_len(r.temperature as nat);
        lemma_decimal_len(r.humidity as nat);
        lemma_decimal_len(r.aq_pm2_5 as nat);
        lemma_decimal_len(r.aq_pm10 as nat);
    }
    m
}

} // verus!
