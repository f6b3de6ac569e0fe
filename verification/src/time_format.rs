//! Rendering a number of seconds as minutes and seconds, `mm:ss`.

use vstd::prelude::*;

verus! {

/// The character that writes the decimal digit `d`.
pub open spec fn digit_char(d: nat) -> char
    recommends
        d < 10,
{
    (48 + d) as u8 as char
}

/// The decimal numeral of `n`, without leading zeros.
pub open spec fn decimal(n: nat) -> Seq<char>
    decreases n,
{
    if n < 10 {
        seq![digit_char(n)]
    } else {
        decimal(n / 10).push(digit_char(n % 10))
    }
}

/// The decimal numeral of `n`, with a leading zero where it has one digit only.
pub open spec fn two_digits(n: nat) -> Seq<char> {
    if n < 10 {
        seq!['0'] + decimal(n)
    } else {
        decimal(n)
    }
}

/// What `format_time` writes: the whole minutes, a colon, the seconds left over.
pub open spec fn time_text(seconds: nat) -> Seq<char> {
    two_digits(seconds / 60) + seq![':'] + two_digits(seconds % 60)
}

/// The number that a decimal digit character writes.
pub open spec fn digit_value(c: char) -> int {
    c as u8 as int - 48
}

/// The number of seconds that a text of the shape `mm:ss` stands for.
pub open spec fn clock_value(text: Seq<char>) -> int
    recommends
        text.len() == 5,
{
    (digit_value(text[0]) * 10 + digit_value(text[1])) * 60 + digit_value(text[3]) * 10
        + digit_value(text[4])
}

/// `String::push` of std: the character is added at the end.
#[verifier::external_body]
fn push_char(out: &mut String, c: char)
    ensures
        final(out)@ == old(out)@.push(c),
{
    out.push(c);
}

fn digit(d: u8) -> (c: char)
    requires
        d < 10,
    ensures
        c == digit_char(d as nat),
{
    (48 + d) as char
}

fn push_decimal(out: &mut String, n: u64)
    ensures
        final(out)@ == old(out)@ + decimal(n as nat),
    decreases n,
{
    if n >= 10 {
        push_decimal(out, n / 10);
    }
    push_char(out, digit((n % 10) as u8));
    proof {
        assert(out@ =~= old(out)@ + decimal(n as nat));
    }
}

fn push_two_digits(out: &mut String, n: u64)
    ensures
        final(out)@ == old(out)@ + two_digits(n as nat),
{
    if n < 10 {
        push_char(out, '0');
    }
    push_decimal(out, n);
    proof {
        assert(out@ =~= old(out)@ + two_digits(n as nat));
    }
}

/// Writes `seconds` as minutes and seconds, each with at least two digits.
pub fn format_time(seconds: u64) -> (text: String)
    ensures
        text@ == time_text(seconds as nat),
{
    let mut text = String::new();
    push_two_digits(&mut text, seconds / 60);
    push_char(&mut text, ':');
    push_two_digits(&mut text, seconds % 60);
    proof {
        assert(text@ =~= time_text(seconds as nat));
    }
    text
}

/// Under an hour the text has five characters, `mm:ss`, and reading its
/// digits back as minutes and seconds gives the number that was written.
pub proof fn lemma_format_time_round_trip(seconds: nat)
    requires
        seconds < 3600,
    ensures
        time_text(seconds).len() == 5,
        time_text(seconds) == seq![
            digit_char(seconds / 600),
            digit_char(seconds / 60 % 10),
            ':',
            digit_char(seconds % 60 / 10),
            digit_char(seconds % 60 % 10),
        ],
        clock_value(time_text(seconds)) == seconds,
{
    let m = seconds / 60;
    let s = seconds % 60;
    lemma_two_digits(m);
    lemma_two_digits(s);
    let text = seq![
        digit_char(m / 10),
        digit_char(m % 10),
        ':',
        digit_char(s / 10),
        digit_char(s % 10),
    ];
    assert(time_text(seconds) =~= text);
    lemma_digit_value(m / 10);
    lemma_digit_value(m % 10);
    lemma_digit_value(s / 10);
    lemma_digit_value(s % 10);
}

proof fn lemma_two_digits(n: nat)
    requires
        n < 100,
    ensures
        two_digits(n) == seq![digit_char(n / 10), digit_char(n % 10)],
{
    reveal_with_fuel(decimal, 3);
    assert(two_digits(n) =~= seq![digit_char(n / 10), digit_char(n % 10)]);
}

proof fn lemma_digit_value(d: nat)
    requires
        d < 10,
    ensures
        digit_value(digit_char(d)) == d,
{
}

} // verus!
