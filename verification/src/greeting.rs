//! The greeting command.
//!
//! `greet` returns a fixed-format greeting that embeds the number of
//! milliseconds since the UNIX epoch at the moment of the call. The
//! decimal rendering of the timestamp is verified; the clock reading
//! itself comes from the host and nothing can be promised of it.

use vstd::prelude::*;
use vstd::string::StringExecFns;

verus! {

/// The character for a single decimal digit value.
pub open spec fn digit_char(d: nat) -> char {
    if d == 0 {
        '0'
    } else if d == 1 {
        '1'
    } else if d == 2 {
        '2'
    } else if d == 3 {
        '3'
    } else if d == 4 {
        '4'
    } else if d == 5 {
        '5'
    } else if d == 6 {
        '6'
    } else if d == 7 {
        '7'
    } else if d == 8 {
        '8'
    } else {
        '9'
    }
}

/// The decimal rendering of a number, most significant digit first, with
/// no leading zeros (a lone zero for zero itself).
pub open spec fn dec_digits(n: nat) -> Seq<char>
    decreases n,
{
    if n < 10 {
        seq![digit_char(n)]
    } else {
        dec_digits(n / 10) + seq![digit_char(n % 10)]
    }
}

/// The numeric value a digit sequence denotes, most significant first.
pub open spec fn dec_value(s: Seq<char>) -> nat
    decreases s.len(),
{
    if s.len() == 0 {
        0
    } else {
        dec_value(s.drop_last()) * 10 + char_digit(s.last())
    }
}

/// The digit value of a decimal digit character.
pub open spec fn char_digit(c: char) -> nat {
    if c == '0' {
        0
    } else if c == '1' {
        1
    } else if c == '2' {
        2
    } else if c == '3' {
        3
    } else if c == '4' {
        4
    } else if c == '5' {
        5
    } else if c == '6' {
        6
    } else if c == '7' {
        7
    } else if c == '8' {
        8
    } else {
        9
    }
}

/// Rendering a number and reading the digits back returns the number: the
/// decimal rendering embeds its value exactly.
pub proof fn lemma_dec_digits_value(n: nat)
    ensures
        dec_value(dec_digits(n)) == n,
    decreases n,
{
    if n < 10 {
        let s = dec_digits(n);
        assert(s == seq![digit_char(n)]);
        assert(s.drop_last() =~= Seq::<char>::empty());
        assert(dec_value(s.drop_last()) == 0);
        assert(s.last() == digit_char(n));
        assert(dec_value(s) == 0 * 10 + char_digit(digit_char(n)));
        assert(char_digit(digit_char(n)) == n);
    } else {
        lemma_dec_digits_value(n / 10);
        let s = dec_digits(n);
        assert(s == dec_digits(n / 10) + seq![digit_char(n % 10)]);
        assert(s.drop_last() =~= dec_digits(n / 10));
        assert(dec_value(s.drop_last()) == n / 10);
        assert(s.last() == digit_char(n % 10));
        assert(char_digit(s.last()) == n % 10);
        assert(dec_value(s) == dec_value(s.drop_last()) * 10 + char_digit(s.last()));
        assert(dec_value(s) == (n / 10) * 10 + n % 10);
        assert((n / 10) * 10 + n % 10 == n) by (nonlinear_arith);
    }
}

/// A one-character string slice for a digit value below ten.
fn digit_str(d: u64) -> (r: &'static str)
    requires
        d < 10,
    ensures
        r@ =~= seq![digit_char(d as nat)],
{
    proof {
        reveal_strlit("0");
        reveal_strlit("1");
        reveal_strlit("2");
        reveal_strlit("3");
        reveal_strlit("4");
        reveal_strlit("5");
        reveal_strlit("6");
        reveal_strlit("7");
        reveal_strlit("8");
        reveal_strlit("9");
    }
    if d == 0 {
        "0"
    } else if d == 1 {
        "1"
    } else if d == 2 {
        "2"
    } else if d == 3 {
        "3"
    } else if d == 4 {
        "4"
    } else if d == 5 {
        "5"
    } else if d == 6 {
        "6"
    } else if d == 7 {
        "7"
    } else if d == 8 {
        "8"
    } else {
        "9"
    }
}

/// Appends the decimal rendering of `n` to `s`.
fn push_decimal(s: &mut String, n: u64)
    ensures
        final(s)@ == old(s)@ + dec_digits(n as nat),
    decreases n,
{
    if n >= 10 {
        push_decimal(s, n / 10);
        s.append(digit_str(n % 10));
        proof {
            assert(dec_digits(n as nat) == dec_digits(n as nat / 10) + seq![
                digit_char(n as nat % 10),
            ]);
            assert(final(s)@ =~= old(s)@ + dec_digits(n as nat));
        }
    } else {
        s.append(digit_str(n));
        proof {
            assert(dec_digits(n as nat) == seq![digit_char(n as nat)]);
            assert(final(s)@ =~= old(s)@ + dec_digits(n as nat));
        }
    }
}

/// The greeting text for a clock reading of `epoch_ms` milliseconds.
pub open spec fn spec_greeting(epoch_ms: nat) -> Seq<char> {
    "\u{4f60}\u{597d} : "@ + dec_digits(epoch_ms)
}

/// The timestamp a greeting embeds: the value of the digits after the
/// fixed prefix.
pub open spec fn greeting_timestamp(s: Seq<char>) -> nat {
    dec_value(s.skip("\u{4f60}\u{597d} : "@.len() as int))
}

/// Builds the greeting for a given clock reading.
pub fn greeting_message(epoch_ms: u64) -> (r: String)
    ensures
        r@ == spec_greeting(epoch_ms as nat),
{
    let mut s = String::from_str("\u{4f60}\u{597d} : ");
    push_decimal(&mut s, epoch_ms);
    s
}

/// Law: the greeting embeds its clock reading exactly, so greetings built
/// from strictly increasing clock readings carry strictly increasing
/// embedded timestamps.
pub proof fn lemma_greeting_timestamps_increase(t1: nat, t2: nat)
    requires
        t1 < t2,
    ensures
        greeting_timestamp(spec_greeting(t1)) == t1,
        greeting_timestamp(spec_greeting(t2)) == t2,
        greeting_timestamp(spec_greeting(t1)) < greeting_timestamp(spec_greeting(t2)),
{
    let prefix = "\u{4f60}\u{597d} : "@;
    assert(spec_greeting(t1).skip(prefix.len() as int) =~= dec_digits(t1));
    assert(spec_greeting(t2).skip(prefix.len() as int) =~= dec_digits(t2));
    lemma_dec_digits_value(t1);
    lemma_dec_digits_value(t2);
}

/// Relies on std::time::SystemTime::now and duration_since(UNIX_EPOCH):
/// the milliseconds elapsed since the UNIX epoch, zero should the host
/// clock stand before the epoch. The reading depends on the moment of the
/// call, so nothing is promised of it.
#[verifier::external_body]
fn now_epoch_millis() -> u64 {
    std::time::SystemTime::now().duration_since(std::time::UNIX_EPOCH).map(
        |d| d.as_millis() as u64,
    ).unwrap_or(0)
}

/// The greeting command: a fixed-format greeting embedding the host clock
/// reading, in milliseconds since the UNIX epoch, at the moment of the
/// call.
pub fn greet() -> (r: String)
    ensures
        exists|t: u64| r@ == spec_greeting(t as nat),
{
    let t = now_epoch_millis();
    let r = greeting_message(t);
    proof {
        assert(r@ == spec_greeting(t as nat));
    }
    r
}

} // verus!
