use vstd::prelude::*;
use vstd::string::StringExecFns;

verus! {

/// The character of decimal digit `d`.
pub open spec fn digit_char(d: int) -> char {
    if d == 0 {
        '0'
    } else if d == 1 {
        '1'
    } else if d == 2 {
        '2'
    } else if d == 3 {
        '3'
    } else if d == 4 {
        '4'
    } else if d == 5 {
        '5'
    } else if d == 6 {
        '6'
    } else if d == 7 {
        '7'
    } else if d == 8 {
        '8'
    } else {
        '9'
    }
}

/// `n` in decimal, without leading zeros.
pub open spec fn decimal(n: nat) -> Seq<char>
    decreases n,
{
    if n < 10 {
        seq![digit_char(n as int)]
    } else {
        decimal(n / 10).push(digit_char((n % 10) as int))
    }
}

/// `n`, below a hundred, as exactly two decimal digits.
pub open spec fn two_digits(n: nat) -> Seq<char> {
    seq![digit_char((n / 10) as int), digit_char((n % 10) as int)]
}

/// Play time as shown to the player: minutes, then seconds and hundredths
/// of a second on two digits each, as in `2:05.37`.
pub open spec fn game_time_text(ms: nat) -> Seq<char> {
    decimal(ms / 60000) + seq![':'] + two_digits((ms / 1000) % 60) + seq!['.'] + two_digits(
        (ms % 1000) / 10,
    )
}

/// The one-character text of digit `d`.
fn digit_str(d: u64) -> (r: &'static str)
    requires
        d < 10,
    ensures
        r@ == seq![digit_char(d as int)],
{
    proof {
        reveal_strlit("0");
        reveal_strlit("1");
        reveal_strlit("2");
        reveal_strlit("3");
        reveal_strlit("4");
        reveal_strlit("5");
        reveal_strlit("6");
        reveal_strlit("7");
        reveal_strlit("8");
        reveal_strlit("9");
    }
    match d {
        0 => "0",
        1 => "1",
        2 => "2",
        3 => "3",
        4 => "4",
        5 => "5",
        6 => "6",
        7 => "7",
        8 => "8",
        _ => "9",
    }
}

/// Appends `n` in decimal.
fn push_decimal(s: &mut String, n: u64)
    ensures
        final(s)@ == old(s)@ + decimal(n as nat),
    decreases n,
{
    if n >= 10 {
        push_decimal(s, n / 10);
    }
    s.append(digit_str(n % 10));
    assert(final(s)@ =~= old(s)@ + decimal(n as nat));
}

/// Appends `n`, below a hundred, as two digits.
fn push_two_digits(s: &mut String, n: u64)
    requires
        n < 100,
    ensures
        final(s)@ == old(s)@ + two_digits(n as nat),
{
    s.append(digit_str(n / 10));
    s.append(digit_str(n % 10));
    assert(final(s)@ =~= old(s)@ + two_digits(n as nat));
}

/// Play time of `elapsed_ms` milliseconds as shown to the player: minutes,
/// then seconds and hundredths on two digits each (`2:05.37`).
pub fn format_game_time(elapsed_ms: u64) -> (r: String)
    ensures
        r@ == game_time_text(elapsed_ms as nat),
{
    let mut s = String::new();
    push_decimal(&mut s, elapsed_ms / 60000);
    proof {
        reveal_strlit(":");
        reveal_strlit(".");
    }
    s.append(":");
    push_two_digits(&mut s, (elapsed_ms / 1000) % 60);
    s.append(".");
    push_two_digits(&mut s, (elapsed_ms % 1000) / 10);
    assert(s@ =~= game_time_text(elapsed_ms as nat));
    s
}

} // verus!
