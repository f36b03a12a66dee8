use vstd::prelude::*;
use crate::position::{Date, Time};

verus! {

pub open spec fn digit(n: nat) -> char {
    seq!['0', '1', '2', '3', '4', '5', '6', '7', '8', '9'][(n % 10) as int]
}

/// `n` in decimal with exactly `w` digits (the lowest `w` of it).
pub open spec fn digits(n: nat, w: nat) -> Seq<char>
    decreases w,
{
    if w == 0 {
        seq![]
    } else {
        digits(n / 10, (w - 1) as nat).push(digit(n))
    }
}

/// `hh<sep>mm<sep>ss<frac>mmm`: a time of day to the millisecond.
pub open spec fn clock_text(h: nat, m: nat, s: nat, ms: nat, sep: char, frac: char) -> Seq<char> {
    digits(h, 2) + seq![sep] + digits(m, 2) + seq![sep] + digits(s, 2) + seq![frac] + digits(
        ms,
        3,
    )
}

/// `dd<sep>mm<sep>yyyy`.
pub open spec fn date_text(day: nat, month: nat, year: nat, sep: char) -> Seq<char> {
    digits(day, 2) + seq![sep] + digits(month, 2) + seq![sep] + digits(year, 4)
}

/// Nanoseconds in one second.
pub const NANOS_PER_SEC: u64 = 1_000_000_000;

/// Nanoseconds in one millisecond.
pub const NANOS_PER_MILLI: u64 = 1_000_000;

/// Seconds in one day.
pub const SECS_PER_DAY: u64 = 86_400;

/// The text of a duration of `nanos` nanoseconds as a time of day
/// `HH:MM:SS.mmm`, milliseconds truncated; none from one day on.
pub open spec fn duration_text(nanos: u64) -> Option<Seq<char>> {
    let secs = nanos / NANOS_PER_SEC;
    if secs >= SECS_PER_DAY {
        None
    } else {
        Some(
            clock_text(
                (secs / 3600) as nat,
                (secs % 3600 / 60) as nat,
                (secs % 60) as nat,
                (nanos % NANOS_PER_SEC / NANOS_PER_MILLI) as nat,
                ':',
                '.',
            ),
        )
    }
}

/// Relies on `String::push`: appends one character.
#[verifier::external_body]
pub(crate) fn push_char(s: &mut String, c: char)
    ensures
        final(s)@ == old(s)@.push(c),
{
    s.push(c)
}

fn digit_char(n: u64) -> (c: char)
    ensures
        c == digit(n as nat),
{
    let d = n % 10;
    if d == 0 {
        '0'
    } else if d == 1 {
        '1'
    } else if d == 2 {
        '2'
    } else if d == 3 {
        '3'
    } else if d == 4 {
        '4'
    } else if d == 5 {
        '5'
    } else if d == 6 {
        '6'
    } else if d == 7 {
        '7'
    } else if d == 8 {
        '8'
    } else {
        '9'
    }
}

/// Appends the lowest `w` decimal digits of `n`.
pub fn push_digits(s: &mut String, n: u64, w: u64)
    requires
        w <= 20,
    ensures
        final(s)@ == old(s)@ + digits(n as nat, w as nat),
    decreases w,
{
    if w == 0 {
        proof {
            assert(old(s)@ + digits(n as nat, 0) =~= old(s)@);
        }
        return;
    }
    push_digits(s, n / 10, w - 1);
    push_char(s, digit_char(n));
    proof {
        assert(final(s)@ =~= old(s)@ + digits(n as nat, w as nat));
    }
}

/// Appends `hh<sep>mm<sep>ss<frac>mmm`.
pub fn push_clock(s: &mut String, h: u64, m: u64, sec: u64, ms: u64, sep: char, frac: char)
    ensures
        final(s)@ == old(s)@ + clock_text(h as nat, m as nat, sec as nat, ms as nat, sep, frac),
{
    push_digits(s, h, 2);
    push_char(s, sep);
    push_digits(s, m, 2);
    push_char(s, sep);
    push_digits(s, sec, 2);
    push_char(s, frac);
    push_digits(s, ms, 3);
    proof {
        assert(final(s)@ =~= old(s)@ + clock_text(
            h as nat,
            m as nat,
            sec as nat,
            ms as nat,
            sep,
            frac,
        ));
    }
}

/// Appends `dd<sep>mm<sep>yyyy`.
pub fn push_date(s: &mut String, day: u64, month: u64, year: u64, sep: char)
    ensures
        final(s)@ == old(s)@ + date_text(day as nat, month as nat, year as nat, sep),
{
    push_digits(s, day, 2);
    push_char(s, sep);
    push_digits(s, month, 2);
    push_char(s, sep);
    push_digits(s, year, 4);
    proof {
        assert(final(s)@ =~= old(s)@ + date_text(day as nat, month as nat, year as nat, sep));
    }
}

/// Writes a duration as `HH:MM:SS.mmm`, milliseconds truncated. A duration
/// of a day or more has no such text.
pub fn duration_to_string(nanos: u64) -> (r: Option<String>)
    ensures
        r matches Some(t) ==> duration_text(nanos) == Some(t@),
        r is None <==> duration_text(nanos) is None,
{
    let secs = nanos / NANOS_PER_SEC;
    if secs >= SECS_PER_DAY {
        return None;
    }
    let mut s = String::new();
    push_clock(
        &mut s,
        secs / 3600,
        secs % 3600 / 60,
        secs % 60,
        nanos % NANOS_PER_SEC / NANOS_PER_MILLI,
        ':',
        '.',
    );
    proof {
        assert(s@ =~= duration_text(nanos)->Some_0);
    }
    Some(s)
}

/// A time of day as `HH:MM:SS.mmm`, milliseconds truncated.
pub fn time_to_text(t: &Time) -> (r: String)
    ensures
        r@ == clock_text(
            t.hour as nat,
            t.minute as nat,
            t.second as nat,
            (t.nano / 1_000_000) as nat,
            ':',
            '.',
        ),
{
    let mut s = String::new();
    push_clock(
        &mut s,
        t.hour as u64,
        t.minute as u64,
        t.second as u64,
        t.nano as u64 / NANOS_PER_MILLI,
        ':',
        '.',
    );
    proof {
        assert(s@ =~= clock_text(
            t.hour as nat,
            t.minute as nat,
            t.second as nat,
            (t.nano / 1_000_000) as nat,
            ':',
            '.',
        ));
    }
    s
}

/// A date as `DD.MM.YYYY`.
pub fn date_to_text(d: &Date) -> (r: String)
    ensures
        r@ == date_text(d.day as nat, d.month as nat, d.year as nat, '.'),
{
    let mut s = String::new();
    push_date(&mut s, d.day as u64, d.month as u64, d.year as u64, '.');
    proof {
        assert(s@ =~= date_text(d.day as nat, d.month as nat, d.year as nat, '.'));
    }
    s
}

pub open spec fn is_digit(c: char) -> bool {
    '0' <= c <= '9'
}

pub open spec fn digit_value(c: char) -> nat {
    (c as u32 - '0' as u32) as nat
}

/// The number written by the digits `s[from..from + w]`.
pub open spec fn number_at(s: Seq<char>, from: int, w: nat) -> nat
    decreases w,
{
    if w == 0 {
        0
    } else {
        number_at(s, from, (w - 1) as nat) * 10 + digit_value(s[from + w - 1])
    }
}

pub open spec fn all_digits(s: Seq<char>, from: int, w: nat) -> bool {
    forall|i: int| from <= i < from + w ==> #[trigger] is_digit(s[i])
}

/// `s` has the shape `dd:dd:dd.ddd` with hours below 24 and minutes and
/// seconds below 60.
pub open spec fn is_duration_text(s: Seq<char>) -> bool {
    &&& s.len() == 12
    &&& all_digits(s, 0, 2) && all_digits(s, 3, 2) && all_digits(s, 6, 2) && all_digits(s, 9, 3)
    &&& s[2] == ':' && s[5] == ':' && s[8] == '.'
    &&& number_at(s, 0, 2) < 24 && number_at(s, 3, 2) < 60 && number_at(s, 6, 2) < 60
}

/// The nanoseconds that a text `HH:MM:SS.mmm` stands for.
pub open spec fn duration_value(s: Seq<char>) -> nat {
    ((number_at(s, 0, 2) * 3600 + number_at(s, 3, 2) * 60 + number_at(s, 6, 2)) * 1000
        + number_at(s, 9, 3)) * 1_000_000
}

fn read_number(s: &str, from: usize, w: usize) -> (r: Option<u64>)
    requires
        from + w <= s@.len(),
        from <= 12,
        w <= 4,
    ensures
        r is Some <==> all_digits(s@, from as int, w as nat),
        r matches Some(v) ==> v == number_at(s@, from as int, w as nat),
        r matches Some(v) ==> v < 10000,
{
    let mut v: u64 = 0;
    let mut i: usize = 0;
    while i < w
        invariant
            i <= w <= 4,
            from + w <= s@.len(),
            from <= 12,
            all_digits(s@, from as int, i as nat),
            v == number_at(s@, from as int, i as nat),
            v < 10000,
            v < pow10(i as nat),
        decreases w - i,
    {
        let c = s.get_char(from + i);
        if !('0' <= c && c <= '9') {
            proof {
                assert(!is_digit(s@[from + i]));
            }
            return None;
        }
        let d = (c as u32 - '0' as u32) as u64;
        proof {
            assert(pow10((i + 1) as nat) == pow10(i as nat) * 10);
            assert(pow10(i as nat) <= 1000) by {
                assert(pow10(0) == 1);
                assert(pow10(1) == 10);
                assert(pow10(2) == 100);
                assert(pow10(3) == 1000);
            }
            assert(v * 10 + d < pow10((i + 1) as nat)) by (nonlinear_arith)
                requires
                    v < pow10(i as nat),
                    d < 10,
                    pow10((i + 1) as nat) == pow10(i as nat) * 10,
            ;
        }
        v = v * 10 + d;
        i = i + 1;
    }
    Some(v)
}

pub open spec fn pow10(n: nat) -> nat
    decreases n,
{
    if n == 0 {
        1
    } else {
        pow10((n - 1) as nat) * 10
    }
}

/// Reads a duration written as `HH:MM:SS.mmm`; none for any other text.
pub fn parse_duration(s: &str) -> (r: Option<u64>)
    ensures
        r is Some <==> is_duration_text(s@),
        r matches Some(v) ==> v == duration_value(s@),
{
    if s.unicode_len() != 12 {
        return None;
    }
    if s.get_char(2) != ':' || s.get_char(5) != ':' || s.get_char(8) != '.' {
        return None;
    }
    let h = read_number(s, 0, 2);
    let m = read_number(s, 3, 2);
    let sec = read_number(s, 6, 2);
    let ms = read_number(s, 9, 3);
    match (h, m, sec, ms) {
        (Some(h), Some(m), Some(sec), Some(ms)) => {
            if h >= 24 || m >= 60 || sec >= 60 {
                return None;
            }
            Some(((h * 3600 + m * 60 + sec) * 1000 + ms) * NANOS_PER_MILLI)
        },
        _ => None,
    }
}

/// Reads a time of day written as `HH:MM:SS.mmm`; none for any other text.
pub fn parse_time(s: &str) -> (r: Option<Time>)
    ensures
        r is Some <==> is_duration_text(s@),
        r matches Some(t) ==> {
            &&& t.valid()
            &&& t.hour == number_at(s@, 0, 2)
            &&& t.minute == number_at(s@, 3, 2)
            &&& t.second == number_at(s@, 6, 2)
            &&& t.nano == number_at(s@, 9, 3) * 1_000_000
        },
{
    match parse_duration(s) {
        None => None,
        Some(_) => {
            let h = read_number(s, 0, 2);
            let m = read_number(s, 3, 2);
            let sec = read_number(s, 6, 2);
            let ms = read_number(s, 9, 3);
            match (h, m, sec, ms) {
                (Some(h), Some(m), Some(sec), Some(ms)) => {
                    proof {
                        assert(ms < 1000) by {
                            assert(all_digits(s@, 9, 3));
                            lemma_number_below(s@, 9, 3);
                            assert(pow10(3) == 1000) by {
                                assert(pow10(0) == 1);
                                assert(pow10(1) == 10);
                                assert(pow10(2) == 100);
                            }
                        }
                    }
                    Some(
                        Time {
                            hour: h as u8,
                            minute: m as u8,
                            second: sec as u8,
                            nano: (ms * 1_000_000) as u32,
                        },
                    )
                },
                _ => None,
            }
        },
    }
}

proof fn lemma_number_below(s: Seq<char>, from: int, w: nat)
    requires
        0 <= from,
        from + w <= s.len(),
        all_digits(s, from, w),
    ensures
        number_at(s, from, w) < pow10(w),
    decreases w,
{
    if w > 0 {
        lemma_number_below(s, from, (w - 1) as nat);
        let c = s[from + w - 1];
        assert(is_digit(c));
        assert(digit_value(c) < 10);
        let a = number_at(s, from, (w - 1) as nat);
        let p = pow10((w - 1) as nat);
        assert(a * 10 + digit_value(c) < p * 10) by (nonlinear_arith)
            requires
                a < p,
                digit_value(c) < 10,
        ;
    }
}

proof fn lemma_digit_value(n: nat)
    ensures
        is_digit(digit(n)),
        digit_value(digit(n)) == n % 10,
{
    let r = n % 10;
    let t = seq!['0', '1', '2', '3', '4', '5', '6', '7', '8', '9'];
    assert(digit(n) == t[r as int]);
    if r == 0 {
        assert(t[0] == '0');
    } else if r == 1 {
        assert(t[1] == '1');
    } else if r == 2 {
        assert(t[2] == '2');
    } else if r == 3 {
        assert(t[3] == '3');
    } else if r == 4 {
        assert(t[4] == '4');
    } else if r == 5 {
        assert(t[5] == '5');
    } else if r == 6 {
        assert(t[6] == '6');
    } else if r == 7 {
        assert(t[7] == '7');
    } else if r == 8 {
        assert(t[8] == '8');
    } else {
        assert(t[9] == '9');
    }
}

proof fn lemma_pow10_positive(w: nat)
    ensures
        pow10(w) > 0,
    decreases w,
{
    if w > 0 {
        lemma_pow10_positive((w - 1) as nat);
    }
}

/// Digits written by `digits` read back as the number modulo `10^w`.
proof fn lemma_read_digits(s: Seq<char>, from: int, n: nat, w: nat)
    requires
        0 <= from,
        from + w <= s.len(),
        s.subrange(from, from + w) == digits(n, w),
    ensures
        all_digits(s, from, w),
        number_at(s, from, w) == n % pow10(w),
    decreases w,
{
    if w == 0 {
        assert(n % 1 == 0);
    } else {
        let d = digits(n / 10, (w - 1) as nat);
        lemma_digits_len(n / 10, (w - 1) as nat);
        assert(s.subrange(from, from + w - 1) =~= s.subrange(from, from + w).subrange(0, w - 1));
        assert(digits(n, w).subrange(0, w - 1) =~= d);
        lemma_read_digits(s, from, n / 10, (w - 1) as nat);
        assert(s[from + w - 1] == s.subrange(from, from + w)[w - 1]);
        assert(s[from + w - 1] == digit(n));
        lemma_digit_value(n);
        lemma_pow10_positive((w - 1) as nat);
        vstd::arithmetic::div_mod::lemma_breakdown(n as int, 10, pow10((w - 1) as nat) as int);
        assert(pow10(w) == 10 * pow10((w - 1) as nat));
        assert forall|i: int| from <= i < from + w implies #[trigger] is_digit(s[i]) by {
            if i < from + w - 1 {
                assert(all_digits(s, from, (w - 1) as nat));
            }
        }
    }
}

proof fn lemma_digits_len(n: nat, w: nat)
    ensures
        digits(n, w).len() == w,
    decreases w,
{
    if w > 0 {
        lemma_digits_len(n / 10, (w - 1) as nat);
    }
}

/// A duration of whole milliseconds under one day reads back from its
/// text unchanged.
pub proof fn lemma_duration_text_round_trip(nanos: u64)
    requires
        nanos < SECS_PER_DAY * NANOS_PER_SEC,
        nanos % NANOS_PER_MILLI == 0,
    ensures
        duration_text(nanos) is Some,
        is_duration_text(duration_text(nanos)->Some_0),
        duration_value(duration_text(nanos)->Some_0) == nanos,
{
    let secs = nanos / NANOS_PER_SEC;
    let h = (secs / 3600) as nat;
    let m = (secs % 3600 / 60) as nat;
    let sec = (secs % 60) as nat;
    let ms = (nanos % NANOS_PER_SEC / NANOS_PER_MILLI) as nat;
    assert(secs < SECS_PER_DAY);
    assert(h < 24);
    let t = clock_text(h, m, sec, ms, ':', '.');
    lemma_digits_len(h, 2);
    lemma_digits_len(m, 2);
    lemma_digits_len(sec, 2);
    lemma_digits_len(ms, 3);
    assert(t.len() == 12);
    assert(t.subrange(0, 2) =~= digits(h, 2));
    assert(t.subrange(3, 5) =~= digits(m, 2));
    assert(t.subrange(6, 8) =~= digits(sec, 2));
    assert(t.subrange(9, 12) =~= digits(ms, 3));
    lemma_read_digits(t, 0, h, 2);
    lemma_read_digits(t, 3, m, 2);
    lemma_read_digits(t, 6, sec, 2);
    lemma_read_digits(t, 9, ms, 3);
    assert(pow10(2) == 100) by {
        assert(pow10(0) == 1);
        assert(pow10(1) == 10);
    }
    assert(pow10(3) == 1000) by {
        assert(pow10(2) == 100) by {
            assert(pow10(0) == 1);
            assert(pow10(1) == 10);
        }
    }
    assert(ms < 1000);
    assert(m < 60);
    assert(sec < 60);
    assert(t[2] == ':');
    assert(t[5] == ':');
    assert(t[8] == '.');
    assert(number_at(t, 0, 2) == h);
    assert(number_at(t, 3, 2) == m);
    assert(number_at(t, 6, 2) == sec);
    assert(number_at(t, 9, 3) == ms);
    assert(is_duration_text(t));
    assert(duration_text(nanos) == Some(t));
    assert(h * 3600 + m * 60 + sec == secs) by {
        vstd::arithmetic::div_mod::lemma_fundamental_div_mod(secs as int, 3600);
        vstd::arithmetic::div_mod::lemma_fundamental_div_mod((secs % 3600) as int, 60);
        vstd::arithmetic::div_mod::lemma_mod_mod(secs as int, 60, 60);
    }
    assert(ms * 1_000_000 == nanos % NANOS_PER_SEC) by {
        vstd::arithmetic::div_mod::lemma_fundamental_div_mod(
            (nanos % NANOS_PER_SEC) as int,
            1_000_000,
        );
        vstd::arithmetic::div_mod::lemma_mod_mod(nanos as int, 1_000_000, 1000);
    }
    assert(secs * NANOS_PER_SEC + nanos % NANOS_PER_SEC == nanos) by {
        vstd::arithmetic::div_mod::lemma_fundamental_div_mod(nanos as int, NANOS_PER_SEC as int);
    }
    assert(((h * 3600 + m * 60 + sec) * 1000 + ms) * 1_000_000 == nanos) by (nonlinear_arith)
        requires
            h * 3600 + m * 60 + sec == secs,
            ms * 1_000_000 == nanos % NANOS_PER_SEC,
            secs * NANOS_PER_SEC + nanos % NANOS_PER_SEC == nanos,
            NANOS_PER_SEC == 1_000_000_000,
    ;
}

} // verus!
