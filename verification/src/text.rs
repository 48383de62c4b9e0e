//! Character-level building blocks: decimal and hexadecimal rendering,
//! zero padding and ASCII character classes.

use vstd::prelude::*;

verus! {

/// `String::push` appends exactly one character.
pub assume_specification[ String::push ](s: &mut String, ch: char)
    ensures
        final(s)@ == old(s)@.push(ch),
;

/// The ASCII digit for `d < 10`.
pub open spec fn digit_char(d: nat) -> char {
    (d + 48) as char
}

/// Shortest decimal rendering of a natural number, as `{}` prints it.
pub open spec fn decimal(n: nat) -> Seq<char>
    decreases n,
{
    if n < 10 {
        seq![digit_char(n)]
    } else {
        decimal(n / 10).push(digit_char(n % 10))
    }
}

/// Decimal rendering of a signed integer, with a leading `-` when negative.
pub open spec fn signed_decimal(i: int) -> Seq<char> {
    if i < 0 {
        seq!['-'] + decimal((-i) as nat)
    } else {
        decimal(i as nat)
    }
}

/// Lowercase hexadecimal digit for `d < 16`.
pub open spec fn hex_char(d: nat) -> char {
    if d < 10 {
        (d + 48) as char
    } else {
        (d + 87) as char
    }
}

/// The `width` lowest hexadecimal digits of `n`, most significant first,
/// as `{:0width$x}` prints a value below `16^width`.
pub open spec fn hex_fixed(n: nat, width: nat) -> Seq<char>
    decreases width,
{
    if width == 0 {
        Seq::empty()
    } else {
        hex_fixed(n / 16, (width - 1) as nat).push(hex_char(n % 16))
    }
}

/// `s` left-padded with `'0'` up to `width` characters.
pub open spec fn zero_pad(s: Seq<char>, width: nat) -> Seq<char> {
    if s.len() < width {
        Seq::new((width - s.len()) as nat, |_i: int| '0') + s
    } else {
        s
    }
}

pub open spec fn is_ascii_digit(c: char) -> bool {
    '0' <= c <= '9'
}

pub open spec fn is_ascii_alpha(c: char) -> bool {
    ('a' <= c <= 'z') || ('A' <= c <= 'Z')
}

pub open spec fn is_ascii_alnum(c: char) -> bool {
    is_ascii_digit(c) || is_ascii_alpha(c)
}

/// `p` is a prefix of `s`.
pub open spec fn has_prefix(s: Seq<char>, p: Seq<char>) -> bool {
    p.len() <= s.len() && s.subrange(0, p.len() as int) == p
}

pub fn ascii_digit(c: char) -> (r: bool)
    ensures
        r == is_ascii_digit(c),
{
    '0' <= c && c <= '9'
}

pub fn ascii_alpha(c: char) -> (r: bool)
    ensures
        r == is_ascii_alpha(c),
{
    ('a' <= c && c <= 'z') || ('A' <= c && c <= 'Z')
}

pub fn ascii_alnum(c: char) -> (r: bool)
    ensures
        r == is_ascii_alnum(c),
{
    ascii_digit(c) || ascii_alpha(c)
}

/// The characters of `s`, in order.
pub fn chars_of(s: &str) -> (r: Vec<char>)
    ensures
        r@ == s@,
{
    let mut out: Vec<char> = Vec::new();
    for c in it: s.chars()
        invariant
            out@ == it.seq().take(it.index() as int),
    {
        out.push(c);
    }
    proof {
        broadcast use vstd::string::group_string_axioms;
    }
    out
}

/// Appends every character of `v` to `out`.
pub fn push_chars(out: &mut String, v: &Vec<char>)
    ensures
        final(out)@ == old(out)@ + v@,
{
    let mut i: usize = 0;
    while i < v.len()
        invariant
            i <= v.len(),
            out@ == old(out)@ + v@.take(i as int),
        decreases v.len() - i,
    {
        out.push(v[i]);
        i = i + 1;
        assert(v@.take(i as int) =~= v@.take(i - 1).push(v@[i - 1]));
    }
    assert(v@.take(v.len() as int) =~= v@);
}

/// A fresh string holding exactly the characters of `v`.
pub fn string_of(v: &Vec<char>) -> (r: String)
    ensures
        r@ == v@,
{
    let mut out = String::new();
    push_chars(&mut out, v);
    out
}

/// Appends the decimal rendering of `n`.
pub fn push_decimal(out: &mut String, n: u64)
    ensures
        final(out)@ == old(out)@ + decimal(n as nat),
    decreases n,
{
    if n >= 10 {
        push_decimal(out, n / 10);
    }
    let d: u8 = (n % 10) as u8;
    let c = (48u8 + d) as char;
    out.push(c);
    proof {
        if n >= 10 {
            assert(old(out)@ + decimal(n as nat) =~= old(out)@ + decimal((n / 10) as nat) + seq![c]);
        } else {
            assert(old(out)@ + decimal(n as nat) =~= old(out)@.push(c));
        }
    }
}

/// Appends the decimal rendering of a signed value.
pub fn push_signed_decimal(out: &mut String, n: i64)
    ensures
        final(out)@ == old(out)@ + signed_decimal(n as int),
{
    if n < 0 {
        out.push('-');
        let magnitude: u64 = ((-(n + 1)) as u64) + 1;
        push_decimal(out, magnitude);
        assert(old(out)@ + signed_decimal(n as int) =~= old(out)@.push('-') + decimal(magnitude as nat));
    } else {
        push_decimal(out, n as u64);
    }
}

/// The decimal rendering of `n` as a fresh string.
pub fn decimal_string(n: u64) -> (r: String)
    ensures
        r@ == decimal(n as nat),
{
    let mut out = String::new();
    push_decimal(&mut out, n);
    assert(out@ =~= decimal(n as nat));
    out
}

/// Appends the `width` lowest lowercase hexadecimal digits of `n`.
pub fn push_hex_fixed(out: &mut String, n: u64, width: u32)
    ensures
        final(out)@ == old(out)@ + hex_fixed(n as nat, width as nat),
    decreases width,
{
    if width == 0 {
        assert(old(out)@ + hex_fixed(n as nat, 0) =~= old(out)@);
        return;
    }
    push_hex_fixed(out, n / 16, width - 1);
    let d: u8 = (n % 16) as u8;
    let c = if d < 10 {
        (48u8 + d) as char
    } else {
        (87u8 + d) as char
    };
    assert(c == hex_char((n % 16) as nat));
    out.push(c);
    assert(old(out)@ + hex_fixed(n as nat, width as nat) =~= old(out)@ + hex_fixed((n / 16) as nat, (width - 1) as nat) + seq![c]);
}

/// Appends `n` in decimal, left-padded with zeros to `width` characters.
pub fn push_zero_padded(out: &mut String, n: u64, width: usize)
    ensures
        final(out)@ == old(out)@ + zero_pad(decimal(n as nat), width as nat),
{
    let digits = decimal_string(n);
    let len = digits.as_str().unicode_len();
    let mut pad: usize = 0;
    if len < width {
        while pad < width - len
            invariant
                len < width,
                pad <= width - len,
                len == decimal(n as nat).len(),
                out@ == old(out)@ + Seq::new(pad as nat, |_i: int| '0'),
            decreases width - len - pad,
        {
            out.push('0');
            pad = pad + 1;
            assert(Seq::new(pad as nat, |_i: int| '0') =~= Seq::new((pad - 1) as nat, |_i: int| '0').push('0'));
        }
    }
    out.append(digits.as_str());
    proof {
        if len < width {
            assert(old(out)@ + zero_pad(decimal(n as nat), width as nat) =~= old(out)@ + Seq::new((width - len) as nat, |_i: int| '0') + decimal(n as nat));
        } else {
            assert(old(out)@ + zero_pad(decimal(n as nat), width as nat) =~= old(out)@ + decimal(n as nat));
        }
    }
}


/// Why a decimal integer could not be parsed.
#[derive(Debug, Clone, Copy, PartialEq, Eq, Structural)]
pub enum IntParseFailure {
    Empty,
    InvalidDigit,
    TooLarge,
    TooSmall,
}

/// The text std uses to describe each parse failure.
pub open spec fn int_failure_text(f: IntParseFailure) -> Seq<char> {
    match f {
        IntParseFailure::Empty => "cannot parse integer from empty string"@,
        IntParseFailure::InvalidDigit => "invalid digit found in string"@,
        IntParseFailure::TooLarge => "number too large to fit in target type"@,
        IntParseFailure::TooSmall => "number too small to fit in target type"@,
    }
}

impl IntParseFailure {
    pub fn text(&self) -> (r: &'static str)
        ensures
            r@ == int_failure_text(*self),
    {
        match self {
            IntParseFailure::Empty => "cannot parse integer from empty string",
            IntParseFailure::InvalidDigit => "invalid digit found in string",
            IntParseFailure::TooLarge => "number too large to fit in target type",
            IntParseFailure::TooSmall => "number too small to fit in target type",
        }
    }
}

pub open spec fn char_digit(c: char) -> nat {
    (c as int - 48) as nat
}

/// Scans decimal digits left to right; the first non-digit, or the first
/// prefix whose value exceeds `max`, decides the failure.
pub open spec fn scan_digits(body: Seq<char>, max: nat, overflow: IntParseFailure) -> Result<
    nat,
    IntParseFailure,
>
    decreases body.len(),
{
    if body.len() == 0 {
        Ok(0)
    } else {
        match scan_digits(body.drop_last(), max, overflow) {
            Err(f) => Err(f),
            Ok(v) => if !is_ascii_digit(body.last()) {
                Err(IntParseFailure::InvalidDigit)
            } else if v * 10 + char_digit(body.last()) > max {
                Err(overflow)
            } else {
                Ok(v * 10 + char_digit(body.last()))
            },
        }
    }
}

/// `u64::from_str`: an optional `+`, then at least one decimal digit.
pub open spec fn parse_u64_spec(s: Seq<char>) -> Result<u64, IntParseFailure> {
    if s.len() == 0 {
        Err(IntParseFailure::Empty)
    } else {
        let body = if s[0] == '+' {
            s.drop_first()
        } else {
            s
        };
        if body.len() == 0 {
            Err(IntParseFailure::InvalidDigit)
        } else {
            match scan_digits(body, u64::MAX as nat, IntParseFailure::TooLarge) {
                Ok(v) => Ok(v as u64),
                Err(f) => Err(f),
            }
        }
    }
}

/// `i64::from_str`: an optional sign, then at least one decimal digit.
pub open spec fn parse_i64_spec(s: Seq<char>) -> Result<i64, IntParseFailure> {
    if s.len() == 0 {
        Err(IntParseFailure::Empty)
    } else if s[0] == '-' {
        if s.len() == 1 {
            Err(IntParseFailure::InvalidDigit)
        } else {
            match scan_digits(s.drop_first(), 9223372036854775808, IntParseFailure::TooSmall) {
                Ok(v) => Ok((0 - v) as i64),
                Err(f) => Err(f),
            }
        }
    } else {
        let body = if s[0] == '+' {
            s.drop_first()
        } else {
            s
        };
        if body.len() == 0 {
            Err(IntParseFailure::InvalidDigit)
        } else {
            match scan_digits(body, i64::MAX as nat, IntParseFailure::TooLarge) {
                Ok(v) => Ok(v as i64),
                Err(f) => Err(f),
            }
        }
    }
}

/// Scans `chars[start..]` as digits with the given bound.
fn scan(chars: &Vec<char>, start: usize, max: u64, overflow: IntParseFailure) -> (r: Result<u64, IntParseFailure>)
    requires
        start <= chars.len(),
        max >= 9,
    ensures
        match scan_digits(chars@.subrange(start as int, chars.len() as int), max as nat, overflow) {
            Ok(v) => r == Ok::<u64, IntParseFailure>(v as u64),
            Err(f) => r == Err::<u64, IntParseFailure>(f),
        },
        r matches Ok(v) ==> v <= max,
{
    let mut acc: u64 = 0;
    let mut i = start;
    assert(chars@.subrange(start as int, start as int) =~= Seq::<char>::empty());
    while i < chars.len()
        invariant
            start <= i <= chars.len(),
            scan_digits(chars@.subrange(start as int, i as int), max as nat, overflow) == Ok::<
                nat,
                IntParseFailure,
            >(acc as nat),
            acc <= max,
            max >= 9,
        decreases chars.len() - i,
    {
        let c = chars[i];
        let ghost whole = chars@.subrange(start as int, chars.len() as int);
        let ghost upto = chars@.subrange(start as int, i + 1);
        proof {
            assert(upto.drop_last() =~= chars@.subrange(start as int, i as int));
            assert(upto.last() == c);
            assert(whole.take((i - start + 1) as int) =~= upto);
        }
        if !ascii_digit(c) {
            proof {
                assert(scan_digits(upto, max as nat, overflow) is Err);
                lemma_scan_failure_persists(whole, (i - start + 1) as int, max as nat, overflow);
            }
            return Err(IntParseFailure::InvalidDigit);
        }
        let d: u64 = (c as u32 - 48) as u64;
        assert(d == char_digit(c));
        if acc > (max - d) / 10 {
            proof {
                assert(acc * 10 + d > max) by (nonlinear_arith)
                    requires
                        acc > (max - d) / 10,
                        d <= 9,
                        max >= 9,
                ;
                assert(scan_digits(upto, max as nat, overflow) is Err);
                lemma_scan_failure_persists(whole, (i - start + 1) as int, max as nat, overflow);
            }
            return Err(overflow);
        }
        proof {
            assert(acc * 10 + d <= max) by (nonlinear_arith)
                requires
                    acc <= (max - d) / 10,
                    d <= max,
            ;
        }
        acc = acc * 10 + d;
        i = i + 1;
    }
    Ok(acc)
}

proof fn lemma_scan_failure_persists(body: Seq<char>, n: int, max: nat, overflow: IntParseFailure)
    requires
        0 <= n <= body.len(),
        scan_digits(body.take(n), max, overflow) is Err,
    ensures
        scan_digits(body, max, overflow) == scan_digits(body.take(n), max, overflow),
    decreases body.len(),
{
    if n < body.len() {
        assert(body.drop_last().take(n) =~= body.take(n));
        lemma_scan_failure_persists(body.drop_last(), n, max, overflow);
    } else {
        assert(body.take(n) =~= body);
    }
}

/// Parses an unsigned decimal integer exactly as `u64::from_str` does.
pub fn parse_u64(s: &str) -> (r: Result<u64, IntParseFailure>)
    ensures
        r == parse_u64_spec(s@),
{
    let chars = chars_of(s);
    if chars.len() == 0 {
        return Err(IntParseFailure::Empty);
    }
    let start: usize = if chars[0] == '+' {
        1
    } else {
        0
    };
    if start == chars.len() {
        return Err(IntParseFailure::InvalidDigit);
    }
    assert(chars@.subrange(start as int, chars.len() as int) =~= if chars@[0] == '+' {
        chars@.drop_first()
    } else {
        chars@
    });
    scan(&chars, start, u64::MAX, IntParseFailure::TooLarge)
}

/// Parses a signed decimal integer exactly as `i64::from_str` does.
pub fn parse_i64(s: &str) -> (r: Result<i64, IntParseFailure>)
    ensures
        r == parse_i64_spec(s@),
{
    let chars = chars_of(s);
    if chars.len() == 0 {
        return Err(IntParseFailure::Empty);
    }
    if chars[0] == '-' {
        if chars.len() == 1 {
            return Err(IntParseFailure::InvalidDigit);
        }
        assert(chars@.subrange(1, chars.len() as int) =~= chars@.drop_first());
        return match scan(&chars, 1, 9223372036854775808u64, IntParseFailure::TooSmall) {
            Ok(v) => if v == 9223372036854775808u64 {
                Ok(i64::MIN)
            } else {
                Ok(0i64 - (v as i64))
            },
            Err(f) => Err(f),
        };
    }
    let start: usize = if chars[0] == '+' {
        1
    } else {
        0
    };
    if start == chars.len() {
        return Err(IntParseFailure::InvalidDigit);
    }
    assert(chars@.subrange(start as int, chars.len() as int) =~= if chars@[0] == '+' {
        chars@.drop_first()
    } else {
        chars@
    });
    match scan(&chars, start, i64::MAX as u64, IntParseFailure::TooLarge) {
        Ok(v) => Ok(v as i64),
        Err(f) => Err(f),
    }
}
} // verus!
