use vstd::prelude::*;
use vstd::std_specs::iter::IteratorSpec;

verus! {

/// Why a transaction with the firmware failed.
#[derive(Clone, Copy, Debug, PartialEq, Eq, Structural)]
pub enum AcpiError {
    /// The control file could not be opened (typically: `acpi_call` is not loaded).
    ChannelUnavailable,
    /// Writing the command or reading the answer failed on an open control file.
    TransportIo,
    /// The answer is not of the shape `0x<digits>\0`.
    MalformedResponse,
    /// The answer holds a number that the setting does not define.
    UnexpectedValue,
}

// ---------------------------------------------------------------------------
// The response grammar
// ---------------------------------------------------------------------------

pub open spec fn is_digit(c: char) -> bool {
    '0' <= c && c <= '9'
}

pub open spec fn digit_value(c: char) -> nat {
    (c as int - '0' as int) as nat
}

/// Every character of `s` is a decimal digit.
pub open spec fn all_digits(s: Seq<char>) -> bool {
    forall|i: int| 0 <= i < s.len() ==> is_digit(#[trigger] s[i])
}

/// The number that the decimal digits `s` stand for, most significant first.
pub open spec fn decimal_value(s: Seq<char>) -> nat
    decreases s.len(),
{
    if s.len() == 0 {
        0
    } else {
        decimal_value(s.drop_last()) * 10 + digit_value(s.last())
    }
}

/// The digits of an unsigned number in Rust's integer syntax: an optional `+`
/// sign is dropped.
pub open spec fn unsigned_digits(s: Seq<char>) -> Seq<char> {
    if s.len() > 0 && s[0] == '+' {
        s.skip(1)
    } else {
        s
    }
}

/// `s` read as a decimal byte: at least one digit, after an optional `+`,
/// and a value that fits in a `u8`.
pub open spec fn byte_of_text(s: Seq<char>) -> Option<u8> {
    let d = unsigned_digits(s);
    if d.len() > 0 && all_digits(d) && decimal_value(d) <= 255 {
        Some(decimal_value(d) as u8)
    } else {
        None
    }
}

/// The answer wraps its number as `0x` + number + one NUL character.
pub open spec fn is_enveloped(s: Seq<char>) -> bool {
    &&& s.len() >= 3
    &&& s[0] == '0'
    &&& s[1] == 'x'
    &&& s.last() == '\0'
}

/// The number that an answer of the firmware holds, or why it holds none.
pub open spec fn response_value(s: Seq<char>) -> Result<u8, AcpiError> {
    if !is_enveloped(s) {
        Err(AcpiError::MalformedResponse)
    } else {
        match byte_of_text(s.subrange(2, s.len() - 1)) {
            Some(n) => Ok(n),
            None => Err(AcpiError::MalformedResponse),
        }
    }
}

/// The decimal digit for `d < 10`.
pub open spec fn digit_char(d: nat) -> char {
    ('0' as int + d) as char
}

/// The decimal digits of `n`, most significant first, without leading zeros.
pub open spec fn decimal_text(n: nat) -> Seq<char>
    decreases n,
{
    if n < 10 {
        seq![digit_char(n)]
    } else {
        decimal_text(n / 10).push(digit_char(n % 10))
    }
}

/// The answer in which the firmware reports the number `n`.
pub open spec fn envelope(n: nat) -> Seq<char> {
    seq!['0', 'x'] + decimal_text(n) + seq!['\0']
}

proof fn lemma_decimal_text(n: nat)
    ensures
        decimal_text(n).len() > 0,
        all_digits(decimal_text(n)),
        decimal_value(decimal_text(n)) == n,
    decreases n,
{
    let t = decimal_text(n);
    if n < 10 {
        assert(t.drop_last() =~= Seq::<char>::empty());
        assert(digit_value(digit_char(n)) == n);
        assert(decimal_value(t.drop_last()) == 0);
    } else {
        lemma_decimal_text(n / 10);
        assert(t.drop_last() =~= decimal_text(n / 10));
        assert((n / 10) * 10 + n % 10 == n) by (nonlinear_arith);
        assert(digit_value(digit_char(n % 10)) == n % 10);
        assert(t.last() == digit_char(n % 10));
        assert forall|i: int| 0 <= i < t.len() implies is_digit(#[trigger] t[i]) by {
            if i < t.len() - 1 {
                assert(t[i] == decimal_text(n / 10)[i]);
            }
        }
    }
}

/// Reading back an enveloped byte yields that byte: the answer format
/// loses nothing.
pub proof fn lemma_envelope_round_trip(n: u8)
    ensures
        response_value(envelope(n as nat)) == Ok::<u8, AcpiError>(n),
{
    let t = decimal_text(n as nat);
    let s = envelope(n as nat);
    lemma_decimal_text(n as nat);
    assert(s.subrange(2, s.len() - 1) =~= t);
    assert(is_digit(t[0]));
    assert(unsigned_digits(t) == t);
}

// ---------------------------------------------------------------------------
// Parsing
// ---------------------------------------------------------------------------

/// The characters of `s`, in order.
fn chars_of(s: &str) -> (r: Vec<char>)
    ensures
        r@ == s@,
{
    let mut r: Vec<char> = Vec::new();
    for c in it: s.chars()
        invariant
            r@ == it.seq().take(it.index() as int),
    {
        r.push(c);
    }
    r
}

proof fn lemma_decimal_step(s: Seq<char>, i: int)
    requires
        0 <= i < s.len(),
    ensures
        decimal_value(s.take(i + 1)) == decimal_value(s.take(i)) * 10 + digit_value(s[i]),
{
    assert(s.take(i + 1).drop_last() =~= s.take(i));
}

/// Reads `c[lo..hi]` as a decimal byte.
fn parse_byte(c: &Vec<char>, lo: usize, hi: usize) -> (r: Option<u8>)
    requires
        lo <= hi <= c@.len(),
    ensures
        r == byte_of_text(c@.subrange(lo as int, hi as int)),
{
    let ghost s = c@.subrange(lo as int, hi as int);
    let mut start = lo;
    if lo < hi && c[lo] == '+' {
        start = lo + 1;
    }
    let ghost d = c@.subrange(start as int, hi as int);
    assert(d =~= unsigned_digits(s));
    if start == hi {
        return None;
    }
    // The value read so far, held at 256 once it no longer fits in a byte.
    let mut acc: u32 = 0;
    let mut i = start;
    while i < hi
        invariant
            lo <= start <= i <= hi <= c@.len(),
            d == c@.subrange(start as int, hi as int),
            d == unsigned_digits(s),
            s == c@.subrange(lo as int, hi as int),
            all_digits(d.take(i - start)),
            acc <= 256,
            acc == if decimal_value(d.take(i - start)) <= 255 {
                decimal_value(d.take(i - start))
            } else {
                256
            },
        decreases hi - i,
    {
        let ch = c[i];
        if !('0' <= ch && ch <= '9') {
            assert(d[i - start] == ch);
            assert(!all_digits(d));
            return None;
        }
        let ghost k = (i - start) as int;
        proof {
            lemma_decimal_step(d, k);
        }
        let dv = (ch as u32) - ('0' as u32);
        if acc * 10 + dv > 255 {
            acc = 256;
        } else {
            acc = acc * 10 + dv;
        }
        i = i + 1;
    }
    assert(d.take(hi - start) =~= d);
    if acc <= 255 {
        Some(acc as u8)
    } else {
        None
    }
}

/// The number that an answer of the firmware holds: the answer must read
/// `0x`, then a decimal byte, then a single NUL character.
pub fn parse_response(response: &str) -> (r: Result<u8, AcpiError>)
    ensures
        r == response_value(response@),
{
    let c = chars_of(response);
    let n = c.len();
    if n < 3 || c[0] != '0' || c[1] != 'x' || c[n - 1] != '\0' {
        return Err(AcpiError::MalformedResponse);
    }
    match parse_byte(&c, 2, n - 1) {
        Some(v) => Ok(v),
        None => Err(AcpiError::MalformedResponse),
    }
}

} // verus!
