//! Text encodings used across the engine: lowercase hexadecimal,
//! decimal rendering and parsing, and the hyphenated form of a
//! 128-bit swap identifier.

use vstd::prelude::*;

verus! {

/// The lowercase hexadecimal digit for a value below sixteen.
pub open spec fn hex_digit(n: int) -> char {
    if n == 0 {
        '0'
    } else if n == 1 {
        '1'
    } else if n == 2 {
        '2'
    } else if n == 3 {
        '3'
    } else if n == 4 {
        '4'
    } else if n == 5 {
        '5'
    } else if n == 6 {
        '6'
    } else if n == 7 {
        '7'
    } else if n == 8 {
        '8'
    } else if n == 9 {
        '9'
    } else if n == 10 {
        'a'
    } else if n == 11 {
        'b'
    } else if n == 12 {
        'c'
    } else if n == 13 {
        'd'
    } else if n == 14 {
        'e'
    } else {
        'f'
    }
}

/// The decimal digit for a value below ten.
pub open spec fn dec_digit(n: int) -> char {
    hex_digit(if 0 <= n < 10 {
        n
    } else {
        0
    })
}

/// Lowercase hexadecimal encoding of a byte sequence, two digits per
/// byte.
pub open spec fn hex_of(data: Seq<u8>) -> Seq<char>
    decreases data.len(),
{
    if data.len() == 0 {
        Seq::<char>::empty()
    } else {
        seq![
            hex_digit(data.first() as int / 16),
            hex_digit(data.first() as int % 16),
        ] + hex_of(data.drop_first())
    }
}

/// Hexadecimal form of `n` padded on the left to exactly `width`
/// digits; digits beyond the width are cut off at the top.
pub open spec fn hex_pad(n: nat, width: nat) -> Seq<char>
    decreases width,
{
    if width == 0 {
        Seq::<char>::empty()
    } else {
        hex_pad(n / 16, (width - 1) as nat) + seq![hex_digit(n as int % 16)]
    }
}

/// Hexadecimal form of `n` without padding: a single digit for values
/// below sixteen, more as needed.
pub open spec fn hex_nopad(n: nat) -> Seq<char>
    decreases n,
{
    if n < 16 {
        seq![hex_digit(n as int)]
    } else {
        hex_nopad(n / 16) + seq![hex_digit(n as int % 16)]
    }
}

/// Decimal form of `n` without padding.
pub open spec fn dec_of(n: nat) -> Seq<char>
    decreases n,
{
    if n < 10 {
        seq![dec_digit(n as int)]
    } else {
        dec_of(n / 10) + seq![dec_digit(n as int % 10)]
    }
}

/// Relies on std's `String::push`: appends exactly one character.
#[verifier::external_body]
pub(crate) fn push_char(s: &mut String, c: char)
    ensures
        final(s)@ == old(s)@.push(c),
{
    s.push(c);
}

/// The lowercase hexadecimal digit as an executable character.
pub fn hex_digit_char(n: u8) -> (r: char)
    requires
        n < 16,
    ensures
        r == hex_digit(n as int),
{
    match n {
        0 => '0',
        1 => '1',
        2 => '2',
        3 => '3',
        4 => '4',
        5 => '5',
        6 => '6',
        7 => '7',
        8 => '8',
        9 => '9',
        10 => 'a',
        11 => 'b',
        12 => 'c',
        13 => 'd',
        14 => 'e',
        _ => 'f',
    }
}

/// Lowercase hexadecimal encoding of a byte slice.
pub fn to_hex(data: &[u8]) -> (r: String)
    ensures
        r@ == hex_of(data@),
{
    let mut r = String::new();
    let n = data.len();
    assert(data@.skip(0) == data@);
    for i in 0..n
        invariant
            n == data@.len(),
            hex_of(data@) =~= r@ + hex_of(data@.skip(i as int)),
    {
        let b = data[i];
        push_char(&mut r, hex_digit_char(b / 16));
        push_char(&mut r, hex_digit_char(b % 16));
        assert(data@.skip(i as int).drop_first() =~= data@.skip(i + 1));
    }
    assert(data@.skip(n as int) =~= Seq::<u8>::empty());
    r
}

/// Hexadecimal form of `n`, left-padded with zeroes to `width` digits.
pub fn to_hex_pad_u128(n: u128, width: usize) -> (r: String)
    ensures
        r@ == hex_pad(n as nat, width as nat),
    decreases width,
{
    if width == 0 {
        String::new()
    } else {
        let mut r = to_hex_pad_u128(n / 16, width - 1);
        push_char(&mut r, hex_digit_char((n % 16) as u8));
        r
    }
}

/// Hexadecimal form of `n` without padding, as written by the
/// lowercase hex formatter.
pub fn to_hex_nopad_u8(n: u8) -> (r: String)
    ensures
        r@ == hex_nopad(n as nat),
{
    let mut r = String::new();
    if n >= 16 {
        push_char(&mut r, hex_digit_char(n / 16));
    }
    push_char(&mut r, hex_digit_char(n % 16));
    proof {
        if n >= 16 {
            assert(hex_nopad((n / 16) as nat) =~= seq![hex_digit(n as int / 16)]);
        }
    }
    r
}

/// Decimal form of an unsigned 128-bit value.
pub fn to_dec_u128(n: u128) -> (r: String)
    ensures
        r@ == dec_of(n as nat),
    decreases n,
{
    if n < 10 {
        let mut r = String::new();
        push_char(&mut r, hex_digit_char(n as u8));
        r
    } else {
        let mut r = to_dec_u128(n / 10);
        push_char(&mut r, hex_digit_char((n % 10) as u8));
        r
    }
}

/// Decimal form of an unsigned 64-bit value.
pub fn to_dec_u64(n: u64) -> (r: String)
    ensures
        r@ == dec_of(n as nat),
{
    to_dec_u128(n as u128)
}

/// Whether `c` is a lowercase or uppercase hexadecimal digit.
pub open spec fn is_hex_char(c: char) -> bool {
    ('0' <= c && c <= '9') || ('a' <= c && c <= 'f') || ('A' <= c && c <= 'F')
}

/// Numeric value of a hexadecimal digit character.
pub open spec fn hex_char_val(c: char) -> int {
    if '0' <= c && c <= '9' {
        c as int - '0' as int
    } else if 'a' <= c && c <= 'f' {
        c as int - 'a' as int + 10
    } else {
        c as int - 'A' as int + 10
    }
}

/// Whether a character sequence is a well-formed hexadecimal encoding:
/// an even number of hexadecimal digits.
pub open spec fn hex_valid(s: Seq<char>) -> bool {
    s.len() % 2 == 0 && forall|i: int| 0 <= i < s.len() ==> is_hex_char(#[trigger] s[i])
}

/// The bytes encoded by a well-formed hexadecimal character sequence.
pub open spec fn hex_decoded(s: Seq<char>) -> Seq<u8>
    decreases s.len(),
{
    if s.len() < 2 {
        Seq::<u8>::empty()
    } else {
        seq![(hex_char_val(s[0]) * 16 + hex_char_val(s[1])) as u8] + hex_decoded(s.skip(2))
    }
}

/// Numeric value of one hexadecimal digit byte, if it is one.
fn hex_val_of_byte(b: u8) -> (r: Option<u8>)
    ensures
        r is Some <==> is_hex_char(b as char),
        r is Some ==> r->0 == hex_char_val(b as char) && r->0 < 16,
{
    if b >= 48 && b <= 57 {
        Some(b - 48)
    } else if b >= 97 && b <= 102 {
        Some(b - 97 + 10)
    } else if b >= 65 && b <= 70 {
        Some(b - 65 + 10)
    } else {
        assert(!is_hex_char(b as char));
        None
    }
}

/// Decodes a hexadecimal string into bytes. Returns `None` unless the
/// input is an even number of hexadecimal digits.
pub fn hex_decode(s: &str) -> (r: Option<Vec<u8>>)
    ensures
        r is Some <==> hex_valid(s@),
        r is Some ==> r->0@ == hex_decoded(s@),
{
    broadcast use vstd::string::is_ascii_spec_bytes;

    if !s.is_ascii() {
        proof {
            let i = choose|i: int| 0 <= i < s@.len() && !('\0' <= #[trigger] s@[i] <= '\u{7f}');
            assert(!is_hex_char(s@[i]));
        }
        return None;
    }
    let bytes = s.as_bytes();
    let n = bytes.len();
    if n % 2 != 0 {
        return None;
    }
    let mut out: Vec<u8> = Vec::new();
    assert(s@.skip(0) == s@);
    let mut i: usize = 0;
    while i < n
        invariant
            vstd::utf8::is_ascii_chars(s@),
            n == s@.len(),
            bytes@.len() == n,
            forall|j: int| 0 <= j < n ==> #[trigger] bytes@[j] == s@[j] as u8,
            i % 2 == 0,
            i <= n,
            n % 2 == 0,
            forall|j: int| 0 <= j < i ==> is_hex_char(#[trigger] s@[j]),
            hex_decoded(s@) =~= out@ + hex_decoded(s@.skip(i as int)),
        decreases n - i,
    {
        assert(i + 1 < n);
        let hi = hex_val_of_byte(bytes[i]);
        let lo = hex_val_of_byte(bytes[i + 1]);
        proof {
            assert(s@[i as int] as u8 as char == s@[i as int]);
            assert(s@[i as int + 1] as u8 as char == s@[i as int + 1]);
        }
        match (hi, lo) {
            (Some(h), Some(l)) => {
                out.push(h * 16 + l);
                proof {
                    assert(s@.skip(i as int)[0] == s@[i as int]);
                    assert(s@.skip(i as int)[1] == s@[i as int + 1]);
                    assert(s@.skip(i as int).skip(2) =~= s@.skip(i as int + 2));
                }
                i = i + 2;
            },
            _ => {
                assert(!is_hex_char(s@[i as int]) || !is_hex_char(s@[i as int + 1]));
                return None;
            },
        }
    }
    assert(s@.skip(n as int) =~= Seq::<char>::empty());
    Some(out)
}

proof fn lemma_hex_digit_val(d: int)
    requires
        0 <= d < 16,
    ensures
        is_hex_char(hex_digit(d)),
        hex_char_val(hex_digit(d)) == d,
{
}

/// The hexadecimal encoder and decoder are inverse: every byte
/// sequence encodes to well-formed text that decodes back to itself.
pub proof fn lemma_hex_round_trip(data: Seq<u8>)
    ensures
        hex_valid(hex_of(data)),
        hex_decoded(hex_of(data)) =~= data,
    decreases data.len(),
{
    if data.len() > 0 {
        let b = data.first();
        lemma_hex_digit_val(b as int / 16);
        lemma_hex_digit_val(b as int % 16);
        lemma_hex_round_trip(data.drop_first());
        let s = hex_of(data);
        let rest = hex_of(data.drop_first());
        assert(s == seq![hex_digit(b as int / 16), hex_digit(b as int % 16)] + rest);
        assert forall|i: int| 0 <= i < s.len() implies is_hex_char(#[trigger] s[i]) by {
            if i >= 2 {
                assert(s[i] == rest[i - 2]);
            }
        }
        assert(s.skip(2) =~= rest);
        assert((hex_char_val(s[0]) * 16 + hex_char_val(s[1])) as u8 == b);
    }
}

/// A hexadecimal encoding writes two digits per byte.
pub proof fn lemma_hex_decoded_len(s: Seq<char>)
    ensures
        hex_decoded(s).len() == s.len() / 2,
    decreases s.len(),
{
    if s.len() >= 2 {
        lemma_hex_decoded_len(s.skip(2));
    }
}

/// Whether `c` is a decimal digit.
pub open spec fn is_dec_char(c: char) -> bool {
    '0' <= c && c <= '9'
}

/// Numeric value of a decimal digit character; zero for anything else.
pub open spec fn dec_char_val(c: char) -> nat {
    if is_dec_char(c) {
        (c as int - '0' as int) as nat
    } else {
        0
    }
}

/// Whether a character sequence is a well-formed decimal number: at
/// least one digit, and nothing but digits.
pub open spec fn dec_valid(s: Seq<char>) -> bool {
    s.len() > 0 && forall|i: int| 0 <= i < s.len() ==> is_dec_char(#[trigger] s[i])
}

/// The number written by a sequence of decimal digits.
pub open spec fn dec_val(s: Seq<char>) -> nat
    decreases s.len(),
{
    if s.len() == 0 {
        0
    } else {
        dec_val(s.drop_last()) * 10 + dec_char_val(s.last())
    }
}

proof fn lemma_dec_val_take_step(s: Seq<char>, i: int)
    requires
        0 <= i < s.len(),
    ensures
        dec_val(s.take(i + 1)) == dec_val(s.take(i)) * 10 + dec_char_val(s[i]),
{
    assert(s.take(i + 1).drop_last() =~= s.take(i));
    assert(s.take(i + 1).last() == s[i]);
}

proof fn lemma_dec_val_take_monotone(s: Seq<char>, i: int, j: int)
    requires
        0 <= i <= j <= s.len(),
    ensures
        dec_val(s.take(i)) <= dec_val(s.take(j)),
    decreases j - i,
{
    if i < j {
        lemma_dec_val_take_monotone(s, i, j - 1);
        lemma_dec_val_take_step(s, j - 1);
    }
}

proof fn lemma_dec_digit_val(d: int)
    requires
        0 <= d < 10,
    ensures
        is_dec_char(dec_digit(d)),
        dec_char_val(dec_digit(d)) == d,
{
}

/// The decimal renderer and parser are inverse: every number renders
/// to well-formed text that parses back to itself.
pub proof fn lemma_dec_round_trip(n: nat)
    ensures
        dec_valid(dec_of(n)),
        dec_val(dec_of(n)) == n,
    decreases n,
{
    if n < 10 {
        lemma_dec_digit_val(n as int);
        let s = dec_of(n);
        assert(s == seq![dec_digit(n as int)]);
        assert(s.drop_last() =~= Seq::<char>::empty());
        assert(dec_val(Seq::<char>::empty()) == 0);
        assert(dec_val(s) == dec_val(s.drop_last()) * 10 + dec_char_val(s.last()));
    } else {
        lemma_dec_digit_val(n as int % 10);
        lemma_dec_round_trip(n / 10);
        let s = dec_of(n);
        let rest = dec_of(n / 10);
        assert(s == rest + seq![dec_digit(n as int % 10)]);
        assert forall|i: int| 0 <= i < s.len() implies is_dec_char(#[trigger] s[i]) by {
            if i < rest.len() {
                assert(s[i] == rest[i]);
            }
        }
        assert(s.drop_last() =~= rest);
        assert(dec_val(s) == dec_val(rest) * 10 + dec_char_val(s.last()));
    }
}

/// Parses a decimal number. Returns `None` unless the input is one or
/// more decimal digits writing a value that fits 128 bits.
pub fn parse_dec_u128(s: &str) -> (r: Option<u128>)
    ensures
        r is Some <==> dec_valid(s@) && dec_val(s@) <= u128::MAX,
        r is Some ==> r->0 as nat == dec_val(s@),
{
    broadcast use vstd::string::is_ascii_spec_bytes;

    if !s.is_ascii() {
        proof {
            let i = choose|i: int| 0 <= i < s@.len() && !('\0' <= #[trigger] s@[i] <= '\u{7f}');
            assert(!is_dec_char(s@[i]));
        }
        return None;
    }
    let bytes = s.as_bytes();
    let n = bytes.len();
    if n == 0 {
        return None;
    }
    let mut acc: u128 = 0;
    let mut i: usize = 0;
    assert(s@.take(0) =~= Seq::<char>::empty());
    while i < n
        invariant
            vstd::utf8::is_ascii_chars(s@),
            n == s@.len(),
            bytes@.len() == n,
            forall|j: int| 0 <= j < n ==> #[trigger] bytes@[j] == s@[j] as u8,
            i <= n,
            forall|j: int| 0 <= j < i ==> is_dec_char(#[trigger] s@[j]),
            acc as nat == dec_val(s@.take(i as int)),
        decreases n - i,
    {
        let b = bytes[i];
        proof {
            assert(s@[i as int] as u8 as char == s@[i as int]);
        }
        if b < 48 || b > 57 {
            assert(!is_dec_char(s@[i as int]));
            return None;
        }
        let d = (b - 48) as u128;
        proof {
            lemma_dec_val_take_step(s@, i as int);
            assert(dec_char_val(s@[i as int]) == d as nat);
        }
        if acc > (u128::MAX - d) / 10 {
            proof {
                assert(acc * 10 + d > u128::MAX) by (nonlinear_arith)
                    requires
                        acc > (u128::MAX - d) / 10,
                        d <= 9,
                ;
                lemma_dec_val_take_monotone(s@, i as int + 1, s@.len() as int);
                assert(s@.take(s@.len() as int) =~= s@);
            }
            return None;
        }
        proof {
            assert(acc * 10 + d <= u128::MAX) by (nonlinear_arith)
                requires
                    acc <= (u128::MAX - d) / 10,
                    d <= 9,
            ;
        }
        acc = acc * 10 + d;
        i = i + 1;
    }
    assert(s@.take(n as int) =~= s@);
    Some(acc)
}

} // verus!
