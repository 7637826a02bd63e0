use vstd::prelude::*;

verus! {

/// Decimal digits of a natural number, most significant first.
pub open spec fn decimal(n: nat) -> Seq<char>
    decreases n,
{
    if n < 10 {
        seq![digit_char(n)]
    } else {
        decimal(n / 10).push(digit_char(n % 10))
    }
}

/// The ASCII character of a single decimal digit.
pub open spec fn digit_char(d: nat) -> char {
    if d == 0 { '0' } else if d == 1 { '1' } else if d == 2 { '2' } else if d == 3 { '3' }
    else if d == 4 { '4' } else if d == 5 { '5' } else if d == 6 { '6' } else if d == 7 { '7' }
    else if d == 8 { '8' } else { '9' }
}

/// Appends one character to a string (`String::push`).
#[verifier::external_body]
pub(crate) fn push_char(s: &mut String, c: char)
    ensures
        final(s)@ == old(s)@.push(c),
{
    s.push(c);
}

/// Whether two string slices hold the same characters.
pub(crate) fn same_text(a: &str, b: &str) -> (r: bool)
    ensures
        r == (a@ == b@),
{
    let x = String::from_str(a);
    let y = String::from_str(b);
    x == y
}

fn digit(d: u64) -> (c: char)
    requires
        d < 10,
    ensures
        c == digit_char(d as nat),
{
    if d == 0 { '0' } else if d == 1 { '1' } else if d == 2 { '2' } else if d == 3 { '3' }
    else if d == 4 { '4' } else if d == 5 { '5' } else if d == 6 { '6' } else if d == 7 { '7' }
    else if d == 8 { '8' } else { '9' }
}

/// Decimal text of an unsigned number.
pub fn decimal_u64(n: u64) -> (s: String)
    ensures
        s@ == decimal(n as nat),
    decreases n,
{
    if n < 10 {
        let mut s = String::new();
        push_char(&mut s, digit(n));
        s
    } else {
        let mut s = decimal_u64(n / 10);
        push_char(&mut s, digit(n % 10));
        s
    }
}


/// Decimal text of a signed number: a minus sign before the digits of its
/// magnitude when it is negative.
pub open spec fn signed_decimal(n: int) -> Seq<char> {
    if n < 0 {
        seq!['-'] + decimal((-n) as nat)
    } else {
        decimal(n as nat)
    }
}

/// Decimal text of a signed number.
pub fn decimal_i64(n: i64) -> (s: String)
    ensures
        s@ == signed_decimal(n as int),
{
    if n < 0 {
        let magnitude: u64 = if n == i64::MIN {
            9223372036854775808u64
        } else {
            (-n) as u64
        };
        let digits = decimal_u64(magnitude);
        let mut s = String::new();
        push_char(&mut s, '-');
        let r = s.concat(digits.as_str());
        assert(r@ =~= seq!['-'] + decimal((-n) as nat));
        r
    } else {
        decimal_u64(n as u64)
    }
}

/// A UTF-16 high (leading) surrogate unit.
pub open spec fn is_high_surrogate(u: u16) -> bool {
    0xD800 <= u <= 0xDBFF
}

/// A UTF-16 low (trailing) surrogate unit.
pub open spec fn is_low_surrogate(u: u16) -> bool {
    0xDC00 <= u <= 0xDFFF
}

/// The UTF-16 code units of one character.
pub open spec fn utf16_char(c: char) -> Seq<u16> {
    let v = c as u32;
    if v < 0x10000 {
        seq![v as u16]
    } else {
        seq![(0xD800 + (v - 0x10000) / 0x400) as u16, (0xDC00 + (v - 0x10000) % 0x400) as u16]
    }
}

/// The UTF-16 encoding of a character sequence (`str::encode_utf16`).
pub open spec fn utf16(s: Seq<char>) -> Seq<u16>
    decreases s.len(),
{
    if s.len() == 0 {
        seq![]
    } else {
        utf16_char(s[0]) + utf16(s.drop_first())
    }
}

/// The scalar value that a surrogate pair stands for.
pub open spec fn pair_scalar(hi: u16, lo: u16) -> u32 {
    (0x10000 + (hi - 0xD800) * 0x400 + (lo - 0xDC00)) as u32
}

/// The replacement character that lossy decoding puts in place of a lone surrogate.
pub open spec fn replacement_char() -> char {
    '\u{FFFD}'
}

/// Lossy UTF-16 decoding (`String::from_utf16_lossy`): surrogate pairs give one
/// character, every lone surrogate gives U+FFFD, other units stand for themselves.
pub open spec fn decode_utf16_lossy(u: Seq<u16>) -> Seq<char>
    decreases u.len(),
{
    if u.len() == 0 {
        seq![]
    } else if u.len() >= 2 && is_high_surrogate(u[0]) && is_low_surrogate(u[1]) {
        seq![pair_scalar(u[0], u[1]) as char] + decode_utf16_lossy(u.subrange(2, u.len() as int))
    } else if is_high_surrogate(u[0]) || is_low_surrogate(u[0]) {
        seq![replacement_char()] + decode_utf16_lossy(u.drop_first())
    } else {
        seq![(u[0] as u32) as char] + decode_utf16_lossy(u.drop_first())
    }
}

/// Encoding distributes over concatenation.
pub proof fn lemma_utf16_concat(a: Seq<char>, b: Seq<char>)
    ensures
        utf16(a + b) == utf16(a) + utf16(b),
    decreases a.len(),
{
    if a.len() == 0 {
        assert(a + b =~= b);
        assert(utf16(a) + utf16(b) =~= utf16(b));
    } else {
        assert((a + b).drop_first() =~= a.drop_first() + b);
        lemma_utf16_concat(a.drop_first(), b);
        assert(utf16(a + b) =~= utf16(a) + utf16(b));
    }
}

/// The encoding of a single character is its units.
pub proof fn lemma_utf16_single(c: char)
    ensures
        utf16(seq![c]) == utf16_char(c),
{
    assert(seq![c].drop_first() =~= Seq::<char>::empty());
    assert(utf16(Seq::<char>::empty()) =~= Seq::<u16>::empty());
    assert(utf16(seq![c]) =~= utf16_char(c));
}

/// Lossy decoding gives back every encoded character sequence.
pub proof fn lemma_decode_utf16_roundtrip(s: Seq<char>)
    ensures
        decode_utf16_lossy(utf16(s)) == s,
    decreases s.len(),
{
    broadcast use vstd::utf8::char_u32_cast;
    if s.len() > 0 {
        let c = s[0];
        let v = c as u32;
        let rest = s.drop_first();
        let u = utf16(s);
        vstd::utf8::char_is_scalar(c);
        lemma_decode_utf16_roundtrip(rest);
        assert(u == utf16_char(c) + utf16(rest));
        if v < 0x10000 {
            assert(u[0] == v as u16);
            assert(u.drop_first() =~= utf16(rest));
            assert((u[0] as u32) == v);
            vstd::utf8::char_u32_cast(c, v);
        } else {
            let hi = (0xD800 + (v - 0x10000) / 0x400) as u16;
            let lo = (0xDC00 + (v - 0x10000) % 0x400) as u16;
            assert(u[0] == hi && u[1] == lo);
            let w = (v - 0x10000) as int;
            assert(w == (w / 0x400) * 0x400 + w % 0x400 && 0 <= w % 0x400 < 0x400) by (nonlinear_arith)
                requires w >= 0;
            assert(w / 0x400 < 0x400) by (nonlinear_arith)
                requires 0 <= w < 0x100000;
            assert(pair_scalar(hi, lo) == v);
            vstd::utf8::char_u32_cast(c, v);
            assert(u.subrange(2, u.len() as int) =~= utf16(rest));
        }
        assert(decode_utf16_lossy(u) =~= s);
    }
}

/// Appends the UTF-16 units of one character.
fn push_utf16(out: &mut Vec<u16>, c: char)
    ensures
        final(out)@ == old(out)@ + utf16_char(c),
{
    let v = c as u32;
    if v < 0x10000 {
        out.push(v as u16);
    } else {
        let w = v - 0x10000;
        out.push((0xD800 + w / 0x400) as u16);
        out.push((0xDC00 + w % 0x400) as u16);
    }
    assert(out@ =~= old(out)@ + utf16_char(c));
}

/// The UTF-16 code units of a string.
pub fn encode_utf16(s: &str) -> (r: Vec<u16>)
    ensures
        r@ == utf16(s@),
{
    let n = s.unicode_len();
    let mut out: Vec<u16> = Vec::new();
    let mut i: usize = 0;
    assert(s@.take(0) =~= Seq::<char>::empty());
    while i < n
        invariant
            i <= n,
            n == s@.len(),
            out@ == utf16(s@.take(i as int)),
        decreases n - i,
    {
        let c = s.get_char(i);
        proof {
            assert(s@.take(i + 1) =~= s@.take(i as int) + seq![c]);
            lemma_utf16_concat(s@.take(i as int), seq![c]);
            lemma_utf16_single(c);
        }
        push_utf16(&mut out, c);
        i += 1;
    }
    assert(s@.take(n as int) =~= s@);
    out
}

/// The character with a given scalar value (`char::from_u32`): `None` exactly
/// when the value is not a Unicode scalar.
#[verifier::external_body]
fn scalar_char(v: u32) -> (r: Option<char>)
    ensures
        vstd::utf8::is_scalar(v) ==> r == Some(v as char),
        !vstd::utf8::is_scalar(v) ==> r is None,
{
    char::from_u32(v)
}

/// Lossy decoding of UTF-16 units into a string (`String::from_utf16_lossy`).
pub fn decode_utf16(units: &Vec<u16>) -> (s: String)
    ensures
        s@ == decode_utf16_lossy(units@),
{
    let n = units.len();
    let mut out = String::new();
    let mut i: usize = 0;
    assert(units@.subrange(0, n as int) =~= units@);
    while i < n
        invariant
            i <= n,
            n == units@.len(),
            out@ + decode_utf16_lossy(units@.subrange(i as int, n as int)) == decode_utf16_lossy(units@),
        decreases n - i,
    {
        let ghost tail = units@.subrange(i as int, n as int);
        let a = units[i];
        if i + 1 < n && 0xD800 <= a && a <= 0xDBFF && 0xDC00 <= units[i + 1] && units[i + 1] <= 0xDFFF {
            let b = units[i + 1];
            let v: u32 = 0x10000 + ((a - 0xD800) as u32) * 0x400 + ((b - 0xDC00) as u32);
            proof {
                assert(tail[0] == a && tail[1] == b);
                assert(v == pair_scalar(a, b));
                assert(tail.subrange(2, tail.len() as int) =~= units@.subrange(i + 2, n as int));
            }
            match scalar_char(v) {
                Some(c) => push_char(&mut out, c),
                None => {},
            }
            i += 2;
        } else if 0xD800 <= a && a <= 0xDFFF {
            proof {
                assert(tail.drop_first() =~= units@.subrange(i + 1, n as int));
            }
            push_char(&mut out, '\u{FFFD}');
            i += 1;
        } else {
            proof {
                assert(tail.drop_first() =~= units@.subrange(i + 1, n as int));
            }
            match scalar_char(a as u32) {
                Some(c) => push_char(&mut out, c),
                None => {},
            }
            i += 1;
        }
        proof {
            assert(out@ + decode_utf16_lossy(units@.subrange(i as int, n as int)) =~= decode_utf16_lossy(units@));
        }
    }
    assert(units@.subrange(n as int, n as int) =~= Seq::<u16>::empty());
    assert(out@ + Seq::<char>::empty() =~= out@);
    out
}

} // verus!
