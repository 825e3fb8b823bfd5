//! Small text operations with exact contracts: equality, containment and decimal numbers.
use vstd::prelude::*;
use vstd::string::{StringExecFns, StringSliceAdditionalSpecFns};
use vstd::utf8::{encode_utf8, encode_utf8_decode_utf8, is_ascii_chars, is_ascii_chars_encode_utf8};

verus! {

/// Whether two texts are equal.
pub fn text_eq(a: &str, b: &str) -> (r: bool)
    ensures
        r == (a@ == b@),
{
    let ab = a.as_bytes();
    let bb = b.as_bytes();
    proof {
        encode_utf8_decode_utf8(a@);
        encode_utf8_decode_utf8(b@);
    }
    if ab.len() != bb.len() {
        return false;
    }
    let mut i: usize = 0;
    while i < ab.len()
        invariant
            ab@ == encode_utf8(a@),
            bb@ == encode_utf8(b@),
            ab@.len() == bb@.len(),
            i <= ab@.len(),
            forall|j: int| 0 <= j < i ==> ab@[j] == bb@[j],
        decreases ab.len() - i,
    {
        if ab[i] != bb[i] {
            return false;
        }
        i = i + 1;
    }
    assert(ab@ =~= bb@);
    true
}

/// Whether a byte is an ASCII decimal digit.
pub open spec fn is_digit(b: u8) -> bool {
    48 <= b <= 57
}

/// The number that a sequence of decimal digits denotes.
pub open spec fn digits_value(d: Seq<u8>) -> nat
    decreases d.len(),
{
    if d.len() == 0 {
        0
    } else {
        digits_value(d.drop_last()) * 10 + (d.last() - 48) as nat
    }
}

/// The digits of a decimal text: the bytes after an optional leading `+`.
pub open spec fn decimal_digits(bytes: Seq<u8>) -> Seq<u8> {
    if bytes.len() > 0 && bytes[0] == 43 {
        bytes.drop_first()
    } else {
        bytes
    }
}

/// The `u64` that a text denotes when it is parsed as a decimal number: an optional `+`
/// followed by one or more ASCII digits whose value fits in a `u64`.
pub open spec fn decimal_u64(bytes: Seq<u8>) -> Option<u64> {
    let d = decimal_digits(bytes);
    if d.len() > 0 && (forall|i: int| 0 <= i < d.len() ==> is_digit(#[trigger] d[i])) && digits_value(d)
        <= u64::MAX {
        Some(digits_value(d) as u64)
    } else {
        None
    }
}

proof fn lemma_digits_value_monotone(d: Seq<u8>, i: int)
    requires
        0 <= i <= d.len(),
        forall|k: int| 0 <= k < d.len() ==> is_digit(#[trigger] d[k]),
    ensures
        digits_value(d.take(i)) <= digits_value(d),
    decreases d.len() - i,
{
    if i < d.len() {
        lemma_digits_value_monotone(d, i + 1);
        assert(d.take(i + 1).drop_last() =~= d.take(i));
    } else {
        assert(d.take(i) =~= d);
    }
}

/// Parses a text as a decimal `u64`, as `str::parse::<u64>` does.
pub fn parse_u64(s: &str) -> (r: Option<u64>)
    ensures
        r == decimal_u64(s.spec_bytes()),
{
    let bytes = s.as_bytes();
    let start: usize = if bytes.len() > 0 && bytes[0] == 43 { 1 } else { 0 };
    let ghost d = decimal_digits(bytes@);
    assert(d =~= bytes@.subrange(start as int, bytes@.len() as int));
    if start >= bytes.len() {
        return None;
    }
    let mut value: u64 = 0;
    let mut i: usize = start;
    while i < bytes.len()
        invariant
            bytes@ == s.spec_bytes(),
            d == decimal_digits(bytes@),
            d =~= bytes@.subrange(start as int, bytes@.len() as int),
            start <= i <= bytes@.len(),
            forall|k: int| 0 <= k < i - start ==> is_digit(#[trigger] d[k]),
            value == digits_value(d.take(i - start)),
        decreases bytes.len() - i,
    {
        let b = bytes[i];
        assert(d[i - start] == b);
        assert(d.take(i - start + 1).drop_last() =~= d.take(i - start));
        if b < 48 || b > 57 {
            assert(!is_digit(d[i - start]));
            return None;
        }
        let digit = (b - 48) as u64;
        if value > (u64::MAX - digit) / 10 {
            proof {
                assert(digits_value(d.take(i - start + 1)) > u64::MAX) by (nonlinear_arith)
                    requires
                        digits_value(d.take(i - start + 1)) == value * 10 + digit,
                        value > (u64::MAX - digit) / 10,
                        digit <= 9,
                ;
                if forall|k: int| 0 <= k < d.len() ==> is_digit(#[trigger] d[k]) {
                    lemma_digits_value_monotone(d, i - start + 1);
                }
            }
            return None;
        }
        assert(value * 10 + digit <= u64::MAX) by (nonlinear_arith)
            requires
                value <= (u64::MAX - digit) / 10,
                digit <= 9,
        ;
        value = value * 10 + digit;
        i = i + 1;
    }
    assert(d.take(d.len() as int) =~= d);
    Some(value)
}

} // verus!

verus! {

/// The decimal digit character of a number below ten.
pub open spec fn digit_char(d: nat) -> char {
    if d == 0 {
        '0'
    } else if d == 1 {
        '1'
    } else if d == 2 {
        '2'
    } else if d == 3 {
        '3'
    } else if d == 4 {
        '4'
    } else if d == 5 {
        '5'
    } else if d == 6 {
        '6'
    } else if d == 7 {
        '7'
    } else if d == 8 {
        '8'
    } else {
        '9'
    }
}

/// The decimal notation of a number: its digits, most significant first, without leading
/// zeros (zero is `0`).
pub open spec fn decimal_chars(n: nat) -> Seq<char>
    decreases n,
{
    if n < 10 {
        seq![digit_char(n)]
    } else {
        decimal_chars(n / 10).push(digit_char(n % 10))
    }
}

fn digit_str(d: u64) -> (r: &'static str)
    requires
        d < 10,
    ensures
        r@ == seq![digit_char(d as nat)],
{
    proof {
        reveal_strlit("0");
        reveal_strlit("1");
        reveal_strlit("2");
        reveal_strlit("3");
        reveal_strlit("4");
        reveal_strlit("5");
        reveal_strlit("6");
        reveal_strlit("7");
        reveal_strlit("8");
        reveal_strlit("9");
    }
    if d == 0 {
        "0"
    } else if d == 1 {
        "1"
    } else if d == 2 {
        "2"
    } else if d == 3 {
        "3"
    } else if d == 4 {
        "4"
    } else if d == 5 {
        "5"
    } else if d == 6 {
        "6"
    } else if d == 7 {
        "7"
    } else if d == 8 {
        "8"
    } else {
        "9"
    }
}

/// Appends the decimal notation of `n` to `s`.
pub fn append_decimal(s: &mut String, n: u64)
    ensures
        final(s)@ == old(s)@ + decimal_chars(n as nat),
    decreases n,
{
    if n >= 10 {
        append_decimal(s, n / 10);
    }
    s.append(digit_str(n % 10));
    assert(s@ =~= old(s)@ + decimal_chars(n as nat));
}

/// The decimal notation of `n`, as `n.to_string()` writes it.
pub fn u64_to_decimal(n: u64) -> (r: String)
    ensures
        r@ == decimal_chars(n as nat),
{
    let mut s = String::new();
    append_decimal(&mut s, n);
    assert(s@ =~= decimal_chars(n as nat));
    s
}

/// `a` followed by `b`.
pub fn join_texts(a: &str, b: &str) -> (r: String)
    ensures
        r@ == a@ + b@,
{
    let mut s = a.to_owned();
    s.append(b);
    s
}

/// The bytes of the decimal notation of a number.
pub open spec fn decimal_bytes(n: nat) -> Seq<u8>
    decreases n,
{
    if n < 10 {
        seq![(48 + n) as u8]
    } else {
        decimal_bytes(n / 10).push((48 + n % 10) as u8)
    }
}

proof fn lemma_digit_char(d: nat)
    requires
        d < 10,
    ensures
        '\0' <= digit_char(d) <= '\u{7f}',
        digit_char(d) as u8 == (48 + d) as u8,
{
    if d == 0 {
        assert('0' as u8 == 48u8);
    } else if d == 1 {
        assert('1' as u8 == 49u8);
    } else if d == 2 {
        assert('2' as u8 == 50u8);
    } else if d == 3 {
        assert('3' as u8 == 51u8);
    } else if d == 4 {
        assert('4' as u8 == 52u8);
    } else if d == 5 {
        assert('5' as u8 == 53u8);
    } else if d == 6 {
        assert('6' as u8 == 54u8);
    } else if d == 7 {
        assert('7' as u8 == 55u8);
    } else if d == 8 {
        assert('8' as u8 == 56u8);
    } else {
        assert('9' as u8 == 57u8);
    }
}

proof fn lemma_decimal_chars_encode(n: nat)
    ensures
        is_ascii_chars(decimal_chars(n)),
        encode_utf8(decimal_chars(n)) == decimal_bytes(n),
    decreases n,
{
    let c = decimal_chars(n);
    let b = decimal_bytes(n);
    lemma_decimal_lengths(n);
    lemma_digit_char(n % 10);
    if n >= 10 {
        lemma_decimal_chars_encode(n / 10);
        lemma_decimal_lengths(n / 10);
        is_ascii_chars_encode_utf8(decimal_chars(n / 10));
        assert forall|i: int| 0 <= i < c.len() implies '\0' <= #[trigger] c[i] <= '\u{7f}' && c[i] as u8 == b[i] by {
            if i < c.len() - 1 {
                assert(c[i] == decimal_chars(n / 10)[i]);
                assert(b[i] == decimal_bytes(n / 10)[i]);
            }
        }
    } else {
        assert(n % 10 == n);
    }
    assert(is_ascii_chars(c));
    is_ascii_chars_encode_utf8(c);
    assert(encode_utf8(c) =~= b);
}

proof fn lemma_decimal_lengths(n: nat)
    ensures
        decimal_bytes(n).len() == decimal_chars(n).len(),
        decimal_bytes(n).len() > 0,
    decreases n,
{
    if n >= 10 {
        lemma_decimal_lengths(n / 10);
    }
}

proof fn lemma_decimal_bytes_value(n: nat)
    ensures
        forall|i: int| 0 <= i < decimal_bytes(n).len() ==> is_digit(#[trigger] decimal_bytes(n)[i]),
        digits_value(decimal_bytes(n)) == n,
        decimal_bytes(n)[0] != 43,
    decreases n,
{
    if n >= 10 {
        lemma_decimal_bytes_value(n / 10);
        lemma_decimal_lengths(n / 10);
        let b = decimal_bytes(n);
        assert(b.drop_last() =~= decimal_bytes(n / 10));
        assert(b[0] == decimal_bytes(n / 10)[0]);
        assert((n / 10) * 10 + n % 10 == n) by (nonlinear_arith);
        assert(n % 10 < 10);
        assert(b.last() == (48 + n % 10) as u8);
        assert(b.last() - 48 == n % 10);
        assert(digits_value(b) == digits_value(b.drop_last()) * 10 + (b.last() - 48) as nat);
    } else {
        let b = decimal_bytes(n);
        assert(b.drop_last() =~= Seq::<u8>::empty());
        assert(digits_value(b) == digits_value(b.drop_last()) * 10 + (b.last() - 48) as nat);
    }
}

/// Parsing the decimal notation of a number gives back the number: the count a calculator
/// shows in an input field reads back as that count.
pub proof fn lemma_decimal_round_trip(n: u64)
    ensures
        decimal_u64(encode_utf8(decimal_chars(n as nat))) == Some(n),
{
    lemma_decimal_chars_encode(n as nat);
    lemma_decimal_bytes_value(n as nat);
    lemma_decimal_lengths(n as nat);
    assert(decimal_digits(decimal_bytes(n as nat)) == decimal_bytes(n as nat));
}

/// Whether `needle` occurs in `haystack`.
pub open spec fn bytes_contain(haystack: Seq<u8>, needle: Seq<u8>) -> bool {
    exists|i: int| 0 <= i <= haystack.len() - needle.len() && #[trigger] haystack.subrange(i, i + needle.len()) == needle
}

/// Whether `needle` occurs in `haystack`, as `str::contains` with a text pattern decides it: on
/// their UTF-8 encodings.
pub fn text_contains(haystack: &str, needle: &str) -> (r: bool)
    ensures
        r == bytes_contain(haystack.spec_bytes(), needle.spec_bytes()),
{
    let h = haystack.as_bytes();
    let n = needle.as_bytes();
    if n.len() > h.len() {
        return false;
    }
    let h_len = h.len();
    let last = h_len - n.len();
    let mut i: usize = 0;
    while i <= last
        invariant
            h@ == haystack.spec_bytes(),
            n@ == needle.spec_bytes(),
            h_len == h@.len(),
            n@.len() <= h@.len(),
            last == h@.len() - n@.len(),
            i <= last,
            forall|k: int| 0 <= k < i ==> #[trigger] h@.subrange(k, k + n@.len()) != n@,
        decreases last - i,
    {
        let mut j: usize = 0;
        let mut same = true;
        while j < n.len()
            invariant
                h@ == haystack.spec_bytes(),
                n@ == needle.spec_bytes(),
                h_len == h@.len(),
                n@.len() <= h@.len(),
                last == h@.len() - n@.len(),
                i <= last,
                j <= n@.len(),
                same == (forall|m: int| 0 <= m < j ==> h@[i + m] == n@[m]),
            decreases n.len() - j,
        {
            if h[i + j] != n[j] {
                same = false;
            }
            j = j + 1;
        }
        if same {
            assert(h@.subrange(i as int, i + n@.len()) =~= n@);
            return true;
        }
        assert(h@.subrange(i as int, i + n@.len()) != n@) by {
            let m = choose|m: int| 0 <= m < n@.len() && h@[i + m] != n@[m];
            assert(h@.subrange(i as int, i + n@.len())[m] != n@[m]);
        }
        if i == last {
            return false;
        }
        i = i + 1;
    }
    false
}

} // verus!
