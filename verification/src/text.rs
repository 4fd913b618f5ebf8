//! Small text utilities with exact specifications: decimal formatting,
//! ASCII case-insensitive comparison, character prefixes and case mapping.

use vstd::prelude::*;

verus! {

/// The character of a decimal digit `d` (`0 <= d < 10`).
pub open spec fn digit_char(d: nat) -> char {
    (d + 48) as char
}

/// The decimal digits of `n`, most significant first, without leading zeros.
pub open spec fn decimal_digits(n: nat) -> Seq<char>
    decreases n,
{
    if n < 10 {
        seq![digit_char(n)]
    } else {
        decimal_digits(n / 10).push(digit_char(n % 10))
    }
}

/// The decimal text of an integer, with a leading `-` for negative values.
pub open spec fn decimal_text(i: int) -> Seq<char> {
    if i < 0 {
        seq!['-'] + decimal_digits((-i) as nat)
    } else {
        decimal_digits(i as nat)
    }
}

/// Appends a character to a string (`String::push`).
#[verifier::external_body]
pub(crate) fn push_char(s: &mut String, c: char)
    ensures
        final(s)@ == old(s)@.push(c),
{
    s.push(c);
}

fn digit(d: u64) -> (c: char)
    requires
        d < 10,
    ensures
        c == digit_char(d as nat),
{
    match d {
        0 => '0',
        1 => '1',
        2 => '2',
        3 => '3',
        4 => '4',
        5 => '5',
        6 => '6',
        7 => '7',
        8 => '8',
        _ => '9',
    }
}

/// Appends the decimal digits of `n` to `s`.
pub fn push_decimal(s: &mut String, n: u64)
    ensures
        final(s)@ == old(s)@ + decimal_digits(n as nat),
    decreases n,
{
    if n >= 10 {
        push_decimal(s, n / 10);
    }
    let ghost mid = s@;
    push_char(s, digit(n % 10));
    proof {
        if n >= 10 {
            assert(s@ =~= old(s)@ + decimal_digits(n as nat));
        } else {
            assert(s@ =~= old(s)@ + decimal_digits(n as nat));
        }
    }
}

/// The decimal text of an unsigned integer.
pub fn u64_text(n: u64) -> (s: String)
    ensures
        s@ == decimal_digits(n as nat),
{
    let mut s = String::new();
    push_decimal(&mut s, n);
    proof {
        assert(s@ =~= decimal_digits(n as nat));
    }
    s
}

/// The decimal text of a signed integer.
pub fn i64_text(i: i64) -> (s: String)
    ensures
        s@ == decimal_text(i as int),
{
    let mut s = String::new();
    if i < 0 {
        push_char(&mut s, '-');
        let magnitude: u64 = ((-(i + 1)) as u64) + 1;
        push_decimal(&mut s, magnitude);
    } else {
        push_decimal(&mut s, i as u64);
    }
    proof {
        assert(s@ =~= decimal_text(i as int));
    }
    s
}

} // verus!

verus! {

/// Whether two string slices hold the same characters (`<str as PartialEq>::eq`).
#[verifier::external_body]
pub(crate) fn text_eq(a: &str, b: &str) -> (res: bool)
    ensures
        res == (a@ == b@),
{
    a == b
}

} // verus!

verus! {

/// The lowercase hexadecimal digit of `d` (`0 <= d < 16`).
pub open spec fn hex_digit(d: nat) -> char {
    if d < 10 {
        (d + 48) as char
    } else {
        (d + 87) as char
    }
}

/// Lowercase hexadecimal text of a byte sequence, two digits per byte.
pub open spec fn hex_lower(bytes: Seq<u8>) -> Seq<char>
    decreases bytes.len(),
{
    if bytes.len() == 0 {
        Seq::empty()
    } else {
        hex_lower(bytes.drop_last()) + seq![
            hex_digit((bytes.last() / 16) as nat),
            hex_digit((bytes.last() % 16) as nat),
        ]
    }
}

fn hex_char(d: u8) -> (c: char)
    requires
        d < 16,
    ensures
        c == hex_digit(d as nat),
{
    match d {
        0 => '0',
        1 => '1',
        2 => '2',
        3 => '3',
        4 => '4',
        5 => '5',
        6 => '6',
        7 => '7',
        8 => '8',
        9 => '9',
        10 => 'a',
        11 => 'b',
        12 => 'c',
        13 => 'd',
        14 => 'e',
        _ => 'f',
    }
}

/// Lowercase hexadecimal text of `bytes`.
pub fn to_hex_lower(bytes: &[u8]) -> (s: String)
    ensures
        s@ == hex_lower(bytes@),
{
    let mut s = String::new();
    let n = bytes.len();
    for i in 0..n
        invariant
            n == bytes@.len(),
            s@ == hex_lower(bytes@.take(i as int)),
    {
        let b = bytes[i];
        let ghost prefix = bytes@.take(i + 1);
        assert(prefix.drop_last() =~= bytes@.take(i as int));
        assert(prefix.last() == b);
        push_char(&mut s, hex_char(b / 16));
        push_char(&mut s, hex_char(b % 16));
        assert(s@ =~= hex_lower(prefix));
    }
    assert(bytes@.take(n as int) =~= bytes@);
    s
}

/// Appends bytes to a byte vector.
pub fn append_bytes(v: &mut Vec<u8>, bytes: &[u8])
    ensures
        final(v)@ == old(v)@ + bytes@,
{
    let n = bytes.len();
    for i in 0..n
        invariant
            n == bytes@.len(),
            v@ == old(v)@ + bytes@.take(i as int),
    {
        v.push(bytes[i]);
        assert(old(v)@ + bytes@.take(i + 1) =~= (old(v)@ + bytes@.take(i as int)).push(bytes@[i as int]));
    }
    assert(bytes@.take(n as int) =~= bytes@);
}

/// The characters of `s` before the first occurrence of `sep`, or all of
/// `s` when `sep` does not occur.
pub open spec fn prefix_before(s: Seq<char>, sep: char) -> Seq<char>
    decreases s.len(),
{
    if s.len() == 0 {
        s
    } else if s[0] == sep {
        Seq::empty()
    } else {
        seq![s[0]] + prefix_before(s.drop_first(), sep)
    }
}

proof fn lemma_prefix_before_step(s: Seq<char>, sep: char, i: int)
    requires
        0 <= i < s.len(),
        forall|j: int| 0 <= j < i ==> s[j] != sep,
    ensures
        s[i] == sep ==> prefix_before(s, sep) == s.take(i),
        s[i] != sep ==> forall|j: int| 0 <= j <= i ==> s[j] != sep,
    decreases i,
{
    if i > 0 {
        assert forall|j: int| 0 <= j < i - 1 implies s.drop_first()[j] != sep by {
            assert(s.drop_first()[j] == s[j + 1]);
        }
        lemma_prefix_before_step(s.drop_first(), sep, i - 1);
        if s[i] == sep {
            assert(s.drop_first()[i - 1] == s[i]);
            assert(prefix_before(s.drop_first(), sep) == s.drop_first().take(i - 1));
            assert(seq![s[0]] + s.drop_first().take(i - 1) =~= s.take(i));
        }
    }
}

proof fn lemma_prefix_before_absent(s: Seq<char>, sep: char)
    requires
        forall|j: int| 0 <= j < s.len() ==> s[j] != sep,
    ensures
        prefix_before(s, sep) == s,
    decreases s.len(),
{
    if s.len() > 0 {
        assert forall|j: int| 0 <= j < s.drop_first().len() implies s.drop_first()[j] != sep by {
            assert(s.drop_first()[j] == s[j + 1]);
        }
        lemma_prefix_before_absent(s.drop_first(), sep);
        assert(seq![s[0]] + s.drop_first() =~= s);
    }
}

/// The part of `s` before the first `sep` (all of `s` when there is none).
pub fn text_before(s: &str, sep: char) -> (res: String)
    ensures
        res@ == prefix_before(s@, sep),
{
    let n = s.unicode_len();
    let mut res = String::new();
    let mut i: usize = 0;
    while i < n
        invariant
            n == s@.len(),
            i <= n,
            res@ == s@.take(i as int),
            forall|j: int| 0 <= j < i ==> s@[j] != sep,
        decreases n - i,
    {
        let c = s.get_char(i);
        proof {
            lemma_prefix_before_step(s@, sep, i as int);
        }
        if c == sep {
            return res;
        }
        push_char(&mut res, c);
        assert(s@.take(i + 1) =~= s@.take(i as int).push(c));
        i += 1;
    }
    proof {
        lemma_prefix_before_absent(s@, sep);
    }
    assert(s@.take(n as int) =~= s@);
    res
}

/// The first `count` characters of `s` (all of it when shorter).
pub fn char_prefix(s: &str, count: usize) -> (res: String)
    ensures
        res@ == if s@.len() <= count { s@ } else { s@.take(count as int) },
{
    let n = s.unicode_len();
    let end = if n < count {
        n
    } else {
        count
    };
    let res = s.substring_char(0, end).to_owned();
    assert(s@.subrange(0, n as int) =~= s@);
    res
}

} // verus!

verus! {

/// The Unicode uppercase mapping of a text (`str::to_uppercase`).
pub uninterp spec fn upper_case(s: Seq<char>) -> Seq<char>;

/// `str::to_uppercase`: the uppercase form of `s` under Unicode's mapping.
#[verifier::external_body]
pub(crate) fn to_upper(s: &str) -> (res: String)
    ensures
        res@ == upper_case(s@),
{
    s.to_uppercase()
}

/// ASCII case folding of one character: `A`-`Z` become `a`-`z`.
pub open spec fn ascii_fold(c: char) -> char {
    if 'A' <= c && c <= 'Z' {
        ((c as int) + 32) as char
    } else {
        c
    }
}

/// Whether two texts are equal when ASCII letters are compared without
/// regard to case (`str::eq_ignore_ascii_case`).
pub open spec fn eq_ignore_ascii_case(a: Seq<char>, b: Seq<char>) -> bool {
    a.len() == b.len() && forall|i: int| 0 <= i < a.len() ==> #[trigger] ascii_fold(a[i]) == ascii_fold(b[i])
}

fn fold_char(c: char) -> (r: char)
    ensures
        r == ascii_fold(c),
{
    if 'A' <= c && c <= 'Z' {
        let code = (c as u32) + 32;
        let r = match code {
            97 => 'a',
            98 => 'b',
            99 => 'c',
            100 => 'd',
            101 => 'e',
            102 => 'f',
            103 => 'g',
            104 => 'h',
            105 => 'i',
            106 => 'j',
            107 => 'k',
            108 => 'l',
            109 => 'm',
            110 => 'n',
            111 => 'o',
            112 => 'p',
            113 => 'q',
            114 => 'r',
            115 => 's',
            116 => 't',
            117 => 'u',
            118 => 'v',
            119 => 'w',
            120 => 'x',
            121 => 'y',
            _ => 'z',
        };
        r
    } else {
        c
    }
}

/// ASCII case-insensitive equality of two texts.
pub fn text_eq_ignore_ascii_case(a: &str, b: &str) -> (res: bool)
    ensures
        res == eq_ignore_ascii_case(a@, b@),
{
    let n = a.unicode_len();
    if n != b.unicode_len() {
        return false;
    }
    let mut i: usize = 0;
    while i < n
        invariant
            n == a@.len(),
            n == b@.len(),
            i <= n,
            forall|j: int| 0 <= j < i ==> #[trigger] ascii_fold(a@[j]) == ascii_fold(b@[j]),
        decreases n - i,
    {
        if fold_char(a.get_char(i)) != fold_char(b.get_char(i)) {
            return false;
        }
        i += 1;
    }
    true
}

/// The number of characters of `s` as an `i64` (saturating).
pub fn char_count(s: &str) -> (n: i64)
    ensures
        n == (if s@.len() <= i64::MAX { s@.len() as int } else { i64::MAX as int }),
{
    let len = s.unicode_len();
    if len as u64 <= i64::MAX as u64 {
        len as i64
    } else {
        i64::MAX
    }
}

} // verus!
