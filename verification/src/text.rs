//! Text helpers: comparing string slices, rendering and parsing numbers.

use vstd::prelude::*;

verus! {

/// Whether two string slices hold the same characters.
pub fn str_eq(a: &str, b: &str) -> (res: bool)
    ensures
        res == (a@ == b@),
{
    let n = a.unicode_len();
    if n != b.unicode_len() {
        return false;
    }
    let mut i: usize = 0;
    while i < n
        invariant
            n == a@.len(),
            n == b@.len(),
            i <= n,
            forall|j: int| 0 <= j < i ==> a@[j] == b@[j],
        decreases n - i,
    {
        if a.get_char(i) != b.get_char(i) {
            return false;
        }
        i = i + 1;
    }
    assert(a@ =~= b@);
    true
}


/// The lower-case digits `0-9a-f`, indexed by their value.
pub open spec fn digit_table() -> Seq<char> {
    seq!['0', '1', '2', '3', '4', '5', '6', '7', '8', '9', 'a', 'b', 'c', 'd', 'e', 'f']
}

/// The lower-case character for a digit value below 16.
pub open spec fn digit_char(d: nat) -> char {
    digit_table()[d as int]
}

/// The digits of `n` in base `radix` (10 or 16), most significant first, with
/// no leading zeros: what `{}` and `{:x}` print.
pub open spec fn radix_digits(n: nat, radix: nat) -> Seq<char>
    decreases n,
{
    if radix < 2 || n < radix {
        seq![digit_char(n)]
    } else {
        proof {
            assert(n / radix < n) by (nonlinear_arith)
                requires
                    radix >= 2,
                    n >= radix,
            ;
        }
        radix_digits(n / radix, radix).push(digit_char(n % radix))
    }
}

/// `s` preceded by as many `'0'` as make it at least `width` long: what a
/// `0`-flag with a width prints.
pub open spec fn zero_pad(s: Seq<char>, width: nat) -> Seq<char> {
    if s.len() >= width {
        s
    } else {
        Seq::new((width - s.len()) as nat, |i: int| '0') + s
    }
}

/// A one-character string slice for a digit value below 16.
fn digit_str(d: u32) -> (res: &'static str)
    requires
        d < 16,
    ensures
        res@ == seq![digit_char(d as nat)],
{
    proof {
        reveal_strlit("0");
        reveal_strlit("1");
        reveal_strlit("2");
        reveal_strlit("3");
        reveal_strlit("4");
        reveal_strlit("5");
        reveal_strlit("6");
        reveal_strlit("7");
        reveal_strlit("8");
        reveal_strlit("9");
        reveal_strlit("a");
        reveal_strlit("b");
        reveal_strlit("c");
        reveal_strlit("d");
        reveal_strlit("e");
        reveal_strlit("f");
    }
    let s = if d == 0 {
        "0"
    } else if d == 1 {
        "1"
    } else if d == 2 {
        "2"
    } else if d == 3 {
        "3"
    } else if d == 4 {
        "4"
    } else if d == 5 {
        "5"
    } else if d == 6 {
        "6"
    } else if d == 7 {
        "7"
    } else if d == 8 {
        "8"
    } else if d == 9 {
        "9"
    } else if d == 10 {
        "a"
    } else if d == 11 {
        "b"
    } else if d == 12 {
        "c"
    } else if d == 13 {
        "d"
    } else if d == 14 {
        "e"
    } else {
        "f"
    };
    assert(s@ =~= seq![digit_char(d as nat)]);
    s
}

/// Appends the digits of `n` in base `radix` to `out`.
fn push_digits(n: u32, radix: u32, out: &mut String)
    requires
        radix == 10 || radix == 16,
    ensures
        final(out)@ == old(out)@ + radix_digits(n as nat, radix as nat),
    decreases n,
{
    if n >= radix {
        push_digits(n / radix, radix, out);
    }
    out.append(digit_str(n % radix));
    assert(final(out)@ =~= old(out)@ + radix_digits(n as nat, radix as nat));
}

/// Renders `n` in base `radix` (10 or 16, lower-case), left-padded with zeros
/// to at least `width` characters.
pub fn format_radix(n: u32, radix: u32, width: usize) -> (res: String)
    requires
        radix == 10 || radix == 16,
    ensures
        res@ == zero_pad(radix_digits(n as nat, radix as nat), width as nat),
{
    let mut digits = String::new();
    push_digits(n, radix, &mut digits);
    assert(digits@ =~= radix_digits(n as nat, radix as nat));
    let len = digits.as_str().unicode_len();
    let mut out = String::new();
    if len < width {
        let pad = width - len;
        let mut i: usize = 0;
        while i < pad
            invariant
                i <= pad,
                out@ =~= Seq::new(i as nat, |k: int| '0'),
            decreases pad - i,
        {
            proof {
                reveal_strlit("0");
                assert("0"@ =~= seq!['0']);
            }
            out.append("0");
            i = i + 1;
        }
    }
    out.append(digits.as_str());
    out
}

/// Renders `n` in decimal, as `{}` does.
pub fn decimal(n: u32) -> (res: String)
    ensures
        res@ == radix_digits(n as nat, 10),
{
    format_radix(n, 10, 0)
}


/// The value of an ASCII alphanumeric digit: `0-9` count 0 to 9, `a-z` and
/// `A-Z` count 10 to 35; any other character has no value (`-1`).
pub open spec fn char_value(c: char) -> int {
    let v = c as int;
    if 48 <= v <= 57 {
        v - 48
    } else if 97 <= v <= 122 {
        v - 87
    } else if 65 <= v <= 90 {
        v - 55
    } else {
        -1
    }
}

/// Whether `c` is a digit in base `radix`.
pub open spec fn is_digit(c: char, radix: nat) -> bool {
    0 <= char_value(c) < radix
}

/// Whether every character of `s` is a digit in base `radix`.
pub open spec fn all_digits(s: Seq<char>, radix: nat) -> bool {
    forall|i: int| 0 <= i < s.len() ==> #[trigger] is_digit(s[i], radix)
}

/// The number that the digits `s` denote in base `radix`.
pub open spec fn digits_value(s: Seq<char>, radix: nat) -> int
    decreases s.len(),
{
    if s.len() == 0 {
        0
    } else {
        digits_value(s.drop_last(), radix) * radix + char_value(s.last())
    }
}

/// `s` without one leading `'+'`, if it has one.
pub open spec fn unsigned_body(s: Seq<char>) -> Seq<char> {
    if s.len() > 0 && s[0] == '+' {
        s.drop_first()
    } else {
        s
    }
}

/// What `u32::from_str_radix` accepts: an optional `'+'`, then at least one
/// digit in base `radix`, nothing else, and a value that fits in 32 bits.
pub open spec fn parse_u32_spec(s: Seq<char>, radix: nat) -> Option<u32> {
    let body = unsigned_body(s);
    if body.len() > 0 && all_digits(body, radix) && digits_value(body, radix) <= u32::MAX {
        Some(digits_value(body, radix) as u32)
    } else {
        None
    }
}

/// The value of a character as a digit, or 99 where it is none.
fn char_digit(c: char) -> (d: u32)
    ensures
        char_value(c) >= 0 ==> d == char_value(c),
        char_value(c) < 0 ==> d == 99,
{
    let v = c as u32;
    if 48 <= v && v <= 57 {
        v - 48
    } else if 97 <= v && v <= 122 {
        v - 87
    } else if 65 <= v && v <= 90 {
        v - 55
    } else {
        99
    }
}

/// With all digits valid, a prefix of `s` denotes no more than `s` does.
proof fn lemma_prefix_value_le(s: Seq<char>, k: int, radix: nat)
    requires
        0 <= k <= s.len(),
        radix >= 2,
        all_digits(s, radix),
    ensures
        0 <= digits_value(s.take(k), radix) <= digits_value(s, radix),
    decreases s.len(),
{
    if s.len() == 0 {
        assert(s.take(k) =~= s);
    } else if k == s.len() {
        assert(s.take(k) =~= s);
        lemma_prefix_value_le(s.drop_last(), k - 1, radix);
        assert(s.drop_last().take(k - 1) =~= s.drop_last());
        assert(is_digit(s[s.len() - 1], radix));
        let v = digits_value(s.drop_last(), radix);
        assert(v * radix >= 0) by (nonlinear_arith)
            requires
                v >= 0,
                radix >= 2,
        ;
    } else {
        let t = s.drop_last();
        assert(all_digits(t, radix)) by {
            assert forall|i: int| 0 <= i < t.len() implies #[trigger] is_digit(t[i], radix) by {
                assert(is_digit(s[i], radix));
            }
        }
        lemma_prefix_value_le(t, k, radix);
        lemma_prefix_value_le(t, t.len() as int, radix);
        assert(t.take(t.len() as int) =~= t);
        assert(t.take(k) =~= s.take(k));
        assert(is_digit(s[s.len() - 1], radix));
        let v = digits_value(t, radix);
        assert(v * radix >= v) by (nonlinear_arith)
            requires
                v >= 0,
                radix >= 2,
        ;
    }
}

/// Parses `s` as an unsigned 32-bit number in base `radix`, accepting exactly
/// what `u32::from_str_radix` accepts.
pub fn parse_u32(s: &str, radix: u32) -> (res: Option<u32>)
    requires
        2 <= radix <= 36,
    ensures
        res == parse_u32_spec(s@, radix as nat),
{
    let n = s.unicode_len();
    let mut start: usize = 0;
    if n > 0 && s.get_char(0) == '+' {
        start = 1;
    }
    let ghost body = s@.subrange(start as int, n as int);
    assert(body =~= unsigned_body(s@));
    if start == n {
        return None;
    }
    let mut acc: u64 = 0;
    let mut i: usize = start;
    while i < n
        invariant
            n == s@.len(),
            start <= i <= n,
            2 <= radix <= 36,
            body == s@.subrange(start as int, n as int),
            body == unsigned_body(s@),
            acc == digits_value(body.take(i - start), radix as nat),
            acc <= u32::MAX,
            forall|j: int| 0 <= j < i - start ==> #[trigger] is_digit(body[j], radix as nat),
        decreases n - i,
    {
        let c = s.get_char(i);
        let d = char_digit(c);
        assert(c == body[i - start]);
        if d >= radix {
            assert(!is_digit(body[i - start], radix as nat));
            return None;
        }
        assert(acc * (radix as u64) <= 0xffff_ffffu64 * 36) by (nonlinear_arith)
            requires
                acc <= 0xffff_ffffu64,
                radix <= 36,
        ;
        assert(body.take(i - start + 1).drop_last() =~= body.take(i - start));
        assert(body.take(i - start + 1).last() == c);
        let next: u64 = acc * (radix as u64) + (d as u64);
        assert(next == digits_value(body.take(i - start + 1), radix as nat));
        if next > 0xffff_ffffu64 {
            proof {
                if all_digits(body, radix as nat) {
                    lemma_prefix_value_le(body, i - start + 1, radix as nat);
                }
            }
            return None;
        }
        acc = next;
        i = i + 1;
    }
    assert(body.take(n - start) =~= body);
    Some(acc as u32)
}


/// Each digit character reads back as its value, and none of them is `'+'`.
proof fn lemma_digit_char(d: nat, radix: nat)
    requires
        d < radix,
        radix <= 16,
    ensures
        char_value(digit_char(d)) == d as int,
        is_digit(digit_char(d), radix),
        digit_char(d) != '+',
{
    let t = digit_table();
    assert(t[0] == '0' && t[1] == '1' && t[2] == '2' && t[3] == '3');
    assert(t[4] == '4' && t[5] == '5' && t[6] == '6' && t[7] == '7');
    assert(t[8] == '8' && t[9] == '9' && t[10] == 'a' && t[11] == 'b');
    assert(t[12] == 'c' && t[13] == 'd' && t[14] == 'e' && t[15] == 'f');
}

/// The digits of `n` are valid, non-empty, do not start with `'+'`, and
/// denote `n`.
proof fn lemma_radix_digits(n: nat, radix: nat)
    requires
        radix == 10 || radix == 16,
    ensures
        radix_digits(n, radix).len() > 0,
        radix_digits(n, radix)[0] != '+',
        all_digits(radix_digits(n, radix), radix),
        digits_value(radix_digits(n, radix), radix) == n,
    decreases n,
{
    let s = radix_digits(n, radix);
    if n < radix {
        lemma_digit_char(n, radix);
        assert(s.drop_last() =~= Seq::<char>::empty());
        assert(digits_value(s, radix) == digits_value(s.drop_last(), radix) * radix + char_value(
            s.last(),
        ));
    } else {
        assert(n / radix < n) by (nonlinear_arith)
            requires
                radix >= 2,
                n >= radix,
        ;
        assert(n % radix < radix) by (nonlinear_arith)
            requires
                radix >= 2,
        ;
        lemma_radix_digits(n / radix, radix);
        lemma_digit_char(n % radix, radix);
        let t = radix_digits(n / radix, radix);
        assert(s.drop_last() =~= t);
        assert forall|i: int| 0 <= i < s.len() implies #[trigger] is_digit(s[i], radix) by {
            if i < t.len() {
                assert(is_digit(t[i], radix));
            }
        }
        assert(n == (n / radix) * radix + n % radix) by (nonlinear_arith)
            requires
                radix >= 2,
        ;
        assert(s.last() == digit_char(n % radix));
        assert(digits_value(s, radix) == digits_value(t, radix) * radix + char_value(
            digit_char(n % radix),
        ));
    }
}

/// A run of `'0'` denotes zero.
proof fn lemma_zeros_value(k: nat, radix: nat)
    requires
        radix >= 2,
    ensures
        digits_value(Seq::new(k, |i: int| '0'), radix) == 0,
    decreases k,
{
    if k > 0 {
        lemma_zeros_value((k - 1) as nat, radix);
        assert(Seq::new(k, |i: int| '0').drop_last() =~= Seq::new((k - 1) as nat, |i: int| '0'));
    }
}

/// Leading zeros do not change the value of a digit string.
proof fn lemma_leading_zeros_value(k: nat, s: Seq<char>, radix: nat)
    requires
        radix >= 2,
    ensures
        digits_value(Seq::new(k, |i: int| '0') + s, radix) == digits_value(s, radix),
    decreases s.len(),
{
    let z = Seq::new(k, |i: int| '0');
    if s.len() == 0 {
        assert(z + s =~= z);
        lemma_zeros_value(k, radix);
    } else {
        lemma_leading_zeros_value(k, s.drop_last(), radix);
        assert((z + s).drop_last() =~= z + s.drop_last());
        assert((z + s).last() == s.last());
    }
}

/// Rendering a number in base 10 or 16, with or without zero padding, and
/// parsing the text back in the same base gives the number again.
pub proof fn lemma_parse_format_roundtrip(n: u32, radix: nat, width: nat)
    requires
        radix == 10 || radix == 16,
    ensures
        parse_u32_spec(zero_pad(radix_digits(n as nat, radix), width), radix) == Some(n),
{
    let d = radix_digits(n as nat, radix);
    lemma_radix_digits(n as nat, radix);
    let p = zero_pad(d, width);
    if d.len() < width {
        let k = (width - d.len()) as nat;
        let z = Seq::new(k, |i: int| '0');
        assert(p == z + d);
        lemma_leading_zeros_value(k, d, radix);
        assert(p[0] == '0');
        lemma_digit_char(0, radix);
        assert(digit_char(0) == '0');
        assert forall|i: int| 0 <= i < p.len() implies #[trigger] is_digit(p[i], radix) by {
            if i >= k {
                assert(p[i] == d[i - k]);
                assert(is_digit(d[i - k], radix));
            }
        }
        assert(unsigned_body(p) == p);
    } else {
        assert(unsigned_body(p) == p);
    }
}

} // verus!
