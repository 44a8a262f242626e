//! Texts on the wire: decimal numbers, the response envelope, and the
//! canonical JSON form of a character.
//!
//! The client writes every number in plain decimal — digits only, one
//! leading `-` for negatives, no leading zeros — escapes text for the
//! inside of JSON string literals, and wraps every successful payload in
//! the `{"data":...}` envelope.  The spec functions here define those
//! texts character by character; the executable functions produce and
//! read exactly them.

use vstd::prelude::*;
use vstd::string::{StrSliceExecFns, StringExecFns};

use crate::models::Character;

verus! {

/// Characters with the same code point are the same character.
proof fn lemma_char_code_injective(c1: char, c2: char)
    requires
        c1 as u32 == c2 as u32,
    ensures
        c1 == c2,
{
}

/// The decimal digit character for `d` (0 to 9).
pub open spec fn spec_digit(d: int) -> char {
    if d == 0 {
        '0'
    } else if d == 1 {
        '1'
    } else if d == 2 {
        '2'
    } else if d == 3 {
        '3'
    } else if d == 4 {
        '4'
    } else if d == 5 {
        '5'
    } else if d == 6 {
        '6'
    } else if d == 7 {
        '7'
    } else if d == 8 {
        '8'
    } else {
        '9'
    }
}

/// The decimal text of a natural number: no sign, no leading zeros.
pub open spec fn spec_dec_nat(n: nat) -> Seq<char>
    decreases n,
{
    if n < 10 {
        seq![spec_digit(n as int)]
    } else {
        spec_dec_nat(n / 10) + seq![spec_digit((n % 10) as int)]
    }
}

/// The decimal text of an integer: a `-` before the digits if negative.
pub open spec fn spec_dec_int(n: int) -> Seq<char> {
    if n < 0 {
        seq!['-'] + spec_dec_nat((-n) as nat)
    } else {
        spec_dec_nat(n as nat)
    }
}

/// A decimal digit character.
pub open spec fn spec_is_digit(c: char) -> bool {
    '0' <= c && c <= '9'
}

/// The numeric value of a digit character.
pub open spec fn spec_digit_value(c: char) -> int {
    c as int - '0' as int
}

/// The value of a digit string, read left to right.
pub open spec fn spec_digits_value(s: Seq<char>) -> int
    decreases s.len(),
{
    if s.len() == 0 {
        0
    } else {
        spec_digits_value(s.drop_last()) * 10 + spec_digit_value(s.last())
    }
}

/// The uppercase hexadecimal digit character for `d` (0 to 15).
pub open spec fn spec_hex_digit(d: int) -> char {
    if d < 10 {
        spec_digit(d)
    } else if d == 10 {
        'A'
    } else if d == 11 {
        'B'
    } else if d == 12 {
        'C'
    } else if d == 13 {
        'D'
    } else if d == 14 {
        'E'
    } else {
        'F'
    }
}

/// An uppercase hexadecimal digit character.
pub open spec fn spec_is_upper_hex(c: char) -> bool {
    ('0' <= c && c <= '9') || ('A' <= c && c <= 'F')
}

/// The numeric value of an uppercase hexadecimal digit character.
pub open spec fn spec_hex_value(c: char) -> int {
    if c <= '9' {
        c as int - '0' as int
    } else {
        c as int - 'A' as int + 10
    }
}

/// Distinct values have distinct hexadecimal digit characters.
proof fn lemma_hex_digit_injective(d1: int, d2: int)
    requires
        0 <= d1 < 16,
        0 <= d2 < 16,
        spec_hex_digit(d1) == spec_hex_digit(d2),
    ensures
        d1 == d2,
{
}

/// Each uppercase hexadecimal digit character is the digit of its value.
proof fn lemma_hex_value_char(c: char)
    requires
        spec_is_upper_hex(c),
    ensures
        0 <= spec_hex_value(c) < 16,
        spec_hex_digit(spec_hex_value(c)) == c,
{
}

/// A character that stands for itself inside a JSON string literal:
/// anything but the double quote, the backslash and the controls.
pub open spec fn spec_json_plain(c: char) -> bool {
    c != '"' && c != '\\' && c as u32 >= 0x20
}

/// How one character is written inside a JSON string literal: plain
/// characters stand for themselves, the double quote and the backslash
/// take a leading backslash, and a control character becomes `\u00` and
/// two uppercase hexadecimal digits.
pub open spec fn spec_escape_char(c: char) -> Seq<char> {
    if c == '"' {
        seq!['\\', '"']
    } else if c == '\\' {
        seq!['\\', '\\']
    } else if (c as u32) < 0x20 {
        seq![
            '\\',
            'u',
            '0',
            '0',
            spec_hex_digit(c as u32 as int / 16),
            spec_hex_digit(c as u32 as int % 16),
        ]
    } else {
        seq![c]
    }
}

/// A text as it is written inside a JSON string literal.
pub open spec fn spec_escape(s: Seq<char>) -> Seq<char>
    decreases s.len(),
{
    if s.len() == 0 {
        Seq::empty()
    } else {
        spec_escape_char(s[0]) + spec_escape(s.drop_first())
    }
}

/// The shape of one character's escape: one to six characters, never
/// opening with a double quote, opening with a backslash exactly when the
/// character does not stand for itself.
proof fn lemma_escape_char_shape(c: char)
    ensures
        1 <= spec_escape_char(c).len() <= 6,
        spec_escape_char(c)[0] != '"',
        spec_json_plain(c) ==> spec_escape_char(c) == seq![c],
        !spec_json_plain(c) ==> spec_escape_char(c)[0] == '\\' && spec_escape_char(c).len() >= 2,
        !spec_json_plain(c) ==> (spec_escape_char(c)[1] == '"' || spec_escape_char(c)[1] == '\\'
            || spec_escape_char(c)[1] == 'u'),
        spec_escape_char(c)[1] == 'u' && !spec_json_plain(c) ==> spec_escape_char(c).len() == 6,
{
}

/// Escaping distributes over appending one character.
proof fn lemma_escape_snoc(s: Seq<char>, c: char)
    ensures
        spec_escape(s + seq![c]) == spec_escape(s) + spec_escape_char(c),
    decreases s.len(),
{
    if s.len() == 0 {
        assert((s + seq![c])[0] == c);
        assert((s + seq![c]).drop_first() =~= Seq::<char>::empty());
        assert(spec_escape(Seq::<char>::empty()) == Seq::<char>::empty());
        assert(spec_escape(s + seq![c]) == spec_escape_char(c) + Seq::<char>::empty());
        assert(spec_escape(s + seq![c]) =~= spec_escape(s) + spec_escape_char(c));
    } else {
        assert((s + seq![c])[0] == s[0]);
        assert((s + seq![c]).drop_first() =~= s.drop_first() + seq![c]);
        lemma_escape_snoc(s.drop_first(), c);
        assert(spec_escape(s + seq![c]) == spec_escape_char(s[0]) + (spec_escape(s.drop_first())
            + spec_escape_char(c)));
        assert(spec_escape(s + seq![c]) =~= spec_escape(s) + spec_escape_char(c));
    }
}

/// Escape texts align chunk by chunk: where one text's escape is a prefix
/// of another's, the texts themselves align character for character, and
/// the remainder of the longer escape is the escape of the remainder.
proof fn lemma_escape_prefix(a: Seq<char>, b: Seq<char>)
    requires
        spec_escape(a).len() <= spec_escape(b).len(),
        spec_escape(b).take(spec_escape(a).len() as int) == spec_escape(a),
    ensures
        a.len() <= b.len(),
        b.take(a.len() as int) == a,
        spec_escape(b).skip(spec_escape(a).len() as int) == spec_escape(b.skip(a.len() as int)),
    decreases a.len(),
{
    if a.len() == 0 {
        assert(b.take(0) =~= a);
        assert(b.skip(0) =~= b);
        assert(spec_escape(b).skip(0) =~= spec_escape(b));
    } else {
        let ca = a[0];
        let cha = spec_escape_char(ca);
        lemma_escape_char_shape(ca);
        assert(spec_escape(a) == cha + spec_escape(a.drop_first()));
        assert(b.len() > 0) by {
            if b.len() == 0 {
                assert(spec_escape(b).len() == 0);
            }
        }
        let cb = b[0];
        let chb = spec_escape_char(cb);
        lemma_escape_char_shape(cb);
        assert(spec_escape(b) == chb + spec_escape(b.drop_first()));
        assert(spec_escape(b)[0] == spec_escape(a)[0]) by {
            assert(spec_escape(b).take(spec_escape(a).len() as int)[0] == spec_escape(b)[0]);
        }
        assert(cha[0] == chb[0]);
        assert(ca == cb) by {
            if spec_json_plain(ca) {
                assert(cha[0] == ca);
                assert(chb[0] != '\\');
                assert(spec_json_plain(cb));
                assert(chb == seq![cb]);
                assert(ca == cb);
            } else {
                assert(cha[0] == '\\');
                assert(!spec_json_plain(cb));
                assert(spec_escape(a)[1] == cha[1]);
                assert(spec_escape(b)[1] == spec_escape(a)[1]) by {
                    assert(spec_escape(b).take(spec_escape(a).len() as int)[1] == spec_escape(
                        b,
                    )[1]);
                }
                assert(cha[1] == chb[1]);
                if ca == '"' {
                    assert(chb[1] == '"');
                    assert(cb == '"');
                } else if ca == '\\' {
                    assert(chb[1] == '\\');
                    assert(cb == '\\');
                } else {
                    assert(cha[1] == 'u');
                    assert((ca as u32) < 0x20);
                    assert(chb[1] == 'u');
                    assert(cb != '"' && cb != '\\');
                    assert((cb as u32) < 0x20);
                    assert(cha.len() == 6 && chb.len() == 6);
                    assert(spec_escape(a).len() >= 6);
                    assert(forall|k: int|
                        0 <= k < 6 ==> spec_escape(a)[k] == cha[k] && spec_escape(b)[k]
                            == chb[k]);
                    assert(forall|k: int|
                        0 <= k < 6 ==> spec_escape(b).take(spec_escape(a).len() as int)[k]
                            == spec_escape(b)[k]);
                    assert(cha[4] == chb[4] && cha[5] == chb[5]);
                    assert(spec_hex_digit(ca as u32 as int / 16) == spec_hex_digit(
                        cb as u32 as int / 16,
                    ));
                    assert(spec_hex_digit(ca as u32 as int % 16) == spec_hex_digit(
                        cb as u32 as int % 16,
                    ));
                    lemma_hex_digit_injective(ca as u32 as int / 16, cb as u32 as int / 16);
                    lemma_hex_digit_injective(ca as u32 as int % 16, cb as u32 as int % 16);
                    assert(ca as u32 == cb as u32);
                    lemma_char_code_injective(ca, cb);
                }
            }
        }
        assert(cha == chb);
        let ea2 = spec_escape(a.drop_first());
        let eb2 = spec_escape(b.drop_first());
        assert(eb2.take(ea2.len() as int) =~= ea2) by {
            assert forall|k: int| 0 <= k < ea2.len() implies eb2[k] == ea2[k] by {
                assert(spec_escape(a)[cha.len() + k] == ea2[k]);
                assert(spec_escape(b)[cha.len() + k] == eb2[k]);
                assert(spec_escape(b).take(spec_escape(a).len() as int)[cha.len() + k]
                    == spec_escape(b)[cha.len() + k]);
            }
        }
        lemma_escape_prefix(a.drop_first(), b.drop_first());
        assert(b.take(a.len() as int) =~= a) by {
            assert forall|k: int| 0 <= k < a.len() implies b.take(a.len() as int)[k] == a[k] by {
                if k > 0 {
                    assert(b.drop_first().take((a.len() - 1) as int)[k - 1] == a.drop_first()[k
                        - 1]);
                }
            }
        }
        assert(b.drop_first().skip((a.len() - 1) as int) =~= b.skip(a.len() as int));
        assert(spec_escape(b).skip(spec_escape(a).len() as int) =~= spec_escape(
            b.skip(a.len() as int),
        )) by {
            let la = spec_escape(a).len() as int;
            assert forall|k: int|
                0 <= k < spec_escape(b).len() - la implies spec_escape(b).skip(la)[k]
                == spec_escape(b.skip(a.len() as int))[k] by {
                assert(spec_escape(b)[la + k] == eb2[ea2.len() + k]);
                assert(eb2.skip(ea2.len() as int)[k] == eb2[ea2.len() + k]);
                assert(eb2.skip(ea2.len() as int) == spec_escape(b.drop_first().skip((a.len()
                    - 1) as int)));
            }
        }
    }
}

/// An escaped text stands in `s` from `i` up to the double quote at `j`
/// that closes it.
pub open spec fn spec_escaped_name_at(s: Seq<char>, i: int, j: int, n: Seq<char>) -> bool {
    &&& 0 <= i <= j < s.len()
    &&& s[j] == '"'
    &&& s.subrange(i, j) == spec_escape(n)
}

/// Where a decoded stretch and a longer escaped name share their start,
/// the decoded text is a prefix of the name, and the rest of the name's
/// escape follows the stretch.
proof fn lemma_escape_scan_align(s: Seq<char>, i: int, m: int, d: Seq<char>, j: int, n: Seq<char>)
    requires
        0 <= i <= m <= s.len(),
        s.subrange(i, m) == spec_escape(d),
        spec_escaped_name_at(s, i, j, n),
        m <= j,
    ensures
        d.len() <= n.len(),
        n.take(d.len() as int) == d,
        s.subrange(m, j) == spec_escape(n.skip(d.len() as int)),
{
    assert(spec_escape(d).len() == m - i);
    assert(spec_escape(n).len() == j - i);
    assert(spec_escape(n).take(m - i) =~= spec_escape(d)) by {
        assert forall|k: int| 0 <= k < m - i implies spec_escape(n)[k] == spec_escape(d)[k] by {
            assert(s.subrange(i, j)[k] == s[i + k]);
            assert(s.subrange(i, m)[k] == s[i + k]);
        }
    }
    lemma_escape_prefix(d, n);
    assert(s.subrange(m, j) =~= spec_escape(n).skip(m - i)) by {
        assert forall|k: int| 0 <= k < j - m implies s.subrange(m, j)[k] == spec_escape(n).skip(
            m - i,
        )[k] by {
            assert(s.subrange(i, j)[m - i + k] == s[m + k]);
        }
    }
}

/// The closing double quote of an escaped name never falls strictly
/// inside a stretch that decodes as an escape with the same start.
proof fn lemma_escape_quote_not_inside(
    s: Seq<char>,
    i: int,
    m: int,
    d: Seq<char>,
    j: int,
    n: Seq<char>,
)
    requires
        0 <= i <= m <= s.len(),
        s.subrange(i, m) == spec_escape(d),
        spec_escaped_name_at(s, i, j, n),
    ensures
        j >= m,
{
    if j < m {
        assert(spec_escape(n).len() == j - i);
        assert(spec_escape(d).len() == m - i);
        assert(spec_escape(d).take(j - i) =~= spec_escape(n)) by {
            assert forall|k: int| 0 <= k < j - i implies spec_escape(d)[k] == spec_escape(
                n,
            )[k] by {
                assert(s.subrange(i, m)[k] == s[i + k]);
                assert(s.subrange(i, j)[k] == s[i + k]);
            }
        }
        lemma_escape_prefix(n, d);
        let rest = d.skip(n.len() as int);
        assert(spec_escape(rest) == spec_escape(d).skip(j - i));
        assert(spec_escape(rest).len() == m - j);
        assert(rest.len() > 0) by {
            if rest.len() == 0 {
                assert(spec_escape(rest).len() == 0);
            }
        }
        assert(spec_escape(rest) == spec_escape_char(rest[0]) + spec_escape(rest.drop_first()));
        lemma_escape_char_shape(rest[0]);
        assert(spec_escape(rest)[0] != '"');
        assert(spec_escape(d).skip(j - i)[0] == spec_escape(d)[j - i]);
        assert(spec_escape(d)[j - i] == s.subrange(i, m)[j - i]);
        assert(s[j] == '"');
    }
}

/// Relies on `String::push`: appends exactly the one character to the end
/// of the string.
#[verifier::external_body]
pub(crate) fn push_char(out: &mut String, c: char)
    ensures
        final(out)@ == old(out)@ + seq![c],
{
    out.push(c);
}

/// The decimal digit character for `d` (0 to 9).
fn digit_char(d: u8) -> (c: char)
    requires
        d < 10,
    ensures
        c == spec_digit(d as int),
{
    match d {
        0u8 => '0',
        1u8 => '1',
        2u8 => '2',
        3u8 => '3',
        4u8 => '4',
        5u8 => '5',
        6u8 => '6',
        7u8 => '7',
        8u8 => '8',
        _ => '9',
    }
}

/// The uppercase hexadecimal digit character for `d` (0 to 15).
fn hex_digit_char(d: u8) -> (c: char)
    requires
        d < 16,
    ensures
        c == spec_hex_digit(d as int),
{
    if d < 10 {
        digit_char(d)
    } else {
        match d {
            10u8 => 'A',
            11u8 => 'B',
            12u8 => 'C',
            13u8 => 'D',
            14u8 => 'E',
            _ => 'F',
        }
    }
}

/// Appends `s`, escaped for the inside of a JSON string literal, to
/// `out`.
pub fn push_escaped(out: &mut String, s: &str)
    ensures
        final(out)@ == old(out)@ + spec_escape(s@),
{
    let len = s.unicode_len();
    let mut tmp = String::new();
    let mut i: usize = 0;
    while i < len
        invariant
            len == s@.len(),
            i <= len,
            tmp@ == spec_escape(s@.subrange(0, i as int)),
        decreases len - i,
    {
        let c = s.get_char(i);
        let ghost prefix = s@.subrange(0, i as int);
        if c == '"' {
            push_char(&mut tmp, '\\');
            push_char(&mut tmp, '"');
        } else if c == '\\' {
            push_char(&mut tmp, '\\');
            push_char(&mut tmp, '\\');
        } else if (c as u32) < 0x20 {
            push_char(&mut tmp, '\\');
            push_char(&mut tmp, 'u');
            push_char(&mut tmp, '0');
            push_char(&mut tmp, '0');
            let v = c as u32;
            let hi = hex_digit_char((v / 16) as u8);
            let lo = hex_digit_char((v % 16) as u8);
            push_char(&mut tmp, hi);
            push_char(&mut tmp, lo);
        } else {
            push_char(&mut tmp, c);
        }
        proof {
            lemma_escape_snoc(prefix, c);
            assert(prefix + seq![c] =~= s@.subrange(0, i + 1));
            assert(tmp@ =~= spec_escape(s@.subrange(0, i + 1)));
        }
        i = i + 1;
    }
    proof {
        assert(s@.subrange(0, len as int) =~= s@);
    }
    out.append(tmp.as_str());
}

/// Appends the decimal text of `n` to `out`.
pub fn push_u64(out: &mut String, n: u64)
    ensures
        final(out)@ == old(out)@ + spec_dec_nat(n as nat),
    decreases n,
{
    if n >= 10 {
        push_u64(out, n / 10);
        let d = digit_char((n % 10) as u8);
        push_char(out, d);
        proof {
            assert(out@ =~= old(out)@ + spec_dec_nat(n as nat));
        }
    } else {
        let d = digit_char(n as u8);
        push_char(out, d);
    }
}

/// Appends the decimal text of `n` to `out`.
pub fn push_u32(out: &mut String, n: u32)
    ensures
        final(out)@ == old(out)@ + spec_dec_nat(n as nat),
{
    push_u64(out, n as u64);
}

/// Appends the decimal text of `n` to `out`, with a leading `-` if it is
/// negative.
pub fn push_i64(out: &mut String, n: i64)
    ensures
        final(out)@ == old(out)@ + spec_dec_int(n as int),
{
    if n < 0 {
        push_char(out, '-');
        let m: u64 = (-(n as i128)) as u64;
        push_u64(out, m);
        proof {
            assert(out@ =~= old(out)@ + spec_dec_int(n as int));
        }
    } else {
        push_u64(out, n as u64);
    }
}

/// Appends the decimal text of `n` to `out`, with a leading `-` if it is
/// negative.
pub fn push_i32(out: &mut String, n: i32)
    ensures
        final(out)@ == old(out)@ + spec_dec_int(n as int),
{
    push_i64(out, n as i64);
}

/// The decimal text of `n`, as a fresh string.
pub fn format_u64(n: u64) -> (r: String)
    ensures
        r@ == spec_dec_nat(n as nat),
{
    let mut out = String::new();
    push_u64(&mut out, n);
    proof {
        assert(out@ =~= spec_dec_nat(n as nat));
    }
    out
}

/// The decimal text of `n`, as a fresh string.
pub fn format_i64(n: i64) -> (r: String)
    ensures
        r@ == spec_dec_int(n as int),
{
    let mut out = String::new();
    push_i64(&mut out, n);
    proof {
        assert(out@ =~= spec_dec_int(n as int));
    }
    out
}


/// Each digit character maps to its value and back.
proof fn lemma_digit_char_props(d: int)
    requires
        0 <= d < 10,
    ensures
        spec_is_digit(spec_digit(d)),
        spec_digit_value(spec_digit(d)) == d,
{
}

/// Each digit character is the digit of its value.
proof fn lemma_digit_value_char(c: char)
    requires
        spec_is_digit(c),
    ensures
        0 <= spec_digit_value(c) < 10,
        spec_digit(spec_digit_value(c)) == c,
{
}

/// The decimal text of a number is nonempty, all digits, and has no
/// leading zero.
proof fn lemma_dec_nat_props(n: nat)
    ensures
        spec_dec_nat(n).len() >= 1,
        forall|k: int| 0 <= k < spec_dec_nat(n).len() ==> spec_is_digit(#[trigger] spec_dec_nat(n)[k]),
        spec_dec_nat(n).len() > 1 ==> spec_dec_nat(n)[0] != '0',
        n < 10 ==> spec_dec_nat(n) == seq![spec_digit(n as int)],
        n >= 1 ==> spec_dec_nat(n)[0] != '0',
    decreases n,
{
    if n < 10 {
        lemma_digit_char_props(n as int);
    } else {
        lemma_dec_nat_props(n / 10);
        lemma_digit_char_props((n % 10) as int);
        let t = spec_dec_nat(n / 10);
        let d = spec_digit((n % 10) as int);
        assert(spec_dec_nat(n) == t + seq![d]);
        assert(forall|k: int|
            0 <= k < spec_dec_nat(n).len() ==> spec_is_digit(#[trigger] spec_dec_nat(n)[k]));
    }
}

/// Reading the decimal text of `n` back as digits yields `n`.
proof fn lemma_digits_value_dec_nat(n: nat)
    ensures
        spec_digits_value(spec_dec_nat(n)) == n,
    decreases n,
{
    if n < 10 {
        lemma_digit_char_props(n as int);
        assert(spec_dec_nat(n).drop_last() =~= Seq::<char>::empty());
        assert(spec_digits_value(Seq::<char>::empty()) == 0);
        assert(spec_dec_nat(n).last() == spec_digit(n as int));
    } else {
        lemma_digits_value_dec_nat(n / 10);
        lemma_digit_char_props((n % 10) as int);
        let t = spec_dec_nat(n / 10);
        let d = spec_digit((n % 10) as int);
        assert((t + seq![d]).drop_last() =~= t);
        assert((t + seq![d]).last() == d);
    }
}

/// The value of a digit string is not negative.
proof fn lemma_digits_value_nonneg(t: Seq<char>)
    requires
        forall|k: int| 0 <= k < t.len() ==> spec_is_digit(#[trigger] t[k]),
    ensures
        spec_digits_value(t) >= 0,
    decreases t.len(),
{
    if t.len() > 0 {
        lemma_digits_value_nonneg(t.drop_last());
        lemma_digit_value_char(t.last());
    }
}

/// A digit string with no leading zero is the decimal text of its value.
proof fn lemma_dec_nat_of_digits(t: Seq<char>)
    requires
        t.len() >= 1,
        forall|k: int| 0 <= k < t.len() ==> spec_is_digit(#[trigger] t[k]),
        t.len() > 1 ==> t[0] != '0',
    ensures
        spec_digits_value(t) >= 0,
        t[0] != '0' ==> spec_digits_value(t) >= 1,
        t.len() > 1 ==> spec_digits_value(t) >= 10,
        spec_dec_nat(spec_digits_value(t) as nat) == t,
    decreases t.len(),
{
    lemma_digits_value_nonneg(t);
    if t.len() == 1 {
        lemma_digit_value_char(t[0]);
        assert(t.drop_last() =~= Seq::<char>::empty());
        assert(spec_digits_value(Seq::<char>::empty()) == 0);
        assert(spec_digits_value(t) == spec_digit_value(t[0]));
        assert(spec_dec_nat(spec_digits_value(t) as nat) == seq![spec_digit(spec_digit_value(t[0]))]);
        assert(spec_dec_nat(spec_digits_value(t) as nat) =~= t);
    } else {
        let t2 = t.drop_last();
        let c = t.last();
        lemma_digit_value_char(c);
        lemma_dec_nat_of_digits(t2);
        let v2 = spec_digits_value(t2);
        let d = spec_digit_value(c);
        let v = spec_digits_value(t);
        assert(v == v2 * 10 + d);
        assert(v2 >= 1);
        assert(v >= 10);
        assert(v / 10 == v2 && v % 10 == d);
        assert(spec_dec_nat(v as nat) == spec_dec_nat(v2 as nat) + seq![spec_digit(d)]);
        assert(spec_dec_nat(v as nat) =~= t);
    }
}

/// The value of a prefix of a digit string is at most the whole value.
proof fn lemma_digits_value_prefix(t: Seq<char>, k: int)
    requires
        0 <= k <= t.len(),
        forall|m: int| 0 <= m < t.len() ==> spec_is_digit(#[trigger] t[m]),
    ensures
        0 <= spec_digits_value(t.take(k)) <= spec_digits_value(t),
    decreases t.len() - k,
{
    if k == t.len() {
        assert(t.take(k) =~= t);
        lemma_digits_value_nonneg(t);
    } else {
        let t2 = t.drop_last();
        assert(t.take(k) =~= t2.take(k));
        lemma_digits_value_prefix(t2, k);
        lemma_digits_value_nonneg(t2);
        lemma_digit_value_char(t.last());
    }
}

/// A literal stands in `s` at position `i`.
pub open spec fn spec_lit_at(s: Seq<char>, i: int, lit: Seq<char>) -> bool {
    &&& 0 <= i
    &&& i + lit.len() <= s.len()
    &&& s.subrange(i, i + lit.len()) == lit
}

/// Matches `lit` in `s` at position `i`: returns the position after it
/// exactly when the literal stands there.
fn expect_lit(s: &str, i: usize, lit: &str) -> (r: Option<usize>)
    requires
        i <= s@.len(),
    ensures
        r matches Some(j) ==> j == i + lit@.len() && spec_lit_at(s@, i as int, lit@),
        r is None ==> !spec_lit_at(s@, i as int, lit@),
{
    let n = s.unicode_len();
    let m = lit.unicode_len();
    if m > n - i {
        return None;
    }
    let mut k: usize = 0;
    while k < m
        invariant
            i + m <= n,
            n == s@.len(),
            m == lit@.len(),
            k <= m,
            forall|t: int| 0 <= t < k ==> s@[i + t] == lit@[t],
        decreases m - k,
    {
        let a = s.get_char(i + k);
        let b = lit.get_char(k);
        if a != b {
            proof {
                assert(s@.subrange(i as int, i + lit@.len()) != lit@) by {
                    if s@.subrange(i as int, i + lit@.len()) == lit@ {
                        assert(s@.subrange(i as int, i + lit@.len())[k as int] == s@[i + k]);
                    }
                }
            }
            return None;
        }
        k = k + 1;
    }
    proof {
        assert(s@.subrange(i as int, i + lit@.len()) =~= lit@);
    }
    Some(i + m)
}

/// The value of an uppercase hexadecimal digit character.
fn hex_value_exec(c: char) -> (d: u32)
    requires
        spec_is_upper_hex(c),
    ensures
        d == spec_hex_value(c),
        d < 16,
{
    if c <= '9' {
        (c as u32) - 0x30
    } else {
        (c as u32) - 0x41 + 10
    }
}

/// The digit character of a hexadecimal value is an uppercase hex digit.
proof fn lemma_hex_digit_is_upper_hex(d: int)
    requires
        0 <= d < 16,
    ensures
        spec_is_upper_hex(spec_hex_digit(d)),
        spec_hex_value(spec_hex_digit(d)) == d,
{
}

/// Scans an escaped name from `i` up to its closing double quote,
/// decoding the JSON string escapes: succeeds with the decoded text and
/// the quote's position exactly when an escaped text closed by a quote
/// stands there.
#[verifier::rlimit(100)]
fn scan_name(s: &str, i: usize) -> (r: Option<(String, usize)>)
    requires
        i <= s@.len(),
    ensures
        r matches Some((nm, j)) ==> spec_escaped_name_at(s@, i as int, j as int, nm@),
        forall|n: Seq<char>, j: int|
            spec_escaped_name_at(s@, i as int, j, n) ==> r is Some && (r->0).1 == j && (
            r->0).0@ == n,
{
    let len = s.unicode_len();
    let ghost sv = s@;
    let mut m = i;
    let mut nm = String::new();
    loop
        invariant
            i <= m <= len,
            len == sv.len(),
            sv == s@,
            sv.subrange(i as int, m as int) == spec_escape(nm@),
        decreases len - m,
    {
        if m == len {
            proof {
                assert forall|n: Seq<char>, j: int| !spec_escaped_name_at(sv, i as int, j, n) by {
                    if spec_escaped_name_at(sv, i as int, j, n) {
                        lemma_escape_quote_not_inside(sv, i as int, m as int, nm@, j, n);
                    }
                }
            }
            return None;
        }
        let c = s.get_char(m);
        if c == '"' {
            proof {
                assert(spec_escaped_name_at(sv, i as int, m as int, nm@));
                assert forall|n: Seq<char>, j: int|
                    spec_escaped_name_at(sv, i as int, j, n) implies j == m as int && n
                    == nm@ by {
                    lemma_escape_quote_not_inside(sv, i as int, m as int, nm@, j, n);
                    lemma_escape_quote_not_inside(sv, i as int, j, n, m as int, nm@);
                    assert(j == m as int);
                    assert(spec_escape(n) == sv.subrange(i as int, m as int));
                    assert(spec_escape(nm@).take(spec_escape(n).len() as int) =~= spec_escape(
                        n,
                    ));
                    lemma_escape_prefix(n, nm@);
                    let r2 = nm@.skip(n.len() as int);
                    assert(spec_escape(r2).len() == 0);
                    assert(r2.len() == 0) by {
                        if r2.len() > 0 {
                            assert(spec_escape(r2) == spec_escape_char(r2[0]) + spec_escape(
                                r2.drop_first(),
                            ));
                            lemma_escape_char_shape(r2[0]);
                        }
                    }
                    assert(n.len() == nm@.len());
                    assert(nm@.take(n.len() as int) =~= nm@);
                }
            }
            return Some((nm, m));
        }
        if c == '\\' {
            if m + 1 >= len {
                proof {
                    assert forall|n: Seq<char>, j: int|
                        !spec_escaped_name_at(sv, i as int, j, n) by {
                        if spec_escaped_name_at(sv, i as int, j, n) {
                            lemma_escape_quote_not_inside(sv, i as int, m as int, nm@, j, n);
                            assert(j != m as int);
                            lemma_escape_scan_align(sv, i as int, m as int, nm@, j, n);
                            let n2 = n.skip(nm@.len() as int);
                            assert(n2.len() > 0) by {
                                if n2.len() == 0 {
                                    assert(spec_escape(n2).len() == 0);
                                }
                            }
                            assert(sv.subrange(m as int, j) == spec_escape(n2));
                            assert(sv.subrange(m as int, j)[0] == sv[m as int]);
                            assert(spec_escape(n2) == spec_escape_char(n2[0]) + spec_escape(
                                n2.drop_first(),
                            ));
                            lemma_escape_char_shape(n2[0]);
                            assert(sv[m as int] == spec_escape_char(n2[0])[0]);
                            assert(!spec_json_plain(n2[0]));
                            assert(j - m >= 2);
                        }
                    }
                }
                return None;
            }
            let e = s.get_char(m + 1);
            if e == '"' || e == '\\' {
                let decoded: char = if e == '"' {
                    '"'
                } else {
                    '\\'
                };
                let ghost before = nm@;
                push_char(&mut nm, decoded);
                proof {
                    lemma_escape_snoc(before, decoded);
                    assert(spec_escape_char(decoded) =~= seq!['\\', decoded]);
                    assert(sv.subrange(i as int, m + 2) =~= spec_escape(before) + seq![
                        '\\',
                        decoded,
                    ]);
                    assert(before + seq![decoded] =~= nm@);
                    assert(sv.subrange(i as int, m + 2) == spec_escape(nm@));
                }
                m = m + 2;
            } else if e == 'u' {
                proof {
                    assert forall|n: Seq<char>, j: int|
                        spec_escaped_name_at(sv, i as int, j, n) implies j - m >= 6 && ({
                        let n2 = n.skip(nm@.len() as int);
                        &&& !spec_json_plain(n2[0])
                        &&& (n2[0] as u32) < 0x20
                        &&& sv.subrange(m as int, j).take(6) =~= spec_escape_char(n2[0])
                    }) by {
                        lemma_escape_quote_not_inside(sv, i as int, m as int, nm@, j, n);
                        assert(j != m as int);
                        lemma_escape_scan_align(sv, i as int, m as int, nm@, j, n);
                        let n2 = n.skip(nm@.len() as int);
                        assert(n2.len() > 0) by {
                            if n2.len() == 0 {
                                assert(spec_escape(n2).len() == 0);
                            }
                        }
                        assert(sv.subrange(m as int, j) == spec_escape(n2));
                        assert(sv.subrange(m as int, j)[0] == sv[m as int]);
                        assert(spec_escape(n2) == spec_escape_char(n2[0]) + spec_escape(
                            n2.drop_first(),
                        ));
                        lemma_escape_char_shape(n2[0]);
                        assert(sv[m as int] == spec_escape_char(n2[0])[0]);
                        assert(!spec_json_plain(n2[0]));
                        assert(sv.subrange(m as int, j)[1] == sv[m + 1]);
                        assert(spec_escape_char(n2[0])[1] == 'u');
                        assert(n2[0] != '"' && n2[0] != '\\');
                        assert((n2[0] as u32) < 0x20);
                        assert(spec_escape_char(n2[0]).len() == 6);
                        assert(j - m >= 6);
                        assert(sv.subrange(m as int, j).take(6) =~= spec_escape_char(n2[0]));
                    }
                }
                if len - m < 6 {
                    proof {
                        assert forall|n: Seq<char>, j: int|
                            !spec_escaped_name_at(sv, i as int, j, n) by {
                            if spec_escaped_name_at(sv, i as int, j, n) {
                                assert(j - m >= 6);
                            }
                        }
                    }
                    return None;
                }
                let h2 = s.get_char(m + 2);
                let h3 = s.get_char(m + 3);
                let h4 = s.get_char(m + 4);
                let h5 = s.get_char(m + 5);
                let hi_ok = h4 == '0' || h4 == '1';
                let lo_ok = ('0' <= h5 && h5 <= '9') || ('A' <= h5 && h5 <= 'F');
                if h2 != '0' || h3 != '0' || !hi_ok || !lo_ok {
                    proof {
                        assert forall|n: Seq<char>, j: int|
                            !spec_escaped_name_at(sv, i as int, j, n) by {
                            if spec_escaped_name_at(sv, i as int, j, n) {
                                let n2 = n.skip(nm@.len() as int);
                                let v0 = n2[0] as u32 as int;
                                lemma_hex_digit_is_upper_hex(v0 / 16);
                                lemma_hex_digit_is_upper_hex(v0 % 16);
                                assert(sv.subrange(m as int, j).take(6)[2] == sv[m + 2]);
                                assert(sv.subrange(m as int, j).take(6)[3] == sv[m + 3]);
                                assert(sv.subrange(m as int, j).take(6)[4] == sv[m + 4]);
                                assert(sv.subrange(m as int, j).take(6)[5] == sv[m + 5]);
                                assert(sv[m + 2] == '0' && sv[m + 3] == '0');
                                assert(sv[m + 4] == spec_hex_digit(v0 / 16));
                                assert(sv[m + 5] == spec_hex_digit(v0 % 16));
                                assert(v0 / 16 == 0 || v0 / 16 == 1);
                                assert(spec_is_upper_hex(sv[m + 5]));
                            }
                        }
                    }
                    return None;
                }
                let v: u32 = hex_value_exec(h4) * 16 + hex_value_exec(h5);
                let decoded: char = (v as u8) as char;
                let ghost before = nm@;
                push_char(&mut nm, decoded);
                proof {
                    lemma_escape_snoc(before, decoded);
                    assert(decoded as u32 == v);
                    assert((decoded as u32) < 0x20);
                    assert(decoded != '"' && decoded != '\\');
                    lemma_hex_value_char(h4);
                    lemma_hex_value_char(h5);
                    assert(v as int / 16 == spec_hex_value(h4) && v as int % 16 == spec_hex_value(
                        h5,
                    ));
                    assert(spec_escape_char(decoded) =~= seq!['\\', 'u', '0', '0', h4, h5]);
                    assert(sv.subrange(i as int, m + 6) =~= spec_escape(before) + seq![
                        '\\',
                        'u',
                        '0',
                        '0',
                        h4,
                        h5,
                    ]);
                    assert(before + seq![decoded] =~= nm@);
                    assert(sv.subrange(i as int, m + 6) == spec_escape(nm@));
                }
                m = m + 6;
            } else {
                proof {
                    assert forall|n: Seq<char>, j: int|
                        !spec_escaped_name_at(sv, i as int, j, n) by {
                        if spec_escaped_name_at(sv, i as int, j, n) {
                            lemma_escape_quote_not_inside(sv, i as int, m as int, nm@, j, n);
                            assert(j != m as int);
                            lemma_escape_scan_align(sv, i as int, m as int, nm@, j, n);
                            let n2 = n.skip(nm@.len() as int);
                            assert(n2.len() > 0) by {
                                if n2.len() == 0 {
                                    assert(spec_escape(n2).len() == 0);
                                }
                            }
                            assert(sv.subrange(m as int, j) == spec_escape(n2));
                            assert(sv.subrange(m as int, j)[0] == sv[m as int]);
                            assert(spec_escape(n2) == spec_escape_char(n2[0]) + spec_escape(
                                n2.drop_first(),
                            ));
                            lemma_escape_char_shape(n2[0]);
                            assert(sv[m as int] == spec_escape_char(n2[0])[0]);
                            assert(!spec_json_plain(n2[0]));
                            assert(sv.subrange(m as int, j)[1] == sv[m + 1]);
                            assert(sv[m + 1] == spec_escape_char(n2[0])[1]);
                        }
                    }
                }
                return None;
            }
        } else if (c as u32) < 0x20 {
            proof {
                assert forall|n: Seq<char>, j: int| !spec_escaped_name_at(sv, i as int, j, n) by {
                    if spec_escaped_name_at(sv, i as int, j, n) {
                        lemma_escape_quote_not_inside(sv, i as int, m as int, nm@, j, n);
                        assert(j != m as int);
                        lemma_escape_scan_align(sv, i as int, m as int, nm@, j, n);
                        let n2 = n.skip(nm@.len() as int);
                        assert(n2.len() > 0) by {
                            if n2.len() == 0 {
                                assert(spec_escape(n2).len() == 0);
                            }
                        }
                        assert(sv.subrange(m as int, j) == spec_escape(n2));
                        assert(sv.subrange(m as int, j)[0] == sv[m as int]);
                        assert(spec_escape(n2) == spec_escape_char(n2[0]) + spec_escape(
                            n2.drop_first(),
                        ));
                        lemma_escape_char_shape(n2[0]);
                        assert(sv[m as int] == spec_escape_char(n2[0])[0]);
                        if spec_json_plain(n2[0]) {
                            assert(n2[0] == c);
                        } else {
                            assert(c == '\\');
                        }
                    }
                }
            }
            return None;
        } else {
            let ghost before = nm@;
            push_char(&mut nm, c);
            proof {
                lemma_escape_snoc(before, c);
                assert(spec_json_plain(c));
                assert(spec_escape_char(c) =~= seq![c]);
                assert(sv.subrange(i as int, m + 1) =~= spec_escape(before) + seq![c]);
                assert(before + seq![c] =~= nm@);
                assert(sv.subrange(i as int, m + 1) == spec_escape(nm@));
            }
            m = m + 1;
        }
    }
}

/// The decimal text of the natural number `v` stands in `s` from `i` to
/// `j`, and is not followed by a further digit.
pub open spec fn spec_nat_at(s: Seq<char>, i: int, j: int, v: nat) -> bool {
    &&& 0 <= i <= j <= s.len()
    &&& s.subrange(i, j) == spec_dec_nat(v)
    &&& (j == s.len() || !spec_is_digit(s[j]))
}

/// Reads a decimal natural number at `i`: succeeds with its value and end
/// position exactly when one stands there (no leading zero, not followed
/// by a digit) and its value fits in `u64`.
fn parse_nat_at(s: &str, i: usize) -> (r: Option<(u64, usize)>)
    requires
        i <= s@.len(),
    ensures
        r matches Some((v, j)) ==> spec_nat_at(s@, i as int, j as int, v as nat) && i < j,
        forall|v: u64, j: int| spec_nat_at(s@, i as int, j, v as nat) ==> r == Some((v, j as usize)),
{
    let n = s.unicode_len();
    let ghost sv = s@;
    if i == n {
        proof {
            assert forall|v: u64, j: int| !spec_nat_at(sv, i as int, j, v as nat) by {
                if spec_nat_at(sv, i as int, j, v as nat) {
                    lemma_dec_nat_props(v as nat);
                }
            }
        }
        return None;
    }
    let c0 = s.get_char(i);
    if !('0' <= c0 && c0 <= '9') {
        proof {
            assert forall|v: u64, j: int| !spec_nat_at(sv, i as int, j, v as nat) by {
                if spec_nat_at(sv, i as int, j, v as nat) {
                    lemma_dec_nat_props(v as nat);
                    assert(sv.subrange(i as int, j)[0] == sv[i as int]);
                }
            }
        }
        return None;
    }
    let mut acc: u64 = digit_value_exec(c0);
    let mut j: usize = i + 1;
    proof {
        assert(sv.subrange(i as int, j as int) =~= seq![sv[i as int]]);
        assert(sv.subrange(i as int, j as int).drop_last() =~= Seq::<char>::empty());
        assert(spec_digits_value(Seq::<char>::empty()) == 0);
        assert(acc == spec_digits_value(sv.subrange(i as int, j as int)));
    }
    loop
        invariant_except_break
            i < j <= n,
            n == sv.len(),
            sv == s@,
            acc == spec_digits_value(sv.subrange(i as int, j as int)),
            forall|k: int| i <= k < j ==> spec_is_digit(#[trigger] sv[k]),
        ensures
            i < j <= n,
            n == sv.len(),
            acc == spec_digits_value(sv.subrange(i as int, j as int)),
            forall|k: int| i <= k < j ==> spec_is_digit(#[trigger] sv[k]),
            j == n || !spec_is_digit(sv[j as int]),
        decreases n - j,
    {
        if j == n {
            break ;
        }
        let c = s.get_char(j);
        if !('0' <= c && c <= '9') {
            break ;
        }
        let d: u64 = digit_value_exec(c);
        proof {
            let run = sv.subrange(i as int, j + 1);
            assert(run.drop_last() =~= sv.subrange(i as int, j as int));
            assert(run.last() == sv[j as int]);
            assert(spec_digits_value(run) == acc * 10 + d);
        }
        if acc > (u64::MAX - d) / 10 {
            // the number here does not fit in u64
            proof {
                let run = sv.subrange(i as int, j + 1);
                assert forall|v: u64, jj: int| !spec_nat_at(sv, i as int, jj, v as nat) by {
                    if spec_nat_at(sv, i as int, jj, v as nat) {
                        let t = sv.subrange(i as int, jj);
                        lemma_dec_nat_props(v as nat);
                        lemma_digits_value_dec_nat(v as nat);
                        assert(jj > j) by {
                            if jj <= j {
                                assert(spec_is_digit(sv[jj]));
                            }
                        }
                        assert(forall|k: int|
                            0 <= k < t.len() ==> spec_is_digit(#[trigger] t[k]));
                        assert(forall|k: int| i <= k < jj ==> t[k - i] == sv[k]);
                        assert(forall|k: int| i <= k < jj ==> spec_is_digit(#[trigger] sv[k]));
                        assert(run =~= t.take(j + 1 - i));
                        lemma_digits_value_prefix(t, j + 1 - i);
                        assert(spec_digits_value(run) <= v);
                    }
                }
            }
            return None;
        }
        acc = acc * 10 + d;
        j = j + 1;
    }
    // the run s[i..j] is all digits and nothing follows it but a non-digit
    if c0 == '0' && j > i + 1 {
        // a leading zero: not a decimal text
        proof {
            assert forall|v: u64, jj: int| !spec_nat_at(sv, i as int, jj, v as nat) by {
                if spec_nat_at(sv, i as int, jj, v as nat) {
                    let t = sv.subrange(i as int, jj);
                    lemma_dec_nat_props(v as nat);
                    assert(jj == j) by {
                        if i < jj < j {
                            assert(spec_is_digit(sv[jj]));
                        }
                        if jj > j {
                            assert(sv[j as int] == t[j - i]);
                            assert(spec_is_digit(t[j - i]));
                        }
                    }
                    assert(t[0] == sv[i as int]);
                }
            }
        }
        return None;
    }
    proof {
        let t = sv.subrange(i as int, j as int);
        assert(t[0] == sv[i as int]);
        lemma_dec_nat_of_digits(t);
        assert(spec_nat_at(sv, i as int, j as int, acc as nat));
        assert forall|v: u64, jj: int|
            spec_nat_at(sv, i as int, jj, v as nat) implies v == acc && jj == j as int by {
            let t2 = sv.subrange(i as int, jj);
            lemma_dec_nat_props(v as nat);
            lemma_digits_value_dec_nat(v as nat);
            assert(jj == j) by {
                if i < jj < j {
                    assert(spec_is_digit(sv[jj]));
                }
                if jj > j {
                    assert(sv[j as int] == t2[j - i]);
                    assert(spec_is_digit(t2[j - i]));
                }
            }
        }
    }
    Some((acc, j))
}

/// The value of one digit character.
fn digit_value_exec(c: char) -> (d: u64)
    requires
        spec_is_digit(c),
    ensures
        d == spec_digit_value(c),
        d < 10,
{
    (c as u8 - 0x30) as u64
}


/// The decimal text of the integer `v` stands in `s` from `i` to `j`, and
/// is not followed by a further digit.
pub open spec fn spec_int_at(s: Seq<char>, i: int, j: int, v: int) -> bool {
    &&& 0 <= i <= j <= s.len()
    &&& s.subrange(i, j) == spec_dec_int(v)
    &&& (j == s.len() || !spec_is_digit(s[j]))
}

/// Reads a decimal integer at `i`: succeeds with its value and end
/// position exactly when one stands there and its value fits in `i64`.
fn parse_i64_at(s: &str, i: usize) -> (r: Option<(i64, usize)>)
    requires
        i <= s@.len(),
    ensures
        r matches Some((v, j)) ==> spec_int_at(s@, i as int, j as int, v as int) && i < j,
        forall|v: i64, j: int| spec_int_at(s@, i as int, j, v as int) ==> r == Some((v, j as usize)),
{
    let n = s.unicode_len();
    let ghost sv = s@;
    if i < n && s.get_char(i) == '-' {
        proof {
            assert forall|v: i64, j: int|
                spec_int_at(sv, i as int, j, v as int) implies v < 0 && spec_nat_at(
                sv,
                i + 1,
                j,
                (-v) as nat,
            ) by {
                lemma_dec_nat_props(if v >= 0 { v as nat } else { (-v) as nat });
                if v >= 0 {
                    assert(sv.subrange(i as int, j)[0] == sv[i as int]);
                    assert(spec_is_digit('-') == false);
                } else {
                    assert(sv.subrange(i as int, j) == seq!['-'] + spec_dec_nat((-v) as nat));
                    assert(sv.subrange(i as int, j).len() == 1 + spec_dec_nat((-v) as nat).len());
                    assert(j - i >= 2);
                    assert(sv.subrange(i + 1, j) =~= sv.subrange(i as int, j).subrange(
                        1,
                        j - i,
                    ));
                    assert(sv.subrange(i as int, j).subrange(1, j - i) =~= spec_dec_nat(
                        (-v) as nat,
                    ));
                }
            }
        }
        match parse_nat_at(s, i + 1) {
            Some((m, j)) => {
                if m == 0 {
                    proof {
                        assert forall|v: i64, jj: int| !spec_int_at(sv, i as int, jj, v as int) by {
                            if spec_int_at(sv, i as int, jj, v as int) {
                                lemma_digits_value_dec_nat((-v) as nat);
                            }
                        }
                    }
                    None
                } else if m > 9223372036854775808u64 {
                    proof {
                        assert forall|v: i64, jj: int| !spec_int_at(sv, i as int, jj, v as int) by {
                            if spec_int_at(sv, i as int, jj, v as int) {
                            }
                        }
                    }
                    None
                } else {
                    let v: i64 = if m == 9223372036854775808u64 {
                        i64::MIN
                    } else {
                        -(m as i64)
                    };
                    proof {
                        assert(sv.subrange(i as int, j as int) =~= seq!['-'] + sv.subrange(
                            i + 1,
                            j as int,
                        ));
                        assert(spec_dec_int(v as int) == seq!['-'] + spec_dec_nat((-v) as nat));
                        assert(spec_int_at(sv, i as int, j as int, v as int));
                    }
                    Some((v, j))
                }
            },
            None => {
                proof {
                    assert forall|v: i64, jj: int| !spec_int_at(sv, i as int, jj, v as int) by {
                        if spec_int_at(sv, i as int, jj, v as int) {
                            let m2: u64 = ((-v) as nat) as u64;
                            assert(spec_nat_at(sv, i + 1, jj, m2 as nat));
                        }
                    }
                }
                None
            },
        }
    } else {
        proof {
            assert forall|v: i64, j: int|
                spec_int_at(sv, i as int, j, v as int) implies v >= 0 && spec_nat_at(
                sv,
                i as int,
                j,
                v as nat,
            ) by {
                lemma_dec_nat_props(if v >= 0 { v as nat } else { (-v) as nat });
                if v < 0 {
                    assert(sv.subrange(i as int, j) == seq!['-'] + spec_dec_nat((-v) as nat));
                    assert(sv.subrange(i as int, j).len() >= 2);
                    assert(j > i);
                    assert(sv.subrange(i as int, j)[0] == sv[i as int]);
                    assert(sv[i as int] == '-');
                    assert(i < n);
                }
            }
        }
        match parse_nat_at(s, i) {
            Some((m, j)) => {
                if m > 9223372036854775807u64 {
                    proof {
                        assert forall|v: i64, jj: int| !spec_int_at(sv, i as int, jj, v as int) by {
                            if spec_int_at(sv, i as int, jj, v as int) {
                                let m2: u64 = (v as nat) as u64;
                                assert(spec_nat_at(sv, i as int, jj, m2 as nat));
                            }
                        }
                    }
                    None
                } else {
                    proof {
                        assert(spec_dec_int(m as int) == spec_dec_nat(m as nat));
                        assert(spec_int_at(sv, i as int, j as int, m as int));
                        assert forall|v: i64, jj: int|
                            spec_int_at(sv, i as int, jj, v as int) implies v == m as i64 && jj
                            == j as int by {
                            let m2: u64 = (v as nat) as u64;
                            assert(spec_nat_at(sv, i as int, jj, m2 as nat));
                        }
                    }
                    Some((m as i64, j))
                }
            },
            None => {
                proof {
                    assert forall|v: i64, jj: int| !spec_int_at(sv, i as int, jj, v as int) by {
                        if spec_int_at(sv, i as int, jj, v as int) {
                            let m2: u64 = (v as nat) as u64;
                            assert(spec_nat_at(sv, i as int, jj, m2 as nat));
                        }
                    }
                }
                None
            },
        }
    }
}

/// Reads a decimal natural number at `i` whose value fits in `u32`.
fn parse_u32_at(s: &str, i: usize) -> (r: Option<(u32, usize)>)
    requires
        i <= s@.len(),
    ensures
        r matches Some((v, j)) ==> spec_nat_at(s@, i as int, j as int, v as nat) && i < j,
        forall|v: u32, j: int| spec_nat_at(s@, i as int, j, v as nat) ==> r == Some((v, j as usize)),
{
    let n = s.unicode_len();
    match parse_nat_at(s, i) {
        Some((m, j)) => {
            if m > 0xffff_ffffu64 {
                proof {
                    assert forall|v: u32, jj: int| !spec_nat_at(s@, i as int, jj, v as nat) by {
                        if spec_nat_at(s@, i as int, jj, v as nat) {
                            let m2: u64 = v as u64;
                            assert(spec_nat_at(s@, i as int, jj, m2 as nat));
                        }
                    }
                }
                None
            } else {
                proof {
                    assert forall|v: u32, jj: int|
                        spec_nat_at(s@, i as int, jj, v as nat) implies v == m as u32 && jj
                        == j as int by {
                        let m2: u64 = v as u64;
                        assert(spec_nat_at(s@, i as int, jj, m2 as nat));
                        assert(0 <= jj <= n);
                    }
                }
                Some((m as u32, j))
            }
        },
        None => {
            proof {
                assert forall|v: u32, jj: int| !spec_nat_at(s@, i as int, jj, v as nat) by {
                    if spec_nat_at(s@, i as int, jj, v as nat) {
                        let m2: u64 = v as u64;
                        assert(spec_nat_at(s@, i as int, jj, m2 as nat));
                    }
                }
            }
            None
        },
    }
}

/// Reads a decimal integer at `i` whose value fits in `i32`.
fn parse_i32_at(s: &str, i: usize) -> (r: Option<(i32, usize)>)
    requires
        i <= s@.len(),
    ensures
        r matches Some((v, j)) ==> spec_int_at(s@, i as int, j as int, v as int) && i < j,
        forall|v: i32, j: int| spec_int_at(s@, i as int, j, v as int) ==> r == Some((v, j as usize)),
{
    let n = s.unicode_len();
    match parse_i64_at(s, i) {
        Some((m, j)) => {
            if m < -2147483648i64 || m > 2147483647i64 {
                proof {
                    assert forall|v: i32, jj: int| !spec_int_at(s@, i as int, jj, v as int) by {
                        if spec_int_at(s@, i as int, jj, v as int) {
                            let m2: i64 = v as i64;
                            assert(spec_int_at(s@, i as int, jj, m2 as int));
                        }
                    }
                }
                None
            } else {
                proof {
                    assert forall|v: i32, jj: int|
                        spec_int_at(s@, i as int, jj, v as int) implies v == m as i32 && jj
                        == j as int by {
                        let m2: i64 = v as i64;
                        assert(spec_int_at(s@, i as int, jj, m2 as int));
                        assert(0 <= jj <= n);
                    }
                }
                Some((m as i32, j))
            }
        },
        None => {
            proof {
                assert forall|v: i32, jj: int| !spec_int_at(s@, i as int, jj, v as int) by {
                    if spec_int_at(s@, i as int, jj, v as int) {
                        let m2: i64 = v as i64;
                        assert(spec_int_at(s@, i as int, jj, m2 as int));
                    }
                }
            }
            None
        },
    }
}


/// A successful payload, as the API envelope carries it: the `data`
/// member of a one-member object.
#[derive(Debug, Clone)]
pub struct ArtifactsApiResponse<T> {
    pub data: T,
}

impl<T> ArtifactsApiResponse<T> {
    /// Unwraps the payload.
    pub fn into_inner(self) -> (r: T)
        ensures
            r == self.data,
    {
        self.data
    }
}

/// The canonical JSON text of a character: the fields in declaration
/// order, numbers in plain decimal, timestamps as seconds since the Unix
/// epoch.
pub open spec fn spec_character_json(c: Character) -> Seq<char> {
    "{\"name\":\""@ + spec_escape(c.name@) + "\",\"gold\":"@ + spec_dec_nat(c.gold as nat) + ",\"level\":"@
        + spec_dec_nat(c.level as nat) + ",\"hp\":"@ + spec_dec_nat(c.hp as nat) + ",\"max_hp\":"@
        + spec_dec_nat(c.max_hp as nat) + ",\"xp\":"@ + spec_dec_nat(c.xp as nat) + ",\"max_xp\":"@
        + spec_dec_nat(c.max_xp as nat) + ",\"x\":"@ + spec_dec_int(c.x as int) + ",\"y\":"@
        + spec_dec_int(c.y as int) + ",\"cooldown\":"@ + spec_dec_nat(c.cooldown as nat)
        + ",\"cooldown_expiration\":"@ + spec_dec_int(c.cooldown_expiration as int) + "}"@
}

/// The response envelope: the payload wrapped as the `data` member of a
/// one-member object.
pub open spec fn spec_envelope(payload: Seq<char>) -> Seq<char> {
    "{\"data\":"@ + payload + "}"@
}

/// The canonical text of a successful character response.
pub open spec fn spec_character_response(c: Character) -> Seq<char> {
    spec_envelope(spec_character_json(c))
}

/// Writes the canonical JSON text of `c`.
pub fn character_json(c: &Character) -> (r: String)
    ensures
        r@ == spec_character_json(*c),
{
    let mut out = String::from_str("{\"name\":\"");
    push_escaped(&mut out, c.name.as_str());
    out.append("\",\"gold\":");
    push_u32(&mut out, c.gold);
    out.append(",\"level\":");
    push_u32(&mut out, c.level);
    out.append(",\"hp\":");
    push_u32(&mut out, c.hp);
    out.append(",\"max_hp\":");
    push_u32(&mut out, c.max_hp);
    out.append(",\"xp\":");
    push_u32(&mut out, c.xp);
    out.append(",\"max_xp\":");
    push_u32(&mut out, c.max_xp);
    out.append(",\"x\":");
    push_i32(&mut out, c.x);
    out.append(",\"y\":");
    push_i32(&mut out, c.y);
    out.append(",\"cooldown\":");
    push_u32(&mut out, c.cooldown);
    out.append(",\"cooldown_expiration\":");
    push_i64(&mut out, c.cooldown_expiration);
    out.append("}");
    proof {
        assert(out@ =~= spec_character_json(*c));
    }
    out
}

/// Wraps a payload text in the response envelope.
pub fn wrap_data(payload: &str) -> (r: String)
    ensures
        r@ == spec_envelope(payload@),
{
    let mut out = String::from_str("{\"data\":");
    out.append(payload);
    out.append("}");
    proof {
        assert(out@ =~= spec_envelope(payload@));
    }
    out
}

/// Writes the canonical text of a successful character response.
pub fn character_response_json(c: &Character) -> (r: String)
    ensures
        r@ == spec_character_response(*c),
{
    let json = character_json(c);
    wrap_data(json.as_str())
}

/// Strips the response envelope from `s`: succeeds exactly when `s` is an
/// envelope, and returns the payload it wraps, verbatim.
pub fn unwrap_data(s: &str) -> (r: Option<String>)
    ensures
        r matches Some(p) ==> s@ == spec_envelope(p@),
        forall|p: Seq<char>| s@ == spec_envelope(p) ==> r is Some && (r->0)@ == p,
{
    let n = s.unicode_len();
    let ghost sv = s@;
    let head = expect_lit(s, 0, "{\"data\":");
    match head {
        None => {
            proof {
                assert forall|p: Seq<char>| sv != spec_envelope(p) by {
                    if sv == spec_envelope(p) {
                        let a = "{\"data\":"@;
                        assert(sv.subrange(0, a.len() as int) =~= a);
                    }
                }
            }
            None
        },
        Some(j) => {
            if j >= n {
                proof {
                    reveal_strlit("}");
                    assert forall|p: Seq<char>| sv != spec_envelope(p) by {
                        if sv == spec_envelope(p) {
                            assert(sv.len() >= j + 1);
                        }
                    }
                }
                return None;
            }
            let last = s.get_char(n - 1);
            if last != '}' {
                proof {
                    reveal_strlit("}");
                    assert forall|p: Seq<char>| sv != spec_envelope(p) by {
                        if sv == spec_envelope(p) {
                            let a = "{\"data\":"@;
                            assert(sv =~= a + p + "}"@);
                            assert(sv[sv.len() - 1] == "}"@[0]);
                        }
                    }
                }
                return None;
            }
            let mid = s.substring_char(j, n - 1);
            let p = mid.to_owned();
            proof {
                reveal_strlit("}");
                let a = "{\"data\":"@;
                assert(sv =~= a + p@ + "}"@) by {
                    assert(sv.subrange(0, a.len() as int) == a);
                    assert(p@ == sv.subrange(j as int, n - 1));
                    assert(sv[n - 1] == '}');
                }
                assert forall|p2: Seq<char>| sv == spec_envelope(p2) implies p@ == p2 by {
                    assert(p2 =~= sv.subrange(a.len() as int, sv.len() - 1));
                    assert(p@ =~= sv.subrange(a.len() as int, sv.len() - 1));
                }
            }
            Some(p)
        },
    }
}

/// Two character snapshots with the same field values; the names are the
/// same text.
pub open spec fn spec_same_character(a: Character, b: Character) -> bool {
    &&& a.name@ == b.name@
    &&& a.gold == b.gold
    &&& a.level == b.level
    &&& a.hp == b.hp
    &&& a.max_hp == b.max_hp
    &&& a.xp == b.xp
    &&& a.max_xp == b.max_xp
    &&& a.x == b.x
    &&& a.y == b.y
    &&& a.cooldown == b.cooldown
    &&& a.cooldown_expiration == b.cooldown_expiration
}

/// `s` is the canonical response text of the character `c`.
pub open spec fn spec_response_premise(s: Seq<char>, c: Character) -> bool {
    s == spec_character_response(c)
}

/// Splitting a suffix of `s` at the length of its first part.
proof fn lemma_peel(s: Seq<char>, i: int, piece: Seq<char>, rest: Seq<char>)
    requires
        0 <= i <= s.len(),
        s.subrange(i, s.len() as int) == piece + rest,
    ensures
        i + piece.len() + rest.len() == s.len(),
        s.subrange(i, i + piece.len()) == piece,
        s.subrange(i + piece.len(), s.len() as int) == rest,
{
    assert(s.subrange(i, s.len() as int).len() == piece.len() + rest.len());
    assert(s.subrange(i, i + piece.len() as int) =~= piece);
    assert forall|k: int| 0 <= k < rest.len() implies s.subrange(
        i + piece.len() as int,
        s.len() as int,
    )[k] == rest[k] by {
        assert((piece + rest)[piece.len() + k] == rest[k]);
        assert(s.subrange(i, s.len() as int)[piece.len() + k] == s[i + piece.len() + k]);
    }
    assert(s.subrange(i + piece.len() as int, s.len() as int) =~= rest);
}

/// Each piece of the canonical response text of `c`, at its place in `s`.
pub open spec fn spec_response_pieces(s: Seq<char>, c: Character) -> bool {
    &&& s.len() == 0int + "{\"data\":"@.len() + "{\"name\":\""@.len() + spec_escape(c.name@).len() + "\",\"gold\":"@.len() + spec_dec_nat(c.gold as nat).len() + ",\"level\":"@.len() + spec_dec_nat(c.level as nat).len() + ",\"hp\":"@.len() + spec_dec_nat(c.hp as nat).len() + ",\"max_hp\":"@.len() + spec_dec_nat(c.max_hp as nat).len() + ",\"xp\":"@.len() + spec_dec_nat(c.xp as nat).len() + ",\"max_xp\":"@.len() + spec_dec_nat(c.max_xp as nat).len() + ",\"x\":"@.len() + spec_dec_int(c.x as int).len() + ",\"y\":"@.len() + spec_dec_int(c.y as int).len() + ",\"cooldown\":"@.len() + spec_dec_nat(c.cooldown as nat).len() + ",\"cooldown_expiration\":"@.len() + spec_dec_int(c.cooldown_expiration as int).len() + "}"@.len() + "}"@.len()
    &&& s.subrange(0int, (0int) + "{\"data\":"@.len()) == "{\"data\":"@
    &&& s.subrange(0int + "{\"data\":"@.len(), (0int + "{\"data\":"@.len()) + "{\"name\":\""@.len()) == "{\"name\":\""@
    &&& s.subrange(0int + "{\"data\":"@.len() + "{\"name\":\""@.len(), (0int + "{\"data\":"@.len() + "{\"name\":\""@.len()) + spec_escape(c.name@).len()) == spec_escape(c.name@)
    &&& s.subrange(0int + "{\"data\":"@.len() + "{\"name\":\""@.len() + spec_escape(c.name@).len(), (0int + "{\"data\":"@.len() + "{\"name\":\""@.len() + spec_escape(c.name@).len()) + "\",\"gold\":"@.len()) == "\",\"gold\":"@
    &&& s.subrange(0int + "{\"data\":"@.len() + "{\"name\":\""@.len() + spec_escape(c.name@).len() + "\",\"gold\":"@.len(), (0int + "{\"data\":"@.len() + "{\"name\":\""@.len() + spec_escape(c.name@).len() + "\",\"gold\":"@.len()) + spec_dec_nat(c.gold as nat).len()) == spec_dec_nat(c.gold as nat)
    &&& s.subrange(0int + "{\"data\":"@.len() + "{\"name\":\""@.len() + spec_escape(c.name@).len() + "\",\"gold\":"@.len() + spec_dec_nat(c.gold as nat).len(), (0int + "{\"data\":"@.len() + "{\"name\":\""@.len() + spec_escape(c.name@).len() + "\",\"gold\":"@.len() + spec_dec_nat(c.gold as nat).len()) + ",\"level\":"@.len()) == ",\"level\":"@
    &&& s.subrange(0int + "{\"data\":"@.len() + "{\"name\":\""@.len() + spec_escape(c.name@).len() + "\",\"gold\":"@.len() + spec_dec_nat(c.gold as nat).len() + ",\"level\":"@.len(), (0int + "{\"data\":"@.len() + "{\"name\":\""@.len() + spec_escape(c.name@).len() + "\",\"gold\":"@.len() + spec_dec_nat(c.gold as nat).len() + ",\"level\":"@.len()) + spec_dec_nat(c.level as nat).len()) == spec_dec_nat(c.level as nat)
    &&& s.subrange(0int + "{\"data\":"@.len() + "{\"name\":\""@.len() + spec_escape(c.name@).len() + "\",\"gold\":"@.len() + spec_dec_nat(c.gold as nat).len() + ",\"level\":"@.len() + spec_dec_nat(c.level as nat).len(), (0int + "{\"data\":"@.len() + "{\"name\":\""@.len() + spec_escape(c.name@).len() + "\",\"gold\":"@.len() + spec_dec_nat(c.gold as nat).len() + ",\"level\":"@.len() + spec_dec_nat(c.level as nat).len()) + ",\"hp\":"@.len()) == ",\"hp\":"@
    &&& s.subrange(0int + "{\"data\":"@.len() + "{\"name\":\""@.len() + spec_escape(c.name@).len() + "\",\"gold\":"@.len() + spec_dec_nat(c.gold as nat).len() + ",\"level\":"@.len() + spec_dec_nat(c.level as nat).len() + ",\"hp\":"@.len(), (0int + "{\"data\":"@.len() + "{\"name\":\""@.len() + spec_escape(c.name@).len() + "\",\"gold\":"@.len() + spec_dec_nat(c.gold as nat).len() + ",\"level\":"@.len() + spec_dec_nat(c.level as nat).len() + ",\"hp\":"@.len()) + spec_dec_nat(c.hp as nat).len()) == spec_dec_nat(c.hp as nat)
    &&& s.subrange(0int + "{\"data\":"@.len() + "{\"name\":\""@.len() + spec_escape(c.name@).len() + "\",\"gold\":"@.len() + spec_dec_nat(c.gold as nat).len() + ",\"level\":"@.len() + spec_dec_nat(c.level as nat).len() + ",\"hp\":"@.len() + spec_dec_nat(c.hp as nat).len(), (0int + "{\"data\":"@.len() + "{\"name\":\""@.len() + spec_escape(c.name@).len() + "\",\"gold\":"@.len() + spec_dec_nat(c.gold as nat).len() + ",\"level\":"@.len() + spec_dec_nat(c.level as nat).len() + ",\"hp\":"@.len() + spec_dec_nat(c.hp as nat).len()) + ",\"max_hp\":"@.len()) == ",\"max_hp\":"@
    &&& s.subrange(0int + "{\"data\":"@.len() + "{\"name\":\""@.len() + spec_escape(c.name@).len() + "\",\"gold\":"@.len() + spec_dec_nat(c.gold as nat).len() + ",\"level\":"@.len() + spec_dec_nat(c.level as nat).len() + ",\"hp\":"@.len() + spec_dec_nat(c.hp as nat).len() + ",\"max_hp\":"@.len(), (0int + "{\"data\":"@.len() + "{\"name\":\""@.len() + spec_escape(c.name@).len() + "\",\"gold\":"@.len() + spec_dec_nat(c.gold as nat).len() + ",\"level\":"@.len() + spec_dec_nat(c.level as nat).len() + ",\"hp\":"@.len() + spec_dec_nat(c.hp as nat).len() + ",\"max_hp\":"@.len()) + spec_dec_nat(c.max_hp as nat).len()) == spec_dec_nat(c.max_hp as nat)
    &&& s.subrange(0int + "{\"data\":"@.len() + "{\"name\":\""@.len() + spec_escape(c.name@).len() + "\",\"gold\":"@.len() + spec_dec_nat(c.gold as nat).len() + ",\"level\":"@.len() + spec_dec_nat(c.level as nat).len() + ",\"hp\":"@.len() + spec_dec_nat(c.hp as nat).len() + ",\"max_hp\":"@.len() + spec_dec_nat(c.max_hp as nat).len(), (0int + "{\"data\":"@.len() + "{\"name\":\""@.len() + spec_escape(c.name@).len() + "\",\"gold\":"@.len() + spec_dec_nat(c.gold as nat).len() + ",\"level\":"@.len() + spec_dec_nat(c.level as nat).len() + ",\"hp\":"@.len() + spec_dec_nat(c.hp as nat).len() + ",\"max_hp\":"@.len() + spec_dec_nat(c.max_hp as nat).len()) + ",\"xp\":"@.len()) == ",\"xp\":"@
    &&& s.subrange(0int + "{\"data\":"@.len() + "{\"name\":\""@.len() + spec_escape(c.name@).len() + "\",\"gold\":"@.len() + spec_dec_nat(c.gold as nat).len() + ",\"level\":"@.len() + spec_dec_nat(c.level as nat).len() + ",\"hp\":"@.len() + spec_dec_nat(c.hp as nat).len() + ",\"max_hp\":"@.len() + spec_dec_nat(c.max_hp as nat).len() + ",\"xp\":"@.len(), (0int + "{\"data\":"@.len() + "{\"name\":\""@.len() + spec_escape(c.name@).len() + "\",\"gold\":"@.len() + spec_dec_nat(c.gold as nat).len() + ",\"level\":"@.len() + spec_dec_nat(c.level as nat).len() + ",\"hp\":"@.len() + spec_dec_nat(c.hp as nat).len() + ",\"max_hp\":"@.len() + spec_dec_nat(c.max_hp as nat).len() + ",\"xp\":"@.len()) + spec_dec_nat(c.xp as nat).len()) == spec_dec_nat(c.xp as nat)
    &&& s.subrange(0int + "{\"data\":"@.len() + "{\"name\":\""@.len() + spec_escape(c.name@).len() + "\",\"gold\":"@.len() + spec_dec_nat(c.gold as nat).len() + ",\"level\":"@.len() + spec_dec_nat(c.level as nat).len() + ",\"hp\":"@.len() + spec_dec_nat(c.hp as nat).len() + ",\"max_hp\":"@.len() + spec_dec_nat(c.max_hp as nat).len() + ",\"xp\":"@.len() + spec_dec_nat(c.xp as nat).len(), (0int + "{\"data\":"@.len() + "{\"name\":\""@.len() + spec_escape(c.name@).len() + "\",\"gold\":"@.len() + spec_dec_nat(c.gold as nat).len() + ",\"level\":"@.len() + spec_dec_nat(c.level as nat).len() + ",\"hp\":"@.len() + spec_dec_nat(c.hp as nat).len() + ",\"max_hp\":"@.len() + spec_dec_nat(c.max_hp as nat).len() + ",\"xp\":"@.len() + spec_dec_nat(c.xp as nat).len()) + ",\"max_xp\":"@.len()) == ",\"max_xp\":"@
    &&& s.subrange(0int + "{\"data\":"@.len() + "{\"name\":\""@.len() + spec_escape(c.name@).len() + "\",\"gold\":"@.len() + spec_dec_nat(c.gold as nat).len() + ",\"level\":"@.len() + spec_dec_nat(c.level as nat).len() + ",\"hp\":"@.len() + spec_dec_nat(c.hp as nat).len() + ",\"max_hp\":"@.len() + spec_dec_nat(c.max_hp as nat).len() + ",\"xp\":"@.len() + spec_dec_nat(c.xp as nat).len() + ",\"max_xp\":"@.len(), (0int + "{\"data\":"@.len() + "{\"name\":\""@.len() + spec_escape(c.name@).len() + "\",\"gold\":"@.len() + spec_dec_nat(c.gold as nat).len() + ",\"level\":"@.len() + spec_dec_nat(c.level as nat).len() + ",\"hp\":"@.len() + spec_dec_nat(c.hp as nat).len() + ",\"max_hp\":"@.len() + spec_dec_nat(c.max_hp as nat).len() + ",\"xp\":"@.len() + spec_dec_nat(c.xp as nat).len() + ",\"max_xp\":"@.len()) + spec_dec_nat(c.max_xp as nat).len()) == spec_dec_nat(c.max_xp as nat)
    &&& s.subrange(0int + "{\"data\":"@.len() + "{\"name\":\""@.len() + spec_escape(c.name@).len() + "\",\"gold\":"@.len() + spec_dec_nat(c.gold as nat).len() + ",\"level\":"@.len() + spec_dec_nat(c.level as nat).len() + ",\"hp\":"@.len() + spec_dec_nat(c.hp as nat).len() + ",\"max_hp\":"@.len() + spec_dec_nat(c.max_hp as nat).len() + ",\"xp\":"@.len() + spec_dec_nat(c.xp as nat).len() + ",\"max_xp\":"@.len() + spec_dec_nat(c.max_xp as nat).len(), (0int + "{\"data\":"@.len() + "{\"name\":\""@.len() + spec_escape(c.name@).len() + "\",\"gold\":"@.len() + spec_dec_nat(c.gold as nat).len() + ",\"level\":"@.len() + spec_dec_nat(c.level as nat).len() + ",\"hp\":"@.len() + spec_dec_nat(c.hp as nat).len() + ",\"max_hp\":"@.len() + spec_dec_nat(c.max_hp as nat).len() + ",\"xp\":"@.len() + spec_dec_nat(c.xp as nat).len() + ",\"max_xp\":"@.len() + spec_dec_nat(c.max_xp as nat).len()) + ",\"x\":"@.len()) == ",\"x\":"@
    &&& s.subrange(0int + "{\"data\":"@.len() + "{\"name\":\""@.len() + spec_escape(c.name@).len() + "\",\"gold\":"@.len() + spec_dec_nat(c.gold as nat).len() + ",\"level\":"@.len() + spec_dec_nat(c.level as nat).len() + ",\"hp\":"@.len() + spec_dec_nat(c.hp as nat).len() + ",\"max_hp\":"@.len() + spec_dec_nat(c.max_hp as nat).len() + ",\"xp\":"@.len() + spec_dec_nat(c.xp as nat).len() + ",\"max_xp\":"@.len() + spec_dec_nat(c.max_xp as nat).len() + ",\"x\":"@.len(), (0int + "{\"data\":"@.len() + "{\"name\":\""@.len() + spec_escape(c.name@).len() + "\",\"gold\":"@.len() + spec_dec_nat(c.gold as nat).len() + ",\"level\":"@.len() + spec_dec_nat(c.level as nat).len() + ",\"hp\":"@.len() + spec_dec_nat(c.hp as nat).len() + ",\"max_hp\":"@.len() + spec_dec_nat(c.max_hp as nat).len() + ",\"xp\":"@.len() + spec_dec_nat(c.xp as nat).len() + ",\"max_xp\":"@.len() + spec_dec_nat(c.max_xp as nat).len() + ",\"x\":"@.len()) + spec_dec_int(c.x as int).len()) == spec_dec_int(c.x as int)
    &&& s.subrange(0int + "{\"data\":"@.len() + "{\"name\":\""@.len() + spec_escape(c.name@).len() + "\",\"gold\":"@.len() + spec_dec_nat(c.gold as nat).len() + ",\"level\":"@.len() + spec_dec_nat(c.level as nat).len() + ",\"hp\":"@.len() + spec_dec_nat(c.hp as nat).len() + ",\"max_hp\":"@.len() + spec_dec_nat(c.max_hp as nat).len() + ",\"xp\":"@.len() + spec_dec_nat(c.xp as nat).len() + ",\"max_xp\":"@.len() + spec_dec_nat(c.max_xp as nat).len() + ",\"x\":"@.len() + spec_dec_int(c.x as int).len(), (0int + "{\"data\":"@.len() + "{\"name\":\""@.len() + spec_escape(c.name@).len() + "\",\"gold\":"@.len() + spec_dec_nat(c.gold as nat).len() + ",\"level\":"@.len() + spec_dec_nat(c.level as nat).len() + ",\"hp\":"@.len() + spec_dec_nat(c.hp as nat).len() + ",\"max_hp\":"@.len() + spec_dec_nat(c.max_hp as nat).len() + ",\"xp\":"@.len() + spec_dec_nat(c.xp as nat).len() + ",\"max_xp\":"@.len() + spec_dec_nat(c.max_xp as nat).len() + ",\"x\":"@.len() + spec_dec_int(c.x as int).len()) + ",\"y\":"@.len()) == ",\"y\":"@
    &&& s.subrange(0int + "{\"data\":"@.len() + "{\"name\":\""@.len() + spec_escape(c.name@).len() + "\",\"gold\":"@.len() + spec_dec_nat(c.gold as nat).len() + ",\"level\":"@.len() + spec_dec_nat(c.level as nat).len() + ",\"hp\":"@.len() + spec_dec_nat(c.hp as nat).len() + ",\"max_hp\":"@.len() + spec_dec_nat(c.max_hp as nat).len() + ",\"xp\":"@.len() + spec_dec_nat(c.xp as nat).len() + ",\"max_xp\":"@.len() + spec_dec_nat(c.max_xp as nat).len() + ",\"x\":"@.len() + spec_dec_int(c.x as int).len() + ",\"y\":"@.len(), (0int + "{\"data\":"@.len() + "{\"name\":\""@.len() + spec_escape(c.name@).len() + "\",\"gold\":"@.len() + spec_dec_nat(c.gold as nat).len() + ",\"level\":"@.len() + spec_dec_nat(c.level as nat).len() + ",\"hp\":"@.len() + spec_dec_nat(c.hp as nat).len() + ",\"max_hp\":"@.len() + spec_dec_nat(c.max_hp as nat).len() + ",\"xp\":"@.len() + spec_dec_nat(c.xp as nat).len() + ",\"max_xp\":"@.len() + spec_dec_nat(c.max_xp as nat).len() + ",\"x\":"@.len() + spec_dec_int(c.x as int).len() + ",\"y\":"@.len()) + spec_dec_int(c.y as int).len()) == spec_dec_int(c.y as int)
    &&& s.subrange(0int + "{\"data\":"@.len() + "{\"name\":\""@.len() + spec_escape(c.name@).len() + "\",\"gold\":"@.len() + spec_dec_nat(c.gold as nat).len() + ",\"level\":"@.len() + spec_dec_nat(c.level as nat).len() + ",\"hp\":"@.len() + spec_dec_nat(c.hp as nat).len() + ",\"max_hp\":"@.len() + spec_dec_nat(c.max_hp as nat).len() + ",\"xp\":"@.len() + spec_dec_nat(c.xp as nat).len() + ",\"max_xp\":"@.len() + spec_dec_nat(c.max_xp as nat).len() + ",\"x\":"@.len() + spec_dec_int(c.x as int).len() + ",\"y\":"@.len() + spec_dec_int(c.y as int).len(), (0int + "{\"data\":"@.len() + "{\"name\":\""@.len() + spec_escape(c.name@).len() + "\",\"gold\":"@.len() + spec_dec_nat(c.gold as nat).len() + ",\"level\":"@.len() + spec_dec_nat(c.level as nat).len() + ",\"hp\":"@.len() + spec_dec_nat(c.hp as nat).len() + ",\"max_hp\":"@.len() + spec_dec_nat(c.max_hp as nat).len() + ",\"xp\":"@.len() + spec_dec_nat(c.xp as nat).len() + ",\"max_xp\":"@.len() + spec_dec_nat(c.max_xp as nat).len() + ",\"x\":"@.len() + spec_dec_int(c.x as int).len() + ",\"y\":"@.len() + spec_dec_int(c.y as int).len()) + ",\"cooldown\":"@.len()) == ",\"cooldown\":"@
    &&& s.subrange(0int + "{\"data\":"@.len() + "{\"name\":\""@.len() + spec_escape(c.name@).len() + "\",\"gold\":"@.len() + spec_dec_nat(c.gold as nat).len() + ",\"level\":"@.len() + spec_dec_nat(c.level as nat).len() + ",\"hp\":"@.len() + spec_dec_nat(c.hp as nat).len() + ",\"max_hp\":"@.len() + spec_dec_nat(c.max_hp as nat).len() + ",\"xp\":"@.len() + spec_dec_nat(c.xp as nat).len() + ",\"max_xp\":"@.len() + spec_dec_nat(c.max_xp as nat).len() + ",\"x\":"@.len() + spec_dec_int(c.x as int).len() + ",\"y\":"@.len() + spec_dec_int(c.y as int).len() + ",\"cooldown\":"@.len(), (0int + "{\"data\":"@.len() + "{\"name\":\""@.len() + spec_escape(c.name@).len() + "\",\"gold\":"@.len() + spec_dec_nat(c.gold as nat).len() + ",\"level\":"@.len() + spec_dec_nat(c.level as nat).len() + ",\"hp\":"@.len() + spec_dec_nat(c.hp as nat).len() + ",\"max_hp\":"@.len() + spec_dec_nat(c.max_hp as nat).len() + ",\"xp\":"@.len() + spec_dec_nat(c.xp as nat).len() + ",\"max_xp\":"@.len() + spec_dec_nat(c.max_xp as nat).len() + ",\"x\":"@.len() + spec_dec_int(c.x as int).len() + ",\"y\":"@.len() + spec_dec_int(c.y as int).len() + ",\"cooldown\":"@.len()) + spec_dec_nat(c.cooldown as nat).len()) == spec_dec_nat(c.cooldown as nat)
    &&& s.subrange(0int + "{\"data\":"@.len() + "{\"name\":\""@.len() + spec_escape(c.name@).len() + "\",\"gold\":"@.len() + spec_dec_nat(c.gold as nat).len() + ",\"level\":"@.len() + spec_dec_nat(c.level as nat).len() + ",\"hp\":"@.len() + spec_dec_nat(c.hp as nat).len() + ",\"max_hp\":"@.len() + spec_dec_nat(c.max_hp as nat).len() + ",\"xp\":"@.len() + spec_dec_nat(c.xp as nat).len() + ",\"max_xp\":"@.len() + spec_dec_nat(c.max_xp as nat).len() + ",\"x\":"@.len() + spec_dec_int(c.x as int).len() + ",\"y\":"@.len() + spec_dec_int(c.y as int).len() + ",\"cooldown\":"@.len() + spec_dec_nat(c.cooldown as nat).len(), (0int + "{\"data\":"@.len() + "{\"name\":\""@.len() + spec_escape(c.name@).len() + "\",\"gold\":"@.len() + spec_dec_nat(c.gold as nat).len() + ",\"level\":"@.len() + spec_dec_nat(c.level as nat).len() + ",\"hp\":"@.len() + spec_dec_nat(c.hp as nat).len() + ",\"max_hp\":"@.len() + spec_dec_nat(c.max_hp as nat).len() + ",\"xp\":"@.len() + spec_dec_nat(c.xp as nat).len() + ",\"max_xp\":"@.len() + spec_dec_nat(c.max_xp as nat).len() + ",\"x\":"@.len() + spec_dec_int(c.x as int).len() + ",\"y\":"@.len() + spec_dec_int(c.y as int).len() + ",\"cooldown\":"@.len() + spec_dec_nat(c.cooldown as nat).len()) + ",\"cooldown_expiration\":"@.len()) == ",\"cooldown_expiration\":"@
    &&& s.subrange(0int + "{\"data\":"@.len() + "{\"name\":\""@.len() + spec_escape(c.name@).len() + "\",\"gold\":"@.len() + spec_dec_nat(c.gold as nat).len() + ",\"level\":"@.len() + spec_dec_nat(c.level as nat).len() + ",\"hp\":"@.len() + spec_dec_nat(c.hp as nat).len() + ",\"max_hp\":"@.len() + spec_dec_nat(c.max_hp as nat).len() + ",\"xp\":"@.len() + spec_dec_nat(c.xp as nat).len() + ",\"max_xp\":"@.len() + spec_dec_nat(c.max_xp as nat).len() + ",\"x\":"@.len() + spec_dec_int(c.x as int).len() + ",\"y\":"@.len() + spec_dec_int(c.y as int).len() + ",\"cooldown\":"@.len() + spec_dec_nat(c.cooldown as nat).len() + ",\"cooldown_expiration\":"@.len(), (0int + "{\"data\":"@.len() + "{\"name\":\""@.len() + spec_escape(c.name@).len() + "\",\"gold\":"@.len() + spec_dec_nat(c.gold as nat).len() + ",\"level\":"@.len() + spec_dec_nat(c.level as nat).len() + ",\"hp\":"@.len() + spec_dec_nat(c.hp as nat).len() + ",\"max_hp\":"@.len() + spec_dec_nat(c.max_hp as nat).len() + ",\"xp\":"@.len() + spec_dec_nat(c.xp as nat).len() + ",\"max_xp\":"@.len() + spec_dec_nat(c.max_xp as nat).len() + ",\"x\":"@.len() + spec_dec_int(c.x as int).len() + ",\"y\":"@.len() + spec_dec_int(c.y as int).len() + ",\"cooldown\":"@.len() + spec_dec_nat(c.cooldown as nat).len() + ",\"cooldown_expiration\":"@.len()) + spec_dec_int(c.cooldown_expiration as int).len()) == spec_dec_int(c.cooldown_expiration as int)
    &&& s.subrange(0int + "{\"data\":"@.len() + "{\"name\":\""@.len() + spec_escape(c.name@).len() + "\",\"gold\":"@.len() + spec_dec_nat(c.gold as nat).len() + ",\"level\":"@.len() + spec_dec_nat(c.level as nat).len() + ",\"hp\":"@.len() + spec_dec_nat(c.hp as nat).len() + ",\"max_hp\":"@.len() + spec_dec_nat(c.max_hp as nat).len() + ",\"xp\":"@.len() + spec_dec_nat(c.xp as nat).len() + ",\"max_xp\":"@.len() + spec_dec_nat(c.max_xp as nat).len() + ",\"x\":"@.len() + spec_dec_int(c.x as int).len() + ",\"y\":"@.len() + spec_dec_int(c.y as int).len() + ",\"cooldown\":"@.len() + spec_dec_nat(c.cooldown as nat).len() + ",\"cooldown_expiration\":"@.len() + spec_dec_int(c.cooldown_expiration as int).len(), (0int + "{\"data\":"@.len() + "{\"name\":\""@.len() + spec_escape(c.name@).len() + "\",\"gold\":"@.len() + spec_dec_nat(c.gold as nat).len() + ",\"level\":"@.len() + spec_dec_nat(c.level as nat).len() + ",\"hp\":"@.len() + spec_dec_nat(c.hp as nat).len() + ",\"max_hp\":"@.len() + spec_dec_nat(c.max_hp as nat).len() + ",\"xp\":"@.len() + spec_dec_nat(c.xp as nat).len() + ",\"max_xp\":"@.len() + spec_dec_nat(c.max_xp as nat).len() + ",\"x\":"@.len() + spec_dec_int(c.x as int).len() + ",\"y\":"@.len() + spec_dec_int(c.y as int).len() + ",\"cooldown\":"@.len() + spec_dec_nat(c.cooldown as nat).len() + ",\"cooldown_expiration\":"@.len() + spec_dec_int(c.cooldown_expiration as int).len()) + "}"@.len()) == "}"@
    &&& s.subrange(0int + "{\"data\":"@.len() + "{\"name\":\""@.len() + spec_escape(c.name@).len() + "\",\"gold\":"@.len() + spec_dec_nat(c.gold as nat).len() + ",\"level\":"@.len() + spec_dec_nat(c.level as nat).len() + ",\"hp\":"@.len() + spec_dec_nat(c.hp as nat).len() + ",\"max_hp\":"@.len() + spec_dec_nat(c.max_hp as nat).len() + ",\"xp\":"@.len() + spec_dec_nat(c.xp as nat).len() + ",\"max_xp\":"@.len() + spec_dec_nat(c.max_xp as nat).len() + ",\"x\":"@.len() + spec_dec_int(c.x as int).len() + ",\"y\":"@.len() + spec_dec_int(c.y as int).len() + ",\"cooldown\":"@.len() + spec_dec_nat(c.cooldown as nat).len() + ",\"cooldown_expiration\":"@.len() + spec_dec_int(c.cooldown_expiration as int).len() + "}"@.len(), (0int + "{\"data\":"@.len() + "{\"name\":\""@.len() + spec_escape(c.name@).len() + "\",\"gold\":"@.len() + spec_dec_nat(c.gold as nat).len() + ",\"level\":"@.len() + spec_dec_nat(c.level as nat).len() + ",\"hp\":"@.len() + spec_dec_nat(c.hp as nat).len() + ",\"max_hp\":"@.len() + spec_dec_nat(c.max_hp as nat).len() + ",\"xp\":"@.len() + spec_dec_nat(c.xp as nat).len() + ",\"max_xp\":"@.len() + spec_dec_nat(c.max_xp as nat).len() + ",\"x\":"@.len() + spec_dec_int(c.x as int).len() + ",\"y\":"@.len() + spec_dec_int(c.y as int).len() + ",\"cooldown\":"@.len() + spec_dec_nat(c.cooldown as nat).len() + ",\"cooldown_expiration\":"@.len() + spec_dec_int(c.cooldown_expiration as int).len() + "}"@.len()) + "}"@.len()) == "}"@
}

/// The canonical response text, regrouped piece by piece to the right.
#[verifier::rlimit(100)]
proof fn lemma_response_reassociate(c: Character)
    ensures
        spec_character_response(c) == "{\"data\":"@ + ("{\"name\":\""@ + (spec_escape(c.name@) + ("\",\"gold\":"@ + (spec_dec_nat(c.gold as nat) + (",\"level\":"@ + (spec_dec_nat(c.level as nat) + (",\"hp\":"@ + (spec_dec_nat(c.hp as nat) + (",\"max_hp\":"@ + (spec_dec_nat(c.max_hp as nat) + (",\"xp\":"@ + (spec_dec_nat(c.xp as nat) + (",\"max_xp\":"@ + (spec_dec_nat(c.max_xp as nat) + (",\"x\":"@ + (spec_dec_int(c.x as int) + (",\"y\":"@ + (spec_dec_int(c.y as int) + (",\"cooldown\":"@ + (spec_dec_nat(c.cooldown as nat) + (",\"cooldown_expiration\":"@ + (spec_dec_int(c.cooldown_expiration as int) + ("}"@ + ("}"@)))))))))))))))))))))))),
{
    vstd::seq_lib::lemma_concat_associative::<char>(
        "{\"data\":"@,
        (((((((((((((((((((((("{\"name\":\""@ + spec_escape(c.name@)) + "\",\"gold\":"@) + spec_dec_nat(c.gold as nat)) + ",\"level\":"@) + spec_dec_nat(c.level as nat)) + ",\"hp\":"@) + spec_dec_nat(c.hp as nat)) + ",\"max_hp\":"@) + spec_dec_nat(c.max_hp as nat)) + ",\"xp\":"@) + spec_dec_nat(c.xp as nat)) + ",\"max_xp\":"@) + spec_dec_nat(c.max_xp as nat)) + ",\"x\":"@) + spec_dec_int(c.x as int)) + ",\"y\":"@) + spec_dec_int(c.y as int)) + ",\"cooldown\":"@) + spec_dec_nat(c.cooldown as nat)) + ",\"cooldown_expiration\":"@) + spec_dec_int(c.cooldown_expiration as int)) + "}"@),
        "}"@,
    );
    vstd::seq_lib::lemma_concat_associative::<char>(
        ((((((((((((((((((((("{\"name\":\""@ + spec_escape(c.name@)) + "\",\"gold\":"@) + spec_dec_nat(c.gold as nat)) + ",\"level\":"@) + spec_dec_nat(c.level as nat)) + ",\"hp\":"@) + spec_dec_nat(c.hp as nat)) + ",\"max_hp\":"@) + spec_dec_nat(c.max_hp as nat)) + ",\"xp\":"@) + spec_dec_nat(c.xp as nat)) + ",\"max_xp\":"@) + spec_dec_nat(c.max_xp as nat)) + ",\"x\":"@) + spec_dec_int(c.x as int)) + ",\"y\":"@) + spec_dec_int(c.y as int)) + ",\"cooldown\":"@) + spec_dec_nat(c.cooldown as nat)) + ",\"cooldown_expiration\":"@) + spec_dec_int(c.cooldown_expiration as int)),
        "}"@,
        "}"@,
    );
    vstd::seq_lib::lemma_concat_associative::<char>(
        (((((((((((((((((((("{\"name\":\""@ + spec_escape(c.name@)) + "\",\"gold\":"@) + spec_dec_nat(c.gold as nat)) + ",\"level\":"@) + spec_dec_nat(c.level as nat)) + ",\"hp\":"@) + spec_dec_nat(c.hp as nat)) + ",\"max_hp\":"@) + spec_dec_nat(c.max_hp as nat)) + ",\"xp\":"@) + spec_dec_nat(c.xp as nat)) + ",\"max_xp\":"@) + spec_dec_nat(c.max_xp as nat)) + ",\"x\":"@) + spec_dec_int(c.x as int)) + ",\"y\":"@) + spec_dec_int(c.y as int)) + ",\"cooldown\":"@) + spec_dec_nat(c.cooldown as nat)) + ",\"cooldown_expiration\":"@),
        spec_dec_int(c.cooldown_expiration as int),
        "}"@ + ("}"@),
    );
    vstd::seq_lib::lemma_concat_associative::<char>(
        ((((((((((((((((((("{\"name\":\""@ + spec_escape(c.name@)) + "\",\"gold\":"@) + spec_dec_nat(c.gold as nat)) + ",\"level\":"@) + spec_dec_nat(c.level as nat)) + ",\"hp\":"@) + spec_dec_nat(c.hp as nat)) + ",\"max_hp\":"@) + spec_dec_nat(c.max_hp as nat)) + ",\"xp\":"@) + spec_dec_nat(c.xp as nat)) + ",\"max_xp\":"@) + spec_dec_nat(c.max_xp as nat)) + ",\"x\":"@) + spec_dec_int(c.x as int)) + ",\"y\":"@) + spec_dec_int(c.y as int)) + ",\"cooldown\":"@) + spec_dec_nat(c.cooldown as nat)),
        ",\"cooldown_expiration\":"@,
        spec_dec_int(c.cooldown_expiration as int) + ("}"@ + ("}"@)),
    );
    vstd::seq_lib::lemma_concat_associative::<char>(
        (((((((((((((((((("{\"name\":\""@ + spec_escape(c.name@)) + "\",\"gold\":"@) + spec_dec_nat(c.gold as nat)) + ",\"level\":"@) + spec_dec_nat(c.level as nat)) + ",\"hp\":"@) + spec_dec_nat(c.hp as nat)) + ",\"max_hp\":"@) + spec_dec_nat(c.max_hp as nat)) + ",\"xp\":"@) + spec_dec_nat(c.xp as nat)) + ",\"max_xp\":"@) + spec_dec_nat(c.max_xp as nat)) + ",\"x\":"@) + spec_dec_int(c.x as int)) + ",\"y\":"@) + spec_dec_int(c.y as int)) + ",\"cooldown\":"@),
        spec_dec_nat(c.cooldown as nat),
        ",\"cooldown_expiration\":"@ + (spec_dec_int(c.cooldown_expiration as int) + ("}"@ + ("}"@))),
    );
    vstd::seq_lib::lemma_concat_associative::<char>(
        ((((((((((((((((("{\"name\":\""@ + spec_escape(c.name@)) + "\",\"gold\":"@) + spec_dec_nat(c.gold as nat)) + ",\"level\":"@) + spec_dec_nat(c.level as nat)) + ",\"hp\":"@) + spec_dec_nat(c.hp as nat)) + ",\"max_hp\":"@) + spec_dec_nat(c.max_hp as nat)) + ",\"xp\":"@) + spec_dec_nat(c.xp as nat)) + ",\"max_xp\":"@) + spec_dec_nat(c.max_xp as nat)) + ",\"x\":"@) + spec_dec_int(c.x as int)) + ",\"y\":"@) + spec_dec_int(c.y as int)),
        ",\"cooldown\":"@,
        spec_dec_nat(c.cooldown as nat) + (",\"cooldown_expiration\":"@ + (spec_dec_int(c.cooldown_expiration as int) + ("}"@ + ("}"@)))),
    );
    vstd::seq_lib::lemma_concat_associative::<char>(
        (((((((((((((((("{\"name\":\""@ + spec_escape(c.name@)) + "\",\"gold\":"@) + spec_dec_nat(c.gold as nat)) + ",\"level\":"@) + spec_dec_nat(c.level as nat)) + ",\"hp\":"@) + spec_dec_nat(c.hp as nat)) + ",\"max_hp\":"@) + spec_dec_nat(c.max_hp as nat)) + ",\"xp\":"@) + spec_dec_nat(c.xp as nat)) + ",\"max_xp\":"@) + spec_dec_nat(c.max_xp as nat)) + ",\"x\":"@) + spec_dec_int(c.x as int)) + ",\"y\":"@),
        spec_dec_int(c.y as int),
        ",\"cooldown\":"@ + (spec_dec_nat(c.cooldown as nat) + (",\"cooldown_expiration\":"@ + (spec_dec_int(c.cooldown_expiration as int) + ("}"@ + ("}"@))))),
    );
    vstd::seq_lib::lemma_concat_associative::<char>(
        ((((((((((((((("{\"name\":\""@ + spec_escape(c.name@)) + "\",\"gold\":"@) + spec_dec_nat(c.gold as nat)) + ",\"level\":"@) + spec_dec_nat(c.level as nat)) + ",\"hp\":"@) + spec_dec_nat(c.hp as nat)) + ",\"max_hp\":"@) + spec_dec_nat(c.max_hp as nat)) + ",\"xp\":"@) + spec_dec_nat(c.xp as nat)) + ",\"max_xp\":"@) + spec_dec_nat(c.max_xp as nat)) + ",\"x\":"@) + spec_dec_int(c.x as int)),
        ",\"y\":"@,
        spec_dec_int(c.y as int) + (",\"cooldown\":"@ + (spec_dec_nat(c.cooldown as nat) + (",\"cooldown_expiration\":"@ + (spec_dec_int(c.cooldown_expiration as int) + ("}"@ + ("}"@)))))),
    );
    vstd::seq_lib::lemma_concat_associative::<char>(
        (((((((((((((("{\"name\":\""@ + spec_escape(c.name@)) + "\",\"gold\":"@) + spec_dec_nat(c.gold as nat)) + ",\"level\":"@) + spec_dec_nat(c.level as nat)) + ",\"hp\":"@) + spec_dec_nat(c.hp as nat)) + ",\"max_hp\":"@) + spec_dec_nat(c.max_hp as nat)) + ",\"xp\":"@) + spec_dec_nat(c.xp as nat)) + ",\"max_xp\":"@) + spec_dec_nat(c.max_xp as nat)) + ",\"x\":"@),
        spec_dec_int(c.x as int),
        ",\"y\":"@ + (spec_dec_int(c.y as int) + (",\"cooldown\":"@ + (spec_dec_nat(c.cooldown as nat) + (",\"cooldown_expiration\":"@ + (spec_dec_int(c.cooldown_expiration as int) + ("}"@ + ("}"@))))))),
    );
    vstd::seq_lib::lemma_concat_associative::<char>(
        ((((((((((((("{\"name\":\""@ + spec_escape(c.name@)) + "\",\"gold\":"@) + spec_dec_nat(c.gold as nat)) + ",\"level\":"@) + spec_dec_nat(c.level as nat)) + ",\"hp\":"@) + spec_dec_nat(c.hp as nat)) + ",\"max_hp\":"@) + spec_dec_nat(c.max_hp as nat)) + ",\"xp\":"@) + spec_dec_nat(c.xp as nat)) + ",\"max_xp\":"@) + spec_dec_nat(c.max_xp as nat)),
        ",\"x\":"@,
        spec_dec_int(c.x as int) + (",\"y\":"@ + (spec_dec_int(c.y as int) + (",\"cooldown\":"@ + (spec_dec_nat(c.cooldown as nat) + (",\"cooldown_expiration\":"@ + (spec_dec_int(c.cooldown_expiration as int) + ("}"@ + ("}"@)))))))),
    );
    vstd::seq_lib::lemma_concat_associative::<char>(
        (((((((((((("{\"name\":\""@ + spec_escape(c.name@)) + "\",\"gold\":"@) + spec_dec_nat(c.gold as nat)) + ",\"level\":"@) + spec_dec_nat(c.level as nat)) + ",\"hp\":"@) + spec_dec_nat(c.hp as nat)) + ",\"max_hp\":"@) + spec_dec_nat(c.max_hp as nat)) + ",\"xp\":"@) + spec_dec_nat(c.xp as nat)) + ",\"max_xp\":"@),
        spec_dec_nat(c.max_xp as nat),
        ",\"x\":"@ + (spec_dec_int(c.x as int) + (",\"y\":"@ + (spec_dec_int(c.y as int) + (",\"cooldown\":"@ + (spec_dec_nat(c.cooldown as nat) + (",\"cooldown_expiration\":"@ + (spec_dec_int(c.cooldown_expiration as int) + ("}"@ + ("}"@))))))))),
    );
    vstd::seq_lib::lemma_concat_associative::<char>(
        ((((((((((("{\"name\":\""@ + spec_escape(c.name@)) + "\",\"gold\":"@) + spec_dec_nat(c.gold as nat)) + ",\"level\":"@) + spec_dec_nat(c.level as nat)) + ",\"hp\":"@) + spec_dec_nat(c.hp as nat)) + ",\"max_hp\":"@) + spec_dec_nat(c.max_hp as nat)) + ",\"xp\":"@) + spec_dec_nat(c.xp as nat)),
        ",\"max_xp\":"@,
        spec_dec_nat(c.max_xp as nat) + (",\"x\":"@ + (spec_dec_int(c.x as int) + (",\"y\":"@ + (spec_dec_int(c.y as int) + (",\"cooldown\":"@ + (spec_dec_nat(c.cooldown as nat) + (",\"cooldown_expiration\":"@ + (spec_dec_int(c.cooldown_expiration as int) + ("}"@ + ("}"@)))))))))),
    );
    vstd::seq_lib::lemma_concat_associative::<char>(
        (((((((((("{\"name\":\""@ + spec_escape(c.name@)) + "\",\"gold\":"@) + spec_dec_nat(c.gold as nat)) + ",\"level\":"@) + spec_dec_nat(c.level as nat)) + ",\"hp\":"@) + spec_dec_nat(c.hp as nat)) + ",\"max_hp\":"@) + spec_dec_nat(c.max_hp as nat)) + ",\"xp\":"@),
        spec_dec_nat(c.xp as nat),
        ",\"max_xp\":"@ + (spec_dec_nat(c.max_xp as nat) + (",\"x\":"@ + (spec_dec_int(c.x as int) + (",\"y\":"@ + (spec_dec_int(c.y as int) + (",\"cooldown\":"@ + (spec_dec_nat(c.cooldown as nat) + (",\"cooldown_expiration\":"@ + (spec_dec_int(c.cooldown_expiration as int) + ("}"@ + ("}"@))))))))))),
    );
    vstd::seq_lib::lemma_concat_associative::<char>(
        ((((((((("{\"name\":\""@ + spec_escape(c.name@)) + "\",\"gold\":"@) + spec_dec_nat(c.gold as nat)) + ",\"level\":"@) + spec_dec_nat(c.level as nat)) + ",\"hp\":"@) + spec_dec_nat(c.hp as nat)) + ",\"max_hp\":"@) + spec_dec_nat(c.max_hp as nat)),
        ",\"xp\":"@,
        spec_dec_nat(c.xp as nat) + (",\"max_xp\":"@ + (spec_dec_nat(c.max_xp as nat) + (",\"x\":"@ + (spec_dec_int(c.x as int) + (",\"y\":"@ + (spec_dec_int(c.y as int) + (",\"cooldown\":"@ + (spec_dec_nat(c.cooldown as nat) + (",\"cooldown_expiration\":"@ + (spec_dec_int(c.cooldown_expiration as int) + ("}"@ + ("}"@)))))))))))),
    );
    vstd::seq_lib::lemma_concat_associative::<char>(
        (((((((("{\"name\":\""@ + spec_escape(c.name@)) + "\",\"gold\":"@) + spec_dec_nat(c.gold as nat)) + ",\"level\":"@) + spec_dec_nat(c.level as nat)) + ",\"hp\":"@) + spec_dec_nat(c.hp as nat)) + ",\"max_hp\":"@),
        spec_dec_nat(c.max_hp as nat),
        ",\"xp\":"@ + (spec_dec_nat(c.xp as nat) + (",\"max_xp\":"@ + (spec_dec_nat(c.max_xp as nat) + (",\"x\":"@ + (spec_dec_int(c.x as int) + (",\"y\":"@ + (spec_dec_int(c.y as int) + (",\"cooldown\":"@ + (spec_dec_nat(c.cooldown as nat) + (",\"cooldown_expiration\":"@ + (spec_dec_int(c.cooldown_expiration as int) + ("}"@ + ("}"@))))))))))))),
    );
    vstd::seq_lib::lemma_concat_associative::<char>(
        ((((((("{\"name\":\""@ + spec_escape(c.name@)) + "\",\"gold\":"@) + spec_dec_nat(c.gold as nat)) + ",\"level\":"@) + spec_dec_nat(c.level as nat)) + ",\"hp\":"@) + spec_dec_nat(c.hp as nat)),
        ",\"max_hp\":"@,
        spec_dec_nat(c.max_hp as nat) + (",\"xp\":"@ + (spec_dec_nat(c.xp as nat) + (",\"max_xp\":"@ + (spec_dec_nat(c.max_xp as nat) + (",\"x\":"@ + (spec_dec_int(c.x as int) + (",\"y\":"@ + (spec_dec_int(c.y as int) + (",\"cooldown\":"@ + (spec_dec_nat(c.cooldown as nat) + (",\"cooldown_expiration\":"@ + (spec_dec_int(c.cooldown_expiration as int) + ("}"@ + ("}"@)))))))))))))),
    );
    vstd::seq_lib::lemma_concat_associative::<char>(
        (((((("{\"name\":\""@ + spec_escape(c.name@)) + "\",\"gold\":"@) + spec_dec_nat(c.gold as nat)) + ",\"level\":"@) + spec_dec_nat(c.level as nat)) + ",\"hp\":"@),
        spec_dec_nat(c.hp as nat),
        ",\"max_hp\":"@ + (spec_dec_nat(c.max_hp as nat) + (",\"xp\":"@ + (spec_dec_nat(c.xp as nat) + (",\"max_xp\":"@ + (spec_dec_nat(c.max_xp as nat) + (",\"x\":"@ + (spec_dec_int(c.x as int) + (",\"y\":"@ + (spec_dec_int(c.y as int) + (",\"cooldown\":"@ + (spec_dec_nat(c.cooldown as nat) + (",\"cooldown_expiration\":"@ + (spec_dec_int(c.cooldown_expiration as int) + ("}"@ + ("}"@))))))))))))))),
    );
    vstd::seq_lib::lemma_concat_associative::<char>(
        ((((("{\"name\":\""@ + spec_escape(c.name@)) + "\",\"gold\":"@) + spec_dec_nat(c.gold as nat)) + ",\"level\":"@) + spec_dec_nat(c.level as nat)),
        ",\"hp\":"@,
        spec_dec_nat(c.hp as nat) + (",\"max_hp\":"@ + (spec_dec_nat(c.max_hp as nat) + (",\"xp\":"@ + (spec_dec_nat(c.xp as nat) + (",\"max_xp\":"@ + (spec_dec_nat(c.max_xp as nat) + (",\"x\":"@ + (spec_dec_int(c.x as int) + (",\"y\":"@ + (spec_dec_int(c.y as int) + (",\"cooldown\":"@ + (spec_dec_nat(c.cooldown as nat) + (",\"cooldown_expiration\":"@ + (spec_dec_int(c.cooldown_expiration as int) + ("}"@ + ("}"@)))))))))))))))),
    );
    vstd::seq_lib::lemma_concat_associative::<char>(
        (((("{\"name\":\""@ + spec_escape(c.name@)) + "\",\"gold\":"@) + spec_dec_nat(c.gold as nat)) + ",\"level\":"@),
        spec_dec_nat(c.level as nat),
        ",\"hp\":"@ + (spec_dec_nat(c.hp as nat) + (",\"max_hp\":"@ + (spec_dec_nat(c.max_hp as nat) + (",\"xp\":"@ + (spec_dec_nat(c.xp as nat) + (",\"max_xp\":"@ + (spec_dec_nat(c.max_xp as nat) + (",\"x\":"@ + (spec_dec_int(c.x as int) + (",\"y\":"@ + (spec_dec_int(c.y as int) + (",\"cooldown\":"@ + (spec_dec_nat(c.cooldown as nat) + (",\"cooldown_expiration\":"@ + (spec_dec_int(c.cooldown_expiration as int) + ("}"@ + ("}"@))))))))))))))))),
    );
    vstd::seq_lib::lemma_concat_associative::<char>(
        ((("{\"name\":\""@ + spec_escape(c.name@)) + "\",\"gold\":"@) + spec_dec_nat(c.gold as nat)),
        ",\"level\":"@,
        spec_dec_nat(c.level as nat) + (",\"hp\":"@ + (spec_dec_nat(c.hp as nat) + (",\"max_hp\":"@ + (spec_dec_nat(c.max_hp as nat) + (",\"xp\":"@ + (spec_dec_nat(c.xp as nat) + (",\"max_xp\":"@ + (spec_dec_nat(c.max_xp as nat) + (",\"x\":"@ + (spec_dec_int(c.x as int) + (",\"y\":"@ + (spec_dec_int(c.y as int) + (",\"cooldown\":"@ + (spec_dec_nat(c.cooldown as nat) + (",\"cooldown_expiration\":"@ + (spec_dec_int(c.cooldown_expiration as int) + ("}"@ + ("}"@)))))))))))))))))),
    );
    vstd::seq_lib::lemma_concat_associative::<char>(
        (("{\"name\":\""@ + spec_escape(c.name@)) + "\",\"gold\":"@),
        spec_dec_nat(c.gold as nat),
        ",\"level\":"@ + (spec_dec_nat(c.level as nat) + (",\"hp\":"@ + (spec_dec_nat(c.hp as nat) + (",\"max_hp\":"@ + (spec_dec_nat(c.max_hp as nat) + (",\"xp\":"@ + (spec_dec_nat(c.xp as nat) + (",\"max_xp\":"@ + (spec_dec_nat(c.max_xp as nat) + (",\"x\":"@ + (spec_dec_int(c.x as int) + (",\"y\":"@ + (spec_dec_int(c.y as int) + (",\"cooldown\":"@ + (spec_dec_nat(c.cooldown as nat) + (",\"cooldown_expiration\":"@ + (spec_dec_int(c.cooldown_expiration as int) + ("}"@ + ("}"@))))))))))))))))))),
    );
    vstd::seq_lib::lemma_concat_associative::<char>(
        ("{\"name\":\""@ + spec_escape(c.name@)),
        "\",\"gold\":"@,
        spec_dec_nat(c.gold as nat) + (",\"level\":"@ + (spec_dec_nat(c.level as nat) + (",\"hp\":"@ + (spec_dec_nat(c.hp as nat) + (",\"max_hp\":"@ + (spec_dec_nat(c.max_hp as nat) + (",\"xp\":"@ + (spec_dec_nat(c.xp as nat) + (",\"max_xp\":"@ + (spec_dec_nat(c.max_xp as nat) + (",\"x\":"@ + (spec_dec_int(c.x as int) + (",\"y\":"@ + (spec_dec_int(c.y as int) + (",\"cooldown\":"@ + (spec_dec_nat(c.cooldown as nat) + (",\"cooldown_expiration\":"@ + (spec_dec_int(c.cooldown_expiration as int) + ("}"@ + ("}"@)))))))))))))))))))),
    );
    vstd::seq_lib::lemma_concat_associative::<char>(
        "{\"name\":\""@,
        spec_escape(c.name@),
        "\",\"gold\":"@ + (spec_dec_nat(c.gold as nat) + (",\"level\":"@ + (spec_dec_nat(c.level as nat) + (",\"hp\":"@ + (spec_dec_nat(c.hp as nat) + (",\"max_hp\":"@ + (spec_dec_nat(c.max_hp as nat) + (",\"xp\":"@ + (spec_dec_nat(c.xp as nat) + (",\"max_xp\":"@ + (spec_dec_nat(c.max_xp as nat) + (",\"x\":"@ + (spec_dec_int(c.x as int) + (",\"y\":"@ + (spec_dec_int(c.y as int) + (",\"cooldown\":"@ + (spec_dec_nat(c.cooldown as nat) + (",\"cooldown_expiration\":"@ + (spec_dec_int(c.cooldown_expiration as int) + ("}"@ + ("}"@))))))))))))))))))))),
    );
}

/// The places of the front pieces, and the tail from the cooldown block on.
#[verifier::rlimit(100)]
proof fn lemma_response_pieces_front(s: Seq<char>, c: Character)
    requires
        spec_response_premise(s, c),
    ensures
        s.subrange(0int + "{\"data\":"@.len() + "{\"name\":\""@.len() + spec_escape(c.name@).len() + "\",\"gold\":"@.len() + spec_dec_nat(c.gold as nat).len() + ",\"level\":"@.len() + spec_dec_nat(c.level as nat).len() + ",\"hp\":"@.len() + spec_dec_nat(c.hp as nat).len() + ",\"max_hp\":"@.len() + spec_dec_nat(c.max_hp as nat).len() + ",\"xp\":"@.len(), s.len() as int) == spec_dec_nat(c.xp as nat) + (",\"max_xp\":"@ + (spec_dec_nat(c.max_xp as nat) + (",\"x\":"@ + (spec_dec_int(c.x as int) + (",\"y\":"@ + (spec_dec_int(c.y as int) + (",\"cooldown\":"@ + (spec_dec_nat(c.cooldown as nat) + (",\"cooldown_expiration\":"@ + (spec_dec_int(c.cooldown_expiration as int) + ("}"@ + ("}"@)))))))))))),
        s.subrange(0int, (0int) + "{\"data\":"@.len()) == "{\"data\":"@,
        s.subrange(0int + "{\"data\":"@.len(), (0int + "{\"data\":"@.len()) + "{\"name\":\""@.len()) == "{\"name\":\""@,
        s.subrange(0int + "{\"data\":"@.len() + "{\"name\":\""@.len(), (0int + "{\"data\":"@.len() + "{\"name\":\""@.len()) + spec_escape(c.name@).len()) == spec_escape(c.name@),
        s.subrange(0int + "{\"data\":"@.len() + "{\"name\":\""@.len() + spec_escape(c.name@).len(), (0int + "{\"data\":"@.len() + "{\"name\":\""@.len() + spec_escape(c.name@).len()) + "\",\"gold\":"@.len()) == "\",\"gold\":"@,
        s.subrange(0int + "{\"data\":"@.len() + "{\"name\":\""@.len() + spec_escape(c.name@).len() + "\",\"gold\":"@.len(), (0int + "{\"data\":"@.len() + "{\"name\":\""@.len() + spec_escape(c.name@).len() + "\",\"gold\":"@.len()) + spec_dec_nat(c.gold as nat).len()) == spec_dec_nat(c.gold as nat),
        s.subrange(0int + "{\"data\":"@.len() + "{\"name\":\""@.len() + spec_escape(c.name@).len() + "\",\"gold\":"@.len() + spec_dec_nat(c.gold as nat).len(), (0int + "{\"data\":"@.len() + "{\"name\":\""@.len() + spec_escape(c.name@).len() + "\",\"gold\":"@.len() + spec_dec_nat(c.gold as nat).len()) + ",\"level\":"@.len()) == ",\"level\":"@,
        s.subrange(0int + "{\"data\":"@.len() + "{\"name\":\""@.len() + spec_escape(c.name@).len() + "\",\"gold\":"@.len() + spec_dec_nat(c.gold as nat).len() + ",\"level\":"@.len(), (0int + "{\"data\":"@.len() + "{\"name\":\""@.len() + spec_escape(c.name@).len() + "\",\"gold\":"@.len() + spec_dec_nat(c.gold as nat).len() + ",\"level\":"@.len()) + spec_dec_nat(c.level as nat).len()) == spec_dec_nat(c.level as nat),
        s.subrange(0int + "{\"data\":"@.len() + "{\"name\":\""@.len() + spec_escape(c.name@).len() + "\",\"gold\":"@.len() + spec_dec_nat(c.gold as nat).len() + ",\"level\":"@.len() + spec_dec_nat(c.level as nat).len(), (0int + "{\"data\":"@.len() + "{\"name\":\""@.len() + spec_escape(c.name@).len() + "\",\"gold\":"@.len() + spec_dec_nat(c.gold as nat).len() + ",\"level\":"@.len() + spec_dec_nat(c.level as nat).len()) + ",\"hp\":"@.len()) == ",\"hp\":"@,
        s.subrange(0int + "{\"data\":"@.len() + "{\"name\":\""@.len() + spec_escape(c.name@).len() + "\",\"gold\":"@.len() + spec_dec_nat(c.gold as nat).len() + ",\"level\":"@.len() + spec_dec_nat(c.level as nat).len() + ",\"hp\":"@.len(), (0int + "{\"data\":"@.len() + "{\"name\":\""@.len() + spec_escape(c.name@).len() + "\",\"gold\":"@.len() + spec_dec_nat(c.gold as nat).len() + ",\"level\":"@.len() + spec_dec_nat(c.level as nat).len() + ",\"hp\":"@.len()) + spec_dec_nat(c.hp as nat).len()) == spec_dec_nat(c.hp as nat),
        s.subrange(0int + "{\"data\":"@.len() + "{\"name\":\""@.len() + spec_escape(c.name@).len() + "\",\"gold\":"@.len() + spec_dec_nat(c.gold as nat).len() + ",\"level\":"@.len() + spec_dec_nat(c.level as nat).len() + ",\"hp\":"@.len() + spec_dec_nat(c.hp as nat).len(), (0int + "{\"data\":"@.len() + "{\"name\":\""@.len() + spec_escape(c.name@).len() + "\",\"gold\":"@.len() + spec_dec_nat(c.gold as nat).len() + ",\"level\":"@.len() + spec_dec_nat(c.level as nat).len() + ",\"hp\":"@.len() + spec_dec_nat(c.hp as nat).len()) + ",\"max_hp\":"@.len()) == ",\"max_hp\":"@,
        s.subrange(0int + "{\"data\":"@.len() + "{\"name\":\""@.len() + spec_escape(c.name@).len() + "\",\"gold\":"@.len() + spec_dec_nat(c.gold as nat).len() + ",\"level\":"@.len() + spec_dec_nat(c.level as nat).len() + ",\"hp\":"@.len() + spec_dec_nat(c.hp as nat).len() + ",\"max_hp\":"@.len(), (0int + "{\"data\":"@.len() + "{\"name\":\""@.len() + spec_escape(c.name@).len() + "\",\"gold\":"@.len() + spec_dec_nat(c.gold as nat).len() + ",\"level\":"@.len() + spec_dec_nat(c.level as nat).len() + ",\"hp\":"@.len() + spec_dec_nat(c.hp as nat).len() + ",\"max_hp\":"@.len()) + spec_dec_nat(c.max_hp as nat).len()) == spec_dec_nat(c.max_hp as nat),
        s.subrange(0int + "{\"data\":"@.len() + "{\"name\":\""@.len() + spec_escape(c.name@).len() + "\",\"gold\":"@.len() + spec_dec_nat(c.gold as nat).len() + ",\"level\":"@.len() + spec_dec_nat(c.level as nat).len() + ",\"hp\":"@.len() + spec_dec_nat(c.hp as nat).len() + ",\"max_hp\":"@.len() + spec_dec_nat(c.max_hp as nat).len(), (0int + "{\"data\":"@.len() + "{\"name\":\""@.len() + spec_escape(c.name@).len() + "\",\"gold\":"@.len() + spec_dec_nat(c.gold as nat).len() + ",\"level\":"@.len() + spec_dec_nat(c.level as nat).len() + ",\"hp\":"@.len() + spec_dec_nat(c.hp as nat).len() + ",\"max_hp\":"@.len() + spec_dec_nat(c.max_hp as nat).len()) + ",\"xp\":"@.len()) == ",\"xp\":"@,
{
    lemma_response_reassociate(c);
    assert(s.subrange(0, s.len() as int) =~= s);
    lemma_peel(s, 0int, "{\"data\":"@, "{\"name\":\""@ + (spec_escape(c.name@) + ("\",\"gold\":"@ + (spec_dec_nat(c.gold as nat) + (",\"level\":"@ + (spec_dec_nat(c.level as nat) + (",\"hp\":"@ + (spec_dec_nat(c.hp as nat) + (",\"max_hp\":"@ + (spec_dec_nat(c.max_hp as nat) + (",\"xp\":"@ + (spec_dec_nat(c.xp as nat) + (",\"max_xp\":"@ + (spec_dec_nat(c.max_xp as nat) + (",\"x\":"@ + (spec_dec_int(c.x as int) + (",\"y\":"@ + (spec_dec_int(c.y as int) + (",\"cooldown\":"@ + (spec_dec_nat(c.cooldown as nat) + (",\"cooldown_expiration\":"@ + (spec_dec_int(c.cooldown_expiration as int) + ("}"@ + ("}"@))))))))))))))))))))))));
    lemma_peel(s, 0int + "{\"data\":"@.len(), "{\"name\":\""@, spec_escape(c.name@) + ("\",\"gold\":"@ + (spec_dec_nat(c.gold as nat) + (",\"level\":"@ + (spec_dec_nat(c.level as nat) + (",\"hp\":"@ + (spec_dec_nat(c.hp as nat) + (",\"max_hp\":"@ + (spec_dec_nat(c.max_hp as nat) + (",\"xp\":"@ + (spec_dec_nat(c.xp as nat) + (",\"max_xp\":"@ + (spec_dec_nat(c.max_xp as nat) + (",\"x\":"@ + (spec_dec_int(c.x as int) + (",\"y\":"@ + (spec_dec_int(c.y as int) + (",\"cooldown\":"@ + (spec_dec_nat(c.cooldown as nat) + (",\"cooldown_expiration\":"@ + (spec_dec_int(c.cooldown_expiration as int) + ("}"@ + ("}"@)))))))))))))))))))))));
    lemma_peel(s, 0int + "{\"data\":"@.len() + "{\"name\":\""@.len(), spec_escape(c.name@), "\",\"gold\":"@ + (spec_dec_nat(c.gold as nat) + (",\"level\":"@ + (spec_dec_nat(c.level as nat) + (",\"hp\":"@ + (spec_dec_nat(c.hp as nat) + (",\"max_hp\":"@ + (spec_dec_nat(c.max_hp as nat) + (",\"xp\":"@ + (spec_dec_nat(c.xp as nat) + (",\"max_xp\":"@ + (spec_dec_nat(c.max_xp as nat) + (",\"x\":"@ + (spec_dec_int(c.x as int) + (",\"y\":"@ + (spec_dec_int(c.y as int) + (",\"cooldown\":"@ + (spec_dec_nat(c.cooldown as nat) + (",\"cooldown_expiration\":"@ + (spec_dec_int(c.cooldown_expiration as int) + ("}"@ + ("}"@))))))))))))))))))))));
    lemma_peel(s, 0int + "{\"data\":"@.len() + "{\"name\":\""@.len() + spec_escape(c.name@).len(), "\",\"gold\":"@, spec_dec_nat(c.gold as nat) + (",\"level\":"@ + (spec_dec_nat(c.level as nat) + (",\"hp\":"@ + (spec_dec_nat(c.hp as nat) + (",\"max_hp\":"@ + (spec_dec_nat(c.max_hp as nat) + (",\"xp\":"@ + (spec_dec_nat(c.xp as nat) + (",\"max_xp\":"@ + (spec_dec_nat(c.max_xp as nat) + (",\"x\":"@ + (spec_dec_int(c.x as int) + (",\"y\":"@ + (spec_dec_int(c.y as int) + (",\"cooldown\":"@ + (spec_dec_nat(c.cooldown as nat) + (",\"cooldown_expiration\":"@ + (spec_dec_int(c.cooldown_expiration as int) + ("}"@ + ("}"@)))))))))))))))))))));
    lemma_peel(s, 0int + "{\"data\":"@.len() + "{\"name\":\""@.len() + spec_escape(c.name@).len() + "\",\"gold\":"@.len(), spec_dec_nat(c.gold as nat), ",\"level\":"@ + (spec_dec_nat(c.level as nat) + (",\"hp\":"@ + (spec_dec_nat(c.hp as nat) + (",\"max_hp\":"@ + (spec_dec_nat(c.max_hp as nat) + (",\"xp\":"@ + (spec_dec_nat(c.xp as nat) + (",\"max_xp\":"@ + (spec_dec_nat(c.max_xp as nat) + (",\"x\":"@ + (spec_dec_int(c.x as int) + (",\"y\":"@ + (spec_dec_int(c.y as int) + (",\"cooldown\":"@ + (spec_dec_nat(c.cooldown as nat) + (",\"cooldown_expiration\":"@ + (spec_dec_int(c.cooldown_expiration as int) + ("}"@ + ("}"@))))))))))))))))))));
    lemma_peel(s, 0int + "{\"data\":"@.len() + "{\"name\":\""@.len() + spec_escape(c.name@).len() + "\",\"gold\":"@.len() + spec_dec_nat(c.gold as nat).len(), ",\"level\":"@, spec_dec_nat(c.level as nat) + (",\"hp\":"@ + (spec_dec_nat(c.hp as nat) + (",\"max_hp\":"@ + (spec_dec_nat(c.max_hp as nat) + (",\"xp\":"@ + (spec_dec_nat(c.xp as nat) + (",\"max_xp\":"@ + (spec_dec_nat(c.max_xp as nat) + (",\"x\":"@ + (spec_dec_int(c.x as int) + (",\"y\":"@ + (spec_dec_int(c.y as int) + (",\"cooldown\":"@ + (spec_dec_nat(c.cooldown as nat) + (",\"cooldown_expiration\":"@ + (spec_dec_int(c.cooldown_expiration as int) + ("}"@ + ("}"@)))))))))))))))))));
    lemma_peel(s, 0int + "{\"data\":"@.len() + "{\"name\":\""@.len() + spec_escape(c.name@).len() + "\",\"gold\":"@.len() + spec_dec_nat(c.gold as nat).len() + ",\"level\":"@.len(), spec_dec_nat(c.level as nat), ",\"hp\":"@ + (spec_dec_nat(c.hp as nat) + (",\"max_hp\":"@ + (spec_dec_nat(c.max_hp as nat) + (",\"xp\":"@ + (spec_dec_nat(c.xp as nat) + (",\"max_xp\":"@ + (spec_dec_nat(c.max_xp as nat) + (",\"x\":"@ + (spec_dec_int(c.x as int) + (",\"y\":"@ + (spec_dec_int(c.y as int) + (",\"cooldown\":"@ + (spec_dec_nat(c.cooldown as nat) + (",\"cooldown_expiration\":"@ + (spec_dec_int(c.cooldown_expiration as int) + ("}"@ + ("}"@))))))))))))))))));
    lemma_peel(s, 0int + "{\"data\":"@.len() + "{\"name\":\""@.len() + spec_escape(c.name@).len() + "\",\"gold\":"@.len() + spec_dec_nat(c.gold as nat).len() + ",\"level\":"@.len() + spec_dec_nat(c.level as nat).len(), ",\"hp\":"@, spec_dec_nat(c.hp as nat) + (",\"max_hp\":"@ + (spec_dec_nat(c.max_hp as nat) + (",\"xp\":"@ + (spec_dec_nat(c.xp as nat) + (",\"max_xp\":"@ + (spec_dec_nat(c.max_xp as nat) + (",\"x\":"@ + (spec_dec_int(c.x as int) + (",\"y\":"@ + (spec_dec_int(c.y as int) + (",\"cooldown\":"@ + (spec_dec_nat(c.cooldown as nat) + (",\"cooldown_expiration\":"@ + (spec_dec_int(c.cooldown_expiration as int) + ("}"@ + ("}"@)))))))))))))))));
    lemma_peel(s, 0int + "{\"data\":"@.len() + "{\"name\":\""@.len() + spec_escape(c.name@).len() + "\",\"gold\":"@.len() + spec_dec_nat(c.gold as nat).len() + ",\"level\":"@.len() + spec_dec_nat(c.level as nat).len() + ",\"hp\":"@.len(), spec_dec_nat(c.hp as nat), ",\"max_hp\":"@ + (spec_dec_nat(c.max_hp as nat) + (",\"xp\":"@ + (spec_dec_nat(c.xp as nat) + (",\"max_xp\":"@ + (spec_dec_nat(c.max_xp as nat) + (",\"x\":"@ + (spec_dec_int(c.x as int) + (",\"y\":"@ + (spec_dec_int(c.y as int) + (",\"cooldown\":"@ + (spec_dec_nat(c.cooldown as nat) + (",\"cooldown_expiration\":"@ + (spec_dec_int(c.cooldown_expiration as int) + ("}"@ + ("}"@))))))))))))))));
    lemma_peel(s, 0int + "{\"data\":"@.len() + "{\"name\":\""@.len() + spec_escape(c.name@).len() + "\",\"gold\":"@.len() + spec_dec_nat(c.gold as nat).len() + ",\"level\":"@.len() + spec_dec_nat(c.level as nat).len() + ",\"hp\":"@.len() + spec_dec_nat(c.hp as nat).len(), ",\"max_hp\":"@, spec_dec_nat(c.max_hp as nat) + (",\"xp\":"@ + (spec_dec_nat(c.xp as nat) + (",\"max_xp\":"@ + (spec_dec_nat(c.max_xp as nat) + (",\"x\":"@ + (spec_dec_int(c.x as int) + (",\"y\":"@ + (spec_dec_int(c.y as int) + (",\"cooldown\":"@ + (spec_dec_nat(c.cooldown as nat) + (",\"cooldown_expiration\":"@ + (spec_dec_int(c.cooldown_expiration as int) + ("}"@ + ("}"@)))))))))))))));
    lemma_peel(s, 0int + "{\"data\":"@.len() + "{\"name\":\""@.len() + spec_escape(c.name@).len() + "\",\"gold\":"@.len() + spec_dec_nat(c.gold as nat).len() + ",\"level\":"@.len() + spec_dec_nat(c.level as nat).len() + ",\"hp\":"@.len() + spec_dec_nat(c.hp as nat).len() + ",\"max_hp\":"@.len(), spec_dec_nat(c.max_hp as nat), ",\"xp\":"@ + (spec_dec_nat(c.xp as nat) + (",\"max_xp\":"@ + (spec_dec_nat(c.max_xp as nat) + (",\"x\":"@ + (spec_dec_int(c.x as int) + (",\"y\":"@ + (spec_dec_int(c.y as int) + (",\"cooldown\":"@ + (spec_dec_nat(c.cooldown as nat) + (",\"cooldown_expiration\":"@ + (spec_dec_int(c.cooldown_expiration as int) + ("}"@ + ("}"@))))))))))))));
    lemma_peel(s, 0int + "{\"data\":"@.len() + "{\"name\":\""@.len() + spec_escape(c.name@).len() + "\",\"gold\":"@.len() + spec_dec_nat(c.gold as nat).len() + ",\"level\":"@.len() + spec_dec_nat(c.level as nat).len() + ",\"hp\":"@.len() + spec_dec_nat(c.hp as nat).len() + ",\"max_hp\":"@.len() + spec_dec_nat(c.max_hp as nat).len(), ",\"xp\":"@, spec_dec_nat(c.xp as nat) + (",\"max_xp\":"@ + (spec_dec_nat(c.max_xp as nat) + (",\"x\":"@ + (spec_dec_int(c.x as int) + (",\"y\":"@ + (spec_dec_int(c.y as int) + (",\"cooldown\":"@ + (spec_dec_nat(c.cooldown as nat) + (",\"cooldown_expiration\":"@ + (spec_dec_int(c.cooldown_expiration as int) + ("}"@ + ("}"@)))))))))))));
}

/// The places of the tail pieces, from `i` on.
#[verifier::rlimit(100)]
proof fn lemma_response_pieces_back(s: Seq<char>, c: Character, i: int)
    requires
        0 <= i <= s.len(),
        s.subrange(i, s.len() as int) == spec_dec_nat(c.xp as nat) + (",\"max_xp\":"@ + (spec_dec_nat(c.max_xp as nat) + (",\"x\":"@ + (spec_dec_int(c.x as int) + (",\"y\":"@ + (spec_dec_int(c.y as int) + (",\"cooldown\":"@ + (spec_dec_nat(c.cooldown as nat) + (",\"cooldown_expiration\":"@ + (spec_dec_int(c.cooldown_expiration as int) + ("}"@ + ("}"@)))))))))))),
    ensures
        i + spec_dec_nat(c.xp as nat).len() + ",\"max_xp\":"@.len() + spec_dec_nat(c.max_xp as nat).len() + ",\"x\":"@.len() + spec_dec_int(c.x as int).len() + ",\"y\":"@.len() + spec_dec_int(c.y as int).len() + ",\"cooldown\":"@.len() + spec_dec_nat(c.cooldown as nat).len() + ",\"cooldown_expiration\":"@.len() + spec_dec_int(c.cooldown_expiration as int).len() + "}"@.len() + "}"@.len() == s.len(),
        s.subrange(i, (i) + spec_dec_nat(c.xp as nat).len()) == spec_dec_nat(c.xp as nat),
        s.subrange(i + spec_dec_nat(c.xp as nat).len(), (i + spec_dec_nat(c.xp as nat).len()) + ",\"max_xp\":"@.len()) == ",\"max_xp\":"@,
        s.subrange(i + spec_dec_nat(c.xp as nat).len() + ",\"max_xp\":"@.len(), (i + spec_dec_nat(c.xp as nat).len() + ",\"max_xp\":"@.len()) + spec_dec_nat(c.max_xp as nat).len()) == spec_dec_nat(c.max_xp as nat),
        s.subrange(i + spec_dec_nat(c.xp as nat).len() + ",\"max_xp\":"@.len() + spec_dec_nat(c.max_xp as nat).len(), (i + spec_dec_nat(c.xp as nat).len() + ",\"max_xp\":"@.len() + spec_dec_nat(c.max_xp as nat).len()) + ",\"x\":"@.len()) == ",\"x\":"@,
        s.subrange(i + spec_dec_nat(c.xp as nat).len() + ",\"max_xp\":"@.len() + spec_dec_nat(c.max_xp as nat).len() + ",\"x\":"@.len(), (i + spec_dec_nat(c.xp as nat).len() + ",\"max_xp\":"@.len() + spec_dec_nat(c.max_xp as nat).len() + ",\"x\":"@.len()) + spec_dec_int(c.x as int).len()) == spec_dec_int(c.x as int),
        s.subrange(i + spec_dec_nat(c.xp as nat).len() + ",\"max_xp\":"@.len() + spec_dec_nat(c.max_xp as nat).len() + ",\"x\":"@.len() + spec_dec_int(c.x as int).len(), (i + spec_dec_nat(c.xp as nat).len() + ",\"max_xp\":"@.len() + spec_dec_nat(c.max_xp as nat).len() + ",\"x\":"@.len() + spec_dec_int(c.x as int).len()) + ",\"y\":"@.len()) == ",\"y\":"@,
        s.subrange(i + spec_dec_nat(c.xp as nat).len() + ",\"max_xp\":"@.len() + spec_dec_nat(c.max_xp as nat).len() + ",\"x\":"@.len() + spec_dec_int(c.x as int).len() + ",\"y\":"@.len(), (i + spec_dec_nat(c.xp as nat).len() + ",\"max_xp\":"@.len() + spec_dec_nat(c.max_xp as nat).len() + ",\"x\":"@.len() + spec_dec_int(c.x as int).len() + ",\"y\":"@.len()) + spec_dec_int(c.y as int).len()) == spec_dec_int(c.y as int),
        s.subrange(i + spec_dec_nat(c.xp as nat).len() + ",\"max_xp\":"@.len() + spec_dec_nat(c.max_xp as nat).len() + ",\"x\":"@.len() + spec_dec_int(c.x as int).len() + ",\"y\":"@.len() + spec_dec_int(c.y as int).len(), (i + spec_dec_nat(c.xp as nat).len() + ",\"max_xp\":"@.len() + spec_dec_nat(c.max_xp as nat).len() + ",\"x\":"@.len() + spec_dec_int(c.x as int).len() + ",\"y\":"@.len() + spec_dec_int(c.y as int).len()) + ",\"cooldown\":"@.len()) == ",\"cooldown\":"@,
        s.subrange(i + spec_dec_nat(c.xp as nat).len() + ",\"max_xp\":"@.len() + spec_dec_nat(c.max_xp as nat).len() + ",\"x\":"@.len() + spec_dec_int(c.x as int).len() + ",\"y\":"@.len() + spec_dec_int(c.y as int).len() + ",\"cooldown\":"@.len(), (i + spec_dec_nat(c.xp as nat).len() + ",\"max_xp\":"@.len() + spec_dec_nat(c.max_xp as nat).len() + ",\"x\":"@.len() + spec_dec_int(c.x as int).len() + ",\"y\":"@.len() + spec_dec_int(c.y as int).len() + ",\"cooldown\":"@.len()) + spec_dec_nat(c.cooldown as nat).len()) == spec_dec_nat(c.cooldown as nat),
        s.subrange(i + spec_dec_nat(c.xp as nat).len() + ",\"max_xp\":"@.len() + spec_dec_nat(c.max_xp as nat).len() + ",\"x\":"@.len() + spec_dec_int(c.x as int).len() + ",\"y\":"@.len() + spec_dec_int(c.y as int).len() + ",\"cooldown\":"@.len() + spec_dec_nat(c.cooldown as nat).len(), (i + spec_dec_nat(c.xp as nat).len() + ",\"max_xp\":"@.len() + spec_dec_nat(c.max_xp as nat).len() + ",\"x\":"@.len() + spec_dec_int(c.x as int).len() + ",\"y\":"@.len() + spec_dec_int(c.y as int).len() + ",\"cooldown\":"@.len() + spec_dec_nat(c.cooldown as nat).len()) + ",\"cooldown_expiration\":"@.len()) == ",\"cooldown_expiration\":"@,
        s.subrange(i + spec_dec_nat(c.xp as nat).len() + ",\"max_xp\":"@.len() + spec_dec_nat(c.max_xp as nat).len() + ",\"x\":"@.len() + spec_dec_int(c.x as int).len() + ",\"y\":"@.len() + spec_dec_int(c.y as int).len() + ",\"cooldown\":"@.len() + spec_dec_nat(c.cooldown as nat).len() + ",\"cooldown_expiration\":"@.len(), (i + spec_dec_nat(c.xp as nat).len() + ",\"max_xp\":"@.len() + spec_dec_nat(c.max_xp as nat).len() + ",\"x\":"@.len() + spec_dec_int(c.x as int).len() + ",\"y\":"@.len() + spec_dec_int(c.y as int).len() + ",\"cooldown\":"@.len() + spec_dec_nat(c.cooldown as nat).len() + ",\"cooldown_expiration\":"@.len()) + spec_dec_int(c.cooldown_expiration as int).len()) == spec_dec_int(c.cooldown_expiration as int),
        s.subrange(i + spec_dec_nat(c.xp as nat).len() + ",\"max_xp\":"@.len() + spec_dec_nat(c.max_xp as nat).len() + ",\"x\":"@.len() + spec_dec_int(c.x as int).len() + ",\"y\":"@.len() + spec_dec_int(c.y as int).len() + ",\"cooldown\":"@.len() + spec_dec_nat(c.cooldown as nat).len() + ",\"cooldown_expiration\":"@.len() + spec_dec_int(c.cooldown_expiration as int).len(), (i + spec_dec_nat(c.xp as nat).len() + ",\"max_xp\":"@.len() + spec_dec_nat(c.max_xp as nat).len() + ",\"x\":"@.len() + spec_dec_int(c.x as int).len() + ",\"y\":"@.len() + spec_dec_int(c.y as int).len() + ",\"cooldown\":"@.len() + spec_dec_nat(c.cooldown as nat).len() + ",\"cooldown_expiration\":"@.len() + spec_dec_int(c.cooldown_expiration as int).len()) + "}"@.len()) == "}"@,
        s.subrange(i + spec_dec_nat(c.xp as nat).len() + ",\"max_xp\":"@.len() + spec_dec_nat(c.max_xp as nat).len() + ",\"x\":"@.len() + spec_dec_int(c.x as int).len() + ",\"y\":"@.len() + spec_dec_int(c.y as int).len() + ",\"cooldown\":"@.len() + spec_dec_nat(c.cooldown as nat).len() + ",\"cooldown_expiration\":"@.len() + spec_dec_int(c.cooldown_expiration as int).len() + "}"@.len(), (i + spec_dec_nat(c.xp as nat).len() + ",\"max_xp\":"@.len() + spec_dec_nat(c.max_xp as nat).len() + ",\"x\":"@.len() + spec_dec_int(c.x as int).len() + ",\"y\":"@.len() + spec_dec_int(c.y as int).len() + ",\"cooldown\":"@.len() + spec_dec_nat(c.cooldown as nat).len() + ",\"cooldown_expiration\":"@.len() + spec_dec_int(c.cooldown_expiration as int).len() + "}"@.len()) + "}"@.len()) == "}"@,
{
    lemma_peel(s, i, spec_dec_nat(c.xp as nat), ",\"max_xp\":"@ + (spec_dec_nat(c.max_xp as nat) + (",\"x\":"@ + (spec_dec_int(c.x as int) + (",\"y\":"@ + (spec_dec_int(c.y as int) + (",\"cooldown\":"@ + (spec_dec_nat(c.cooldown as nat) + (",\"cooldown_expiration\":"@ + (spec_dec_int(c.cooldown_expiration as int) + ("}"@ + ("}"@))))))))))));
    lemma_peel(s, i + spec_dec_nat(c.xp as nat).len(), ",\"max_xp\":"@, spec_dec_nat(c.max_xp as nat) + (",\"x\":"@ + (spec_dec_int(c.x as int) + (",\"y\":"@ + (spec_dec_int(c.y as int) + (",\"cooldown\":"@ + (spec_dec_nat(c.cooldown as nat) + (",\"cooldown_expiration\":"@ + (spec_dec_int(c.cooldown_expiration as int) + ("}"@ + ("}"@)))))))))));
    lemma_peel(s, i + spec_dec_nat(c.xp as nat).len() + ",\"max_xp\":"@.len(), spec_dec_nat(c.max_xp as nat), ",\"x\":"@ + (spec_dec_int(c.x as int) + (",\"y\":"@ + (spec_dec_int(c.y as int) + (",\"cooldown\":"@ + (spec_dec_nat(c.cooldown as nat) + (",\"cooldown_expiration\":"@ + (spec_dec_int(c.cooldown_expiration as int) + ("}"@ + ("}"@))))))))));
    lemma_peel(s, i + spec_dec_nat(c.xp as nat).len() + ",\"max_xp\":"@.len() + spec_dec_nat(c.max_xp as nat).len(), ",\"x\":"@, spec_dec_int(c.x as int) + (",\"y\":"@ + (spec_dec_int(c.y as int) + (",\"cooldown\":"@ + (spec_dec_nat(c.cooldown as nat) + (",\"cooldown_expiration\":"@ + (spec_dec_int(c.cooldown_expiration as int) + ("}"@ + ("}"@)))))))));
    lemma_peel(s, i + spec_dec_nat(c.xp as nat).len() + ",\"max_xp\":"@.len() + spec_dec_nat(c.max_xp as nat).len() + ",\"x\":"@.len(), spec_dec_int(c.x as int), ",\"y\":"@ + (spec_dec_int(c.y as int) + (",\"cooldown\":"@ + (spec_dec_nat(c.cooldown as nat) + (",\"cooldown_expiration\":"@ + (spec_dec_int(c.cooldown_expiration as int) + ("}"@ + ("}"@))))))));
    lemma_peel(s, i + spec_dec_nat(c.xp as nat).len() + ",\"max_xp\":"@.len() + spec_dec_nat(c.max_xp as nat).len() + ",\"x\":"@.len() + spec_dec_int(c.x as int).len(), ",\"y\":"@, spec_dec_int(c.y as int) + (",\"cooldown\":"@ + (spec_dec_nat(c.cooldown as nat) + (",\"cooldown_expiration\":"@ + (spec_dec_int(c.cooldown_expiration as int) + ("}"@ + ("}"@)))))));
    lemma_peel(s, i + spec_dec_nat(c.xp as nat).len() + ",\"max_xp\":"@.len() + spec_dec_nat(c.max_xp as nat).len() + ",\"x\":"@.len() + spec_dec_int(c.x as int).len() + ",\"y\":"@.len(), spec_dec_int(c.y as int), ",\"cooldown\":"@ + (spec_dec_nat(c.cooldown as nat) + (",\"cooldown_expiration\":"@ + (spec_dec_int(c.cooldown_expiration as int) + ("}"@ + ("}"@))))));
    lemma_peel(s, i + spec_dec_nat(c.xp as nat).len() + ",\"max_xp\":"@.len() + spec_dec_nat(c.max_xp as nat).len() + ",\"x\":"@.len() + spec_dec_int(c.x as int).len() + ",\"y\":"@.len() + spec_dec_int(c.y as int).len(), ",\"cooldown\":"@, spec_dec_nat(c.cooldown as nat) + (",\"cooldown_expiration\":"@ + (spec_dec_int(c.cooldown_expiration as int) + ("}"@ + ("}"@)))));
    lemma_peel(s, i + spec_dec_nat(c.xp as nat).len() + ",\"max_xp\":"@.len() + spec_dec_nat(c.max_xp as nat).len() + ",\"x\":"@.len() + spec_dec_int(c.x as int).len() + ",\"y\":"@.len() + spec_dec_int(c.y as int).len() + ",\"cooldown\":"@.len(), spec_dec_nat(c.cooldown as nat), ",\"cooldown_expiration\":"@ + (spec_dec_int(c.cooldown_expiration as int) + ("}"@ + ("}"@))));
    lemma_peel(s, i + spec_dec_nat(c.xp as nat).len() + ",\"max_xp\":"@.len() + spec_dec_nat(c.max_xp as nat).len() + ",\"x\":"@.len() + spec_dec_int(c.x as int).len() + ",\"y\":"@.len() + spec_dec_int(c.y as int).len() + ",\"cooldown\":"@.len() + spec_dec_nat(c.cooldown as nat).len(), ",\"cooldown_expiration\":"@, spec_dec_int(c.cooldown_expiration as int) + ("}"@ + ("}"@)));
    lemma_peel(s, i + spec_dec_nat(c.xp as nat).len() + ",\"max_xp\":"@.len() + spec_dec_nat(c.max_xp as nat).len() + ",\"x\":"@.len() + spec_dec_int(c.x as int).len() + ",\"y\":"@.len() + spec_dec_int(c.y as int).len() + ",\"cooldown\":"@.len() + spec_dec_nat(c.cooldown as nat).len() + ",\"cooldown_expiration\":"@.len(), spec_dec_int(c.cooldown_expiration as int), "}"@ + ("}"@));
    lemma_peel(s, i + spec_dec_nat(c.xp as nat).len() + ",\"max_xp\":"@.len() + spec_dec_nat(c.max_xp as nat).len() + ",\"x\":"@.len() + spec_dec_int(c.x as int).len() + ",\"y\":"@.len() + spec_dec_int(c.y as int).len() + ",\"cooldown\":"@.len() + spec_dec_nat(c.cooldown as nat).len() + ",\"cooldown_expiration\":"@.len() + spec_dec_int(c.cooldown_expiration as int).len(), "}"@, "}"@);
}

/// Every piece of the canonical response text stands at its place.
#[verifier::rlimit(100)]
proof fn lemma_response_pieces(s: Seq<char>, c: Character)
    requires
        spec_response_premise(s, c),
    ensures
        spec_response_pieces(s, c),
{
    lemma_response_pieces_front(s, c);
    lemma_response_pieces_back(s, c, 0int + "{\"data\":"@.len() + "{\"name\":\""@.len() + spec_escape(c.name@).len() + "\",\"gold\":"@.len() + spec_dec_nat(c.gold as nat).len() + ",\"level\":"@.len() + spec_dec_nat(c.level as nat).len() + ",\"hp\":"@.len() + spec_dec_nat(c.hp as nat).len() + ",\"max_hp\":"@.len() + spec_dec_nat(c.max_hp as nat).len() + ",\"xp\":"@.len());
}

/// Where this fixed piece of the canonical response text stands.
#[verifier::spinoff_prover]
proof fn lemma_response_open_envelope(s: Seq<char>, c: Character)
    requires
        spec_response_premise(s, c),
    ensures
        spec_lit_at(s, 0int, "{\"data\":"@),
        s.len() == 0int + "{\"data\":"@.len() + "{\"name\":\""@.len() + spec_escape(c.name@).len() + "\",\"gold\":"@.len() + spec_dec_nat(c.gold as nat).len() + ",\"level\":"@.len() + spec_dec_nat(c.level as nat).len() + ",\"hp\":"@.len() + spec_dec_nat(c.hp as nat).len() + ",\"max_hp\":"@.len() + spec_dec_nat(c.max_hp as nat).len() + ",\"xp\":"@.len() + spec_dec_nat(c.xp as nat).len() + ",\"max_xp\":"@.len() + spec_dec_nat(c.max_xp as nat).len() + ",\"x\":"@.len() + spec_dec_int(c.x as int).len() + ",\"y\":"@.len() + spec_dec_int(c.y as int).len() + ",\"cooldown\":"@.len() + spec_dec_nat(c.cooldown as nat).len() + ",\"cooldown_expiration\":"@.len() + spec_dec_int(c.cooldown_expiration as int).len() + "}"@.len() + "}"@.len(),
{
    lemma_response_pieces(s, c);
}

/// Where this fixed piece of the canonical response text stands.
#[verifier::spinoff_prover]
proof fn lemma_response_name_key(s: Seq<char>, c: Character)
    requires
        spec_response_premise(s, c),
    ensures
        spec_lit_at(s, 0int + "{\"data\":"@.len(), "{\"name\":\""@),
        s.len() == 0int + "{\"data\":"@.len() + "{\"name\":\""@.len() + spec_escape(c.name@).len() + "\",\"gold\":"@.len() + spec_dec_nat(c.gold as nat).len() + ",\"level\":"@.len() + spec_dec_nat(c.level as nat).len() + ",\"hp\":"@.len() + spec_dec_nat(c.hp as nat).len() + ",\"max_hp\":"@.len() + spec_dec_nat(c.max_hp as nat).len() + ",\"xp\":"@.len() + spec_dec_nat(c.xp as nat).len() + ",\"max_xp\":"@.len() + spec_dec_nat(c.max_xp as nat).len() + ",\"x\":"@.len() + spec_dec_int(c.x as int).len() + ",\"y\":"@.len() + spec_dec_int(c.y as int).len() + ",\"cooldown\":"@.len() + spec_dec_nat(c.cooldown as nat).len() + ",\"cooldown_expiration\":"@.len() + spec_dec_int(c.cooldown_expiration as int).len() + "}"@.len() + "}"@.len(),
{
    lemma_response_pieces(s, c);
}

/// Where the escaped name text of the canonical response stands.
#[verifier::spinoff_prover]
#[verifier::rlimit(100)]
proof fn lemma_response_name_text(s: Seq<char>, c: Character)
    requires
        spec_response_premise(s, c),
    ensures
        spec_escaped_name_at(s, 0int + "{\"data\":"@.len() + "{\"name\":\""@.len(), (0int + "{\"data\":"@.len() + "{\"name\":\""@.len()) + spec_escape(c.name@).len(), c.name@),
{
    lemma_response_pieces(s, c);
    reveal_strlit("\",\"gold\":");
    assert(s.subrange(0int + "{\"data\":"@.len() + "{\"name\":\""@.len() + spec_escape(c.name@).len(), (0int + "{\"data\":"@.len() + "{\"name\":\""@.len() + spec_escape(c.name@).len()) + "\",\"gold\":"@.len()) == "\",\"gold\":"@);
    assert(s[(0int + "{\"data\":"@.len() + "{\"name\":\""@.len()) + spec_escape(c.name@).len()] == "\",\"gold\":"@[0]);
}

/// Where this fixed piece of the canonical response text stands.
#[verifier::spinoff_prover]
proof fn lemma_response_gold_key(s: Seq<char>, c: Character)
    requires
        spec_response_premise(s, c),
    ensures
        spec_lit_at(s, 0int + "{\"data\":"@.len() + "{\"name\":\""@.len() + spec_escape(c.name@).len(), "\",\"gold\":"@),
        s.len() == 0int + "{\"data\":"@.len() + "{\"name\":\""@.len() + spec_escape(c.name@).len() + "\",\"gold\":"@.len() + spec_dec_nat(c.gold as nat).len() + ",\"level\":"@.len() + spec_dec_nat(c.level as nat).len() + ",\"hp\":"@.len() + spec_dec_nat(c.hp as nat).len() + ",\"max_hp\":"@.len() + spec_dec_nat(c.max_hp as nat).len() + ",\"xp\":"@.len() + spec_dec_nat(c.xp as nat).len() + ",\"max_xp\":"@.len() + spec_dec_nat(c.max_xp as nat).len() + ",\"x\":"@.len() + spec_dec_int(c.x as int).len() + ",\"y\":"@.len() + spec_dec_int(c.y as int).len() + ",\"cooldown\":"@.len() + spec_dec_nat(c.cooldown as nat).len() + ",\"cooldown_expiration\":"@.len() + spec_dec_int(c.cooldown_expiration as int).len() + "}"@.len() + "}"@.len(),
{
    lemma_response_pieces(s, c);
}

/// Where the `gold` number of the canonical response stands.
#[verifier::spinoff_prover]
proof fn lemma_response_gold_value(s: Seq<char>, c: Character)
    requires
        spec_response_premise(s, c),
    ensures
        spec_nat_at(s, 0int + "{\"data\":"@.len() + "{\"name\":\""@.len() + spec_escape(c.name@).len() + "\",\"gold\":"@.len(), (0int + "{\"data\":"@.len() + "{\"name\":\""@.len() + spec_escape(c.name@).len() + "\",\"gold\":"@.len()) + spec_dec_nat(c.gold as nat).len(), c.gold as nat),
{
    lemma_response_pieces(s, c);
    reveal_strlit(",\"level\":");
    lemma_dec_nat_props(c.gold as nat);
    assert(s.subrange(0int + "{\"data\":"@.len() + "{\"name\":\""@.len() + spec_escape(c.name@).len() + "\",\"gold\":"@.len() + spec_dec_nat(c.gold as nat).len(), (0int + "{\"data\":"@.len() + "{\"name\":\""@.len() + spec_escape(c.name@).len() + "\",\"gold\":"@.len() + spec_dec_nat(c.gold as nat).len()) + ",\"level\":"@.len()) == ",\"level\":"@);
    assert(s[0int + "{\"data\":"@.len() + "{\"name\":\""@.len() + spec_escape(c.name@).len() + "\",\"gold\":"@.len() + spec_dec_nat(c.gold as nat).len()] == ",\"level\":"@[0]);
}

/// Where this fixed piece of the canonical response text stands.
#[verifier::spinoff_prover]
proof fn lemma_response_level_key(s: Seq<char>, c: Character)
    requires
        spec_response_premise(s, c),
    ensures
        spec_lit_at(s, 0int + "{\"data\":"@.len() + "{\"name\":\""@.len() + spec_escape(c.name@).len() + "\",\"gold\":"@.len() + spec_dec_nat(c.gold as nat).len(), ",\"level\":"@),
        s.len() == 0int + "{\"data\":"@.len() + "{\"name\":\""@.len() + spec_escape(c.name@).len() + "\",\"gold\":"@.len() + spec_dec_nat(c.gold as nat).len() + ",\"level\":"@.len() + spec_dec_nat(c.level as nat).len() + ",\"hp\":"@.len() + spec_dec_nat(c.hp as nat).len() + ",\"max_hp\":"@.len() + spec_dec_nat(c.max_hp as nat).len() + ",\"xp\":"@.len() + spec_dec_nat(c.xp as nat).len() + ",\"max_xp\":"@.len() + spec_dec_nat(c.max_xp as nat).len() + ",\"x\":"@.len() + spec_dec_int(c.x as int).len() + ",\"y\":"@.len() + spec_dec_int(c.y as int).len() + ",\"cooldown\":"@.len() + spec_dec_nat(c.cooldown as nat).len() + ",\"cooldown_expiration\":"@.len() + spec_dec_int(c.cooldown_expiration as int).len() + "}"@.len() + "}"@.len(),
{
    lemma_response_pieces(s, c);
}

/// Where the `level` number of the canonical response stands.
#[verifier::spinoff_prover]
proof fn lemma_response_level_value(s: Seq<char>, c: Character)
    requires
        spec_response_premise(s, c),
    ensures
        spec_nat_at(s, 0int + "{\"data\":"@.len() + "{\"name\":\""@.len() + spec_escape(c.name@).len() + "\",\"gold\":"@.len() + spec_dec_nat(c.gold as nat).len() + ",\"level\":"@.len(), (0int + "{\"data\":"@.len() + "{\"name\":\""@.len() + spec_escape(c.name@).len() + "\",\"gold\":"@.len() + spec_dec_nat(c.gold as nat).len() + ",\"level\":"@.len()) + spec_dec_nat(c.level as nat).len(), c.level as nat),
{
    lemma_response_pieces(s, c);
    reveal_strlit(",\"hp\":");
    lemma_dec_nat_props(c.level as nat);
    assert(s.subrange(0int + "{\"data\":"@.len() + "{\"name\":\""@.len() + spec_escape(c.name@).len() + "\",\"gold\":"@.len() + spec_dec_nat(c.gold as nat).len() + ",\"level\":"@.len() + spec_dec_nat(c.level as nat).len(), (0int + "{\"data\":"@.len() + "{\"name\":\""@.len() + spec_escape(c.name@).len() + "\",\"gold\":"@.len() + spec_dec_nat(c.gold as nat).len() + ",\"level\":"@.len() + spec_dec_nat(c.level as nat).len()) + ",\"hp\":"@.len()) == ",\"hp\":"@);
    assert(s[0int + "{\"data\":"@.len() + "{\"name\":\""@.len() + spec_escape(c.name@).len() + "\",\"gold\":"@.len() + spec_dec_nat(c.gold as nat).len() + ",\"level\":"@.len() + spec_dec_nat(c.level as nat).len()] == ",\"hp\":"@[0]);
}

/// Where this fixed piece of the canonical response text stands.
#[verifier::spinoff_prover]
proof fn lemma_response_hp_key(s: Seq<char>, c: Character)
    requires
        spec_response_premise(s, c),
    ensures
        spec_lit_at(s, 0int + "{\"data\":"@.len() + "{\"name\":\""@.len() + spec_escape(c.name@).len() + "\",\"gold\":"@.len() + spec_dec_nat(c.gold as nat).len() + ",\"level\":"@.len() + spec_dec_nat(c.level as nat).len(), ",\"hp\":"@),
        s.len() == 0int + "{\"data\":"@.len() + "{\"name\":\""@.len() + spec_escape(c.name@).len() + "\",\"gold\":"@.len() + spec_dec_nat(c.gold as nat).len() + ",\"level\":"@.len() + spec_dec_nat(c.level as nat).len() + ",\"hp\":"@.len() + spec_dec_nat(c.hp as nat).len() + ",\"max_hp\":"@.len() + spec_dec_nat(c.max_hp as nat).len() + ",\"xp\":"@.len() + spec_dec_nat(c.xp as nat).len() + ",\"max_xp\":"@.len() + spec_dec_nat(c.max_xp as nat).len() + ",\"x\":"@.len() + spec_dec_int(c.x as int).len() + ",\"y\":"@.len() + spec_dec_int(c.y as int).len() + ",\"cooldown\":"@.len() + spec_dec_nat(c.cooldown as nat).len() + ",\"cooldown_expiration\":"@.len() + spec_dec_int(c.cooldown_expiration as int).len() + "}"@.len() + "}"@.len(),
{
    lemma_response_pieces(s, c);
}

/// Where the `hp` number of the canonical response stands.
#[verifier::spinoff_prover]
proof fn lemma_response_hp_value(s: Seq<char>, c: Character)
    requires
        spec_response_premise(s, c),
    ensures
        spec_nat_at(s, 0int + "{\"data\":"@.len() + "{\"name\":\""@.len() + spec_escape(c.name@).len() + "\",\"gold\":"@.len() + spec_dec_nat(c.gold as nat).len() + ",\"level\":"@.len() + spec_dec_nat(c.level as nat).len() + ",\"hp\":"@.len(), (0int + "{\"data\":"@.len() + "{\"name\":\""@.len() + spec_escape(c.name@).len() + "\",\"gold\":"@.len() + spec_dec_nat(c.gold as nat).len() + ",\"level\":"@.len() + spec_dec_nat(c.level as nat).len() + ",\"hp\":"@.len()) + spec_dec_nat(c.hp as nat).len(), c.hp as nat),
{
    lemma_response_pieces(s, c);
    reveal_strlit(",\"max_hp\":");
    lemma_dec_nat_props(c.hp as nat);
    assert(s.subrange(0int + "{\"data\":"@.len() + "{\"name\":\""@.len() + spec_escape(c.name@).len() + "\",\"gold\":"@.len() + spec_dec_nat(c.gold as nat).len() + ",\"level\":"@.len() + spec_dec_nat(c.level as nat).len() + ",\"hp\":"@.len() + spec_dec_nat(c.hp as nat).len(), (0int + "{\"data\":"@.len() + "{\"name\":\""@.len() + spec_escape(c.name@).len() + "\",\"gold\":"@.len() + spec_dec_nat(c.gold as nat).len() + ",\"level\":"@.len() + spec_dec_nat(c.level as nat).len() + ",\"hp\":"@.len() + spec_dec_nat(c.hp as nat).len()) + ",\"max_hp\":"@.len()) == ",\"max_hp\":"@);
    assert(s[0int + "{\"data\":"@.len() + "{\"name\":\""@.len() + spec_escape(c.name@).len() + "\",\"gold\":"@.len() + spec_dec_nat(c.gold as nat).len() + ",\"level\":"@.len() + spec_dec_nat(c.level as nat).len() + ",\"hp\":"@.len() + spec_dec_nat(c.hp as nat).len()] == ",\"max_hp\":"@[0]);
}

/// Where this fixed piece of the canonical response text stands.
#[verifier::spinoff_prover]
proof fn lemma_response_max_hp_key(s: Seq<char>, c: Character)
    requires
        spec_response_premise(s, c),
    ensures
        spec_lit_at(s, 0int + "{\"data\":"@.len() + "{\"name\":\""@.len() + spec_escape(c.name@).len() + "\",\"gold\":"@.len() + spec_dec_nat(c.gold as nat).len() + ",\"level\":"@.len() + spec_dec_nat(c.level as nat).len() + ",\"hp\":"@.len() + spec_dec_nat(c.hp as nat).len(), ",\"max_hp\":"@),
        s.len() == 0int + "{\"data\":"@.len() + "{\"name\":\""@.len() + spec_escape(c.name@).len() + "\",\"gold\":"@.len() + spec_dec_nat(c.gold as nat).len() + ",\"level\":"@.len() + spec_dec_nat(c.level as nat).len() + ",\"hp\":"@.len() + spec_dec_nat(c.hp as nat).len() + ",\"max_hp\":"@.len() + spec_dec_nat(c.max_hp as nat).len() + ",\"xp\":"@.len() + spec_dec_nat(c.xp as nat).len() + ",\"max_xp\":"@.len() + spec_dec_nat(c.max_xp as nat).len() + ",\"x\":"@.len() + spec_dec_int(c.x as int).len() + ",\"y\":"@.len() + spec_dec_int(c.y as int).len() + ",\"cooldown\":"@.len() + spec_dec_nat(c.cooldown as nat).len() + ",\"cooldown_expiration\":"@.len() + spec_dec_int(c.cooldown_expiration as int).len() + "}"@.len() + "}"@.len(),
{
    lemma_response_pieces(s, c);
}

/// Where the `max_hp` number of the canonical response stands.
#[verifier::spinoff_prover]
proof fn lemma_response_max_hp_value(s: Seq<char>, c: Character)
    requires
        spec_response_premise(s, c),
    ensures
        spec_nat_at(s, 0int + "{\"data\":"@.len() + "{\"name\":\""@.len() + spec_escape(c.name@).len() + "\",\"gold\":"@.len() + spec_dec_nat(c.gold as nat).len() + ",\"level\":"@.len() + spec_dec_nat(c.level as nat).len() + ",\"hp\":"@.len() + spec_dec_nat(c.hp as nat).len() + ",\"max_hp\":"@.len(), (0int + "{\"data\":"@.len() + "{\"name\":\""@.len() + spec_escape(c.name@).len() + "\",\"gold\":"@.len() + spec_dec_nat(c.gold as nat).len() + ",\"level\":"@.len() + spec_dec_nat(c.level as nat).len() + ",\"hp\":"@.len() + spec_dec_nat(c.hp as nat).len() + ",\"max_hp\":"@.len()) + spec_dec_nat(c.max_hp as nat).len(), c.max_hp as nat),
{
    lemma_response_pieces(s, c);
    reveal_strlit(",\"xp\":");
    lemma_dec_nat_props(c.max_hp as nat);
    assert(s.subrange(0int + "{\"data\":"@.len() + "{\"name\":\""@.len() + spec_escape(c.name@).len() + "\",\"gold\":"@.len() + spec_dec_nat(c.gold as nat).len() + ",\"level\":"@.len() + spec_dec_nat(c.level as nat).len() + ",\"hp\":"@.len() + spec_dec_nat(c.hp as nat).len() + ",\"max_hp\":"@.len() + spec_dec_nat(c.max_hp as nat).len(), (0int + "{\"data\":"@.len() + "{\"name\":\""@.len() + spec_escape(c.name@).len() + "\",\"gold\":"@.len() + spec_dec_nat(c.gold as nat).len() + ",\"level\":"@.len() + spec_dec_nat(c.level as nat).len() + ",\"hp\":"@.len() + spec_dec_nat(c.hp as nat).len() + ",\"max_hp\":"@.len() + spec_dec_nat(c.max_hp as nat).len()) + ",\"xp\":"@.len()) == ",\"xp\":"@);
    assert(s[0int + "{\"data\":"@.len() + "{\"name\":\""@.len() + spec_escape(c.name@).len() + "\",\"gold\":"@.len() + spec_dec_nat(c.gold as nat).len() + ",\"level\":"@.len() + spec_dec_nat(c.level as nat).len() + ",\"hp\":"@.len() + spec_dec_nat(c.hp as nat).len() + ",\"max_hp\":"@.len() + spec_dec_nat(c.max_hp as nat).len()] == ",\"xp\":"@[0]);
}

/// Where this fixed piece of the canonical response text stands.
#[verifier::spinoff_prover]
proof fn lemma_response_xp_key(s: Seq<char>, c: Character)
    requires
        spec_response_premise(s, c),
    ensures
        spec_lit_at(s, 0int + "{\"data\":"@.len() + "{\"name\":\""@.len() + spec_escape(c.name@).len() + "\",\"gold\":"@.len() + spec_dec_nat(c.gold as nat).len() + ",\"level\":"@.len() + spec_dec_nat(c.level as nat).len() + ",\"hp\":"@.len() + spec_dec_nat(c.hp as nat).len() + ",\"max_hp\":"@.len() + spec_dec_nat(c.max_hp as nat).len(), ",\"xp\":"@),
        s.len() == 0int + "{\"data\":"@.len() + "{\"name\":\""@.len() + spec_escape(c.name@).len() + "\",\"gold\":"@.len() + spec_dec_nat(c.gold as nat).len() + ",\"level\":"@.len() + spec_dec_nat(c.level as nat).len() + ",\"hp\":"@.len() + spec_dec_nat(c.hp as nat).len() + ",\"max_hp\":"@.len() + spec_dec_nat(c.max_hp as nat).len() + ",\"xp\":"@.len() + spec_dec_nat(c.xp as nat).len() + ",\"max_xp\":"@.len() + spec_dec_nat(c.max_xp as nat).len() + ",\"x\":"@.len() + spec_dec_int(c.x as int).len() + ",\"y\":"@.len() + spec_dec_int(c.y as int).len() + ",\"cooldown\":"@.len() + spec_dec_nat(c.cooldown as nat).len() + ",\"cooldown_expiration\":"@.len() + spec_dec_int(c.cooldown_expiration as int).len() + "}"@.len() + "}"@.len(),
{
    lemma_response_pieces(s, c);
}

/// Where the `xp` number of the canonical response stands.
#[verifier::spinoff_prover]
proof fn lemma_response_xp_value(s: Seq<char>, c: Character)
    requires
        spec_response_premise(s, c),
    ensures
        spec_nat_at(s, 0int + "{\"data\":"@.len() + "{\"name\":\""@.len() + spec_escape(c.name@).len() + "\",\"gold\":"@.len() + spec_dec_nat(c.gold as nat).len() + ",\"level\":"@.len() + spec_dec_nat(c.level as nat).len() + ",\"hp\":"@.len() + spec_dec_nat(c.hp as nat).len() + ",\"max_hp\":"@.len() + spec_dec_nat(c.max_hp as nat).len() + ",\"xp\":"@.len(), (0int + "{\"data\":"@.len() + "{\"name\":\""@.len() + spec_escape(c.name@).len() + "\",\"gold\":"@.len() + spec_dec_nat(c.gold as nat).len() + ",\"level\":"@.len() + spec_dec_nat(c.level as nat).len() + ",\"hp\":"@.len() + spec_dec_nat(c.hp as nat).len() + ",\"max_hp\":"@.len() + spec_dec_nat(c.max_hp as nat).len() + ",\"xp\":"@.len()) + spec_dec_nat(c.xp as nat).len(), c.xp as nat),
{
    lemma_response_pieces(s, c);
    reveal_strlit(",\"max_xp\":");
    lemma_dec_nat_props(c.xp as nat);
    assert(s.subrange(0int + "{\"data\":"@.len() + "{\"name\":\""@.len() + spec_escape(c.name@).len() + "\",\"gold\":"@.len() + spec_dec_nat(c.gold as nat).len() + ",\"level\":"@.len() + spec_dec_nat(c.level as nat).len() + ",\"hp\":"@.len() + spec_dec_nat(c.hp as nat).len() + ",\"max_hp\":"@.len() + spec_dec_nat(c.max_hp as nat).len() + ",\"xp\":"@.len() + spec_dec_nat(c.xp as nat).len(), (0int + "{\"data\":"@.len() + "{\"name\":\""@.len() + spec_escape(c.name@).len() + "\",\"gold\":"@.len() + spec_dec_nat(c.gold as nat).len() + ",\"level\":"@.len() + spec_dec_nat(c.level as nat).len() + ",\"hp\":"@.len() + spec_dec_nat(c.hp as nat).len() + ",\"max_hp\":"@.len() + spec_dec_nat(c.max_hp as nat).len() + ",\"xp\":"@.len() + spec_dec_nat(c.xp as nat).len()) + ",\"max_xp\":"@.len()) == ",\"max_xp\":"@);
    assert(s[0int + "{\"data\":"@.len() + "{\"name\":\""@.len() + spec_escape(c.name@).len() + "\",\"gold\":"@.len() + spec_dec_nat(c.gold as nat).len() + ",\"level\":"@.len() + spec_dec_nat(c.level as nat).len() + ",\"hp\":"@.len() + spec_dec_nat(c.hp as nat).len() + ",\"max_hp\":"@.len() + spec_dec_nat(c.max_hp as nat).len() + ",\"xp\":"@.len() + spec_dec_nat(c.xp as nat).len()] == ",\"max_xp\":"@[0]);
}

/// Where this fixed piece of the canonical response text stands.
#[verifier::spinoff_prover]
proof fn lemma_response_max_xp_key(s: Seq<char>, c: Character)
    requires
        spec_response_premise(s, c),
    ensures
        spec_lit_at(s, 0int + "{\"data\":"@.len() + "{\"name\":\""@.len() + spec_escape(c.name@).len() + "\",\"gold\":"@.len() + spec_dec_nat(c.gold as nat).len() + ",\"level\":"@.len() + spec_dec_nat(c.level as nat).len() + ",\"hp\":"@.len() + spec_dec_nat(c.hp as nat).len() + ",\"max_hp\":"@.len() + spec_dec_nat(c.max_hp as nat).len() + ",\"xp\":"@.len() + spec_dec_nat(c.xp as nat).len(), ",\"max_xp\":"@),
        s.len() == 0int + "{\"data\":"@.len() + "{\"name\":\""@.len() + spec_escape(c.name@).len() + "\",\"gold\":"@.len() + spec_dec_nat(c.gold as nat).len() + ",\"level\":"@.len() + spec_dec_nat(c.level as nat).len() + ",\"hp\":"@.len() + spec_dec_nat(c.hp as nat).len() + ",\"max_hp\":"@.len() + spec_dec_nat(c.max_hp as nat).len() + ",\"xp\":"@.len() + spec_dec_nat(c.xp as nat).len() + ",\"max_xp\":"@.len() + spec_dec_nat(c.max_xp as nat).len() + ",\"x\":"@.len() + spec_dec_int(c.x as int).len() + ",\"y\":"@.len() + spec_dec_int(c.y as int).len() + ",\"cooldown\":"@.len() + spec_dec_nat(c.cooldown as nat).len() + ",\"cooldown_expiration\":"@.len() + spec_dec_int(c.cooldown_expiration as int).len() + "}"@.len() + "}"@.len(),
{
    lemma_response_pieces(s, c);
}

/// Where the `max_xp` number of the canonical response stands.
#[verifier::spinoff_prover]
proof fn lemma_response_max_xp_value(s: Seq<char>, c: Character)
    requires
        spec_response_premise(s, c),
    ensures
        spec_nat_at(s, 0int + "{\"data\":"@.len() + "{\"name\":\""@.len() + spec_escape(c.name@).len() + "\",\"gold\":"@.len() + spec_dec_nat(c.gold as nat).len() + ",\"level\":"@.len() + spec_dec_nat(c.level as nat).len() + ",\"hp\":"@.len() + spec_dec_nat(c.hp as nat).len() + ",\"max_hp\":"@.len() + spec_dec_nat(c.max_hp as nat).len() + ",\"xp\":"@.len() + spec_dec_nat(c.xp as nat).len() + ",\"max_xp\":"@.len(), (0int + "{\"data\":"@.len() + "{\"name\":\""@.len() + spec_escape(c.name@).len() + "\",\"gold\":"@.len() + spec_dec_nat(c.gold as nat).len() + ",\"level\":"@.len() + spec_dec_nat(c.level as nat).len() + ",\"hp\":"@.len() + spec_dec_nat(c.hp as nat).len() + ",\"max_hp\":"@.len() + spec_dec_nat(c.max_hp as nat).len() + ",\"xp\":"@.len() + spec_dec_nat(c.xp as nat).len() + ",\"max_xp\":"@.len()) + spec_dec_nat(c.max_xp as nat).len(), c.max_xp as nat),
{
    lemma_response_pieces(s, c);
    reveal_strlit(",\"x\":");
    lemma_dec_nat_props(c.max_xp as nat);
    assert(s.subrange(0int + "{\"data\":"@.len() + "{\"name\":\""@.len() + spec_escape(c.name@).len() + "\",\"gold\":"@.len() + spec_dec_nat(c.gold as nat).len() + ",\"level\":"@.len() + spec_dec_nat(c.level as nat).len() + ",\"hp\":"@.len() + spec_dec_nat(c.hp as nat).len() + ",\"max_hp\":"@.len() + spec_dec_nat(c.max_hp as nat).len() + ",\"xp\":"@.len() + spec_dec_nat(c.xp as nat).len() + ",\"max_xp\":"@.len() + spec_dec_nat(c.max_xp as nat).len(), (0int + "{\"data\":"@.len() + "{\"name\":\""@.len() + spec_escape(c.name@).len() + "\",\"gold\":"@.len() + spec_dec_nat(c.gold as nat).len() + ",\"level\":"@.len() + spec_dec_nat(c.level as nat).len() + ",\"hp\":"@.len() + spec_dec_nat(c.hp as nat).len() + ",\"max_hp\":"@.len() + spec_dec_nat(c.max_hp as nat).len() + ",\"xp\":"@.len() + spec_dec_nat(c.xp as nat).len() + ",\"max_xp\":"@.len() + spec_dec_nat(c.max_xp as nat).len()) + ",\"x\":"@.len()) == ",\"x\":"@);
    assert(s[0int + "{\"data\":"@.len() + "{\"name\":\""@.len() + spec_escape(c.name@).len() + "\",\"gold\":"@.len() + spec_dec_nat(c.gold as nat).len() + ",\"level\":"@.len() + spec_dec_nat(c.level as nat).len() + ",\"hp\":"@.len() + spec_dec_nat(c.hp as nat).len() + ",\"max_hp\":"@.len() + spec_dec_nat(c.max_hp as nat).len() + ",\"xp\":"@.len() + spec_dec_nat(c.xp as nat).len() + ",\"max_xp\":"@.len() + spec_dec_nat(c.max_xp as nat).len()] == ",\"x\":"@[0]);
}

/// Where this fixed piece of the canonical response text stands.
#[verifier::spinoff_prover]
proof fn lemma_response_x_key(s: Seq<char>, c: Character)
    requires
        spec_response_premise(s, c),
    ensures
        spec_lit_at(s, 0int + "{\"data\":"@.len() + "{\"name\":\""@.len() + spec_escape(c.name@).len() + "\",\"gold\":"@.len() + spec_dec_nat(c.gold as nat).len() + ",\"level\":"@.len() + spec_dec_nat(c.level as nat).len() + ",\"hp\":"@.len() + spec_dec_nat(c.hp as nat).len() + ",\"max_hp\":"@.len() + spec_dec_nat(c.max_hp as nat).len() + ",\"xp\":"@.len() + spec_dec_nat(c.xp as nat).len() + ",\"max_xp\":"@.len() + spec_dec_nat(c.max_xp as nat).len(), ",\"x\":"@),
        s.len() == 0int + "{\"data\":"@.len() + "{\"name\":\""@.len() + spec_escape(c.name@).len() + "\",\"gold\":"@.len() + spec_dec_nat(c.gold as nat).len() + ",\"level\":"@.len() + spec_dec_nat(c.level as nat).len() + ",\"hp\":"@.len() + spec_dec_nat(c.hp as nat).len() + ",\"max_hp\":"@.len() + spec_dec_nat(c.max_hp as nat).len() + ",\"xp\":"@.len() + spec_dec_nat(c.xp as nat).len() + ",\"max_xp\":"@.len() + spec_dec_nat(c.max_xp as nat).len() + ",\"x\":"@.len() + spec_dec_int(c.x as int).len() + ",\"y\":"@.len() + spec_dec_int(c.y as int).len() + ",\"cooldown\":"@.len() + spec_dec_nat(c.cooldown as nat).len() + ",\"cooldown_expiration\":"@.len() + spec_dec_int(c.cooldown_expiration as int).len() + "}"@.len() + "}"@.len(),
{
    lemma_response_pieces(s, c);
}

/// Where the `x` number of the canonical response stands.
#[verifier::spinoff_prover]
proof fn lemma_response_x_value(s: Seq<char>, c: Character)
    requires
        spec_response_premise(s, c),
    ensures
        spec_int_at(s, 0int + "{\"data\":"@.len() + "{\"name\":\""@.len() + spec_escape(c.name@).len() + "\",\"gold\":"@.len() + spec_dec_nat(c.gold as nat).len() + ",\"level\":"@.len() + spec_dec_nat(c.level as nat).len() + ",\"hp\":"@.len() + spec_dec_nat(c.hp as nat).len() + ",\"max_hp\":"@.len() + spec_dec_nat(c.max_hp as nat).len() + ",\"xp\":"@.len() + spec_dec_nat(c.xp as nat).len() + ",\"max_xp\":"@.len() + spec_dec_nat(c.max_xp as nat).len() + ",\"x\":"@.len(), (0int + "{\"data\":"@.len() + "{\"name\":\""@.len() + spec_escape(c.name@).len() + "\",\"gold\":"@.len() + spec_dec_nat(c.gold as nat).len() + ",\"level\":"@.len() + spec_dec_nat(c.level as nat).len() + ",\"hp\":"@.len() + spec_dec_nat(c.hp as nat).len() + ",\"max_hp\":"@.len() + spec_dec_nat(c.max_hp as nat).len() + ",\"xp\":"@.len() + spec_dec_nat(c.xp as nat).len() + ",\"max_xp\":"@.len() + spec_dec_nat(c.max_xp as nat).len() + ",\"x\":"@.len()) + spec_dec_int(c.x as int).len(), c.x as int),
{
    lemma_response_pieces(s, c);
    reveal_strlit(",\"y\":");
    lemma_dec_nat_props(if c.x >= 0 { c.x as nat } else { (-c.x) as nat });
    assert(s.subrange(0int + "{\"data\":"@.len() + "{\"name\":\""@.len() + spec_escape(c.name@).len() + "\",\"gold\":"@.len() + spec_dec_nat(c.gold as nat).len() + ",\"level\":"@.len() + spec_dec_nat(c.level as nat).len() + ",\"hp\":"@.len() + spec_dec_nat(c.hp as nat).len() + ",\"max_hp\":"@.len() + spec_dec_nat(c.max_hp as nat).len() + ",\"xp\":"@.len() + spec_dec_nat(c.xp as nat).len() + ",\"max_xp\":"@.len() + spec_dec_nat(c.max_xp as nat).len() + ",\"x\":"@.len() + spec_dec_int(c.x as int).len(), (0int + "{\"data\":"@.len() + "{\"name\":\""@.len() + spec_escape(c.name@).len() + "\",\"gold\":"@.len() + spec_dec_nat(c.gold as nat).len() + ",\"level\":"@.len() + spec_dec_nat(c.level as nat).len() + ",\"hp\":"@.len() + spec_dec_nat(c.hp as nat).len() + ",\"max_hp\":"@.len() + spec_dec_nat(c.max_hp as nat).len() + ",\"xp\":"@.len() + spec_dec_nat(c.xp as nat).len() + ",\"max_xp\":"@.len() + spec_dec_nat(c.max_xp as nat).len() + ",\"x\":"@.len() + spec_dec_int(c.x as int).len()) + ",\"y\":"@.len()) == ",\"y\":"@);
    assert(s[0int + "{\"data\":"@.len() + "{\"name\":\""@.len() + spec_escape(c.name@).len() + "\",\"gold\":"@.len() + spec_dec_nat(c.gold as nat).len() + ",\"level\":"@.len() + spec_dec_nat(c.level as nat).len() + ",\"hp\":"@.len() + spec_dec_nat(c.hp as nat).len() + ",\"max_hp\":"@.len() + spec_dec_nat(c.max_hp as nat).len() + ",\"xp\":"@.len() + spec_dec_nat(c.xp as nat).len() + ",\"max_xp\":"@.len() + spec_dec_nat(c.max_xp as nat).len() + ",\"x\":"@.len() + spec_dec_int(c.x as int).len()] == ",\"y\":"@[0]);
}

/// Where this fixed piece of the canonical response text stands.
#[verifier::spinoff_prover]
proof fn lemma_response_y_key(s: Seq<char>, c: Character)
    requires
        spec_response_premise(s, c),
    ensures
        spec_lit_at(s, 0int + "{\"data\":"@.len() + "{\"name\":\""@.len() + spec_escape(c.name@).len() + "\",\"gold\":"@.len() + spec_dec_nat(c.gold as nat).len() + ",\"level\":"@.len() + spec_dec_nat(c.level as nat).len() + ",\"hp\":"@.len() + spec_dec_nat(c.hp as nat).len() + ",\"max_hp\":"@.len() + spec_dec_nat(c.max_hp as nat).len() + ",\"xp\":"@.len() + spec_dec_nat(c.xp as nat).len() + ",\"max_xp\":"@.len() + spec_dec_nat(c.max_xp as nat).len() + ",\"x\":"@.len() + spec_dec_int(c.x as int).len(), ",\"y\":"@),
        s.len() == 0int + "{\"data\":"@.len() + "{\"name\":\""@.len() + spec_escape(c.name@).len() + "\",\"gold\":"@.len() + spec_dec_nat(c.gold as nat).len() + ",\"level\":"@.len() + spec_dec_nat(c.level as nat).len() + ",\"hp\":"@.len() + spec_dec_nat(c.hp as nat).len() + ",\"max_hp\":"@.len() + spec_dec_nat(c.max_hp as nat).len() + ",\"xp\":"@.len() + spec_dec_nat(c.xp as nat).len() + ",\"max_xp\":"@.len() + spec_dec_nat(c.max_xp as nat).len() + ",\"x\":"@.len() + spec_dec_int(c.x as int).len() + ",\"y\":"@.len() + spec_dec_int(c.y as int).len() + ",\"cooldown\":"@.len() + spec_dec_nat(c.cooldown as nat).len() + ",\"cooldown_expiration\":"@.len() + spec_dec_int(c.cooldown_expiration as int).len() + "}"@.len() + "}"@.len(),
{
    lemma_response_pieces(s, c);
}

/// Where the `y` number of the canonical response stands.
#[verifier::spinoff_prover]
proof fn lemma_response_y_value(s: Seq<char>, c: Character)
    requires
        spec_response_premise(s, c),
    ensures
        spec_int_at(s, 0int + "{\"data\":"@.len() + "{\"name\":\""@.len() + spec_escape(c.name@).len() + "\",\"gold\":"@.len() + spec_dec_nat(c.gold as nat).len() + ",\"level\":"@.len() + spec_dec_nat(c.level as nat).len() + ",\"hp\":"@.len() + spec_dec_nat(c.hp as nat).len() + ",\"max_hp\":"@.len() + spec_dec_nat(c.max_hp as nat).len() + ",\"xp\":"@.len() + spec_dec_nat(c.xp as nat).len() + ",\"max_xp\":"@.len() + spec_dec_nat(c.max_xp as nat).len() + ",\"x\":"@.len() + spec_dec_int(c.x as int).len() + ",\"y\":"@.len(), (0int + "{\"data\":"@.len() + "{\"name\":\""@.len() + spec_escape(c.name@).len() + "\",\"gold\":"@.len() + spec_dec_nat(c.gold as nat).len() + ",\"level\":"@.len() + spec_dec_nat(c.level as nat).len() + ",\"hp\":"@.len() + spec_dec_nat(c.hp as nat).len() + ",\"max_hp\":"@.len() + spec_dec_nat(c.max_hp as nat).len() + ",\"xp\":"@.len() + spec_dec_nat(c.xp as nat).len() + ",\"max_xp\":"@.len() + spec_dec_nat(c.max_xp as nat).len() + ",\"x\":"@.len() + spec_dec_int(c.x as int).len() + ",\"y\":"@.len()) + spec_dec_int(c.y as int).len(), c.y as int),
{
    lemma_response_pieces(s, c);
    reveal_strlit(",\"cooldown\":");
    lemma_dec_nat_props(if c.y >= 0 { c.y as nat } else { (-c.y) as nat });
    assert(s.subrange(0int + "{\"data\":"@.len() + "{\"name\":\""@.len() + spec_escape(c.name@).len() + "\",\"gold\":"@.len() + spec_dec_nat(c.gold as nat).len() + ",\"level\":"@.len() + spec_dec_nat(c.level as nat).len() + ",\"hp\":"@.len() + spec_dec_nat(c.hp as nat).len() + ",\"max_hp\":"@.len() + spec_dec_nat(c.max_hp as nat).len() + ",\"xp\":"@.len() + spec_dec_nat(c.xp as nat).len() + ",\"max_xp\":"@.len() + spec_dec_nat(c.max_xp as nat).len() + ",\"x\":"@.len() + spec_dec_int(c.x as int).len() + ",\"y\":"@.len() + spec_dec_int(c.y as int).len(), (0int + "{\"data\":"@.len() + "{\"name\":\""@.len() + spec_escape(c.name@).len() + "\",\"gold\":"@.len() + spec_dec_nat(c.gold as nat).len() + ",\"level\":"@.len() + spec_dec_nat(c.level as nat).len() + ",\"hp\":"@.len() + spec_dec_nat(c.hp as nat).len() + ",\"max_hp\":"@.len() + spec_dec_nat(c.max_hp as nat).len() + ",\"xp\":"@.len() + spec_dec_nat(c.xp as nat).len() + ",\"max_xp\":"@.len() + spec_dec_nat(c.max_xp as nat).len() + ",\"x\":"@.len() + spec_dec_int(c.x as int).len() + ",\"y\":"@.len() + spec_dec_int(c.y as int).len()) + ",\"cooldown\":"@.len()) == ",\"cooldown\":"@);
    assert(s[0int + "{\"data\":"@.len() + "{\"name\":\""@.len() + spec_escape(c.name@).len() + "\",\"gold\":"@.len() + spec_dec_nat(c.gold as nat).len() + ",\"level\":"@.len() + spec_dec_nat(c.level as nat).len() + ",\"hp\":"@.len() + spec_dec_nat(c.hp as nat).len() + ",\"max_hp\":"@.len() + spec_dec_nat(c.max_hp as nat).len() + ",\"xp\":"@.len() + spec_dec_nat(c.xp as nat).len() + ",\"max_xp\":"@.len() + spec_dec_nat(c.max_xp as nat).len() + ",\"x\":"@.len() + spec_dec_int(c.x as int).len() + ",\"y\":"@.len() + spec_dec_int(c.y as int).len()] == ",\"cooldown\":"@[0]);
}

/// Where this fixed piece of the canonical response text stands.
#[verifier::spinoff_prover]
proof fn lemma_response_cooldown_key(s: Seq<char>, c: Character)
    requires
        spec_response_premise(s, c),
    ensures
        spec_lit_at(s, 0int + "{\"data\":"@.len() + "{\"name\":\""@.len() + spec_escape(c.name@).len() + "\",\"gold\":"@.len() + spec_dec_nat(c.gold as nat).len() + ",\"level\":"@.len() + spec_dec_nat(c.level as nat).len() + ",\"hp\":"@.len() + spec_dec_nat(c.hp as nat).len() + ",\"max_hp\":"@.len() + spec_dec_nat(c.max_hp as nat).len() + ",\"xp\":"@.len() + spec_dec_nat(c.xp as nat).len() + ",\"max_xp\":"@.len() + spec_dec_nat(c.max_xp as nat).len() + ",\"x\":"@.len() + spec_dec_int(c.x as int).len() + ",\"y\":"@.len() + spec_dec_int(c.y as int).len(), ",\"cooldown\":"@),
        s.len() == 0int + "{\"data\":"@.len() + "{\"name\":\""@.len() + spec_escape(c.name@).len() + "\",\"gold\":"@.len() + spec_dec_nat(c.gold as nat).len() + ",\"level\":"@.len() + spec_dec_nat(c.level as nat).len() + ",\"hp\":"@.len() + spec_dec_nat(c.hp as nat).len() + ",\"max_hp\":"@.len() + spec_dec_nat(c.max_hp as nat).len() + ",\"xp\":"@.len() + spec_dec_nat(c.xp as nat).len() + ",\"max_xp\":"@.len() + spec_dec_nat(c.max_xp as nat).len() + ",\"x\":"@.len() + spec_dec_int(c.x as int).len() + ",\"y\":"@.len() + spec_dec_int(c.y as int).len() + ",\"cooldown\":"@.len() + spec_dec_nat(c.cooldown as nat).len() + ",\"cooldown_expiration\":"@.len() + spec_dec_int(c.cooldown_expiration as int).len() + "}"@.len() + "}"@.len(),
{
    lemma_response_pieces(s, c);
}

/// Where the `cooldown` number of the canonical response stands.
#[verifier::spinoff_prover]
proof fn lemma_response_cooldown_value(s: Seq<char>, c: Character)
    requires
        spec_response_premise(s, c),
    ensures
        spec_nat_at(s, 0int + "{\"data\":"@.len() + "{\"name\":\""@.len() + spec_escape(c.name@).len() + "\",\"gold\":"@.len() + spec_dec_nat(c.gold as nat).len() + ",\"level\":"@.len() + spec_dec_nat(c.level as nat).len() + ",\"hp\":"@.len() + spec_dec_nat(c.hp as nat).len() + ",\"max_hp\":"@.len() + spec_dec_nat(c.max_hp as nat).len() + ",\"xp\":"@.len() + spec_dec_nat(c.xp as nat).len() + ",\"max_xp\":"@.len() + spec_dec_nat(c.max_xp as nat).len() + ",\"x\":"@.len() + spec_dec_int(c.x as int).len() + ",\"y\":"@.len() + spec_dec_int(c.y as int).len() + ",\"cooldown\":"@.len(), (0int + "{\"data\":"@.len() + "{\"name\":\""@.len() + spec_escape(c.name@).len() + "\",\"gold\":"@.len() + spec_dec_nat(c.gold as nat).len() + ",\"level\":"@.len() + spec_dec_nat(c.level as nat).len() + ",\"hp\":"@.len() + spec_dec_nat(c.hp as nat).len() + ",\"max_hp\":"@.len() + spec_dec_nat(c.max_hp as nat).len() + ",\"xp\":"@.len() + spec_dec_nat(c.xp as nat).len() + ",\"max_xp\":"@.len() + spec_dec_nat(c.max_xp as nat).len() + ",\"x\":"@.len() + spec_dec_int(c.x as int).len() + ",\"y\":"@.len() + spec_dec_int(c.y as int).len() + ",\"cooldown\":"@.len()) + spec_dec_nat(c.cooldown as nat).len(), c.cooldown as nat),
{
    lemma_response_pieces(s, c);
    reveal_strlit(",\"cooldown_expiration\":");
    lemma_dec_nat_props(c.cooldown as nat);
    assert(s.subrange(0int + "{\"data\":"@.len() + "{\"name\":\""@.len() + spec_escape(c.name@).len() + "\",\"gold\":"@.len() + spec_dec_nat(c.gold as nat).len() + ",\"level\":"@.len() + spec_dec_nat(c.level as nat).len() + ",\"hp\":"@.len() + spec_dec_nat(c.hp as nat).len() + ",\"max_hp\":"@.len() + spec_dec_nat(c.max_hp as nat).len() + ",\"xp\":"@.len() + spec_dec_nat(c.xp as nat).len() + ",\"max_xp\":"@.len() + spec_dec_nat(c.max_xp as nat).len() + ",\"x\":"@.len() + spec_dec_int(c.x as int).len() + ",\"y\":"@.len() + spec_dec_int(c.y as int).len() + ",\"cooldown\":"@.len() + spec_dec_nat(c.cooldown as nat).len(), (0int + "{\"data\":"@.len() + "{\"name\":\""@.len() + spec_escape(c.name@).len() + "\",\"gold\":"@.len() + spec_dec_nat(c.gold as nat).len() + ",\"level\":"@.len() + spec_dec_nat(c.level as nat).len() + ",\"hp\":"@.len() + spec_dec_nat(c.hp as nat).len() + ",\"max_hp\":"@.len() + spec_dec_nat(c.max_hp as nat).len() + ",\"xp\":"@.len() + spec_dec_nat(c.xp as nat).len() + ",\"max_xp\":"@.len() + spec_dec_nat(c.max_xp as nat).len() + ",\"x\":"@.len() + spec_dec_int(c.x as int).len() + ",\"y\":"@.len() + spec_dec_int(c.y as int).len() + ",\"cooldown\":"@.len() + spec_dec_nat(c.cooldown as nat).len()) + ",\"cooldown_expiration\":"@.len()) == ",\"cooldown_expiration\":"@);
    assert(s[0int + "{\"data\":"@.len() + "{\"name\":\""@.len() + spec_escape(c.name@).len() + "\",\"gold\":"@.len() + spec_dec_nat(c.gold as nat).len() + ",\"level\":"@.len() + spec_dec_nat(c.level as nat).len() + ",\"hp\":"@.len() + spec_dec_nat(c.hp as nat).len() + ",\"max_hp\":"@.len() + spec_dec_nat(c.max_hp as nat).len() + ",\"xp\":"@.len() + spec_dec_nat(c.xp as nat).len() + ",\"max_xp\":"@.len() + spec_dec_nat(c.max_xp as nat).len() + ",\"x\":"@.len() + spec_dec_int(c.x as int).len() + ",\"y\":"@.len() + spec_dec_int(c.y as int).len() + ",\"cooldown\":"@.len() + spec_dec_nat(c.cooldown as nat).len()] == ",\"cooldown_expiration\":"@[0]);
}

/// Where this fixed piece of the canonical response text stands.
#[verifier::spinoff_prover]
proof fn lemma_response_expiration_key(s: Seq<char>, c: Character)
    requires
        spec_response_premise(s, c),
    ensures
        spec_lit_at(s, 0int + "{\"data\":"@.len() + "{\"name\":\""@.len() + spec_escape(c.name@).len() + "\",\"gold\":"@.len() + spec_dec_nat(c.gold as nat).len() + ",\"level\":"@.len() + spec_dec_nat(c.level as nat).len() + ",\"hp\":"@.len() + spec_dec_nat(c.hp as nat).len() + ",\"max_hp\":"@.len() + spec_dec_nat(c.max_hp as nat).len() + ",\"xp\":"@.len() + spec_dec_nat(c.xp as nat).len() + ",\"max_xp\":"@.len() + spec_dec_nat(c.max_xp as nat).len() + ",\"x\":"@.len() + spec_dec_int(c.x as int).len() + ",\"y\":"@.len() + spec_dec_int(c.y as int).len() + ",\"cooldown\":"@.len() + spec_dec_nat(c.cooldown as nat).len(), ",\"cooldown_expiration\":"@),
        s.len() == 0int + "{\"data\":"@.len() + "{\"name\":\""@.len() + spec_escape(c.name@).len() + "\",\"gold\":"@.len() + spec_dec_nat(c.gold as nat).len() + ",\"level\":"@.len() + spec_dec_nat(c.level as nat).len() + ",\"hp\":"@.len() + spec_dec_nat(c.hp as nat).len() + ",\"max_hp\":"@.len() + spec_dec_nat(c.max_hp as nat).len() + ",\"xp\":"@.len() + spec_dec_nat(c.xp as nat).len() + ",\"max_xp\":"@.len() + spec_dec_nat(c.max_xp as nat).len() + ",\"x\":"@.len() + spec_dec_int(c.x as int).len() + ",\"y\":"@.len() + spec_dec_int(c.y as int).len() + ",\"cooldown\":"@.len() + spec_dec_nat(c.cooldown as nat).len() + ",\"cooldown_expiration\":"@.len() + spec_dec_int(c.cooldown_expiration as int).len() + "}"@.len() + "}"@.len(),
{
    lemma_response_pieces(s, c);
}

/// Where the `cooldown_expiration` number of the canonical response stands.
#[verifier::spinoff_prover]
proof fn lemma_response_expiration_value(s: Seq<char>, c: Character)
    requires
        spec_response_premise(s, c),
    ensures
        spec_int_at(s, 0int + "{\"data\":"@.len() + "{\"name\":\""@.len() + spec_escape(c.name@).len() + "\",\"gold\":"@.len() + spec_dec_nat(c.gold as nat).len() + ",\"level\":"@.len() + spec_dec_nat(c.level as nat).len() + ",\"hp\":"@.len() + spec_dec_nat(c.hp as nat).len() + ",\"max_hp\":"@.len() + spec_dec_nat(c.max_hp as nat).len() + ",\"xp\":"@.len() + spec_dec_nat(c.xp as nat).len() + ",\"max_xp\":"@.len() + spec_dec_nat(c.max_xp as nat).len() + ",\"x\":"@.len() + spec_dec_int(c.x as int).len() + ",\"y\":"@.len() + spec_dec_int(c.y as int).len() + ",\"cooldown\":"@.len() + spec_dec_nat(c.cooldown as nat).len() + ",\"cooldown_expiration\":"@.len(), (0int + "{\"data\":"@.len() + "{\"name\":\""@.len() + spec_escape(c.name@).len() + "\",\"gold\":"@.len() + spec_dec_nat(c.gold as nat).len() + ",\"level\":"@.len() + spec_dec_nat(c.level as nat).len() + ",\"hp\":"@.len() + spec_dec_nat(c.hp as nat).len() + ",\"max_hp\":"@.len() + spec_dec_nat(c.max_hp as nat).len() + ",\"xp\":"@.len() + spec_dec_nat(c.xp as nat).len() + ",\"max_xp\":"@.len() + spec_dec_nat(c.max_xp as nat).len() + ",\"x\":"@.len() + spec_dec_int(c.x as int).len() + ",\"y\":"@.len() + spec_dec_int(c.y as int).len() + ",\"cooldown\":"@.len() + spec_dec_nat(c.cooldown as nat).len() + ",\"cooldown_expiration\":"@.len()) + spec_dec_int(c.cooldown_expiration as int).len(), c.cooldown_expiration as int),
{
    lemma_response_pieces(s, c);
    reveal_strlit("}");
    lemma_dec_nat_props(if c.cooldown_expiration >= 0 { c.cooldown_expiration as nat } else { (-c.cooldown_expiration) as nat });
    assert(s.subrange(0int + "{\"data\":"@.len() + "{\"name\":\""@.len() + spec_escape(c.name@).len() + "\",\"gold\":"@.len() + spec_dec_nat(c.gold as nat).len() + ",\"level\":"@.len() + spec_dec_nat(c.level as nat).len() + ",\"hp\":"@.len() + spec_dec_nat(c.hp as nat).len() + ",\"max_hp\":"@.len() + spec_dec_nat(c.max_hp as nat).len() + ",\"xp\":"@.len() + spec_dec_nat(c.xp as nat).len() + ",\"max_xp\":"@.len() + spec_dec_nat(c.max_xp as nat).len() + ",\"x\":"@.len() + spec_dec_int(c.x as int).len() + ",\"y\":"@.len() + spec_dec_int(c.y as int).len() + ",\"cooldown\":"@.len() + spec_dec_nat(c.cooldown as nat).len() + ",\"cooldown_expiration\":"@.len() + spec_dec_int(c.cooldown_expiration as int).len(), (0int + "{\"data\":"@.len() + "{\"name\":\""@.len() + spec_escape(c.name@).len() + "\",\"gold\":"@.len() + spec_dec_nat(c.gold as nat).len() + ",\"level\":"@.len() + spec_dec_nat(c.level as nat).len() + ",\"hp\":"@.len() + spec_dec_nat(c.hp as nat).len() + ",\"max_hp\":"@.len() + spec_dec_nat(c.max_hp as nat).len() + ",\"xp\":"@.len() + spec_dec_nat(c.xp as nat).len() + ",\"max_xp\":"@.len() + spec_dec_nat(c.max_xp as nat).len() + ",\"x\":"@.len() + spec_dec_int(c.x as int).len() + ",\"y\":"@.len() + spec_dec_int(c.y as int).len() + ",\"cooldown\":"@.len() + spec_dec_nat(c.cooldown as nat).len() + ",\"cooldown_expiration\":"@.len() + spec_dec_int(c.cooldown_expiration as int).len()) + "}"@.len()) == "}"@);
    assert(s[0int + "{\"data\":"@.len() + "{\"name\":\""@.len() + spec_escape(c.name@).len() + "\",\"gold\":"@.len() + spec_dec_nat(c.gold as nat).len() + ",\"level\":"@.len() + spec_dec_nat(c.level as nat).len() + ",\"hp\":"@.len() + spec_dec_nat(c.hp as nat).len() + ",\"max_hp\":"@.len() + spec_dec_nat(c.max_hp as nat).len() + ",\"xp\":"@.len() + spec_dec_nat(c.xp as nat).len() + ",\"max_xp\":"@.len() + spec_dec_nat(c.max_xp as nat).len() + ",\"x\":"@.len() + spec_dec_int(c.x as int).len() + ",\"y\":"@.len() + spec_dec_int(c.y as int).len() + ",\"cooldown\":"@.len() + spec_dec_nat(c.cooldown as nat).len() + ",\"cooldown_expiration\":"@.len() + spec_dec_int(c.cooldown_expiration as int).len()] == "}"@[0]);
}

/// Where this fixed piece of the canonical response text stands.
#[verifier::spinoff_prover]
proof fn lemma_response_close_payload(s: Seq<char>, c: Character)
    requires
        spec_response_premise(s, c),
    ensures
        spec_lit_at(s, 0int + "{\"data\":"@.len() + "{\"name\":\""@.len() + spec_escape(c.name@).len() + "\",\"gold\":"@.len() + spec_dec_nat(c.gold as nat).len() + ",\"level\":"@.len() + spec_dec_nat(c.level as nat).len() + ",\"hp\":"@.len() + spec_dec_nat(c.hp as nat).len() + ",\"max_hp\":"@.len() + spec_dec_nat(c.max_hp as nat).len() + ",\"xp\":"@.len() + spec_dec_nat(c.xp as nat).len() + ",\"max_xp\":"@.len() + spec_dec_nat(c.max_xp as nat).len() + ",\"x\":"@.len() + spec_dec_int(c.x as int).len() + ",\"y\":"@.len() + spec_dec_int(c.y as int).len() + ",\"cooldown\":"@.len() + spec_dec_nat(c.cooldown as nat).len() + ",\"cooldown_expiration\":"@.len() + spec_dec_int(c.cooldown_expiration as int).len(), "}"@),
        s.len() == 0int + "{\"data\":"@.len() + "{\"name\":\""@.len() + spec_escape(c.name@).len() + "\",\"gold\":"@.len() + spec_dec_nat(c.gold as nat).len() + ",\"level\":"@.len() + spec_dec_nat(c.level as nat).len() + ",\"hp\":"@.len() + spec_dec_nat(c.hp as nat).len() + ",\"max_hp\":"@.len() + spec_dec_nat(c.max_hp as nat).len() + ",\"xp\":"@.len() + spec_dec_nat(c.xp as nat).len() + ",\"max_xp\":"@.len() + spec_dec_nat(c.max_xp as nat).len() + ",\"x\":"@.len() + spec_dec_int(c.x as int).len() + ",\"y\":"@.len() + spec_dec_int(c.y as int).len() + ",\"cooldown\":"@.len() + spec_dec_nat(c.cooldown as nat).len() + ",\"cooldown_expiration\":"@.len() + spec_dec_int(c.cooldown_expiration as int).len() + "}"@.len() + "}"@.len(),
{
    lemma_response_pieces(s, c);
}

/// Where this fixed piece of the canonical response text stands.
#[verifier::spinoff_prover]
proof fn lemma_response_close_envelope(s: Seq<char>, c: Character)
    requires
        spec_response_premise(s, c),
    ensures
        spec_lit_at(s, 0int + "{\"data\":"@.len() + "{\"name\":\""@.len() + spec_escape(c.name@).len() + "\",\"gold\":"@.len() + spec_dec_nat(c.gold as nat).len() + ",\"level\":"@.len() + spec_dec_nat(c.level as nat).len() + ",\"hp\":"@.len() + spec_dec_nat(c.hp as nat).len() + ",\"max_hp\":"@.len() + spec_dec_nat(c.max_hp as nat).len() + ",\"xp\":"@.len() + spec_dec_nat(c.xp as nat).len() + ",\"max_xp\":"@.len() + spec_dec_nat(c.max_xp as nat).len() + ",\"x\":"@.len() + spec_dec_int(c.x as int).len() + ",\"y\":"@.len() + spec_dec_int(c.y as int).len() + ",\"cooldown\":"@.len() + spec_dec_nat(c.cooldown as nat).len() + ",\"cooldown_expiration\":"@.len() + spec_dec_int(c.cooldown_expiration as int).len() + "}"@.len(), "}"@),
        s.len() == 0int + "{\"data\":"@.len() + "{\"name\":\""@.len() + spec_escape(c.name@).len() + "\",\"gold\":"@.len() + spec_dec_nat(c.gold as nat).len() + ",\"level\":"@.len() + spec_dec_nat(c.level as nat).len() + ",\"hp\":"@.len() + spec_dec_nat(c.hp as nat).len() + ",\"max_hp\":"@.len() + spec_dec_nat(c.max_hp as nat).len() + ",\"xp\":"@.len() + spec_dec_nat(c.xp as nat).len() + ",\"max_xp\":"@.len() + spec_dec_nat(c.max_xp as nat).len() + ",\"x\":"@.len() + spec_dec_int(c.x as int).len() + ",\"y\":"@.len() + spec_dec_int(c.y as int).len() + ",\"cooldown\":"@.len() + spec_dec_nat(c.cooldown as nat).len() + ",\"cooldown_expiration\":"@.len() + spec_dec_int(c.cooldown_expiration as int).len() + "}"@.len() + "}"@.len(),
{
    lemma_response_pieces(s, c);
}

/// Joining two adjacent known stretches of `s`.
proof fn lemma_join(s: Seq<char>, i: int, piece: Seq<char>, rest: Seq<char>)
    requires
        0 <= i,
        i + piece.len() + rest.len() == s.len(),
        s.subrange(i, i + piece.len()) == piece,
        s.subrange(i + piece.len(), s.len() as int) == rest,
    ensures
        s.subrange(i, s.len() as int) == piece + rest,
{
    assert forall|k: int| 0 <= k < piece.len() + rest.len() implies s.subrange(
        i,
        s.len() as int,
    )[k] == (piece + rest)[k] by {
        if k < piece.len() {
            assert(s.subrange(i, i + piece.len())[k] == s[i + k]);
        } else {
            assert(s.subrange(i + piece.len(), s.len() as int)[k - piece.len()] == s[i + k]);
        }
    }
    assert(s.subrange(i, s.len() as int) =~= piece + rest);
}

/// A text that carries every piece of a character's canonical response, in
/// order and covering all of it, is that canonical response.
#[verifier::spinoff_prover]
#[verifier::rlimit(100)]
proof fn lemma_response_glue(s: Seq<char>, c2: Character, q1: int, q2: int, q3: int, q4: int, q5: int, q6: int, q7: int, q8: int, q9: int, q10: int, q11: int, q12: int, q13: int, q14: int, q15: int, q16: int, q17: int, q18: int, q19: int, q20: int, q21: int, q22: int, q23: int, q24: int, q25: int)
    requires
        q1 == "{\"data\":"@.len(),
        q2 == q1 + "{\"name\":\""@.len(),
        q3 == q2 + spec_escape(c2.name@).len(),
        q4 == q3 + "\",\"gold\":"@.len(),
        q5 == q4 + spec_dec_nat(c2.gold as nat).len(),
        q6 == q5 + ",\"level\":"@.len(),
        q7 == q6 + spec_dec_nat(c2.level as nat).len(),
        q8 == q7 + ",\"hp\":"@.len(),
        q9 == q8 + spec_dec_nat(c2.hp as nat).len(),
        q10 == q9 + ",\"max_hp\":"@.len(),
        q11 == q10 + spec_dec_nat(c2.max_hp as nat).len(),
        q12 == q11 + ",\"xp\":"@.len(),
        q13 == q12 + spec_dec_nat(c2.xp as nat).len(),
        q14 == q13 + ",\"max_xp\":"@.len(),
        q15 == q14 + spec_dec_nat(c2.max_xp as nat).len(),
        q16 == q15 + ",\"x\":"@.len(),
        q17 == q16 + spec_dec_int(c2.x as int).len(),
        q18 == q17 + ",\"y\":"@.len(),
        q19 == q18 + spec_dec_int(c2.y as int).len(),
        q20 == q19 + ",\"cooldown\":"@.len(),
        q21 == q20 + spec_dec_nat(c2.cooldown as nat).len(),
        q22 == q21 + ",\"cooldown_expiration\":"@.len(),
        q23 == q22 + spec_dec_int(c2.cooldown_expiration as int).len(),
        q24 == q23 + "}"@.len(),
        q25 == q24 + "}"@.len(),
        q25 == s.len(),
        s.subrange(0, q1) == "{\"data\":"@,
        s.subrange(q1, q2) == "{\"name\":\""@,
        s.subrange(q2, q3) == spec_escape(c2.name@),
        s.subrange(q3, q4) == "\",\"gold\":"@,
        s.subrange(q4, q5) == spec_dec_nat(c2.gold as nat),
        s.subrange(q5, q6) == ",\"level\":"@,
        s.subrange(q6, q7) == spec_dec_nat(c2.level as nat),
        s.subrange(q7, q8) == ",\"hp\":"@,
        s.subrange(q8, q9) == spec_dec_nat(c2.hp as nat),
        s.subrange(q9, q10) == ",\"max_hp\":"@,
        s.subrange(q10, q11) == spec_dec_nat(c2.max_hp as nat),
        s.subrange(q11, q12) == ",\"xp\":"@,
        s.subrange(q12, q13) == spec_dec_nat(c2.xp as nat),
        s.subrange(q13, q14) == ",\"max_xp\":"@,
        s.subrange(q14, q15) == spec_dec_nat(c2.max_xp as nat),
        s.subrange(q15, q16) == ",\"x\":"@,
        s.subrange(q16, q17) == spec_dec_int(c2.x as int),
        s.subrange(q17, q18) == ",\"y\":"@,
        s.subrange(q18, q19) == spec_dec_int(c2.y as int),
        s.subrange(q19, q20) == ",\"cooldown\":"@,
        s.subrange(q20, q21) == spec_dec_nat(c2.cooldown as nat),
        s.subrange(q21, q22) == ",\"cooldown_expiration\":"@,
        s.subrange(q22, q23) == spec_dec_int(c2.cooldown_expiration as int),
        s.subrange(q23, q24) == "}"@,
        s.subrange(q24, q25) == "}"@,
    ensures
        s == spec_character_response(c2),
{
    assert(s.subrange(q24, s.len() as int) == "}"@);
    lemma_join(s, q23, "}"@, "}"@);
    lemma_join(s, q22, spec_dec_int(c2.cooldown_expiration as int), "}"@ + ("}"@));
    lemma_join(s, q21, ",\"cooldown_expiration\":"@, spec_dec_int(c2.cooldown_expiration as int) + ("}"@ + ("}"@)));
    lemma_join(s, q20, spec_dec_nat(c2.cooldown as nat), ",\"cooldown_expiration\":"@ + (spec_dec_int(c2.cooldown_expiration as int) + ("}"@ + ("}"@))));
    lemma_join(s, q19, ",\"cooldown\":"@, spec_dec_nat(c2.cooldown as nat) + (",\"cooldown_expiration\":"@ + (spec_dec_int(c2.cooldown_expiration as int) + ("}"@ + ("}"@)))));
    lemma_join(s, q18, spec_dec_int(c2.y as int), ",\"cooldown\":"@ + (spec_dec_nat(c2.cooldown as nat) + (",\"cooldown_expiration\":"@ + (spec_dec_int(c2.cooldown_expiration as int) + ("}"@ + ("}"@))))));
    lemma_join(s, q17, ",\"y\":"@, spec_dec_int(c2.y as int) + (",\"cooldown\":"@ + (spec_dec_nat(c2.cooldown as nat) + (",\"cooldown_expiration\":"@ + (spec_dec_int(c2.cooldown_expiration as int) + ("}"@ + ("}"@)))))));
    lemma_join(s, q16, spec_dec_int(c2.x as int), ",\"y\":"@ + (spec_dec_int(c2.y as int) + (",\"cooldown\":"@ + (spec_dec_nat(c2.cooldown as nat) + (",\"cooldown_expiration\":"@ + (spec_dec_int(c2.cooldown_expiration as int) + ("}"@ + ("}"@))))))));
    lemma_join(s, q15, ",\"x\":"@, spec_dec_int(c2.x as int) + (",\"y\":"@ + (spec_dec_int(c2.y as int) + (",\"cooldown\":"@ + (spec_dec_nat(c2.cooldown as nat) + (",\"cooldown_expiration\":"@ + (spec_dec_int(c2.cooldown_expiration as int) + ("}"@ + ("}"@)))))))));
    lemma_join(s, q14, spec_dec_nat(c2.max_xp as nat), ",\"x\":"@ + (spec_dec_int(c2.x as int) + (",\"y\":"@ + (spec_dec_int(c2.y as int) + (",\"cooldown\":"@ + (spec_dec_nat(c2.cooldown as nat) + (",\"cooldown_expiration\":"@ + (spec_dec_int(c2.cooldown_expiration as int) + ("}"@ + ("}"@))))))))));
    lemma_join(s, q13, ",\"max_xp\":"@, spec_dec_nat(c2.max_xp as nat) + (",\"x\":"@ + (spec_dec_int(c2.x as int) + (",\"y\":"@ + (spec_dec_int(c2.y as int) + (",\"cooldown\":"@ + (spec_dec_nat(c2.cooldown as nat) + (",\"cooldown_expiration\":"@ + (spec_dec_int(c2.cooldown_expiration as int) + ("}"@ + ("}"@)))))))))));
    lemma_join(s, q12, spec_dec_nat(c2.xp as nat), ",\"max_xp\":"@ + (spec_dec_nat(c2.max_xp as nat) + (",\"x\":"@ + (spec_dec_int(c2.x as int) + (",\"y\":"@ + (spec_dec_int(c2.y as int) + (",\"cooldown\":"@ + (spec_dec_nat(c2.cooldown as nat) + (",\"cooldown_expiration\":"@ + (spec_dec_int(c2.cooldown_expiration as int) + ("}"@ + ("}"@))))))))))));
    lemma_join(s, q11, ",\"xp\":"@, spec_dec_nat(c2.xp as nat) + (",\"max_xp\":"@ + (spec_dec_nat(c2.max_xp as nat) + (",\"x\":"@ + (spec_dec_int(c2.x as int) + (",\"y\":"@ + (spec_dec_int(c2.y as int) + (",\"cooldown\":"@ + (spec_dec_nat(c2.cooldown as nat) + (",\"cooldown_expiration\":"@ + (spec_dec_int(c2.cooldown_expiration as int) + ("}"@ + ("}"@)))))))))))));
    lemma_join(s, q10, spec_dec_nat(c2.max_hp as nat), ",\"xp\":"@ + (spec_dec_nat(c2.xp as nat) + (",\"max_xp\":"@ + (spec_dec_nat(c2.max_xp as nat) + (",\"x\":"@ + (spec_dec_int(c2.x as int) + (",\"y\":"@ + (spec_dec_int(c2.y as int) + (",\"cooldown\":"@ + (spec_dec_nat(c2.cooldown as nat) + (",\"cooldown_expiration\":"@ + (spec_dec_int(c2.cooldown_expiration as int) + ("}"@ + ("}"@))))))))))))));
    lemma_join(s, q9, ",\"max_hp\":"@, spec_dec_nat(c2.max_hp as nat) + (",\"xp\":"@ + (spec_dec_nat(c2.xp as nat) + (",\"max_xp\":"@ + (spec_dec_nat(c2.max_xp as nat) + (",\"x\":"@ + (spec_dec_int(c2.x as int) + (",\"y\":"@ + (spec_dec_int(c2.y as int) + (",\"cooldown\":"@ + (spec_dec_nat(c2.cooldown as nat) + (",\"cooldown_expiration\":"@ + (spec_dec_int(c2.cooldown_expiration as int) + ("}"@ + ("}"@)))))))))))))));
    lemma_join(s, q8, spec_dec_nat(c2.hp as nat), ",\"max_hp\":"@ + (spec_dec_nat(c2.max_hp as nat) + (",\"xp\":"@ + (spec_dec_nat(c2.xp as nat) + (",\"max_xp\":"@ + (spec_dec_nat(c2.max_xp as nat) + (",\"x\":"@ + (spec_dec_int(c2.x as int) + (",\"y\":"@ + (spec_dec_int(c2.y as int) + (",\"cooldown\":"@ + (spec_dec_nat(c2.cooldown as nat) + (",\"cooldown_expiration\":"@ + (spec_dec_int(c2.cooldown_expiration as int) + ("}"@ + ("}"@))))))))))))))));
    lemma_join(s, q7, ",\"hp\":"@, spec_dec_nat(c2.hp as nat) + (",\"max_hp\":"@ + (spec_dec_nat(c2.max_hp as nat) + (",\"xp\":"@ + (spec_dec_nat(c2.xp as nat) + (",\"max_xp\":"@ + (spec_dec_nat(c2.max_xp as nat) + (",\"x\":"@ + (spec_dec_int(c2.x as int) + (",\"y\":"@ + (spec_dec_int(c2.y as int) + (",\"cooldown\":"@ + (spec_dec_nat(c2.cooldown as nat) + (",\"cooldown_expiration\":"@ + (spec_dec_int(c2.cooldown_expiration as int) + ("}"@ + ("}"@)))))))))))))))));
    lemma_join(s, q6, spec_dec_nat(c2.level as nat), ",\"hp\":"@ + (spec_dec_nat(c2.hp as nat) + (",\"max_hp\":"@ + (spec_dec_nat(c2.max_hp as nat) + (",\"xp\":"@ + (spec_dec_nat(c2.xp as nat) + (",\"max_xp\":"@ + (spec_dec_nat(c2.max_xp as nat) + (",\"x\":"@ + (spec_dec_int(c2.x as int) + (",\"y\":"@ + (spec_dec_int(c2.y as int) + (",\"cooldown\":"@ + (spec_dec_nat(c2.cooldown as nat) + (",\"cooldown_expiration\":"@ + (spec_dec_int(c2.cooldown_expiration as int) + ("}"@ + ("}"@))))))))))))))))));
    lemma_join(s, q5, ",\"level\":"@, spec_dec_nat(c2.level as nat) + (",\"hp\":"@ + (spec_dec_nat(c2.hp as nat) + (",\"max_hp\":"@ + (spec_dec_nat(c2.max_hp as nat) + (",\"xp\":"@ + (spec_dec_nat(c2.xp as nat) + (",\"max_xp\":"@ + (spec_dec_nat(c2.max_xp as nat) + (",\"x\":"@ + (spec_dec_int(c2.x as int) + (",\"y\":"@ + (spec_dec_int(c2.y as int) + (",\"cooldown\":"@ + (spec_dec_nat(c2.cooldown as nat) + (",\"cooldown_expiration\":"@ + (spec_dec_int(c2.cooldown_expiration as int) + ("}"@ + ("}"@)))))))))))))))))));
    lemma_join(s, q4, spec_dec_nat(c2.gold as nat), ",\"level\":"@ + (spec_dec_nat(c2.level as nat) + (",\"hp\":"@ + (spec_dec_nat(c2.hp as nat) + (",\"max_hp\":"@ + (spec_dec_nat(c2.max_hp as nat) + (",\"xp\":"@ + (spec_dec_nat(c2.xp as nat) + (",\"max_xp\":"@ + (spec_dec_nat(c2.max_xp as nat) + (",\"x\":"@ + (spec_dec_int(c2.x as int) + (",\"y\":"@ + (spec_dec_int(c2.y as int) + (",\"cooldown\":"@ + (spec_dec_nat(c2.cooldown as nat) + (",\"cooldown_expiration\":"@ + (spec_dec_int(c2.cooldown_expiration as int) + ("}"@ + ("}"@))))))))))))))))))));
    lemma_join(s, q3, "\",\"gold\":"@, spec_dec_nat(c2.gold as nat) + (",\"level\":"@ + (spec_dec_nat(c2.level as nat) + (",\"hp\":"@ + (spec_dec_nat(c2.hp as nat) + (",\"max_hp\":"@ + (spec_dec_nat(c2.max_hp as nat) + (",\"xp\":"@ + (spec_dec_nat(c2.xp as nat) + (",\"max_xp\":"@ + (spec_dec_nat(c2.max_xp as nat) + (",\"x\":"@ + (spec_dec_int(c2.x as int) + (",\"y\":"@ + (spec_dec_int(c2.y as int) + (",\"cooldown\":"@ + (spec_dec_nat(c2.cooldown as nat) + (",\"cooldown_expiration\":"@ + (spec_dec_int(c2.cooldown_expiration as int) + ("}"@ + ("}"@)))))))))))))))))))));
    lemma_join(s, q2, spec_escape(c2.name@), "\",\"gold\":"@ + (spec_dec_nat(c2.gold as nat) + (",\"level\":"@ + (spec_dec_nat(c2.level as nat) + (",\"hp\":"@ + (spec_dec_nat(c2.hp as nat) + (",\"max_hp\":"@ + (spec_dec_nat(c2.max_hp as nat) + (",\"xp\":"@ + (spec_dec_nat(c2.xp as nat) + (",\"max_xp\":"@ + (spec_dec_nat(c2.max_xp as nat) + (",\"x\":"@ + (spec_dec_int(c2.x as int) + (",\"y\":"@ + (spec_dec_int(c2.y as int) + (",\"cooldown\":"@ + (spec_dec_nat(c2.cooldown as nat) + (",\"cooldown_expiration\":"@ + (spec_dec_int(c2.cooldown_expiration as int) + ("}"@ + ("}"@))))))))))))))))))))));
    lemma_join(s, q1, "{\"name\":\""@, spec_escape(c2.name@) + ("\",\"gold\":"@ + (spec_dec_nat(c2.gold as nat) + (",\"level\":"@ + (spec_dec_nat(c2.level as nat) + (",\"hp\":"@ + (spec_dec_nat(c2.hp as nat) + (",\"max_hp\":"@ + (spec_dec_nat(c2.max_hp as nat) + (",\"xp\":"@ + (spec_dec_nat(c2.xp as nat) + (",\"max_xp\":"@ + (spec_dec_nat(c2.max_xp as nat) + (",\"x\":"@ + (spec_dec_int(c2.x as int) + (",\"y\":"@ + (spec_dec_int(c2.y as int) + (",\"cooldown\":"@ + (spec_dec_nat(c2.cooldown as nat) + (",\"cooldown_expiration\":"@ + (spec_dec_int(c2.cooldown_expiration as int) + ("}"@ + ("}"@)))))))))))))))))))))));
    lemma_join(s, 0, "{\"data\":"@, "{\"name\":\""@ + (spec_escape(c2.name@) + ("\",\"gold\":"@ + (spec_dec_nat(c2.gold as nat) + (",\"level\":"@ + (spec_dec_nat(c2.level as nat) + (",\"hp\":"@ + (spec_dec_nat(c2.hp as nat) + (",\"max_hp\":"@ + (spec_dec_nat(c2.max_hp as nat) + (",\"xp\":"@ + (spec_dec_nat(c2.xp as nat) + (",\"max_xp\":"@ + (spec_dec_nat(c2.max_xp as nat) + (",\"x\":"@ + (spec_dec_int(c2.x as int) + (",\"y\":"@ + (spec_dec_int(c2.y as int) + (",\"cooldown\":"@ + (spec_dec_nat(c2.cooldown as nat) + (",\"cooldown_expiration\":"@ + (spec_dec_int(c2.cooldown_expiration as int) + ("}"@ + ("}"@))))))))))))))))))))))));
    assert(s.subrange(0, s.len() as int) =~= s);
    lemma_response_reassociate(c2);
}

/// Reads a canonical character response text back into a character
/// snapshot.  The parser accepts exactly the canonical texts: whatever it
/// returns, the input is that character's canonical response text; and
/// every character's canonical response text parses back to its fields.
#[verifier::spinoff_prover]
#[verifier::rlimit(100)]
pub fn parse_character_response(s: &str) -> (r: Option<Character>)
    ensures
        r matches Some(c) ==> s@ == spec_character_response(c),
        forall|c: Character|
            spec_response_premise(s@, c) ==> (r matches Some(c2) && spec_same_character(c2, c)),
{
    let n = s.unicode_len();
    let ghost sv = s@;
    let j0: usize = 0;
    let step0 = expect_lit(s, j0, "{\"data\":");
    match step0 {
        None => {
            proof {
                assert forall|c: Character| !spec_response_premise(sv, c) by {
                    if spec_response_premise(sv, c) {
                        lemma_response_open_envelope(sv, c);
                        assert(spec_lit_at(sv, j0 as int, "{\"data\":"@));
                    }
                }
            }
            return None;
        },
        Some(j) => {
            let j1 = j;
    let step1 = expect_lit(s, j1, "{\"name\":\"");
    match step1 {
        None => {
            proof {
                assert forall|c: Character| !spec_response_premise(sv, c) by {
                    if spec_response_premise(sv, c) {
                        lemma_response_name_key(sv, c);
                        assert(spec_lit_at(sv, j1 as int, "{\"name\":\""@));
                    }
                }
            }
            return None;
        },
        Some(j) => {
            let j2 = j;
    let step2 = scan_name(s, j2);
    let ghost gstep2 = step2;
    match step2 {
        None => {
            proof {
                assert forall|c: Character| !spec_response_premise(sv, c) by {
                    if spec_response_premise(sv, c) {
                        lemma_response_name_text(sv, c);
                        assert(spec_escaped_name_at(sv, j2 as int, j2 + spec_escape(
                            c.name@,
                        ).len(), c.name@));
                    }
                }
            }
            return None;
        },
        Some(p) => {
            let nm = p.0;
            let j3 = p.1;
            proof {
                assert forall|c: Character|
                    #![trigger spec_response_premise(sv, c)]
                    spec_response_premise(sv, c) implies nm@ == c.name@ && j3 as int == j2
                    + spec_escape(c.name@).len() by {
                    lemma_response_name_text(sv, c);
                    assert(spec_escaped_name_at(sv, j2 as int, j2 + spec_escape(c.name@).len(),
                        c.name@));
                    assert((gstep2->0).1 == j2 + spec_escape(c.name@).len());
                    assert((gstep2->0).0@ == c.name@);
                }
            }
    let step3 = expect_lit(s, j3, "\",\"gold\":");
    match step3 {
        None => {
            proof {
                assert forall|c: Character| !spec_response_premise(sv, c) by {
                    if spec_response_premise(sv, c) {
                        lemma_response_gold_key(sv, c);
                        assert(spec_lit_at(sv, j3 as int, "\",\"gold\":"@));
                    }
                }
            }
            return None;
        },
        Some(j) => {
            let j4 = j;
    let step4 = parse_u32_at(s, j4);
    let ghost gstep4 = step4;
    match step4 {
        None => {
            proof {
                assert forall|c: Character| !spec_response_premise(sv, c) by {
                    if spec_response_premise(sv, c) {
                        lemma_response_gold_value(sv, c);
                        assert(spec_nat_at(sv, j4 as int, j4 + spec_dec_nat(c.gold as nat).len(), c.gold as nat));
                    }
                }
            }
            return None;
        },
        Some(p) => {
            let gv = p.0;
            let j5 = p.1;
            proof {
                assert forall|c: Character|
                    #![trigger spec_response_premise(sv, c)]
                    spec_response_premise(sv, c) implies gv == c.gold && j5 as int == j4
                    + spec_dec_nat(c.gold as nat).len() by {
                    lemma_response_gold_value(sv, c);
                    assert(spec_nat_at(sv, j4 as int, j4 + spec_dec_nat(c.gold as nat).len(), c.gold as nat));
                    assert(0 <= j4 + spec_dec_nat(c.gold as nat).len() <= n as int);
                    assert(gstep4 == Some((c.gold, ((j4 + spec_dec_nat(c.gold as nat).len()) as usize))));
                }
            }
    let step5 = expect_lit(s, j5, ",\"level\":");
    match step5 {
        None => {
            proof {
                assert forall|c: Character| !spec_response_premise(sv, c) by {
                    if spec_response_premise(sv, c) {
                        lemma_response_level_key(sv, c);
                        assert(spec_lit_at(sv, j5 as int, ",\"level\":"@));
                    }
                }
            }
            return None;
        },
        Some(j) => {
            let j6 = j;
    let step6 = parse_u32_at(s, j6);
    let ghost gstep6 = step6;
    match step6 {
        None => {
            proof {
                assert forall|c: Character| !spec_response_premise(sv, c) by {
                    if spec_response_premise(sv, c) {
                        lemma_response_level_value(sv, c);
                        assert(spec_nat_at(sv, j6 as int, j6 + spec_dec_nat(c.level as nat).len(), c.level as nat));
                    }
                }
            }
            return None;
        },
        Some(p) => {
            let lv = p.0;
            let j7 = p.1;
            proof {
                assert forall|c: Character|
                    #![trigger spec_response_premise(sv, c)]
                    spec_response_premise(sv, c) implies lv == c.level && j7 as int == j6
                    + spec_dec_nat(c.level as nat).len() by {
                    lemma_response_level_value(sv, c);
                    assert(spec_nat_at(sv, j6 as int, j6 + spec_dec_nat(c.level as nat).len(), c.level as nat));
                    assert(0 <= j6 + spec_dec_nat(c.level as nat).len() <= n as int);
                    assert(gstep6 == Some((c.level, ((j6 + spec_dec_nat(c.level as nat).len()) as usize))));
                }
            }
    let step7 = expect_lit(s, j7, ",\"hp\":");
    match step7 {
        None => {
            proof {
                assert forall|c: Character| !spec_response_premise(sv, c) by {
                    if spec_response_premise(sv, c) {
                        lemma_response_hp_key(sv, c);
                        assert(spec_lit_at(sv, j7 as int, ",\"hp\":"@));
                    }
                }
            }
            return None;
        },
        Some(j) => {
            let j8 = j;
    let step8 = parse_u32_at(s, j8);
    let ghost gstep8 = step8;
    match step8 {
        None => {
            proof {
                assert forall|c: Character| !spec_response_premise(sv, c) by {
                    if spec_response_premise(sv, c) {
                        lemma_response_hp_value(sv, c);
                        assert(spec_nat_at(sv, j8 as int, j8 + spec_dec_nat(c.hp as nat).len(), c.hp as nat));
                    }
                }
            }
            return None;
        },
        Some(p) => {
            let hv = p.0;
            let j9 = p.1;
            proof {
                assert forall|c: Character|
                    #![trigger spec_response_premise(sv, c)]
                    spec_response_premise(sv, c) implies hv == c.hp && j9 as int == j8
                    + spec_dec_nat(c.hp as nat).len() by {
                    lemma_response_hp_value(sv, c);
                    assert(spec_nat_at(sv, j8 as int, j8 + spec_dec_nat(c.hp as nat).len(), c.hp as nat));
                    assert(0 <= j8 + spec_dec_nat(c.hp as nat).len() <= n as int);
                    assert(gstep8 == Some((c.hp, ((j8 + spec_dec_nat(c.hp as nat).len()) as usize))));
                }
            }
    let step9 = expect_lit(s, j9, ",\"max_hp\":");
    match step9 {
        None => {
            proof {
                assert forall|c: Character| !spec_response_premise(sv, c) by {
                    if spec_response_premise(sv, c) {
                        lemma_response_max_hp_key(sv, c);
                        assert(spec_lit_at(sv, j9 as int, ",\"max_hp\":"@));
                    }
                }
            }
            return None;
        },
        Some(j) => {
            let j10 = j;
    let step10 = parse_u32_at(s, j10);
    let ghost gstep10 = step10;
    match step10 {
        None => {
            proof {
                assert forall|c: Character| !spec_response_premise(sv, c) by {
                    if spec_response_premise(sv, c) {
                        lemma_response_max_hp_value(sv, c);
                        assert(spec_nat_at(sv, j10 as int, j10 + spec_dec_nat(c.max_hp as nat).len(), c.max_hp as nat));
                    }
                }
            }
            return None;
        },
        Some(p) => {
            let mhv = p.0;
            let j11 = p.1;
            proof {
                assert forall|c: Character|
                    #![trigger spec_response_premise(sv, c)]
                    spec_response_premise(sv, c) implies mhv == c.max_hp && j11 as int == j10
                    + spec_dec_nat(c.max_hp as nat).len() by {
                    lemma_response_max_hp_value(sv, c);
                    assert(spec_nat_at(sv, j10 as int, j10 + spec_dec_nat(c.max_hp as nat).len(), c.max_hp as nat));
                    assert(0 <= j10 + spec_dec_nat(c.max_hp as nat).len() <= n as int);
                    assert(gstep10 == Some((c.max_hp, ((j10 + spec_dec_nat(c.max_hp as nat).len()) as usize))));
                }
            }
    let step11 = expect_lit(s, j11, ",\"xp\":");
    match step11 {
        None => {
            proof {
                assert forall|c: Character| !spec_response_premise(sv, c) by {
                    if spec_response_premise(sv, c) {
                        lemma_response_xp_key(sv, c);
                        assert(spec_lit_at(sv, j11 as int, ",\"xp\":"@));
                    }
                }
            }
            return None;
        },
        Some(j) => {
            let j12 = j;
    let step12 = parse_u32_at(s, j12);
    let ghost gstep12 = step12;
    match step12 {
        None => {
            proof {
                assert forall|c: Character| !spec_response_premise(sv, c) by {
                    if spec_response_premise(sv, c) {
                        lemma_response_xp_value(sv, c);
                        assert(spec_nat_at(sv, j12 as int, j12 + spec_dec_nat(c.xp as nat).len(), c.xp as nat));
                    }
                }
            }
            return None;
        },
        Some(p) => {
            let xpv = p.0;
            let j13 = p.1;
            proof {
                assert forall|c: Character|
                    #![trigger spec_response_premise(sv, c)]
                    spec_response_premise(sv, c) implies xpv == c.xp && j13 as int == j12
                    + spec_dec_nat(c.xp as nat).len() by {
                    lemma_response_xp_value(sv, c);
                    assert(spec_nat_at(sv, j12 as int, j12 + spec_dec_nat(c.xp as nat).len(), c.xp as nat));
                    assert(0 <= j12 + spec_dec_nat(c.xp as nat).len() <= n as int);
                    assert(gstep12 == Some((c.xp, ((j12 + spec_dec_nat(c.xp as nat).len()) as usize))));
                }
            }
    let step13 = expect_lit(s, j13, ",\"max_xp\":");
    match step13 {
        None => {
            proof {
                assert forall|c: Character| !spec_response_premise(sv, c) by {
                    if spec_response_premise(sv, c) {
                        lemma_response_max_xp_key(sv, c);
                        assert(spec_lit_at(sv, j13 as int, ",\"max_xp\":"@));
                    }
                }
            }
            return None;
        },
        Some(j) => {
            let j14 = j;
    let step14 = parse_u32_at(s, j14);
    let ghost gstep14 = step14;
    match step14 {
        None => {
            proof {
                assert forall|c: Character| !spec_response_premise(sv, c) by {
                    if spec_response_premise(sv, c) {
                        lemma_response_max_xp_value(sv, c);
                        assert(spec_nat_at(sv, j14 as int, j14 + spec_dec_nat(c.max_xp as nat).len(), c.max_xp as nat));
                    }
                }
            }
            return None;
        },
        Some(p) => {
            let mxv = p.0;
            let j15 = p.1;
            proof {
                assert forall|c: Character|
                    #![trigger spec_response_premise(sv, c)]
                    spec_response_premise(sv, c) implies mxv == c.max_xp && j15 as int == j14
                    + spec_dec_nat(c.max_xp as nat).len() by {
                    lemma_response_max_xp_value(sv, c);
                    assert(spec_nat_at(sv, j14 as int, j14 + spec_dec_nat(c.max_xp as nat).len(), c.max_xp as nat));
                    assert(0 <= j14 + spec_dec_nat(c.max_xp as nat).len() <= n as int);
                    assert(gstep14 == Some((c.max_xp, ((j14 + spec_dec_nat(c.max_xp as nat).len()) as usize))));
                }
            }
    let step15 = expect_lit(s, j15, ",\"x\":");
    match step15 {
        None => {
            proof {
                assert forall|c: Character| !spec_response_premise(sv, c) by {
                    if spec_response_premise(sv, c) {
                        lemma_response_x_key(sv, c);
                        assert(spec_lit_at(sv, j15 as int, ",\"x\":"@));
                    }
                }
            }
            return None;
        },
        Some(j) => {
            let j16 = j;
    let step16 = parse_i32_at(s, j16);
    let ghost gstep16 = step16;
    match step16 {
        None => {
            proof {
                assert forall|c: Character| !spec_response_premise(sv, c) by {
                    if spec_response_premise(sv, c) {
                        lemma_response_x_value(sv, c);
                        assert(spec_int_at(sv, j16 as int, j16 + spec_dec_int(c.x as int).len(), c.x as int));
                    }
                }
            }
            return None;
        },
        Some(p) => {
            let xv = p.0;
            let j17 = p.1;
            proof {
                assert forall|c: Character|
                    #![trigger spec_response_premise(sv, c)]
                    spec_response_premise(sv, c) implies xv == c.x && j17 as int == j16
                    + spec_dec_int(c.x as int).len() by {
                    lemma_response_x_value(sv, c);
                    assert(spec_int_at(sv, j16 as int, j16 + spec_dec_int(c.x as int).len(), c.x as int));
                    assert(0 <= j16 + spec_dec_int(c.x as int).len() <= n as int);
                    assert(gstep16 == Some((c.x, ((j16 + spec_dec_int(c.x as int).len()) as usize))));
                }
            }
    let step17 = expect_lit(s, j17, ",\"y\":");
    match step17 {
        None => {
            proof {
                assert forall|c: Character| !spec_response_premise(sv, c) by {
                    if spec_response_premise(sv, c) {
                        lemma_response_y_key(sv, c);
                        assert(spec_lit_at(sv, j17 as int, ",\"y\":"@));
                    }
                }
            }
            return None;
        },
        Some(j) => {
            let j18 = j;
    let step18 = parse_i32_at(s, j18);
    let ghost gstep18 = step18;
    match step18 {
        None => {
            proof {
                assert forall|c: Character| !spec_response_premise(sv, c) by {
                    if spec_response_premise(sv, c) {
                        lemma_response_y_value(sv, c);
                        assert(spec_int_at(sv, j18 as int, j18 + spec_dec_int(c.y as int).len(), c.y as int));
                    }
                }
            }
            return None;
        },
        Some(p) => {
            let yv = p.0;
            let j19 = p.1;
            proof {
                assert forall|c: Character|
                    #![trigger spec_response_premise(sv, c)]
                    spec_response_premise(sv, c) implies yv == c.y && j19 as int == j18
                    + spec_dec_int(c.y as int).len() by {
                    lemma_response_y_value(sv, c);
                    assert(spec_int_at(sv, j18 as int, j18 + spec_dec_int(c.y as int).len(), c.y as int));
                    assert(0 <= j18 + spec_dec_int(c.y as int).len() <= n as int);
                    assert(gstep18 == Some((c.y, ((j18 + spec_dec_int(c.y as int).len()) as usize))));
                }
            }
    let step19 = expect_lit(s, j19, ",\"cooldown\":");
    match step19 {
        None => {
            proof {
                assert forall|c: Character| !spec_response_premise(sv, c) by {
                    if spec_response_premise(sv, c) {
                        lemma_response_cooldown_key(sv, c);
                        assert(spec_lit_at(sv, j19 as int, ",\"cooldown\":"@));
                    }
                }
            }
            return None;
        },
        Some(j) => {
            let j20 = j;
    let step20 = parse_u32_at(s, j20);
    let ghost gstep20 = step20;
    match step20 {
        None => {
            proof {
                assert forall|c: Character| !spec_response_premise(sv, c) by {
                    if spec_response_premise(sv, c) {
                        lemma_response_cooldown_value(sv, c);
                        assert(spec_nat_at(sv, j20 as int, j20 + spec_dec_nat(c.cooldown as nat).len(), c.cooldown as nat));
                    }
                }
            }
            return None;
        },
        Some(p) => {
            let cdv = p.0;
            let j21 = p.1;
            proof {
                assert forall|c: Character|
                    #![trigger spec_response_premise(sv, c)]
                    spec_response_premise(sv, c) implies cdv == c.cooldown && j21 as int == j20
                    + spec_dec_nat(c.cooldown as nat).len() by {
                    lemma_response_cooldown_value(sv, c);
                    assert(spec_nat_at(sv, j20 as int, j20 + spec_dec_nat(c.cooldown as nat).len(), c.cooldown as nat));
                    assert(0 <= j20 + spec_dec_nat(c.cooldown as nat).len() <= n as int);
                    assert(gstep20 == Some((c.cooldown, ((j20 + spec_dec_nat(c.cooldown as nat).len()) as usize))));
                }
            }
    let step21 = expect_lit(s, j21, ",\"cooldown_expiration\":");
    match step21 {
        None => {
            proof {
                assert forall|c: Character| !spec_response_premise(sv, c) by {
                    if spec_response_premise(sv, c) {
                        lemma_response_expiration_key(sv, c);
                        assert(spec_lit_at(sv, j21 as int, ",\"cooldown_expiration\":"@));
                    }
                }
            }
            return None;
        },
        Some(j) => {
            let j22 = j;
    let step22 = parse_i64_at(s, j22);
    let ghost gstep22 = step22;
    match step22 {
        None => {
            proof {
                assert forall|c: Character| !spec_response_premise(sv, c) by {
                    if spec_response_premise(sv, c) {
                        lemma_response_expiration_value(sv, c);
                        assert(spec_int_at(sv, j22 as int, j22 + spec_dec_int(c.cooldown_expiration as int).len(), c.cooldown_expiration as int));
                    }
                }
            }
            return None;
        },
        Some(p) => {
            let cev = p.0;
            let j23 = p.1;
            proof {
                assert forall|c: Character|
                    #![trigger spec_response_premise(sv, c)]
                    spec_response_premise(sv, c) implies cev == c.cooldown_expiration && j23 as int == j22
                    + spec_dec_int(c.cooldown_expiration as int).len() by {
                    lemma_response_expiration_value(sv, c);
                    assert(spec_int_at(sv, j22 as int, j22 + spec_dec_int(c.cooldown_expiration as int).len(), c.cooldown_expiration as int));
                    assert(0 <= j22 + spec_dec_int(c.cooldown_expiration as int).len() <= n as int);
                    assert(gstep22 == Some((c.cooldown_expiration, ((j22 + spec_dec_int(c.cooldown_expiration as int).len()) as usize))));
                }
            }
    let step23 = expect_lit(s, j23, "}");
    match step23 {
        None => {
            proof {
                assert forall|c: Character| !spec_response_premise(sv, c) by {
                    if spec_response_premise(sv, c) {
                        lemma_response_close_payload(sv, c);
                        assert(spec_lit_at(sv, j23 as int, "}"@));
                    }
                }
            }
            return None;
        },
        Some(j) => {
            let j24 = j;
    let step24 = expect_lit(s, j24, "}");
    match step24 {
        None => {
            proof {
                assert forall|c: Character| !spec_response_premise(sv, c) by {
                    if spec_response_premise(sv, c) {
                        lemma_response_close_envelope(sv, c);
                        assert(spec_lit_at(sv, j24 as int, "}"@));
                    }
                }
            }
            return None;
        },
        Some(j) => {
            let j25 = j;
    if j25 != n {
            proof {
                assert forall|c: Character| !spec_response_premise(sv, c) by {
                    if spec_response_premise(sv, c) {
                        lemma_response_open_envelope(sv, c);
                        assert(sv.len() == j25 as int);
                    }
                }
            }
            return None;
    }
    let c2 = Character {
        name: nm,
        gold: gv,
        level: lv,
        hp: hv,
        max_hp: mhv,
        xp: xpv,
        max_xp: mxv,
        x: xv,
        y: yv,
        cooldown: cdv,
        cooldown_expiration: cev,
    };
    proof {
        lemma_response_glue(sv, c2, j1 as int, j2 as int, j3 as int, j4 as int, j5 as int, j6 as int, j7 as int, j8 as int, j9 as int, j10 as int, j11 as int, j12 as int, j13 as int, j14 as int, j15 as int, j16 as int, j17 as int, j18 as int, j19 as int, j20 as int, j21 as int, j22 as int, j23 as int, j24 as int, j25 as int);
        assert forall|c: Character|
            spec_response_premise(sv, c) implies spec_same_character(c2, c) by {
            assert(spec_response_premise(sv, c));
        }
    }
    Some(c2)
        },
    }
        },
    }
        },
    }
        },
    }
        },
    }
        },
    }
        },
    }
        },
    }
        },
    }
        },
    }
        },
    }
        },
    }
        },
    }
        },
    }
        },
    }
        },
    }
        },
    }
        },
    }
        },
    }
        },
    }
        },
    }
        },
    }
        },
    }
        },
    }
        },
    }
}

} // verus!
