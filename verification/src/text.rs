//! Numbers and names as text.
use vstd::prelude::*;

verus! {

/// The character for a hexadecimal digit, in lower case.
pub open spec fn digit(d: nat) -> char {
    if d < 10 {
        (48 + d) as char
    } else {
        (87 + d) as char
    }
}

/// `n` in decimal, without leading zeros.
pub open spec fn dec(n: nat) -> Seq<char>
    decreases n,
{
    if n < 10 {
        seq![digit(n)]
    } else {
        dec(n / 10).push(digit(n % 10))
    }
}

/// The low `width` hexadecimal digits of `n`.
pub open spec fn hex(n: nat, width: nat) -> Seq<char>
    decreases width,
{
    if width == 0 {
        seq![]
    } else {
        hex(n / 16, (width - 1) as nat).push(digit(n % 16))
    }
}

/// Append one hexadecimal digit.
fn push_digit(out: &mut String, d: u8)
    requires
        d < 16,
    ensures
        final(out)@ == old(out)@.push(digit(d as nat)),
{
    proof {
        reveal_strlit("0");
        reveal_strlit("1");
        reveal_strlit("2");
        reveal_strlit("3");
        reveal_strlit("4");
        reveal_strlit("5");
        reveal_strlit("6");
        reveal_strlit("7");
        reveal_strlit("8");
        reveal_strlit("9");
        reveal_strlit("a");
        reveal_strlit("b");
        reveal_strlit("c");
        reveal_strlit("d");
        reveal_strlit("e");
        reveal_strlit("f");
    }
    let text: &str = match d {
        0 => "0",
        1 => "1",
        2 => "2",
        3 => "3",
        4 => "4",
        5 => "5",
        6 => "6",
        7 => "7",
        8 => "8",
        9 => "9",
        10 => "a",
        11 => "b",
        12 => "c",
        13 => "d",
        14 => "e",
        _ => "f",
    };
    assert(text@ =~= seq![digit(d as nat)]);
    out.append(text);
}

/// Append `n` in decimal.
pub fn push_dec(out: &mut String, n: u64)
    ensures
        final(out)@ == old(out)@ + dec(n as nat),
    decreases n,
{
    if n >= 10 {
        push_dec(out, n / 10);
    }
    push_digit(out, (n % 10) as u8);
}

/// Append the low `width` hexadecimal digits of `n`.
fn push_hex(out: &mut String, n: u32, width: u8)
    ensures
        final(out)@ == old(out)@ + hex(n as nat, width as nat),
    decreases width,
{
    if width > 0 {
        push_hex(out, n / 16, width - 1);
        push_digit(out, (n % 16) as u8);
    }
}

/// `n` as `0x` and eight hexadecimal digits.
pub open spec fn hex_word(n: u32) -> Seq<char> {
    "0x"@ + hex(n as nat, 8)
}

/// Append `n` as `0x` and eight hexadecimal digits.
pub fn push_hex_word(out: &mut String, n: u32)
    ensures
        final(out)@ == old(out)@ + hex_word(n),
{
    out.append("0x");
    push_hex(out, n, 8);
}

/// Whether `c` is a decimal digit.
pub open spec fn is_digit(c: char) -> bool {
    '0' <= c <= '9'
}

/// The number that a run of decimal digits stands for.
pub open spec fn value(s: Seq<char>) -> nat
    decreases s.len(),
{
    if s.len() == 0 {
        0
    } else {
        value(s.drop_last()) * 10 + (s.last() as nat - 48) as nat
    }
}

/// The digits of a number: what follows an optional plus sign.
pub open spec fn digits_of(s: Seq<char>) -> Seq<char> {
    if s.len() > 0 && s[0] == '+' {
        s.skip(1)
    } else {
        s
    }
}

/// The number that `s` stands for: an optional plus sign, then one or more
/// decimal digits and nothing else.
pub open spec fn number(s: Seq<char>) -> Option<nat> {
    if digits_of(s).len() > 0 && forall|i: int|
        0 <= i < digits_of(s).len() ==> is_digit(#[trigger] digits_of(s)[i]) {
        Some(value(digits_of(s)))
    } else {
        None
    }
}

/// A run of digits stands for at least what its front stands for.
proof fn lemma_value_grows(s: Seq<char>, n: int)
    requires
        0 <= n <= s.len(),
        forall|i: int| 0 <= i < s.len() ==> is_digit(#[trigger] s[i]),
    ensures
        value(s.take(n)) <= value(s),
    decreases s.len() - n,
{
    if n < s.len() {
        lemma_value_grows(s, n + 1);
        assert(s.take(n + 1).drop_last() =~= s.take(n));
        assert(is_digit(s[n]));
    } else {
        assert(s.take(n) =~= s);
    }
}

/// Parse a number that is at most `max`.
pub fn parse_number(s: &str, max: u64) -> (r: Option<u64>)
    ensures
        match number(s@) {
            Some(n) => r == if n <= max {
                Some(n as u64)
            } else {
                None
            },
            None => r is None,
        },
{
    let len: usize = s.unicode_len();
    let start: usize = if len > 0 && s.get_char(0) == '+' {
        1
    } else {
        0
    };
    if start == len {
        return None;
    }
    let ghost body = digits_of(s@);
    let mut acc: u64 = 0;
    let mut i: usize = start;
    while i < len
        invariant
            start <= i <= len,
            len == s@.len(),
            body == digits_of(s@),
            body.len() == len - start,
            body.len() > 0,
            forall|k: int| 0 <= k < body.len() ==> body[k] == #[trigger] s@[k + start],
            forall|k: int| 0 <= k < i - start ==> is_digit(#[trigger] body[k]),
            acc == value(body.take(i - start)),
            acc <= max,
        decreases len - i,
    {
        let c: char = s.get_char(i);
        assert(body[i - start] == s@[i - start + start]);
        if c < '0' || c > '9' {
            assert(!is_digit(body[i - start]));
            return None;
        }
        let d: u128 = (c as u32 - 48) as u128;
        let next: u128 = acc as u128 * 10 + d;
        proof {
            let front = body.take(i - start + 1);
            assert(front.drop_last() =~= body.take(i - start));
            assert(front.last() == c);
            assert(value(front) == next);
        }
        if next > max as u128 {
            proof {
                if number(s@) is Some {
                    lemma_value_grows(body, i - start + 1);
                }
            }
            return None;
        }
        acc = next as u64;
        i = i + 1;
    }
    assert(body.take(i - start) =~= body);
    Some(acc)
}

/// Whether `a` comes before `b` when names are ordered by their characters.
pub open spec fn name_lt(a: Seq<char>, b: Seq<char>) -> bool
    decreases a.len(),
{
    if b.len() == 0 {
        false
    } else if a.len() == 0 {
        true
    } else if a[0] != b[0] {
        a[0] < b[0]
    } else {
        name_lt(a.skip(1), b.skip(1))
    }
}

/// Of two different names one comes before the other, and no name comes before
/// itself.
pub proof fn law_name_order_total(a: Seq<char>, b: Seq<char>)
    ensures
        name_lt(a, b) || name_lt(b, a) || a == b,
        !(name_lt(a, b) && name_lt(b, a)),
        !name_lt(a, a),
    decreases a.len(),
{
    if a.len() > 0 {
        law_name_order_total(a.skip(1), a.skip(1));
    }
    if a.len() > 0 && b.len() > 0 && a[0] == b[0] {
        law_name_order_total(a.skip(1), b.skip(1));
        if a.skip(1) == b.skip(1) {
            assert(a =~= b) by {
                assert forall|i: int| 0 <= i < a.len() implies a[i] == b[i] by {
                    if i > 0 {
                        assert(a.skip(1)[i - 1] == b.skip(1)[i - 1]);
                    }
                }
            }
        }
    } else if a.len() == 0 && b.len() == 0 {
        assert(a =~= b);
    }
}

/// The order of names is transitive.
pub proof fn law_name_order_transitive(a: Seq<char>, b: Seq<char>, c: Seq<char>)
    requires
        name_lt(a, b),
        name_lt(b, c),
    ensures
        name_lt(a, c),
    decreases a.len(),
{
    if a.len() > 0 && a[0] == b[0] && b[0] == c[0] {
        law_name_order_transitive(a.skip(1), b.skip(1), c.skip(1));
    }
}

/// How one name stands to another.
#[derive(Debug, Clone, Copy, PartialEq, Eq, Structural)]
pub enum NameOrder {
    /// It comes before the other.
    Before,
    /// It is the other.
    Same,
    /// It comes after the other.
    After,
}

/// Tell how `a` stands to `b`.
pub fn name_order(a: &str, b: &str) -> (r: NameOrder)
    ensures
        r == NameOrder::Before <==> name_lt(a@, b@),
        r == NameOrder::Same <==> a@ == b@,
        r == NameOrder::After <==> name_lt(b@, a@),
{
    let a_len: usize = a.unicode_len();
    let b_len: usize = b.unicode_len();
    let mut i: usize = 0;
    proof {
        law_name_order_total(a@, b@);
        assert(a@.skip(0) =~= a@);
        assert(b@.skip(0) =~= b@);
    }
    while i < a_len && i < b_len
        invariant
            i <= a_len == a@.len(),
            i <= b_len == b@.len(),
            name_lt(a@, b@) == name_lt(a@.skip(i as int), b@.skip(i as int)),
            name_lt(b@, a@) == name_lt(b@.skip(i as int), a@.skip(i as int)),
            forall|k: int| 0 <= k < i ==> a@[k] == b@[k],
            name_lt(a@, b@) || name_lt(b@, a@) || a@ == b@,
            !(name_lt(a@, b@) && name_lt(b@, a@)),
            a@ == b@ ==> !name_lt(a@, b@),
        decreases a_len - i,
    {
        let x: char = a.get_char(i);
        let y: char = b.get_char(i);
        assert(a@.skip(i as int)[0] == x);
        assert(b@.skip(i as int)[0] == y);
        if x < y {
            return NameOrder::Before;
        }
        if y < x {
            return NameOrder::After;
        }
        assert(a@.skip(i as int).skip(1) =~= a@.skip(i + 1));
        assert(b@.skip(i as int).skip(1) =~= b@.skip(i + 1));
        i = i + 1;
    }
    if i < b_len {
        NameOrder::Before
    } else if i < a_len {
        NameOrder::After
    } else {
        assert(a@ =~= b@);
        NameOrder::Same
    }
}

/// Whether two names are the same.
pub fn same(a: &str, b: &str) -> (r: bool)
    ensures
        r <==> a@ == b@,
{
    match name_order(a, b) {
        NameOrder::Same => true,
        _ => false,
    }
}

/// A number written in decimal reads back as that number, and is written without
/// a leading zero.
pub proof fn law_dec_reads_back(n: nat)
    ensures
        number(dec(n)) == Some(n),
        forall|i: int| 0 <= i < dec(n).len() ==> is_digit(#[trigger] dec(n)[i]),
        dec(n).len() > 1 ==> dec(n)[0] != '0',
{
    lemma_dec_digits(n);
    assert(is_digit(dec(n)[0]));
}

/// The digits of a number, and what they stand for.
proof fn lemma_dec_digits(n: nat)
    ensures
        dec(n).len() > 0,
        value(dec(n)) == n,
        forall|i: int| 0 <= i < dec(n).len() ==> is_digit(#[trigger] dec(n)[i]),
        n > 0 ==> dec(n)[0] != '0',
    decreases n,
{
    if n < 10 {
        assert(dec(n).drop_last() =~= seq![]);
        assert(value(seq![]) == 0);
        assert(dec(n).last() == digit(n));
    } else {
        lemma_dec_digits(n / 10);
        assert(dec(n).drop_last() =~= dec(n / 10));
        assert(dec(n).last() == digit(n % 10));
    }
}

/// One more digit at the end multiplies by ten and adds that digit; a plus sign
/// in front changes nothing. What is empty, or holds anything but digits behind
/// an optional plus sign, is no number.
pub proof fn law_number_by_digits(s: Seq<char>, c: char)
    ensures
        number(seq![]) is None,
        number(seq!['+']) is None,
        is_digit(c) ==> number(seq![c]) == Some((c as nat - 48) as nat),
        number(s) is Some && is_digit(c) ==> number(s.push(c)) == Some(
            number(s)->0 * 10 + (c as nat - 48) as nat,
        ),
        s.len() > 0 && !is_digit(c) ==> number(s.push(c)) is None,
        !is_digit(c) ==> number(seq![c]) is None,
        s.len() > 0 && s[0] != '+' ==> number(seq!['+'] + s) == number(s),
        s.len() > 0 && s[0] == '+' ==> number(seq!['+'] + s) is None,
        number(s) is None && s != seq!['+'] && s.len() > 0 ==> number(s.push(c)) is None,
{
    assert(digits_of(seq!['+']) =~= seq![]);
    assert(seq![c].drop_last() =~= seq![]);
    assert(value(seq![]) == 0);
    assert(value(seq![c]) == (c as nat - 48) as nat);
    if !is_digit(c) {
        let d = digits_of(seq![c]);
        if d.len() > 0 {
            assert(!is_digit(d[0]));
        }
    }
    if s.len() > 0 {
        let d = digits_of(s);
        let e = digits_of(s.push(c));
        assert(e =~= d.push(c));
        assert(e.drop_last() =~= d);
        assert(e[d.len() as int] == c);
        if number(s) is Some && is_digit(c) {
            assert forall|i: int| 0 <= i < e.len() implies is_digit(#[trigger] e[i]) by {
                if i < d.len() {
                    assert(is_digit(d[i]));
                }
            }
        }
        if number(s) is None && s != seq!['+'] {
            if d.len() == 0 {
                assert(s =~= seq!['+']);
            } else {
                let i = choose|i: int| 0 <= i < d.len() && !is_digit(#[trigger] d[i]);
                assert(!is_digit(e[i]));
            }
        }
        let p = seq!['+'] + s;
        assert(p.skip(1) =~= s);
        if s[0] == '+' {
            assert(!is_digit(digits_of(p)[0]));
        }
    }
}

/// The number that a run of lower-case hexadecimal digits stands for.
pub open spec fn hex_value(s: Seq<char>) -> nat
    decreases s.len(),
{
    if s.len() == 0 {
        0
    } else {
        hex_value(s.drop_last()) * 16 + if is_digit(s.last()) {
            (s.last() as nat - 48) as nat
        } else {
            (s.last() as nat - 87) as nat
        }
    }
}

/// A word written in hexadecimal is `0x` and eight digits, lower case, that read
/// back as the word.
pub proof fn law_hex_word_reads_back(n: u32)
    ensures
        exists|digits: Seq<char>|
            {
                &&& hex_word(n) == "0x"@ + digits
                &&& digits.len() == 8
                &&& #[trigger] hex_value(digits) == n
                &&& forall|i: int|
                    0 <= i < 8 ==> is_digit(#[trigger] digits[i]) || 'a' <= digits[i] <= 'f'
            },
{
    reveal_with_fuel(sixteens, 9);
    lemma_hex_digits(n as nat, 8);
    let digits = hex(n as nat, 8);
    assert(hex_word(n) == "0x"@ + digits);
}

/// Sixteen to the power of `width`.
spec fn sixteens(width: nat) -> nat
    decreases width,
{
    if width == 0 {
        1
    } else {
        16 * sixteens((width - 1) as nat)
    }
}

/// The hexadecimal digits of a number, and what they stand for.
proof fn lemma_hex_digits(n: nat, width: nat)
    requires
        n < sixteens(width),
    ensures
        hex(n, width).len() == width,
        hex_value(hex(n, width)) == n,
        forall|i: int|
            0 <= i < width ==> is_digit(#[trigger] hex(n, width)[i]) || 'a' <= hex(n, width)[i]
                <= 'f',
    decreases width,
{
    if width > 0 {
        lemma_hex_digits(n / 16, (width - 1) as nat);
        let h = hex(n, width);
        assert(h.drop_last() =~= hex(n / 16, (width - 1) as nat));
        assert(h.last() == digit(n % 16));
        assert forall|i: int| 0 <= i < width implies is_digit(#[trigger] h[i]) || 'a' <= h[i]
            <= 'f' by {
            if i < width - 1 {
                assert(h[i] == hex(n / 16, (width - 1) as nat)[i]);
            }
        }
    }
}

/// Names are ordered by the first character in which they differ, and a name
/// comes before every longer one that starts with it.
pub proof fn law_name_order_first_difference(
    common: Seq<char>,
    x: char,
    a: Seq<char>,
    y: char,
    b: Seq<char>,
)
    requires
        x < y,
    ensures
        name_lt(common + seq![x] + a, common + seq![y] + b),
        name_lt(common, common + seq![x] + a),
    decreases common.len(),
{
    let (p, q) = (common + seq![x] + a, common + seq![y] + b);
    if common.len() > 0 {
        let rest = common.skip(1);
        law_name_order_first_difference(rest, x, a, y, b);
        assert(p.skip(1) =~= rest + seq![x] + a);
        assert(q.skip(1) =~= rest + seq![y] + b);
    }
}

/// A number is parsed if and only if it is no larger than the largest one asked
/// for, and then as what it is.
pub proof fn law_parse_reads_back(s: &str, max: u64, n: nat, r: Option<u64>)
    requires
        call_ensures(parse_number, (s, max), r),
        s@ == dec(n),
    ensures
        n <= max ==> r == Some(n as u64),
        n > max ==> r is None,
{
    law_dec_reads_back(n);
}

/// A number is appended as decimal digits that read back as the number, and a word
/// as `0x` and eight hexadecimal digits that read back as the word; what was there
/// before stays in front.
pub proof fn law_appended_reads_back(out: &mut String, n: u64, word: u32)
    ensures
        call_ensures(push_dec, (out, n), ()) ==> exists|digits: Seq<char>|
            final(out)@ == old(out)@ + digits && #[trigger] number(digits) == Some(n as nat),
        call_ensures(push_hex_word, (out, word), ()) ==> exists|digits: Seq<char>|
            {
                &&& final(out)@ == old(out)@ + ("0x"@ + digits)
                &&& digits.len() == 8
                &&& #[trigger] hex_value(digits) == word
            },
{
    law_dec_reads_back(n as nat);
    law_hex_word_reads_back(word);
    if call_ensures(push_dec, (out, n), ()) {
        assert(final(out)@ == old(out)@ + dec(n as nat));
    }
}

/// Two names are told to be the same if and only if they have the same characters;
/// of two that differ, the one that comes first is the one with the smaller
/// character where they first differ, or the one that ends there.
pub proof fn law_names_compared(
    a: &str,
    b: &str,
    order: NameOrder,
    same_name: bool,
    common: Seq<char>,
    x: char,
    more: Seq<char>,
    y: char,
    rest: Seq<char>,
)
    requires
        call_ensures(name_order, (a, b), order),
        call_ensures(same, (a, b), same_name),
    ensures
        same_name <==> a@ == b@,
        order == NameOrder::Same <==> a@ == b@,
        x < y && a@ == common + seq![x] + more && b@ == common + seq![y] + rest ==> order
            == NameOrder::Before,
        x > y && a@ == common + seq![x] + more && b@ == common + seq![y] + rest ==> order
            == NameOrder::After,
        a@ == common && b@ == common + seq![y] + rest ==> order == NameOrder::Before,
        b@ == common && a@ == common + seq![x] + more ==> order == NameOrder::After,
{
    if x < y {
        law_name_order_first_difference(common, x, more, y, rest);
    } else if y < x {
        law_name_order_first_difference(common, y, rest, x, more);
    }
    lemma_prefix_first(common, x, more);
    lemma_prefix_first(common, y, rest);
}

/// A name comes before every longer one that starts with it.
proof fn lemma_prefix_first(common: Seq<char>, x: char, more: Seq<char>)
    ensures
        name_lt(common, common + seq![x] + more),
    decreases common.len(),
{
    if common.len() > 0 {
        lemma_prefix_first(common.skip(1), x, more);
        assert((common + seq![x] + more).skip(1) =~= common.skip(1) + seq![x] + more);
    }
}

} // verus!
