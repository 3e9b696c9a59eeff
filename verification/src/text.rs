//! Text helpers: equality, searching, slicing and decimal numbers.

use vstd::prelude::*;
use vstd::utf8::*;

verus! {

/// The character that stands for the decimal digit `d`.
pub open spec fn digit_char(d: nat) -> char {
    ('0' as u32 + d) as char
}

/// The value of the decimal digit `c`.
pub open spec fn digit_value(c: char) -> nat {
    (c as u32 - '0' as u32) as nat
}

/// Whether `c` is one of `0` to `9`.
pub open spec fn is_digit(c: char) -> bool {
    '0' <= c && c <= '9'
}

/// The decimal notation of `n`, without leading zeros.
pub open spec fn decimal(n: nat) -> Seq<char>
    decreases n,
{
    if n < 10 {
        seq![digit_char(n)]
    } else {
        decimal(n / 10).push(digit_char(n % 10))
    }
}

/// The number that a sequence of decimal digits denotes.
pub open spec fn decimal_value(s: Seq<char>) -> nat
    decreases s.len(),
{
    if s.len() == 0 {
        0
    } else {
        decimal_value(s.drop_last()) * 10 + digit_value(s.last())
    }
}

/// Whether `s` consists of decimal digits only.
pub open spec fn all_digits(s: Seq<char>) -> bool {
    forall|i: int| 0 <= i < s.len() ==> is_digit(#[trigger] s[i])
}

/// Whether `needle` occurs in `hay` at position `i`.
pub open spec fn occurs_at(hay: Seq<char>, needle: Seq<char>, i: int) -> bool {
    0 <= i && i + needle.len() <= hay.len() && hay.subrange(i, i + needle.len()) == needle
}

/// Whether `needle` occurs anywhere in `hay`.
pub open spec fn occurs_in(hay: Seq<char>, needle: Seq<char>) -> bool {
    exists|i: int| #[trigger] occurs_at(hay, needle, i)
}

/// The position of the first `c` in `s` from `from` on, or the length of `s`.
pub open spec fn first_from(s: Seq<char>, c: char, from: int) -> int
    decreases s.len() - from,
{
    if from >= s.len() {
        s.len() as int
    } else if s[from] == c {
        from
    } else {
        first_from(s, c, from + 1)
    }
}

/// One more than the position of the last `c` in the first `to` characters of `s`, or zero.
pub open spec fn after_last(s: Seq<char>, c: char, to: int) -> int
    decreases to,
{
    if to <= 0 {
        0
    } else if s[to - 1] == c {
        to
    } else {
        after_last(s, c, to - 1)
    }
}

/// Decimal notation is read back as the number it was written for.
pub proof fn decimal_reads_back(n: nat)
    ensures
        all_digits(decimal(n)),
        decimal(n).len() > 0,
        decimal_value(decimal(n)) == n,
    decreases n,
{
    let s = decimal(n);
    if n < 10 {
        assert(s.drop_last() =~= Seq::<char>::empty());
        assert(decimal_value(Seq::<char>::empty()) == 0);
    } else {
        decimal_reads_back(n / 10);
        assert(s.drop_last() =~= decimal(n / 10));
    }
}

/// Two numbers with the same decimal notation are equal.
pub proof fn decimal_is_injective(a: nat, b: nat)
    requires
        decimal(a) == decimal(b),
    ensures
        a == b,
{
    decimal_reads_back(a);
    decimal_reads_back(b);
}

/// Compares two byte slices.
pub fn bytes_eq(a: &[u8], b: &[u8]) -> (r: bool)
    ensures
        r == (a@ == b@),
{
    if a.len() != b.len() {
        return false;
    }
    let mut i: usize = 0;
    while i < a.len()
        invariant
            a.len() == b.len(),
            i <= a.len(),
            forall|j: int| 0 <= j < i ==> a@[j] == b@[j],
        decreases a.len() - i,
    {
        if a[i] != b[i] {
            return false;
        }
        i += 1;
    }
    assert(a@ =~= b@);
    true
}

/// Compares two texts character by character.
pub fn str_eq(a: &str, b: &str) -> (r: bool)
    ensures
        r == (a@ == b@),
{
    proof {
        encode_utf8_decode_utf8(a@);
        encode_utf8_decode_utf8(b@);
    }
    bytes_eq(a.as_bytes(), b.as_bytes())
}

/// The characters of a text.
pub fn chars_of(s: &str) -> (r: Vec<char>)
    ensures
        r@ == s@,
{
    let mut out: Vec<char> = Vec::new();
    for c in it: s.chars()
        invariant
            it.seq() == s@,
            out@ == s@.take(it.index() as int),
    {
        out.push(c);
    }
    out
}

/// The text of one decimal digit.
fn digit_text(d: u64) -> (r: &'static str)
    requires
        d < 10,
    ensures
        r@ == seq![digit_char(d as nat)],
{
    proof {
        reveal_strlit("0");
        reveal_strlit("1");
        reveal_strlit("2");
        reveal_strlit("3");
        reveal_strlit("4");
        reveal_strlit("5");
        reveal_strlit("6");
        reveal_strlit("7");
        reveal_strlit("8");
        reveal_strlit("9");
    }
    if d == 0 {
        "0"
    } else if d == 1 {
        "1"
    } else if d == 2 {
        "2"
    } else if d == 3 {
        "3"
    } else if d == 4 {
        "4"
    } else if d == 5 {
        "5"
    } else if d == 6 {
        "6"
    } else if d == 7 {
        "7"
    } else if d == 8 {
        "8"
    } else {
        "9"
    }
}

/// Writes a number in decimal notation.
pub fn decimal_text(n: u64) -> (r: String)
    ensures
        r@ == decimal(n as nat),
    decreases n,
{
    if n < 10 {
        digit_text(n).to_string()
    } else {
        let mut s = decimal_text(n / 10);
        s.append(digit_text(n % 10));
        s
    }
}

/// Joins two texts.
pub fn concat2(a: &str, b: &str) -> (r: String)
    ensures
        r@ == a@ + b@,
{
    let mut s = a.to_string();
    s.append(b);
    s
}

/// Joins three texts.
pub fn concat3(a: &str, b: &str, c: &str) -> (r: String)
    ensures
        r@ == a@ + b@ + c@,
{
    let mut s = a.to_string();
    s.append(b);
    s.append(c);
    s
}

/// Whether `needle` occurs in `hay`.
pub fn contains_text(hay: &str, needle: &str) -> (r: bool)
    ensures
        r == occurs_in(hay@, needle@),
{
    let h = chars_of(hay);
    let n = chars_of(needle);
    if n.len() > h.len() {
        return false;
    }
    let last: usize = h.len() - n.len();
    let mut i: usize = 0;
    while i <= last
        invariant
            h@ == hay@,
            n@ == needle@,
            n.len() <= h.len(),
            last == h.len() - n.len(),
            i <= last + 1,
            forall|k: int| 0 <= k < i ==> !#[trigger] occurs_at(hay@, needle@, k),
        decreases last + 1 - i,
    {
        let mut j: usize = 0;
        while j < n.len() && h[i + j] == n[j]
            invariant
                n.len() <= h.len(),
                last == h.len() - n.len(),
                i <= last,
                j <= n.len(),
                forall|k: int| 0 <= k < j ==> h@[i + k] == n@[k],
            decreases n.len() - j,
        {
            j += 1;
        }
        if j == n.len() {
            assert(hay@.subrange(i as int, i + needle@.len()) =~= needle@);
            assert(occurs_at(hay@, needle@, i as int));
            return true;
        }
        assert(!occurs_at(hay@, needle@, i as int)) by {
            if occurs_at(hay@, needle@, i as int) {
                assert(hay@.subrange(i as int, i + needle@.len())[j as int] == needle@[j as int]);
            }
        }
        if i == usize::MAX {
            return false;
        }
        i += 1;
    }
    false
}

/// Everything of `s` behind `prefix`, where `s` starts with it.
pub fn strip_prefix<'a>(s: &'a str, prefix: &str) -> (r: Option<&'a str>)
    ensures
        match r {
            Some(rest) => s@ == prefix@ + rest@,
            None => !prefix@.is_prefix_of(s@),
        },
{
    let n: usize = prefix.unicode_len();
    let len: usize = s.unicode_len();
    if len < n {
        return None;
    }
    let head = s.substring_char(0, n);
    if str_eq(head, prefix) {
        let rest = s.substring_char(n, len);
        assert(s@ =~= prefix@ + rest@);
        Some(rest)
    } else {
        None
    }
}

/// The position of the first `c` in `s` from `from` on, or the length of `s`.
pub fn find_from(s: &Vec<char>, c: char, from: usize) -> (r: usize)
    requires
        from <= s.len(),
    ensures
        r == first_from(s@, c, from as int),
        from <= r <= s.len(),
{
    let mut i: usize = from;
    while i < s.len() && s[i] != c
        invariant
            from <= i <= s.len(),
            first_from(s@, c, from as int) == first_from(s@, c, i as int),
        decreases s.len() - i,
    {
        i += 1;
    }
    i
}

/// One more than the position of the last `c` in `s`, or zero.
pub fn find_after_last(s: &Vec<char>, c: char) -> (r: usize)
    ensures
        r == after_last(s@, c, s@.len() as int),
        r <= s.len(),
{
    let mut i: usize = s.len();
    while i > 0 && s[i - 1] != c
        invariant
            i <= s.len(),
            after_last(s@, c, s@.len() as int) == after_last(s@, c, i as int),
        decreases i,
    {
        i -= 1;
    }
    i
}

/// The number that a text denotes: an optional plus sign and decimal digits, at most 65535.
pub open spec fn u16_of(s: Seq<char>) -> Option<u16> {
    let digits = if s.len() > 0 && s[0] == '+' {
        s.skip(1)
    } else {
        s
    };
    if digits.len() > 0 && all_digits(digits) && decimal_value(digits) <= u16::MAX {
        Some(decimal_value(digits) as u16)
    } else {
        None
    }
}

/// Cutting off digits never makes a number larger.
proof fn decimal_value_grows(s: Seq<char>, n: int)
    requires
        0 <= n <= s.len(),
    ensures
        decimal_value(s.take(n)) <= decimal_value(s),
    decreases s.len() - n,
{
    if n < s.len() {
        decimal_value_grows(s, n + 1);
        assert(s.take(n + 1).drop_last() =~= s.take(n));
    } else {
        assert(s.take(n) =~= s);
    }
}

/// Reads a number: an optional plus sign and decimal digits, at most 65535.
pub fn parse_u16(s: &str) -> (r: Option<u16>)
    ensures
        r == u16_of(s@),
{
    let c = chars_of(s);
    let start: usize = if c.len() > 0 && c[0] == '+' {
        1
    } else {
        0
    };
    let ghost digits = s@.skip(start as int);
    assert(start == 0 ==> digits =~= s@);
    if start == c.len() {
        return None;
    }
    let mut value: u32 = 0;
    let mut i: usize = start;
    assert(digits.take(0) =~= Seq::<char>::empty());
    while i < c.len()
        invariant
            c@ == s@,
            start <= i <= c.len(),
            start < c.len(),
            start == (if s@.len() > 0 && s@[0] == '+' {
                1int
            } else {
                0
            }),
            digits == s@.skip(start as int),
            start == 0 ==> digits == s@,
            value <= u16::MAX,
            all_digits(digits.take(i - start)),
            value == decimal_value(digits.take(i - start)),
        decreases c.len() - i,
    {
        let d = c[i];
        assert(digits[i - start] == d);
        assert(digits.take(i - start + 1).drop_last() =~= digits.take(i - start));
        if !('0' <= d && d <= '9') {
            assert(!is_digit(digits[i - start]));
            return None;
        }
        let next: u32 = value * 10 + (d as u32 - '0' as u32);
        assert(digits.take(i - start + 1).last() == d);
        assert(next == decimal_value(digits.take(i - start + 1)));
        if next > u16::MAX as u32 {
            proof {
                decimal_value_grows(digits, i - start + 1);
            }
            return None;
        }
        value = next;
        i += 1;
    }
    assert(digits.take(i - start) =~= digits);
    Some(value as u16)
}

/// A text in an option.
pub open spec fn text_in(s: Option<String>) -> Option<Seq<char>> {
    match s {
        Some(t) => Some(t@),
        None => None,
    }
}

/// The text in an option, or another.
pub open spec fn text_else(s: Option<String>, other: Seq<char>) -> Seq<char> {
    match s {
        Some(t) => t@,
        None => other,
    }
}

/// The text in an option, or another.
pub fn text_or_else(s: Option<String>, other: &str) -> (r: String)
    ensures
        r@ == text_else(s, other@),
{
    match s {
        Some(t) => t,
        None => other.to_string(),
    }
}

/// Calls `std::str::from_utf8`: bytes that are valid UTF-8 become the text that they encode,
/// others become nothing.
#[verifier::external_body]
pub(crate) fn text_of_utf8(v: &[u8]) -> (r: Option<&str>)
    ensures
        match r {
            Some(s) => valid_utf8(v@) && s@ == decode_utf8(v@),
            None => !valid_utf8(v@),
        },
{
    std::str::from_utf8(v).ok()
}

/// What is found first is the first: the character stands there, or the text is at its end, and it
/// stands nowhere before.
pub proof fn first_from_is_the_first(s: Seq<char>, c: char, from: int)
    requires
        0 <= from <= s.len(),
    ensures
        from <= first_from(s, c, from) <= s.len(),
        first_from(s, c, from) < s.len() ==> s[first_from(s, c, from)] == c,
        forall|i: int| from <= i < first_from(s, c, from) ==> s[i] != c,
    decreases s.len() - from,
{
    if from < s.len() && s[from] != c {
        first_from_is_the_first(s, c, from + 1);
    }
}

/// What is found last is the last: the character stands before, or it is the beginning, and it
/// stands nowhere behind.
pub proof fn after_last_is_the_last(s: Seq<char>, c: char, to: int)
    requires
        0 <= to <= s.len(),
    ensures
        0 <= after_last(s, c, to) <= to,
        after_last(s, c, to) > 0 ==> s[after_last(s, c, to) - 1] == c,
        forall|i: int| after_last(s, c, to) <= i < to ==> s[i] != c,
    decreases to,
{
    if to > 0 && s[to - 1] != c {
        after_last_is_the_last(s, c, to - 1);
    }
}

/// A text occurs in another exactly where the other is made of it and what stands before and
/// behind.
pub proof fn occurring_is_standing_in_between(hay: Seq<char>, needle: Seq<char>)
    ensures
        occurs_in(hay, needle) <==> exists|a: Seq<char>, b: Seq<char>| hay == #[trigger] (a + needle
            + b),
{
    if occurs_in(hay, needle) {
        let i = choose|i: int| #[trigger] occurs_at(hay, needle, i);
        let a = hay.take(i);
        let b = hay.skip(i + needle.len());
        assert(hay =~= a + needle + b);
    }
    if exists|a: Seq<char>, b: Seq<char>| hay == #[trigger] (a + needle + b) {
        let (a, b) = choose|a: Seq<char>, b: Seq<char>| hay == #[trigger] (a + needle + b);
        assert((a + needle + b).subrange(a.len() as int, (a.len() + needle.len()) as int) =~= needle);
        assert(occurs_at(hay, needle, a.len() as int));
    }
}

/// A number up to 65535 is read from its decimal notation, with or without a plus sign before it.
pub proof fn small_numbers_are_read(n: u16)
    ensures
        u16_of(decimal(n as nat)) == Some(n),
        u16_of(seq!['+'] + decimal(n as nat)) == Some(n),
{
    decimal_reads_back(n as nat);
    let d = decimal(n as nat);
    assert(is_digit(d[0]));
    assert((seq!['+'] + d).skip(1) =~= d);
}

/// No number is read from an empty text, from a sign alone, from a text with anything else than
/// digits behind its sign, or from a number that is too large.
pub proof fn other_texts_are_no_numbers(s: Seq<char>, n: nat)
    ensures
        u16_of(Seq::empty()) is None,
        u16_of(seq!['+']) is None,
        (exists|i: int| 0 < i < s.len() && !is_digit(#[trigger] s[i])) ==> u16_of(s) is None,
        s.len() > 0 && !is_digit(s[0]) && s[0] != '+' ==> u16_of(s) is None,
        n > u16::MAX ==> u16_of(decimal(n)) is None,
{
    if exists|i: int| 0 < i < s.len() && !is_digit(#[trigger] s[i]) {
        let i = choose|i: int| 0 < i < s.len() && !is_digit(#[trigger] s[i]);
        assert(s.skip(1)[i - 1] == s[i]);
    }
    decimal_reads_back(n);
    assert(is_digit(decimal(n)[0]));
}

/// The digits are `0` to `9`, and each has its value; a further digit counts ten times what stands
/// before it, and itself.
pub proof fn digits_have_their_values(d: nat, s: Seq<char>, c: char)
    requires
        d < 10,
    ensures
        digit_value(digit_char(d)) == d,
        is_digit(digit_char(d)),
        digit_char(d) as int == '0' as int + d,
        decimal_value(s.push(c)) == 10 * decimal_value(s) + digit_value(c),
        decimal_value(Seq::empty()) == 0,
{
    assert(s.push(c).drop_last() =~= s);
}

/// A text that is missing is replaced, and one that is there is taken as it is, though it be empty.
pub proof fn only_missing_texts_are_replaced(t: String, other: Seq<char>)
    ensures
        text_else(Some(t), other) == t@,
        text_else(None, other) == other,
        text_in(Some(t)) == Some(t@),
        text_in(None) is None,
{
}

/// Zeros before a number do not count.
pub proof fn leading_zeros_do_not_count(s: Seq<char>)
    requires
        s.len() > 0,
        forall|i: int| 0 <= i < s.len() ==> '0' <= #[trigger] s[i] && s[i] <= '9',
    ensures
        u16_of(seq!['0'] + s) == u16_of(s),
{
    let z = seq!['0'] + s;
    zero_adds_nothing(s);
    assert(s[0] != '+');
    assert(all_digits(s));
    assert forall|i: int| 0 <= i < z.len() implies is_digit(#[trigger] z[i]) by {
        if i > 0 {
            assert(is_digit(s[i - 1]));
        }
    }
    assert(all_digits(z));
}

/// A zero before a number adds nothing to it.
proof fn zero_adds_nothing(s: Seq<char>)
    ensures
        decimal_value(seq!['0'] + s) == decimal_value(s),
    decreases s.len(),
{
    let z = seq!['0'] + s;
    if s.len() == 0 {
        assert(z.drop_last() =~= Seq::<char>::empty());
        assert(decimal_value(Seq::<char>::empty()) == 0);
    } else {
        assert(z.drop_last() =~= seq!['0'] + s.drop_last());
        zero_adds_nothing(s.drop_last());
    }
}

} // verus!
