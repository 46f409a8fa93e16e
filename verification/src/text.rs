//! Text helpers. Every function is stated over the characters of its arguments.

use vstd::prelude::*;
use vstd::string::*;
use vstd::utf8::*;

verus! {

// ---------------------------------------------------------------------------------------------
// Functions of the standard library
// ---------------------------------------------------------------------------------------------

/// The characters with the Unicode property `White_Space`.
pub open spec fn white_space(c: char) -> bool {
    ||| '\u{9}' <= c <= '\u{d}'
    ||| c == '\u{20}'
    ||| c == '\u{85}'
    ||| c == '\u{a0}'
    ||| c == '\u{1680}'
    ||| '\u{2000}' <= c <= '\u{200a}'
    ||| c == '\u{2028}'
    ||| c == '\u{2029}'
    ||| c == '\u{202f}'
    ||| c == '\u{205f}'
    ||| c == '\u{3000}'
}

/// `char::is_whitespace`: true exactly of the characters with the Unicode property `White_Space`.
pub assume_specification[ char::is_whitespace ](c: char) -> (r: bool)
    ensures
        r == white_space(c),
;

/// `String::push`: appends one character.
pub assume_specification[ String::push ](text: &mut String, c: char)
    ensures
        final(text)@ == old(text)@.push(c),
;

/// What `str::to_lowercase` makes of a text.
pub uninterp spec fn lowercase_text(s: Seq<char>) -> Seq<char>;

/// An ASCII capital becomes the small letter, every other character stays.
pub open spec fn ascii_lowercase(c: char) -> char {
    if 'A' <= c <= 'Z' {
        (c as u32 + 32) as char
    } else {
        c
    }
}

/// A text in small letters: of a text that is all ASCII, the capitals become small letters and
/// the rest stays; of other texts, what `str::to_lowercase` makes of them.
pub open spec fn lowered(s: Seq<char>) -> Seq<char> {
    if is_ascii_chars(s) {
        s.map_values(|c: char| ascii_lowercase(c))
    } else {
        lowercase_text(s)
    }
}

/// `str::to_lowercase`. Its result is a function of the text. Of a text that is all ASCII, the
/// capitals become small letters and the rest stays; of other texts the contract says no more.
#[verifier::external_body]
pub(crate) fn lowercase(s: &str) -> (r: String)
    ensures
        r@ == lowercase_text(s@),
        is_ascii_chars(s@) ==> r@ == s@.map_values(|c: char| ascii_lowercase(c)),
{
    s.to_lowercase()
}

/// `String::from_utf8`: the text that the bytes encode, or the bytes themselves where they are
/// no UTF-8.
#[verifier::external_body]
pub(crate) fn utf8_text(bytes: Vec<u8>) -> (r: Result<String, Vec<u8>>)
    ensures
        r is Ok <==> valid_utf8(bytes@),
        r matches Ok(text) ==> text@ == decode_utf8(bytes@),
        r matches Err(back) ==> back@ == bytes@,
{
    String::from_utf8(bytes).map_err(|error| error.into_bytes())
}

/// What `String::from_utf8_lossy` makes of bytes.
pub uninterp spec fn lossy_text(bytes: Seq<u8>) -> Seq<char>;

/// `String::from_utf8_lossy`. Its result is a function of the bytes. Bytes that are UTF-8 are
/// decoded as they stand; what replaces the others is not stated.
#[verifier::external_body]
pub(crate) fn utf8_lossy(bytes: &[u8]) -> (r: String)
    ensures
        r@ == lossy_text(bytes@),
        valid_utf8(bytes@) ==> r@ == decode_utf8(bytes@),
{
    String::from_utf8_lossy(bytes).to_string()
}

/// The text of bytes: what they encode where they are UTF-8, and otherwise what
/// `String::from_utf8_lossy` makes of them.
pub open spec fn lossy(bytes: Seq<u8>) -> Seq<char> {
    if valid_utf8(bytes) {
        decode_utf8(bytes)
    } else {
        lossy_text(bytes)
    }
}

// ---------------------------------------------------------------------------------------------
// Characters and parts
// ---------------------------------------------------------------------------------------------

/// The characters of `s`.
pub fn chars_of(s: &str) -> (r: Vec<char>)
    ensures
        r@ == s@,
{
    let mut out: Vec<char> = Vec::new();
    for c in it: s.chars()
        invariant
            out@ == it.seq().take(it.index() as int),
            it.seq() == s@,
    {
        out.push(c);
        proof {
            assert(it.seq().take(it.index() + 1) =~= it.seq().take(it.index() as int).push(c));
        }
    }
    proof {
        assert(s@.take(s@.len() as int) =~= s@);
    }
    out
}

/// Whether `part` stands in `s` at index `at`.
fn stands_at(s: &Vec<char>, at: usize, part: &Vec<char>) -> (r: bool)
    requires
        at + part@.len() <= s@.len(),
    ensures
        r == (s@.subrange(at as int, at + part@.len()) == part@),
{
    let mut i: usize = 0;
    while i < part.len()
        invariant
            i <= part@.len(),
            at + part@.len() <= s.len(),
            forall|j: int| 0 <= j < i ==> s@[at + j] == part@[j],
        decreases part@.len() - i,
    {
        if s[at + i] != part[i] {
            proof {
                assert(s@.subrange(at as int, at + part@.len())[i as int] == s@[at + i]);
            }
            return false;
        }
        i += 1;
    }
    proof {
        assert(s@.subrange(at as int, at + part@.len()) =~= part@);
    }
    true
}

/// Whether two texts are equal.
pub fn same_text(a: &str, b: &str) -> (r: bool)
    ensures
        r == (a@ == b@),
{
    let left = chars_of(a);
    let right = chars_of(b);
    if left.len() != right.len() {
        return false;
    }
    proof {
        assert(left@.subrange(0, right@.len() as int) =~= left@);
    }
    stands_at(&left, 0, &right)
}

/// Whether `s` begins with `prefix`.
pub fn starts_with(s: &str, prefix: &str) -> (r: bool)
    ensures
        r == prefix@.is_prefix_of(s@),
{
    let all = chars_of(s);
    let part = chars_of(prefix);
    part.len() <= all.len() && stands_at(&all, 0, &part)
}

/// Whether `s` ends with `suffix`.
pub fn ends_with(s: &str, suffix: &str) -> (r: bool)
    ensures
        r == suffix@.is_suffix_of(s@),
{
    let all = chars_of(s);
    let part = chars_of(suffix);
    part.len() <= all.len() && stands_at(&all, all.len() - part.len(), &part)
}

/// Whether `part` stands somewhere in `s`.
pub open spec fn has_part(s: Seq<char>, part: Seq<char>) -> bool {
    exists|i: int|
        0 <= i <= s.len() - part.len() && #[trigger] s.subrange(i, i + part.len()) == part
}

/// Whether `s` contains `part`.
pub fn contains(s: &str, part: &str) -> (r: bool)
    ensures
        r == has_part(s@, part@),
{
    let all = chars_of(s);
    let piece = chars_of(part);
    if piece.len() > all.len() {
        return false;
    }
    let last: usize = all.len() - piece.len();
    for i in 0..last
        invariant
            all@ == s@,
            piece@ == part@,
            last == all@.len() - piece@.len(),
            forall|j: int| 0 <= j < i ==> #[trigger] all@.subrange(j, j + piece@.len()) != piece@,
    {
        if stands_at(&all, i, &piece) {
            return true;
        }
    }
    stands_at(&all, last, &piece)
}

/// The index of the first `c` in `s`, or the length of `s` where there is none.
pub open spec fn first_index(s: Seq<char>, c: char) -> int
    decreases s.len(),
{
    if s.len() == 0 || s[0] == c {
        0
    } else {
        1 + first_index(s.drop_first(), c)
    }
}

/// Where `first_index` points.
pub proof fn lemma_first_index(s: Seq<char>, c: char, at: int)
    requires
        0 <= at <= s.len(),
        forall|j: int| 0 <= j < at ==> s[j] != c,
        at < s.len() ==> s[at] == c,
    ensures
        first_index(s, c) == at,
    decreases s.len(),
{
    if s.len() > 0 && s[0] != c {
        assert(at > 0);
        assert forall|j: int| 0 <= j < at - 1 implies s.drop_first()[j] != c by {
            assert(s.drop_first()[j] == s[j + 1]);
        }
        lemma_first_index(s.drop_first(), c, at - 1);
    }
}

/// `first_index` stays within the text, and meets `c` there or nowhere.
pub proof fn lemma_first_index_bounds(s: Seq<char>, c: char)
    ensures
        0 <= first_index(s, c) <= s.len(),
        first_index(s, c) < s.len() ==> s[first_index(s, c)] == c,
        forall|j: int| 0 <= j < first_index(s, c) ==> s[j] != c,
        first_index(s, c) == s.len() <==> !s.contains(c),
    decreases s.len(),
{
    if s.len() > 0 && s[0] != c {
        let rest = s.drop_first();
        lemma_first_index_bounds(rest, c);
        assert forall|j: int| 0 <= j < first_index(s, c) implies s[j] != c by {
            if j > 0 {
                assert(rest[j - 1] == s[j]);
            }
        }
        if first_index(s, c) < s.len() {
            assert(s[first_index(s, c)] == rest[first_index(rest, c)]);
            assert(s.contains(c));
        }
    } else if s.len() > 0 {
        assert(s.contains(c));
    }
}

/// The index of the first `c` in `s` from `from` on, or the length of `s`.
pub(crate) fn find_char(s: &Vec<char>, from: usize, c: char) -> (r: usize)
    requires
        from <= s@.len(),
    ensures
        from <= r <= s@.len(),
        r == from + first_index(s@.subrange(from as int, s@.len() as int), c),
        forall|j: int| from <= j < r ==> s@[j] != c,
        r < s@.len() ==> s@[r as int] == c,
{
    let mut i: usize = from;
    while i < s.len() && s[i] != c
        invariant
            from <= i <= s@.len(),
            forall|j: int| from <= j < i ==> s@[j] != c,
        decreases s@.len() - i,
    {
        i += 1;
    }
    proof {
        let tail = s@.subrange(from as int, s@.len() as int);
        lemma_first_index(tail, c, i - from);
    }
    i
}

/// Whether `c` occurs in `s`.
pub fn has_char(s: &str, c: char) -> (r: bool)
    ensures
        r == s@.contains(c),
{
    let all = chars_of(s);
    let at = find_char(&all, 0, c);
    proof {
        assert(all@.subrange(0, all@.len() as int) =~= s@);
        lemma_first_index_bounds(s@, c);
    }
    at < all.len()
}

// ---------------------------------------------------------------------------------------------
// Trimming and splitting
// ---------------------------------------------------------------------------------------------

/// `s` without the white space at its two ends.
pub open spec fn trimmed(s: Seq<char>) -> Seq<char>
    decreases s.len(),
{
    if s.len() == 0 {
        s
    } else if white_space(s[0]) {
        trimmed(s.drop_first())
    } else if white_space(s.last()) {
        trimmed(s.drop_last())
    } else {
        s
    }
}

/// Trimming twice is trimming once.
pub proof fn trimming_settles(s: Seq<char>)
    ensures
        trimmed(trimmed(s)) == trimmed(s),
    decreases s.len(),
{
    if s.len() > 0 {
        if white_space(s[0]) {
            trimming_settles(s.drop_first());
        } else if white_space(s.last()) {
            trimming_settles(s.drop_last());
        }
    }
}

/// Trims white space at both ends.
pub fn trim(s: &str) -> (r: &str)
    ensures
        r@ == trimmed(s@),
{
    let all = chars_of(s);
    let mut low: usize = 0;
    let mut high: usize = all.len();
    proof {
        assert(all@.subrange(0, all@.len() as int) =~= s@);
    }
    while low < high && all[low].is_whitespace()
        invariant
            low <= high,
            high == all@.len(),
            all@ == s@,
            trimmed(s@) == trimmed(all@.subrange(low as int, high as int)),
        decreases high - low,
    {
        proof {
            let part = all@.subrange(low as int, high as int);
            assert(part[0] == all@[low as int]);
            assert(part.drop_first() =~= all@.subrange(low + 1, high as int));
        }
        low += 1;
    }
    while low < high && all[high - 1].is_whitespace()
        invariant
            low <= high <= all@.len(),
            all@ == s@,
            low < high ==> !white_space(all@[low as int]),
            trimmed(s@) == trimmed(all@.subrange(low as int, high as int)),
        decreases high - low,
    {
        proof {
            let part = all@.subrange(low as int, high as int);
            assert(part[0] == all@[low as int]);
            assert(part.last() == all@[high - 1]);
            assert(part.drop_last() =~= all@.subrange(low as int, high - 1));
        }
        high -= 1;
    }
    proof {
        let part = all@.subrange(low as int, high as int);
        if low < high {
            assert(part[0] == all@[low as int]);
            assert(part.last() == all@[high - 1]);
        }
    }
    s.substring_char(low, high)
}

/// `s` without the `c` at its end, however often it stands there.
pub open spec fn trimmed_end(s: Seq<char>, c: char) -> Seq<char>
    decreases s.len(),
{
    if s.len() > 0 && s.last() == c {
        trimmed_end(s.drop_last(), c)
    } else {
        s
    }
}

/// Removes every `c` at the end of `s`.
pub fn trim_end_char(s: &str, c: char) -> (r: &str)
    ensures
        r@ == trimmed_end(s@, c),
{
    let all = chars_of(s);
    let mut high: usize = all.len();
    proof {
        assert(all@.subrange(0, all@.len() as int) =~= s@);
    }
    while high > 0 && all[high - 1] == c
        invariant
            high <= all@.len(),
            all@ == s@,
            trimmed_end(s@, c) == trimmed_end(all@.subrange(0, high as int), c),
        decreases high,
    {
        proof {
            let part = all@.subrange(0, high as int);
            assert(part.last() == all@[high - 1]);
            assert(part.drop_last() =~= all@.subrange(0, high - 1));
        }
        high -= 1;
    }
    proof {
        if high > 0 {
            assert(all@.subrange(0, high as int).last() == all@[high - 1]);
        }
    }
    s.substring_char(0, high)
}

/// What follows `prefix` in `s`, where `s` begins with it.
pub fn strip_prefix<'a>(s: &'a str, prefix: &str) -> (r: Option<&'a str>)
    ensures
        r is Some <==> prefix@.is_prefix_of(s@),
        r matches Some(rest) ==> rest@ == s@.skip(prefix@.len() as int),
{
    if !starts_with(s, prefix) {
        return None;
    }
    let skipped: usize = prefix.unicode_len();
    let total: usize = s.unicode_len();
    Some(s.substring_char(skipped, total))
}

/// The index of the first white space in `s`, or its length.
pub open spec fn first_space(s: Seq<char>) -> int
    decreases s.len(),
{
    if s.len() == 0 || white_space(s[0]) {
        0
    } else {
        1 + first_space(s.drop_first())
    }
}

/// The first word of `s`: the first run of characters without white space, empty where `s` has
/// none.
pub open spec fn first_word(s: Seq<char>) -> Seq<char>
    decreases s.len(),
{
    if s.len() > 0 && white_space(s[0]) {
        first_word(s.drop_first())
    } else {
        s.take(first_space(s))
    }
}

/// The first word of a text.
pub fn word_at_start(s: &str) -> (r: &str)
    ensures
        r@ == first_word(s@),
{
    let all = chars_of(s);
    let mut low: usize = 0;
    proof {
        assert(all@.subrange(0, all@.len() as int) =~= s@);
    }
    while low < all.len() && all[low].is_whitespace()
        invariant
            low <= all@.len(),
            all@ == s@,
            first_word(s@) == first_word(all@.subrange(low as int, all@.len() as int)),
        decreases all@.len() - low,
    {
        proof {
            let part = all@.subrange(low as int, all@.len() as int);
            assert(part[0] == all@[low as int]);
            assert(part.drop_first() =~= all@.subrange(low + 1, all@.len() as int));
        }
        low += 1;
    }
    let mut high: usize = low;
    let ghost rest = all@.subrange(low as int, all@.len() as int);
    while high < all.len() && !all[high].is_whitespace()
        invariant
            low <= high <= all@.len(),
            all@ == s@,
            rest == all@.subrange(low as int, all@.len() as int),
            first_space(rest) == high - low + first_space(
                all@.subrange(high as int, all@.len() as int),
            ),
        decreases all@.len() - high,
    {
        proof {
            let part = all@.subrange(high as int, all@.len() as int);
            assert(part[0] == all@[high as int]);
            assert(part.drop_first() =~= all@.subrange(high + 1, all@.len() as int));
        }
        high += 1;
    }
    proof {
        let part = all@.subrange(high as int, all@.len() as int);
        if high < all@.len() {
            assert(part[0] == all@[high as int]);
        }
        assert(first_space(part) == 0);
        if low < all@.len() {
            assert(rest[0] == all@[low as int]);
        }
        assert(rest.take(high - low) =~= all@.subrange(low as int, high as int));
    }
    s.substring_char(low, high)
}

// ---------------------------------------------------------------------------------------------
// Building text
// ---------------------------------------------------------------------------------------------

/// Two texts, one after the other.
pub fn joined(a: &str, b: &str) -> (r: String)
    ensures
        r@ == a@ + b@,
{
    let mut out = a.to_owned();
    out.append(b);
    out
}

/// Three texts, one after the other.
pub fn joined3(a: &str, b: &str, c: &str) -> (r: String)
    ensures
        r@ == a@ + b@ + c@,
{
    let mut out = joined(a, b);
    out.append(c);
    out
}

/// The decimal digit of a number below ten.
pub open spec fn digit(n: nat) -> char {
    ('0' as u32 + n) as char
}

/// The decimal digits of a natural number, without leading zeros.
pub open spec fn decimal_digits(n: nat) -> Seq<char>
    decreases n,
{
    if n < 10 {
        seq![digit(n)]
    } else {
        decimal_digits(n / 10).push(digit(n % 10))
    }
}

/// An integer in decimal, with a minus sign where it is negative.
pub open spec fn decimal(n: int) -> Seq<char> {
    if n < 0 {
        seq!['-'] + decimal_digits((-n) as nat)
    } else {
        decimal_digits(n as nat)
    }
}

proof fn lemma_digits_are_ascii(n: nat)
    ensures
        forall|i: int|
            0 <= i < decimal_digits(n).len() ==> '0' <= #[trigger] decimal_digits(n)[i] <= '9',
    decreases n,
{
    let digits = decimal_digits(n);
    if n >= 10 {
        let head = decimal_digits(n / 10);
        lemma_digits_are_ascii(n / 10);
        assert(digits == head.push(digit(n % 10)));
        assert forall|i: int| 0 <= i < digits.len() implies '0' <= #[trigger] digits[i] <= '9' by {
            if i < head.len() {
                assert(digits[i] == head[i]);
            }
        }
    }
}

/// Two natural numbers with the same digits are the same.
proof fn lemma_digits_tell_numbers_apart(a: nat, b: nat)
    requires
        decimal_digits(a) == decimal_digits(b),
    ensures
        a == b,
    decreases a,
{
    assert(decimal_digits(a).last() == digit(a % 10));
    assert(decimal_digits(b).last() == digit(b % 10));
    assert(a % 10 == b % 10);
    if a >= 10 && b >= 10 {
        assert(decimal_digits(a).drop_last() =~= decimal_digits(a / 10));
        assert(decimal_digits(b).drop_last() =~= decimal_digits(b / 10));
        lemma_digits_tell_numbers_apart(a / 10, b / 10);
    } else if a >= 10 {
        lemma_some_digit(a / 10);
    } else if b >= 10 {
        lemma_some_digit(b / 10);
    }
}

proof fn lemma_some_digit(n: nat)
    ensures
        decimal_digits(n).len() > 0,
{
}

/// Two numbers that are the same in decimal are the same.
pub proof fn decimals_tell_numbers_apart(a: int, b: int)
    requires
        decimal(a) == decimal(b),
    ensures
        a == b,
{
    let m: nat = if a < 0 {
        (-a) as nat
    } else {
        a as nat
    };
    let n: nat = if b < 0 {
        (-b) as nat
    } else {
        b as nat
    };
    lemma_digits_are_ascii(m);
    lemma_digits_are_ascii(n);
    lemma_some_digit(m);
    lemma_some_digit(n);
    assert('0' <= decimal_digits(m)[0] && '0' <= decimal_digits(n)[0]);
    if a < 0 {
        assert(decimal(a)[0] == '-');
        assert(decimal(a).skip(1) =~= decimal_digits(m));
    }
    if b < 0 {
        assert(decimal(b)[0] == '-');
        assert(decimal(b).skip(1) =~= decimal_digits(n));
    }
    lemma_digits_tell_numbers_apart(m, n);
}

/// A number in decimal is digits, behind a minus sign at most.
pub proof fn lemma_decimal_is_ascii(n: int)
    ensures
        forall|i: int|
            0 <= i < decimal(n).len() ==> '0' <= #[trigger] decimal(n)[i] <= '9' || decimal(n)[i]
                == '-',
{
    if n < 0 {
        lemma_digits_are_ascii((-n) as nat);
    } else {
        lemma_digits_are_ascii(n as nat);
    }
}

fn push_digits(out: &mut String, n: u64)
    ensures
        final(out)@ == old(out)@ + decimal_digits(n as nat),
    decreases n,
{
    if n >= 10 {
        push_digits(out, n / 10);
    }
    let d: u8 = (n % 10) as u8;
    let c: char = (48u8 + d) as char;
    out.push(c);
    proof {
        assert(out@ =~= old(out)@ + decimal_digits(n as nat));
    }
}

/// An unsigned number in decimal.
pub fn u64_text(n: u64) -> (r: String)
    ensures
        r@ == decimal(n as int),
{
    let mut out = String::new();
    push_digits(&mut out, n);
    proof {
        assert(out@ =~= decimal(n as int));
    }
    out
}

/// A signed number in decimal.
pub fn i64_text(n: i64) -> (r: String)
    ensures
        r@ == decimal(n as int),
{
    let mut out = String::new();
    if n < 0 {
        out.push('-');
        let wide: i128 = -(n as i128);
        push_digits(&mut out, wide as u64);
    } else {
        push_digits(&mut out, n as u64);
    }
    proof {
        assert(out@ =~= decimal(n as int));
    }
    out
}

// ---------------------------------------------------------------------------------------------
// Laws
// ---------------------------------------------------------------------------------------------

/// The number that decimal digits stand for: each counts ten times as much as the one behind it.
pub open spec fn digits_value(digits: Seq<char>) -> int
    decreases digits.len(),
{
    if digits.len() == 0 {
        0
    } else {
        10 * digits_value(digits.drop_last()) + (digits.last() as int - '0' as int)
    }
}

proof fn lemma_digits_value(n: nat)
    ensures
        digits_value(decimal_digits(n)) == n,
        decimal_digits(n).len() > 0,
        decimal_digits(n)[0] == '0' ==> n == 0,
    decreases n,
{
    let digits = decimal_digits(n);
    if n < 10 {
        assert(digits.drop_last() =~= Seq::empty());
        assert(digits_value(digits.drop_last()) == 0);
        assert(digits.last() as int == '0' as int + n);
    } else {
        lemma_digits_value(n / 10);
        let head = decimal_digits(n / 10);
        assert(digits.drop_last() =~= head);
        assert(digits.last() as int == '0' as int + n % 10);
        assert(digits[0] == head[0]);
    }
}

/// A number in decimal reads back as that number: it is digits without a zero in front, behind
/// a minus sign where the number is negative.
pub proof fn decimals_read_back(n: int)
    ensures
        0 <= n ==> digits_value(decimal(n)) == n && decimal(n).len() > 0 && (decimal(n)[0] == '0'
            ==> n == 0),
        n < 0 ==> decimal(n).len() > 1 && decimal(n)[0] == '-' && digits_value(decimal(n).skip(1))
            == -n && decimal(n)[1] != '0',
        forall|i: int|
            0 <= i < decimal(n).len() && (n < 0 ==> i > 0) ==> '0' <= #[trigger] decimal(n)[i]
                <= '9',
{
    if n < 0 {
        lemma_digits_value((-n) as nat);
        lemma_digits_are_ascii((-n) as nat);
        assert(decimal(n).skip(1) =~= decimal_digits((-n) as nat));
    } else {
        lemma_digits_value(n as nat);
        lemma_digits_are_ascii(n as nat);
    }
}

/// Whether all that stands outside a part of a text is white space.
pub open spec fn space_around(s: Seq<char>, i: int, j: int) -> bool {
    &&& 0 <= i <= j <= s.len()
    &&& forall|k: int| 0 <= k < i ==> white_space(#[trigger] s[k])
    &&& forall|k: int| j <= k < s.len() ==> white_space(#[trigger] s[k])
}

/// What trimming keeps of a text.
proof fn lemma_trimmed_part(s: Seq<char>) -> (kept: (int, int))
    ensures
        space_around(s, kept.0, kept.1),
        trimmed(s) == s.subrange(kept.0, kept.1),
        trimmed(s).len() > 0 ==> !white_space(trimmed(s)[0]) && !white_space(trimmed(s).last()),
    decreases s.len(),
{
    if s.len() == 0 {
        assert(s.subrange(0, 0) =~= s);
        (0, 0)
    } else if white_space(s[0]) {
        let (i, j) = lemma_trimmed_part(s.drop_first());
        lemma_space_before(s, i, j);
        (i + 1, j + 1)
    } else if white_space(s.last()) {
        let (i, j) = lemma_trimmed_part(s.drop_last());
        lemma_space_behind(s, i, j);
        (i, j)
    } else {
        assert(s.subrange(0, s.len() as int) =~= s);
        (0, s.len() as int)
    }
}

proof fn lemma_space_before(s: Seq<char>, i: int, j: int)
    requires
        s.len() > 0,
        white_space(s[0]),
        space_around(s.drop_first(), i, j),
    ensures
        space_around(s, i + 1, j + 1),
        s.drop_first().subrange(i, j) == s.subrange(i + 1, j + 1),
{
    let rest = s.drop_first();
    assert(rest.subrange(i, j) =~= s.subrange(i + 1, j + 1));
    assert forall|k: int| 0 <= k < i + 1 implies white_space(#[trigger] s[k]) by {
        if k > 0 {
            assert(s[k] == rest[k - 1]);
        }
    }
    assert forall|k: int| j + 1 <= k < s.len() implies white_space(#[trigger] s[k]) by {
        assert(s[k] == rest[k - 1]);
    }
}

proof fn lemma_space_behind(s: Seq<char>, i: int, j: int)
    requires
        s.len() > 0,
        white_space(s.last()),
        space_around(s.drop_last(), i, j),
    ensures
        space_around(s, i, j),
        s.drop_last().subrange(i, j) == s.subrange(i, j),
{
    let rest = s.drop_last();
    assert(rest.subrange(i, j) =~= s.subrange(i, j));
    assert forall|k: int| 0 <= k < i implies white_space(#[trigger] s[k]) by {
        assert(s[k] == rest[k]);
    }
    assert forall|k: int| j <= k < s.len() implies white_space(#[trigger] s[k]) by {
        if k < rest.len() {
            assert(s[k] == rest[k]);
        }
    }
}

/// Trimming takes white space off both ends and nothing else: what is left stands in the text
/// as it is, has only white space before and behind it, and neither begins nor ends with any.
pub proof fn trimming_takes_white_space_only(s: Seq<char>)
    ensures
        exists|i: int, j: int| #[trigger] space_around(s, i, j) && trimmed(s) == s.subrange(i, j),
        trimmed(s).len() > 0 ==> !white_space(trimmed(s)[0]) && !white_space(trimmed(s).last()),
{
    let (i, j) = lemma_trimmed_part(s);
    assert(space_around(s, i, j));
}

/// A text without white space at its ends is left as it is by trimming.
pub proof fn trimming_keeps_what_has_no_space_around(s: Seq<char>)
    requires
        s.len() > 0 ==> !white_space(s[0]) && !white_space(s.last()),
    ensures
        trimmed(s) == s,
{
}

/// Of the ASCII characters, the space and the five control characters from tab to carriage
/// return are white space, and no others.
pub proof fn ascii_white_space(c: char)
    requires
        c <= '\u{7f}',
    ensures
        white_space(c) <==> c == ' ' || '\t' <= c <= '\r',
{
}

/// Removing a character from the end takes off as many as stand there, and nothing else.
pub proof fn trimming_the_end_takes_one_character_only(s: Seq<char>, c: char)
    ensures
        exists|j: int|
            0 <= j <= s.len() && trimmed_end(s, c) == #[trigger] s.take(j) && (forall|k: int|
                j <= k < s.len() ==> #[trigger] s[k] == c) && (j > 0 ==> s[j - 1] != c),
    decreases s.len(),
{
    if s.len() > 0 && s.last() == c {
        let rest = s.drop_last();
        trimming_the_end_takes_one_character_only(rest, c);
        let j = choose|j: int|
            0 <= j <= rest.len() && trimmed_end(rest, c) == #[trigger] rest.take(j) && (forall|
                k: int,
            |
                j <= k < rest.len() ==> #[trigger] rest[k] == c) && (j > 0 ==> rest[j - 1] != c);
        assert(rest.take(j) =~= s.take(j));
        assert forall|k: int| j <= k < s.len() implies #[trigger] s[k] == c by {
            if k < rest.len() {
                assert(rest[k] == c);
            }
        }
    } else {
        assert(s.take(s.len() as int) =~= s);
    }
}

proof fn lemma_first_space_bounds(s: Seq<char>)
    ensures
        0 <= first_space(s) <= s.len(),
        forall|k: int| 0 <= k < first_space(s) ==> !white_space(#[trigger] s[k]),
        first_space(s) < s.len() ==> white_space(s[first_space(s)]),
    decreases s.len(),
{
    if s.len() > 0 && !white_space(s[0]) {
        let rest = s.drop_first();
        lemma_first_space_bounds(rest);
        assert forall|k: int| 0 <= k < first_space(s) implies !white_space(#[trigger] s[k]) by {
            if k > 0 {
                assert(!white_space(rest[k - 1]));
            }
        }
    }
}

/// The first word of a text has only white space before it, none in it, and some behind it
/// unless the text ends there; it is empty only where the text is nothing but white space.
pub proof fn first_words_stand_first(s: Seq<char>)
    ensures
        exists|i: int, j: int|
            0 <= i <= j <= s.len() && first_word(s) == #[trigger] s.subrange(i, j) && (forall|
                k: int,
            |
                0 <= k < i ==> white_space(#[trigger] s[k])) && (forall|k: int|
                i <= k < j ==> !white_space(#[trigger] s[k])) && (j < s.len() ==> i < j
                && white_space(s[j])),
    decreases s.len(),
{
    if s.len() > 0 && white_space(s[0]) {
        let rest = s.drop_first();
        first_words_stand_first(rest);
        let (i, j) = choose|i: int, j: int|
            0 <= i <= j <= rest.len() && first_word(rest) == #[trigger] rest.subrange(i, j) && (
            forall|k: int| 0 <= k < i ==> white_space(#[trigger] rest[k])) && (forall|k: int|
                i <= k < j ==> !white_space(#[trigger] rest[k])) && (j < rest.len() ==> i < j
                && white_space(rest[j]));
        assert(rest.subrange(i, j) =~= s.subrange(i + 1, j + 1));
        assert forall|k: int| 0 <= k < i + 1 implies white_space(#[trigger] s[k]) by {
            if k > 0 {
                assert(white_space(rest[k - 1]));
            }
        }
        assert forall|k: int| i + 1 <= k < j + 1 implies !white_space(#[trigger] s[k]) by {
            assert(!white_space(rest[k - 1]));
        }
    } else {
        lemma_first_space_bounds(s);
        assert(s.take(first_space(s)) =~= s.subrange(0, first_space(s)));
    }
}

/// A text holds what stands somewhere in it, and nothing else.
pub proof fn parts_stand_in_their_text(s: Seq<char>, part: Seq<char>)
    ensures
        has_part(s, part) <==> exists|before: Seq<char>, after: Seq<char>|
            s == #[trigger] (before + part + after),
{
    if has_part(s, part) {
        let i = choose|i: int|
            0 <= i <= s.len() - part.len() && #[trigger] s.subrange(i, i + part.len()) == part;
        assert(s =~= s.take(i) + part + s.skip(i + part.len()));
    }
    if exists|before: Seq<char>, after: Seq<char>| s == #[trigger] (before + part + after) {
        let (before, after) = choose|before: Seq<char>, after: Seq<char>|
            s == #[trigger] (before + part + after);
        let i = before.len() as int;
        assert(s.subrange(i, i + part.len()) =~= part);
    }
}

/// Small letters are what an ASCII text comes to: a capital becomes the small letter of the same
/// place in the alphabet, and every other character stays.
pub proof fn lowering_changes_capitals_only(s: Seq<char>, i: int)
    requires
        is_ascii_chars(s),
        0 <= i < s.len(),
    ensures
        lowered(s).len() == s.len(),
        'A' <= s[i] <= 'Z' ==> lowered(s)[i] as int - 'a' as int == s[i] as int - 'A' as int,
        !('A' <= s[i] <= 'Z') ==> lowered(s)[i] == s[i],
{
}

/// Trimming leaves nothing of a text just where all of it is white space.
pub proof fn blank_texts_trim_to_nothing(s: Seq<char>)
    ensures
        trimmed(s).len() == 0 <==> forall|i: int|
            0 <= i < s.len() ==> white_space(#[trigger] s[i]),
{
    let (i, j) = lemma_trimmed_part(s);
    if trimmed(s).len() == 0 {
        assert(i == j);
        assert forall|k: int| 0 <= k < s.len() implies white_space(#[trigger] s[k]) by {
            if k < i {
                assert(white_space(s[k]));
            }
        }
    } else {
        assert(trimmed(s)[0] == s[i]);
    }
}

} // verus!
